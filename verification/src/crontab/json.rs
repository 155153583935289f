use super::text::{chars_of, decimal, hexadecimal, push_decimal, push_hexadecimal, string_of};
use super::tokens::{text_of, CronJob, CronJobView, JobSection, JobSectionView};
use super::{job_views, jobs_of, Crontab};
use vstd::prelude::*;
use vstd::string::StringExecFns;

verus! {

/// `s` with a backslash before each double quote.
pub open spec fn escaped(s: Seq<char>) -> Seq<char>
    decreases s.len(),
{
    if s.len() == 0 {
        s
    } else if s.last() == '"' {
        escaped(s.drop_last()) + seq!['\\', '"']
    } else {
        escaped(s.drop_last()).push(s.last())
    }
}

/// `s` as a JSON string.
pub open spec fn quoted(s: Seq<char>) -> Seq<char> {
    "\""@ + escaped(s) + "\""@
}

/// A JSON string, or `null` where there is no text.
pub open spec fn quoted_or_null(s: Option<Seq<char>>) -> Seq<char> {
    match s {
        Some(s) => quoted(s),
        None => "null"@,
    }
}

/// A section as a JSON object, or `null` where there is none.
pub open spec fn section_json(section: Option<JobSectionView>) -> Seq<char> {
    match section {
        Some(section) => "{\"uid\":"@ + decimal(section.uid) + ",\"title\":"@ + quoted(
            section.title,
        ) + "}"@,
        None => "null"@,
    }
}

/// A job as a JSON object. The fingerprint is a string of hexadecimal
/// digits; the schedule is written as it is.
pub open spec fn job_json(job: CronJobView) -> Seq<char> {
    "{\"uid\":"@ + decimal(job.uid) + ",\"fingerprint\":\""@ + hexadecimal(job.fingerprint as nat)
        + "\",\"tag\":"@ + quoted_or_null(job.tag) + ",\"schedule\":\""@ + job.schedule
        + "\",\"command\":"@ + quoted(job.command) + ",\"description\":"@ + quoted_or_null(
        job.description,
    ) + ",\"section\":"@ + section_json(job.section) + "}"@
}

/// The objects of `jobs`, with a comma between each two.
pub open spec fn joined_json(jobs: Seq<CronJobView>) -> Seq<char>
    decreases jobs.len(),
{
    if jobs.len() == 0 {
        Seq::empty()
    } else if jobs.len() == 1 {
        job_json(jobs.last())
    } else {
        joined_json(jobs.drop_last()) + ","@ + job_json(jobs.last())
    }
}

/// `jobs` as a JSON array.
pub open spec fn json_of(jobs: Seq<CronJobView>) -> Seq<char> {
    "["@ + joined_json(jobs) + "]"@
}

fn escape(s: &str) -> (out: String)
    ensures
        out@ == escaped(s@),
{
    let chars = chars_of(s);
    let mut out: Vec<char> = Vec::new();
    let mut i: usize = 0;
    proof {
        assert(chars@.take(0) =~= Seq::<char>::empty());
    }
    while i < chars.len()
        invariant
            i <= chars@.len(),
            out@ == escaped(chars@.take(i as int)),
        decreases chars@.len() - i,
    {
        proof {
            assert(chars@.take(i + 1).drop_last() =~= chars@.take(i as int));
        }
        let ghost before = out@;
        if chars[i] == '"' {
            out.push('\\');
            out.push('"');
            proof {
                assert(out@ =~= before + seq!['\\', '"']);
            }
        } else {
            out.push(chars[i]);
        }
        i += 1;
    }
    proof {
        assert(chars@.take(i as int) =~= chars@);
    }
    string_of(out.as_slice())
}

fn quote(s: &str) -> (out: String)
    ensures
        out@ == quoted(s@),
{
    let mut out = String::from_str("\"");
    out.append(escape(s).as_str());
    out.append("\"");
    out
}

fn quote_or_null(s: &Option<String>) -> (out: String)
    ensures
        out@ == quoted_or_null(text_of(*s)),
{
    match s {
        Some(s) => quote(s.as_str()),
        None => String::from_str("null"),
    }
}

fn decimal_string(n: usize) -> (out: String)
    ensures
        out@ == decimal(n as nat),
{
    let mut digits: Vec<char> = Vec::new();
    push_decimal(n, &mut digits);
    proof {
        assert(digits@ =~= decimal(n as nat));
    }
    string_of(digits.as_slice())
}

fn hexadecimal_string(n: u64) -> (out: String)
    ensures
        out@ == hexadecimal(n as nat),
{
    let mut digits: Vec<char> = Vec::new();
    push_hexadecimal(n, &mut digits);
    proof {
        assert(digits@ =~= hexadecimal(n as nat));
    }
    string_of(digits.as_slice())
}

fn section_to_json(section: &Option<JobSection>) -> (out: String)
    ensures
        out@ == section_json(super::tokens::section_of(*section)),
{
    match section {
        Some(section) => {
            let mut out = String::from_str("{\"uid\":");
            out.append(decimal_string(section.uid).as_str());
            out.append(",\"title\":");
            out.append(quote(section.title.as_str()).as_str());
            out.append("}");
            out
        },
        None => String::from_str("null"),
    }
}

fn job_to_json(job: &CronJob) -> (out: String)
    ensures
        out@ == job_json(job@),
{
    let mut out = String::from_str("{\"uid\":");
    out.append(decimal_string(job.uid).as_str());
    out.append(",\"fingerprint\":\"");
    out.append(hexadecimal_string(job.fingerprint).as_str());
    out.append("\",\"tag\":");
    out.append(quote_or_null(&job.tag).as_str());
    out.append(",\"schedule\":\"");
    out.append(job.schedule.as_str());
    out.append("\",\"command\":");
    out.append(quote(job.command.as_str()).as_str());
    out.append(",\"description\":");
    match &job.description {
        Some(description) => out.append(quote(description.0.as_str()).as_str()),
        None => out.append("null"),
    }
    out.append(",\"section\":");
    out.append(section_to_json(&job.section).as_str());
    out.append("}");
    out
}

impl Crontab {
    /// The jobs as a JSON array of objects, in the order of the crontab.
    pub fn to_json(&self) -> (json: String)
        ensures
            json@ == json_of(jobs_of(self@)),
    {
        let jobs = self.jobs();
        let mut json = String::from_str("[");
        let mut i: usize = 0;
        proof {
            assert(jobs_of(self@).take(0) =~= Seq::<CronJobView>::empty());
            assert(json@ =~= "["@ + joined_json(jobs_of(self@).take(0)));
        }
        while i < jobs.len()
            invariant
                i <= jobs@.len(),
                job_views(jobs@) == jobs_of(self@),
                json@ == "["@ + joined_json(jobs_of(self@).take(i as int)),
            decreases jobs@.len() - i,
        {
            let ghost all = jobs_of(self@);
            let ghost before = json@;
            proof {
                assert(all.take(i + 1).drop_last() =~= all.take(i as int));
                assert(all.take(i + 1).last() == jobs@[i as int]@);
            }
            if i > 0 {
                json.append(",");
            }
            json.append(job_to_json(jobs[i]).as_str());
            proof {
                if i == 0 {
                    assert(joined_json(all.take(0)) =~= Seq::<char>::empty());
                    assert(json@ =~= "["@ + joined_json(all.take(i + 1)));
                } else {
                    assert(json@ =~= "["@ + joined_json(all.take(i + 1)));
                }
            }
            i += 1;
        }
        proof {
            assert(jobs_of(self@).take(i as int) =~= jobs_of(self@));
        }
        json.append("]");
        json
    }
}

} // verus!
