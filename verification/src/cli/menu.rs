use super::ui::{colored, Color, ATTENUATE, HIGHLIGHT, TITLE};
use crate::crontab::job_views;
use crate::crontab::text::{
    append_chars, decimal, hexadecimal, push_decimal, push_hexadecimal, string_of,
};
use crate::crontab::tokens::{
    clone_section, same_section, section_of, CronJob, CronJobView, JobDescription, JobSection,
    JobSectionView,
};
use vstd::prelude::*;
use vstd::string::StringExecFns;

verus! {

/// The greatest `uid` among `jobs`, or 0.
pub open spec fn greatest_uid(jobs: Seq<CronJobView>) -> nat
    decreases jobs.len(),
{
    if jobs.len() == 0 {
        0
    } else if jobs.last().uid > greatest_uid(jobs.drop_last()) {
        jobs.last().uid
    } else {
        greatest_uid(jobs.drop_last())
    }
}

/// The length of the longest fingerprint among `jobs` in hexadecimal, or 0.
pub open spec fn longest_fingerprint(jobs: Seq<CronJobView>) -> nat
    decreases jobs.len(),
{
    if jobs.len() == 0 {
        0
    } else if hexadecimal(jobs.last().fingerprint as nat).len() > longest_fingerprint(
        jobs.drop_last(),
    ) {
        hexadecimal(jobs.last().fingerprint as nat).len()
    } else {
        longest_fingerprint(jobs.drop_last())
    }
}

/// How wide the widest number of the menu is.
pub open spec fn id_width(jobs: Seq<CronJobView>, use_fingerprint: bool) -> nat {
    if use_fingerprint {
        longest_fingerprint(jobs)
    } else {
        decimal(greatest_uid(jobs)).len()
    }
}

/// `s` with as many `fill` in front of it as it takes to be `width` long.
pub open spec fn padded(s: Seq<char>, width: nat, fill: char) -> Seq<char> {
    if s.len() >= width {
        s
    } else {
        Seq::new((width - s.len()) as nat, |i: int| fill) + s
    }
}

/// The title of a section as an entry of the menu, set off by line feeds.
pub open spec fn section_entry(section: JobSectionView, no_color: bool) -> Seq<char> {
    "\n"@ + colored(TITLE@, section.title, no_color) + "\n"@
}

/// A fingerprint for the menu: in hexadecimal, with zeros in front.
pub open spec fn fingerprint_label(fingerprint: u64, width: nat, no_color: bool) -> Seq<char> {
    colored(HIGHLIGHT@, padded(hexadecimal(fingerprint as nat), width, '0'), no_color)
}

/// A job number for the menu: aligned to the right, with a dot behind it.
pub open spec fn uid_label(uid: nat, width: nat, no_color: bool) -> Seq<char> {
    colored(HIGHLIGHT@, padded(decimal(uid), width, ' ') + "."@, no_color)
}

/// A description for the menu, with the space that parts it from what
/// follows; nothing where there is no description.
pub open spec fn description_label(description: Option<Seq<char>>) -> Seq<char> {
    match description {
        Some(description) => description + " "@,
        None => Seq::empty(),
    }
}

/// A command for the menu: toned down where a description stands before
/// it.
pub open spec fn command_label(command: Seq<char>, has_description: bool, no_color: bool) -> Seq<
    char,
> {
    if has_description {
        colored(ATTENUATE@, command, no_color)
    } else {
        command
    }
}

/// The entry of a job in the menu.
pub open spec fn job_entry(
    job: CronJobView,
    use_fingerprint: bool,
    width: nat,
    no_color: bool,
) -> Seq<char> {
    (if use_fingerprint {
        fingerprint_label(job.fingerprint, width, no_color)
    } else {
        uid_label(job.uid, width, no_color)
    }) + " "@ + description_label(job.description) + colored(ATTENUATE@, job.schedule, no_color)
        + " "@ + command_label(job.command, job.description is Some, no_color)
}

/// Whether a job opens a section of the menu: whether it has a section
/// that is not the one of the job before it.
pub open spec fn opens_section(job: CronJobView, last: Option<JobSectionView>) -> bool {
    job.section is Some && job.section != last
}

/// The entries of `jobs`, where `last` is the section of the job before
/// them: each job's entry, with the title of its section before it where it
/// opens one, and an empty entry at the end of a menu that has sections.
pub open spec fn entries_from(
    jobs: Seq<CronJobView>,
    last: Option<JobSectionView>,
    use_fingerprint: bool,
    width: nat,
    no_color: bool,
) -> Seq<Seq<char>>
    decreases jobs.len(),
{
    if jobs.len() == 0 {
        if last is Some {
            seq![Seq::empty()]
        } else {
            Seq::empty()
        }
    } else {
        let job = jobs.first();
        let entry = job_entry(job, use_fingerprint, width, no_color);
        if opens_section(job, last) {
            seq![section_entry(job.section->0, no_color), entry] + entries_from(
                jobs.drop_first(),
                job.section,
                use_fingerprint,
                width,
                no_color,
            )
        } else {
            seq![entry] + entries_from(jobs.drop_first(), last, use_fingerprint, width, no_color)
        }
    }
}

/// The menu of `jobs`.
pub open spec fn menu_of(jobs: Seq<CronJobView>, use_fingerprint: bool, no_color: bool) -> Seq<
    Seq<char>,
> {
    entries_from(jobs, None, use_fingerprint, id_width(jobs, use_fingerprint), no_color)
}

/// The views of the entries, in the same order.
pub open spec fn entry_views(entries: Seq<String>) -> Seq<Seq<char>> {
    entries.map_values(|entry: String| entry@)
}

/// The jobs as the entries of a menu, from which the user picks one by its
/// number, or by its fingerprint where `use_fingerprint` is set.
pub fn format_jobs_as_menu_entries(
    jobs: &Vec<&CronJob>,
    use_fingerprint: bool,
    no_color: bool,
) -> (menu: Vec<String>)
    ensures
        entry_views(menu@) == menu_of(job_views(jobs@), use_fingerprint, no_color),
{
    let mut menu: Vec<String> = Vec::new();

    let mut last_section: Option<JobSection> = None;
    let max_id_width = determine_max_id_width(jobs, use_fingerprint);

    let ghost all = job_views(jobs@);
    let mut i: usize = 0;
    proof {
        assert(all.skip(0) =~= all);
        assert(entry_views(menu@) =~= Seq::<Seq<char>>::empty());
    }
    while i < jobs.len()
        invariant
            i <= jobs@.len(),
            all == job_views(jobs@),
            max_id_width == id_width(all, use_fingerprint),
            menu_of(all, use_fingerprint, no_color) == entry_views(menu@) + entries_from(
                all.skip(i as int),
                section_of(last_section),
                use_fingerprint,
                max_id_width as nat,
                no_color,
            ),
        decreases jobs@.len() - i,
    {
        let job = jobs[i];
        let ghost before = entry_views(menu@);
        let ghost last = section_of(last_section);
        proof {
            assert(all.skip(i as int).first() == job@);
            assert(all.skip(i as int).drop_first() =~= all.skip(i + 1));
        }
        if update_section_if_needed(job, &mut last_section) {
            if let Some(new_section) = &last_section {
                menu.push(format_job_section(new_section, no_color));
            }
        }
        let number = if use_fingerprint {
            format_job_fingerprint(job.fingerprint, max_id_width, no_color)
        } else {
            format_job_uid(job.uid, max_id_width, no_color)
        };
        let description = format_job_description(job.description.as_ref());
        let schedule = format_job_schedule(job.schedule.as_str(), no_color);
        let command = format_job_command(
            job.command.as_str(),
            job.description.is_some(),
            no_color,
        );

        let mut entry = number;
        entry.append(" ");
        entry.append(description.as_str());
        entry.append(schedule.as_str());
        entry.append(" ");
        entry.append(command.as_str());
        menu.push(entry);
        proof {
            let made = job_entry(job@, use_fingerprint, max_id_width as nat, no_color);
            assert(entry@ == made);
            if opens_section(job@, last) {
                assert(entry_views(menu@) =~= before + seq![
                    section_entry(job@.section->0, no_color),
                    made,
                ]);
            } else {
                assert(entry_views(menu@) =~= before + seq![made]);
            }
        }
        i += 1;
    }
    let ghost before = entry_views(menu@);
    add_spacing_to_menu_if_it_has_sections(&mut menu, last_section.is_some());
    proof {
        assert(all.skip(i as int) =~= Seq::<CronJobView>::empty());
        if last_section is Some {
            assert(before.push(Seq::<char>::empty()) =~= before + seq![Seq::<char>::empty()]);
        } else {
            assert(before =~= before + Seq::<Seq<char>>::empty());
        }
    }
    menu
}

/// How wide the widest number of the menu is.
pub fn determine_max_id_width(jobs: &Vec<&CronJob>, use_fingerprint: bool) -> (width: usize)
    ensures
        width == id_width(job_views(jobs@), use_fingerprint),
{
    let ghost all = job_views(jobs@);
    let mut max_uid: usize = 0;
    let mut longest: usize = 0;
    let mut i: usize = 0;
    proof {
        assert(all.take(0) =~= Seq::<CronJobView>::empty());
    }
    while i < jobs.len()
        invariant
            i <= jobs@.len(),
            all == job_views(jobs@),
            max_uid == greatest_uid(all.take(i as int)),
            longest == longest_fingerprint(all.take(i as int)),
        decreases jobs@.len() - i,
    {
        proof {
            assert(all.take(i + 1).drop_last() =~= all.take(i as int));
            assert(all.take(i + 1).last() == jobs@[i as int]@);
        }
        if jobs[i].uid > max_uid {
            max_uid = jobs[i].uid;
        }
        let mut digits: Vec<char> = Vec::new();
        push_hexadecimal(jobs[i].fingerprint, &mut digits);
        proof {
            assert(digits@ =~= hexadecimal(jobs@[i as int]@.fingerprint as nat));
        }
        if digits.len() > longest {
            longest = digits.len();
        }
        i += 1;
    }
    proof {
        assert(all.take(i as int) =~= all);
    }
    if use_fingerprint {
        longest
    } else {
        let mut digits: Vec<char> = Vec::new();
        push_decimal(max_uid, &mut digits);
        proof {
            assert(digits@ =~= decimal(max_uid as nat));
        }
        digits.len()
    }
}

/// Takes note of the section of `job` where it opens one, and says whether
/// it does.
pub fn update_section_if_needed(job: &CronJob, last_section: &mut Option<JobSection>) -> (opened:
    bool)
    ensures
        opened == opens_section(job@, section_of(*old(last_section))),
        section_of(*final(last_section)) == if opened {
            job@.section
        } else {
            section_of(*old(last_section))
        },
        opened ==> *final(last_section) is Some,
{
    if job.section.is_some() && !same_section(&job.section, last_section) {
        *last_section = clone_section(&job.section);
        return true;
    }
    false
}

/// The title of a section as an entry of the menu.
pub fn format_job_section(section: &JobSection, no_color: bool) -> (entry: String)
    ensures
        entry@ == section_entry(section@, no_color),
{
    let mut entry = String::from_str("\n");
    entry.append(Color::title(section.title.as_str(), no_color).as_str());
    entry.append("\n");
    entry
}

/// Puts `fill` in front of `digits` until they are `width` long.
fn pad(digits: &Vec<char>, width: usize, fill: char) -> (out: Vec<char>)
    ensures
        out@ == padded(digits@, width as nat, fill),
{
    let mut out: Vec<char> = Vec::new();
    if digits.len() < width {
        let missing = width - digits.len();
        let mut i: usize = 0;
        while i < missing
            invariant
                i <= missing,
                out@ == Seq::new(i as nat, |k: int| fill),
            decreases missing - i,
        {
            out.push(fill);
            i += 1;
            proof {
                assert(out@ =~= Seq::new(i as nat, |k: int| fill));
            }
        }
    }
    append_chars(&mut out, digits.as_slice());
    proof {
        if digits@.len() >= width {
            assert(out@ =~= digits@);
        }
    }
    out
}

/// A fingerprint as the number of an entry, as wide as the widest.
pub fn format_job_fingerprint(fingerprint: u64, max_uid_width: usize, no_color: bool) -> (label:
    String)
    ensures
        label@ == fingerprint_label(fingerprint, max_uid_width as nat, no_color),
{
    let mut digits: Vec<char> = Vec::new();
    push_hexadecimal(fingerprint, &mut digits);
    proof {
        assert(digits@ =~= hexadecimal(fingerprint as nat));
    }
    let number = string_of(pad(&digits, max_uid_width, '0').as_slice());
    Color::highlight(number.as_str(), no_color)
}

/// A job number as the number of an entry, as wide as the widest.
pub fn format_job_uid(uid: usize, max_uid_width: usize, no_color: bool) -> (label: String)
    ensures
        label@ == uid_label(uid as nat, max_uid_width as nat, no_color),
{
    let mut digits: Vec<char> = Vec::new();
    push_decimal(uid, &mut digits);
    proof {
        assert(digits@ =~= decimal(uid as nat));
    }
    let mut number = string_of(pad(&digits, max_uid_width, ' ').as_slice());
    number.append(".");
    Color::highlight(number.as_str(), no_color)
}

/// A description as a part of an entry.
pub fn format_job_description(description: Option<&JobDescription>) -> (label: String)
    ensures
        label@ == description_label(
            match description {
                Some(description) => Some(description@),
                None => None,
            },
        ),
{
    if let Some(description) = description {
        let mut label = description.0.clone();
        label.append(" ");
        label
    } else {
        String::new()
    }
}

/// A schedule as a part of an entry: toned down.
pub fn format_job_schedule(schedule: &str, no_color: bool) -> (label: String)
    ensures
        label@ == colored(ATTENUATE@, schedule@, no_color),
{
    Color::attenuate(schedule, no_color)
}

/// A command as a part of an entry: toned down where a description stands
/// before it.
pub fn format_job_command(command: &str, has_description: bool, no_color: bool) -> (label: String)
    ensures
        label@ == command_label(command@, has_description, no_color),
{
    if has_description {
        Color::attenuate(command, no_color)
    } else {
        String::from_str(command)
    }
}

/// Ends a menu that has sections with an empty entry: the titles have
/// space around them, and so has the last job then.
pub fn add_spacing_to_menu_if_it_has_sections(menu: &mut Vec<String>, has_sections: bool)
    ensures
        entry_views(final(menu)@) == if has_sections {
            entry_views(old(menu)@).push(Seq::empty())
        } else {
            entry_views(old(menu)@)
        },
{
    if has_sections {
        menu.push(String::new());
        proof {
            assert(entry_views(menu@) =~= entry_views(old(menu)@).push(Seq::empty()));
        }
    }
}

} // verus!
