use super::numbers::{parse_unsigned, unsigned_of};
use crate::crontab::text::{chars_of, trim, trimmed};
use vstd::prelude::*;
use vstd::std_specs::cmp::PartialEqSpecImpl;

verus! {

/// How the user names the job to run.
#[derive(Debug)]
pub enum Job {
    /// By its position among the jobs.
    Uid(usize),
    /// By its fingerprint.
    Fingerprint(u64),
    /// By its tag.
    Tag(String),
}

/// What a [`Job`] holds, its tag as a sequence of characters.
pub enum JobView {
    Uid(usize),
    Fingerprint(u64),
    Tag(Seq<char>),
}

impl View for Job {
    type V = JobView;

    open spec fn view(&self) -> JobView {
        match self {
            Job::Uid(uid) => JobView::Uid(*uid),
            Job::Fingerprint(fingerprint) => JobView::Fingerprint(*fingerprint),
            Job::Tag(tag) => JobView::Tag(tag@),
        }
    }
}

impl PartialEq for Job {
    fn eq(&self, other: &Self) -> (same: bool) {
        match (self, other) {
            (Job::Uid(left), Job::Uid(right)) => *left == *right,
            (Job::Fingerprint(left), Job::Fingerprint(right)) => *left == *right,
            (Job::Tag(left), Job::Tag(right)) => *left == *right,
            _ => false,
        }
    }
}

impl PartialEqSpecImpl for Job {
    open spec fn obeys_eq_spec() -> bool {
        true
    }

    open spec fn eq_spec(&self, other: &Self) -> bool {
        self@ == other@
    }
}

impl Eq for Job {

}

/// The view of an optional selection.
pub open spec fn selection_of(job: Option<Job>) -> Option<JobView> {
    match job {
        Some(job) => Some(job@),
        None => None,
    }
}

/// The job that a number names: a fingerprint in hexadecimal where
/// fingerprints are in use, else a job number in decimal.
pub open spec fn job_numbered(text: Seq<char>, use_fingerprint: bool) -> Option<JobView> {
    if use_fingerprint {
        match unsigned_of(text, 16, u64::MAX as nat) {
            Some(fingerprint) => Some(JobView::Fingerprint(fingerprint as u64)),
            None => None,
        }
    } else {
        match unsigned_of(text, 10, usize::MAX as nat) {
            Some(uid) => Some(JobView::Uid(uid as usize)),
            None => None,
        }
    }
}

/// What the user's answer to the menu selects: nothing where the answer is
/// blank, else the job that it numbers; an answer that is no number is
/// an error.
pub open spec fn selection_from(answer: Seq<char>, use_fingerprint: bool) -> Result<
    Option<JobView>,
    (),
> {
    if trimmed(answer).len() == 0 {
        Ok(None)
    } else {
        match job_numbered(trimmed(answer), use_fingerprint) {
            Some(job) => Ok(Some(job)),
            None => Err(()),
        }
    }
}

/// The view of what an answer selects.
pub open spec fn selected_view(selected: Result<Option<Job>, ()>) -> Result<Option<JobView>, ()> {
    match selected {
        Ok(job) => Ok(selection_of(job)),
        Err(_) => Err(()),
    }
}

/// The job that the number `text` names, if it is a number.
pub fn job_from_number(text: &[char], use_fingerprint: bool) -> (job: Option<Job>)
    ensures
        selection_of(job) == job_numbered(text@, use_fingerprint),
{
    if use_fingerprint {
        match parse_unsigned(text, 16, u64::MAX) {
            Some(fingerprint) => Some(Job::Fingerprint(fingerprint)),
            None => None,
        }
    } else {
        match parse_unsigned(text, 10, usize::MAX as u64) {
            Some(uid) => Some(Job::Uid(uid as usize)),
            None => None,
        }
    }
}

/// Reads the user's answer to the menu.
pub fn parse_user_job_selection(job_selected: &str, use_fingerprint: bool) -> (selected: Result<
    Option<Job>,
    (),
>)
    ensures
        selected_view(selected) == selection_from(job_selected@, use_fingerprint),
{
    let answer = chars_of(job_selected);
    let job_selected = trim(answer.as_slice());

    if job_selected.len() == 0 {
        return Ok(None);
    }
    match job_from_number(job_selected, use_fingerprint) {
        Some(job) => Ok(Some(job)),
        None => Err(()),
    }
}

} // verus!
