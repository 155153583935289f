//! What holds of every crontab.

use super::grammar::{
    after_line, after_lines, fingerprint_of, fingerprint_text, initial_state, token_of, tokens_of,
    ParserStateView,
};
use super::text::{decimal, lines_of, trimmed};
use crate::cli::numbers::{lemma_decimal_is_digits, lemma_decimal_is_read_back};
use super::tokens::{views_of, CronJobView, Token, TokenView};
use super::{is_first_wanted, jobs_of, scope_end, scoped_variables, variables_in};
use vstd::prelude::*;

verus! {

/// The jobs of a state are numbered from 1 in their order, the state has
/// counted them, and each fingerprint is that of the job's `uid` and
/// `command`.
pub open spec fn numbered(state: ParserStateView) -> bool {
    let jobs = jobs_of(state.tokens);
    &&& jobs.len() == state.jobs
    &&& forall|i: int| 0 <= i < jobs.len() ==> (#[trigger] jobs[i]).uid == i + 1
    &&& forall|i: int|
        0 <= i < jobs.len() ==> (#[trigger] jobs[i]).fingerprint == fingerprint_of(
            jobs[i].uid,
            jobs[i].command,
        )
}

proof fn lemma_line_keeps_numbering(state: ParserStateView, line: Seq<char>)
    requires
        numbered(state),
    ensures
        numbered(after_line(state, line)),
{
    if trimmed(line).len() > 0 {
        let token = token_of(state, trimmed(line));
        let next = after_line(state, line);
        assert(next.tokens.drop_last() =~= state.tokens);
        assert(next.tokens.last() == token);
        let before = jobs_of(state.tokens);
        let jobs = jobs_of(next.tokens);
        match token {
            TokenView::CronJob(job) => {
                assert(jobs == before.push(job));
                assert forall|i: int| 0 <= i < jobs.len() implies (#[trigger] jobs[i]).uid == i
                    + 1 && jobs[i].fingerprint == fingerprint_of(jobs[i].uid, jobs[i].command) by {
                    if i < before.len() {
                        assert(jobs[i] == before[i]);
                    }
                }
            },
            _ => {
                assert(jobs == before);
            },
        }
    }
}

proof fn lemma_lines_keep_numbering(state: ParserStateView, lines: Seq<Seq<char>>)
    requires
        numbered(state),
    ensures
        numbered(after_lines(state, lines)),
    decreases lines.len(),
{
    if lines.len() > 0 {
        lemma_line_keeps_numbering(state, lines.first());
        lemma_lines_keep_numbering(after_line(state, lines.first()), lines.drop_first());
    }
}

/// The jobs of a crontab bear the numbers 1, 2, 3 and so on, in the order
/// of their lines: as many numbers are given out as there are jobs, and an
/// ignored job takes none.
pub proof fn lemma_uids_count_the_jobs(text: Seq<char>)
    ensures
        forall|i: int|
            0 <= i < jobs_of(tokens_of(text)).len() ==> (#[trigger] jobs_of(
                tokens_of(text),
            )[i]).uid == i + 1,
{
    assert(jobs_of(initial_state().tokens) =~= Seq::<CronJobView>::empty());
    lemma_lines_keep_numbering(initial_state(), lines_of(text));
}

/// The fingerprint of each job of a crontab is a function of the job's
/// `uid` and `command` alone: its schedule, its description, its tag, its
/// section and the lines around it have no part in it.
pub proof fn lemma_fingerprints_follow_uid_and_command(text: Seq<char>)
    ensures
        forall|i: int|
            0 <= i < jobs_of(tokens_of(text)).len() ==> (#[trigger] jobs_of(
                tokens_of(text),
            )[i]).fingerprint == fingerprint_of(
                jobs_of(tokens_of(text))[i].uid,
                jobs_of(tokens_of(text))[i].command,
            ),
{
    assert(jobs_of(initial_state().tokens) =~= Seq::<CronJobView>::empty());
    lemma_lines_keep_numbering(initial_state(), lines_of(text));
}

/// The text that a fingerprint is the hash of tells jobs apart: two jobs
/// that differ in `uid` or in `command` have their fingerprints made from
/// different texts.
pub proof fn lemma_fingerprint_text_tells_jobs_apart(
    uid: nat,
    command: Seq<char>,
    other_uid: nat,
    other_command: Seq<char>,
)
    requires
        fingerprint_text(uid, command) == fingerprint_text(other_uid, other_command),
    ensures
        uid == other_uid,
        command == other_command,
{
    let text = fingerprint_text(uid, command);
    let other = fingerprint_text(other_uid, other_command);
    let digits = decimal(uid);
    let other_digits = decimal(other_uid);
    let n = digits.len() as int;
    let m = other_digits.len() as int;
    lemma_decimal_is_digits(uid);
    lemma_decimal_is_digits(other_uid);
    assert forall|i: int| 0 <= i < digits.len() implies text[4 + i] == digits[i] by {}
    assert forall|i: int| 0 <= i < other_digits.len() implies other[4 + i] == other_digits[i] by {}
    assert(text[4 + n] == ')');
    assert(other[4 + m] == ')');
    if digits.len() < other_digits.len() {
        assert(other[4 + n] == other_digits[n]);
        assert(false);
    }
    if other_digits.len() < digits.len() {
        assert(text[4 + m] == digits[m]);
        assert(false);
    }
    assert(digits =~= other_digits) by {
        assert forall|i: int| 0 <= i < digits.len() implies digits[i] == other_digits[i] by {
            assert(text[4 + i] == other[4 + i]);
        }
    }
    lemma_decimal_is_read_back(uid);
    lemma_decimal_is_read_back(other_uid);
    assert(text.len() == 4 + digits.len() + 10 + command.len() + 1);
    assert(other.len() == 4 + other_digits.len() + 10 + other_command.len() + 1);
    assert(command =~= other_command) by {
        assert forall|i: int| 0 <= i < command.len() implies command[i] == other_command[i] by {
            assert(text[14 + n + i] == command[i]);
            assert(other[14 + n + i] == other_command[i]);
        }
    }
}

/// Parsing the same text twice gives the same tokens.
pub proof fn lemma_parsing_is_deterministic(text: Seq<char>, first: Seq<Token>, second: Seq<Token>)
    requires
        views_of(first) == tokens_of(text),
        views_of(second) == tokens_of(text),
    ensures
        first.len() == second.len(),
        forall|i: int| 0 <= i < first.len() ==> first[i]@ == second[i]@,
{
    assert(views_of(first).len() == first.len());
    assert(views_of(second).len() == second.len());
    assert forall|i: int| 0 <= i < first.len() implies first[i]@ == second[i]@ by {
        assert(views_of(first)[i] == first[i]@);
        assert(views_of(second)[i] == second[i]@);
    }
}

/// The numbers of the jobs among the tokens of a state grow from one job
/// to the next, and none is above the count of the state.
spec fn ordered(state: ParserStateView) -> bool {
    &&& forall|i: int|
        0 <= i < state.tokens.len() && #[trigger] state.tokens[i] is CronJob
            ==> state.tokens[i]->CronJob_0.uid <= state.jobs
    &&& forall|i: int, j: int|
        0 <= i < j < state.tokens.len() && #[trigger] state.tokens[i] is CronJob
            && #[trigger] state.tokens[j] is CronJob ==> state.tokens[i]->CronJob_0.uid
            < state.tokens[j]->CronJob_0.uid
}

proof fn lemma_line_keeps_order(state: ParserStateView, line: Seq<char>)
    requires
        ordered(state),
    ensures
        ordered(after_line(state, line)),
{
    if trimmed(line).len() > 0 {
        let next = after_line(state, line);
        let last = state.tokens.len() as int;
        assert forall|i: int| 0 <= i < next.tokens.len() && #[trigger] next.tokens[i] is CronJob
            implies next.tokens[i]->CronJob_0.uid <= next.jobs by {
            if i < last {
                assert(next.tokens[i] == state.tokens[i]);
            }
        }
        assert forall|i: int, j: int|
            0 <= i < j < next.tokens.len() && #[trigger] next.tokens[i] is CronJob
                && #[trigger] next.tokens[j] is CronJob implies next.tokens[i]->CronJob_0.uid
            < next.tokens[j]->CronJob_0.uid by {
            assert(next.tokens[i] == state.tokens[i]);
            if j < last {
                assert(next.tokens[j] == state.tokens[j]);
            }
        }
    }
}

proof fn lemma_lines_keep_order(state: ParserStateView, lines: Seq<Seq<char>>)
    requires
        ordered(state),
    ensures
        ordered(after_lines(state, lines)),
    decreases lines.len(),
{
    if lines.len() > 0 {
        lemma_line_keeps_order(state, lines.first());
        lemma_lines_keep_order(after_line(state, lines.first()), lines.drop_first());
    }
}

/// No job of a crontab occurs twice among its tokens: two jobs that look
/// the same differ in their `uid`, which grows from each job to the next.
pub proof fn lemma_jobs_are_told_apart(text: Seq<char>, first: int, second: int)
    requires
        0 <= first < second < tokens_of(text).len(),
        tokens_of(text)[first] is CronJob,
        tokens_of(text)[second] is CronJob,
    ensures
        tokens_of(text)[first]->CronJob_0.uid < tokens_of(text)[second]->CronJob_0.uid,
        tokens_of(text)[first] != tokens_of(text)[second],
{
    lemma_lines_keep_order(initial_state(), lines_of(text));
}

/// The scan for a job's variables stops at the first token that is this
/// job, or runs to the end.
proof fn lemma_scope_end(tokens: Seq<TokenView>, target: CronJobView)
    ensures
        0 <= scope_end(tokens, target) <= tokens.len(),
        scope_end(tokens, target) < tokens.len() ==> tokens[scope_end(tokens, target)]
            == TokenView::CronJob(target),
        forall|i: int|
            0 <= i < scope_end(tokens, target) ==> tokens[i] != TokenView::CronJob(target),
    decreases tokens.len(),
{
    if !(tokens.len() == 0 || tokens.first() == TokenView::CronJob(target)) {
        let rest = tokens.drop_first();
        lemma_scope_end(rest, target);
        assert forall|i: int| 0 <= i < scope_end(tokens, target) implies tokens[i]
            != TokenView::CronJob(target) by {
            if i > 0 {
                assert(tokens[i] == rest[i - 1]);
            }
        }
        if scope_end(tokens, target) < tokens.len() {
            assert(tokens[scope_end(tokens, target)] == rest[scope_end(rest, target)]);
        }
    }
}

/// Each job of a crontab sees the variables that are declared above its
/// own line, the last declaration of each, and no others: a job that looks
/// the same further up does not cut its scope short.
pub proof fn lemma_jobs_see_what_is_declared_above(text: Seq<char>, at: int)
    requires
        0 <= at < tokens_of(text).len(),
        tokens_of(text)[at] is CronJob,
    ensures
        scoped_variables(tokens_of(text), tokens_of(text)[at]->CronJob_0) == variables_in(
            tokens_of(text).take(at),
        ),
{
    let tokens = tokens_of(text);
    let job = tokens[at]->CronJob_0;
    let end = scope_end(tokens, job);
    lemma_scope_end(tokens, job);
    if end < at {
        lemma_jobs_are_told_apart(text, end, at);
    }
}

/// A job that a lookup has found is a job of the crontab, so that preparing
/// its run does not fail for want of the job.
pub proof fn lemma_found_jobs_are_in_the_crontab(
    jobs: Seq<CronJobView>,
    wanted: spec_fn(CronJobView) -> bool,
    found: CronJobView,
)
    requires
        is_first_wanted(jobs, wanted, Some(found)),
    ensures
        jobs.contains(found),
        wanted(found),
{
}

/// In a crontab as it was parsed, the job with the number `uid` is the
/// one at that place among the jobs, counted from 1.
pub proof fn lemma_uid_finds_the_job_at_its_place(text: Seq<char>, uid: nat)
    requires
        1 <= uid <= jobs_of(tokens_of(text)).len(),
    ensures
        is_first_wanted(
            jobs_of(tokens_of(text)),
            |job: CronJobView| job.uid == uid,
            Some(jobs_of(tokens_of(text))[uid - 1]),
        ),
{
    let jobs = jobs_of(tokens_of(text));
    lemma_uids_count_the_jobs(text);
    assert(jobs[uid - 1].uid == uid);
    assert forall|j: int| 0 <= j < uid - 1 implies (#[trigger] jobs[j]).uid != uid by {}
}

/// A job that stands below `above` sees the variables that `above`
/// declares and none of those that `below` declares.
pub proof fn lemma_variables_below_are_out_of_scope(
    above: Seq<TokenView>,
    job: CronJobView,
    below: Seq<TokenView>,
)
    requires
        !above.contains(TokenView::CronJob(job)),
    ensures
        scoped_variables(above.push(TokenView::CronJob(job)) + below, job) == variables_in(above),
{
    let tokens = above.push(TokenView::CronJob(job)) + below;
    lemma_scope_ends_at_the_job(above, job, below);
    assert(tokens.take(above.len() as int) =~= above);
}

proof fn lemma_scope_ends_at_the_job(
    above: Seq<TokenView>,
    job: CronJobView,
    below: Seq<TokenView>,
)
    requires
        !above.contains(TokenView::CronJob(job)),
    ensures
        scope_end(above.push(TokenView::CronJob(job)) + below, job) == above.len(),
    decreases above.len(),
{
    let tokens = above.push(TokenView::CronJob(job)) + below;
    if above.len() == 0 {
        assert(tokens.first() == TokenView::CronJob(job));
    } else {
        assert(tokens.first() == above[0]);
        assert(above.contains(above[0]));
        let rest = above.drop_first();
        assert forall|token: TokenView| rest.contains(token) implies above.contains(token) by {
            let i = choose|i: int| 0 <= i < rest.len() && rest[i] == token;
            assert(above[i + 1] == token);
        }
        lemma_scope_ends_at_the_job(rest, job, below);
        assert(tokens.drop_first() =~= rest.push(TokenView::CronJob(job)) + below);
    }
}

/// A variable is visible below its declaration, whatever stands in
/// between, an ignored job too, as long as no later declaration bears its
/// identifier.
pub proof fn lemma_variables_above_are_in_scope(above: Seq<TokenView>, at: int)
    requires
        0 <= at < above.len(),
        above[at] is Variable,
        forall|later: int|
            at < later < above.len() && above[later] is Variable ==> above[later]->Variable_0.identifier
                != above[at]->Variable_0.identifier,
    ensures
        variables_in(above).contains_key(above[at]->Variable_0.identifier),
        variables_in(above)[above[at]->Variable_0.identifier] == above[at]->Variable_0.value,
    decreases above.len(),
{
    if at < above.len() - 1 {
        let front = above.drop_last();
        assert(front[at] == above[at]);
        assert forall|later: int|
            at < later < front.len() && front[later] is Variable implies front[later]->Variable_0.identifier
            != front[at]->Variable_0.identifier by {
            assert(front[later] == above[later]);
        }
        lemma_variables_above_are_in_scope(front, at);
    }
}

} // verus!
