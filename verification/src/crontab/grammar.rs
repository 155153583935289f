//! What a crontab's text means: which tokens its lines stand for.

use super::hash::djb2_of;
use super::text::{
    decimal, is_ascii_whitespace, lines_of, position_of, trimmed, trimmed_start,
};
use super::tokens::{
    CommentKind, CommentView, CronJobView, IgnoredJobView, JobSectionView, TokenView, UnknownView,
    VariableView,
};
use vstd::prelude::*;
use vstd::utf8::encode_utf8;

verus! {

/// A job's line begins with a digit, `*` or `@`.
pub open spec fn is_job_line(line: Seq<char>) -> bool {
    line.len() > 0 && ({
        let c = line.first();
        ('0' as u32 <= c as u32 <= '9' as u32) || c == '*' || c == '@'
    })
}

/// A variable's line holds `=` and begins with an ASCII letter, an
/// underscore or a quote.
pub open spec fn is_variable_line(line: Seq<char>) -> bool {
    line.contains('=') && line.len() > 0 && ({
        let c = line.first();
        ('a' as u32 <= c as u32 <= 'z' as u32) || ('A' as u32 <= c as u32 <= 'Z' as u32) || c == '_'
            || c == '"' || c == '\''
    })
}

/// A comment's line begins with `#`.
pub open spec fn is_comment_line(line: Seq<char>) -> bool {
    line.len() > 0 && line.first() == '#'
}

/// The length of the first field of `s`: of its longest prefix without ASCII
/// whitespace.
pub open spec fn field_len(s: Seq<char>) -> int
    decreases s.len(),
{
    if s.len() == 0 || is_ascii_whitespace(s.first()) {
        0
    } else {
        1 + field_len(s.drop_first())
    }
}

/// `s` without the ASCII whitespace at its start.
pub open spec fn without_blanks(s: Seq<char>) -> Seq<char>
    decreases s.len(),
{
    if s.len() > 0 && is_ascii_whitespace(s.first()) {
        without_blanks(s.drop_first())
    } else {
        s
    }
}

/// The first `fields` fields of `s`, joined by single spaces, and what
/// follows the whitespace character that ends the last of them. Where `s`
/// runs out earlier, everything is schedule and nothing follows.
pub open spec fn split_fields(s: Seq<char>, fields: nat) -> (Seq<char>, Seq<char>)
    decreases fields,
{
    let field = s.take(field_len(s));
    let after = s.skip(field_len(s));
    if after.len() == 0 {
        (field, after)
    } else if fields <= 1 {
        (field, after.drop_first())
    } else {
        let (more, rest) = split_fields(without_blanks(after), (fields - 1) as nat);
        (field + seq![' '] + more, rest)
    }
}

/// How many fields the schedule of a job's line has: one where it is a
/// shorthand such as `@daily`, else five.
pub open spec fn schedule_fields(line: Seq<char>) -> nat {
    if line.len() > 0 && line.first() == '@' {
        1
    } else {
        5
    }
}

/// The schedule of a job's line, its fields separated by single spaces.
pub open spec fn schedule_of(line: Seq<char>) -> Seq<char> {
    split_fields(line, schedule_fields(line)).0
}

/// The command of a job's line: what follows the schedule, trimmed.
pub open spec fn command_of(line: Seq<char>) -> Seq<char> {
    trimmed(split_fields(line, schedule_fields(line)).1)
}

/// The last of `tokens`, if there is one.
pub open spec fn last_of(tokens: Seq<TokenView>) -> Option<TokenView> {
    if tokens.len() == 0 {
        None
    } else {
        Some(tokens.last())
    }
}

/// The description that the token right above a job gives it: the text of a
/// description comment that is not empty.
pub open spec fn description_above(previous: Option<TokenView>) -> Option<Seq<char>> {
    match previous {
        Some(TokenView::Comment(comment)) => if comment.kind == CommentKind::Description
            && comment.value.len() > 0 {
            Some(comment.value)
        } else {
            None
        },
        _ => None,
    }
}

/// A description holds a tag where it begins with `%{` and holds a `}`.
pub open spec fn has_tag(description: Option<Seq<char>>) -> bool {
    match description {
        Some(text) => text.len() >= 2 && text[0] == '%' && text[1] == '{' && text.contains('}'),
        None => false,
    }
}

/// The tag of a description: what stands between `%{` and the first `}`.
pub open spec fn tag_of(description: Option<Seq<char>>) -> Option<Seq<char>> {
    if has_tag(description) {
        let text = description->0;
        Some(text.subrange(2, position_of(text, '}')))
    } else {
        None
    }
}

/// A description without its tag: what follows the tag's `}`, without the
/// whitespace at its start, if anything is left.
pub open spec fn untagged(description: Option<Seq<char>>) -> Option<Seq<char>> {
    if has_tag(description) {
        let text = description->0;
        let rest = trimmed_start(text.skip(position_of(text, '}') + 1));
        if rest.len() > 0 {
            Some(rest)
        } else {
            None
        }
    } else {
        description
    }
}

/// The tag that hides a job.
pub open spec fn ignore_tag() -> Seq<char> {
    seq!['i', 'g', 'n', 'o', 'r', 'e']
}

/// The text that a job's fingerprint is the hash of.
pub open spec fn fingerprint_text(uid: nat, command: Seq<char>) -> Seq<char> {
    seq!['u', 'i', 'd', '('] + decimal(uid) + seq![')', ',', 'c', 'o', 'm', 'm', 'a', 'n', 'd', '(']
        + command + seq![')']
}

/// A job's fingerprint: the hash of the UTF-8 bytes of `fingerprint_text`.
pub open spec fn fingerprint_of(uid: nat, command: Seq<char>) -> u64 {
    djb2_of(encode_utf8(fingerprint_text(uid, command)))
}

/// What the parser remembers from the lines above.
pub struct ParserStateView {
    /// The tokens of the lines above.
    pub tokens: Seq<TokenView>,
    /// How many of them are jobs that are not ignored.
    pub jobs: nat,
    /// The section that is open.
    pub section: Option<JobSectionView>,
}

/// The state before the first line.
pub open spec fn initial_state() -> ParserStateView {
    ParserStateView { tokens: Seq::empty(), jobs: 0, section: None }
}

/// Whether a job's line gives both a schedule and a command.
pub open spec fn is_complete_job(line: Seq<char>) -> bool {
    schedule_of(line).len() > 0 && command_of(line).len() > 0
}

/// The token of a job's line.
pub open spec fn job_token(state: ParserStateView, line: Seq<char>) -> TokenView {
    let above = description_above(last_of(state.tokens));
    let tag = tag_of(above);
    if !is_complete_job(line) {
        unknown_token(line)
    } else if tag == Some(ignore_tag()) {
        TokenView::IgnoredJob(
            IgnoredJobView {
                tag,
                schedule: schedule_of(line),
                command: command_of(line),
                description: untagged(above),
                section: state.section,
            },
        )
    } else {
        TokenView::CronJob(
            CronJobView {
                uid: state.jobs + 1,
                fingerprint: fingerprint_of(state.jobs + 1, command_of(line)),
                tag,
                schedule: schedule_of(line),
                command: command_of(line),
                description: untagged(above),
                section: state.section,
            },
        )
    }
}

/// Whether `s` stands between two double quotes or two single quotes.
pub open spec fn is_quoted(s: Seq<char>) -> bool {
    s.len() >= 2 && ((s.first() == '"' && s.last() == '"') || (s.first() == '\'' && s.last()
        == '\''))
}

/// `s` without the pair of quotes around it, if there is one.
pub open spec fn without_quotes(s: Seq<char>) -> Seq<char> {
    if is_quoted(s) {
        s.subrange(1, s.len() - 1)
    } else {
        s
    }
}

/// The token of a variable's line, split at its first `=`.
pub open spec fn variable_token(line: Seq<char>) -> TokenView {
    let at = position_of(line, '=');
    TokenView::Variable(
        VariableView {
            identifier: without_quotes(trimmed(line.take(at))),
            value: without_quotes(trimmed(line.skip(at + 1))),
        },
    )
}

/// Three hashes or more open a section comment.
pub open spec fn is_section_comment(line: Seq<char>) -> bool {
    line.len() >= 3 && line[0] == '#' && line[1] == '#' && line[2] == '#'
}

/// Exactly two hashes open a description comment.
pub open spec fn is_description_comment(line: Seq<char>) -> bool {
    line.len() >= 2 && line[0] == '#' && line[1] == '#' && !is_section_comment(line)
}

/// The token of a comment's line.
pub open spec fn comment_token(line: Seq<char>) -> TokenView {
    if is_section_comment(line) {
        TokenView::Comment(
            CommentView { value: trimmed_start(line.skip(3)), kind: CommentKind::Section },
        )
    } else if is_description_comment(line) {
        TokenView::Comment(
            CommentView { value: trimmed_start(line.skip(2)), kind: CommentKind::Description },
        )
    } else {
        TokenView::Comment(
            CommentView { value: trimmed_start(line.skip(1)), kind: CommentKind::Regular },
        )
    }
}

/// The token of a line that is nothing else.
pub open spec fn unknown_token(line: Seq<char>) -> TokenView {
    TokenView::Unknown(UnknownView { value: line })
}

/// The token of a trimmed line that is not empty.
pub open spec fn token_of(state: ParserStateView, line: Seq<char>) -> TokenView {
    if is_job_line(line) {
        job_token(state, line)
    } else if is_variable_line(line) {
        variable_token(line)
    } else if is_comment_line(line) {
        comment_token(line)
    } else {
        unknown_token(line)
    }
}

/// The section that a token opens: a section comment that is not empty
/// opens the next one.
pub open spec fn section_after(section: Option<JobSectionView>, token: TokenView) -> Option<
    JobSectionView,
> {
    match token {
        TokenView::Comment(comment) => if comment.kind == CommentKind::Section && comment.value.len()
            > 0 {
            Some(
                JobSectionView {
                    uid: match section {
                        Some(open) => open.uid + 1,
                        None => 1,
                    },
                    title: comment.value,
                },
            )
        } else {
            section
        },
        _ => section,
    }
}

/// The number of jobs once `token` is counted.
pub open spec fn jobs_after(jobs: nat, token: TokenView) -> nat {
    if token is CronJob {
        jobs + 1
    } else {
        jobs
    }
}

/// The state below a line. A line that is blank once trimmed leaves no trace.
pub open spec fn after_line(state: ParserStateView, line: Seq<char>) -> ParserStateView {
    if trimmed(line).len() == 0 {
        state
    } else {
        let token = token_of(state, trimmed(line));
        ParserStateView {
            tokens: state.tokens.push(token),
            jobs: jobs_after(state.jobs, token),
            section: section_after(state.section, token),
        }
    }
}

/// The state below all of `lines`.
pub open spec fn after_lines(state: ParserStateView, lines: Seq<Seq<char>>) -> ParserStateView
    decreases lines.len(),
{
    if lines.len() == 0 {
        state
    } else {
        after_lines(after_line(state, lines.first()), lines.drop_first())
    }
}

/// The tokens of a crontab.
pub open spec fn tokens_of(text: Seq<char>) -> Seq<TokenView> {
    after_lines(initial_state(), lines_of(text)).tokens
}

} // verus!
