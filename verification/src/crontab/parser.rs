use super::grammar::{
    ParserStateView, after_line, after_lines, command_of, comment_token, description_above,
    field_len, fingerprint_of, fingerprint_text, ignore_tag, is_comment_line,
    is_complete_job, is_description_comment, is_job_line, is_section_comment, is_variable_line,
    job_token, jobs_after, last_of, schedule_of, section_after, split_fields, tag_of,
    token_of, tokens_of, unknown_token, untagged, variable_token, without_blanks, without_quotes,
};
use super::hash::djb2;
use super::text::{
    append_chars, chars_of, find, is_ascii_whitespace_char, lemma_position_of,
    lemma_trimmed_is_shorter, lines_of, position_of, push_decimal, split_line, string_of, trim,
    trim_start, trimmed,
    trimmed_start,
};
use super::tokens::{
    clone_section, description_of, section_of, text_of, views_of, Comment, CommentKind, CronJob,
    IgnoredJob, JobDescription, JobSection, Token, TokenView, Unknown, Variable,
};
use vstd::prelude::*;
use vstd::string::StringExecFns;

verus! {

/// What the parser carries from line to line.
struct ParserState {
    tokens: Vec<Token>,
    jobs: usize,
    section: Option<JobSection>,
}

impl View for ParserState {
    type V = ParserStateView;

    closed spec fn view(&self) -> ParserStateView {
        ParserStateView {
            tokens: views_of(self.tokens@),
            jobs: self.jobs as nat,
            section: section_of(self.section),
        }
    }
}

/// The number of sections opened so far.
spec fn sections_seen(section: Option<JobSection>) -> nat {
    match section {
        Some(open) => open.uid as nat,
        None => 0,
    }
}

/// The view of a borrowed token, if there is one.
spec fn seen(token: Option<&Token>) -> Option<TokenView> {
    match token {
        Some(token) => Some(token@),
        None => None,
    }
}

/// Turns the text of a crontab into tokens.
pub struct Parser;

impl Parser {
    /// The tokens of `crontab`, one for each line that is not blank, in the
    /// order of the lines. A line that the parser does not understand
    /// becomes an [`Unknown`] token.
    pub fn parse(crontab: &str) -> (tokens: Vec<Token>)
        ensures
            views_of(tokens@) == tokens_of(crontab@),
    {
        let text = chars_of(crontab);
        let mut state = ParserState { tokens: Vec::new(), jobs: 0, section: None };
        let mut rest = text.as_slice();
        let total = text.len();
        proof {
            assert(state@.tokens =~= Seq::<TokenView>::empty());
        }
        loop
            invariant_except_break
                state.jobs + rest@.len() <= total,
                sections_seen(state.section) + rest@.len() <= total,
                tokens_of(crontab@) == after_lines(state@, lines_of(rest@)).tokens,
            ensures
                tokens_of(crontab@) == state@.tokens,
            decreases rest@.len(),
        {
            let (raw, below) = split_line(rest);
            let line = trim(raw);
            let ghost before = state@;
            let ghost lines = lines_of(rest@);
            proof {
                lemma_trimmed_is_shorter(raw@);
                assert(lines.first() == raw@);
            }
            if line.len() > 0 {
                let token = Self::make_token_from_line(line, &mut state);
                state.tokens.push(token);
                proof {
                    assert(state@.tokens =~= before.tokens.push(token@));
                }
            }
            proof {
                assert(state@ == after_line(before, raw@));
            }
            match below {
                Some(below) => {
                    proof {
                        assert(lines.drop_first() =~= lines_of(below@));
                    }
                    rest = below;
                },
                None => {
                    proof {
                        assert(lines.drop_first() =~= Seq::<Seq<char>>::empty());
                        assert(after_lines(state@, lines.drop_first()) == state@);
                    }
                    break ;
                },
            }
        }
        state.tokens
    }

    fn make_token_from_line(line: &[char], state: &mut ParserState) -> (token: Token)
        requires
            line@.len() > 0,
            old(state).jobs < usize::MAX,
            sections_seen(old(state).section) < usize::MAX,
        ensures
            token@ == token_of(old(state)@, line@),
            final(state).tokens == old(state).tokens,
            final(state).jobs == jobs_after(old(state).jobs as nat, token@),
            section_of(final(state).section) == section_after(
                section_of(old(state).section),
                token@,
            ),
            sections_seen(final(state).section) <= sections_seen(old(state).section) + 1,
    {
        if Self::is_job(line) {
            Self::make_token_from_job_line(line, state)
        } else if Self::is_variable(line) {
            Self::make_token_from_variable_line(line)
        } else if Self::is_comment(line) {
            Self::make_token_from_comment_line(line, state)
        } else {
            Self::make_token_from_unknown_line(line)
        }
    }

    fn is_job(line: &[char]) -> (yes: bool)
        ensures
            yes == is_job_line(line@),
    {
        if line.len() == 0 {
            return false;
        }
        let c: u32 = line[0] as u32;
        ('0' as u32 <= c && c <= '9' as u32) || line[0] == '*' || line[0] == '@'
    }

    fn make_token_from_job_line(line: &[char], state: &mut ParserState) -> (token: Token)
        requires
            line@.len() > 0,
            old(state).jobs < usize::MAX,
        ensures
            token@ == job_token(old(state)@, line@),
            final(state).tokens == old(state).tokens,
            final(state).section == old(state).section,
            final(state).jobs == jobs_after(old(state).jobs as nat, token@),
    {
        match Self::make_job_token(line, state) {
            Ok(token) => {
                if let Token::CronJob(_) = token {
                    state.jobs += 1;
                }
                token
            },
            Err(_) => Self::make_unknown_token(line),
        }
    }

    fn make_job_token(line: &[char], state: &ParserState) -> (made: Result<Token, ()>)
        requires
            line@.len() > 0,
            state.jobs < usize::MAX,
        ensures
            made is Ok <==> is_complete_job(line@),
            made is Ok ==> made->Ok_0@ == job_token(state@, line@),
            made is Ok ==> !(made->Ok_0 is Unknown),
    {
        let (schedule, command) = Self::split_schedule_and_command(line);

        if schedule.len() == 0 || command.len() == 0 {
            return Err(());
        }
        let previous_token = if state.tokens.len() > 0 {
            Some(&state.tokens[state.tokens.len() - 1])
        } else {
            None
        };
        proof {
            assert(seen(previous_token) == last_of(state@.tokens));
        }
        let mut description = Self::get_job_description_if_any(previous_token);
        let tag = Self::extract_tag_from_job_description(&mut description);
        let section = clone_section(&state.section);

        if Self::is_job_ignored(tag.as_ref()) {
            return Ok(
                Token::IgnoredJob(
                    IgnoredJob {
                        tag,
                        schedule: string_of(schedule.as_slice()),
                        command: string_of(command),
                        description,
                        section,
                    },
                ),
            );
        }
        let uid = state.jobs + 1;
        let fingerprint = Self::fingerprint(uid, command);

        Ok(
            Token::CronJob(
                CronJob {
                    uid,
                    fingerprint,
                    tag,
                    schedule: string_of(schedule.as_slice()),
                    command: string_of(command),
                    description,
                    section,
                },
            ),
        )
    }

    /// The hash of `uid(<uid>),command(<command>)`.
    fn fingerprint(uid: usize, command: &[char]) -> (hash: u64)
        ensures
            hash == fingerprint_of(uid as nat, command@),
    {
        let mut text: Vec<char> = Vec::new();
        text.push('u');
        text.push('i');
        text.push('d');
        text.push('(');
        proof {
            assert(text@ =~= seq!['u', 'i', 'd', '(']);
        }
        push_decimal(uid, &mut text);
        let ghost numbered = text@;
        text.push(')');
        text.push(',');
        text.push('c');
        text.push('o');
        text.push('m');
        text.push('m');
        text.push('a');
        text.push('n');
        text.push('d');
        text.push('(');
        proof {
            assert(text@ =~= numbered + seq![')', ',', 'c', 'o', 'm', 'm', 'a', 'n', 'd', '(']);
        }
        append_chars(&mut text, command);
        text.push(')');
        proof {
            assert(text@ =~= fingerprint_text(uid as nat, command@));
        }
        let text = string_of(text.as_slice());
        djb2(text.as_str().as_bytes())
    }

    /// Splits a job's line into its schedule and its command.
    ///
    /// The schedule is one field where the line begins with `@`, else five;
    /// the command is all that follows.
    fn split_schedule_and_command<'a>(line: &'a [char]) -> (parts: (Vec<char>, &'a [char]))
        ensures
            parts.0@ == schedule_of(line@),
            parts.1@ == command_of(line@),
    {
        let fields: usize = if line.len() > 0 && line[0] == '@' {
            1
        } else {
            5
        };
        let mut schedule: Vec<char> = Vec::new();
        let rest = Self::extract_schedule_from_job_chars(line, fields, &mut schedule);
        proof {
            assert(schedule@ =~= schedule_of(line@));
        }
        (schedule, trim(rest))
    }

    /// Puts the first `fields` fields of `line` at the end of `schedule`,
    /// with single spaces between them, and returns what follows them.
    fn extract_schedule_from_job_chars<'a>(
        line: &'a [char],
        fields: usize,
        schedule: &mut Vec<char>,
    ) -> (rest: &'a [char])
        ensures
            final(schedule)@ == old(schedule)@ + split_fields(line@, fields as nat).0,
            rest@ == split_fields(line@, fields as nat).1,
        decreases fields,
    {
        let mut end: usize = 0;
        proof {
            assert(line@.skip(0) =~= line@);
        }
        while end < line.len() && !is_ascii_whitespace_char(line[end])
            invariant
                end <= line.len(),
                field_len(line@) == end + field_len(line@.skip(end as int)),
            decreases line.len() - end,
        {
            proof {
                assert(line@.skip(end as int).drop_first() =~= line@.skip(end + 1));
            }
            end += 1;
        }
        append_chars(schedule, &line[0..end]);
        let after = &line[end..line.len()];
        proof {
            assert(line@.subrange(0, end as int) =~= line@.take(end as int));
            assert(after@ =~= line@.skip(end as int));
        }
        if after.len() == 0 {
            after
        } else if fields <= 1 {
            proof {
                assert(after@.subrange(1, after@.len() as int) =~= after@.drop_first());
            }
            &after[1..after.len()]
        } else {
            schedule.push(' ');
            let mut next: usize = 0;
            proof {
                assert(after@.skip(0) =~= after@);
            }
            while next < after.len() && is_ascii_whitespace_char(after[next])
                invariant
                    next <= after.len(),
                    without_blanks(after@) == without_blanks(after@.skip(next as int)),
                decreases after.len() - next,
            {
                proof {
                    assert(after@.skip(next as int).drop_first() =~= after@.skip(next + 1));
                }
                next += 1;
            }
            let ghost spaced = schedule@;
            let rest = Self::extract_schedule_from_job_chars(
                &after[next..after.len()],
                fields - 1,
                schedule,
            );
            proof {
                assert(after@.subrange(next as int, after@.len() as int) =~= after@.skip(
                    next as int,
                ));
                let more = split_fields(without_blanks(after@), (fields - 1) as nat).0;
                assert(schedule@ =~= old(schedule)@ + (line@.take(end as int) + seq![' '] + more));
            }
            rest
        }
    }

    /// The description that the token right above a job gives it.
    fn get_job_description_if_any(previous_token: Option<&Token>) -> (description: Option<
        JobDescription,
    >)
        ensures
            description_of(description) == description_above(seen(previous_token)),
    {
        if let Some(Token::Comment(comment)) = previous_token {
            if comment.kind == CommentKind::Description && comment.value.as_str().unicode_len() > 0 {
                return Some(JobDescription(comment.value.clone()));
            }
        }
        None
    }

    /// Takes the tag off a description.
    ///
    /// A description may begin with a tag, opened by `%{` and closed by the
    /// first `}`. What follows the tag stays as the description.
    fn extract_tag_from_job_description(job_description: &mut Option<JobDescription>) -> (tag:
        Option<String>)
        ensures
            text_of(tag) == tag_of(description_of(*old(job_description))),
            description_of(*final(job_description)) == untagged(
                description_of(*old(job_description)),
            ),
    {
        let text = match job_description {
            Some(description) => chars_of(description.0.as_str()),
            None => {
                return None;
            },
        };
        let text = text.as_slice();
        let close = find(text, '}');
        proof {
            lemma_position_of(text@, '}');
        }
        if !(text.len() >= 2 && text[0] == '%' && text[1] == '{' && close < text.len()) {
            return None;
        }
        let tag = string_of(&text[2..close]);
        let rest = trim_start(&text[close + 1..text.len()]);
        proof {
            assert(text@.subrange(close + 1, text@.len() as int) =~= text@.skip(close + 1));
        }
        *job_description = if rest.len() > 0 {
            Some(JobDescription(string_of(rest)))
        } else {
            None
        };
        Some(tag)
    }

    /// Whether a job with this tag is hidden: whether the tag is `ignore`.
    fn is_job_ignored(tag: Option<&String>) -> (yes: bool)
        ensures
            yes == (match tag {
                Some(tag) => tag@ == ignore_tag(),
                None => false,
            }),
    {
        match tag {
            Some(tag) => {
                let ignore = String::from_str("ignore");
                proof {
                    reveal_strlit("ignore");
                    assert("ignore"@ =~= ignore_tag());
                }
                *tag == ignore
            },
            None => false,
        }
    }

    /// The section that a comment opens, if it opens one.
    fn get_job_section_if_any(comment_token: &Token, state: &ParserState) -> (section: Option<
        JobSection,
    >)
        requires
            sections_seen(state.section) < usize::MAX,
        ensures
            section is Some ==> section_of(section) == section_after(
                section_of(state.section),
                comment_token@,
            ),
            section is Some ==> section->0.uid == sections_seen(state.section) + 1,
            section is None ==> section_of(state.section) == section_after(
                section_of(state.section),
                comment_token@,
            ),
    {
        if let Token::Comment(comment) = comment_token {
            if comment.kind == CommentKind::Section && comment.value.as_str().unicode_len() > 0 {
                let uid = match &state.section {
                    Some(section) => section.uid + 1,
                    None => 1,
                };
                return Some(JobSection { uid, title: comment.value.clone() });
            }
        }
        None
    }

    fn is_variable(line: &[char]) -> (yes: bool)
        ensures
            yes == is_variable_line(line@),
    {
        proof {
            lemma_position_of(line@, '=');
        }
        if find(line, '=') == line.len() {
            return false;
        }
        let c: u32 = line[0] as u32;
        ('a' as u32 <= c && c <= 'z' as u32) || ('A' as u32 <= c && c <= 'Z' as u32) || line[0]
            == '_' || line[0] == '"' || line[0] == '\''
    }

    fn make_token_from_variable_line(line: &[char]) -> (token: Token)
        requires
            line@.contains('='),
        ensures
            token@ == variable_token(line@),
    {
        Self::make_variable_token(line)
    }

    fn make_variable_token(line: &[char]) -> (token: Token)
        requires
            line@.contains('='),
        ensures
            token@ == variable_token(line@),
    {
        let (identifier, value) = Self::split_identifier_and_value(line);

        let identifier = Self::trim_quotes(identifier);
        let value = Self::trim_quotes(value);

        Token::Variable(Variable { identifier: string_of(identifier), value: string_of(value) })
    }

    /// The two sides of the first `=`, trimmed.
    fn split_identifier_and_value<'a>(line: &'a [char]) -> (sides: (&'a [char], &'a [char]))
        requires
            line@.contains('='),
        ensures
            sides.0@ == trimmed(line@.take(position_of(line@, '='))),
            sides.1@ == trimmed(line@.skip(position_of(line@, '=') + 1)),
    {
        let at = find(line, '=');
        let n = line.len();
        proof {
            lemma_position_of(line@, '=');
            assert(at < n);
            assert(line@.subrange(0, at as int) =~= line@.take(at as int));
            assert(line@.subrange(at + 1, line@.len() as int) =~= line@.skip(at + 1));
        }
        (trim(&line[0..at]), trim(&line[at + 1..n]))
    }

    /// Takes one pair of quotes off `subject`, if it stands between two
    /// double quotes or two single quotes.
    fn trim_quotes<'a>(subject: &'a [char]) -> (inner: &'a [char])
        ensures
            inner@ == without_quotes(subject@),
    {
        let n = subject.len();
        if n >= 2 && ((subject[0] == '"' && subject[n - 1] == '"') || (subject[0] == '\''
            && subject[n - 1] == '\'')) {
            return &subject[1..n - 1];
        }
        subject
    }

    fn is_comment(line: &[char]) -> (yes: bool)
        ensures
            yes == is_comment_line(line@),
    {
        line.len() > 0 && line[0] == '#'
    }

    fn make_token_from_comment_line(line: &[char], state: &mut ParserState) -> (token: Token)
        requires
            line@.len() > 0,
            sections_seen(old(state).section) < usize::MAX,
        ensures
            token@ == comment_token(line@),
            final(state).tokens == old(state).tokens,
            final(state).jobs == old(state).jobs,
            section_of(final(state).section) == section_after(
                section_of(old(state).section),
                token@,
            ),
            sections_seen(final(state).section) <= sections_seen(old(state).section) + 1,
    {
        let comment = Self::make_comment_token(line);

        if let Some(section) = Self::get_job_section_if_any(&comment, state) {
            state.section = Some(section);
        }
        comment
    }

    fn make_comment_token(line: &[char]) -> (token: Token)
        requires
            line@.len() > 0,
        ensures
            token@ == comment_token(line@),
    {
        if Self::is_section_comment(line) {
            return Token::Comment(
                Comment { value: Self::clean_section_comment(line), kind: CommentKind::Section },
            );
        }
        if Self::is_description_comment(line) {
            return Token::Comment(
                Comment {
                    value: Self::clean_description_comment(line),
                    kind: CommentKind::Description,
                },
            );
        }
        Token::Comment(
            Comment { value: Self::clean_regular_comment(line), kind: CommentKind::Regular },
        )
    }

    fn is_section_comment(line: &[char]) -> (yes: bool)
        ensures
            yes == is_section_comment(line@),
    {
        line.len() >= 3 && line[0] == '#' && line[1] == '#' && line[2] == '#'
    }

    fn clean_section_comment(line: &[char]) -> (value: String)
        requires
            line@.len() >= 3,
        ensures
            value@ == trimmed_start(line@.skip(3)),
    {
        proof {
            assert(line@.subrange(3, line@.len() as int) =~= line@.skip(3));
        }
        string_of(trim_start(&line[3..line.len()]))
    }

    fn is_description_comment(line: &[char]) -> (yes: bool)
        ensures
            yes == is_description_comment(line@),
    {
        line.len() >= 2 && line[0] == '#' && line[1] == '#' && !Self::is_section_comment(line)
    }

    fn clean_description_comment(line: &[char]) -> (value: String)
        requires
            line@.len() >= 2,
        ensures
            value@ == trimmed_start(line@.skip(2)),
    {
        proof {
            assert(line@.subrange(2, line@.len() as int) =~= line@.skip(2));
        }
        string_of(trim_start(&line[2..line.len()]))
    }

    fn clean_regular_comment(line: &[char]) -> (value: String)
        requires
            line@.len() >= 1,
        ensures
            value@ == trimmed_start(line@.skip(1)),
    {
        proof {
            assert(line@.subrange(1, line@.len() as int) =~= line@.skip(1));
        }
        string_of(trim_start(&line[1..line.len()]))
    }

    fn make_token_from_unknown_line(line: &[char]) -> (token: Token)
        ensures
            token@ == unknown_token(line@),
    {
        Self::make_unknown_token(line)
    }

    fn make_unknown_token(line: &[char]) -> (token: Token)
        ensures
            token@ == unknown_token(line@),
    {
        Token::Unknown(Unknown { value: string_of(line) })
    }
}

} // verus!
