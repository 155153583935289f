use crate::crontab::environment::Environment;
use crate::crontab::text::{
    chars_of, find, lemma_position_of, lines_of, position_of, split_line, string_of, trim,
    trimmed,
};
use vstd::prelude::*;

verus! {

/// The variables that describe the shell that wrote the file, not the
/// environment to run jobs in.
pub open spec fn is_special_variable(name: Seq<char>) -> bool {
    name == seq!['S', 'H', 'L', 'V', 'L'] || name == seq!['_']
}

/// The environment below a line of the file: a line that holds `=` binds
/// what stands before the first `=` to what stands behind it, unless the
/// name is special.
pub open spec fn env_after_line(env: Map<Seq<char>, Seq<char>>, line: Seq<char>) -> Map<
    Seq<char>,
    Seq<char>,
> {
    let entry = trimmed(line);
    let at = position_of(entry, '=');
    if 0 <= at < entry.len() && !is_special_variable(entry.take(at)) {
        env.insert(entry.take(at), entry.skip(at + 1))
    } else {
        env
    }
}

/// The environment below all of `lines`.
pub open spec fn env_after_lines(env: Map<Seq<char>, Seq<char>>, lines: Seq<Seq<char>>) -> Map<
    Seq<char>,
    Seq<char>,
>
    decreases lines.len(),
{
    if lines.len() == 0 {
        env
    } else {
        env_after_lines(env_after_line(env, lines.first()), lines.drop_first())
    }
}

/// The environment that the text of an environment file describes, as the
/// command `env` prints it: one variable on each line, the last taking
/// precedence.
pub open spec fn env_of(text: Seq<char>) -> Map<Seq<char>, Seq<char>> {
    env_after_lines(Map::empty(), lines_of(text))
}

fn is_special(name: &[char]) -> (yes: bool)
    ensures
        yes == is_special_variable(name@),
{
    if name.len() == 1 {
        proof {
            if name@[0] == '_' {
                assert(name@ =~= seq!['_']);
            }
        }
        name[0] == '_'
    } else if name.len() == 5 {
        proof {
            if name@[0] == 'S' && name@[1] == 'H' && name@[2] == 'L' && name@[3] == 'V' && name@[4]
                == 'L' {
                assert(name@ =~= seq!['S', 'H', 'L', 'V', 'L']);
            }
        }
        name[0] == 'S' && name[1] == 'H' && name[2] == 'L' && name[3] == 'V' && name[4] == 'L'
    } else {
        false
    }
}

/// Reads the text of an environment file.
pub fn parse_env_file(text: &str) -> (env: Environment)
    ensures
        env@ == env_of(text@),
{
    let chars = chars_of(text);
    let mut env = Environment::new();
    let mut rest = chars.as_slice();
    loop
        invariant_except_break
            env_of(text@) == env_after_lines(env@, lines_of(rest@)),
        ensures
            env_of(text@) == env@,
        decreases rest@.len(),
    {
        let (raw, below) = split_line(rest);
        let entry = trim(raw);
        let at = find(entry, '=');
        let ghost before = env@;
        let ghost lines = lines_of(rest@);
        proof {
            lemma_position_of(entry@, '=');
            assert(lines.first() == raw@);
        }
        if at < entry.len() {
            let n = entry.len();
            let name = &entry[0..at];
            proof {
                assert(entry@.subrange(0, at as int) =~= entry@.take(at as int));
                assert(entry@.subrange(at + 1, n as int) =~= entry@.skip(at + 1));
            }
            if !is_special(name) {
                env.insert(string_of(name), string_of(&entry[at + 1..n]));
            }
        }
        proof {
            assert(env@ == env_after_line(before, raw@));
        }
        match below {
            Some(below) => {
                proof {
                    assert(lines.drop_first() =~= lines_of(below@));
                }
                rest = below;
            },
            None => {
                proof {
                    assert(lines.drop_first() =~= Seq::<Seq<char>>::empty());
                    assert(env_after_lines(env@, lines.drop_first()) == env@);
                }
                break ;
            },
        }
    }
    env
}

} // verus!
