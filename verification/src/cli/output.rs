use crate::crontab::text::chars_of;
use vstd::prelude::*;

verus! {

/// Whether `pager` names the pager `less`, by itself or by a path.
pub open spec fn names_less(pager: Seq<char>) -> bool {
    pager == seq!['l', 'e', 's', 's'] || (pager.len() >= 5 && pager.skip(pager.len() - 5) == seq![
        '/',
        'l',
        'e',
        's',
        's',
    ])
}

/// What to tell a pager before it gets text.
pub struct Pager;

impl Pager {
    /// Whether the pager is `less`, which takes options that make it show
    /// colours, leave short texts on the screen and not clear it.
    pub fn is_less(pager: &str) -> (yes: bool)
        ensures
            yes == names_less(pager@),
    {
        let chars = chars_of(pager);
        let n = chars.len();
        if n < 4 {
            return false;
        }
        let ends_in_less = chars[n - 4] == 'l' && chars[n - 3] == 'e' && chars[n - 2] == 's'
            && chars[n - 1] == 's';
        proof {
            if n == 4 {
                if ends_in_less {
                    assert(chars@ =~= seq!['l', 'e', 's', 's']);
                }
            } else {
                let tail = chars@.skip(n - 5);
                assert(tail.len() == 5);
                assert(tail[0] == chars@[n - 5] && tail[1] == chars@[n - 4] && tail[2] == chars@[n
                    - 3] && tail[3] == chars@[n - 2] && tail[4] == chars@[n - 1]);
                if ends_in_less && chars@[n - 5] == '/' {
                    assert(tail =~= seq!['/', 'l', 'e', 's', 's']);
                }
            }
        }
        if n == 4 {
            ends_in_less
        } else {
            ends_in_less && chars[n - 5] == '/'
        }
    }

    /// Whether `content` lacks the line feed that a text ends with.
    pub fn lacks_final_newline(content: &str) -> (yes: bool)
        ensures
            yes == !(content@.len() > 0 && content@.last() == '\n'),
    {
        let chars = chars_of(content);
        let n = chars.len();
        !(n > 0 && chars[n - 1] == '\n')
    }
}

} // verus!
