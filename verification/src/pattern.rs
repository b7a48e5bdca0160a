//! Patterns that match one window title and no other.

use vstd::prelude::*;
use vstd::string::*;

use crate::smoketest::error::{fails_with, Error};

verus! {

/// Whether a character has a meaning of its own in a pattern.
pub open spec fn is_meta(c: char) -> bool {
    ||| c == '\\'
    ||| c == '.'
    ||| c == '+'
    ||| c == '*'
    ||| c == '?'
    ||| c == '('
    ||| c == ')'
    ||| c == '|'
    ||| c == '['
    ||| c == ']'
    ||| c == '{'
    ||| c == '}'
    ||| c == '^'
    ||| c == '$'
    ||| c == '#'
    ||| c == '&'
    ||| c == '-'
    ||| c == '~'
}

/// The pattern that stands for a text: a backslash goes before each character
/// with a meaning of its own.
pub open spec fn escaped(s: Seq<char>) -> Seq<char>
    decreases s.len(),
{
    if s.len() == 0 {
        s
    } else if is_meta(s.last()) {
        escaped(s.drop_last()).push('\\').push(s.last())
    } else {
        escaped(s.drop_last()).push(s.last())
    }
}

/// `regex::escape` puts a backslash before each character with a meaning of its
/// own, and leaves the others as they are.
pub assume_specification[ regex::escape ](pattern: &str) -> (r: String)
    ensures
        r@ == escaped(pattern@),
;

/// What `regex::Regex::new` has against a pattern: the text of its error, or
/// nothing when the pattern compiles. The crate limits the size of a compiled
/// pattern in bytes, so for very long patterns there is one such answer for each
/// width of a pointer.
pub uninterp spec fn pattern_complaint(pattern: Seq<char>) -> Option<Seq<char>>;

/// `regex::Regex::new` on a pattern. Claims that the outcome, and the text of the
/// error where there is one, depend on the pattern alone.
#[verifier::external_body]
fn try_pattern(pattern: &str) -> (r: Option<String>)
    ensures
        match r {
            Some(why) => pattern_complaint(pattern@) == Some(why@),
            None => pattern_complaint(pattern@) is None,
        },
{
    regex::Regex::new(pattern).err().map(|e| e.to_string())
}

/// The pattern for a title as a whole.
pub open spec fn title_pattern(title: Seq<char>) -> Seq<char> {
    "^"@ + escaped(title) + "$"@
}

/// The pattern, unless something was found against it.
pub fn accept_pattern(pattern: String, complaint: Option<String>) -> (r: Result<String, Error>)
    ensures
        match complaint {
            None => r == Ok::<String, Error>(pattern),
            Some(why) => fails_with(r, "invalid raise regex: "@ + why@),
        },
{
    match complaint {
        None => Ok(pattern),
        Some(why) => {
            let mut s = "invalid raise regex: ".to_owned();
            s.append(why.as_str());
            Err(Error::InvalidState(s))
        },
    }
}

/// The pattern by which a window with a title is raised.
pub fn raise_pattern(title: &str) -> (r: Result<String, Error>)
    ensures
        match pattern_complaint(title_pattern(title@)) {
            None => r matches Ok(pattern) && pattern@ == title_pattern(title@),
            Some(why) => fails_with(r, "invalid raise regex: "@ + why),
        },
{
    let mut pattern = "^".to_owned();
    pattern.append(regex::escape(title).as_str());
    pattern.append("$");
    let complaint = try_pattern(pattern.as_str());
    accept_pattern(pattern, complaint)
}

/// Different texts have different patterns.
pub proof fn escaping_tells_texts_apart(a: Seq<char>, b: Seq<char>)
    requires
        escaped(a) == escaped(b),
    ensures
        a == b,
    decreases a.len(),
{
    if a.len() == 0 {
        if b.len() > 0 {
            assert(escaped(b).len() > 0);
        }
        assert(a =~= b);
    } else if b.len() == 0 {
        assert(escaped(a).len() > 0);
    } else {
        assert(escaped(a).last() == a.last());
        assert(escaped(b).last() == b.last());
        let c = a.last();
        assert(b.last() == c);
        let cut = if is_meta(c) {
            2int
        } else {
            1int
        };
        assert(escaped(a).take(escaped(a).len() - cut) =~= escaped(a.drop_last()));
        assert(escaped(b).take(escaped(b).len() - cut) =~= escaped(b.drop_last()));
        escaping_tells_texts_apart(a.drop_last(), b.drop_last());
        assert(a =~= a.drop_last().push(c));
        assert(b =~= b.drop_last().push(c));
    }
}

} // verus!
