//! What built text reads as.

use vstd::prelude::*;
use vstd::string::*;

use crate::text::{
    bool_text, contains_text, dec, dec_is_never_empty, decimal, decimal_signed, digit_char, join,
    joined, occurs_at, option_text, replace_char, replaced, text_eq, texts, trim_char, trimmed_end,
    trimmed_start,
};

verus! {

/// The number that digits read as, most significant first.
pub open spec fn value_of(digits: Seq<char>) -> int
    decreases digits.len(),
{
    if digits.len() == 0 {
        0
    } else {
        10 * value_of(digits.drop_last()) + (digits.last() as int - '0' as int)
    }
}

/// Whether every character is a decimal digit.
pub open spec fn all_digits(s: Seq<char>) -> bool {
    forall|i: int| 0 <= i < s.len() ==> '0' <= #[trigger] s[i] <= '9'
}

/// A number in decimal reads as that number.
pub proof fn decimals_are_read_back(n: nat)
    ensures
        value_of(dec(n)) == n,
        all_digits(dec(n)),
        dec(n).len() > 0,
        n > 0 ==> dec(n)[0] != '0',
        n == 0 ==> dec(n).len() == 1,
    decreases n,
{
    reveal_with_fuel(value_of, 2);
    dec_is_never_empty(n);
    if n < 10 {
        assert(dec(n).drop_last() =~= Seq::empty());
    } else {
        decimals_are_read_back(n / 10);
        assert(dec(n).drop_last() =~= dec(n / 10));
        assert(digit_char((n % 10) as int) as int - '0' as int == n % 10);
        assert(dec(n)[0] == dec(n / 10)[0]);
    }
}

/// A number in decimal reads as that number: digits alone, and none of them a leading zero.
pub proof fn decimals_read_back(n: u64, s: String)
    requires
        call_ensures(decimal, (n,), s),
    ensures
        value_of(s@) == n,
        all_digits(s@),
        s@.len() > 0,
        s@.len() > 1 ==> s@[0] != '0',
{
    decimals_are_read_back(n as nat);
}

/// A signed number in decimal reads as that number: negative ones start with a minus sign,
/// and digits follow.
pub proof fn signed_decimals_read_back(n: i64, s: String)
    requires
        call_ensures(decimal_signed, (n,), s),
    ensures
        n >= 0 ==> value_of(s@) == n && all_digits(s@) && s@.len() > 0,
        n < 0 ==> s@.len() > 1 && s@[0] == '-' && value_of(s@.skip(1)) == -n && all_digits(
            s@.skip(1),
        ),
{
    if n < 0 {
        decimals_are_read_back((-n) as nat);
        assert(s@.skip(1) =~= dec((-n) as nat));
    } else {
        decimals_are_read_back(n as nat);
    }
}

/// Texts are equal when they are equally long and agree in every character.
pub proof fn equal_texts_agree_everywhere(a: &str, b: &str, r: bool)
    requires
        call_ensures(text_eq, (a, b), r),
    ensures
        r <==> a@.len() == b@.len() && forall|i: int|
            0 <= i < a@.len() ==> #[trigger] a@[i] == b@[i],
{
    if a@.len() == b@.len() && forall|i: int| 0 <= i < a@.len() ==> #[trigger] a@[i] == b@[i] {
        assert(a@ =~= b@);
    }
}

/// A text is found in another exactly when it stands there from some position on.
pub proof fn found_texts_stand_somewhere(hay: &str, needle: &str, r: bool)
    requires
        call_ensures(contains_text, (hay, needle), r),
    ensures
        r ==> exists|before: Seq<char>, after: Seq<char>|
            #![trigger before + needle@ + after]
            hay@ == before + needle@ + after,
        forall|before: Seq<char>, after: Seq<char>|
            #![trigger before + needle@ + after]
            hay@ == before + needle@ + after ==> r,
{
    if r {
        let i = choose|i: int| #[trigger] occurs_at(hay@, needle@, i);
        let before = hay@.take(i);
        let after = hay@.skip(i + needle@.len());
        assert(hay@ =~= before + needle@ + after) by {
            assert forall|k: int| 0 <= k < needle@.len() implies hay@[i + k] == #[trigger] needle@[k] by {
                assert(hay@.subrange(i, i + needle@.len())[k] == hay@[i + k]);
            }
        }
    }
    assert forall|before: Seq<char>, after: Seq<char>|
        #![trigger before + needle@ + after]
        hay@ == before + needle@ + after implies r by {
        assert(hay@.subrange(before.len() as int, (before.len() + needle@.len()) as int) =~= needle@);
        assert(occurs_at(hay@, needle@, before.len() as int));
    }
}

proof fn joined_in_two(a: Seq<Seq<char>>, b: Seq<Seq<char>>, sep: Seq<char>)
    requires
        a.len() > 0,
        b.len() > 0,
    ensures
        joined(a + b, sep) == joined(a, sep) + sep + joined(b, sep),
    decreases b.len(),
{
    assert((a + b).drop_last() =~= a + b.drop_last());
    assert((a + b).last() == b.last());
    if b.len() == 1 {
        assert(a + b.drop_last() =~= a);
    } else {
        joined_in_two(a, b.drop_last(), sep);
        assert(joined(a + b, sep) =~= joined(a, sep) + sep + joined(b, sep));
    }
}

/// Nothing joins to nothing, one part joins to itself, and the separator stands once between
/// any two neighbours: what is joined in two halves reads as the halves with the separator
/// between them.
pub proof fn the_separator_stands_between_neighbours(
    a: Vec<String>,
    b: Vec<String>,
    both: Vec<String>,
    sep: &str,
    first: String,
    second: String,
    whole: String,
)
    requires
        call_ensures(join, (&a, sep), first),
        call_ensures(join, (&b, sep), second),
        call_ensures(join, (&both, sep), whole),
        both@ == a@ + b@,
    ensures
        a@.len() == 0 ==> first@.len() == 0,
        a@.len() == 1 ==> first@ == a@[0]@,
        a@.len() > 0 && b@.len() > 0 ==> whole@ == first@ + sep@ + second@,
{
    assert(texts(both@) =~= texts(a@) + texts(b@));
    if a@.len() > 0 && b@.len() > 0 {
        joined_in_two(texts(a@), texts(b@), sep@);
    }
}

proof fn replaced_in_two(a: Seq<char>, b: Seq<char>, from: char, to: Seq<char>)
    ensures
        replaced(a + b, from, to) == replaced(a, from, to) + replaced(b, from, to),
    decreases b.len(),
{
    if b.len() == 0 {
        assert(a + b =~= a);
        assert(replaced(a, from, to) + replaced(b, from, to) =~= replaced(a, from, to));
    } else {
        assert((a + b).drop_last() =~= a + b.drop_last());
        assert((a + b).last() == b.last());
        replaced_in_two(a, b.drop_last(), from, to);
        assert(replaced(a + b, from, to) =~= replaced(a, from, to) + replaced(b, from, to));
    }
}

/// Replacing works character by character: a text in two halves reads as its halves
/// replaced, one character becomes the replacement where it is the one replaced, and stays
/// what it is otherwise.
pub proof fn characters_are_replaced_one_by_one(
    a: &str,
    b: &str,
    both: &str,
    from: char,
    to: &str,
    first: String,
    second: String,
    whole: String,
)
    requires
        call_ensures(replace_char, (a, from, to), first),
        call_ensures(replace_char, (b, from, to), second),
        call_ensures(replace_char, (both, from, to), whole),
        both@ == a@ + b@,
    ensures
        whole@ == first@ + second@,
        a@.len() == 0 ==> first@.len() == 0,
        a@.len() == 1 && a@[0] == from ==> first@ == to@,
        a@.len() == 1 && a@[0] != from ==> first@ == a@,
{
    reveal_with_fuel(replaced, 2);
    replaced_in_two(a@, b@, from, to@);
    if a@.len() == 1 {
        assert(a@.drop_last() =~= Seq::empty());
        assert(first@ =~= if a@[0] == from {
            to@
        } else {
            a@
        });
    }
}

/// Trimming at the end cuts off characters of the given kind alone, and as many as there
/// are.
pub proof fn trimming_the_end_cuts_the_tail(s: Seq<char>, cut: spec_fn(char) -> bool)
    ensures
        trimmed_end(s, cut).len() <= s.len(),
        trimmed_end(s, cut) == s.take(trimmed_end(s, cut).len() as int),
        forall|i: int| trimmed_end(s, cut).len() <= i < s.len() ==> cut(#[trigger] s[i]),
        trimmed_end(s, cut).len() > 0 ==> !cut(trimmed_end(s, cut).last()),
    decreases s.len(),
{
    if s.len() > 0 && cut(s.last()) {
        let rest = s.drop_last();
        trimming_the_end_cuts_the_tail(rest, cut);
        let r = trimmed_end(s, cut);
        assert(rest.take(r.len() as int) =~= s.take(r.len() as int));
        assert forall|i: int| r.len() <= i < s.len() implies cut(#[trigger] s[i]) by {
            if i < rest.len() {
                assert(rest[i] == s[i]);
            }
        }
    } else {
        assert(s.take(s.len() as int) =~= s);
    }
}

/// Trimming at the start cuts off characters of the given kind alone, and as many as there
/// are.
pub proof fn trimming_the_start_cuts_the_head(s: Seq<char>, cut: spec_fn(char) -> bool)
    ensures
        trimmed_start(s, cut).len() <= s.len(),
        trimmed_start(s, cut) == s.skip(s.len() - trimmed_start(s, cut).len()),
        forall|i: int| 0 <= i < s.len() - trimmed_start(s, cut).len() ==> cut(#[trigger] s[i]),
        trimmed_start(s, cut).len() > 0 ==> !cut(trimmed_start(s, cut).first()),
    decreases s.len(),
{
    if s.len() > 0 && cut(s.first()) {
        let rest = s.drop_first();
        trimming_the_start_cuts_the_head(rest, cut);
        let r = trimmed_start(s, cut);
        assert(rest.skip(rest.len() - r.len()) =~= s.skip(s.len() - r.len()));
        assert forall|i: int| 0 <= i < s.len() - r.len() implies cut(#[trigger] s[i]) by {
            if i > 0 {
                assert(rest[i - 1] == s[i]);
            }
        }
    } else {
        assert(s.skip(0) =~= s);
    }
}

/// What is left of a trimmed text neither starts nor ends with the character, and nothing
/// but that character was taken off either end.
pub proof fn trimming_takes_off_both_ends(s: &str, c: char, r: String)
    requires
        call_ensures(trim_char, (s, c), r),
    ensures
        r@.len() > 0 ==> r@.first() != c && r@.last() != c,
        exists|k: int|
            #![trigger s@.subrange(k, k + r@.len())]
            {
                &&& 0 <= k
                &&& k + r@.len() <= s@.len()
                &&& s@.subrange(k, k + r@.len()) == r@
                &&& forall|i: int|
                    0 <= i < k || k + r@.len() <= i < s@.len() ==> #[trigger] s@[i] == c
            },
{
    let cut = |x: char| x == c;
    let mid = trimmed_start(s@, cut);
    trimming_the_start_cuts_the_head(s@, cut);
    trimming_the_end_cuts_the_tail(mid, cut);
    let k = s@.len() - mid.len();
    let n = r@.len() as int;
    assert(s@.subrange(k, k + n) =~= r@);
    assert forall|i: int| 0 <= i < k || k + n <= i < s@.len() implies #[trigger] s@[i] == c by {
        if i < k {
            assert(cut(s@[i]));
        } else {
            assert(mid[i - k] == s@[i]);
            assert(cut(mid[i - k]));
        }
    }
    if n > 0 {
        assert(mid.first() == r@.first());
    }
}

/// Truth is told from falsehood.
pub proof fn truth_reads_as_truth(b: bool, s: &'static str)
    requires
        call_ensures(bool_text, (b,), s),
    ensures
        b ==> s@ == seq!['t', 'r', 'u', 'e'],
        !b ==> s@ == seq!['f', 'a', 'l', 's', 'e'],
{
    reveal_strlit("true");
    reveal_strlit("false");
}

/// A number that is there is told, and reads as that number; a missing one is told to be
/// missing.
pub proof fn missing_numbers_are_told(n: Option<u64>, s: String)
    requires
        call_ensures(option_text, (n,), s),
    ensures
        n is Some ==> s@.len() > 6 && s@[0] == 'S' && s@.last() == ')' && value_of(
            s@.subrange(5, s@.len() - 1),
        ) == n->Some_0,
        n is None ==> s@ == seq!['N', 'o', 'n', 'e'],
{
    reveal_strlit("Some(");
    reveal_strlit(")");
    reveal_strlit("None");
    if n is Some {
        decimals_are_read_back(n->Some_0 as nat);
        assert(s@.subrange(5, s@.len() - 1) =~= dec(n->Some_0 as nat));
    }
}

} // verus!
