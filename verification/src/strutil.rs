//! Verified string helpers: substring search, prefix/suffix tests, decimal
//! rendering of integers, and comma-joining, each specified over `Seq<char>`.

use vstd::prelude::*;

verus! {

/// `needle` occurs in `hay` starting at position `i`.
pub open spec fn matches_at(hay: Seq<char>, needle: Seq<char>, i: int) -> bool {
    0 <= i && i + needle.len() <= hay.len() && hay.subrange(i, i + needle.len() as int)
        == needle
}

/// `needle` occurs somewhere in `hay`.
pub open spec fn contains_seq(hay: Seq<char>, needle: Seq<char>) -> bool {
    exists|i: int| matches_at(hay, needle, i)
}

/// `p` is a prefix of `hay`.
pub open spec fn starts_with_seq(hay: Seq<char>, p: Seq<char>) -> bool {
    matches_at(hay, p, 0)
}

/// `s` is a suffix of `hay`.
pub open spec fn ends_with_seq(hay: Seq<char>, s: Seq<char>) -> bool {
    matches_at(hay, s, hay.len() - s.len())
}

/// Compares `needle` against `hay` at position `i`, character by character.
pub fn match_at(hay: &str, needle: &str, i: usize) -> (r: bool)
    requires
        i + needle@.len() <= hay@.len(),
    ensures
        r == matches_at(hay@, needle@, i as int),
{
    let hl = hay.unicode_len();
    let nl = needle.unicode_len();
    let mut j: usize = 0;
    while j < nl
        invariant
            nl == needle@.len(),
            hl == hay@.len(),
            i + nl <= hl,
            j <= nl,
            forall|t: int| 0 <= t < j ==> hay@[i + t] == needle@[t],
        decreases nl - j,
    {
        if hay.get_char(i + j) != needle.get_char(j) {
            proof {
                assert(hay@.subrange(i as int, i + nl as int)[j as int] == hay@[i + j]);
            }
            return false;
        }
        j += 1;
    }
    proof {
        assert(hay@.subrange(i as int, i + nl as int) =~= needle@);
    }
    true
}

/// `hay` and `needle` are the same character sequence.
pub fn str_eq(hay: &str, needle: &str) -> (r: bool)
    ensures
        r == (hay@ == needle@),
{
    let hl = hay.unicode_len();
    let nl = needle.unicode_len();
    if hl != nl {
        return false;
    }
    let r = match_at(hay, needle, 0);
    proof {
        assert(hay@.subrange(0, hay@.len() as int) =~= hay@);
    }
    r
}

/// `needle` occurs somewhere in `hay`.
pub fn str_contains(hay: &str, needle: &str) -> (r: bool)
    ensures
        r == contains_seq(hay@, needle@),
{
    let hl = hay.unicode_len();
    let nl = needle.unicode_len();
    if nl > hl {
        return false;
    }
    if nl == 0 {
        proof {
            assert(hay@.subrange(0, 0) =~= needle@);
            assert(matches_at(hay@, needle@, 0));
        }
        return true;
    }
    let mut i: usize = 0;
    while i <= hl - nl
        invariant
            1 <= nl <= hl,
            hl == hay@.len(),
            nl == needle@.len(),
            i <= hl - nl + 1,
            forall|k: int| 0 <= k < i ==> !matches_at(hay@, needle@, k),
        decreases hl - i,
    {
        if match_at(hay, needle, i) {
            return true;
        }
        i += 1;
    }
    false
}

/// `p` is a prefix of `hay`.
pub fn str_starts_with(hay: &str, p: &str) -> (r: bool)
    ensures
        r == starts_with_seq(hay@, p@),
{
    if p.unicode_len() > hay.unicode_len() {
        return false;
    }
    match_at(hay, p, 0)
}

/// `s` is a suffix of `hay`.
pub fn str_ends_with(hay: &str, s: &str) -> (r: bool)
    ensures
        r == ends_with_seq(hay@, s@),
{
    let hl = hay.unicode_len();
    let sl = s.unicode_len();
    if sl > hl {
        return false;
    }
    match_at(hay, s, hl - sl)
}

/// The character is an ASCII decimal digit.
pub open spec fn spec_is_digit(c: char) -> bool {
    48 <= c as u32 <= 57
}

/// The character is an ASCII decimal digit.
pub fn is_digit(c: char) -> (r: bool)
    ensures
        r == spec_is_digit(c),
{
    let u = c as u32;
    48 <= u && u <= 57
}

/// Every character of `hay` at position `start` or later is an ASCII digit.
pub fn all_digits_from(hay: &str, start: usize) -> (r: bool)
    requires
        start <= hay@.len(),
    ensures
        r == forall|t: int| start <= t < hay@.len() ==> spec_is_digit(#[trigger] hay@[t]),
{
    let hl = hay.unicode_len();
    let mut i: usize = start;
    while i < hl
        invariant
            start <= i <= hl,
            hl == hay@.len(),
            forall|t: int| start <= t < i ==> spec_is_digit(#[trigger] hay@[t]),
        decreases hl - i,
    {
        if !is_digit(hay.get_char(i)) {
            return false;
        }
        i += 1;
    }
    true
}

/// The digit character for `d` (zero through nine).
pub open spec fn spec_digit_char(d: int) -> char {
    if d == 0 {
        '0'
    } else if d == 1 {
        '1'
    } else if d == 2 {
        '2'
    } else if d == 3 {
        '3'
    } else if d == 4 {
        '4'
    } else if d == 5 {
        '5'
    } else if d == 6 {
        '6'
    } else if d == 7 {
        '7'
    } else if d == 8 {
        '8'
    } else {
        '9'
    }
}

/// The usual decimal rendering of a non-negative integer, most significant
/// digit first, with no leading zeroes.
pub open spec fn spec_decimal(n: int) -> Seq<char>
    decreases n,
{
    if n < 10 {
        seq![spec_digit_char(n)]
    } else {
        spec_decimal(n / 10).push(spec_digit_char(n % 10))
    }
}

/// Decimal rendering of a possibly negative integer: a leading `-` before the
/// rendering of the magnitude.
pub open spec fn spec_decimal_signed(n: int) -> Seq<char> {
    if n < 0 {
        seq!['-'] + spec_decimal(-n)
    } else {
        spec_decimal(n)
    }
}

fn digit_str(d: u64) -> (r: &'static str)
    requires
        d < 10,
    ensures
        r@ == seq![spec_digit_char(d as int)],
{
    let s: &'static str = if d == 0 {
        "0"
    } else if d == 1 {
        "1"
    } else if d == 2 {
        "2"
    } else if d == 3 {
        "3"
    } else if d == 4 {
        "4"
    } else if d == 5 {
        "5"
    } else if d == 6 {
        "6"
    } else if d == 7 {
        "7"
    } else if d == 8 {
        "8"
    } else {
        "9"
    };
    proof {
        reveal_strlit("0");
        reveal_strlit("1");
        reveal_strlit("2");
        reveal_strlit("3");
        reveal_strlit("4");
        reveal_strlit("5");
        reveal_strlit("6");
        reveal_strlit("7");
        reveal_strlit("8");
        reveal_strlit("9");
        assert(s@ =~= seq![spec_digit_char(d as int)]);
    }
    s
}

/// Renders `n` in decimal.
pub fn decimal_u128(n: u128) -> (r: String)
    ensures
        r@ == spec_decimal(n as int),
    decreases n,
{
    if n < 10 {
        let s = String::from_str(digit_str(n as u64));
        proof {
            assert(s@ =~= spec_decimal(n as int));
        }
        s
    } else {
        let mut s = decimal_u128(n / 10);
        s.append(digit_str((n % 10) as u64));
        proof {
            assert(s@ =~= spec_decimal(n as int));
        }
        s
    }
}

/// Renders `n` in decimal.
pub fn decimal_usize(n: usize) -> (r: String)
    ensures
        r@ == spec_decimal(n as int),
{
    decimal_u128(n as u128)
}

/// Renders `n` in decimal, with a sign when negative.
pub fn decimal_i32(n: i32) -> (r: String)
    ensures
        r@ == spec_decimal_signed(n as int),
{
    if n < 0 {
        let mut s = String::from_str("-");
        proof {
            reveal_strlit("-");
            assert(s@ =~= seq!['-']);
        }
        let m: i64 = -(n as i64);
        s.append(decimal_u128(m as u128).as_str());
        s
    } else {
        decimal_u128(n as u128)
    }
}

/// The deep view of a string vector is its views, element by element.
pub proof fn lemma_string_vec_deep_view(v: Vec<String>)
    ensures
        v.deep_view().len() == v@.len(),
        forall|k: int| 0 <= k < v@.len() ==> v.deep_view()[k] == v@[k]@,
{
}

/// The items in order, separated by single commas.
pub open spec fn spec_join_comma(items: Seq<Seq<char>>) -> Seq<char>
    decreases items.len(),
{
    if items.len() == 0 {
        Seq::empty()
    } else if items.len() == 1 {
        items[0]
    } else {
        spec_join_comma(items.drop_last()) + seq![','] + items.last()
    }
}

/// Joins the items with single commas.
pub fn join_comma(items: &Vec<String>) -> (r: String)
    ensures
        r@ == spec_join_comma(items.deep_view()),
{
    let mut s = String::new();
    let mut i: usize = 0;
    while i < items.len()
        invariant
            i <= items@.len(),
            s@ == spec_join_comma(items.deep_view().take(i as int)),
        decreases items@.len() - i,
    {
        if i > 0 {
            s.append(",");
        }
        s.append(items[i].as_str());
        i += 1;
        proof {
            reveal_strlit(",");
            let dv = items.deep_view();
            assert(dv.take(i as int).drop_last() =~= dv.take(i as int - 1));
            assert(dv.take(i as int).last() == dv[i - 1]);
            assert(s@ =~= spec_join_comma(dv.take(i as int)));
        }
    }
    proof {
        assert(items.deep_view().take(items@.len() as int) =~= items.deep_view());
    }
    s
}

} // verus!
