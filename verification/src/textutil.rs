//! Verified text helpers the engine builds on: equality of string slices,
//! first occurrence of a pattern, containment, and lexicographic comparison
//! over the character sequences the strings stand for.

use vstd::prelude::*;

verus! {

/// Equality of two string slices, by their character sequences.
pub fn str_eq(a: &str, b: &str) -> (r: bool)
    ensures
        r == (a@ == b@),
{
    let sa: String = a.to_owned();
    let sb: String = b.to_owned();
    sa == sb
}

/// Whether the pattern stands in the text beginning at position `i`.
pub open spec fn matches_at(text: Seq<char>, pat: Seq<char>, i: int) -> bool {
    &&& 0 <= i
    &&& i + pat.len() <= text.len()
    &&& text.subrange(i, i + pat.len()) == pat
}

/// The position of the first occurrence of the pattern in the text at or
/// after position `i`, or `None` when the pattern does not occur there.
pub open spec fn spec_find_from(text: Seq<char>, pat: Seq<char>, i: int) -> Option<int>
    recommends
        0 <= i,
    decreases text.len() + 1 - i,
    when 0 <= i
{
    if i + pat.len() > text.len() {
        None
    } else if matches_at(text, pat, i) {
        Some(i)
    } else {
        spec_find_from(text, pat, i + 1)
    }
}

/// The position of the first occurrence of the pattern in the text, or
/// `None` when the pattern does not occur. The empty pattern occurs at 0.
pub open spec fn spec_find(text: Seq<char>, pat: Seq<char>) -> Option<int> {
    spec_find_from(text, pat, 0)
}

/// Whether the pattern occurs anywhere in the text.
pub open spec fn spec_contains(text: Seq<char>, pat: Seq<char>) -> bool {
    spec_find(text, pat) is Some
}

/// A found position is a match position, and a search that finds nothing
/// passes no match on its way.
pub proof fn lemma_find_from_props(text: Seq<char>, pat: Seq<char>, i: int)
    requires
        0 <= i,
    ensures
        spec_find_from(text, pat, i) matches Some(w) ==> i <= w && matches_at(text, pat, w),
        spec_find_from(text, pat, i) is None ==> forall|j: int| i <= j ==> !matches_at(
            text,
            pat,
            j,
        ),
    decreases text.len() + 1 - i,
{
    if i + pat.len() > text.len() {
        assert forall|j: int| i <= j implies !matches_at(text, pat, j) by {}
    } else if matches_at(text, pat, i) {
    } else {
        lemma_find_from_props(text, pat, i + 1);
    }
}

/// Whether the pattern stands at position `i` of the text, checked character
/// by character.
fn check_match_at(text: &str, pat: &str, i: usize) -> (r: bool)
    requires
        i + pat@.len() <= text@.len(),
        text@.len() <= usize::MAX,
    ensures
        r == matches_at(text@, pat@, i as int),
{
    let pat_len = pat.unicode_len();
    let mut k: usize = 0;
    while k < pat_len
        invariant
            0 <= k <= pat_len,
            pat_len == pat@.len(),
            i + pat_len <= text@.len(),
            text@.len() <= usize::MAX,
            forall|m: int| 0 <= m < k ==> text@[i + m] == pat@[m],
        decreases pat_len - k,
    {
        if text.get_char(i + k) != pat.get_char(k) {
            assert(text@.subrange(i as int, i + pat@.len())[k as int] != pat@[k as int]);
            return false;
        }
        k = k + 1;
    }
    assert(text@.subrange(i as int, i + pat@.len()) =~= pat@);
    return true;
}

/// The position of the first occurrence of the pattern in the text.
pub fn find_sub(text: &str, pat: &str) -> (r: Option<usize>)
    ensures
        match r {
            Some(i) => spec_find(text@, pat@) == Some(i as int) && matches_at(
                text@,
                pat@,
                i as int,
            ),
            None => spec_find(text@, pat@) is None,
        },
{
    let text_len = text.unicode_len();
    let pat_len = pat.unicode_len();
    if pat_len > text_len {
        return None;
    }
    if pat_len == 0 {
        proof {
            assert(text@.subrange(0, 0) =~= pat@);
        }
        return Some(0);
    }
    let mut i: usize = 0;
    loop
        invariant
            text_len == text@.len(),
            pat_len == pat@.len(),
            1 <= pat_len <= text_len,
            0 <= i <= text_len - pat_len + 1,
            spec_find(text@, pat@) == spec_find_from(text@, pat@, i as int),
        decreases text_len - i,
    {
        if i > text_len - pat_len {
            return None;
        }
        if check_match_at(text, pat, i) {
            return Some(i);
        }
        i = i + 1;
    }
}

/// Whether the pattern occurs anywhere in the text.
pub fn contains_sub(text: &str, pat: &str) -> (r: bool)
    ensures
        r == spec_contains(text@, pat@),
{
    match find_sub(text, pat) {
        Some(_) => true,
        None => false,
    }
}

/// Lexicographic strict order on character sequences, by the characters'
/// scalar values: the order in which the standard library orders strings.
pub open spec fn spec_lex_lt(a: Seq<char>, b: Seq<char>) -> bool
    decreases a.len(),
{
    if b.len() == 0 {
        false
    } else if a.len() == 0 {
        true
    } else if a[0] != b[0] {
        (a[0] as u32) < (b[0] as u32)
    } else {
        spec_lex_lt(a.drop_first(), b.drop_first())
    }
}

/// Lexicographic strict order on two string slices.
pub fn lex_lt(a: &str, b: &str) -> (r: bool)
    ensures
        r == spec_lex_lt(a@, b@),
    decreases a@.len(),
{
    let a_len = a.unicode_len();
    let b_len = b.unicode_len();
    let mut i: usize = 0;
    proof {
        assert(a@.skip(0) =~= a@);
        assert(b@.skip(0) =~= b@);
    }
    loop
        invariant
            a_len == a@.len(),
            b_len == b@.len(),
            0 <= i <= a_len,
            0 <= i <= b_len,
            spec_lex_lt(a@, b@) == spec_lex_lt(a@.skip(i as int), b@.skip(i as int)),
        decreases a_len - i,
    {
        if i == b_len {
            assert(b@.skip(i as int).len() == 0);
            return false;
        }
        if i == a_len {
            assert(a@.skip(i as int).len() == 0 && b@.skip(i as int).len() > 0);
            return true;
        }
        let ca = a.get_char(i);
        let cb = b.get_char(i);
        assert(a@.skip(i as int)[0] == a@[i as int] && b@.skip(i as int)[0] == b@[i as int]);
        if ca != cb {
            return (ca as u32) < (cb as u32);
        }
        proof {
            assert(a@.skip(i as int).drop_first() =~= a@.skip(i + 1));
            assert(b@.skip(i as int).drop_first() =~= b@.skip(i + 1));
        }
        i = i + 1;
    }
}

/// The character of one decimal digit.
pub open spec fn dec_digit(d: int) -> char {
    if d == 0 {
        '0'
    } else if d == 1 {
        '1'
    } else if d == 2 {
        '2'
    } else if d == 3 {
        '3'
    } else if d == 4 {
        '4'
    } else if d == 5 {
        '5'
    } else if d == 6 {
        '6'
    } else if d == 7 {
        '7'
    } else if d == 8 {
        '8'
    } else {
        '9'
    }
}

/// The decimal notation of a natural number, most significant digit first.
pub open spec fn spec_udec(n: nat) -> Seq<char>
    decreases n,
{
    if n < 10 {
        seq![dec_digit(n as int)]
    } else {
        spec_udec(n / 10).push(dec_digit((n % 10) as int))
    }
}

/// The decimal notation of an integer: a minus sign before the magnitude
/// for a negative number.
pub open spec fn spec_idec(n: int) -> Seq<char> {
    if n >= 0 {
        spec_udec(n as nat)
    } else {
        seq!['-'] + spec_udec((-n) as nat)
    }
}

/// One decimal digit as a string slice.
fn digit_str(d: u64) -> (r: &'static str)
    requires
        d < 10,
    ensures
        r@ == seq![dec_digit(d as int)],
{
    proof {
        reveal_strlit("0");
        reveal_strlit("1");
        reveal_strlit("2");
        reveal_strlit("3");
        reveal_strlit("4");
        reveal_strlit("5");
        reveal_strlit("6");
        reveal_strlit("7");
        reveal_strlit("8");
        reveal_strlit("9");
    }
    match d {
        0 => "0",
        1 => "1",
        2 => "2",
        3 => "3",
        4 => "4",
        5 => "5",
        6 => "6",
        7 => "7",
        8 => "8",
        _ => "9",
    }
}

/// The decimal notation of an unsigned number.
pub fn u64_dec(n: u64) -> (r: String)
    ensures
        r@ == spec_udec(n as nat),
    decreases n,
{
    if n < 10 {
        digit_str(n).to_owned()
    } else {
        let mut s = u64_dec(n / 10);
        s.append(digit_str(n % 10));
        proof {
            assert(spec_udec((n / 10) as nat).push(dec_digit((n % 10) as int)) =~= spec_udec(
                (n / 10) as nat,
            ) + seq![dec_digit((n % 10) as int)]);
        }
        s
    }
}

/// The decimal notation of a signed number.
pub fn i64_dec(n: i64) -> (r: String)
    ensures
        r@ == spec_idec(n as int),
{
    if n >= 0 {
        let r = u64_dec(n as u64);
        return r;
    }
    let mag: u64 = if n == i64::MIN {
        9223372036854775808u64
    } else {
        (-n) as u64
    };
    proof {
        assert(mag as int == -(n as int));
    }
    let mut s = "-".to_owned();
    let digits = u64_dec(mag);
    s.append(digits.as_str());
    proof {
        reveal_strlit("-");
        assert(seq!['-'] =~= "-"@);
    }
    return s;
}

} // verus!
