//! Decimal numerals and plain character-level string helpers.

use vstd::prelude::*;

verus! {

/// True of the ten decimal digit characters.
pub open spec fn is_dec_digit(c: char) -> bool {
    '0' <= c && c <= '9'
}

/// The numeric value of a decimal digit character.
pub open spec fn digit_val(c: char) -> nat {
    (c as int - '0' as int) as nat
}

/// The decimal digit character for a value below ten.
pub open spec fn dec_digit_char(n: nat) -> char {
    if n == 0 {
        '0'
    } else if n == 1 {
        '1'
    } else if n == 2 {
        '2'
    } else if n == 3 {
        '3'
    } else if n == 4 {
        '4'
    } else if n == 5 {
        '5'
    } else if n == 6 {
        '6'
    } else if n == 7 {
        '7'
    } else if n == 8 {
        '8'
    } else {
        '9'
    }
}

/// The canonical decimal numeral of `n`: no sign, no leading zero
/// (except for the single digit of zero itself).
pub open spec fn dec_str(n: nat) -> Seq<char>
    decreases n,
{
    if n < 10 {
        seq![dec_digit_char(n)]
    } else {
        dec_str(n / 10).push(dec_digit_char(n % 10))
    }
}

/// The value of a digit string read as a decimal numeral.
pub open spec fn dec_val(s: Seq<char>) -> nat
    decreases s.len(),
{
    if s.len() == 0 {
        0
    } else {
        dec_val(s.drop_last()) * 10 + digit_val(s.last())
    }
}

/// Every character of `s` is a decimal digit.
pub open spec fn all_digits(s: Seq<char>) -> bool {
    forall|i: int| 0 <= i < s.len() ==> is_dec_digit(#[trigger] s[i])
}

/// The canonical numeral of `n` is a non-empty digit string that reads
/// back as `n`.
pub proof fn lemma_dec_str_val(n: nat)
    ensures
        dec_str(n).len() >= 1,
        all_digits(dec_str(n)),
        dec_val(dec_str(n)) == n,
    decreases n,
{
    if n < 10 {
        assert(dec_str(n) =~= seq![dec_digit_char(n)]);
        assert(dec_str(n).drop_last() =~= Seq::<char>::empty());
        assert(dec_val(dec_str(n)) == dec_val(dec_str(n).drop_last()) * 10 + digit_val(
            dec_str(n).last(),
        ));
        assert(dec_val(Seq::<char>::empty()) == 0);
    } else {
        lemma_dec_str_val(n / 10);
        assert(dec_str(n).drop_last() =~= dec_str(n / 10));
        assert(dec_str(n).last() == dec_digit_char(n % 10));
        assert(forall|i: int|
            0 <= i < dec_str(n).len() - 1 ==> dec_str(n)[i] == #[trigger] dec_str(n / 10)[i]);
    }
}

/// Relies on std's `String::push`: appends exactly the one character.
#[verifier::external_body]
pub fn push_char(s: &mut String, c: char)
    ensures
        final(s)@ == old(s)@.push(c),
{
    s.push(c);
}

/// The decimal digit character of a value below ten, as executable code.
pub fn dec_digit_exec(n: u32) -> (c: char)
    requires
        n < 10,
    ensures
        c == dec_digit_char(n as nat),
{
    if n == 0 {
        '0'
    } else if n == 1 {
        '1'
    } else if n == 2 {
        '2'
    } else if n == 3 {
        '3'
    } else if n == 4 {
        '4'
    } else if n == 5 {
        '5'
    } else if n == 6 {
        '6'
    } else if n == 7 {
        '7'
    } else if n == 8 {
        '8'
    } else {
        '9'
    }
}

/// Renders `n` as its canonical decimal numeral.
pub fn u32_to_string(n: u32) -> (r: String)
    ensures
        r@ == dec_str(n as nat),
    decreases n,
{
    if n < 10 {
        let mut s = String::new();
        push_char(&mut s, dec_digit_exec(n));
        proof {
            assert(s@ =~= seq![dec_digit_char(n as nat)]);
        }
        s
    } else {
        let mut s = u32_to_string(n / 10);
        push_char(&mut s, dec_digit_exec(n % 10));
        s
    }
}

proof fn lemma_dec_val_take_succ(s: Seq<char>, i: int)
    requires
        0 <= i < s.len(),
    ensures
        dec_val(s.take(i + 1)) == dec_val(s.take(i)) * 10 + digit_val(s[i]),
{
    assert(s.take(i + 1).drop_last() =~= s.take(i));
    assert(s.take(i + 1).last() == s[i]);
}

proof fn lemma_dec_val_take_grows(s: Seq<char>, i: int)
    requires
        0 <= i < s.len(),
    ensures
        dec_val(s.take(i + 1)) >= dec_val(s.take(i)),
{
    lemma_dec_val_take_succ(s, i);
}

/// Parses a string as a decimal `u32`: succeeds exactly on non-empty
/// all-digit strings whose value fits.
pub fn parse_u32(s: &str) -> (r: Option<u32>)
    ensures
        r is Some <==> (s@.len() > 0 && all_digits(s@) && dec_val(s@) <= u32::MAX),
        r matches Some(v) ==> v as nat == dec_val(s@),
{
    let len = s.unicode_len();
    if len == 0 {
        return None;
    }
    let mut i: usize = 0;
    let mut acc: u64 = 0;
    let mut over: bool = false;
    while i < len
        invariant
            0 <= i <= len,
            len == s@.len(),
            forall|j: int| 0 <= j < i ==> is_dec_digit(#[trigger] s@[j]),
            !over ==> acc as nat == dec_val(s@.take(i as int)) && acc <= u32::MAX,
            over ==> dec_val(s@.take(i as int)) > u32::MAX,
        decreases len - i,
    {
        let c = s.get_char(i);
        if !('0' <= c && c <= '9') {
            assert(!is_dec_digit(s@[i as int]));
            return None;
        }
        proof {
            lemma_dec_val_take_succ(s@, i as int);
        }
        let d: u32 = (c as u32) - 48;
        if over {
            proof {
                lemma_dec_val_take_grows(s@, i as int);
            }
        } else {
            acc = acc * 10 + (d as u64);
            if acc > (u32::MAX as u64) {
                over = true;
            }
        }
        i = i + 1;
    }
    proof {
        assert(s@.take(len as int) =~= s@);
    }
    if over {
        None
    } else {
        Some(acc as u32)
    }
}

/// Character-by-character string equality.
pub fn str_eq(a: &str, b: &str) -> (r: bool)
    ensures
        r == (a@ == b@),
{
    let alen = a.unicode_len();
    let blen = b.unicode_len();
    if alen != blen {
        return false;
    }
    let mut i: usize = 0;
    while i < alen
        invariant
            0 <= i <= alen,
            alen == a@.len() && alen == b@.len(),
            forall|j: int| 0 <= j < i ==> a@[j] == b@[j],
        decreases alen - i,
    {
        if a.get_char(i) != b.get_char(i) {
            return false;
        }
        i = i + 1;
    }
    proof {
        assert(a@ =~= b@);
    }
    true
}

/// `s` ends with `suffix`.
pub open spec fn seq_ends_with(s: Seq<char>, suffix: Seq<char>) -> bool {
    suffix.len() <= s.len() && s.skip(s.len() - suffix.len()) == suffix
}

/// Character-by-character suffix test.
pub fn ends_with_str(s: &str, suffix: &str) -> (r: bool)
    ensures
        r == seq_ends_with(s@, suffix@),
{
    let slen = s.unicode_len();
    let flen = suffix.unicode_len();
    if flen > slen {
        return false;
    }
    let off = slen - flen;
    let mut i: usize = 0;
    while i < flen
        invariant
            0 <= i <= flen,
            slen == s@.len() && flen == suffix@.len(),
            off == slen - flen,
            forall|j: int| 0 <= j < i ==> s@[off + j] == suffix@[j],
        decreases flen - i,
    {
        if s.get_char(off + i) != suffix.get_char(i) {
            assert(s@.skip(off as int)[i as int] != suffix@[i as int]);
            return false;
        }
        i = i + 1;
    }
    proof {
        assert(s@.skip(off as int) =~= suffix@);
    }
    true
}

/// `pat` occurs in `s` starting at position `i`.
pub open spec fn seq_matches_at(s: Seq<char>, pat: Seq<char>, i: int) -> bool {
    0 <= i && i + pat.len() <= s.len() && s.subrange(i, i + pat.len()) == pat
}

/// `pat` occurs somewhere in `s`.
pub open spec fn seq_contains_pat(s: Seq<char>, pat: Seq<char>) -> bool {
    exists|i: int| seq_matches_at(s, pat, i)
}

fn matches_at(s: &str, pat: &str, at: usize) -> (r: bool)
    requires
        at + pat@.len() <= s@.len(),
    ensures
        r == seq_matches_at(s@, pat@, at as int),
{
    let slen = s.unicode_len();
    let plen = pat.unicode_len();
    let mut i: usize = 0;
    while i < plen
        invariant
            0 <= i <= plen,
            plen == pat@.len(),
            slen == s@.len(),
            at + plen <= s@.len(),
            forall|j: int| 0 <= j < i ==> s@[at + j] == pat@[j],
        decreases plen - i,
    {
        if s.get_char(at + i) != pat.get_char(i) {
            assert(s@.subrange(at as int, at + pat@.len())[i as int] != pat@[i as int]);
            return false;
        }
        i = i + 1;
    }
    proof {
        assert(s@.subrange(at as int, at + pat@.len()) =~= pat@);
    }
    true
}

/// Character-by-character substring search.
pub fn contains_str(s: &str, pat: &str) -> (r: bool)
    ensures
        r == seq_contains_pat(s@, pat@),
{
    let slen = s.unicode_len();
    let plen = pat.unicode_len();
    if plen > slen {
        assert forall|i: int| !seq_matches_at(s@, pat@, i) by {}
        return false;
    }
    let last = slen - plen;
    let mut i: usize = 0;
    while i < last
        invariant
            0 <= i <= last,
            slen == s@.len() && plen == pat@.len(),
            last == slen - plen,
            forall|j: int| 0 <= j < i ==> !seq_matches_at(s@, pat@, j),
        decreases last - i,
    {
        if matches_at(s, pat, i) {
            return true;
        }
        i = i + 1;
    }
    if matches_at(s, pat, last) {
        return true;
    }
    assert forall|j: int| !seq_matches_at(s@, pat@, j) by {
        if 0 <= j < last {
        }
    }
    false
}

} // verus!
