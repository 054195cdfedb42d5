//! Text building blocks: decimal numerals, percentages with one decimal
//! place, and the few searches the monitors need.

use vstd::prelude::*;
use vstd::string::*;

verus! {

/// The character for a single decimal digit.
pub open spec fn digit_char(d: nat) -> char {
    if d == 0 {
        '0'
    } else if d == 1 {
        '1'
    } else if d == 2 {
        '2'
    } else if d == 3 {
        '3'
    } else if d == 4 {
        '4'
    } else if d == 5 {
        '5'
    } else if d == 6 {
        '6'
    } else if d == 7 {
        '7'
    } else if d == 8 {
        '8'
    } else {
        '9'
    }
}

/// The value of a decimal digit character, and 0 for any other character.
pub open spec fn digit_value(c: char) -> nat {
    if c == '1' {
        1
    } else if c == '2' {
        2
    } else if c == '3' {
        3
    } else if c == '4' {
        4
    } else if c == '5' {
        5
    } else if c == '6' {
        6
    } else if c == '7' {
        7
    } else if c == '8' {
        8
    } else if c == '9' {
        9
    } else {
        0
    }
}

/// The decimal numeral of `n`, most significant digit first, without
/// leading zeros.
pub open spec fn decimal(n: nat) -> Seq<char>
    decreases n,
{
    if n < 10 {
        seq![digit_char(n)]
    } else {
        decimal(n / 10).push(digit_char(n % 10))
    }
}

/// The number that a sequence of decimal digits denotes.
pub open spec fn numeral_value(digits: Seq<char>) -> nat
    decreases digits.len(),
{
    if digits.len() == 0 {
        0
    } else {
        numeral_value(digits.drop_last()) * 10 + digit_value(digits.last())
    }
}

/// Reading back the numeral of `n` gives `n`, and the numeral has no
/// leading zero unless `n` is zero.
pub proof fn lemma_decimal_round_trip(n: nat)
    ensures
        numeral_value(decimal(n)) == n,
        decimal(n).len() >= 1,
        n > 0 ==> decimal(n)[0] != '0',
    decreases n,
{
    if n < 10 {
        let s = seq![digit_char(n)];
        assert(s.drop_last() =~= Seq::<char>::empty());
        assert(numeral_value(s.drop_last()) == 0);
    } else {
        lemma_decimal_round_trip(n / 10);
        let s = decimal(n / 10).push(digit_char(n % 10));
        assert(s.drop_last() =~= decimal(n / 10));
        assert(s.last() == digit_char(n % 10));
    }
}

/// A quantity given in tenths, written with exactly one decimal place and a
/// percent sign: 850 tenths read `85.0%`.
pub open spec fn percent(tenths: nat) -> Seq<char> {
    decimal(tenths / 10) + seq!['.', digit_char(tenths % 10), '%']
}

/// `part` out of `whole`, in tenths of a percent, rounded to the nearest
/// tenth with halves rounded up; 0 when `whole` is 0.
pub open spec fn share_tenths(part: nat, whole: nat) -> nat {
    if whole == 0 {
        0
    } else {
        ((2000 * part + whole) / (2 * whole)) as nat
    }
}

/// `text` without its leading run of `lead` characters.
pub open spec fn without_leading(text: Seq<char>, lead: char) -> Seq<char>
    decreases text.len(),
{
    if text.len() > 0 && text[0] == lead {
        without_leading(text.drop_first(), lead)
    } else {
        text
    }
}

/// Whether `needle` occurs in `text` as a run of adjacent characters.
pub open spec fn occurs_in(needle: Seq<char>, text: Seq<char>) -> bool {
    exists|start: int|
        0 <= start && start + needle.len() <= text.len() && #[trigger] text.subrange(
            start,
            start + needle.len(),
        ) == needle
}

/// What `str::to_lowercase` makes of a text: its lowercase equivalent under
/// the Unicode case mapping.
pub uninterp spec fn unicode_lowercase(text: Seq<char>) -> Seq<char>;

/// Calls `str::to_lowercase` of the standard library. The contract only
/// names the result: it is the Unicode lowercase form of `text`, which may
/// differ in length from `text`.
#[verifier::external_body]
pub(crate) fn lowercase(text: &str) -> (lowered: String)
    ensures
        lowered@ == unicode_lowercase(text@),
{
    text.to_lowercase()
}

fn digit_str(d: u8) -> (r: &'static str)
    requires
        d < 10,
    ensures
        r@ == seq![digit_char(d as nat)],
{
    proof {
        reveal_strlit("0");
        reveal_strlit("1");
        reveal_strlit("2");
        reveal_strlit("3");
        reveal_strlit("4");
        reveal_strlit("5");
        reveal_strlit("6");
        reveal_strlit("7");
        reveal_strlit("8");
        reveal_strlit("9");
    }
    let r = match d {
        0 => "0",
        1 => "1",
        2 => "2",
        3 => "3",
        4 => "4",
        5 => "5",
        6 => "6",
        7 => "7",
        8 => "8",
        _ => "9",
    };
    assert(r@ =~= seq![digit_char(d as nat)]);
    r
}

/// Writes `n` in decimal.
pub fn decimal_text(n: u128) -> (r: String)
    ensures
        r@ == decimal(n as nat),
    decreases n,
{
    if n < 10 {
        String::from_str(digit_str(n as u8))
    } else {
        let mut r = decimal_text(n / 10);
        r.append(digit_str((n % 10) as u8));
        assert(r@ =~= decimal(n as nat));
        r
    }
}

/// Writes a quantity given in tenths with one decimal place and a percent
/// sign.
pub fn percent_text(tenths: u128) -> (r: String)
    ensures
        r@ == percent(tenths as nat),
{
    proof {
        reveal_strlit(".");
        reveal_strlit("%");
    }
    let mut r = decimal_text(tenths / 10);
    r.append(".");
    r.append(digit_str((tenths % 10) as u8));
    r.append("%");
    assert(r@ =~= percent(tenths as nat));
    r
}

/// Computes `part` out of `whole` in tenths of a percent, rounded to the
/// nearest tenth.
pub fn share_in_tenths(part: u64, whole: u64) -> (r: u128)
    ensures
        r == share_tenths(part as nat, whole as nat),
{
    if whole == 0 {
        0
    } else {
        let doubled: u128 = 2000 * (part as u128) + (whole as u128);
        doubled / (2 * (whole as u128))
    }
}

/// Whether `part / whole`, as a percentage, is strictly above a bound given
/// in tenths of a percent. The comparison is exact; a `whole` of 0 never
/// exceeds anything.
pub open spec fn share_exceeds(part: nat, whole: nat, bound_tenths: nat) -> bool {
    whole != 0 && 1000 * part > bound_tenths * whole
}

pub fn share_is_above(part: u64, whole: u64, bound_tenths: u32) -> (r: bool)
    ensures
        r == share_exceeds(part as nat, whole as nat, bound_tenths as nat),
{
    if whole == 0 {
        false
    } else {
        assert((bound_tenths as u128) * (whole as u128) <= 0xffff_ffff * 0xffff_ffff_ffff_ffff)
            by (nonlinear_arith)
            requires
                bound_tenths <= 0xffff_ffff,
                whole <= 0xffff_ffff_ffff_ffff,
        ;
        1000 * (part as u128) > (bound_tenths as u128) * (whole as u128)
    }
}

/// Copies `text` without its leading run of `lead` characters.
pub fn strip_leading(text: &str, lead: char) -> (r: String)
    ensures
        r@ == without_leading(text@, lead),
{
    let len = text.unicode_len();
    let mut start: usize = 0;
    assert(text@.skip(0) =~= text@);
    while start < len && text.get_char(start) == lead
        invariant
            start <= len,
            len == text@.len(),
            without_leading(text@, lead) == without_leading(text@.skip(start as int), lead),
        decreases len - start,
    {
        assert(text@.skip(start as int).drop_first() =~= text@.skip(start as int + 1));
        start = start + 1;
    }
    assert(text@.skip(start as int) =~= text@.subrange(start as int, len as int));
    String::from_str(text.substring_char(start, len))
}

/// Whether `first` is somewhere in `text` immediately followed by `second`.
pub fn has_pair(text: &str, first: char, second: char) -> (r: bool)
    ensures
        r == occurs_in(seq![first, second], text@),
{
    let len = text.unicode_len();
    let ghost needle = seq![first, second];
    if len < 2 {
        assert(!occurs_in(needle, text@));
        return false;
    }
    let mut at: usize = 0;
    while at + 1 < len
        invariant
            2 <= len,
            len == text@.len(),
            at + 1 <= len,
            needle == seq![first, second],
            forall|start: int|
                0 <= start < at ==> #[trigger] text@.subrange(start, start + 2) != needle,
        decreases len - at,
    {
        if text.get_char(at) == first && text.get_char(at + 1) == second {
            assert(text@.subrange(at as int, at as int + 2) =~= needle);
            return true;
        }
        assert(text@.subrange(at as int, at as int + 2) != needle) by {
            let window = text@.subrange(at as int, at as int + 2);
            assert(window[0] == text@[at as int]);
            assert(window[1] == text@[at as int + 1]);
            assert(needle[0] == first && needle[1] == second);
        }
        at = at + 1;
    }
    false
}

} // verus!
