//! Rules for the free-form text that the settings form hands over.
use vstd::prelude::*;

verus! {

/// The Unicode `White_Space` property of a character.
pub uninterp spec fn white_space(c: char) -> bool;

/// Number of white-space characters at the front of `s`.
pub open spec fn leading_space(s: Seq<char>) -> nat
    decreases s.len(),
{
    if s.len() > 0 && white_space(s[0]) {
        1 + leading_space(s.drop_first())
    } else {
        0
    }
}

/// Number of white-space characters at the back of `s`.
pub open spec fn trailing_space(s: Seq<char>) -> nat
    decreases s.len(),
{
    if s.len() > 0 && white_space(s.last()) {
        1 + trailing_space(s.drop_last())
    } else {
        0
    }
}

/// `s` without its leading and trailing white space.
#[verifier::opaque]
pub open spec fn trimmed(s: Seq<char>) -> Seq<char> {
    let front = s.subrange(leading_space(s) as int, s.len() as int);
    front.subrange(0, front.len() - trailing_space(front))
}

/// Text that holds nothing but white space.
pub open spec fn blank(s: Seq<char>) -> bool {
    trimmed(s).len() == 0
}

pub open spec fn is_digit(c: char) -> bool {
    '0' <= c && c <= '9'
}

pub open spec fn digit_value(c: char) -> nat {
    (c as nat - '0' as nat) as nat
}

/// The number written by the decimal digits `d`.
pub open spec fn digits_value(d: Seq<char>) -> nat
    decreases d.len(),
{
    if d.len() == 0 {
        0
    } else {
        10 * digits_value(d.drop_last()) + digit_value(d.last())
    }
}

/// `s` with one leading `+` taken off, if it has one.
pub open spec fn unsigned_digits(s: Seq<char>) -> Seq<char> {
    if s.len() > 0 && s[0] == '+' {
        s.drop_first()
    } else {
        s
    }
}

/// The value of `s` read as an unsigned 32-bit decimal: an optional `+` and then
/// at least one ASCII digit, with a value that fits; nothing else is accepted,
/// white space included.
#[verifier::opaque]
pub open spec fn parsed_u32(s: Seq<char>) -> Option<u32> {
    let d = unsigned_digits(s);
    if d.len() > 0 && (forall|i: int| 0 <= i < d.len() ==> is_digit(#[trigger] d[i]))
        && digits_value(d) <= u32::MAX {
        Some(digits_value(d) as u32)
    } else {
        None
    }
}

pub open spec fn digit_char(n: nat) -> char {
    ('0' as nat + n % 10) as char
}

/// Decimal notation of `n`, without leading zeros.
pub open spec fn decimal(n: nat) -> Seq<char>
    decreases n,
{
    if n < 10 {
        seq![digit_char(n)]
    } else {
        decimal(n / 10).push(digit_char(n % 10))
    }
}

/// Relies on `char::is_whitespace`: whether the character has the Unicode
/// `White_Space` property.
#[verifier::external_body]
fn is_white_space(c: char) -> (r: bool)
    ensures
        r == white_space(c),
{
    c.is_whitespace()
}

proof fn lemma_leading_space(s: Seq<char>, i: int)
    requires
        0 <= i <= s.len(),
        forall|j: int| 0 <= j < i ==> white_space(#[trigger] s[j]),
        i == s.len() || !white_space(s[i]),
    ensures
        leading_space(s) == i,
    decreases i,
{
    if i > 0 {
        let t = s.drop_first();
        assert forall|j: int| 0 <= j < i - 1 implies white_space(#[trigger] t[j]) by {
            assert(t[j] == s[j + 1]);
        }
        lemma_leading_space(t, i - 1);
    }
}

proof fn lemma_trailing_space(s: Seq<char>, k: int)
    requires
        0 <= k <= s.len(),
        forall|j: int| k <= j < s.len() ==> white_space(#[trigger] s[j]),
        k == 0 || !white_space(s[k - 1]),
    ensures
        trailing_space(s) == s.len() - k,
    decreases s.len() - k,
{
    if k < s.len() {
        let t = s.drop_last();
        assert forall|j: int| k <= j < t.len() implies white_space(#[trigger] t[j]) by {
            assert(t[j] == s[j]);
        }
        lemma_trailing_space(t, k);
    }
}

/// `s` without its leading and trailing white space, as `str::trim` gives it.
pub fn trim(s: &str) -> (r: String)
    ensures
        r@ == trimmed(s@),
{
    let n = s.unicode_len();
    let mut lead: usize = 0;
    while lead < n && is_white_space(s.get_char(lead))
        invariant
            n == s@.len(),
            lead <= n,
            forall|j: int| 0 <= j < lead ==> white_space(#[trigger] s@[j]),
        decreases n - lead,
    {
        lead = lead + 1;
    }
    proof {
        lemma_leading_space(s@, lead as int);
    }
    let mut end: usize = n;
    while end > lead && is_white_space(s.get_char(end - 1))
        invariant
            n == s@.len(),
            lead <= end <= n,
            forall|j: int| end <= j < n ==> white_space(#[trigger] s@[j]),
        decreases end,
    {
        end = end - 1;
    }
    let ghost front = s@.subrange(lead as int, n as int);
    proof {
        reveal(trimmed);
        assert forall|j: int| end - lead <= j < front.len() implies white_space(
            #[trigger] front[j],
        ) by {
            assert(front[j] == s@[j + lead]);
        }
        lemma_trailing_space(front, end - lead);
        assert(s@.subrange(lead as int, end as int) =~= front.subrange(
            0,
            front.len() - trailing_space(front),
        ));
    }
    String::from_str(s.substring_char(lead, end))
}

/// Relies on `<u32 as FromStr>::from_str`: an optional `+` followed by ASCII
/// decimal digits whose value fits in a `u32`; any other text is an error.
#[verifier::external_body]
pub(crate) fn parse_u32(s: &str) -> (r: Option<u32>)
    ensures
        r == parsed_u32(s@),
{
    s.parse::<u32>().ok()
}

/// Relies on `<u32 as ToString>::to_string`: the decimal notation of the value.
#[verifier::external_body]
pub(crate) fn u32_text(n: u32) -> (r: String)
    ensures
        r@ == decimal(n as nat),
{
    n.to_string()
}

/// Whether `s` holds nothing but white space.
pub fn is_blank(s: &str) -> (r: bool)
    ensures
        r == blank(s@),
{
    let t = trim(s);
    t.as_str().unicode_len() == 0
}

/// The new value of an optional number field after the user typed `input`:
/// blank text clears it, a valid number sets it, anything else leaves it as it was.
pub open spec fn typed_optional(input: Seq<char>, current: Option<u32>) -> Option<u32> {
    if blank(input) {
        None
    } else if parsed_u32(input) is Some {
        parsed_u32(input)
    } else {
        current
    }
}

/// The new value of a number field after the user typed `input`: blank text
/// sets it to zero, a valid number sets it, anything else leaves it as it was.
pub open spec fn typed_number(input: Seq<char>, current: u32) -> u32 {
    if blank(input) {
        0
    } else {
        match parsed_u32(input) {
            Some(v) => v,
            None => current,
        }
    }
}

/// The new value of an optional number field after the user typed `input`.
pub fn optional_number(input: &str, current: Option<u32>) -> (r: Option<u32>)
    ensures
        r == typed_optional(input@, current),
{
    if is_blank(input) {
        None
    } else {
        match parse_u32(input) {
            Some(v) => Some(v),
            None => current,
        }
    }
}

/// The new value of a number field after the user typed `input`.
pub fn number_or_zero(input: &str, current: u32) -> (r: u32)
    ensures
        r == typed_number(input@, current),
{
    if is_blank(input) {
        0
    } else {
        match parse_u32(input) {
            Some(v) => v,
            None => current,
        }
    }
}

} // verus!
