//! Text building blocks: decimal rendering of integers and right alignment.

use vstd::prelude::*;
use vstd::string::*;
use vstd::utf8::*;

verus! {

/// The character of the decimal digit `d` (`0 <= d < 10`).
pub open spec fn digit_char(d: nat) -> char {
    ('0' as nat + d) as char
}

/// The decimal digits of a natural number, most significant first, without
/// leading zeros ("0" for zero).
pub open spec fn decimal_digits(n: nat) -> Seq<char>
    decreases n,
{
    if n < 10 {
        seq![digit_char(n)]
    } else {
        decimal_digits(n / 10).push(digit_char(n % 10))
    }
}

/// The decimal rendering of an integer, as `{}` prints it: a minus sign for
/// negative values, then the digits of the magnitude.
pub open spec fn decimal(n: int) -> Seq<char> {
    if n < 0 {
        seq!['-'] + decimal_digits((-n) as nat)
    } else {
        decimal_digits(n as nat)
    }
}

/// `s` padded on the left with spaces up to `width` characters, as `{:width}`
/// aligns a number; `s` itself when it is already that long.
pub open spec fn pad_left(s: Seq<char>, width: nat) -> Seq<char> {
    if s.len() >= width {
        s
    } else {
        Seq::new((width - s.len()) as nat, |i: int| ' ') + s
    }
}

/// The value of a string of decimal digits, read most significant first.
pub open spec fn digits_value(s: Seq<char>) -> int
    decreases s.len(),
{
    if s.len() == 0 {
        0
    } else {
        digits_value(s.drop_last()) * 10 + (s.last() as int - 48)
    }
}

/// Every character is one of the ASCII digits `0` to `9`.
pub open spec fn all_digits(s: Seq<char>) -> bool {
    forall|i: int| 0 <= i < s.len() ==> 48 <= #[trigger] (s[i] as int) <= 57
}

/// The digits of `n` are ASCII digits, at least one, that read back as `n`,
/// with a leading zero only for zero itself.
pub proof fn lemma_decimal_digits_read_back(n: nat)
    ensures
        decimal_digits(n).len() >= 1,
        all_digits(decimal_digits(n)),
        digits_value(decimal_digits(n)) == n,
        decimal_digits(n)[0] as int == 48 ==> n == 0,
    decreases n,
{
    if n >= 10 {
        lemma_decimal_digits_read_back(n / 10);
        let s = decimal_digits(n);
        assert(s.drop_last() =~= decimal_digits(n / 10));
        assert(s[0] == decimal_digits(n / 10)[0]);
        assert(s.last() == digit_char(n % 10));
        assert(digit_char(n % 10) as int == 48 + n % 10);
        assert(n == (n / 10) * 10 + n % 10);
        assert(digits_value(s) == digits_value(decimal_digits(n / 10)) * 10 + (n % 10));
        assert forall|i: int| 0 <= i < s.len() implies 48 <= #[trigger] (s[i] as int) <= 57 by {
            if i < s.len() - 1 {
                assert(s[i] == decimal_digits(n / 10)[i]);
            }
        }
    } else {
        let s = decimal_digits(n);
        assert(s.drop_last() =~= Seq::<char>::empty());
        assert(digits_value(s.drop_last()) == 0);
        assert(digit_char(n) as int == 48 + n);
        assert(digits_value(s) == n);
    }
}

/// The rendering of an integer is a minus sign exactly for negative values,
/// followed by digits that read back as its magnitude.
pub proof fn lemma_decimal_read_back(n: int)
    ensures
        n < 0 ==> decimal(n)[0] == '-' && decimal(n).drop_first() == decimal_digits((-n) as nat),
        n >= 0 ==> decimal(n) == decimal_digits(n as nat),
        n < 0 ==> all_digits(decimal(n).drop_first()) && digits_value(decimal(n).drop_first()) == -n,
        n >= 0 ==> all_digits(decimal(n)) && digits_value(decimal(n)) == n,
        n >= 0 ==> decimal(n).len() >= 1 && (decimal(n)[0] as int == 48 ==> n == 0),
{
    if n < 0 {
        lemma_decimal_digits_read_back((-n) as nat);
        assert(decimal(n).drop_first() =~= decimal_digits((-n) as nat));
    } else {
        lemma_decimal_digits_read_back(n as nat);
    }
}

/// Padding to a width adds only spaces in front, as many as the text falls
/// short of the width.
pub proof fn lemma_pad_left(s: Seq<char>, width: nat)
    ensures
        pad_left(s, width).len() == if s.len() >= width { s.len() } else { width },
        pad_left(s, width).subrange(pad_left(s, width).len() - s.len(), pad_left(s, width).len() as int) == s,
        forall|i: int| 0 <= i < pad_left(s, width).len() - s.len() ==> pad_left(s, width)[i] == ' ',
{
    let t = pad_left(s, width);
    assert(t.subrange(t.len() - s.len(), t.len() as int) =~= s);
}

/// `String::push` from std: appends one character.
#[verifier::external_body]
pub(crate) fn push_char(s: &mut String, c: char)
    ensures
        final(s)@ == old(s)@.push(c),
{
    s.push(c);
}

fn digit(d: u32) -> (c: char)
    requires
        d < 10,
    ensures
        c == digit_char(d as nat),
{
    match d {
        0 => '0',
        1 => '1',
        2 => '2',
        3 => '3',
        4 => '4',
        5 => '5',
        6 => '6',
        7 => '7',
        8 => '8',
        _ => '9',
    }
}

fn push_digits(s: &mut String, n: u32)
    ensures
        final(s)@ == old(s)@ + decimal_digits(n as nat),
    decreases n,
{
    if n >= 10 {
        push_digits(s, n / 10);
    }
    push_char(s, digit(n % 10));
    assert(final(s)@ =~= old(s)@ + decimal_digits(n as nat));
}

/// Appends the decimal rendering of `n` to `s`.
pub fn push_decimal(s: &mut String, n: i32)
    ensures
        final(s)@ == old(s)@ + decimal(n as int),
{
    if n < 0 {
        push_char(s, '-');
        let magnitude: u32 = (0i64 - n as i64) as u32;
        push_digits(s, magnitude);
        assert(final(s)@ =~= old(s)@ + decimal(n as int));
    } else {
        push_digits(s, n as u32);
    }
}

/// Appends the decimal rendering of `n`, padded on the left with spaces to
/// `width` characters, to `s`.
pub fn push_padded_decimal(s: &mut String, n: i32, width: usize)
    ensures
        final(s)@ == old(s)@ + pad_left(decimal(n as int), width as nat),
{
    let mut rendered = String::new();
    push_decimal(&mut rendered, n);
    let len = rendered.as_str().unicode_len();
    let ghost start = s@;
    let mut filled: usize = len;
    while filled < width
        invariant
            len == decimal(n as int).len(),
            len <= filled <= width || (len > width && filled == len),
            s@ == start + Seq::new((filled - len) as nat, |i: int| ' '),
        decreases width - filled,
    {
        push_char(s, ' ');
        filled = filled + 1;
        assert(s@ =~= start + Seq::new((filled - len) as nat, |i: int| ' '));
    }
    s.append(rendered.as_str());
    assert(s@ =~= start + pad_left(decimal(n as int), width as nat));
}

/// `std::str::Utf8Error`, the error that `std::str::from_utf8` reports for
/// bytes that are not UTF-8; carried through unchanged.
#[verifier::external_type_specification]
#[verifier::external_body]
pub struct ExUtf8Error(std::str::Utf8Error);

/// `std::str::from_utf8`: as its documentation says, it succeeds exactly when
/// the bytes are valid UTF-8, and then the string holds the characters that
/// the bytes encode. Nothing is said here of what the error holds.
pub assume_specification[ std::str::from_utf8 ](v: &[u8]) -> (res: Result<&str, std::str::Utf8Error>)
    ensures
        res is Ok <==> valid_utf8(v@),
        res matches Ok(s) ==> s@ == decode_utf8(v@),
;

/// Decodes bytes as UTF-8 into an owned string, as a text that Tesseract
/// hands back (its bytes up to the terminating NUL) is read: `Ok` exactly
/// when the bytes are valid UTF-8.
pub fn text_from_bytes(bytes: &[u8]) -> (res: Result<String, std::str::Utf8Error>)
    ensures
        res is Ok <==> valid_utf8(bytes@),
        res matches Ok(s) ==> s@ == decode_utf8(bytes@),
{
    match std::str::from_utf8(bytes) {
        Ok(s) => Ok(s.to_owned()),
        Err(e) => Err(e),
    }
}

/// `i` is the position of the first NUL byte of `bytes`.
pub open spec fn is_first_nul(bytes: Seq<u8>, i: int) -> bool {
    &&& 0 <= i < bytes.len()
    &&& bytes[i] == 0
    &&& forall|j: int| 0 <= j < i ==> bytes[j] != 0
}

/// `bytes` holds no NUL byte, so it can be handed to C as a string.
pub open spec fn nul_free(bytes: Seq<u8>) -> bool {
    forall|j: int| 0 <= j < bytes.len() ==> bytes[j] != 0
}

/// The position of the first NUL byte, if any: where a C string built from
/// these bytes would be cut short.
pub fn first_nul(bytes: &[u8]) -> (res: Option<usize>)
    ensures
        res matches Some(i) ==> is_first_nul(bytes@, i as int),
        res is None <==> nul_free(bytes@),
{
    let mut i: usize = 0;
    while i < bytes.len()
        invariant
            i <= bytes@.len(),
            forall|j: int| 0 <= j < i ==> bytes@[j] != 0,
        decreases bytes@.len() - i,
    {
        if bytes[i] == 0 {
            return Some(i);
        }
        i = i + 1;
    }
    None
}

} // verus!
