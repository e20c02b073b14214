//! Text that the doctor writes: numbers, `key=value` pairs and cut-down process output.

use vstd::prelude::*;
#[allow(unused_imports)]
use vstd::utf8::*;

verus! {

/// The characters that a byte sequence stands for, with every ill-formed UTF-8 sequence in it
/// replaced by the replacement character.
pub uninterp spec fn utf8_lossy(bytes: Seq<u8>) -> Seq<char>;

/// Calls `String::from_utf8_lossy`. The claim: the text depends on the bytes alone, and bytes
/// that are valid UTF-8 are decoded unchanged. Which replacement characters stand for
/// ill-formed bytes is left to the name.
#[verifier::external_body]
pub(crate) fn lossy_text(bytes: &[u8]) -> (text: String)
    ensures
        text@ == utf8_lossy(bytes@),
        valid_utf8(bytes@) ==> text@ == decode_utf8(bytes@),
{
    String::from_utf8_lossy(bytes).into_owned()
}

/// Whether two texts are the same.
pub(crate) fn same_text(left: &str, right: &str) -> (same: bool)
    ensures
        same == (left@ == right@),
{
    left.to_owned() == right.to_owned()
}

/// The decimal digit for a number below ten.
pub open spec fn digit(d: nat) -> char {
    if d == 0 {
        '0'
    } else if d == 1 {
        '1'
    } else if d == 2 {
        '2'
    } else if d == 3 {
        '3'
    } else if d == 4 {
        '4'
    } else if d == 5 {
        '5'
    } else if d == 6 {
        '6'
    } else if d == 7 {
        '7'
    } else if d == 8 {
        '8'
    } else {
        '9'
    }
}

/// A natural number in decimal, without leading zeros.
pub open spec fn decimal(n: nat) -> Seq<char>
    decreases n,
{
    if n < 10 {
        seq![digit(n)]
    } else {
        decimal(n / 10).push(digit(n % 10))
    }
}

/// An integer in decimal, with a minus sign where it is negative.
pub open spec fn signed_decimal(n: int) -> Seq<char> {
    if n < 0 {
        "-"@ + decimal((-n) as nat)
    } else {
        decimal(n as nat)
    }
}

fn digit_text(d: u64) -> (text: &'static str)
    requires
        d < 10,
    ensures
        text@ == seq![digit(d as nat)],
{
    proof {
        reveal_strlit("0");
        reveal_strlit("1");
        reveal_strlit("2");
        reveal_strlit("3");
        reveal_strlit("4");
        reveal_strlit("5");
        reveal_strlit("6");
        reveal_strlit("7");
        reveal_strlit("8");
        reveal_strlit("9");
    }
    if d == 0 {
        "0"
    } else if d == 1 {
        "1"
    } else if d == 2 {
        "2"
    } else if d == 3 {
        "3"
    } else if d == 4 {
        "4"
    } else if d == 5 {
        "5"
    } else if d == 6 {
        "6"
    } else if d == 7 {
        "7"
    } else if d == 8 {
        "8"
    } else {
        "9"
    }
}

/// Appends a number in decimal.
pub(crate) fn append_decimal(text: &mut String, n: u64)
    ensures
        final(text)@ == old(text)@ + decimal(n as nat),
    decreases n,
{
    if n >= 10 {
        append_decimal(text, n / 10);
    }
    text.append(digit_text(n % 10));
}

/// Appends an integer in decimal.
pub(crate) fn append_signed(text: &mut String, n: i32)
    ensures
        final(text)@ == old(text)@ + signed_decimal(n as int),
{
    if n < 0 {
        text.append("-");
        append_decimal(text, (-(n as i64)) as u64);
    } else {
        append_decimal(text, n as u64);
    }
}

/// The characters of a `key=value` pair.
pub open spec fn pair(key: Seq<char>, value: Seq<char>) -> Seq<char> {
    key + "="@ + value
}

/// Writes a `key=value` pair.
pub(crate) fn write_pair(key: &str, value: &str) -> (text: String)
    ensures
        text@ == pair(key@, value@),
{
    key.to_owned().concat("=").concat(value)
}

/// Writes a `key=value` pair whose value is a number.
pub(crate) fn write_count(key: &str, n: u64) -> (text: String)
    ensures
        text@ == pair(key@, decimal(n as nat)),
{
    let mut text = key.to_owned().concat("=");
    append_decimal(&mut text, n);
    text
}

/// The longest end of `chars` that takes at most `max` bytes in UTF-8.
pub open spec fn fitting_end(chars: Seq<char>, max: nat) -> Seq<char>
    decreases chars.len(),
{
    if encode_utf8(chars).len() <= max || chars.len() == 0 {
        chars
    } else {
        fitting_end(chars.drop_first(), max)
    }
}

/// A text cut down to its end: the text itself where it takes at most `max` bytes, else three
/// dots and the longest end of it that takes at most `max` bytes.
pub open spec fn tail_of(chars: Seq<char>, max: nat) -> Seq<char> {
    if encode_utf8(chars).len() <= max {
        chars
    } else {
        "..."@ + fitting_end(chars, max)
    }
}

/// The bytes from the first character boundary at or after `len - max` on are the longest end
/// that fits.
proof fn lemma_fitting_end_bytes(chars: Seq<char>, max: nat, at: int)
    requires
        encode_utf8(chars).len() > max,
        encode_utf8(chars).len() - max <= at <= encode_utf8(chars).len(),
        is_char_boundary(encode_utf8(chars), at),
        forall|k: int|
            encode_utf8(chars).len() - max <= k < at ==> !#[trigger] is_char_boundary(
                encode_utf8(chars),
                k,
            ),
    ensures
        encode_utf8(fitting_end(chars, max)) == encode_utf8(chars).subrange(
            at,
            encode_utf8(chars).len() as int,
        ),
    decreases chars.len(),
{
    let bytes = encode_utf8(chars);
    let rest = chars.drop_first();
    let rest_bytes = encode_utf8(rest);
    let width = encode_scalar(chars[0] as u32).len() as int;
    encode_utf8_valid_utf8(chars);
    encode_utf8_valid_utf8(rest);
    encode_utf8_first_scalar(chars);
    assert(pop_first_scalar(bytes) =~= rest_bytes);
    assert(is_char_boundary(rest_bytes, at - width));
    assert(at >= width) by {
        reveal_with_fuel(is_char_boundary, 2);
    }
    if rest_bytes.len() <= max {
        assert(is_char_boundary(rest_bytes, 0));
        assert(is_char_boundary(bytes, width));
        assert(at == width);
        assert(fitting_end(rest, max) == rest);
        assert(bytes.subrange(at, bytes.len() as int) =~= rest_bytes);
    } else {
        assert forall|k: int|
            rest_bytes.len() - max <= k < at - width implies !#[trigger] is_char_boundary(
            rest_bytes,
            k,
        ) by {
            assert(!is_char_boundary(bytes, k + width));
        }
        lemma_fitting_end_bytes(rest, max, at - width);
        assert(bytes.subrange(at, bytes.len() as int) =~= rest_bytes.subrange(
            at - width,
            rest_bytes.len() as int,
        ));
    }
}

/// Cuts a text down to its last `max` bytes, marked by leading dots, without breaking a
/// character.
pub fn tail(s: &str, max: usize) -> (text: String)
    ensures
        text@ == tail_of(s@, max as nat),
{
    let len = s.as_bytes().len();
    if len <= max {
        return s.to_owned();
    }
    let mut at: usize = len - max;
    proof {
        encode_utf8_valid_utf8(s@);
        is_char_boundary_start_end_of_seq(encode_utf8(s@));
    }
    while at < len && !s.is_char_boundary(at)
        invariant
            len == encode_utf8(s@).len(),
            len - max <= at <= len,
            forall|k: int|
                len - max <= k < at ==> !#[trigger] is_char_boundary(encode_utf8(s@), k),
        decreases len - at,
    {
        at = at + 1;
    }
    let (_, end) = s.split_at(at);
    proof {
        lemma_fitting_end_bytes(s@, max as nat, at as int);
        encode_utf8_decode_utf8(end@);
        encode_utf8_decode_utf8(fitting_end(s@, max as nat));
    }
    "...".to_owned().concat(end)
}

/// What `fitting_end` keeps takes at most `max` bytes and stands at the end of the text, and
/// no longer end of it fits.
pub proof fn law_fitting_end_is_longest(chars: Seq<char>, max: nat)
    ensures
        encode_utf8(fitting_end(chars, max)).len() <= max,
        fitting_end(chars, max).len() <= chars.len(),
        fitting_end(chars, max) == chars.skip(chars.len() - fitting_end(chars, max).len()),
        forall|n: int|
            0 <= n < chars.len() - fitting_end(chars, max).len() ==> encode_utf8(
                #[trigger] chars.skip(n),
            ).len() > max,
    decreases chars.len(),
{
    assert(encode_utf8(Seq::<char>::empty()).len() == 0);
    if encode_utf8(chars).len() <= max || chars.len() == 0 {
        assert(chars =~= Seq::<char>::empty() || chars.len() > 0);
        assert(chars.skip(0) =~= chars);
    } else {
        let rest = chars.drop_first();
        law_fitting_end_is_longest(rest, max);
        let kept = fitting_end(chars, max);
        assert(chars.skip(chars.len() - kept.len()) =~= rest.skip(rest.len() - kept.len()));
        assert forall|n: int| 0 <= n < chars.len() - kept.len() implies encode_utf8(
            #[trigger] chars.skip(n),
        ).len() > max by {
            if n == 0 {
                assert(chars.skip(0) =~= chars);
            } else {
                assert(chars.skip(n) =~= rest.skip(n - 1));
            }
        }
    }
}

/// A text that is cut down takes at most three bytes more than the limit, and a text within
/// the limit is left as it is.
pub proof fn law_tail_is_bounded(chars: Seq<char>, max: nat)
    ensures
        encode_utf8(tail_of(chars, max)).len() <= max + 3,
        encode_utf8(chars).len() <= max ==> tail_of(chars, max) == chars,
{
    if encode_utf8(chars).len() > max {
        law_fitting_end_is_longest(chars, max);
        reveal_strlit("...");
        let kept = fitting_end(chars, max);
        lemma_encode_concat("..."@, kept);
        is_ascii_chars_encode_utf8("..."@);
    }
}

/// The encoding of two texts in a row is the two encodings in a row.
proof fn lemma_encode_concat(left: Seq<char>, right: Seq<char>)
    ensures
        encode_utf8(left + right) == encode_utf8(left) + encode_utf8(right),
    decreases left.len(),
{
    if left.len() == 0 {
        assert(left + right =~= right);
        assert(encode_utf8(left) + encode_utf8(right) =~= encode_utf8(right));
    } else {
        assert((left + right).drop_first() =~= left.drop_first() + right);
        lemma_encode_concat(left.drop_first(), right);
        assert(encode_utf8(left + right) =~= encode_utf8(left) + encode_utf8(right));
    }
}

} // verus!
