//! Laws on the text that is read and written: numbers, cut-down output, and brackets.

use vstd::prelude::*;
#[allow(unused_imports)]
use vstd::utf8::*;

use crate::extract;
#[allow(unused_imports)]
use crate::extract::{extract_last_json_object, last_balanced, matching_open};
use crate::json;
#[allow(unused_imports)]
use crate::json::Document;
use crate::text;
#[allow(unused_imports)]
use crate::text::tail;

verus! {

/// The number that a row of decimal digits stands for.
pub open spec fn number_in(digits: Seq<char>) -> int
    decreases digits.len(),
{
    if digits.len() == 0 {
        0
    } else {
        number_in(digits.drop_last()) * 10 + (digits.last() as int - '0' as int)
    }
}

/// `text` is `n` in decimal: digits that stand for `n`, without a leading zero.
pub open spec fn is_written(text: Seq<char>, n: int) -> bool {
    &&& text.len() > 0
    &&& forall|i: int| 0 <= i < text.len() ==> '0' <= #[trigger] text[i] <= '9'
    &&& text.len() > 1 ==> text[0] != '0'
    &&& number_in(text) == n
}

/// A natural number is written in decimal, so that it can be read back.
pub proof fn law_numbers_read_back(n: nat)
    ensures
        is_written(text::decimal(n), n as int),
    decreases n,
{
    let digits = text::decimal(n);
    if n < 10 {
        assert(digits.drop_last() =~= Seq::<char>::empty());
        assert(number_in(digits.drop_last()) == 0);
    } else {
        law_numbers_read_back(n / 10);
        let high = text::decimal(n / 10);
        assert(digits.drop_last() =~= high);
        assert(high[0] == digits[0]);
        if high.len() == 1 {
            assert(high.drop_last() =~= Seq::<char>::empty());
            reveal_with_fuel(number_in, 2);
            assert(number_in(high) == high[0] as int - '0' as int);
        }
        assert forall|i: int| 0 <= i < digits.len() implies '0' <= #[trigger] digits[i]
            <= '9' by {
            if i < high.len() {
                assert(digits[i] == high[i]);
            }
        }
    }
}

/// `text` is `n` in decimal, with a minus sign where `n` is negative.
pub open spec fn is_written_signed(text: Seq<char>, n: int) -> bool {
    &&& n >= 0 ==> is_written(text, n)
    &&& n < 0 ==> text.len() > 0 && text[0] == '-' && is_written(text.skip(1), -n)
}

/// A negative number is written with a minus sign before its size, another one without.
pub proof fn law_signs_are_written(n: int)
    ensures
        is_written_signed(text::signed_decimal(n), n),
{
    reveal_strlit("-");
    if n < 0 {
        law_numbers_read_back((-n) as nat);
        assert(text::signed_decimal(n).skip(1) =~= text::decimal((-n) as nat));
    } else {
        law_numbers_read_back(n as nat);
    }
}

/// `cut` is `whole` where that takes at most `max` bytes, and else three dots and the longest
/// end of it that takes at most `max` bytes.
pub open spec fn is_cut(whole: Seq<char>, cut: Seq<char>, max: int) -> bool {
    let size = encode_utf8(whole).len();
    let kept = cut.skip(3);
    let from = whole.len() - kept.len();
    &&& size <= max ==> cut == whole
    &&& size > max ==> {
        &&& cut.len() >= 3
        &&& cut[0] == '.' && cut[1] == '.' && cut[2] == '.'
        &&& from > 0
        &&& kept == whole.skip(from)
        &&& encode_utf8(kept).len() <= max
        &&& encode_utf8(whole.skip(from - 1)).len() > max
    }
}

/// Cutting a text down keeps its end: all of it where it fits, else as much as fits.
pub proof fn law_cut_text(chars: Seq<char>, max: nat)
    ensures
        is_cut(chars, text::tail_of(chars, max), max as int),
{
    if encode_utf8(chars).len() > max {
        reveal_strlit("...");
        text::law_fitting_end_is_longest(chars, max);
        let cut = text::tail_of(chars, max);
        let kept = text::fitting_end(chars, max);
        assert(cut.skip(3) =~= kept);
        if kept.len() == chars.len() {
            assert(chars.skip(0) =~= chars);
        }
        assert(encode_utf8(chars.skip(chars.len() - kept.len() - 1)).len() > max);
    }
}

/// `tail` keeps the end of a text.
pub proof fn law_tail_keeps_the_end(s: &str, max: usize, cut: String)
    requires
        call_ensures(tail, (s, max), cut),
    ensures
        is_cut(s@, cut@, max as int),
{
    law_cut_text(s@, max as nat);
}

/// How often a byte occurs from `from` to `end`, both included.
pub open spec fn times(bytes: Seq<u8>, from: int, end: int, byte: u8) -> nat {
    bytes.subrange(from, end + 1).to_multiset().count(byte)
}

/// The bytes at `start` and `end` are a pair of brackets, curly or square: between them as many
/// are opened as are closed, and from no later byte on is that so.
pub open spec fn is_pair(bytes: Seq<u8>, start: int, end: int) -> bool {
    &&& 0 <= start < end < bytes.len()
    &&& (bytes[start] == 0x7b && bytes[end] == 0x7d) || (bytes[start] == 0x5b && bytes[end]
        == 0x5d)
    &&& times(bytes, start, end, bytes[start]) == times(bytes, start, end, bytes[end])
    &&& forall|i: int|
        start < i <= end ==> #[trigger] times(bytes, i, end, bytes[end]) > times(
            bytes,
            i,
            end,
            bytes[start],
        )
}

/// A pair of brackets with what stands between them is valid JSON.
pub open spec fn is_value(bytes: Seq<u8>, start: int, end: int) -> bool {
    is_pair(bytes, start, end) && json::json_valid(bytes.subrange(start, end + 1))
}

/// The JSON object or array that ends last in an output stands from `start` to `end`.
pub open spec fn is_last_value(bytes: Seq<u8>, start: int, end: int) -> bool {
    is_value(bytes, start, end) && forall|s: int, e: int|
        #[trigger] is_value(bytes, s, e) ==> e <= end
}

/// No JSON object or array stands in an output.
pub open spec fn holds_no_value(bytes: Seq<u8>) -> bool {
    forall|s: int, e: int| !#[trigger] is_value(bytes, s, e)
}

proof fn lemma_depth_counts(bytes: Seq<u8>, close: u8, from: int, end: int)
    requires
        0 <= from <= end + 1 <= bytes.len(),
        close == 0x7d || close == 0x5d,
    ensures
        extract::depth(bytes, close, from, end) == times(bytes, from, end, close) - times(
            bytes,
            from,
            end,
            extract::opening_of(close),
        ),
    decreases end + 1 - from,
{
    broadcast use vstd::multiset::group_multiset_axioms;
    broadcast use vstd::seq_lib::group_to_multiset_ensures;

    let here = bytes.subrange(from, end + 1);
    if from > end {
        assert(here =~= Seq::<u8>::empty());
        assert(here.to_multiset() =~= vstd::multiset::Multiset::<u8>::empty());
    } else {
        lemma_depth_counts(bytes, close, from + 1, end);
        assert(here.remove(0) =~= bytes.subrange(from + 1, end + 1));
        assert(here[0] == bytes[from]);
        assert(here.contains(here[0]));
        assert(here.to_multiset().count(here[0]) > 0);
    }
}

/// What the search takes for balanced is a pair of brackets, and the other way round.
pub proof fn law_balanced_is_a_pair(bytes: Seq<u8>, start: int, end: int)
    ensures
        extract::balanced(bytes, start, end) <==> is_pair(bytes, start, end),
{
    if 0 <= start < end < bytes.len() && (bytes[end] == 0x7d || bytes[end] == 0x5d) {
        let close = bytes[end];
        lemma_depth_counts(bytes, close, start, end);
        assert forall|i: int| start < i <= end implies #[trigger] extract::depth(
            bytes,
            close,
            i,
            end,
        ) == times(bytes, i, end, close) - times(bytes, i, end, extract::opening_of(close)) by {
            lemma_depth_counts(bytes, close, i, end);
        }
        if is_pair(bytes, start, end) {
            assert forall|i: int| start < i <= end implies #[trigger] extract::depth(
                bytes,
                close,
                i,
                end,
            ) > 0 by {
                assert(times(bytes, i, end, close) > times(bytes, i, end, bytes[start]));
            }
        }
        if extract::balanced(bytes, start, end) {
            assert forall|i: int| start < i <= end implies #[trigger] times(bytes, i, end, close)
                > times(bytes, i, end, bytes[start]) by {
                assert(extract::depth(bytes, close, i, end) > 0);
            }
        }
    }
}

/// What the search accepts is a JSON object or array, and the other way round.
pub proof fn law_accepted_is_a_value(bytes: Seq<u8>)
    ensures
        forall|s: int, e: int|
            #![trigger extract::accepted(bytes, s, e)]
            #![trigger is_value(bytes, s, e)]
            extract::accepted(bytes, s, e) <==> is_value(bytes, s, e),
        forall|s: int, e: int|
            #![trigger extract::is_report(bytes, s, e)]
            #![trigger is_last_value(bytes, s, e)]
            extract::is_report(bytes, s, e) <==> is_last_value(bytes, s, e),
        extract::no_report(bytes) <==> holds_no_value(bytes),
{
    assert forall|s: int, e: int|
        #![trigger extract::accepted(bytes, s, e)]
        #![trigger is_value(bytes, s, e)]
        extract::accepted(bytes, s, e) <==> is_value(bytes, s, e) by {
        law_balanced_is_a_pair(bytes, s, e);
    }
}

/// The report of an output is the value that ends last in it, and there is one wherever some
/// value stands in the output.
pub proof fn law_last_value_is_the_report(bytes: Seq<u8>)
    ensures
        forall|s: int, e: int|
            #[trigger] is_last_value(bytes, s, e) ==> extract::report_of(bytes) == Some(
                bytes.subrange(s, e + 1),
            ),
        holds_no_value(bytes) <==> extract::report_of(bytes) is None,
        !holds_no_value(bytes) <==> exists|s: int, e: int| #[trigger] is_last_value(bytes, s, e),
{
    law_accepted_is_a_value(bytes);
    extract::law_report_exists_or_nothing_is_accepted(bytes);
    assert forall|s: int, e: int| #[trigger] is_last_value(bytes, s, e) implies extract::report_of(
        bytes,
    ) == Some(bytes.subrange(s, e + 1)) by {
        assert(extract::is_report(bytes, s, e));
        let (s2, e2) = choose|s2: int, e2: int| #[trigger] extract::is_report(bytes, s2, e2);
        extract::law_report_is_unique(bytes, s, e, s2, e2);
    }
    if !holds_no_value(bytes) {
        let (s, e) = choose|s: int, e: int| #[trigger] extract::is_report(bytes, s, e);
        assert(is_last_value(bytes, s, e));
    }
    if holds_no_value(bytes) {
        assert forall|s: int, e: int| !#[trigger] extract::is_report(bytes, s, e) by {
            assert(!is_value(bytes, s, e));
        }
    }
}

/// The search finds the JSON object or array that ends last, and finds nothing only where none
/// stands in the text.
pub proof fn law_search_finds_the_last_value(s: &str, found: Option<Document>)
    requires
        call_ensures(extract_last_json_object, (s,), found),
    ensures
        found is None <==> holds_no_value(encode_utf8(s@)),
        forall|start: int, end: int| #[trigger]
            is_last_value(encode_utf8(s@), start, end) ==> (found matches Some(document)
                && document@ == encode_utf8(s@).subrange(start, end + 1)),
        forall|start: int, end: int| #[trigger]
            is_value(encode_utf8(s@), start, end) ==> found is Some,
{
    law_last_value_is_the_report(encode_utf8(s@));
}

/// Text behind the last value in which no value ends changes nothing, whatever brackets it
/// holds: a closing bracket that ends no JSON is passed over.
pub proof fn law_brackets_that_end_no_value_are_passed_over(
    short: &str,
    long: &str,
    after: Seq<u8>,
    found_short: Option<Document>,
    found_long: Option<Document>,
)
    requires
        encode_utf8(long@) == encode_utf8(short@) + after,
        forall|s: int, e: int| #[trigger]
            is_value(encode_utf8(long@), s, e) ==> e < encode_utf8(short@).len(),
        call_ensures(extract_last_json_object, (short,), found_short),
        call_ensures(extract_last_json_object, (long,), found_long),
    ensures
        found_short is Some <==> found_long is Some,
        found_short is Some ==> found_short->0@ == found_long->0@,
{
    let bytes = encode_utf8(short@);
    let longer = encode_utf8(long@);
    lemma_values_of_a_beginning(bytes, longer, after);
    law_search_finds_the_last_value(short, found_short);
    law_search_finds_the_last_value(long, found_long);
    law_last_value_is_the_report(bytes);
    law_last_value_is_the_report(longer);
    if !holds_no_value(longer) {
        let (s, e) = choose|s: int, e: int| #[trigger] is_last_value(longer, s, e);
        assert(is_value(longer, s, e));
        assert(is_value(bytes, s, e));
        assert(is_last_value(bytes, s, e));
        assert(bytes.subrange(s, e + 1) =~= longer.subrange(s, e + 1));
    } else {
        assert forall|s: int, e: int| !#[trigger] is_value(bytes, s, e) by {
            assert(!is_value(longer, s, e));
        }
    }
}

proof fn lemma_values_of_a_beginning(bytes: Seq<u8>, longer: Seq<u8>, after: Seq<u8>)
    requires
        longer == bytes + after,
    ensures
        forall|s: int, e: int|
            #![trigger is_value(bytes, s, e)]
            #![trigger is_value(longer, s, e)]
            e < bytes.len() ==> (is_value(bytes, s, e) <==> is_value(longer, s, e)),
{
    assert forall|s: int, e: int|
        #![trigger is_value(bytes, s, e)]
        #![trigger is_value(longer, s, e)]
        e < bytes.len() implies (is_value(bytes, s, e) <==> is_value(longer, s, e)) by {
        if 0 <= s < e < bytes.len() {
            assert(bytes[s] == longer[s] && bytes[e] == longer[e]);
            assert forall|i: int| s <= i <= e implies #[trigger] bytes.subrange(i, e + 1)
                == longer.subrange(i, e + 1) by {
                assert(bytes.subrange(i, e + 1) =~= longer.subrange(i, e + 1));
            }
            assert(bytes.subrange(s, e + 1) == longer.subrange(s, e + 1));
            assert forall|i: int, b: u8| s <= i <= e implies #[trigger] times(bytes, i, e, b)
                == times(longer, i, e, b) by {
                assert(bytes.subrange(i, e + 1) == longer.subrange(i, e + 1));
            }
            if is_pair(bytes, s, e) {
                assert forall|i: int| s < i <= e implies #[trigger] times(longer, i, e, longer[e])
                    > times(longer, i, e, longer[s]) by {
                    assert(times(bytes, i, e, bytes[e]) > times(bytes, i, e, bytes[s]));
                }
                assert(times(bytes, s, e, bytes[s]) == times(bytes, s, e, bytes[e]));
            }
            if is_pair(longer, s, e) {
                assert forall|i: int| s < i <= e implies #[trigger] times(bytes, i, e, bytes[e])
                    > times(bytes, i, e, bytes[s]) by {
                    assert(times(longer, i, e, longer[e]) > times(longer, i, e, longer[s]));
                }
                assert(times(bytes, s, e, bytes[s]) == times(bytes, s, e, bytes[e]));
            }
        }
    }
}

/// The partner of a closing bracket is found exactly where it has one.
pub proof fn law_partners_are_found(bytes: &[u8], end: usize, start: Option<usize>)
    requires
        end < bytes@.len(),
        bytes@[end as int] == 0x7d || bytes@[end as int] == 0x5d,
        call_ensures(matching_open, (bytes, end), start),
    ensures
        start matches Some(s) ==> is_pair(bytes@, s as int, end as int),
        start is None ==> forall|s: int| !#[trigger] is_pair(bytes@, s, end as int),
{
    if let Some(s) = start {
        law_balanced_is_a_pair(bytes@, s as int, end as int);
    } else {
        assert forall|s: int| !#[trigger] is_pair(bytes@, s, end as int) by {
            law_balanced_is_a_pair(bytes@, s, end as int);
            assert(!extract::balanced(bytes@, s, end as int));
        }
    }
}

/// The last pair before a place is found exactly where there is one.
pub proof fn law_last_pair_is_found(
    bytes: &[u8],
    before: usize,
    found: Option<(usize, usize)>,
)
    requires
        before <= bytes@.len(),
        call_ensures(last_balanced, (bytes, before), found),
    ensures
        found matches Some(pair) ==> {
            &&& is_pair(bytes@, pair.0 as int, pair.1 as int)
            &&& pair.1 < before
            &&& forall|s: int, e: int| #[trigger]
                is_pair(bytes@, s, e) && e < before ==> e <= pair.1
        },
        found is None ==> forall|s: int, e: int| #[trigger] is_pair(bytes@, s, e) ==> e >= before,
{
    assert forall|s: int, e: int| #![trigger is_pair(bytes@, s, e)]
        #![trigger extract::balanced(bytes@, s, e)]
        extract::balanced(bytes@, s, e) <==> is_pair(bytes@, s, e) by {
        law_balanced_is_a_pair(bytes@, s, e);
    }
    if found is None {
        assert forall|s: int, e: int| #[trigger] is_pair(bytes@, s, e) implies e >= before by {
            assert(extract::balanced(bytes@, s, e));
        }
    }
}

} // verus!
