//! Finding the report in the output of a playbook run.
//!
//! A playbook prints its report as a JSON value among log lines. The report is taken to be
//! the last balanced bracket pair, curly or square, whose text is valid JSON.

use vstd::prelude::*;

use crate::json;
use crate::json::Document;
#[allow(unused_imports)]
use vstd::utf8::*;

verus! {

/// `{` in ASCII.
pub const OPEN_CURLY: u8 = 0x7b;

/// `}` in ASCII.
pub const CLOSE_CURLY: u8 = 0x7d;

/// `[` in ASCII.
pub const OPEN_SQUARE: u8 = 0x5b;

/// `]` in ASCII.
pub const CLOSE_SQUARE: u8 = 0x5d;

/// Whether a byte closes a JSON object or a JSON array.
pub open spec fn is_closing(byte: u8) -> bool {
    byte == CLOSE_CURLY || byte == CLOSE_SQUARE
}

/// Whether a byte opens or closes a JSON object or a JSON array.
pub open spec fn is_bracket(byte: u8) -> bool {
    is_closing(byte) || byte == OPEN_CURLY || byte == OPEN_SQUARE
}

/// The byte that opens what `close` closes.
pub open spec fn opening_of(close: u8) -> u8 {
    if close == CLOSE_CURLY {
        OPEN_CURLY
    } else {
        OPEN_SQUARE
    }
}

/// How many more times `close` than its opening byte occurs in `bytes[from..=end]`.
pub open spec fn depth(bytes: Seq<u8>, close: u8, from: int, end: int) -> int
    decreases end + 1 - from,
{
    if from > end {
        0
    } else {
        depth(bytes, close, from + 1, end) + if bytes[from] == close {
            1int
        } else if bytes[from] == opening_of(close) {
            -1int
        } else {
            0int
        }
    }
}

/// `start` is the position of the opening byte that the closing byte at `end` matches.
pub open spec fn balanced(bytes: Seq<u8>, start: int, end: int) -> bool {
    &&& 0 <= start < end < bytes.len()
    &&& is_closing(bytes[end])
    &&& bytes[start] == opening_of(bytes[end])
    &&& depth(bytes, bytes[end], start, end) == 0
    &&& forall|i: int| start < i <= end ==> #[trigger] depth(bytes, bytes[end], i, end) > 0
}

/// The bytes from `start` to `end`, both included, are balanced and are valid JSON.
pub open spec fn accepted(bytes: Seq<u8>, start: int, end: int) -> bool {
    balanced(bytes, start, end) && json::json_valid(bytes.subrange(start, end + 1))
}

/// The report of an output: the accepted stretch that ends last.
pub open spec fn is_report(bytes: Seq<u8>, start: int, end: int) -> bool {
    &&& accepted(bytes, start, end)
    &&& forall|s: int, e: int| #[trigger] accepted(bytes, s, e) ==> e <= end
}

/// The output holds no report.
pub open spec fn no_report(bytes: Seq<u8>) -> bool {
    forall|s: int, e: int| !#[trigger] accepted(bytes, s, e)
}

/// The text of the report of an output, where there is one.
pub open spec fn report_of(bytes: Seq<u8>) -> Option<Seq<u8>> {
    if exists|s: int, e: int| #[trigger] is_report(bytes, s, e) {
        let (start, end) = choose|s: int, e: int| #[trigger] is_report(bytes, s, e);
        Some(bytes.subrange(start, end + 1))
    } else {
        None
    }
}

/// A text that runs from an opening bracket to a closing one of the same kind.
pub open spec fn is_bracketed(text: Seq<u8>) -> bool {
    &&& text.len() >= 2
    &&& is_closing(text.last())
    &&& text.first() == opening_of(text.last())
}

/// The brackets of the kind of the last one nest: every proper prefix opens more of them than
/// it closes, and the whole text closes as many as it opens.
pub open spec fn nests(text: Seq<u8>) -> bool {
    &&& is_bracketed(text)
    &&& depth(text, text.last(), 0, text.len() - 1) == 0
    &&& forall|i: int|
        0 <= i < text.len() - 1 ==> #[trigger] depth(text, text.last(), 0, i) < 0
}

/// Printed last in an output, the text is the report of that output.
pub open spec fn survives_noise(report: Seq<u8>) -> bool {
    forall|before: Seq<u8>, after: Seq<u8>|
        (forall|i: int| 0 <= i < after.len() ==> !is_closing(#[trigger] after[i]))
            ==> #[trigger] report_of(before + report + after) == Some(report)
}

/// The closing byte at `end` matches no opening byte.
pub open spec fn is_unmatched(bytes: Seq<u8>, end: int) -> bool {
    forall|s: int| !#[trigger] balanced(bytes, s, end)
}

/// No balanced stretch ends behind `end` and before `before`.
pub open spec fn none_between(bytes: Seq<u8>, end: int, before: int) -> bool {
    forall|s: int, e: int| #[trigger] balanced(bytes, s, e) && e < before ==> e <= end
}

/// The position of the opening byte that the closing byte at `end` matches, if there is one.
pub fn matching_open(bytes: &[u8], end: usize) -> (start: Option<usize>)
    requires
        end < bytes@.len(),
        is_closing(bytes@[end as int]),
    ensures
        match start {
            Some(s) => balanced(bytes@, s as int, end as int),
            None => is_unmatched(bytes@, end as int),
        },
{
    let close = bytes[end];
    let open = if close == CLOSE_CURLY { OPEN_CURLY } else { OPEN_SQUARE };
    let mut count: usize = 1;
    let mut at: usize = end;
    assert(depth(bytes@, close, end as int + 1, end as int) == 0);
    while at > 0
        invariant
            at <= end < bytes@.len(),
            close == bytes@[end as int],
            is_closing(close),
            open == opening_of(close),
            1 <= count <= end - at + 1,
            count == depth(bytes@, close, at as int, end as int),
            forall|i: int| at <= i <= end ==> #[trigger] depth(bytes@, close, i, end as int) > 0,
        decreases at,
    {
        at = at - 1;
        let byte = bytes[at];
        if byte == close {
            count = count + 1;
        } else if byte == open {
            count = count - 1;
            if count == 0 {
                return Some(at);
            }
        }
    }
    None
}

/// The last balanced stretch that ends before `before`, if there is one.
pub fn last_balanced(bytes: &[u8], before: usize) -> (found: Option<(usize, usize)>)
    requires
        before <= bytes@.len(),
    ensures
        match found {
            Some((start, end)) => {
                &&& end < before
                &&& balanced(bytes@, start as int, end as int)
                &&& none_between(bytes@, end as int, before as int)
            },
            None => none_between(bytes@, -1, before as int),
        },
{
    let mut end: usize = before;
    while end > 0
        invariant
            end <= before <= bytes@.len(),
            forall|s: int, e: int| #[trigger] balanced(bytes@, s, e) && e < before ==> e < end,
        decreases end,
    {
        end = end - 1;
        if bytes[end] == CLOSE_CURLY || bytes[end] == CLOSE_SQUARE {
            if let Some(start) = matching_open(bytes, end) {
                return Some((start, end));
            }
        }
    }
    None
}

/// Takes the report out of an output: the text of the last balanced JSON object or array.
/// Log lines around it are passed over.
pub fn extract_last_json_object(s: &str) -> (report: Option<Document>)
    ensures
        match report {
            Some(document) => exists|start: int, end: int|
                #[trigger] is_report(encode_utf8(s@), start, end) && document@
                    == encode_utf8(s@).subrange(start, end + 1),
            None => no_report(encode_utf8(s@)),
        },
        match report {
            Some(document) => report_of(encode_utf8(s@)) == Some(document@),
            None => report_of(encode_utf8(s@)) is None,
        },
{
    let bytes = s.as_bytes();
    let mut before: usize = bytes.len();
    loop
        invariant
            bytes@ == encode_utf8(s@),
            before <= bytes@.len(),
            forall|b: int, e: int| #[trigger] accepted(bytes@, b, e) ==> e < before,
        decreases before,
    {
        match last_balanced(bytes, before) {
            Some((start, end)) => {
                let text = vstd::slice::slice_to_vec(
                    vstd::slice::slice_subrange(bytes, start, end + 1),
                );
                if let Some(document) = Document::parse(text) {
                    proof {
                        assert(is_report(bytes@, start as int, end as int));
                        lemma_report_of(bytes@, start as int, end as int);
                    }
                    return Some(document);
                }
                before = end;
            },
            None => {
                return None;
            },
        }
    }
}

/// The depth of a stretch depends on the bytes of the stretch alone, not on where it stands.
proof fn lemma_depth_moves(
    bytes: Seq<u8>,
    moved: Seq<u8>,
    by: int,
    close: u8,
    from: int,
    end: int,
)
    requires
        forall|i: int| from <= i <= end ==> #[trigger] bytes[i] == moved[i + by],
    ensures
        depth(bytes, close, from, end) == depth(moved, close, from + by, end + by),
    decreases end + 1 - from,
{
    if from <= end {
        assert(bytes[from] == moved[from + by]);
        lemma_depth_moves(bytes, moved, by, close, from + 1, end);
    }
}

/// A balanced stretch stays balanced where the bytes it spans stand elsewhere.
proof fn lemma_balanced_moves(bytes: Seq<u8>, moved: Seq<u8>, by: int, start: int, end: int)
    requires
        0 <= start <= end < bytes.len(),
        0 <= start + by,
        end + by < moved.len(),
        forall|i: int| start <= i <= end ==> #[trigger] bytes[i] == moved[i + by],
    ensures
        balanced(bytes, start, end) == balanced(moved, start + by, end + by),
        bytes.subrange(start, end + 1) == moved.subrange(start + by, end + by + 1),
{
    let close = bytes[end];
    assert(moved[end + by] == close);
    assert(bytes[start] == moved[start + by]);
    lemma_depth_moves(bytes, moved, by, close, start, end);
    assert forall|i: int| start <= i <= end implies #[trigger] depth(bytes, close, i, end)
        == depth(moved, close, i + by, end + by) by {
        lemma_depth_moves(bytes, moved, by, close, i, end);
    }
    if balanced(bytes, start, end) {
        assert forall|i: int| start + by < i <= end + by implies #[trigger] depth(
            moved,
            close,
            i,
            end + by,
        ) > 0 by {
            assert(depth(bytes, close, i - by, end) > 0);
        }
    }
    if balanced(moved, start + by, end + by) {
        assert forall|i: int| start < i <= end implies #[trigger] depth(
            bytes,
            close,
            i,
            end,
        ) > 0 by {
            assert(depth(moved, close, i + by, end + by) > 0);
        }
    }
    let here = bytes.subrange(start, end + 1);
    let there = moved.subrange(start + by, end + by + 1);
    assert forall|i: int| 0 <= i < here.len() implies #[trigger] here[i] == there[i] by {
        assert(bytes[start + i] == moved[start + i + by]);
    }
    assert(here =~= there);
}

/// An output has at most one report.
pub proof fn law_report_is_unique(
    bytes: Seq<u8>,
    start1: int,
    end1: int,
    start2: int,
    end2: int,
)
    requires
        is_report(bytes, start1, end1),
        is_report(bytes, start2, end2),
    ensures
        start1 == start2,
        end1 == end2,
{
    assert(accepted(bytes, start1, end1));
    assert(accepted(bytes, start2, end2));
    if start1 < start2 {
        assert(depth(bytes, bytes[end1], start2, end1) > 0);
    }
    if start2 < start1 {
        assert(depth(bytes, bytes[end2], start1, end2) > 0);
    }
}

/// The text of the report is that of any stretch that is the report: there is but one.
proof fn lemma_report_of(bytes: Seq<u8>, start: int, end: int)
    requires
        is_report(bytes, start, end),
    ensures
        report_of(bytes) == Some(bytes.subrange(start, end + 1)),
{
    let (s, e) = choose|s: int, e: int| #[trigger] is_report(bytes, s, e);
    law_report_is_unique(bytes, start, end, s, e);
}

/// A text that is accepted by itself is accepted in the middle of an output.
proof fn lemma_accepted_in_the_middle(before: Seq<u8>, report: Seq<u8>, after: Seq<u8>)
    requires
        accepted(report, 0, report.len() - 1),
    ensures
        accepted(
            before + report + after,
            before.len() as int,
            before.len() + report.len() - 1,
        ),
        (before + report + after).subrange(
            before.len() as int,
            (before.len() + report.len()) as int,
        ) == report,
{
    let bytes = before + report + after;
    let by = before.len() as int;
    let end = report.len() - 1;
    assert forall|i: int| 0 <= i <= end implies #[trigger] report[i] == bytes[i + by] by {}
    lemma_balanced_moves(report, bytes, by, 0, end);
    assert(report.subrange(0, end + 1) =~= report);
}

/// A report that is printed last is found, whatever was printed before it and whatever
/// follows it, as long as what follows holds no closing bracket.
pub proof fn law_report_survives_noise(before: Seq<u8>, report: Seq<u8>, after: Seq<u8>)
    requires
        accepted(report, 0, report.len() - 1),
        forall|i: int| 0 <= i < after.len() ==> !is_closing(#[trigger] after[i]),
    ensures
        is_report(
            before + report + after,
            before.len() as int,
            before.len() + report.len() - 1,
        ),
        report_of(before + report + after) == Some(report),
{
    let bytes = before + report + after;
    let by = before.len() as int;
    let end = report.len() - 1;
    lemma_accepted_in_the_middle(before, report, after);
    assert forall|s: int, e: int| #[trigger] accepted(bytes, s, e) implies e <= end + by by {
        if e > end + by {
            assert(bytes[e] == after[e - end - by - 1]);
        }
    }
    assert(is_report(bytes, by, end + by));
    lemma_report_of(bytes, by, end + by);
}

/// An accepted text is found wherever it is printed last.
pub proof fn law_accepted_text_survives_noise(report: Seq<u8>)
    requires
        accepted(report, 0, report.len() - 1),
    ensures
        survives_noise(report),
{
    assert forall|before: Seq<u8>, after: Seq<u8>|
        (forall|i: int| 0 <= i < after.len() ==> !is_closing(#[trigger] after[i])) implies
        #[trigger] report_of(before + report + after) == Some(report) by {
        law_report_survives_noise(before, report, after);
    }
}

/// The depth of a stretch is the sum of the depths of its two parts.
proof fn lemma_depth_splits(bytes: Seq<u8>, close: u8, from: int, mid: int, end: int)
    requires
        from <= mid <= end + 1,
    ensures
        depth(bytes, close, from, end) == depth(bytes, close, from, mid - 1) + depth(
            bytes,
            close,
            mid,
            end,
        ),
    decreases mid - from,
{
    if from < mid {
        lemma_depth_splits(bytes, close, from + 1, mid, end);
    }
}

/// Valid JSON whose brackets nest is accepted, and so is found in whatever output it ends.
pub proof fn law_nested_json_is_accepted(text: Seq<u8>)
    requires
        json::json_valid(text),
        nests(text),
    ensures
        accepted(text, 0, text.len() - 1),
        survives_noise(text),
{
    let end = text.len() - 1;
    let close = text.last();
    assert forall|i: int| 0 < i <= end implies #[trigger] depth(text, close, i, end) > 0 by {
        lemma_depth_splits(text, close, 0, i, end);
        assert(depth(text, close, 0, i - 1) < 0);
    }
    assert(text.subrange(0, end + 1) =~= text);
    law_accepted_text_survives_noise(text);
}

/// Valid JSON that runs from bracket to bracket and holds no other bracket of that kind is
/// accepted, and so is found in whatever output it ends.
pub proof fn law_flat_json_is_accepted(text: Seq<u8>)
    requires
        json::json_valid(text),
        is_bracketed(text),
        forall|i: int|
            0 < i < text.len() - 1 ==> #[trigger] text[i] != text.first() && text[i]
                != text.last(),
    ensures
        accepted(text, 0, text.len() - 1),
        survives_noise(text),
{
    let end = text.len() - 1;
    assert forall|i: int| 0 <= i < end implies #[trigger] depth(text, text.last(), 0, i)
        == -1 by {
        lemma_flat_depth(text, i);
    }
    lemma_depth_splits(text, text.last(), 0, end, end);
    assert(depth(text, text.last(), end + 1, end) == 0);
    law_nested_json_is_accepted(text);
}

/// Short of its end, a flat text has opened its one bracket and closed none.
proof fn lemma_flat_depth(text: Seq<u8>, at: int)
    requires
        is_bracketed(text),
        0 <= at < text.len() - 1,
        forall|i: int|
            0 < i < text.len() - 1 ==> #[trigger] text[i] != text.first() && text[i]
                != text.last(),
    ensures
        depth(text, text.last(), 0, at) == -1,
    decreases at,
{
    if at == 0 {
        assert(depth(text, text.last(), 1, 0) == 0);
    } else {
        lemma_flat_depth(text, at - 1);
        lemma_depth_splits(text, text.last(), 0, at, at);
        assert(depth(text, text.last(), at + 1, at) == 0);
        assert(text[at] != text.first());
    }
}

/// A report is an object or an array, bracket to bracket, and is itself an output whose report
/// is all of it.
pub proof fn law_report_stands_alone(bytes: Seq<u8>)
    ensures
        report_of(bytes) matches Some(report) ==> {
            &&& report.len() >= 2
            &&& is_closing(report.last())
            &&& report.first() == opening_of(report.last())
            &&& json::json_valid(report)
            &&& report_of(report) == Some(report)
        },
{
    if exists|s: int, e: int| #[trigger] is_report(bytes, s, e) {
        let (start, end) = choose|s: int, e: int| #[trigger] is_report(bytes, s, e);
        let report = bytes.subrange(start, end + 1);
        assert forall|i: int| start <= i <= end implies #[trigger] bytes[i] == report[i
            + -start] by {}
        lemma_balanced_moves(bytes, report, -start, start, end);
        assert(report.subrange(0, report.len() as int) =~= report);
        assert(accepted(report, 0, report.len() - 1));
        let nothing = Seq::<u8>::empty();
        law_report_survives_noise(nothing, report, nothing);
        assert(nothing + report + nothing =~= report);
    }
}

/// Output without a closing bracket that follows changes nothing: neither which stretch is
/// the report nor whether there is one.
pub proof fn law_trailing_noise_is_passed_over(bytes: Seq<u8>, after: Seq<u8>)
    requires
        forall|i: int| 0 <= i < after.len() ==> !is_closing(#[trigger] after[i]),
    ensures
        forall|s: int, e: int|
            #![trigger is_report(bytes + after, s, e)]
            #![trigger is_report(bytes, s, e)]
            is_report(bytes + after, s, e) <==> is_report(bytes, s, e),
        no_report(bytes + after) <==> no_report(bytes),
        report_of(bytes + after) == report_of(bytes),
{
    let longer = bytes + after;
    assert forall|s: int, e: int|
        #![trigger accepted(longer, s, e)]
        #![trigger accepted(bytes, s, e)]
        accepted(longer, s, e) <==> accepted(bytes, s, e) by {
        if 0 <= s <= e < bytes.len() {
            assert forall|i: int| s <= i <= e implies #[trigger] bytes[i] == longer[i + 0] by {}
            lemma_balanced_moves(bytes, longer, 0, s, e);
        } else if bytes.len() <= e < longer.len() {
            assert(longer[e] == after[e - bytes.len()]);
        }
    }
    assert forall|s: int, e: int|
        #![trigger is_report(longer, s, e)]
        #![trigger is_report(bytes, s, e)]
        is_report(longer, s, e) <==> is_report(bytes, s, e) by {}
    if exists|s: int, e: int| #[trigger] is_report(bytes, s, e) {
        let (start, end) = choose|s: int, e: int| #[trigger] is_report(bytes, s, e);
        assert(is_report(longer, start, end));
        lemma_report_of(longer, start, end);
        assert(longer.subrange(start, end + 1) =~= bytes.subrange(start, end + 1));
    }
}

/// An output with an accepted stretch has a report: a report is missing only where nothing
/// in the output is a balanced JSON object or array.
pub proof fn law_report_exists_or_nothing_is_accepted(bytes: Seq<u8>)
    ensures
        no_report(bytes) || exists|s: int, e: int| #[trigger] is_report(bytes, s, e),
{
    lemma_report_before(bytes, bytes.len() as int);
}

proof fn lemma_report_before(bytes: Seq<u8>, before: int)
    requires
        forall|s: int, e: int| #[trigger] accepted(bytes, s, e) ==> e < before,
    ensures
        no_report(bytes) || exists|s: int, e: int| #[trigger] is_report(bytes, s, e),
    decreases before,
{
    if before > 0 {
        let end = before - 1;
        if exists|s: int| #[trigger] accepted(bytes, s, end) {
            let start = choose|s: int| #[trigger] accepted(bytes, s, end);
            assert(is_report(bytes, start, end));
        } else {
            assert forall|s: int, e: int| #[trigger] accepted(bytes, s, e) implies e < end by {
                assert(!accepted(bytes, s, end));
            }
            lemma_report_before(bytes, end);
        }
    }
}

} // verus!
