//! Scanning the output of a process-listing utility.
//!
//! A process table may report a process as running although the listing
//! utility already marks it as defunct. The supervisor therefore looks for
//! that marker in the bytes the utility printed.

use vstd::prelude::*;

verus! {

/// The marker a listing utility prints beside a defunct process: the ASCII
/// bytes of `defunct`.
pub open spec fn defunct_marker() -> Seq<u8> {
    seq!['d' as u8, 'e' as u8, 'f' as u8, 'u' as u8, 'n' as u8, 'c' as u8, 't' as u8]
}

/// `pattern` stands in `text` starting at index `at`.
pub open spec fn occurs_at(text: Seq<u8>, pattern: Seq<u8>, at: int) -> bool {
    &&& 0 <= at
    &&& at + pattern.len() <= text.len()
    &&& forall|k: int| 0 <= k < pattern.len() ==> #[trigger] text[at + k] == pattern[k]
}

/// `pattern` stands somewhere in `text`.
pub open spec fn occurs(text: Seq<u8>, pattern: Seq<u8>) -> bool {
    exists|at: int| occurs_at(text, pattern, at)
}

/// The listing marks a process as defunct.
pub open spec fn marks_defunct(output: Seq<u8>) -> bool {
    occurs(output, defunct_marker())
}

/// A pattern that holds no line break never straddles one: it stands in a
/// text exactly if it stands in the part before a given line break or in
/// the part after it. So a scan of the whole output finds the marker exactly
/// if a scan of each line on its own would.
pub proof fn lemma_pattern_stays_within_a_line(
    text: Seq<u8>,
    pattern: Seq<u8>,
    line_break: u8,
    at: int,
)
    requires
        0 <= at < text.len(),
        text[at] == line_break,
        !pattern.contains(line_break),
    ensures
        occurs(text, pattern) <==> occurs(text.subrange(0, at), pattern) || occurs(
            text.subrange(at + 1, text.len() as int),
            pattern,
        ),
{
    let before = text.subrange(0, at);
    let after = text.subrange(at + 1, text.len() as int);
    if occurs(text, pattern) {
        let place = choose|place: int| occurs_at(text, pattern, place);
        if place + pattern.len() <= at {
            assert forall|k: int| 0 <= k < pattern.len() implies #[trigger] before[place + k]
                == pattern[k] by {
                assert(text[place + k] == pattern[k]);
            }
            assert(occurs_at(before, pattern, place));
        } else if place > at {
            assert forall|k: int| 0 <= k < pattern.len() implies #[trigger] after[place - at - 1
                + k] == pattern[k] by {
                assert(text[place + k] == pattern[k]);
            }
            assert(occurs_at(after, pattern, place - at - 1));
        } else {
            assert(text[place + (at - place)] == pattern[at - place]);
            assert(pattern.contains(line_break));
        }
    }
    if occurs(before, pattern) {
        let place = choose|place: int| occurs_at(before, pattern, place);
        assert forall|k: int| 0 <= k < pattern.len() implies #[trigger] text[place + k]
            == pattern[k] by {
            assert(before[place + k] == pattern[k]);
        }
        assert(occurs_at(text, pattern, place));
    }
    if occurs(after, pattern) {
        let place = choose|place: int| occurs_at(after, pattern, place);
        assert forall|k: int| 0 <= k < pattern.len() implies #[trigger] text[place + at + 1 + k]
            == pattern[k] by {
            assert(after[place + k] == pattern[k]);
        }
        assert(occurs_at(text, pattern, place + at + 1));
    }
}

/// The marker holds neither a line feed nor a carriage return.
pub proof fn lemma_marker_holds_no_line_break()
    ensures
        !defunct_marker().contains('\n' as u8),
        !defunct_marker().contains('\r' as u8),
{
}

/// Whether `pattern` stands in `text` at `at`, which must leave room for it.
fn matches_at(text: &[u8], pattern: &[u8], at: usize) -> (found: bool)
    requires
        at + pattern@.len() <= text@.len(),
    ensures
        found == occurs_at(text@, pattern@, at as int),
{
    let mut k: usize = 0;
    while k < pattern.len()
        invariant
            k <= pattern.len(),
            at + pattern.len() <= text.len(),
            forall|j: int| 0 <= j < k ==> #[trigger] text@[at + j] == pattern@[j],
        decreases pattern@.len() - k,
    {
        if text[at + k] != pattern[k] {
            return false;
        }
        k += 1;
    }
    true
}

/// Finds the first place where `pattern` stands in `text`.
///
/// The empty pattern stands at index 0 of every text.
pub fn find(text: &[u8], pattern: &[u8]) -> (place: Option<usize>)
    ensures
        place is Some <==> occurs(text@, pattern@),
        place matches Some(at) ==> {
            &&& occurs_at(text@, pattern@, at as int)
            &&& forall|earlier: int| 0 <= earlier < at ==> !occurs_at(text@, pattern@, earlier)
        },
{
    if pattern.len() > text.len() {
        return None;
    }
    let last: usize = text.len() - pattern.len();
    let mut at: usize = 0;
    while at <= last
        invariant
            last == text.len() - pattern.len(),
            pattern.len() <= text.len(),
            at <= last + 1,
            forall|earlier: int| 0 <= earlier < at ==> !occurs_at(text@, pattern@, earlier),
        decreases last + 1 - at,
    {
        if matches_at(text, pattern, at) {
            return Some(at);
        }
        at += 1;
    }
    None
}

/// Tells whether a process listing marks a process as defunct, that is whether
/// the bytes `defunct` stand anywhere in it.
pub fn reports_defunct(output: &[u8]) -> (defunct: bool)
    ensures
        defunct == marks_defunct(output@),
{
    let marker: [u8; 7] = [
        'd' as u8,
        'e' as u8,
        'f' as u8,
        'u' as u8,
        'n' as u8,
        'c' as u8,
        't' as u8,
    ];
    assert(marker@ =~= defunct_marker());
    find(output, marker.as_slice()).is_some()
}

} // verus!
