//! Forensic memo rules and the bounded FIFO stores of the application
//! state (memo list, console log, TX convergence history).

use vstd::prelude::*;
use std::collections::VecDeque;
use vstd::string::{StrSliceExecFns, StringSliceAdditionalSpecFns};

verus! {

broadcast use vstd::std_specs::vecdeque::group_vec_dequeue_axioms;

/// Longest memo content accepted, in characters.
pub const MEMO_MAX_CONTENT_CHARS: usize = 80;

/// Most memos kept; the oldest is dropped when a new one arrives.
pub const MEMO_CAPACITY: usize = 10000;

/// Most console log messages kept.
pub const LOG_CAPACITY: usize = 1000;

/// Most TX delta RMS values kept for the convergence plot.
pub const TX_HISTORY_CAPACITY: usize = 100;

/// Why a memo operation was refused.
#[derive(Debug, Clone, Copy, PartialEq, Eq, Structural)]
pub enum MemoError {
    /// The content is longer than 80 characters (`len` is its length in
    /// characters).
    ContentTooLong { len: usize },
    /// The tag is not one of NOTE, EVIDENCE, MANUAL-REC, ANALYSIS.
    InvalidTag,
    /// No memo at `index`; the store holds `len` memos.
    IndexOutOfBounds { index: usize, len: usize },
    /// The system clock reads a time before the Unix epoch.
    ClockBeforeEpoch,
    /// The system clock reads a time too late to be stamped.
    ClockOutOfRange,
}

/// The classification tags a memo may carry.
pub open spec fn is_memo_tag(tag: Seq<char>) -> bool {
    ||| tag == "NOTE"@
    ||| tag == "EVIDENCE"@
    ||| tag == "MANUAL-REC"@
    ||| tag == "ANALYSIS"@
}

/// Byte-wise string equality.
pub(crate) fn str_equals(a: &str, b: &str) -> (r: bool)
    ensures
        r == (a@ == b@),
{
    let ab = a.as_bytes();
    let bb = b.as_bytes();
    proof {
        vstd::utf8::encode_utf8_decode_utf8(a@);
        vstd::utf8::encode_utf8_decode_utf8(b@);
    }
    if ab.len() != bb.len() {
        return false;
    }
    let n = ab.len();
    for i in 0..n
        invariant
            n == ab@.len(),
            n == bb@.len(),
            ab@ == a.spec_bytes(),
            bb@ == b.spec_bytes(),
            forall|k: int| 0 <= k < i ==> ab@[k] == bb@[k],
    {
        if ab[i] != bb[i] {
            return false;
        }
    }
    assert(ab@ =~= bb@);
    true
}

/// What memo validation says about `tag` and a content of `len` characters:
/// `None` when the memo is accepted, otherwise the error (length first).
pub open spec fn memo_verdict(tag: Seq<char>, len: nat) -> Option<MemoError> {
    if len > MEMO_MAX_CONTENT_CHARS {
        Some(MemoError::ContentTooLong { len: len as usize })
    } else if !is_memo_tag(tag) {
        Some(MemoError::InvalidTag)
    } else {
        None
    }
}

/// Validate a memo before it is stored: the content must be at most 80
/// characters long (checked first) and the tag one of the four known tags.
pub fn check_memo(tag: &str, content: &str) -> (r: Result<(), MemoError>)
    ensures
        r == match memo_verdict(tag@, content@.len()) {
            None => Ok::<(), MemoError>(()),
            Some(e) => Err(e),
        },
{
    let len = content.unicode_len();
    if len > MEMO_MAX_CONTENT_CHARS {
        return Err(MemoError::ContentTooLong { len });
    }
    if str_equals(tag, "NOTE") || str_equals(tag, "EVIDENCE") || str_equals(tag, "MANUAL-REC")
        || str_equals(tag, "ANALYSIS") {
        Ok(())
    } else {
        Err(MemoError::InvalidTag)
    }
}

/// Contents after appending `x` to a store that drops its oldest entry
/// when it already holds `cap` or more entries.
pub open spec fn evicting_push<T>(s: Seq<T>, cap: nat, x: T) -> Seq<T> {
    if s.len() >= cap && s.len() > 0 {
        s.drop_first().push(x)
    } else {
        s.push(x)
    }
}

/// Contents after appending `x` and then dropping oldest entries until at
/// most `cap` remain.
pub open spec fn retaining_push<T>(s: Seq<T>, cap: nat, x: T) -> Seq<T> {
    let t = s.push(x);
    if t.len() > cap {
        t.subrange(t.len() - cap, t.len() as int)
    } else {
        t
    }
}

/// Append `item`, first dropping the oldest entry when the store already
/// holds `cap` entries (memo list, console log).
pub fn push_evicting_oldest<T>(store: &mut VecDeque<T>, item: T, cap: usize)
    ensures
        final(store)@ == evicting_push(old(store)@, cap as nat, item),
{
    if store.len() >= cap {
        store.pop_front();
    }
    store.push_back(item);
    proof {
        let o = old(store)@;
        if o.len() >= cap && o.len() > 0 {
            assert(final(store)@ =~= o.drop_first().push(item));
        }
    }
}

/// Append `item`, then drop the oldest entries until at most `cap` remain
/// (TX delta RMS history).
pub fn push_retaining_latest<T>(store: &mut VecDeque<T>, item: T, cap: usize)
    requires
        old(store)@.len() < usize::MAX,
    ensures
        final(store)@ == retaining_push(old(store)@, cap as nat, item),
{
    store.push_back(item);
    let ghost t = old(store)@.push(item);
    while store.len() > cap
        invariant
            cap as int <= t.len() ==> store@ == t.subrange(t.len() - store@.len(), t.len() as int),
            cap as int > t.len() ==> store@ == t,
            store@.len() <= t.len(),
            store@.len() >= cap || store@ == t,
        decreases store@.len(),
    {
        store.pop_front();
        assert(store@ =~= t.subrange(t.len() - store@.len(), t.len() as int));
    }
    assert(t.subrange(0, t.len() as int) =~= t);
}

/// Remove the memo at `index`, refusing an index past the end.
pub fn delete_at<T>(store: &mut VecDeque<T>, index: usize) -> (r: Result<(), MemoError>)
    ensures
        index >= old(store)@.len() ==> {
            &&& r == Err::<(), MemoError>(MemoError::IndexOutOfBounds { index, len: old(store)@.len() as usize })
            &&& final(store)@ == old(store)@
        },
        index < old(store)@.len() ==> r is Ok && final(store)@ == old(store)@.remove(index as int),
{
    let len = store.len();
    if index >= len {
        return Err(MemoError::IndexOutOfBounds { index, len });
    }
    store.remove(index);
    Ok(())
}

/// A store kept by `evicting_push` never exceeds its capacity, keeps its
/// entries in arrival order and always ends with the newest entry.
pub proof fn law_evicting_store_bounded<T>(s: Seq<T>, cap: nat, x: T)
    requires
        cap > 0,
        s.len() <= cap,
    ensures
        evicting_push(s, cap, x).len() <= cap,
        evicting_push(s, cap, x).last() == x,
        s.len() < cap ==> evicting_push(s, cap, x) == s.push(x),
        s.len() == cap ==> evicting_push(s, cap, x) == s.subrange(1, s.len() as int).push(x),
{
    if s.len() == cap {
        assert(s.drop_first() =~= s.subrange(1, s.len() as int));
    }
}

/// Once a store is within its capacity, evicting and retaining appends agree.
pub proof fn law_evicting_matches_retaining<T>(s: Seq<T>, cap: nat, x: T)
    requires
        cap > 0,
        s.len() <= cap,
    ensures
        evicting_push(s, cap, x) == retaining_push(s, cap, x),
{
    if s.len() == cap {
        assert(s.drop_first().push(x) =~= s.push(x).subrange(s.push(x).len() - cap, s.push(x).len() as int));
    }
}

} // verus!
