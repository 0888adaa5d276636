//! The multi-producer, single-consumer commit protocol of the magic ring
//! buffer, as decisions on observed offsets and as a model of its states.
//!
//! Three offsets drive the ring: `writer` (the next byte a producer will
//! claim), `unread` (the commit frontier: `[read, unread)` is published) and
//! `read` (the consumer's cursor). A producer claims `[start, end)` by
//! advancing `writer`, waits until the consumer has freed room for it, copies
//! its bytes, then commits by moving `unread` from `start` to `end`; it can
//! only do so once every earlier claim has committed.

use vstd::prelude::*;

verus! {

/// The three offsets of a magic ring buffer at one instant.
#[derive(Clone, Copy, Debug, PartialEq, Eq, Structural)]
pub struct RingOffsets {
    /// The next byte a newly arriving producer will claim.
    pub writer: u64,
    /// The commit frontier.
    pub unread: u64,
    /// The consumer's cursor.
    pub read: u64,
}

/// `read ≤ unread ≤ writer`.
pub open spec fn offsets_ordered(s: RingOffsets) -> bool {
    s.read <= s.unread <= s.writer
}

/// The published bytes fit in the buffer: `unread − read ≤ N`.
pub open spec fn published_within_buffer(s: RingOffsets, buffer_size: u64) -> bool {
    s.unread - s.read <= buffer_size
}

/// The back-pressure test a producer whose claim ends at `claim_end` makes
/// on observing `unread` and `read`: the room left by the published but
/// unread bytes, `N − (unread − read)`, covers what is in flight up to the
/// end of its claim, `claim_end − unread`.
pub open spec fn space_for_claim(unread: u64, read: u64, claim_end: u64, buffer_size: u64) -> bool {
    &&& read <= unread <= claim_end
    &&& unread - read <= buffer_size
    &&& buffer_size - (unread - read) >= claim_end - unread
}

/// The offsets after a producer claims `amount` bytes at `writer`.
pub open spec fn claimed(s: RingOffsets, amount: u64) -> RingOffsets {
    RingOffsets { writer: (s.writer + amount) as u64, ..s }
}

/// The offsets after the claim `[start, end)` commits; it may only do so
/// when `unread == start`.
pub open spec fn committed(s: RingOffsets, end: u64) -> RingOffsets {
    RingOffsets { unread: end, ..s }
}

/// The offsets after the consumer reports `consumed` bytes read.
pub open spec fn consumed(s: RingOffsets, amount: u64) -> RingOffsets {
    RingOffsets { read: (s.read + amount) as u64, ..s }
}

/// The offsets after recovery: claims not yet committed are dropped.
pub open spec fn recovered(s: RingOffsets) -> RingOffsets {
    RingOffsets { writer: s.unread, ..s }
}

/// Decides the back-pressure test of [`space_for_claim`] on observed offsets.
pub fn has_space_for_claim(unread: u64, read: u64, claim_end: u64, buffer_size: u64) -> (r: bool)
    ensures
        r == space_for_claim(unread, read, claim_end, buffer_size),
{
    read <= unread && unread <= claim_end && unread - read <= buffer_size
        && buffer_size - (unread - read) >= claim_end - unread
}

/// The number of published bytes the consumer may read on observing
/// `unread` and `read`, never more than the buffer size.
pub fn readable_bytes(unread: u64, read: u64, buffer_size: u64) -> (r: u64)
    ensures
        r == readable_bytes_spec(unread, read, buffer_size),
        r <= buffer_size,
{
    if read > unread {
        0
    } else if unread - read > buffer_size {
        buffer_size
    } else {
        unread - read
    }
}

/// The published bytes between observed `unread` and `read`, clamped to
/// the buffer size; none when the observations are out of order.
pub open spec fn readable_bytes_spec(unread: u64, read: u64, buffer_size: u64) -> u64 {
    if read > unread {
        0
    } else if unread - read > buffer_size {
        buffer_size
    } else {
        (unread - read) as u64
    }
}

/// A claim is made at the current `writer`, so a claim keeps the offsets
/// ordered.
pub proof fn lemma_claim_keeps_order(s: RingOffsets, amount: u64)
    requires
        offsets_ordered(s),
        s.writer + amount <= u64::MAX,
    ensures
        offsets_ordered(claimed(s, amount)),
        claimed(s, amount).writer == s.writer + amount,
{
}

/// A commit moves `unread` from the claim's start to its end, never past
/// `writer`, so it keeps the offsets ordered; and a claim that passed the
/// back-pressure test on offsets observed earlier (the consumer has only
/// moved on since) leaves the published bytes within the buffer.
pub proof fn lemma_commit_keeps_order(s: RingOffsets, start: u64, end: u64, buffer_size: u64, observed_unread: u64, observed_read: u64)
    requires
        offsets_ordered(s),
        s.unread == start,
        start <= end <= s.writer,
        space_for_claim(observed_unread, observed_read, end, buffer_size),
        observed_read <= s.read,
    ensures
        offsets_ordered(committed(s, end)),
        published_within_buffer(committed(s, end), buffer_size),
        end - s.read <= buffer_size,
{
}

/// The consumer reads at most what is published, so consuming keeps the
/// offsets ordered and the published bytes within the buffer.
pub proof fn lemma_consume_keeps_order(s: RingOffsets, amount: u64, buffer_size: u64)
    requires
        offsets_ordered(s),
        published_within_buffer(s, buffer_size),
        amount <= s.unread - s.read,
    ensures
        offsets_ordered(consumed(s, amount)),
        published_within_buffer(consumed(s, amount), buffer_size),
{
}

/// Recovery sets `writer` to `unread`, which keeps the offsets ordered and
/// leaves `writer − read ≤ N` whenever the published bytes fit.
pub proof fn lemma_recovery_keeps_order(s: RingOffsets, buffer_size: u64)
    requires
        offsets_ordered(s),
        published_within_buffer(s, buffer_size),
    ensures
        offsets_ordered(recovered(s)),
        recovered(s).writer == recovered(s).unread,
        recovered(s).writer - recovered(s).read <= buffer_size,
{
}

/// Applying recovery twice is the same as applying it once.
pub proof fn lemma_recovery_idempotent(s: RingOffsets)
    ensures
        recovered(recovered(s)) == recovered(s),
{
}

/// A claim that passed the back-pressure test lies within one buffer length
/// of the consumer's cursor: `claim_end − read ≤ N`. So the bytes it writes
/// never overlap bytes the consumer has yet to read.
pub proof fn lemma_admitted_claim_within_buffer(unread: u64, read: u64, claim_start: u64, claim_end: u64, buffer_size: u64)
    requires
        space_for_claim(unread, read, claim_end, buffer_size),
        unread <= claim_start <= claim_end,
    ensures
        claim_end - read <= buffer_size,
        read <= claim_start,
{
}

/// Claims made one after another, `[starts[i], starts[i + 1])`, each of at
/// least one byte. The frontier `unread` starts at `starts[0]`.
pub open spec fn successive_claims(starts: Seq<u64>) -> bool {
    forall|i: int| 0 <= i < starts.len() - 1 ==> #[trigger] starts[i] < starts[i + 1]
}

/// Applies commits of the claims `order[0]`, `order[1]`, ... in turn to a
/// frontier at `unread`; `None` once one of them is attempted while the
/// frontier is not at its start (its compare-and-exchange fails).
pub open spec fn apply_commits(starts: Seq<u64>, order: Seq<int>, unread: u64) -> Option<u64>
    decreases order.len(),
{
    if order.len() == 0 {
        Some(unread)
    } else {
        let c = order[0];
        if 0 <= c < starts.len() - 1 && starts[c] == unread {
            apply_commits(starts, order.drop_first(), starts[c + 1])
        } else {
            None
        }
    }
}

/// Commits are serialised in claim order with no holes: from the frontier at
/// the first claim's start, a run of commits all succeed exactly when they
/// are of the claims in the order in which they were claimed, and the
/// frontier then stands at the end of the last of them.
pub proof fn lemma_commits_in_claim_order(starts: Seq<u64>, order: Seq<int>, first: int)
    requires
        successive_claims(starts),
        0 <= first,
        first + order.len() < starts.len(),
    ensures
        apply_commits(starts, order, starts[first]) is Some
            <==> (forall|j: int| 0 <= j < order.len() ==> #[trigger] order[j] == first + j),
        apply_commits(starts, order, starts[first]) is Some
            ==> apply_commits(starts, order, starts[first]) == Some(starts[first + order.len()]),
    decreases order.len(),
{
    if order.len() > 0 {
        let c = order[0];
        if 0 <= c < starts.len() - 1 && starts[c] == starts[first] {
            lemma_successive_claims_distinct(starts, c, first);
            lemma_commits_in_claim_order(starts, order.drop_first(), first + 1);
            if apply_commits(starts, order, starts[first]) is Some {
                assert forall|j: int| 0 <= j < order.len() implies #[trigger] order[j] == first + j by {
                    if j > 0 {
                        assert(order.drop_first()[j - 1] == order[j]);
                    }
                }
            }
            if forall|j: int| 0 <= j < order.len() ==> #[trigger] order[j] == first + j {
                assert forall|j: int| 0 <= j < order.drop_first().len() implies #[trigger] order.drop_first()[j] == first + 1 + j by {
                    assert(order[j + 1] == first + (j + 1));
                }
            }
        } else {
            if forall|j: int| 0 <= j < order.len() ==> #[trigger] order[j] == first + j {
                assert(order[0] == first + 0);
            }
        }
    }
}

/// Starts of successive claims are strictly increasing, so each start names
/// one claim.
pub proof fn lemma_successive_claims_distinct(starts: Seq<u64>, i: int, j: int)
    requires
        successive_claims(starts),
        0 <= i < starts.len(),
        0 <= j < starts.len(),
        starts[i] == starts[j],
    ensures
        i == j,
    decreases if i < j { j - i } else { i - j },
{
    if i < j {
        lemma_successive_claims_increase(starts, i, j);
    } else if j < i {
        lemma_successive_claims_increase(starts, j, i);
    }
}

/// Starts of successive claims are strictly increasing.
pub proof fn lemma_successive_claims_increase(starts: Seq<u64>, i: int, j: int)
    requires
        successive_claims(starts),
        0 <= i < j < starts.len(),
    ensures
        starts[i] < starts[j],
    decreases j - i,
{
    assert(starts[j - 1] < starts[j]);
    if i < j - 1 {
        lemma_successive_claims_increase(starts, i, j - 1);
    }
}

/// One event in the life of a magic ring buffer.
#[derive(Clone, Copy, Debug, PartialEq, Eq, Structural)]
pub enum RingEvent {
    /// A producer claims `amount` bytes at `writer`.
    Claim { amount: u64 },
    /// The claim `[start, end)` commits.
    Commit { start: u64, end: u64 },
    /// The consumer reports `amount` bytes read.
    Consume { amount: u64 },
    /// Claims not yet committed are dropped.
    Recover,
}

/// Whether `event` can happen in state `s` of a ring of `buffer_size`
/// bytes: a claim is of at most `N` bytes; a commit is of a claim below
/// `writer` whose start the frontier has reached, and which passed the
/// back-pressure test (so, since the consumer only moves on, it still ends
/// within `N` of `read`); the consumer reads only published bytes.
pub open spec fn event_allowed(s: RingOffsets, event: RingEvent, buffer_size: u64) -> bool {
    match event {
        RingEvent::Claim { amount } => amount <= buffer_size && s.writer + amount <= u64::MAX,
        RingEvent::Commit { start, end } => s.unread == start && start <= end <= s.writer && end - s.read <= buffer_size,
        RingEvent::Consume { amount } => amount <= s.unread - s.read,
        RingEvent::Recover => true,
    }
}

/// The state after `event`.
pub open spec fn after_event(s: RingOffsets, event: RingEvent) -> RingOffsets {
    match event {
        RingEvent::Claim { amount } => claimed(s, amount),
        RingEvent::Commit { start, end } => committed(s, end),
        RingEvent::Consume { amount } => consumed(s, amount),
        RingEvent::Recover => recovered(s),
    }
}

/// The state after `events` in turn from `s`; `None` if one of them cannot
/// happen when its turn comes.
pub open spec fn after_events(s: RingOffsets, events: Seq<RingEvent>, buffer_size: u64) -> Option<RingOffsets>
    decreases events.len(),
{
    if events.len() == 0 {
        Some(s)
    } else if event_allowed(s, events[0], buffer_size) {
        after_events(after_event(s, events[0]), events.drop_first(), buffer_size)
    } else {
        None
    }
}

/// A new ring, with all three offsets at zero.
pub open spec fn new_ring() -> RingOffsets {
    RingOffsets { writer: 0, unread: 0, read: 0 }
}

/// Throughout a ring's life, `read ≤ unread ≤ writer` and the published
/// bytes fit in the buffer, `unread − read ≤ N`; `read` and `unread` never
/// move back.
pub proof fn lemma_offsets_invariant_throughout(s: RingOffsets, events: Seq<RingEvent>, buffer_size: u64)
    requires
        offsets_ordered(s),
        published_within_buffer(s, buffer_size),
    ensures
        after_events(s, events, buffer_size) matches Some(t) ==> {
            &&& offsets_ordered(t)
            &&& published_within_buffer(t, buffer_size)
            &&& s.read <= t.read
            &&& s.unread <= t.unread
        },
    decreases events.len(),
{
    if events.len() > 0 && event_allowed(s, events[0], buffer_size) {
        let next = after_event(s, events[0]);
        match events[0] {
            RingEvent::Claim { amount } => lemma_claim_keeps_order(s, amount),
            RingEvent::Commit { start, end } => {},
            RingEvent::Consume { amount } => lemma_consume_keeps_order(s, amount, buffer_size),
            RingEvent::Recover => lemma_recovery_keeps_order(s, buffer_size),
        }
        lemma_offsets_invariant_throughout(next, events.drop_first(), buffer_size);
    }
}

/// In particular, from a new ring.
pub proof fn lemma_new_ring_offsets_invariant(events: Seq<RingEvent>, buffer_size: u64)
    ensures
        after_events(new_ring(), events, buffer_size) matches Some(t) ==> {
            &&& offsets_ordered(t)
            &&& published_within_buffer(t, buffer_size)
        },
{
    lemma_offsets_invariant_throughout(new_ring(), events, buffer_size);
}

} // verus!
