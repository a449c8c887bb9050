//! When a window should be drawn next.
use vstd::prelude::*;
use crate::time::{compare_nat, Instant};
use vstd::std_specs::cmp::PartialOrdSpec;

verus! {

/// A request to redraw a window.
///
/// `NextFrame` comes before every `At`, and `At` values are ordered by their
/// instants, so the minimum of many pending requests is the most urgent one.
#[derive(Debug, Clone, Copy, PartialEq, Eq, Structural, Ord)]
pub enum RedrawRequest {
    /// Redraw the next frame.
    NextFrame,
    /// Redraw at the given time.
    At(Instant),
}

/// The rank of a request: the next frame before any instant, instants in
/// their own order.
pub open spec fn urgency(r: RedrawRequest) -> int {
    match r {
        RedrawRequest::NextFrame => -1,
        RedrawRequest::At(t) => t.nanos as int,
    }
}

impl PartialOrd for RedrawRequest {
    fn partial_cmp(&self, other: &RedrawRequest) -> (r: Option<core::cmp::Ordering>)
        ensures
            r == Some(compare_nat(urgency(*self), urgency(*other))),
    {
        match (self, other) {
            (RedrawRequest::NextFrame, RedrawRequest::NextFrame) => Some(core::cmp::Ordering::Equal),
            (RedrawRequest::NextFrame, RedrawRequest::At(_)) => Some(core::cmp::Ordering::Less),
            (RedrawRequest::At(_), RedrawRequest::NextFrame) => Some(core::cmp::Ordering::Greater),
            (RedrawRequest::At(a), RedrawRequest::At(b)) => a.partial_cmp(b),
        }
    }
}

/// The more urgent of two requests; the first where they are equal.
pub open spec fn earlier_of(a: RedrawRequest, b: RedrawRequest) -> RedrawRequest {
    if urgency(b) < urgency(a) {
        b
    } else {
        a
    }
}

/// The most urgent request of a sequence, `None` for an empty one.
pub open spec fn earliest_of(requests: Seq<RedrawRequest>) -> Option<RedrawRequest>
    decreases requests.len(),
{
    if requests.len() == 0 {
        None
    } else {
        match earliest_of(requests.drop_last()) {
            None => Some(requests.last()),
            Some(m) => Some(earlier_of(m, requests.last())),
        }
    }
}

impl RedrawRequest {
    /// The more urgent of the two requests.
    pub fn earlier(self, other: RedrawRequest) -> (r: RedrawRequest)
        ensures
            r == earlier_of(self, other),
    {
        let later_than_other = match (self, other) {
            (RedrawRequest::NextFrame, _) => false,
            (RedrawRequest::At(_), RedrawRequest::NextFrame) => true,
            (RedrawRequest::At(a), RedrawRequest::At(b)) => b.nanos < a.nanos,
        };
        if later_than_other {
            other
        } else {
            self
        }
    }

    /// Merges pending requests into the single most urgent one; `None` where
    /// there are none.
    pub fn earliest(requests: &[RedrawRequest]) -> (r: Option<RedrawRequest>)
        ensures
            r == earliest_of(requests@),
            r is None <==> requests@.len() == 0,
            r matches Some(m) ==> requests@.contains(m) && forall|i: int|
                0 <= i < requests@.len() ==> urgency(m) <= urgency(#[trigger] requests@[i]),
    {
        let mut best: Option<RedrawRequest> = None;
        let mut i: usize = 0;
        while i < requests.len()
            invariant
                i <= requests@.len(),
                best == earliest_of(requests@.subrange(0, i as int)),
            decreases requests@.len() - i,
        {
            proof {
                assert(requests@.subrange(0, i + 1).drop_last() =~= requests@.subrange(0, i as int));
            }
            best = match best {
                None => Some(requests[i]),
                Some(m) => Some(m.earlier(requests[i])),
            };
            i = i + 1;
        }
        proof {
            assert(requests@.subrange(0, requests@.len() as int) =~= requests@);
            lemma_earliest_is_minimum(requests@);
        }
        best
    }
}

/// The merged request is one of the requests, and none of them is more
/// urgent than it.
pub proof fn lemma_earliest_is_minimum(requests: Seq<RedrawRequest>)
    ensures
        earliest_of(requests) is None <==> requests.len() == 0,
        earliest_of(requests) matches Some(m) ==> requests.contains(m) && forall|i: int|
            0 <= i < requests.len() ==> urgency(m) <= urgency(#[trigger] requests[i]),
    decreases requests.len(),
{
    if requests.len() > 0 {
        let front = requests.drop_last();
        lemma_earliest_is_minimum(front);
        match earliest_of(front) {
            None => {
                assert(requests[requests.len() - 1] == requests.last());
            },
            Some(m) => {
                let k = choose|k: int| 0 <= k < front.len() && front[k] == m;
                assert(requests[k] == m);
                assert(requests[requests.len() - 1] == requests.last());
                assert forall|i: int| 0 <= i < requests.len() implies urgency(
                    earlier_of(m, requests.last()),
                ) <= urgency(#[trigger] requests[i]) by {
                    if i < front.len() {
                        assert(requests[i] == front[i]);
                    }
                }
            },
        }
    }
}

/// `NextFrame` comes before every `At`.
pub proof fn lemma_next_frame_first(t: Instant)
    ensures
        RedrawRequest::NextFrame.partial_cmp_spec(&RedrawRequest::At(t)) == Some(
            core::cmp::Ordering::Less,
        ),
        RedrawRequest::At(t).partial_cmp_spec(&RedrawRequest::NextFrame) == Some(
            core::cmp::Ordering::Greater,
        ),
{
}

/// `At` requests are ordered as their instants are.
pub proof fn lemma_at_follows_instants(t1: Instant, t2: Instant)
    ensures
        RedrawRequest::At(t1).partial_cmp_spec(&RedrawRequest::At(t2)) == t1.partial_cmp_spec(&t2),
        RedrawRequest::At(t1).partial_cmp_spec(&RedrawRequest::At(t2)) == Some(
            core::cmp::Ordering::Less,
        ) <==> t1.nanos < t2.nanos,
{
}

/// The order is a strict total order: of two requests exactly one is less,
/// equal or greater, equality is that of the values, and it is transitive.
pub proof fn lemma_total_order(a: RedrawRequest, b: RedrawRequest, c: RedrawRequest)
    ensures
        a.partial_cmp_spec(&b) is Some,
        (a.partial_cmp_spec(&b) == Some(core::cmp::Ordering::Equal)) <==> a == b,
        (a.partial_cmp_spec(&b) == Some(core::cmp::Ordering::Less)) <==> (b.partial_cmp_spec(&a)
            == Some(core::cmp::Ordering::Greater)),
        a.partial_cmp_spec(&b) == Some(core::cmp::Ordering::Less) && b.partial_cmp_spec(&c)
            == Some(core::cmp::Ordering::Less) ==> a.partial_cmp_spec(&c) == Some(
            core::cmp::Ordering::Less,
        ),
{
}

/// Wherever a `NextFrame` is pending, merging yields `NextFrame`.
pub proof fn lemma_next_frame_wins(requests: Seq<RedrawRequest>)
    requires
        requests.contains(RedrawRequest::NextFrame),
    ensures
        earliest_of(requests) == Some(RedrawRequest::NextFrame),
{
    lemma_earliest_is_minimum(requests);
    let k = choose|k: int| 0 <= k < requests.len() && requests[k] == RedrawRequest::NextFrame;
    let m = earliest_of(requests)->0;
    assert(urgency(m) <= urgency(requests[k]));
}

impl vstd::std_specs::cmp::PartialOrdSpecImpl for RedrawRequest {
    open spec fn obeys_partial_cmp_spec() -> bool {
        true
    }

    open spec fn partial_cmp_spec(&self, other: &RedrawRequest) -> Option<core::cmp::Ordering> {
        Some(compare_nat(urgency(*self), urgency(*other)))
    }
}

} // verus!
