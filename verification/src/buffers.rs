//! The shared buffers between the notification path and the polling loop.
//!
//! The notification path appends decoded events; the polling loop drains.
//! The lock around a buffer is the caller's and is held only for the append
//! or the drain, never across a transport call. This module holds the drain
//! logic itself: snapshot-and-clear of the sensor buffer, and the ordered
//! hand-off of queued write requests.

use vstd::prelude::*;

use crate::codec::SensorSnapshot;
use crate::uuid::CoreCubeUuidName;

verus! {

/// A write queued by a notification handler for the polling loop to carry
/// out: when it was queued, which characteristic it goes to, and the frame.
#[derive(Debug)]
pub struct WriteRequest {
    pub time: u64,
    pub uuid: CoreCubeUuidName,
    pub data: Vec<u8>,
}

/// Takes the latest sensor snapshot and clears the buffer: the latest value
/// is authoritative and history is discarded once consumed.
pub fn take_latest_snapshot(buf: &mut Vec<SensorSnapshot>) -> (r: Option<SensorSnapshot>)
    ensures
        final(buf)@.len() == 0,
        old(buf)@.len() == 0 ==> r is None,
        old(buf)@.len() > 0 ==> r == Some(old(buf)@.last()),
{
    let r = buf.pop();
    buf.clear();
    r
}

/// Which queued requests the polling loop carries out, walking the queue in
/// order with a running high-water mark: a request is kept when it is newer
/// than every request carried out before it, and the mark advances to its
/// time. Returns the kept requests and the final mark.
pub open spec fn kept_requests(s: Seq<WriteRequest>, last: u64) -> (Seq<WriteRequest>, u64)
    decreases s.len(),
{
    if s.len() == 0 {
        (Seq::empty(), last)
    } else if s[0].time > last {
        let rest = kept_requests(s.drop_first(), s[0].time);
        (seq![s[0]] + rest.0, rest.1)
    } else {
        kept_requests(s.drop_first(), last)
    }
}

/// Empties the request queue and hands back, in order, the requests the
/// polling loop is to write, advancing the high-water mark past them.
pub fn drain_requests(requests: &mut Vec<WriteRequest>, last_request: &mut u64) -> (todo: Vec<
    WriteRequest,
>)
    ensures
        final(requests)@.len() == 0,
        ({
            let (k, l) = kept_requests(old(requests)@, *old(last_request));
            todo@ == k && *final(last_request) == l
        }),
{
    let ghost orig = requests@;
    let ghost last0 = *last_request;
    let mut todo: Vec<WriteRequest> = Vec::new();
    proof {
        assert(todo@ + kept_requests(requests@, *last_request).0 =~= kept_requests(
            orig,
            last0,
        ).0);
    }
    while requests.len() > 0
        invariant
            kept_requests(orig, last0).0 == todo@ + kept_requests(requests@, *last_request).0,
            kept_requests(orig, last0).1 == kept_requests(requests@, *last_request).1,
        decreases requests@.len(),
    {
        let ghost pre = requests@;
        let ghost mark = *last_request;
        let r = requests.remove(0);
        proof {
            assert(requests@ =~= pre.drop_first());
        }
        if r.time > *last_request {
            *last_request = r.time;
            todo.push(r);
            proof {
                assert(todo@ + kept_requests(requests@, *last_request).0 =~= kept_requests(
                    orig,
                    last0,
                ).0);
            }
        }
    }
    proof {
        assert(todo@ =~= kept_requests(orig, last0).0);
    }
    todo
}

} // verus!
