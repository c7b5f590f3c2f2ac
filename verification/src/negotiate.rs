//! Choice of the buffer layout among the compositor's offers.

use crate::descriptor::{BufferDescriptor, BufferKind};
use crate::error::FrameCaptureError;
use vstd::prelude::*;

verus! {

/// Whether any of the offers is a shared-memory buffer.
pub open spec fn has_shared(offers: Seq<BufferDescriptor>) -> bool {
    exists|i: int| 0 <= i < offers.len() && (#[trigger] offers[i]).kind == BufferKind::SharedMemory
}

/// Whether offer `i` is a shared-memory buffer and none before it is.
pub open spec fn is_first_shared(offers: Seq<BufferDescriptor>, i: int) -> bool {
    &&& 0 <= i < offers.len()
    &&& offers[i].kind == BufferKind::SharedMemory
    &&& forall|j: int| 0 <= j < i ==> (#[trigger] offers[j]).kind != BufferKind::SharedMemory
}

/// The offer the session settles on: the first shared-memory one in the
/// order of arrival, if there is any.
pub open spec fn selection(offers: Seq<BufferDescriptor>) -> Option<BufferDescriptor> {
    if has_shared(offers) {
        Some(offers[choose|i: int| is_first_shared(offers, i)])
    } else {
        None
    }
}

/// At most one offer is the first shared-memory one, and it is the selection.
pub proof fn first_shared_is_selected(offers: Seq<BufferDescriptor>, i: int)
    requires
        is_first_shared(offers, i),
    ensures
        has_shared(offers),
        selection(offers) == Some(offers[i]),
{
    let k = choose|k: int| is_first_shared(offers, k);
    assert(is_first_shared(offers, k));
    if k < i {
        assert(offers[k].kind != BufferKind::SharedMemory);
    }
    if i < k {
        assert(offers[i].kind != BufferKind::SharedMemory);
    }
}

/// Whenever a shared-memory offer is present, some offer is the first such.
pub proof fn shared_has_first(offers: Seq<BufferDescriptor>) -> (i: int)
    requires
        has_shared(offers),
    ensures
        is_first_shared(offers, i),
{
    let w = choose|i: int| 0 <= i < offers.len() && (#[trigger] offers[i]).kind
        == BufferKind::SharedMemory;
    least_shared_upto(offers, w)
}

proof fn least_shared_upto(offers: Seq<BufferDescriptor>, w: int) -> (i: int)
    requires
        0 <= w < offers.len(),
        offers[w].kind == BufferKind::SharedMemory,
    ensures
        is_first_shared(offers, i),
        i <= w,
    decreases w,
{
    if exists|j: int| 0 <= j < w && (#[trigger] offers[j]).kind == BufferKind::SharedMemory {
        let j = choose|j: int| 0 <= j < w && (#[trigger] offers[j]).kind
            == BufferKind::SharedMemory;
        least_shared_upto(offers, j)
    } else {
        w
    }
}

/// Selection picks the first shared-memory offer in arrival order: a
/// shared-memory buffer that no shared-memory offer precedes. Offers that
/// are no shared-memory buffers yield no selection.
pub proof fn selection_is_first_match(offers: Seq<BufferDescriptor>)
    ensures
        has_shared(offers) ==> exists|i: int| #[trigger]
            is_first_shared(offers, i) && selection(offers) == Some(offers[i]),
        !has_shared(offers) ==> selection(offers).is_none(),
{
    if has_shared(offers) {
        let i = shared_has_first(offers);
        first_shared_is_selected(offers, i);
    }
}

/// Offers that arrive after a shared-memory one do not change the selection.
pub proof fn selection_ignores_later_offers(
    offers: Seq<BufferDescriptor>,
    later: Seq<BufferDescriptor>,
)
    requires
        has_shared(offers),
    ensures
        selection(offers + later) == selection(offers),
{
    let i = shared_has_first(offers);
    first_shared_is_selected(offers, i);
    let all = offers + later;
    assert(all[i] == offers[i]);
    assert forall|j: int| 0 <= j < i implies (#[trigger] all[j]).kind
        != BufferKind::SharedMemory by {
        assert(all[j] == offers[j]);
    }
    first_shared_is_selected(all, i);
}

/// Offers that hold no shared-memory buffer can be dropped from the front
/// of a run of offers without changing the selection.
pub proof fn selection_skips_foreign_offers(
    foreign: Seq<BufferDescriptor>,
    offers: Seq<BufferDescriptor>,
)
    requires
        !has_shared(foreign),
    ensures
        selection(foreign + offers) == selection(offers),
{
    let all = foreign + offers;
    if has_shared(offers) {
        let i = shared_has_first(offers);
        first_shared_is_selected(offers, i);
        let k = foreign.len() + i;
        assert(all[k] == offers[i]);
        assert forall|j: int| 0 <= j < k implies (#[trigger] all[j]).kind
            != BufferKind::SharedMemory by {
            if j < foreign.len() {
                assert(all[j] == foreign[j]);
            } else {
                assert(all[j] == offers[j - foreign.len()]);
            }
        }
        first_shared_is_selected(all, k);
    } else {
        if has_shared(all) {
            let w = choose|i: int| 0 <= i < all.len() && (#[trigger] all[i]).kind
                == BufferKind::SharedMemory;
            if w < foreign.len() {
                assert(foreign[w] == all[w]);
            } else {
                assert(offers[w - foreign.len()] == all[w]);
            }
        }
    }
}

/// Settles on one of the offers: the first shared-memory buffer, in the order
/// of arrival. Fails with `UnsupportedBufferKind` exactly when no offer is a
/// shared-memory buffer.
pub fn select_descriptor(offers: &Vec<BufferDescriptor>) -> (r: Result<
    BufferDescriptor,
    FrameCaptureError,
>)
    ensures
        r == match selection(offers@) {
            Some(d) => Ok::<BufferDescriptor, FrameCaptureError>(d),
            None => Err::<BufferDescriptor, FrameCaptureError>(
                FrameCaptureError::UnsupportedBufferKind,
            ),
        },
        r.is_ok() <==> has_shared(offers@),
{
    let mut i: usize = 0;
    while i < offers.len()
        invariant
            i <= offers.len(),
            forall|j: int| 0 <= j < i ==> (#[trigger] offers@[j]).kind != BufferKind::SharedMemory,
        decreases offers.len() - i,
    {
        let d = offers[i];
        if d.kind == BufferKind::SharedMemory {
            proof {
                first_shared_is_selected(offers@, i as int);
            }
            return Ok(d);
        }
        i += 1;
    }
    Err(FrameCaptureError::UnsupportedBufferKind)
}

} // verus!
