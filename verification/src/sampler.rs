//! The FPS sampler: a frame counter in `[0, 60)` that wraps to zero on
//! reaching sixty and, exactly then, emits a freshly formatted label from
//! the rate the host environment measured.

use vstd::prelude::*;

verus! {

use crate::label::{fps_label, fps_label_spec};

/// How many frames pass between two label refreshes.
pub const FRAMES_PER_REFRESH: u8 = 60;

/// The counter value one frame after `c`: incremented, wrapping to zero
/// on reaching the refresh boundary.
pub open spec fn next_counter(c: u8) -> u8 {
    if c + 1 >= FRAMES_PER_REFRESH {
        0
    } else {
        (c + 1) as u8
    }
}

/// Whether the frame taken at counter value `c` is a refresh boundary.
pub open spec fn refreshes(c: u8) -> bool {
    c + 1 >= FRAMES_PER_REFRESH
}

/// The counter value `k` frames after `start`.
pub open spec fn counter_after(start: u8, k: nat) -> u8
    decreases k,
{
    if k == 0 {
        start
    } else {
        next_counter(counter_after(start, (k - 1) as nat))
    }
}

/// One frame of the sampler: the incremented (wrapped) counter, and the
/// new label exactly when this frame was a refresh boundary.
pub fn tick(counter: u8, fps_hundredths: u32) -> (r: (u8, Option<String>))
    requires
        counter < FRAMES_PER_REFRESH,
    ensures
        r.0 == next_counter(counter),
        r.0 < FRAMES_PER_REFRESH,
        refreshes(counter) ==> (r.1 matches Some(l) && l@ == fps_label_spec(
            fps_hundredths as nat,
        )),
        !refreshes(counter) ==> r.1 is None,
{
    let next: u8 = counter + 1;
    if next >= FRAMES_PER_REFRESH {
        (0, Some(fps_label(fps_hundredths)))
    } else {
        (next, None)
    }
}

proof fn lemma_counter_counts_up(k: nat)
    requires
        k < FRAMES_PER_REFRESH,
    ensures
        counter_after(0, k) == k,
    decreases k,
{
    if k > 0 {
        lemma_counter_counts_up((k - 1) as nat);
    }
}

/// Sixty consecutive frames from a zero counter bring it back to zero,
/// and exactly one of them is a refresh boundary: the last. The frame
/// numbered `k` (counting from zero) runs at counter `counter_after(0, k)`.
pub proof fn lemma_counter_wraps()
    ensures
        counter_after(0, FRAMES_PER_REFRESH as nat) == 0,
        forall|k: nat|
            k < FRAMES_PER_REFRESH ==> (refreshes(#[trigger] counter_after(0, k)) <==> k
                == FRAMES_PER_REFRESH - 1),
{
    assert forall|k: nat|
        k < FRAMES_PER_REFRESH implies (refreshes(#[trigger] counter_after(0, k)) <==> k
        == FRAMES_PER_REFRESH - 1) by {
        lemma_counter_counts_up(k);
    }
    lemma_counter_counts_up((FRAMES_PER_REFRESH - 1) as nat);
}

} // verus!
