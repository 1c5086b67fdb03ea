//! The repaint-request debouncer: per-surface request counters, frame
//! numbers and wake signals for the host event loop.
//!
//! A wake signal is queued for every external request so a host blocked
//! waiting for input can be woken; the shared-context shell hands the
//! queue to the host callback right after each transaction.

use crate::dict::Dict;
use crate::ids::ViewportId;
use vstd::prelude::*;

verus! {

/// Information handed to the host when a repaint is requested.
#[derive(Clone, Copy, PartialEq, Eq, Structural, Debug)]
pub struct RequestRepaintInfo {
    /// Repaint after this many milliseconds; zero means as soon as possible.
    pub after_ms: u64,
    /// The frame number of the surface at the time of the request.
    pub current_frame_nr: u64,
    /// The surface to repaint.
    pub viewport_id: ViewportId,
}

/// The value of a counter map at a surface; absent surfaces count zero.
pub open spec fn spec_count(m: Map<u64, u64>, id: u64) -> u64 {
    if m.contains_key(id) {
        m[id]
    } else {
        0
    }
}

/// Counter map after an external repaint request: at least one pending.
pub open spec fn spec_after_request(m: Map<u64, u64>, id: u64) -> Map<u64, u64> {
    m.insert(
        id,
        if spec_count(m, id) >= 1 {
            spec_count(m, id)
        } else {
            1
        },
    )
}

/// Counter map after a settle request: exactly two frames owed.
pub open spec fn spec_after_settle(m: Map<u64, u64>, id: u64) -> Map<u64, u64> {
    m.insert(id, 2)
}

/// Counter map after `start_frame`: one owed frame consumed.
pub open spec fn spec_after_start(m: Map<u64, u64>, id: u64) -> Map<u64, u64> {
    if spec_count(m, id) > 0 {
        m.insert(id, (spec_count(m, id) - 1) as u64)
    } else {
        m
    }
}

/// Whether `start_frame` re-issues a request (more frames still owed).
pub open spec fn spec_start_reissues(m: Map<u64, u64>, id: u64) -> bool {
    spec_count(m, id) > 1
}

/// The missed-wake diagnostic counter after a request: it counts the
/// request when no callback is registered, saturating at its limit.
pub open spec fn spec_missed_after(missed: u64, callback_registered: bool) -> int {
    if callback_registered {
        missed as int
    } else if missed < u64::MAX {
        missed + 1
    } else {
        u64::MAX as int
    }
}

/// Per-surface repaint scheduling state.
pub struct Repaint {
    /// Frame number of each surface, advanced at `end_frame`.
    frame_nrs: Dict<u64>,
    /// While positive, more frames are owed; consumed at `start_frame`.
    requests: Dict<u64>,
    /// Whether a repaint had been pending when the last frame started.
    requested_last: Dict<bool>,
    /// Whether the host registered a wake callback.
    callback_registered: bool,
    /// Wake signals not yet delivered to the host.
    pending_wakes: Vec<RequestRepaintInfo>,
    /// Requests made while no wake callback was registered: a host
    /// configuration gap, counted so it can be surfaced as a diagnostic.
    missed_wakes: u64,
}

impl Repaint {
    pub open spec fn wf(self) -> bool {
        self.spec_frame_nrs_dict().wf() && self.spec_requests_dict().wf()
            && self.spec_requested_last_dict().wf()
    }

    pub closed spec fn spec_frame_nrs_dict(self) -> Dict<u64> {
        self.frame_nrs
    }

    pub closed spec fn spec_requests_dict(self) -> Dict<u64> {
        self.requests
    }

    pub closed spec fn spec_requested_last_dict(self) -> Dict<bool> {
        self.requested_last
    }

    /// The request counters, abstractly.
    pub open spec fn spec_requests(self) -> Map<u64, u64> {
        self.spec_requests_dict()@
    }

    /// The frame numbers, abstractly.
    pub open spec fn spec_frame_nrs(self) -> Map<u64, u64> {
        self.spec_frame_nrs_dict()@
    }

    /// The queued wake signals.
    pub closed spec fn spec_wakes(self) -> Seq<RequestRepaintInfo> {
        self.pending_wakes@
    }

    pub closed spec fn spec_callback_registered(self) -> bool {
        self.callback_registered
    }

    pub closed spec fn spec_requested_last(self, id: u64) -> bool {
        if self.spec_requested_last_dict()@.contains_key(id) {
            self.spec_requested_last_dict()@[id]
        } else {
            false
        }
    }

    pub fn new() -> (r: Repaint)
        ensures
            r.wf(),
            r.spec_requests() == Map::<u64, u64>::empty(),
            r.spec_frame_nrs() == Map::<u64, u64>::empty(),
            r.spec_wakes() == Seq::<RequestRepaintInfo>::empty(),
            !r.spec_callback_registered(),
            forall|id: u64| !(#[trigger] r.spec_requested_last(id)),
            r.spec_missed_wakes() == 0,
    {
        Repaint {
            frame_nrs: Dict::new(),
            requests: Dict::new(),
            requested_last: Dict::new(),
            callback_registered: false,
            pending_wakes: Vec::new(),
            missed_wakes: 0,
        }
    }

    /// Record that the host registered (or replaced) its wake callback.
    pub fn set_callback_registered(&mut self)
        requires
            old(self).wf(),
        ensures
            final(self).wf(),
            final(self).spec_callback_registered(),
            final(self).spec_requests() == old(self).spec_requests(),
            final(self).spec_frame_nrs() == old(self).spec_frame_nrs(),
            final(self).spec_wakes() == old(self).spec_wakes(),
    {
        self.callback_registered = true;
    }

    /// The current frame number of a surface; zero before its first frame.
    pub fn frame_nr_for(&self, id: u64) -> (r: u64)
        requires
            self.wf(),
        ensures
            r == spec_count(self.spec_frame_nrs(), id),
    {
        match self.frame_nrs.get(id) {
            Some(n) => *n,
            None => 0,
        }
    }

    /// Whether more repaints are owed to the surface.
    pub fn requested_repaint(&self, id: u64) -> (r: bool)
        requires
            self.wf(),
        ensures
            r == (spec_count(self.spec_requests(), id) > 0),
    {
        match self.requests.get(id) {
            Some(n) => *n > 0,
            None => false,
        }
    }

    /// Whether a repaint had been pending when the surface's last frame
    /// started.
    pub fn requested_repaint_last_frame(&self, id: u64) -> (r: bool)
        requires
            self.wf(),
        ensures
            r == self.spec_requested_last(id),
    {
        match self.requested_last.get(id) {
            Some(b) => *b,
            None => false,
        }
    }

    /// Request a repaint of the surface after at most `after_ms`.
    ///
    /// Ensures at least one more frame is owed and queues a wake signal
    /// for the host; without a registered callback the miss is counted
    /// instead.
    pub fn request_repaint_after(&mut self, after_ms: u64, id: u64)
        requires
            old(self).wf(),
        ensures
            final(self).wf(),
            final(self).spec_requests() == spec_after_request(old(self).spec_requests(), id),
            final(self).spec_frame_nrs() == old(self).spec_frame_nrs(),
            final(self).spec_callback_registered() == old(self).spec_callback_registered(),
            final(self).spec_requested_last_dict() == old(self).spec_requested_last_dict(),
            final(self).spec_missed_wakes() == spec_missed_after(
                old(self).spec_missed_wakes(),
                old(self).spec_callback_registered(),
            ),
            final(self).spec_wakes() == if old(self).spec_callback_registered() {
                old(self).spec_wakes().push(
                    RequestRepaintInfo {
                        after_ms,
                        current_frame_nr: spec_count(old(self).spec_frame_nrs(), id),
                        viewport_id: ViewportId(id),
                    },
                )
            } else {
                old(self).spec_wakes()
            },
    {
        let cur = match self.requests.get(id) {
            Some(n) => *n,
            None => 0,
        };
        let next = if cur >= 1 {
            cur
        } else {
            1
        };
        self.requests.insert(id, next);
        let frame_nr = self.frame_nr_for(id);
        if self.callback_registered {
            self.pending_wakes.push(
                RequestRepaintInfo { after_ms, current_frame_nr: frame_nr, viewport_id: ViewportId(id) },
            );
        } else {
            self.missed_wakes = if self.missed_wakes < u64::MAX {
                self.missed_wakes + 1
            } else {
                self.missed_wakes
            };
        }
    }

    /// Request an immediate repaint of the surface.
    pub fn request_repaint(&mut self, id: u64)
        requires
            old(self).wf(),
        ensures
            final(self).wf(),
            final(self).spec_requests() == spec_after_request(old(self).spec_requests(), id),
            final(self).spec_frame_nrs() == old(self).spec_frame_nrs(),
            final(self).spec_callback_registered() == old(self).spec_callback_registered(),
            final(self).spec_requested_last_dict() == old(self).spec_requested_last_dict(),
            final(self).spec_missed_wakes() == spec_missed_after(
                old(self).spec_missed_wakes(),
                old(self).spec_callback_registered(),
            ),
            final(self).spec_wakes() == if old(self).spec_callback_registered() {
                old(self).spec_wakes().push(
                    RequestRepaintInfo {
                        after_ms: 0,
                        current_frame_nr: spec_count(old(self).spec_frame_nrs(), id),
                        viewport_id: ViewportId(id),
                    },
                )
            } else {
                old(self).spec_wakes()
            },
    {
        self.request_repaint_after(0, id);
    }

    /// Owe the surface exactly two consecutive frames and request the
    /// first at once: one settling frame and the corrected frame after a
    /// global display-affecting change.
    pub fn request_repaint_settle(&mut self, id: u64)
        requires
            old(self).wf(),
        ensures
            final(self).wf(),
            final(self).spec_requests() == spec_after_settle(old(self).spec_requests(), id),
            spec_count(final(self).spec_requests(), id) == 2,
            final(self).spec_frame_nrs() == old(self).spec_frame_nrs(),
            final(self).spec_callback_registered() == old(self).spec_callback_registered(),
            final(self).spec_requested_last_dict() == old(self).spec_requested_last_dict(),
            final(self).spec_missed_wakes() == spec_missed_after(
                old(self).spec_missed_wakes(),
                old(self).spec_callback_registered(),
            ),
            final(self).spec_wakes() == if old(self).spec_callback_registered() {
                old(self).spec_wakes().push(
                    RequestRepaintInfo {
                        after_ms: 0,
                        current_frame_nr: spec_count(old(self).spec_frame_nrs(), id),
                        viewport_id: ViewportId(id),
                    },
                )
            } else {
                old(self).spec_wakes()
            },
    {
        self.requests.insert(id, 2);
        self.request_repaint(id);
        proof {
            assert(final(self).spec_requests() =~= spec_after_settle(old(self).spec_requests(), id));
        }
    }

    /// Start a frame of the surface: remember whether a repaint had been
    /// pending, consume one owed frame, and re-issue a request when more
    /// are still owed so multi-frame settles keep firing.
    pub fn start_frame(&mut self, id: u64)
        requires
            old(self).wf(),
        ensures
            final(self).wf(),
            final(self).spec_requests() == spec_after_start(old(self).spec_requests(), id),
            final(self).spec_frame_nrs() == old(self).spec_frame_nrs(),
            final(self).spec_callback_registered() == old(self).spec_callback_registered(),
            final(self).spec_requested_last(id) == (spec_count(old(self).spec_requests(), id) > 0),
            final(self).spec_missed_wakes() == if spec_start_reissues(
                old(self).spec_requests(),
                id,
            ) {
                spec_missed_after(
                    old(self).spec_missed_wakes(),
                    old(self).spec_callback_registered(),
                )
            } else {
                old(self).spec_missed_wakes() as int
            },
            final(self).spec_wakes() == if spec_start_reissues(old(self).spec_requests(), id) && old(self).spec_callback_registered() {
                old(self).spec_wakes().push(
                    RequestRepaintInfo {
                        after_ms: 0,
                        current_frame_nr: spec_count(old(self).spec_frame_nrs(), id),
                        viewport_id: ViewportId(id),
                    },
                )
            } else {
                old(self).spec_wakes()
            },
    {
        let cur = match self.requests.get(id) {
            Some(n) => *n,
            None => 0,
        };
        self.requested_last.insert(id, cur > 0);
        if cur > 0 {
            self.requests.insert(id, cur - 1);
            if cur - 1 > 0 {
                self.request_repaint(id);
                proof {
                    assert(final(self).spec_requests() =~= spec_after_start(
                        old(self).spec_requests(),
                        id,
                    ));
                }
            }
        }
    }

    /// End a frame of the surface: advance its frame number (wrapping at
    /// the numeric limit) and drop the counters of unreachable surfaces.
    pub fn end_frame(&mut self, id: u64, reachable: &Vec<u64>)
        requires
            old(self).wf(),
        ensures
            final(self).wf(),
            reachable@.contains(id) ==> spec_count(final(self).spec_frame_nrs(), id) == (
            if spec_count(old(self).spec_frame_nrs(), id) < u64::MAX {
                spec_count(old(self).spec_frame_nrs(), id) + 1
            } else {
                0
            }),
            forall|k: u64| #[trigger]
                final(self).spec_requests().contains_key(k) <==> old(self).spec_requests().contains_key(k) && reachable@.contains(k),
            forall|k: u64| #[trigger]
                final(self).spec_requests().contains_key(k) ==> final(self).spec_requests()[k]
                    == old(self).spec_requests()[k],
            ({
                let next: u64 = if spec_count(old(self).spec_frame_nrs(), id) < u64::MAX {
                    (spec_count(old(self).spec_frame_nrs(), id) + 1) as u64
                } else {
                    0
                };
                let mid = old(self).spec_frame_nrs().insert(id, next);
                &&& forall|k: u64| #[trigger]
                    final(self).spec_frame_nrs().contains_key(k) <==> mid.contains_key(k)
                        && reachable@.contains(k)
                &&& forall|k: u64| #[trigger]
                    final(self).spec_frame_nrs().contains_key(k) ==> final(self).spec_frame_nrs()[k]
                        == mid[k]
            }),
            forall|k: u64| #[trigger]
                final(self).spec_requested_last_dict()@.contains_key(k) <==> old(self).spec_requested_last_dict()@.contains_key(k) && reachable@.contains(k),
            forall|k: u64| #[trigger]
                final(self).spec_requested_last_dict()@.contains_key(k) ==> final(self).spec_requested_last_dict()@[k] == old(self).spec_requested_last_dict()@[k],
            final(self).spec_callback_registered() == old(self).spec_callback_registered(),
            final(self).spec_wakes() == old(self).spec_wakes(),
    {
        let cur = self.frame_nr_for(id);
        let next = if cur < u64::MAX {
            cur + 1
        } else {
            0
        };
        self.frame_nrs.insert(id, next);
        self.requested_last.retain_keys(reachable);
        self.frame_nrs.retain_keys(reachable);
        self.requests.retain_keys(reachable);
    }

    /// Hand the queued wake signals to the host.
    pub fn take_wakes(&mut self) -> (r: Vec<RequestRepaintInfo>)
        requires
            old(self).wf(),
        ensures
            final(self).wf(),
            r@ == old(self).spec_wakes(),
            final(self).spec_wakes() == Seq::<RequestRepaintInfo>::empty(),
            final(self).spec_requests() == old(self).spec_requests(),
            final(self).spec_frame_nrs() == old(self).spec_frame_nrs(),
            final(self).spec_callback_registered() == old(self).spec_callback_registered(),
            final(self).spec_requested_last_dict() == old(self).spec_requested_last_dict(),
    {
        let mut out: Vec<RequestRepaintInfo> = Vec::new();
        core::mem::swap(&mut out, &mut self.pending_wakes);
        out
    }

    /// How many repaint requests were made while no wake callback was
    /// registered.
    pub fn missed_wake_count(&self) -> (r: u64)
        ensures
            r == self.spec_missed_wakes(),
    {
        self.missed_wakes
    }

    pub closed spec fn spec_missed_wakes(self) -> u64 {
        self.missed_wakes
    }
}

/// After a settle request, the counter reads two; the first following
/// `start_frame` re-issues one request and leaves one frame owed; the
/// second re-issues none and leaves the counter at zero. So a settle
/// yields exactly one additional repaint beyond the first.
pub proof fn lemma_settle_decays(m: Map<u64, u64>, id: u64)
    ensures
        spec_count(spec_after_settle(m, id), id) == 2,
        spec_start_reissues(spec_after_settle(m, id), id),
        spec_count(spec_after_start(spec_after_settle(m, id), id), id) == 1,
        !spec_start_reissues(spec_after_start(spec_after_settle(m, id), id), id),
        spec_count(
            spec_after_start(spec_after_start(spec_after_settle(m, id), id), id),
            id,
        ) == 0,
{
}

} // verus!
