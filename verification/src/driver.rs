use vstd::prelude::*;

use crate::image::{Image, Resolution};
use crate::vector_bits::VectorBits;

verus! {

/// The render driver's core: one render invocation's shared state.
///
/// The application layer runs the worker pool, the progress task and
/// the cancellation watcher; all of them act on one `RenderTracker`
/// behind a lock. Every transition of that state — a finished pixel
/// landing in the buffer, the processed-pixel count, the move from
/// running to cancelled or completed — is made through the verified
/// methods here, so the buffer can never be torn: a write changes
/// exactly one slot and no slot twice, the processed-pixel count is
/// exactly the number of written slots, cancellation keeps every
/// already-written pixel, and the terminal phases are final.

/// The per-invocation state machine: `Running` until either the
/// cancel signal or the last pixel moves it to a terminal phase.
#[derive(Clone, Copy, PartialEq, Eq, Structural, Debug)]
pub enum RenderPhase {
    Running,
    Cancelled,
    Completed,
}

/// What can move the phase forward.
#[derive(Clone, Copy, PartialEq, Eq, Structural, Debug)]
pub enum RenderEvent {
    /// The caller's cancel token was observed set.
    CancelSignalled,
    /// Every pixel of the grid has been written.
    AllPixelsDone,
}

/// The phase transition relation: a running render is cancelled or
/// completed by the matching event; the terminal phases absorb
/// everything.
pub open spec fn spec_phase_step(phase: RenderPhase, event: RenderEvent) -> RenderPhase {
    match phase {
        RenderPhase::Running => match event {
            RenderEvent::CancelSignalled => RenderPhase::Cancelled,
            RenderEvent::AllPixelsDone => RenderPhase::Completed,
        },
        _ => phase,
    }
}

/// Once a render is cancelled or completed it stays so: no event
/// leaves a terminal phase.
pub proof fn lemma_terminal_phase_is_final(phase: RenderPhase, event: RenderEvent)
    ensures
        !(phase is Running) ==> spec_phase_step(phase, event) == phase,
{
}

/// How many slots of the write ledger are marked written.
pub open spec fn spec_written_count(s: Seq<bool>) -> int
    decreases s.len(),
{
    if s.len() == 0 {
        0
    } else {
        spec_written_count(s.drop_last()) + if s.last() {
            1int
        } else {
            0int
        }
    }
}

proof fn lemma_written_count_bounds(s: Seq<bool>)
    ensures
        0 <= spec_written_count(s) <= s.len(),
    decreases s.len(),
{
    if s.len() > 0 {
        lemma_written_count_bounds(s.drop_last());
    }
}

proof fn lemma_written_count_all_false(s: Seq<bool>)
    requires
        forall|i: int| 0 <= i < s.len() ==> !s[i],
    ensures
        spec_written_count(s) == 0,
    decreases s.len(),
{
    if s.len() > 0 {
        lemma_written_count_all_false(s.drop_last());
    }
}

/// Marking one unwritten slot written raises the count by exactly one.
proof fn lemma_written_count_update_true(s: Seq<bool>, i: int)
    requires
        0 <= i < s.len(),
        !s[i],
    ensures
        spec_written_count(s.update(i, true)) == spec_written_count(s) + 1,
    decreases s.len(),
{
    let t = s.update(i, true);
    if i == s.len() - 1 {
        assert(t.drop_last() =~= s.drop_last());
    } else {
        assert(t.drop_last() =~= s.drop_last().update(i, true));
        lemma_written_count_update_true(s.drop_last(), i);
    }
}

/// One render invocation's shared state: the pixel buffer, a ledger of
/// which slots have been written, how many that is, and the phase.
pub struct RenderTracker {
    pub pixels: Vec<VectorBits>,
    pub written: Vec<bool>,
    pub resolution: Resolution,
    pub pixels_done: usize,
    pub phase: RenderPhase,
}

impl RenderTracker {
    pub open spec fn is_well_formed(self) -> bool {
        &&& self.resolution.is_valid()
        &&& self.pixels@.len() == self.resolution.spec_grid_size()
        &&& self.written@.len() == self.pixels@.len()
        &&& self.pixels_done == spec_written_count(self.written@)
        &&& self.phase is Completed ==> self.pixels_done == self.resolution.spec_grid_size()
    }

    /// A fresh invocation: a black (all-zero) buffer the size of the
    /// grid, nothing written, running.
    pub fn new(resolution: Resolution) -> (t: RenderTracker)
        requires
            resolution.is_valid(),
        ensures
            t.is_well_formed(),
            t.resolution == resolution,
            t.phase == RenderPhase::Running,
            t.pixels_done == 0,
            t.pixels@.len() == resolution.spec_grid_size(),
            forall|k: int|
                0 <= k < t.pixels@.len() ==> #[trigger] t.pixels@[k] == (VectorBits {
                    x: 0u32,
                    y: 0u32,
                    z: 0u32,
                }),
            forall|k: int| 0 <= k < t.written@.len() ==> !(#[trigger] t.written@[k]),
    {
        let total = resolution.grid_size();
        let mut pixels: Vec<VectorBits> = Vec::new();
        let mut written: Vec<bool> = Vec::new();
        let mut i: usize = 0;
        while i < total
            invariant
                i <= total,
                pixels@.len() == i,
                written@.len() == i,
                forall|k: int|
                    0 <= k < i ==> #[trigger] pixels@[k] == (VectorBits {
                        x: 0u32,
                        y: 0u32,
                        z: 0u32,
                    }),
                forall|k: int| 0 <= k < i ==> !(#[trigger] written@[k]),
            decreases total - i,
        {
            pixels.push(VectorBits { x: 0, y: 0, z: 0 });
            written.push(false);
            i = i + 1;
        }
        proof {
            lemma_written_count_all_false(written@);
        }
        RenderTracker { pixels, written, resolution, pixels_done: 0, phase: RenderPhase::Running }
    }

    /// Whether the slot for `index` has already received its pixel.
    pub fn is_written(&self, index: usize) -> (w: bool)
        requires
            index < self.written@.len(),
        ensures
            w == self.written@[index as int],
    {
        self.written[index]
    }

    /// A worker deposits its finished, already clamped pixel into a
    /// slot that no worker has claimed before. Exactly the addressed
    /// slot changes, its ledger entry flips, and the processed-pixel
    /// count — provably the number of written slots — moves up by the
    /// one pixel.
    pub fn write_pixel(&mut self, index: usize, value: VectorBits)
        requires
            old(self).is_well_formed(),
            old(self).phase is Running,
            index < old(self).pixels@.len(),
            !old(self).written@[index as int],
        ensures
            final(self).pixels@ == old(self).pixels@.update(index as int, value),
            final(self).written@ == old(self).written@.update(index as int, true),
            final(self).pixels_done == old(self).pixels_done + 1,
            final(self).phase == old(self).phase,
            final(self).resolution == old(self).resolution,
            final(self).is_well_formed(),
    {
        proof {
            lemma_written_count_update_true(self.written@, index as int);
            lemma_written_count_bounds(self.written@.update(index as int, true));
        }
        self.pixels[index] = value;
        self.written[index] = true;
        self.pixels_done = self.pixels_done + 1;
    }

    /// The cancellation watcher saw the cancel token: move a running
    /// render to `Cancelled`. Every already-written pixel stays in the
    /// buffer — cancellation keeps what is done.
    pub fn cancel(&mut self)
        ensures
            final(self).phase == spec_phase_step(old(self).phase, RenderEvent::CancelSignalled),
            final(self).pixels@ == old(self).pixels@,
            final(self).written@ == old(self).written@,
            final(self).pixels_done == old(self).pixels_done,
            final(self).resolution == old(self).resolution,
            old(self).is_well_formed() ==> final(self).is_well_formed(),
    {
        if let RenderPhase::Running = self.phase {
            self.phase = RenderPhase::Cancelled;
        }
    }

    /// The worker pool ran out of work with every pixel written: move
    /// a running render to `Completed`.
    pub fn complete(&mut self)
        requires
            old(self).is_well_formed(),
            old(self).pixels_done == old(self).resolution.spec_grid_size(),
        ensures
            final(self).phase == spec_phase_step(old(self).phase, RenderEvent::AllPixelsDone),
            final(self).pixels@ == old(self).pixels@,
            final(self).written@ == old(self).written@,
            final(self).pixels_done == old(self).pixels_done,
            final(self).resolution == old(self).resolution,
            final(self).is_well_formed(),
    {
        if let RenderPhase::Running = self.phase {
            self.phase = RenderPhase::Completed;
        }
    }

    /// What the workers poll between pixels: whether to stop claiming
    /// work, promptly, because the render left the running phase.
    pub fn is_stopped(&self) -> (stopped: bool)
        ensures
            stopped <==> !(self.phase is Running),
    {
        match self.phase {
            RenderPhase::Running => false,
            _ => true,
        }
    }

    /// The progress pair the reporting task pushes out: pixels done of
    /// pixels total. The fraction never runs past one.
    pub fn progress(&self) -> (p: (usize, usize))
        requires
            self.is_well_formed(),
        ensures
            p.0 == self.pixels_done,
            p.1 == self.resolution.spec_grid_size(),
            p.0 <= p.1,
    {
        proof {
            lemma_written_count_bounds(self.written@);
        }
        (self.pixels_done, self.resolution.grid_size())
    }

    /// A snapshot of the buffer as it stands — for a periodic progress
    /// update, or as the final image — stamped with its content hash.
    pub fn snapshot(&self) -> (img: Image)
        requires
            self.is_well_formed(),
        ensures
            img.pixels@ == self.pixels@,
            img.resolution == self.resolution,
            img.is_well_formed(),
    {
        let mut copy: Vec<VectorBits> = Vec::new();
        let mut i: usize = 0;
        while i < self.pixels.len()
            invariant
                i <= self.pixels@.len(),
                copy@ == self.pixels@.subrange(0, i as int),
            decreases self.pixels@.len() - i,
        {
            copy.push(self.pixels[i]);
            i = i + 1;
        }
        proof {
            assert(copy@ =~= self.pixels@);
        }
        Image::new(copy, self.resolution)
    }
}

} // verus!
