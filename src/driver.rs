//! The frame driver: each tick acquires an image, waits on the frame slot's
//! fence, records, submits and presents, and falls into recreation when the
//! surface goes out of date. The driver decides; the caller performs each
//! action on the device and reports back what happened as an event.

use vstd::prelude::*;

use crate::swapchain::VulkanSwapchain;

verus! {

#[derive(Clone, Copy, Debug, PartialEq, Eq)]
pub enum Phase {
    Idle,
    Acquiring,
    WaitingFence,
    Recording,
    Submitting,
    Presenting,
    Recreating,
    Failed,
}

/// What happened on the device since the last action.
#[derive(Clone, Copy, Debug, PartialEq, Eq)]
pub enum Event {
    /// The application asks for a frame.
    Tick,
    /// The presentation engine handed out this image.
    Acquired { image_index: u32 },
    /// The surface changed: acquiring is not possible any more.
    AcquireOutOfDate,
    /// The frame slot's fence was observed signaled.
    FenceSignaled,
    /// The command buffers were recorded.
    Recorded,
    /// The command buffer was submitted.
    Submitted,
    /// The image was presented.
    Presented,
    /// Presenting reported the surface out of date or suboptimal.
    PresentOutOfDate,
    /// A fence or acquire wait ran out of time.
    Timeout,
    /// Any other device failure.
    DeviceError,
}

/// Why the driver stopped.
#[derive(Clone, Copy, Debug, PartialEq, Eq)]
pub enum FatalError {
    Timeout,
    DeviceError,
    /// The presentation engine named an image the swapchain does not have.
    BadImageIndex,
    /// An event came that the current phase does not expect.
    OutOfOrder,
}

/// What the caller is to do next.
#[derive(Clone, Copy, Debug, PartialEq, Eq)]
pub enum Action {
    /// Acquire the next image, signaling the slot's image-available semaphore.
    AcquireImage { slot: usize },
    /// Wait, without time limit, on the slot's fence.
    WaitForFence { slot: usize },
    /// Record every command buffer anew.
    Record { slot: usize },
    /// Reset the slot's fence, then submit the acquired image's command
    /// buffer: wait on the slot's image-available semaphore at the colour
    /// output stage, signal its render-finished semaphore and its fence.
    ResetFenceAndSubmit { slot: usize, image_index: usize },
    /// Present the image, waiting on the slot's render-finished semaphore.
    Present { slot: usize, image_index: usize },
    /// Wait for the device to go idle, then tear down and rebuild the
    /// swapchain and what depends on it.
    Recreate,
    /// The frame is done; the next tick may start.
    FrameDone,
    Abort(FatalError),
}

/// The driver's state together with the swapchain's frame slot and image count.
pub struct FrameState {
    pub phase: Phase,
    pub slot: nat,
    pub image_count: nat,
    pub image: nat,
    pub resized: bool,
    /// Per frame slot: submitted, and its fence not yet observed signaled since.
    pub in_flight: Seq<bool>,
}

pub open spec fn state_wf(s: FrameState) -> bool {
    &&& s.image_count >= 1
    &&& s.image_count <= usize::MAX
    &&& s.slot < s.image_count
    &&& s.image < s.image_count
    &&& s.in_flight.len() == s.image_count
}

pub open spec fn fail(s: FrameState, e: FatalError) -> (FrameState, Action) {
    (FrameState { phase: Phase::Failed, ..s }, Action::Abort(e))
}

/// The transition on `e` from `s`: the next state and the action to take.
pub open spec fn next(s: FrameState, e: Event) -> (FrameState, Action) {
    match e {
        Event::Timeout => fail(s, FatalError::Timeout),
        Event::DeviceError => fail(s, FatalError::DeviceError),
        _ => match (s.phase, e) {
            (Phase::Idle, Event::Tick) => (
                FrameState { phase: Phase::Acquiring, ..s },
                Action::AcquireImage { slot: s.slot as usize },
            ),
            (Phase::Acquiring, Event::Acquired { image_index }) => if image_index < s.image_count {
                (
                    FrameState { phase: Phase::WaitingFence, image: image_index as nat, ..s },
                    Action::WaitForFence { slot: s.slot as usize },
                )
            } else {
                fail(s, FatalError::BadImageIndex)
            },
            (Phase::Acquiring, Event::AcquireOutOfDate) => (
                FrameState { phase: Phase::Recreating, ..s },
                Action::Recreate,
            ),
            (Phase::WaitingFence, Event::FenceSignaled) => (
                FrameState {
                    phase: Phase::Recording,
                    in_flight: s.in_flight.update(s.slot as int, false),
                    ..s
                },
                Action::Record { slot: s.slot as usize },
            ),
            (Phase::Recording, Event::Recorded) => (
                FrameState {
                    phase: Phase::Submitting,
                    in_flight: s.in_flight.update(s.slot as int, true),
                    ..s
                },
                Action::ResetFenceAndSubmit { slot: s.slot as usize, image_index: s.image as usize },
            ),
            (Phase::Submitting, Event::Submitted) => (
                FrameState { phase: Phase::Presenting, ..s },
                Action::Present { slot: s.slot as usize, image_index: s.image as usize },
            ),
            (Phase::Presenting, Event::Presented) => if s.resized {
                (FrameState { phase: Phase::Recreating, resized: false, ..s }, Action::Recreate)
            } else {
                (
                    FrameState { phase: Phase::Idle, slot: (s.slot + 1) % s.image_count, ..s },
                    Action::FrameDone,
                )
            },
            (Phase::Presenting, Event::PresentOutOfDate) => (
                FrameState { phase: Phase::Recreating, resized: false, ..s },
                Action::Recreate,
            ),
            _ => fail(s, FatalError::OutOfOrder),
        },
    }
}

/// The state after a recreation has rebuilt the swapchain with
/// `image_count` images: idle, at slot 0, nothing in flight (the device
/// was drained first).
pub open spec fn recreated(s: FrameState, image_count: nat) -> FrameState {
    FrameState {
        phase: Phase::Idle,
        slot: 0,
        image_count,
        image: 0,
        resized: false,
        in_flight: Seq::new(image_count, |i: int| false),
    }
}

/// The state after the first `j` events of `es`, from `s`.
pub open spec fn run(s: FrameState, es: Seq<Event>, j: nat) -> FrameState
    decreases j,
{
    if j == 0 {
        s
    } else {
        next(run(s, es, (j - 1) as nat), es[j - 1]).0
    }
}

/// The action taken on the `j`-th event of `es`, from `s`.
pub open spec fn action_at(s: FrameState, es: Seq<Event>, j: nat) -> Action {
    next(run(s, es, j), es[j as int]).1
}

/// A transition keeps the state well formed.
pub proof fn lemma_next_wf(s: FrameState, e: Event)
    requires
        state_wf(s),
    ensures
        state_wf(next(s, e).0),
        next(s, e).0.image_count == s.image_count,
{
    if s.phase == Phase::Presenting && e == Event::Presented && !s.resized {
        vstd::arithmetic::div_mod::lemma_mod_bound((s.slot + 1) as int, s.image_count as int);
    }
}

/// Every state along a run is well formed.
pub proof fn lemma_run_wf(s: FrameState, es: Seq<Event>, j: nat)
    requires
        state_wf(s),
        j <= es.len(),
    ensures
        state_wf(run(s, es, j)),
        run(s, es, j).image_count == s.image_count,
    decreases j,
{
    if j > 0 {
        lemma_run_wf(s, es, (j - 1) as nat);
        lemma_next_wf(run(s, es, (j - 1) as nat), es[j - 1]);
    }
}

/// Command buffers are recorded only right after the frame slot's fence was
/// observed signaled: whenever a submission on slot `k` is followed by a
/// recording on slot `k`, the fence of slot `k` was waited on and observed
/// signaled in between.
pub proof fn lemma_record_after_wait(s: FrameState, es: Seq<Event>, i: nat, j: nat, k: usize, image: usize)
    requires
        state_wf(s),
        i < j < es.len(),
        action_at(s, es, i) == (Action::ResetFenceAndSubmit { slot: k, image_index: image }),
        action_at(s, es, j) == (Action::Record { slot: k }),
    ensures
        exists|m: nat|
            i < m <= j && es[m as int] == Event::FenceSignaled && #[trigger] run(s, es, m).phase
                == Phase::WaitingFence && run(s, es, m).slot == k,
{
    lemma_run_wf(s, es, j);
    let sj = run(s, es, j);
    assert(sj.phase == Phase::WaitingFence && es[j as int] == Event::FenceSignaled && sj.slot == k);
    assert(run(s, es, j).phase == Phase::WaitingFence);
}

/// A slot's submission stays in flight until its fence is observed: the
/// only transition that clears slot `k` is the fence wait on slot `k`.
pub proof fn lemma_in_flight_until_wait(s: FrameState, e: Event, k: int)
    requires
        state_wf(s),
        0 <= k < s.image_count,
        s.in_flight[k],
        !next(s, e).0.in_flight[k],
    ensures
        s.phase == Phase::WaitingFence,
        e == Event::FenceSignaled,
        s.slot == k,
{
}

/// The states after `counts.len()` recreations in a row, the `i`-th one
/// rebuilding the swapchain with `counts[i]` images.
pub open spec fn recreate_times(s: FrameState, counts: Seq<nat>) -> FrameState
    decreases counts.len(),
{
    if counts.len() == 0 {
        s
    } else {
        recreated(recreate_times(s, counts.drop_last()), counts.last())
    }
}

/// The events of one frame that nothing interrupts, presenting image 0.
pub open spec fn clean_frame() -> Seq<Event> {
    seq![
        Event::Tick,
        Event::Acquired { image_index: 0 },
        Event::FenceSignaled,
        Event::Recorded,
        Event::Submitted,
        Event::Presented,
    ]
}

/// Recreating any number of times in a row ends in the same state as
/// recreating once with the last image count, and from there a frame runs
/// through acquire, fence wait, recording, submission and presentation back
/// to idle.
pub proof fn lemma_repeated_recreation(s: FrameState, counts: Seq<nat>)
    requires
        counts.len() >= 1,
        forall|i: int| 0 <= i < counts.len() ==> 1 <= #[trigger] counts[i] <= usize::MAX,
    ensures
        recreate_times(s, counts) == recreated(s, counts.last()),
        state_wf(recreate_times(s, counts)),
        ({
            let r = recreate_times(s, counts);
            let es = clean_frame();
            &&& action_at(r, es, 0) == Action::AcquireImage { slot: 0 }
            &&& action_at(r, es, 1) == Action::WaitForFence { slot: 0 }
            &&& action_at(r, es, 2) == Action::Record { slot: 0 }
            &&& action_at(r, es, 3) == Action::ResetFenceAndSubmit { slot: 0, image_index: 0 }
            &&& action_at(r, es, 4) == Action::Present { slot: 0, image_index: 0 }
            &&& action_at(r, es, 5) == Action::FrameDone
            &&& run(r, es, 6).phase == Phase::Idle
            &&& state_wf(run(r, es, 6))
        }),
{
    let r = recreate_times(s, counts);
    assert(r == recreated(s, counts.last()));
    let n = counts.last();
    assert(1 <= counts[counts.len() - 1] <= usize::MAX);
    let es = clean_frame();
    lemma_run_wf(r, es, 6);
    assert(run(r, es, 0) == r);
    assert(run(r, es, 1) == next(r, es[0]).0);
    assert(run(r, es, 2) == next(run(r, es, 1), es[1]).0);
    assert(run(r, es, 3) == next(run(r, es, 2), es[2]).0);
    assert(run(r, es, 4) == next(run(r, es, 3), es[3]).0);
    assert(run(r, es, 5) == next(run(r, es, 4), es[4]).0);
    assert(run(r, es, 6) == next(run(r, es, 5), es[5]).0);
}

/// Drives frames over a swapchain.
pub struct FrameDriver {
    phase: Phase,
    image_index: usize,
    framebuffer_resized: bool,
    in_flight: Vec<bool>,
}

impl FrameDriver {
    /// The driver's state seen together with `sw`.
    pub closed spec fn state(&self, sw: VulkanSwapchain) -> FrameState {
        FrameState {
            phase: self.phase,
            slot: sw.current_image as nat,
            image_count: sw.image_count as nat,
            image: self.image_index as nat,
            resized: self.framebuffer_resized,
            in_flight: self.in_flight@,
        }
    }

    /// The driver fits `sw`.
    pub open spec fn wf(&self, sw: VulkanSwapchain) -> bool {
        sw.wf() && state_wf(self.state(sw))
    }

    /// A driver for a freshly created swapchain: idle, nothing in flight.
    pub fn new(swapchain: &VulkanSwapchain) -> (r: Self)
        requires
            swapchain.wf(),
            swapchain.current_image == 0,
        ensures
            r.wf(*swapchain),
            r.state(*swapchain) == recreated(r.state(*swapchain), swapchain.image_count as nat),
    {
        let mut in_flight: Vec<bool> = Vec::new();
        let mut i: usize = 0;
        while i < swapchain.image_count
            invariant
                i <= swapchain.image_count,
                in_flight@ == Seq::new(i as nat, |k: int| false),
            decreases swapchain.image_count - i,
        {
            in_flight.push(false);
            i = i + 1;
            assert(in_flight@ =~= Seq::new(i as nat, |k: int| false));
        }
        FrameDriver { phase: Phase::Idle, image_index: 0, framebuffer_resized: false, in_flight }
    }

    pub fn phase(&self, swapchain: &VulkanSwapchain) -> (r: Phase)
        ensures
            r == self.state(*swapchain).phase,
    {
        self.phase
    }

    /// Records that the window's framebuffer was resized; the next present
    /// then leads to recreation.
    pub fn notify_resized(&mut self, swapchain: &VulkanSwapchain)
        ensures
            final(self).state(*swapchain) == (FrameState { resized: true, ..old(self).state(*swapchain) }),
    {
        self.framebuffer_resized = true;
    }

    /// Takes one event: moves to the state `next` gives and returns its
    /// action. The swapchain's frame slot advances once per presented frame.
    pub fn step(&mut self, swapchain: &mut VulkanSwapchain, event: Event) -> (r: Action)
        requires
            old(self).wf(*old(swapchain)),
        ensures
            final(self).wf(*final(swapchain)),
            (final(self).state(*final(swapchain)), r) == next(old(self).state(*old(swapchain)), event),
            *final(swapchain) == (VulkanSwapchain { current_image: final(swapchain).current_image, ..*old(swapchain) }),
    {
        match event {
            Event::Timeout => {
                self.phase = Phase::Failed;
                return Action::Abort(FatalError::Timeout);
            },
            Event::DeviceError => {
                self.phase = Phase::Failed;
                return Action::Abort(FatalError::DeviceError);
            },
            _ => {},
        }
        let slot = swapchain.current_image;
        match (self.phase, event) {
            (Phase::Idle, Event::Tick) => {
                self.phase = Phase::Acquiring;
                Action::AcquireImage { slot }
            },
            (Phase::Acquiring, Event::Acquired { image_index }) => {
                if (image_index as usize) < swapchain.image_count {
                    self.phase = Phase::WaitingFence;
                    self.image_index = image_index as usize;
                    Action::WaitForFence { slot }
                } else {
                    self.phase = Phase::Failed;
                    Action::Abort(FatalError::BadImageIndex)
                }
            },
            (Phase::Acquiring, Event::AcquireOutOfDate) => {
                self.phase = Phase::Recreating;
                Action::Recreate
            },
            (Phase::WaitingFence, Event::FenceSignaled) => {
                self.phase = Phase::Recording;
                self.in_flight.set(slot, false);
                Action::Record { slot }
            },
            (Phase::Recording, Event::Recorded) => {
                self.phase = Phase::Submitting;
                self.in_flight.set(slot, true);
                Action::ResetFenceAndSubmit { slot, image_index: self.image_index }
            },
            (Phase::Submitting, Event::Submitted) => {
                self.phase = Phase::Presenting;
                Action::Present { slot, image_index: self.image_index }
            },
            (Phase::Presenting, Event::Presented) => {
                if self.framebuffer_resized {
                    self.framebuffer_resized = false;
                    self.phase = Phase::Recreating;
                    Action::Recreate
                } else {
                    swapchain.advance_frame_slot();
                    self.phase = Phase::Idle;
                    Action::FrameDone
                }
            },
            (Phase::Presenting, Event::PresentOutOfDate) => {
                self.framebuffer_resized = false;
                self.phase = Phase::Recreating;
                Action::Recreate
            },
            _ => {
                self.phase = Phase::Failed;
                Action::Abort(FatalError::OutOfOrder)
            },
        }
    }

    /// Ends a recreation on the rebuilt swapchain `swapchain`: the driver is
    /// idle again, with nothing in flight.
    pub fn finish_recreation(&mut self, swapchain: &VulkanSwapchain)
        requires
            swapchain.wf(),
            swapchain.current_image == 0,
        ensures
            final(self).wf(*swapchain),
            final(self).state(*swapchain) == recreated(old(self).state(*swapchain), swapchain.image_count as nat),
    {
        let fresh = FrameDriver::new(swapchain);
        *self = fresh;
    }
}

} // verus!
