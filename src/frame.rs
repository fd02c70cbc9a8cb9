use vstd::prelude::*;
use crate::constants::MAX_FRAMES_IN_FLIGHT;

verus! {

/// Where the current frame stands in acquire, submit, present.
#[derive(Clone, Copy, Debug, PartialEq, Eq, Structural)]
pub enum FramePhase {
    /// Between frames.
    Idle,
    /// Waiting for the current slot's fence.
    WaitingSlotFence,
    /// Waiting for the next swapchain image.
    Acquiring,
    /// The acquired image is still used by the submission behind `fence`.
    WaitingImageFence { image: usize, fence: usize },
    /// The command buffer of `image` has been handed to the graphics queue.
    Submitting { image: usize },
    /// The image has been handed to the presentation queue.
    Presenting { image: usize },
}

/// What the driver reported back to the synchronizer.
#[derive(Clone, Copy, Debug, PartialEq, Eq, Structural)]
pub enum FrameEvent {
    /// A new frame is to be drawn.
    Begin,
    /// The fence last asked for has been waited on and is signaled.
    FenceSignaled,
    /// The swapchain handed out this image index.
    ImageAcquired(u32),
    /// The submission to the graphics queue was accepted.
    Submitted,
    /// The present request was accepted.
    Presented,
}

/// A submission of a pre-recorded command buffer to the graphics queue.
/// The fence is reset to unsignaled right before the submission.
#[derive(Clone, Copy, Debug, PartialEq, Eq, Structural)]
pub struct Submission {
    /// Index of the command buffer, which is the swapchain image's index.
    pub command_buffer: usize,
    /// "Image available" semaphore of this slot, waited on at color output.
    pub wait_semaphore: usize,
    /// "Render finished" semaphore of this slot, signaled on completion.
    pub signal_semaphore: usize,
    /// Fence of this slot, signaled on completion.
    pub fence: usize,
}

/// The next thing to ask of the driver.
#[derive(Clone, Copy, Debug, PartialEq, Eq, Structural)]
pub enum FrameAction {
    /// Block until the fence of this frame slot is signaled.
    WaitFence(usize),
    /// Acquire the next image, signaling this slot's "image available" semaphore.
    Acquire { semaphore: usize },
    /// Reset the fence, then submit.
    Submit(Submission),
    /// Present the image once this slot's "render finished" semaphore is signaled.
    Present { image: usize, wait_semaphore: usize },
    /// The frame is done.
    Finished,
}

/// An event that the current phase does not expect.
#[derive(Clone, Copy, Debug, PartialEq, Eq, Structural)]
pub enum FrameError {
    UnexpectedEvent,
    ImageOutOfRange,
}

/// The frame-slot index, one fence state per slot, and for each swapchain
/// image the slot whose fence last claimed it.
pub struct FrameSync {
    pub frame: usize,
    /// `true` while a fence is reset and not yet seen signaled.
    pub fence_pending: Vec<bool>,
    pub images_in_flight: Vec<Option<usize>>,
    pub phase: FramePhase,
}

/// The mathematical state of a [`FrameSync`].
pub struct SyncState {
    pub frame: usize,
    pub pending: Seq<bool>,
    pub in_flight: Seq<Option<usize>>,
    pub phase: FramePhase,
}

impl View for FrameSync {
    type V = SyncState;

    open spec fn view(&self) -> SyncState {
        SyncState {
            frame: self.frame,
            pending: self.fence_pending@,
            in_flight: self.images_in_flight@,
            phase: self.phase,
        }
    }
}

/// The slot after `f`.
pub open spec fn next_slot(f: usize) -> usize {
    ((f + 1) % (MAX_FRAMES_IN_FLIGHT as int)) as usize
}

impl SyncState {
    pub open spec fn wf(self) -> bool {
        &&& self.pending.len() == MAX_FRAMES_IN_FLIGHT
        &&& self.frame < MAX_FRAMES_IN_FLIGHT
        &&& forall|i: int|
            0 <= i < self.in_flight.len() ==> (#[trigger] self.in_flight[i] matches Some(f)
                ==> f < MAX_FRAMES_IN_FLIGHT)
        &&& match self.phase {
            FramePhase::WaitingImageFence { image, fence } => image < self.in_flight.len()
                && fence < MAX_FRAMES_IN_FLIGHT && self.in_flight[image as int] == Some(fence),
            FramePhase::Submitting { image } => image < self.in_flight.len(),
            FramePhase::Presenting { image } => image < self.in_flight.len(),
            _ => true,
        }
    }

    /// Record the current slot's fence as owner of `image`, reset it, submit.
    pub open spec fn claim(self, image: usize) -> (SyncState, Result<FrameAction, FrameError>) {
        (
            SyncState {
                frame: self.frame,
                pending: self.pending.update(self.frame as int, true),
                in_flight: self.in_flight.update(image as int, Some(self.frame)),
                phase: FramePhase::Submitting { image },
            },
            Ok(
                FrameAction::Submit(
                    Submission {
                        command_buffer: image,
                        wait_semaphore: self.frame,
                        signal_semaphore: self.frame,
                        fence: self.frame,
                    },
                ),
            ),
        )
    }

    /// The state with the phase replaced.
    pub open spec fn with_phase(self, phase: FramePhase) -> SyncState {
        SyncState { phase, ..self }
    }

    /// One step of the protocol: the state after `e`, and what to do next.
    pub open spec fn next(self, e: FrameEvent) -> (SyncState, Result<FrameAction, FrameError>) {
        match (self.phase, e) {
            (FramePhase::Idle, FrameEvent::Begin) => (
                self.with_phase(FramePhase::WaitingSlotFence),
                Ok(FrameAction::WaitFence(self.frame)),
            ),
            (FramePhase::WaitingSlotFence, FrameEvent::FenceSignaled) => (
                SyncState {
                    pending: self.pending.update(self.frame as int, false),
                    phase: FramePhase::Acquiring,
                    ..self
                },
                Ok(FrameAction::Acquire { semaphore: self.frame }),
            ),
            (FramePhase::Acquiring, FrameEvent::ImageAcquired(i)) => {
                if i >= self.in_flight.len() {
                    (self, Err(FrameError::ImageOutOfRange))
                } else {
                    match self.in_flight[i as int] {
                        Some(f) if self.pending[f as int] => (
                            self.with_phase(
                                FramePhase::WaitingImageFence { image: i as usize, fence: f },
                            ),
                            Ok(FrameAction::WaitFence(f)),
                        ),
                        _ => self.claim(i as usize),
                    }
                }
            },
            (FramePhase::WaitingImageFence { image, fence }, FrameEvent::FenceSignaled) => SyncState {
                pending: self.pending.update(fence as int, false),
                ..self
            }.claim(image),
            (FramePhase::Submitting { image }, FrameEvent::Submitted) => (
                self.with_phase(FramePhase::Presenting { image }),
                Ok(FrameAction::Present { image, wait_semaphore: self.frame }),
            ),
            (FramePhase::Presenting { image }, FrameEvent::Presented) => (
                SyncState { frame: next_slot(self.frame), phase: FramePhase::Idle, ..self },
                Ok(FrameAction::Finished),
            ),
            _ => (self, Err(FrameError::UnexpectedEvent)),
        }
    }
}

impl FrameSync {
    pub open spec fn wf(&self) -> bool {
        self@.wf()
    }

    /// All slots idle with signaled fences, no image claimed yet.
    pub fn new(image_count: usize) -> (r: FrameSync)
        ensures
            r.wf(),
            r@.frame == 0,
            r@.pending == Seq::new(MAX_FRAMES_IN_FLIGHT as nat, |i: int| false),
            r@.in_flight == Seq::new(image_count as nat, |i: int| None::<usize>),
            r@.phase == FramePhase::Idle,
    {
        let mut fence_pending: Vec<bool> = Vec::new();
        let mut k: usize = 0;
        while k < MAX_FRAMES_IN_FLIGHT
            invariant
                k <= MAX_FRAMES_IN_FLIGHT,
                fence_pending@ == Seq::new(k as nat, |i: int| false),
            decreases MAX_FRAMES_IN_FLIGHT - k,
        {
            fence_pending.push(false);
            k = k + 1;
            assert(fence_pending@ =~= Seq::new(k as nat, |i: int| false));
        }
        let mut images_in_flight: Vec<Option<usize>> = Vec::new();
        let mut j: usize = 0;
        while j < image_count
            invariant
                j <= image_count,
                images_in_flight@ == Seq::new(j as nat, |i: int| None::<usize>),
            decreases image_count - j,
        {
            images_in_flight.push(None);
            j = j + 1;
            assert(images_in_flight@ =~= Seq::new(j as nat, |i: int| None::<usize>));
        }
        FrameSync { frame: 0, fence_pending, images_in_flight, phase: FramePhase::Idle }
    }

    fn claim(&mut self, image: usize) -> (r: Result<FrameAction, FrameError>)
        requires
            old(self).wf(),
            image < old(self).images_in_flight@.len(),
        ensures
            (final(self)@, r) == old(self)@.claim(image),
    {
        let frame = self.frame;
        self.images_in_flight.set(image, Some(frame));
        self.fence_pending.set(frame, true);
        self.phase = FramePhase::Submitting { image };
        Ok(
            FrameAction::Submit(
                Submission {
                    command_buffer: image,
                    wait_semaphore: frame,
                    signal_semaphore: frame,
                    fence: frame,
                },
            ),
        )
    }

    /// Feeds one driver event to the protocol and returns the next action.
    pub fn step(&mut self, event: FrameEvent) -> (r: Result<FrameAction, FrameError>)
        requires
            old(self).wf(),
        ensures
            final(self).wf(),
            (final(self)@, r) == old(self)@.next(event),
    {
        match (self.phase, event) {
            (FramePhase::Idle, FrameEvent::Begin) => {
                self.phase = FramePhase::WaitingSlotFence;
                Ok(FrameAction::WaitFence(self.frame))
            },
            (FramePhase::WaitingSlotFence, FrameEvent::FenceSignaled) => {
                let frame = self.frame;
                self.fence_pending.set(frame, false);
                self.phase = FramePhase::Acquiring;
                Ok(FrameAction::Acquire { semaphore: frame })
            },
            (FramePhase::Acquiring, FrameEvent::ImageAcquired(i)) => {
                if i as usize >= self.images_in_flight.len() {
                    return Err(FrameError::ImageOutOfRange);
                }
                let image = i as usize;
                match self.images_in_flight[image] {
                    Some(f) => {
                        if self.fence_pending[f] {
                            self.phase = FramePhase::WaitingImageFence { image, fence: f };
                            return Ok(FrameAction::WaitFence(f));
                        }
                    },
                    None => {},
                }
                self.claim(image)
            },
            (FramePhase::WaitingImageFence { image, fence }, FrameEvent::FenceSignaled) => {
                self.fence_pending.set(fence, false);
                self.claim(image)
            },
            (FramePhase::Submitting { image }, FrameEvent::Submitted) => {
                self.phase = FramePhase::Presenting { image };
                Ok(FrameAction::Present { image, wait_semaphore: self.frame })
            },
            (FramePhase::Presenting { image }, FrameEvent::Presented) => {
                self.frame = (self.frame + 1) % MAX_FRAMES_IN_FLIGHT;
                self.phase = FramePhase::Idle;
                Ok(FrameAction::Finished)
            },
            _ => Err(FrameError::UnexpectedEvent),
        }
    }
}

/// Number of fences that are reset and not yet seen signaled.
pub open spec fn pending_count(p: Seq<bool>) -> nat
    decreases p.len(),
{
    if p.len() == 0 {
        0
    } else {
        pending_count(p.drop_last()) + if p.last() { 1nat } else { 0nat }
    }
}

proof fn lemma_pending_count_le_len(p: Seq<bool>)
    ensures
        pending_count(p) <= p.len(),
    decreases p.len(),
{
    if p.len() > 0 {
        lemma_pending_count_le_len(p.drop_last());
    }
}

/// The slot index after `n` completed frames, starting from slot zero.
pub open spec fn slot_after(n: nat) -> usize
    decreases n,
{
    if n == 0 {
        0
    } else {
        next_slot(slot_after((n - 1) as nat))
    }
}

/// Every step keeps the state well formed, with exactly
/// `MAX_FRAMES_IN_FLIGHT` frame slots, whatever the number of swapchain
/// images, and keeps one claim entry per image.
pub proof fn step_keeps_slots(s: SyncState, e: FrameEvent)
    requires
        s.wf(),
    ensures
        s.next(e).0.wf(),
        s.next(e).0.pending.len() == MAX_FRAMES_IN_FLIGHT,
        s.next(e).0.in_flight.len() == s.in_flight.len(),
{
}

/// At most `MAX_FRAMES_IN_FLIGHT` fences are in use at any time.
pub proof fn pending_fences_bounded(s: SyncState)
    requires
        s.wf(),
    ensures
        pending_count(s.pending) <= MAX_FRAMES_IN_FLIGHT,
{
    lemma_pending_count_le_len(s.pending);
}

/// An image is submitted to only once every fence that claimed it before,
/// other than the current slot's own, has been seen signaled.
pub proof fn submit_waits_for_image_fence(s: SyncState, e: FrameEvent)
    requires
        s.wf(),
    ensures
        s.next(e).1 matches Ok(FrameAction::Submit(sub)) ==> {
            &&& sub.command_buffer < s.in_flight.len()
            &&& sub.fence == s.frame
            &&& s.next(e).0.in_flight[sub.command_buffer as int] == Some(s.frame)
            &&& (s.in_flight[sub.command_buffer as int] matches Some(f) ==> (f == s.frame
                || !s.next(e).0.pending[f as int]))
        },
{
}

/// The slot index moves only when a frame finishes, and then to the next
/// slot modulo `MAX_FRAMES_IN_FLIGHT`.
pub proof fn slot_advances_on_finish(s: SyncState, e: FrameEvent)
    requires
        s.wf(),
    ensures
        s.next(e).1 == Ok::<FrameAction, FrameError>(FrameAction::Finished) ==> s.next(e).0.frame
            == next_slot(s.frame),
        s.next(e).1 != Ok::<FrameAction, FrameError>(FrameAction::Finished) ==> s.next(e).0.frame
            == s.frame,
{
}

/// Frame slots cycle with period `MAX_FRAMES_IN_FLIGHT`: 0, 1, 0, 1, ...
pub proof fn slot_cycle(n: nat)
    ensures
        slot_after(n) == n % (MAX_FRAMES_IN_FLIGHT as nat),
    decreases n,
{
    if n > 0 {
        slot_cycle((n - 1) as nat);
    }
}

} // verus!
