//! Frame pacing: what the CPU may do with each frame slot, and when the swapchain
//! has to be rebuilt.
//!
//! A frame slot owns an "image available" semaphore, a "render finished" semaphore
//! and an in-flight fence. The CPU waits for the slot's fence, acquires an image,
//! resets the fence only once the image is known to be valid, records, submits
//! with the fence, and presents. The slot is not used again before another wait
//! on its fence.

use vstd::prelude::*;
use crate::engine_core::vk::{RESULT_ERROR_OUT_OF_DATE, RESULT_SUBOPTIMAL};
use crate::engine_core::MAX_FRAMES_IN_FLIGHT;

verus! {

/// Where a frame slot stands.
#[derive(Clone, Copy, PartialEq, Eq, Structural, Debug)]
pub enum SlotPhase {
    /// Nothing is known to be in flight; the fence is signaled.
    Idle,
    /// The CPU has waited for the fence and found it signaled.
    Waited,
    /// An image has been asked for; the answer is not in yet.
    Acquiring,
    /// A valid image has been acquired; the fence is still signaled.
    Acquired { image: u32 },
    /// The fence has been reset; commands for the image are being recorded.
    Recording { image: u32 },
    /// The commands have been submitted with the fence, which signals once the
    /// GPU is done with them.
    Submitted { image: u32 },
}

impl SlotPhase {
    /// The slot is between two frames: no image is held and no reset fence waits
    /// for a submission.
    pub open spec fn at_rest(&self) -> bool {
        *self is Idle || *self is Waited || *self is Submitted
    }

    /// The slot's fence has been reset and nothing has been submitted with it
    /// yet: a wait on it now would never end.
    pub open spec fn fence_would_block(&self) -> bool {
        *self is Recording
    }
}

/// Whether the swapchain can be drawn to.
#[derive(Clone, Copy, PartialEq, Eq, Structural, Debug)]
pub enum SwapchainStatus {
    Current,
    /// The surface has changed; the swapchain must be rebuilt before another
    /// image is acquired.
    Stale,
    /// The swapchain and what depends on it have been destroyed.
    Destroyed,
}

/// Why a call was refused. A refused call changes nothing.
#[derive(Clone, Copy, PartialEq, Eq, Structural, Debug)]
pub enum FrameError {
    /// There is no frame slot of that index.
    NoSuchSlot,
    /// The slot is not in the phase that the call continues.
    OutOfTurn,
    /// The swapchain is stale or destroyed.
    NoSwapchain,
}

/// What the caller does after an acquisition or a presentation.
#[derive(Clone, Copy, PartialEq, Eq, Structural, Debug)]
pub enum FrameDecision {
    /// Go on with the frame.
    Proceed,
    /// Give the frame up and rebuild the swapchain.
    Recreate,
    /// The driver reported an error from which there is no recovery.
    Fatal,
}

/// The state of frame pacing as contracts see it.
pub struct FrameState {
    pub phases: Seq<SlotPhase>,
    pub image_count: nat,
    pub status: SwapchainStatus,
    /// Whether a suboptimal swapchain is rebuilt at once.
    pub strict: bool,
}

/// One call on the frame state.
pub enum FrameCall {
    Wait { slot: int },
    Acquire { slot: int },
    Acquired { slot: int, result: Result<(u32, bool), i32> },
    ResetFence { slot: int },
    Submit { slot: int },
    Presented { result: Result<bool, i32> },
    Clean,
    Recreate { image_count: nat },
}

/// The result of an acquisition leaves the swapchain in need of rebuilding.
pub open spec fn acquisition_invalidates(result: Result<(u32, bool), i32>, strict: bool) -> bool {
    match result {
        Ok((_, suboptimal)) => suboptimal && strict,
        Err(code) => code == RESULT_ERROR_OUT_OF_DATE || code == RESULT_SUBOPTIMAL,
    }
}

/// The result of an acquisition is an image to draw to.
pub open spec fn acquisition_valid(
    result: Result<(u32, bool), i32>,
    strict: bool,
    image_count: nat,
) -> bool {
    result matches Ok((image, suboptimal)) && !(suboptimal && strict) && image < image_count
}

/// What follows from the result of an acquisition.
pub open spec fn acquisition_decision(
    result: Result<(u32, bool), i32>,
    strict: bool,
    image_count: nat,
) -> FrameDecision {
    if acquisition_invalidates(result, strict) {
        FrameDecision::Recreate
    } else if acquisition_valid(result, strict, image_count) {
        FrameDecision::Proceed
    } else {
        FrameDecision::Fatal
    }
}

/// What follows from the result of a presentation: a stale or suboptimal
/// swapchain is rebuilt, every other error is fatal.
pub open spec fn presentation_decision(result: Result<bool, i32>) -> FrameDecision {
    match result {
        Ok(suboptimal) => if suboptimal {
            FrameDecision::Recreate
        } else {
            FrameDecision::Proceed
        },
        Err(code) => if code == RESULT_ERROR_OUT_OF_DATE || code == RESULT_SUBOPTIMAL {
            FrameDecision::Recreate
        } else {
            FrameDecision::Fatal
        },
    }
}

impl FrameState {
    pub open spec fn wf(&self) -> bool {
        &&& self.phases.len() == MAX_FRAMES_IN_FLIGHT
        &&& forall|f: int|
            0 <= f < self.phases.len() ==> match #[trigger] self.phases[f] {
                SlotPhase::Acquired { image } => image < self.image_count,
                SlotPhase::Recording { image } => image < self.image_count,
                _ => true,
            }
        &&& self.status is Destroyed ==> forall|f: int|
            0 <= f < self.phases.len() ==> (#[trigger] self.phases[f]) is Idle
    }

    pub open spec fn has_slot(&self, slot: int) -> bool {
        0 <= slot < self.phases.len()
    }

    /// Every slot is between two frames.
    pub open spec fn quiescent(&self) -> bool {
        forall|f: int| 0 <= f < self.phases.len() ==> (#[trigger] self.phases[f]).at_rest()
    }

    /// Why `call` is refused, if it is.
    pub open spec fn refusal(&self, call: FrameCall) -> Option<FrameError> {
        match call {
            FrameCall::Wait { slot } => if !self.has_slot(slot) {
                Some(FrameError::NoSuchSlot)
            } else if self.status is Destroyed {
                Some(FrameError::NoSwapchain)
            } else if !(self.phases[slot] is Idle || self.phases[slot] is Submitted) {
                Some(FrameError::OutOfTurn)
            } else {
                None
            },
            FrameCall::Acquire { slot } => if !self.has_slot(slot) {
                Some(FrameError::NoSuchSlot)
            } else if !(self.status is Current) {
                Some(FrameError::NoSwapchain)
            } else if !(self.phases[slot] is Waited) {
                Some(FrameError::OutOfTurn)
            } else {
                None
            },
            FrameCall::Acquired { slot, result } => if !self.has_slot(slot) {
                Some(FrameError::NoSuchSlot)
            } else if !(self.phases[slot] is Acquiring) {
                Some(FrameError::OutOfTurn)
            } else {
                None
            },
            FrameCall::ResetFence { slot } => if !self.has_slot(slot) {
                Some(FrameError::NoSuchSlot)
            } else if !(self.phases[slot] is Acquired) {
                Some(FrameError::OutOfTurn)
            } else {
                None
            },
            FrameCall::Submit { slot } => if !self.has_slot(slot) {
                Some(FrameError::NoSuchSlot)
            } else if !(self.phases[slot] is Recording) {
                Some(FrameError::OutOfTurn)
            } else {
                None
            },
            FrameCall::Presented { result } => None,
            FrameCall::Clean => if self.status is Destroyed {
                Some(FrameError::NoSwapchain)
            } else if !self.quiescent() {
                Some(FrameError::OutOfTurn)
            } else {
                None
            },
            FrameCall::Recreate { image_count } => if !(self.status is Destroyed) {
                Some(FrameError::OutOfTurn)
            } else {
                None
            },
        }
    }

    pub open spec fn accepts(&self, call: FrameCall) -> bool {
        self.refusal(call) is None
    }

    pub open spec fn with_phase(&self, slot: int, phase: SlotPhase) -> FrameState {
        FrameState { phases: self.phases.update(slot, phase), ..*self }
    }

    /// The state after `call`. A refused call changes nothing.
    pub open spec fn next(&self, call: FrameCall) -> FrameState {
        if !self.accepts(call) {
            *self
        } else {
            match call {
                FrameCall::Wait { slot } => self.with_phase(slot, SlotPhase::Waited),
                FrameCall::Acquire { slot } => self.with_phase(slot, SlotPhase::Acquiring),
                FrameCall::Acquired { slot, result } => if acquisition_valid(
                    result,
                    self.strict,
                    self.image_count,
                ) {
                    self.with_phase(slot, SlotPhase::Acquired { image: result->Ok_0.0 })
                } else if acquisition_invalidates(result, self.strict) {
                    FrameState {
                        phases: self.phases.update(slot, SlotPhase::Idle),
                        status: SwapchainStatus::Stale,
                        ..*self
                    }
                } else {
                    self.with_phase(slot, SlotPhase::Idle)
                },
                FrameCall::ResetFence { slot } => self.with_phase(
                    slot,
                    SlotPhase::Recording { image: self.phases[slot]->Acquired_image },
                ),
                FrameCall::Submit { slot } => self.with_phase(
                    slot,
                    SlotPhase::Submitted { image: self.phases[slot]->Recording_image },
                ),
                FrameCall::Presented { result } => if presentation_decision(result)
                    is Recreate && self.status is Current {
                    FrameState { status: SwapchainStatus::Stale, ..*self }
                } else {
                    *self
                },
                FrameCall::Clean => FrameState {
                    phases: Seq::new(self.phases.len(), |f: int| SlotPhase::Idle),
                    status: SwapchainStatus::Destroyed,
                    ..*self
                },
                FrameCall::Recreate { image_count } => FrameState {
                    image_count,
                    status: SwapchainStatus::Current,
                    ..*self
                },
            }
        }
    }

    /// The state after the calls, made in order.
    pub open spec fn run(&self, calls: Seq<FrameCall>) -> FrameState
        decreases calls.len(),
    {
        if calls.len() == 0 {
            *self
        } else {
            self.run(calls.drop_last()).next(calls.last())
        }
    }

    /// The number of submissions for `slot` whose completion the CPU has not yet
    /// observed: those that the state starts with, plus those accepted among
    /// `calls` since the last wait for the slot's fence (or for the whole device,
    /// which precedes the destruction of the swapchain).
    pub open spec fn outstanding(&self, calls: Seq<FrameCall>, slot: int) -> int
        decreases calls.len(),
    {
        if calls.len() == 0 {
            if self.phases[slot] is Submitted {
                1
            } else {
                0
            }
        } else {
            let before = self.run(calls.drop_last());
            let earlier = self.outstanding(calls.drop_last(), slot);
            if !before.accepts(calls.last()) {
                earlier
            } else {
                match calls.last() {
                    FrameCall::Submit { slot: f } => if f == slot {
                        earlier + 1
                    } else {
                        earlier
                    },
                    FrameCall::Wait { slot: f } => if f == slot {
                        0
                    } else {
                        earlier
                    },
                    FrameCall::Clean => 0,
                    _ => earlier,
                }
            }
        }
    }
}

/// One call keeps a well-formed state well-formed.
pub proof fn lemma_next_preserves_wf(state: FrameState, call: FrameCall)
    requires
        state.wf(),
    ensures
        state.next(call).wf(),
{
}

/// Frame-slot fence discipline. Whatever calls are made, in whatever order, on a
/// well-formed state: a slot never has more than one submission outstanding; it
/// has one exactly while it is in the submitted phase; and a submission is
/// accepted only when the slot has none outstanding, that is after the CPU has
/// seen the fence of the previous one signaled.
pub proof fn lemma_fence_discipline(state: FrameState, calls: Seq<FrameCall>, slot: int)
    requires
        state.wf(),
        state.has_slot(slot),
    ensures
        state.run(calls).wf(),
        0 <= state.outstanding(calls, slot) <= 1,
        state.outstanding(calls, slot) == 1 <==> state.run(calls).phases[slot] is Submitted,
        state.run(calls).accepts(FrameCall::Submit { slot }) ==> state.outstanding(calls, slot)
            == 0,
    decreases calls.len(),
{
    if calls.len() > 0 {
        lemma_fence_discipline(state, calls.drop_last(), slot);
        lemma_next_preserves_wf(state.run(calls.drop_last()), calls.last());
    }
}

/// A frame that is given up leaves no fence behind that a wait would block on:
/// when the result of an acquisition is not an image to draw to, the slot is idle
/// afterwards, its fence signaled as before.
pub proof fn lemma_abandoned_frame_leaves_fence_signaled(
    state: FrameState,
    slot: int,
    result: Result<(u32, bool), i32>,
)
    requires
        state.wf(),
        state.accepts(FrameCall::Acquired { slot, result }),
        !acquisition_valid(result, state.strict, state.image_count),
    ensures
        state.next(FrameCall::Acquired { slot, result }).phases[slot] is Idle,
        !state.next(FrameCall::Acquired { slot, result }).phases[slot].fence_would_block(),
        state.next(FrameCall::Acquired { slot, result }).accepts(FrameCall::Wait { slot }),
        acquisition_invalidates(result, state.strict) ==> !state.next(
            FrameCall::Acquired { slot, result },
        ).accepts(FrameCall::Acquire { slot }),
{
}

/// The swapchain is destroyed only when no slot holds an image or a reset fence.
pub proof fn lemma_swapchain_destroyed_at_rest(state: FrameState, slot: int)
    requires
        state.wf(),
        state.has_slot(slot),
        state.accepts(FrameCall::Clean),
    ensures
        state.phases[slot].at_rest(),
        !state.phases[slot].fence_would_block(),
        state.next(FrameCall::Clean).phases[slot] is Idle,
        state.next(FrameCall::Clean).status is Destroyed,
{
}

/// While the swapchain is destroyed no frame can begin or go on; only the
/// arrival of a new swapchain is accepted.
pub proof fn lemma_no_frame_without_swapchain(state: FrameState, slot: int)
    requires
        state.wf(),
        state.status is Destroyed,
    ensures
        !state.accepts(FrameCall::Wait { slot }),
        !state.accepts(FrameCall::Acquire { slot }),
        !state.accepts(FrameCall::ResetFence { slot }),
        !state.accepts(FrameCall::Submit { slot }),
        !state.accepts(FrameCall::Clean),
        forall|image_count: nat| state.accepts(FrameCall::Recreate { image_count }),
{
}

/// `Ok` for a call that is accepted, the reason for one that is refused.
pub open spec fn verdict(refusal: Option<FrameError>) -> Result<(), FrameError> {
    match refusal {
        None => Ok(()),
        Some(e) => Err(e),
    }
}

fn replaced(phases: &Vec<SlotPhase>, slot: usize, phase: SlotPhase) -> (r: Vec<SlotPhase>)
    requires
        slot < phases@.len(),
    ensures
        r@ == phases@.update(slot as int, phase),
{
    let mut r: Vec<SlotPhase> = Vec::new();
    let mut f: usize = 0;
    while f < phases.len()
        invariant
            slot < phases@.len(),
            f <= phases@.len(),
            r@.len() == f,
            forall|k: int| 0 <= k < f ==> r@[k] == phases@.update(slot as int, phase)[k],
        decreases phases@.len() - f,
    {
        if f == slot {
            r.push(phase);
        } else {
            r.push(phases[f]);
        }
        f += 1;
    }
    r
}

/// The pacing state of the frame slots. Its fields are private: a value is made by
/// `new` and changes through the calls below only, each of which follows
/// `FrameState::next`.
#[derive(Debug)]
pub struct FrameOrchestrator {
    phases: Vec<SlotPhase>,
    image_count: u32,
    status: SwapchainStatus,
    strict: bool,
}

impl View for FrameOrchestrator {
    type V = FrameState;

    closed spec fn view(&self) -> FrameState {
        FrameState {
            phases: self.phases@,
            image_count: self.image_count as nat,
            status: self.status,
            strict: self.strict,
        }
    }
}

impl FrameOrchestrator {
    #[verifier::type_invariant]
    closed spec fn inv(self) -> bool {
        self@.wf()
    }

    /// The state before the first frame: every slot idle, its fence signaled, and
    /// a current swapchain of `image_count` images. With `recreate_on_suboptimal`,
    /// a suboptimal acquisition gives the frame up.
    pub fn new(image_count: u32, recreate_on_suboptimal: bool) -> (r: Self)
        ensures
            r@.wf(),
            r@ == (FrameState {
                phases: Seq::new(MAX_FRAMES_IN_FLIGHT as nat, |f: int| SlotPhase::Idle),
                image_count: image_count as nat,
                status: SwapchainStatus::Current,
                strict: recreate_on_suboptimal,
            }),
    {
        let mut phases: Vec<SlotPhase> = Vec::new();
        let mut f: usize = 0;
        while f < MAX_FRAMES_IN_FLIGHT
            invariant
                f <= MAX_FRAMES_IN_FLIGHT,
                phases@.len() == f,
                forall|k: int| 0 <= k < f ==> phases@[k] == SlotPhase::Idle,
            decreases MAX_FRAMES_IN_FLIGHT - f,
        {
            phases.push(SlotPhase::Idle);
            f += 1;
        }
        assert(phases@ =~= Seq::new(MAX_FRAMES_IN_FLIGHT as nat, |f: int| SlotPhase::Idle));
        FrameOrchestrator {
            phases,
            image_count,
            status: SwapchainStatus::Current,
            strict: recreate_on_suboptimal,
        }
    }

    /// The phase of a slot.
    pub fn phase(&self, slot: usize) -> (r: Option<SlotPhase>)
        ensures
            r == if self@.has_slot(slot as int) {
                Some(self@.phases[slot as int])
            } else {
                None
            },
    {
        if slot < self.phases.len() {
            Some(self.phases[slot])
        } else {
            None
        }
    }

    pub fn status(&self) -> (r: SwapchainStatus)
        ensures
            r == self@.status,
    {
        self.status
    }

    /// The number of images of the swapchain, which is also the number of command
    /// buffers: one per image, whatever the number of frame slots.
    pub fn image_count(&self) -> (r: u32)
        ensures
            r == self@.image_count,
    {
        self.image_count
    }

    /// Whether commands for `image` may be recorded now: some slot has acquired
    /// the image and reset its fence, and has not submitted yet.
    pub fn is_recording(&self, image: u32) -> (r: bool)
        ensures
            r == exists|f: int|
                0 <= f < self@.phases.len() && #[trigger] self@.phases[f] == (
                SlotPhase::Recording { image }),
    {
        let mut f: usize = 0;
        while f < self.phases.len()
            invariant
                f <= self.phases@.len(),
                forall|k: int|
                    0 <= k < f ==> #[trigger] self.phases@[k] != (SlotPhase::Recording { image }),
            decreases self.phases@.len() - f,
        {
            match self.phases[f] {
                SlotPhase::Recording { image: held } => {
                    if held == image {
                        return true;
                    }
                },
                _ => {},
            }
            f += 1;
        }
        false
    }

    /// The CPU waits for the slot's fence. Accepted for a slot that is idle or has
    /// work submitted; afterwards the work is known to be done.
    pub fn wait_for_fence(&mut self, slot: usize) -> (r: Result<(), FrameError>)
        ensures
            r == verdict(old(self)@.refusal(FrameCall::Wait { slot: slot as int })),
            final(self)@ == old(self)@.next(FrameCall::Wait { slot: slot as int }),
    {
        proof {
            use_type_invariant(&*self);
        }
        if slot >= self.phases.len() {
            return Err(FrameError::NoSuchSlot);
        }
        if let SwapchainStatus::Destroyed = self.status {
            return Err(FrameError::NoSwapchain);
        }
        match self.phases[slot] {
            SlotPhase::Idle | SlotPhase::Submitted { .. } => {
                self.phases = replaced(&self.phases, slot, SlotPhase::Waited);
                Ok(())
            },
            _ => Err(FrameError::OutOfTurn),
        }
    }

    /// The CPU asks for the next image, to be announced on the slot's "image
    /// available" semaphore. Accepted after a wait, while the swapchain is current.
    pub fn acquire(&mut self, slot: usize) -> (r: Result<(), FrameError>)
        ensures
            r == verdict(old(self)@.refusal(FrameCall::Acquire { slot: slot as int })),
            final(self)@ == old(self)@.next(FrameCall::Acquire { slot: slot as int }),
    {
        proof {
            use_type_invariant(&*self);
        }
        if slot >= self.phases.len() {
            return Err(FrameError::NoSuchSlot);
        }
        match self.status {
            SwapchainStatus::Current => {},
            _ => {
                return Err(FrameError::NoSwapchain);
            },
        }
        match self.phases[slot] {
            SlotPhase::Waited => {
                self.phases = replaced(&self.phases, slot, SlotPhase::Acquiring);
                Ok(())
            },
            _ => Err(FrameError::OutOfTurn),
        }
    }

    /// Takes the driver's answer to the acquisition: the index of an image and
    /// whether the swapchain is suboptimal, or an error code. With a valid image
    /// the frame goes on. Otherwise the frame is given up before the fence is
    /// reset, so the slot is idle again; a stale swapchain is marked for
    /// rebuilding, any other failure is fatal.
    pub fn acquired(&mut self, slot: usize, result: Result<(u32, bool), i32>) -> (r: Result<
        FrameDecision,
        FrameError,
    >)
        ensures
            match old(self)@.refusal(FrameCall::Acquired { slot: slot as int, result }) {
                Some(e) => r == Err::<FrameDecision, FrameError>(e),
                None => r == Ok::<FrameDecision, FrameError>(
                    acquisition_decision(result, old(self)@.strict, old(self)@.image_count),
                ),
            },
            final(self)@ == old(self)@.next(FrameCall::Acquired { slot: slot as int, result }),
    {
        proof {
            use_type_invariant(&*self);
        }
        if slot >= self.phases.len() {
            return Err(FrameError::NoSuchSlot);
        }
        match self.phases[slot] {
            SlotPhase::Acquiring => {},
            _ => {
                return Err(FrameError::OutOfTurn);
            },
        }
        let invalidates = match result {
            Ok((_, suboptimal)) => suboptimal && self.strict,
            Err(code) => code == RESULT_ERROR_OUT_OF_DATE || code == RESULT_SUBOPTIMAL,
        };
        if invalidates {
            self.phases = replaced(&self.phases, slot, SlotPhase::Idle);
            self.status = SwapchainStatus::Stale;
            return Ok(FrameDecision::Recreate);
        }
        match result {
            Ok((image, _)) => {
                if image < self.image_count {
                    self.phases = replaced(&self.phases, slot, SlotPhase::Acquired { image });
                    Ok(FrameDecision::Proceed)
                } else {
                    self.phases = replaced(&self.phases, slot, SlotPhase::Idle);
                    Ok(FrameDecision::Fatal)
                }
            },
            Err(_) => {
                self.phases = replaced(&self.phases, slot, SlotPhase::Idle);
                Ok(FrameDecision::Fatal)
            },
        }
    }

    /// The CPU resets the slot's fence. Accepted only once a valid image has been
    /// acquired. Returns the image.
    pub fn reset_fence(&mut self, slot: usize) -> (r: Result<u32, FrameError>)
        ensures
            match old(self)@.refusal(FrameCall::ResetFence { slot: slot as int }) {
                Some(e) => r == Err::<u32, FrameError>(e),
                None => r == Ok::<u32, FrameError>(old(self)@.phases[slot as int]->Acquired_image),
            },
            final(self)@ == old(self)@.next(FrameCall::ResetFence { slot: slot as int }),
    {
        proof {
            use_type_invariant(&*self);
        }
        if slot >= self.phases.len() {
            return Err(FrameError::NoSuchSlot);
        }
        match self.phases[slot] {
            SlotPhase::Acquired { image } => {
                self.phases = replaced(&self.phases, slot, SlotPhase::Recording { image });
                Ok(image)
            },
            _ => Err(FrameError::OutOfTurn),
        }
    }

    /// The CPU submits the commands recorded for the slot's image, with the slot's
    /// fence. Accepted only between the reset of the fence and the next wait, so
    /// never twice without a wait between. Returns the image.
    pub fn submit(&mut self, slot: usize) -> (r: Result<u32, FrameError>)
        ensures
            match old(self)@.refusal(FrameCall::Submit { slot: slot as int }) {
                Some(e) => r == Err::<u32, FrameError>(e),
                None => r == Ok::<u32, FrameError>(old(self)@.phases[slot as int]->Recording_image),
            },
            final(self)@ == old(self)@.next(FrameCall::Submit { slot: slot as int }),
    {
        proof {
            use_type_invariant(&*self);
        }
        if slot >= self.phases.len() {
            return Err(FrameError::NoSuchSlot);
        }
        match self.phases[slot] {
            SlotPhase::Recording { image } => {
                self.phases = replaced(&self.phases, slot, SlotPhase::Submitted { image });
                Ok(image)
            },
            _ => Err(FrameError::OutOfTurn),
        }
    }

    /// Takes the driver's answer to a presentation: whether the swapchain is
    /// suboptimal, or an error code.
    pub fn presented(&mut self, result: Result<bool, i32>) -> (r: FrameDecision)
        ensures
            r == presentation_decision(result),
            final(self)@ == old(self)@.next(FrameCall::Presented { result }),
    {
        proof {
            use_type_invariant(&*self);
        }
        let decision = match result {
            Ok(suboptimal) => if suboptimal {
                FrameDecision::Recreate
            } else {
                FrameDecision::Proceed
            },
            Err(code) => if code == RESULT_ERROR_OUT_OF_DATE || code == RESULT_SUBOPTIMAL {
                FrameDecision::Recreate
            } else {
                FrameDecision::Fatal
            },
        };
        if let FrameDecision::Recreate = decision {
            if let SwapchainStatus::Current = self.status {
                self.status = SwapchainStatus::Stale;
            }
        }
        decision
    }

    /// The swapchain and what depends on it are destroyed, after a wait for the
    /// device to go idle. Accepted when no slot holds an image or a reset fence.
    pub fn clean(&mut self) -> (r: Result<(), FrameError>)
        ensures
            r == verdict(old(self)@.refusal(FrameCall::Clean)),
            final(self)@ == old(self)@.next(FrameCall::Clean),
    {
        proof {
            use_type_invariant(&*self);
        }
        if let SwapchainStatus::Destroyed = self.status {
            return Err(FrameError::NoSwapchain);
        }
        let mut f: usize = 0;
        while f < self.phases.len()
            invariant
                *self == *old(self),
                !(self.status is Destroyed),
                f <= self.phases@.len(),
                forall|k: int| 0 <= k < f ==> (#[trigger] self.phases@[k]).at_rest(),
            decreases self.phases@.len() - f,
        {
            match self.phases[f] {
                SlotPhase::Idle | SlotPhase::Waited | SlotPhase::Submitted { .. } => {},
                _ => {
                    return Err(FrameError::OutOfTurn);
                },
            }
            f += 1;
        }
        let mut phases: Vec<SlotPhase> = Vec::new();
        let mut g: usize = 0;
        while g < MAX_FRAMES_IN_FLIGHT
            invariant
                g <= MAX_FRAMES_IN_FLIGHT,
                phases@.len() == g,
                forall|k: int| 0 <= k < g ==> phases@[k] == SlotPhase::Idle,
            decreases MAX_FRAMES_IN_FLIGHT - g,
        {
            phases.push(SlotPhase::Idle);
            g += 1;
        }
        assert(phases@ =~= Seq::new(self.phases@.len(), |f: int| SlotPhase::Idle));
        self.phases = phases;
        self.status = SwapchainStatus::Destroyed;
        Ok(())
    }

    /// A new swapchain of `image_count` images is in place.
    pub fn recreate(&mut self, image_count: u32) -> (r: Result<(), FrameError>)
        ensures
            r == verdict(
                old(self)@.refusal(FrameCall::Recreate { image_count: image_count as nat }),
            ),
            final(self)@ == old(self)@.next(
                FrameCall::Recreate { image_count: image_count as nat },
            ),
    {
        proof {
            use_type_invariant(&*self);
        }
        match self.status {
            SwapchainStatus::Destroyed => {
                self.image_count = image_count;
                self.status = SwapchainStatus::Current;
                Ok(())
            },
            _ => Err(FrameError::OutOfTurn),
        }
    }
}

/// The slot that follows `slot` in the rotation.
pub fn next_frame(slot: usize) -> (r: usize)
    requires
        slot < MAX_FRAMES_IN_FLIGHT,
    ensures
        r == (slot + 1) % (MAX_FRAMES_IN_FLIGHT as int),
        r < MAX_FRAMES_IN_FLIGHT,
{
    (slot + 1) % MAX_FRAMES_IN_FLIGHT
}

} // verus!
