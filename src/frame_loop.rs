use vstd::prelude::*;

verus! {

/// The step of a frame that the loop is waiting on.
#[derive(Clone, Copy, Debug, PartialEq, Eq, Structural)]
pub enum Phase {
    /// Between frames.
    Idle,
    /// Waiting for the slot's frame fence, then resetting it.
    WaitingOnFence,
    /// Waiting for the next presentable image.
    AcquiringImage,
    /// Resetting and recording the slot's command buffer.
    Recording,
    /// Submitting the recorded commands to the graphics queue.
    Submitting,
    /// Queueing the image for presentation.
    Presenting,
    /// Shutting down: waiting for the device to go idle.
    Draining,
    /// Torn down; the loop has ended.
    Closed,
}

/// What the outside world reports to the loop.
#[derive(Clone, Copy, Debug, PartialEq, Eq, Structural)]
pub enum LoopEvent {
    /// The window system is idle: time to draw a frame.
    Tick,
    /// The frame fence was signaled and has been reset.
    FenceSignaled,
    /// The swapchain handed over the image with this index.
    ImageAcquired(u32),
    /// The command buffer was reset and recorded.
    Recorded,
    /// The command buffer was submitted.
    Submitted,
    /// The image was queued for presentation.
    Presented,
    /// The user asked to close the window.
    CloseRequested,
    /// The device reported that all its work has finished.
    DeviceIdle,
    /// The requested step failed.
    StepFailed,
}

/// What the loop asks the outside world to do next.
#[derive(Clone, Copy, Debug, PartialEq, Eq, Structural)]
pub enum LoopAction {
    Nothing,
    /// Block on the frame fence without a timeout, then reset it.
    WaitForFence,
    /// Acquire the next image, signaling the image-available semaphore.
    AcquireImage,
    /// Reset the command buffer and record the frame for this image.
    RecordCommands(u32),
    /// Submit, waiting on image-available and signaling render-finished and the fence.
    Submit,
    /// Present this image once render-finished is signaled.
    Present(u32),
    /// Block until the device is idle.
    WaitDeviceIdle,
    /// Destroy every resource, newest first.
    TearDown,
}

/// The per-frame synchronisation state machine: wait on the fence, acquire an image,
/// record, submit, present, and on shutdown drain the device before teardown.
#[derive(Clone, Copy, Debug, PartialEq, Eq, Structural)]
pub struct FrameLoop {
    pub phase: Phase,
    /// Closing was requested; honored at the start of the next frame.
    pub close_requested: bool,
    /// A step failed; the loop drains and tears down, and the error is reported.
    pub failed: bool,
    /// The image acquired for the frame in flight.
    pub image_index: u32,
}

pub open spec fn initial_loop() -> FrameLoop {
    FrameLoop { phase: Phase::Idle, close_requested: false, failed: false, image_index: 0 }
}

pub open spec fn in_frame(p: Phase) -> bool {
    p != Phase::Draining && p != Phase::Closed
}

/// The transition on one event: the next state and the action to perform.
pub open spec fn spec_step(s: FrameLoop, e: LoopEvent) -> (FrameLoop, LoopAction) {
    if s.phase == Phase::Closed {
        (s, LoopAction::Nothing)
    } else if e == LoopEvent::CloseRequested {
        (FrameLoop { close_requested: true, ..s }, LoopAction::Nothing)
    } else if s.phase == Phase::Draining {
        match e {
            LoopEvent::DeviceIdle => (FrameLoop { phase: Phase::Closed, ..s }, LoopAction::TearDown),
            LoopEvent::StepFailed => (
                FrameLoop { phase: Phase::Closed, failed: true, ..s },
                LoopAction::TearDown,
            ),
            _ => (s, LoopAction::Nothing),
        }
    } else if e == LoopEvent::StepFailed {
        (FrameLoop { phase: Phase::Draining, failed: true, ..s }, LoopAction::WaitDeviceIdle)
    } else {
        match (s.phase, e) {
            (Phase::Idle, LoopEvent::Tick) => if s.close_requested {
                (FrameLoop { phase: Phase::Draining, ..s }, LoopAction::WaitDeviceIdle)
            } else {
                (FrameLoop { phase: Phase::WaitingOnFence, ..s }, LoopAction::WaitForFence)
            },
            (Phase::WaitingOnFence, LoopEvent::FenceSignaled) => (
                FrameLoop { phase: Phase::AcquiringImage, ..s },
                LoopAction::AcquireImage,
            ),
            (Phase::AcquiringImage, LoopEvent::ImageAcquired(i)) => (
                FrameLoop { phase: Phase::Recording, image_index: i, ..s },
                LoopAction::RecordCommands(i),
            ),
            (Phase::Recording, LoopEvent::Recorded) => (
                FrameLoop { phase: Phase::Submitting, ..s },
                LoopAction::Submit,
            ),
            (Phase::Submitting, LoopEvent::Submitted) => (
                FrameLoop { phase: Phase::Presenting, ..s },
                LoopAction::Present(s.image_index),
            ),
            (Phase::Presenting, LoopEvent::Presented) => (
                FrameLoop { phase: Phase::Idle, ..s },
                LoopAction::Nothing,
            ),
            _ => (s, LoopAction::Nothing),
        }
    }
}

/// The state after the first `k` events.
pub open spec fn state_after(s: FrameLoop, events: Seq<LoopEvent>, k: nat) -> FrameLoop
    decreases k,
{
    if k == 0 {
        s
    } else {
        spec_step(state_after(s, events, (k - 1) as nat), events[k - 1]).0
    }
}

/// The action requested on event `k`.
pub open spec fn action_at(s: FrameLoop, events: Seq<LoopEvent>, k: nat) -> LoopAction {
    spec_step(state_after(s, events, k), events[k as int]).1
}

/// Every stretch of `AcquiringImage` states was entered from `WaitingOnFence` on a
/// fence-signaled event.
proof fn lemma_acquiring_entered_after_fence(events: Seq<LoopEvent>, k: nat)
    requires
        k <= events.len(),
        state_after(initial_loop(), events, k).phase == Phase::AcquiringImage,
    ensures
        exists|j: nat|
            #![trigger state_after(initial_loop(), events, j)]
            j < k && state_after(initial_loop(), events, j).phase == Phase::WaitingOnFence
                && events[j as int] == LoopEvent::FenceSignaled && forall|m: nat|
                j < m <= k ==> (#[trigger] state_after(initial_loop(), events, m)).phase
                    == Phase::AcquiringImage,
    decreases k,
{
    let s0 = initial_loop();
    let prev = state_after(s0, events, (k - 1) as nat);
    if prev.phase == Phase::AcquiringImage {
        lemma_acquiring_entered_after_fence(events, (k - 1) as nat);
        let j = choose|j: nat|
            #![trigger state_after(s0, events, j)]
            j < k - 1 && state_after(s0, events, j).phase == Phase::WaitingOnFence
                && events[j as int] == LoopEvent::FenceSignaled && forall|m: nat|
                j < m <= k - 1 ==> (#[trigger] state_after(s0, events, m)).phase
                    == Phase::AcquiringImage;
        assert(forall|m: nat|
            j < m <= k ==> (#[trigger] state_after(s0, events, m)).phase
                == Phase::AcquiringImage);
    } else {
        let j = (k - 1) as nat;
        assert(forall|m: nat|
            j < m <= k ==> (#[trigger] state_after(s0, events, m)).phase
                == Phase::AcquiringImage);
        assert(state_after(s0, events, j).phase == Phase::WaitingOnFence);
    }
}

/// Every stretch of `WaitingOnFence` states was entered by a request to wait on the fence.
proof fn lemma_fence_wait_requested(events: Seq<LoopEvent>, k: nat)
    requires
        k <= events.len(),
        state_after(initial_loop(), events, k).phase == Phase::WaitingOnFence,
    ensures
        exists|i: nat|
            i < k && #[trigger] action_at(initial_loop(), events, i) == LoopAction::WaitForFence,
    decreases k,
{
    let s0 = initial_loop();
    let prev = state_after(s0, events, (k - 1) as nat);
    if prev.phase == Phase::WaitingOnFence {
        lemma_fence_wait_requested(events, (k - 1) as nat);
    } else {
        assert(action_at(s0, events, (k - 1) as nat) == LoopAction::WaitForFence);
    }
}

/// In every run from the initial state, the command buffer is reset and recorded only after
/// a wait on the frame fence was requested and reported complete, with no other recording
/// since that completion.
pub proof fn lemma_fence_gates_recording(events: Seq<LoopEvent>, k: nat)
    requires
        k < events.len(),
        action_at(initial_loop(), events, k) is RecordCommands,
    ensures
        exists|j: nat|
            #![trigger state_after(initial_loop(), events, j)]
            j < k && state_after(initial_loop(), events, j).phase == Phase::WaitingOnFence
                && events[j as int] == LoopEvent::FenceSignaled && (exists|i: nat|
                i < j && #[trigger] action_at(initial_loop(), events, i)
                    == LoopAction::WaitForFence) && forall|m: nat|
                j <= m < k ==> !(#[trigger] action_at(initial_loop(), events, m) is RecordCommands),
{
    let s0 = initial_loop();
    lemma_recording_starts_from_acquiring(events, k);
    lemma_acquiring_entered_after_fence(events, k);
    let j = choose|j: nat|
        #![trigger state_after(s0, events, j)]
        j < k && state_after(s0, events, j).phase == Phase::WaitingOnFence
            && events[j as int] == LoopEvent::FenceSignaled && forall|m: nat|
            j < m <= k ==> (#[trigger] state_after(s0, events, m)).phase == Phase::AcquiringImage;
    lemma_fence_wait_requested(events, j);
    assert forall|m: nat| j <= m < k implies !(#[trigger] action_at(s0, events, m) is RecordCommands) by {
        lemma_no_recording_while_acquiring(events, m);
    }
}

proof fn lemma_recording_starts_from_acquiring(events: Seq<LoopEvent>, k: nat)
    requires
        k < events.len(),
        action_at(initial_loop(), events, k) is RecordCommands,
    ensures
        state_after(initial_loop(), events, k).phase == Phase::AcquiringImage,
{
}

proof fn lemma_no_recording_while_acquiring(events: Seq<LoopEvent>, m: nat)
    requires
        m < events.len(),
        state_after(initial_loop(), events, m + 1).phase == Phase::AcquiringImage,
    ensures
        !(action_at(initial_loop(), events, m) is RecordCommands),
{
}

/// Once the device-idle wait is requested, the loop only drains or has closed.
proof fn lemma_draining_is_final(events: Seq<LoopEvent>, k1: nat, m: nat)
    requires
        k1 < m <= events.len(),
        action_at(initial_loop(), events, k1) == LoopAction::WaitDeviceIdle,
    ensures
        !in_frame(state_after(initial_loop(), events, m).phase),
    decreases m,
{
    if m > k1 + 1 {
        lemma_draining_is_final(events, k1, (m - 1) as nat);
    }
}

/// A draining loop was sent there by a request to wait for the device to go idle.
proof fn lemma_draining_entered_by_idle_wait(events: Seq<LoopEvent>, k: nat)
    requires
        k <= events.len(),
        !in_frame(state_after(initial_loop(), events, k).phase),
    ensures
        exists|j: nat|
            j < k && #[trigger] action_at(initial_loop(), events, j) == LoopAction::WaitDeviceIdle,
    decreases k,
{
    let s0 = initial_loop();
    let prev = state_after(s0, events, (k - 1) as nat);
    if !in_frame(prev.phase) {
        lemma_draining_entered_by_idle_wait(events, (k - 1) as nat);
    } else {
        assert(action_at(s0, events, (k - 1) as nat) == LoopAction::WaitDeviceIdle);
    }
}

/// In every run from the initial state the device-idle wait is requested at most once.
pub proof fn lemma_idle_wait_at_most_once(events: Seq<LoopEvent>, k1: nat, k2: nat)
    requires
        k1 < k2 < events.len(),
        action_at(initial_loop(), events, k1) == LoopAction::WaitDeviceIdle,
    ensures
        action_at(initial_loop(), events, k2) != LoopAction::WaitDeviceIdle,
{
    lemma_draining_is_final(events, k1, k2);
}

/// In every run from the initial state, teardown is requested only after the device-idle
/// wait, and only once.
pub proof fn lemma_teardown_after_idle_wait(events: Seq<LoopEvent>, k: nat)
    requires
        k < events.len(),
        action_at(initial_loop(), events, k) == LoopAction::TearDown,
    ensures
        exists|j: nat|
            j < k && #[trigger] action_at(initial_loop(), events, j) == LoopAction::WaitDeviceIdle,
        forall|m: nat|
            k < m < events.len() ==> #[trigger] action_at(initial_loop(), events, m)
                == LoopAction::Nothing,
{
    let s0 = initial_loop();
    lemma_draining_entered_by_idle_wait(events, k);
    assert forall|m: nat| k < m < events.len() implies #[trigger] action_at(s0, events, m)
        == LoopAction::Nothing by {
        lemma_closed_stays_closed(events, k, m);
    }
}

proof fn lemma_closed_stays_closed(events: Seq<LoopEvent>, k: nat, m: nat)
    requires
        k < m <= events.len(),
        action_at(initial_loop(), events, k) == LoopAction::TearDown,
    ensures
        state_after(initial_loop(), events, m).phase == Phase::Closed,
    decreases m,
{
    if m > k + 1 {
        lemma_closed_stays_closed(events, k, (m - 1) as nat);
    }
}

impl FrameLoop {
    pub fn new() -> (r: Self)
        ensures
            r == initial_loop(),
    {
        FrameLoop { phase: Phase::Idle, close_requested: false, failed: false, image_index: 0 }
    }

    /// Takes in one event and returns the action to perform next.
    pub fn step(&mut self, event: LoopEvent) -> (r: LoopAction)
        ensures
            (*final(self), r) == spec_step(*old(self), event),
    {
        if self.phase == Phase::Closed {
            return LoopAction::Nothing;
        }
        if event == LoopEvent::CloseRequested {
            self.close_requested = true;
            return LoopAction::Nothing;
        }
        if self.phase == Phase::Draining {
            return match event {
                LoopEvent::DeviceIdle => {
                    self.phase = Phase::Closed;
                    LoopAction::TearDown
                },
                LoopEvent::StepFailed => {
                    self.phase = Phase::Closed;
                    self.failed = true;
                    LoopAction::TearDown
                },
                _ => LoopAction::Nothing,
            };
        }
        if event == LoopEvent::StepFailed {
            self.phase = Phase::Draining;
            self.failed = true;
            return LoopAction::WaitDeviceIdle;
        }
        match (self.phase, event) {
            (Phase::Idle, LoopEvent::Tick) => {
                if self.close_requested {
                    self.phase = Phase::Draining;
                    LoopAction::WaitDeviceIdle
                } else {
                    self.phase = Phase::WaitingOnFence;
                    LoopAction::WaitForFence
                }
            },
            (Phase::WaitingOnFence, LoopEvent::FenceSignaled) => {
                self.phase = Phase::AcquiringImage;
                LoopAction::AcquireImage
            },
            (Phase::AcquiringImage, LoopEvent::ImageAcquired(i)) => {
                self.phase = Phase::Recording;
                self.image_index = i;
                LoopAction::RecordCommands(i)
            },
            (Phase::Recording, LoopEvent::Recorded) => {
                self.phase = Phase::Submitting;
                LoopAction::Submit
            },
            (Phase::Submitting, LoopEvent::Submitted) => {
                self.phase = Phase::Presenting;
                LoopAction::Present(self.image_index)
            },
            (Phase::Presenting, LoopEvent::Presented) => {
                self.phase = Phase::Idle;
                LoopAction::Nothing
            },
            _ => LoopAction::Nothing,
        }
    }

    /// The loop has torn down and ended.
    pub fn is_closed(&self) -> (r: bool)
        ensures
            r == (self.phase == Phase::Closed),
    {
        self.phase == Phase::Closed
    }

    /// A step failed along the way.
    pub fn has_failed(&self) -> (r: bool)
        ensures
            r == self.failed,
    {
        self.failed
    }
}

} // verus!
