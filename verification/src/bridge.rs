use vstd::prelude::*;
use crate::error::CaptureError;
use crate::sender::{unclocked_frame, video_frame, Sender, VideoFrame};

verus! {

/// The flags with which a buffer is locked and released: the lock is for
/// reading only.
pub const LOCK_FLAGS: u64 = 1;

/// The status with which the host reports that a buffer was locked.
pub const LOCK_SUCCEEDED: i32 = 0;

/// What a locked buffer says of itself. It is read from the buffer and never
/// assumed, since the host may clip a frame.
#[derive(Clone, Copy, Debug, PartialEq, Eq, Structural)]
pub struct FrameEvent {
    pub width: usize,
    pub height: usize,
    pub base_address: usize,
}

/// How the delivery of one frame ended.
#[derive(Clone, Copy, Debug, PartialEq, Eq, Structural)]
pub enum FrameOutcome {
    /// The frame was handed to the sender.
    Delivered,
    /// The frame was left out, and why. The session goes on.
    Dropped(CaptureError),
}

/// Where the delivery of one frame stands.
#[derive(Clone, Copy, Debug, PartialEq, Eq, Structural)]
pub enum DeliveryState {
    /// The buffer has arrived and nothing was done with it.
    Received,
    /// The lock was asked for.
    Locking,
    /// The lock is held and the frame is with the sender.
    Sending,
    /// The release of the lock was asked for; the delivery ends with the
    /// given outcome once it is through.
    Releasing(FrameOutcome),
    /// Nothing is left to do, and the buffer is not touched again.
    Finished(FrameOutcome),
}

/// What the host or the sender reports back.
#[derive(Clone, Copy, Debug, PartialEq, Eq, Structural)]
pub enum DeliveryEvent {
    /// The callback was entered.
    Begin,
    /// The lock was asked for and answered with `status`; `frame` is what the
    /// buffer says of itself, and means something only if the lock is held.
    Locked { status: i32, frame: FrameEvent },
    /// The sender has returned.
    Sent,
    /// The sender failed. The failure ends here and does not reach the host.
    SendFailed,
    /// The lock was released.
    Unlocked,
}

/// What is to be done next for the frame.
#[derive(Clone, Copy, Debug, PartialEq, Eq, Structural)]
pub enum DeliveryAction {
    /// Lock the buffer, then read its extent and base address.
    Lock { buffer: u64, flags: u64 },
    /// Hand the frame to the sender with the given handle and wait for it.
    Send { sender: u64, frame: VideoFrame },
    /// Release the lock.
    Unlock { buffer: u64, flags: u64 },
    /// Return from the callback.
    Finish(FrameOutcome),
    /// The event does not belong here; nothing is to be done for it.
    Ignore,
}

/// Whether a locked buffer can be sent: it has an address, and its extent
/// can be written in the transport's frame header.
pub open spec fn sendable(frame: FrameEvent) -> bool {
    &&& frame.base_address != 0
    &&& frame.width <= i32::MAX
    &&& frame.height <= i32::MAX
}

/// The state after `event`, and what is to be done. The buffer is locked
/// first; a frame whose lock fails is dropped with nothing to release; one
/// that is locked is released again whatever happens in between, and only
/// then does the delivery end.
pub open spec fn delivery_step(
    sender: u64,
    buffer: u64,
    state: DeliveryState,
    event: DeliveryEvent,
) -> (DeliveryState, DeliveryAction) {
    match (state, event) {
        (DeliveryState::Received, DeliveryEvent::Begin) => (
            DeliveryState::Locking,
            DeliveryAction::Lock { buffer, flags: LOCK_FLAGS },
        ),
        (DeliveryState::Locking, DeliveryEvent::Locked { status, frame }) => {
            if status != LOCK_SUCCEEDED {
                let outcome = FrameOutcome::Dropped(CaptureError::FrameDeliveryError);
                (DeliveryState::Finished(outcome), DeliveryAction::Finish(outcome))
            } else if sendable(frame) {
                (
                    DeliveryState::Sending,
                    DeliveryAction::Send {
                        sender,
                        frame: unclocked_frame(
                            frame.width as i32,
                            frame.height as i32,
                            frame.base_address,
                        ),
                    },
                )
            } else {
                (
                    DeliveryState::Releasing(
                        FrameOutcome::Dropped(CaptureError::FrameDeliveryError),
                    ),
                    DeliveryAction::Unlock { buffer, flags: LOCK_FLAGS },
                )
            }
        },
        (DeliveryState::Sending, DeliveryEvent::Sent) => (
            DeliveryState::Releasing(FrameOutcome::Delivered),
            DeliveryAction::Unlock { buffer, flags: LOCK_FLAGS },
        ),
        (DeliveryState::Sending, DeliveryEvent::SendFailed) => (
            DeliveryState::Releasing(FrameOutcome::Dropped(CaptureError::FrameDeliveryError)),
            DeliveryAction::Unlock { buffer, flags: LOCK_FLAGS },
        ),
        (DeliveryState::Releasing(outcome), DeliveryEvent::Unlocked) => (
            DeliveryState::Finished(outcome),
            DeliveryAction::Finish(outcome),
        ),
        _ => (state, DeliveryAction::Ignore),
    }
}

/// Whether the lock on the buffer is held in this state.
pub open spec fn holds_lock(state: DeliveryState) -> bool {
    state is Sending || state is Releasing
}

/// What a delivery has asked for so far.
#[derive(Clone, Copy, Debug, PartialEq, Eq, Structural)]
pub struct DeliveryTally {
    pub locks: u8,
    pub sends: u8,
    pub unlocks: u8,
}

/// The tally after one more action.
pub open spec fn tally_after(tally: DeliveryTally, action: DeliveryAction) -> DeliveryTally {
    match action {
        DeliveryAction::Lock { .. } => DeliveryTally { locks: (tally.locks + 1) as u8, ..tally },
        DeliveryAction::Send { .. } => DeliveryTally { sends: (tally.sends + 1) as u8, ..tally },
        DeliveryAction::Unlock { .. } => DeliveryTally {
            unlocks: (tally.unlocks + 1) as u8,
            ..tally
        },
        _ => tally,
    }
}

/// The tallies that can go with a state.
pub open spec fn tally_fits(state: DeliveryState, tally: DeliveryTally) -> bool {
    match state {
        DeliveryState::Received => tally.locks == 0 && tally.sends == 0 && tally.unlocks == 0,
        DeliveryState::Locking => tally.locks == 1 && tally.sends == 0 && tally.unlocks == 0,
        DeliveryState::Sending => tally.locks == 1 && tally.sends == 1 && tally.unlocks == 0,
        DeliveryState::Releasing(outcome) => tally.locks == 1 && tally.unlocks == 1 && tally.sends
            <= 1 && (outcome == FrameOutcome::Delivered ==> tally.sends == 1),
        DeliveryState::Finished(outcome) => tally.locks == 1 && tally.sends <= tally.unlocks
            && tally.unlocks <= 1 && (outcome == FrameOutcome::Delivered ==> tally.sends == 1),
    }
}

/// The delivery of one frame: from the moment the host hands a buffer over
/// to the return from the callback. It lives no longer than that, and keeps
/// nothing of the buffer but the handle it was given.
#[derive(Debug)]
pub struct FrameDelivery {
    sender: u64,
    buffer: u64,
    state: DeliveryState,
    tally: DeliveryTally,
}

impl FrameDelivery {
    pub closed spec fn sender(self) -> u64 {
        self.sender
    }

    pub closed spec fn buffer(self) -> u64 {
        self.buffer
    }

    pub closed spec fn state(self) -> DeliveryState {
        self.state
    }

    pub closed spec fn tally(self) -> DeliveryTally {
        self.tally
    }

    /// The sender exists, and the tally is one that the state allows.
    pub open spec fn wf(self) -> bool {
        self.sender() != 0 && tally_fits(self.state(), self.tally())
    }

    /// A delivery for a buffer that has just arrived, through the given
    /// sender.
    pub fn new(sender: &Sender, buffer: u64) -> (delivery: FrameDelivery)
        requires
            sender.wf(),
        ensures
            delivery.wf(),
            delivery.sender() == sender.handle(),
            delivery.buffer() == buffer,
            delivery.state() == DeliveryState::Received,
            delivery.tally() == (DeliveryTally { locks: 0, sends: 0, unlocks: 0 }),
    {
        FrameDelivery {
            sender: sender.send_instance(),
            buffer,
            state: DeliveryState::Received,
            tally: DeliveryTally { locks: 0, sends: 0, unlocks: 0 },
        }
    }

    /// Where the delivery stands.
    pub fn current_state(&self) -> (state: DeliveryState)
        ensures
            state == self.state(),
    {
        self.state
    }

    /// What was asked for so far.
    pub fn current_tally(&self) -> (tally: DeliveryTally)
        ensures
            tally == self.tally(),
    {
        self.tally
    }

    /// The outcome, once the delivery has ended.
    pub fn outcome(&self) -> (outcome: Option<FrameOutcome>)
        ensures
            outcome == (match self.state() {
                DeliveryState::Finished(o) => Some(o),
                _ => None,
            }),
    {
        match self.state {
            DeliveryState::Finished(o) => Some(o),
            _ => None,
        }
    }

    /// Takes what the host or the sender reported and says what is to be done
    /// next: see [`delivery_step`].
    pub fn step(&mut self, event: DeliveryEvent) -> (action: DeliveryAction)
        requires
            old(self).wf(),
        ensures
            final(self).wf(),
            final(self).sender() == old(self).sender(),
            final(self).buffer() == old(self).buffer(),
            (final(self).state(), action) == delivery_step(
                old(self).sender(),
                old(self).buffer(),
                old(self).state(),
                event,
            ),
            final(self).tally() == tally_after(old(self).tally(), action),
    {
        let dropped = FrameOutcome::Dropped(CaptureError::FrameDeliveryError);
        let unlock = DeliveryAction::Unlock { buffer: self.buffer, flags: LOCK_FLAGS };
        match (self.state, event) {
            (DeliveryState::Received, DeliveryEvent::Begin) => {
                self.state = DeliveryState::Locking;
                self.tally.locks = self.tally.locks + 1;
                DeliveryAction::Lock { buffer: self.buffer, flags: LOCK_FLAGS }
            },
            (DeliveryState::Locking, DeliveryEvent::Locked { status, frame }) => {
                if status != LOCK_SUCCEEDED {
                    self.state = DeliveryState::Finished(dropped);
                    DeliveryAction::Finish(dropped)
                } else if frame.base_address != 0 && frame.width <= 0x7fff_ffff && frame.height
                    <= 0x7fff_ffff {
                    self.state = DeliveryState::Sending;
                    self.tally.sends = self.tally.sends + 1;
                    DeliveryAction::Send {
                        sender: self.sender,
                        frame: video_frame(
                            frame.width as i32,
                            frame.height as i32,
                            frame.base_address,
                        ),
                    }
                } else {
                    self.state = DeliveryState::Releasing(dropped);
                    self.tally.unlocks = self.tally.unlocks + 1;
                    unlock
                }
            },
            (DeliveryState::Sending, DeliveryEvent::Sent) => {
                self.state = DeliveryState::Releasing(FrameOutcome::Delivered);
                self.tally.unlocks = self.tally.unlocks + 1;
                unlock
            },
            (DeliveryState::Sending, DeliveryEvent::SendFailed) => {
                self.state = DeliveryState::Releasing(dropped);
                self.tally.unlocks = self.tally.unlocks + 1;
                unlock
            },
            (DeliveryState::Releasing(outcome), DeliveryEvent::Unlocked) => {
                self.state = DeliveryState::Finished(outcome);
                DeliveryAction::Finish(outcome)
            },
            _ => DeliveryAction::Ignore,
        }
    }
}

/// Whether the event reports a lock that is held on a buffer that cannot be
/// sent.
pub open spec fn locked_but_unsendable(event: DeliveryEvent) -> bool {
    match event {
        DeliveryEvent::Locked { status, frame } => status == LOCK_SUCCEEDED && !sendable(frame),
        _ => false,
    }
}

/// A buffer is locked only at the start of its delivery: while a delivery is
/// under way no second lock is asked for, so two locks on one buffer never
/// overlap within it.
pub proof fn lemma_lock_only_at_start(
    sender: u64,
    buffer: u64,
    state: DeliveryState,
    event: DeliveryEvent,
)
    ensures
        delivery_step(sender, buffer, state, event).1 is Lock <==> (state is Received
            && event is Begin),
        delivery_step(sender, buffer, state, event).1 is Lock ==> !holds_lock(state),
{
}

/// The lock is released exactly where it is held and the frame is done with:
/// after the sender returned or failed, or at once where a locked buffer
/// cannot be sent. A frame whose lock was refused has nothing to release.
/// The delivery ends only with the lock released.
pub proof fn lemma_lock_released_on_every_path(
    sender: u64,
    buffer: u64,
    state: DeliveryState,
    event: DeliveryEvent,
)
    ensures
        ({
            let (next, action) = delivery_step(sender, buffer, state, event);
            &&& action is Unlock <==> (state is Sending && (event is Sent || event is SendFailed))
                || (state is Locking && locked_but_unsendable(event))
            &&& action is Send ==> holds_lock(next)
            &&& action is Finish ==> next is Finished
            &&& next is Finished ==> !holds_lock(next)
            &&& state is Finished ==> next == state && action is Ignore
        }),
{
}

/// A frame is sent only under the lock, through the sender of the delivery,
/// and as the buffer describes itself: the extent and the address go out as
/// they were read, in the byte order they were captured in.
pub proof fn lemma_send_carries_the_buffer(
    sender: u64,
    buffer: u64,
    state: DeliveryState,
    event: DeliveryEvent,
)
    requires
        delivery_step(sender, buffer, state, event).1 is Send,
    ensures
        state is Locking,
        event matches DeliveryEvent::Locked { status, frame } && status == LOCK_SUCCEEDED
            && delivery_step(sender, buffer, state, event).1 == (DeliveryAction::Send {
            sender,
            frame: unclocked_frame(frame.width as i32, frame.height as i32, frame.base_address),
        }) && unclocked_frame(
            frame.width as i32,
            frame.height as i32,
            frame.base_address,
        ).xres as int == frame.width as int && unclocked_frame(
            frame.width as i32,
            frame.height as i32,
            frame.base_address,
        ).yres as int == frame.height as int,
{
}

/// A frame goes out only through the sender that the delivery was made
/// with, and that sender exists.
pub proof fn lemma_send_goes_through_the_sender(delivery: FrameDelivery, event: DeliveryEvent)
    requires
        delivery.wf(),
    ensures
        delivery_step(delivery.sender(), delivery.buffer(), delivery.state(), event).1 matches DeliveryAction::Send {
            sender,
            ..
        } ==> sender == delivery.sender() && sender != 0,
{
}

/// The state that a run of events leads to, one step after the other.
pub open spec fn state_after(
    sender: u64,
    buffer: u64,
    state: DeliveryState,
    events: Seq<DeliveryEvent>,
) -> DeliveryState
    decreases events.len(),
{
    if events.len() == 0 {
        state
    } else {
        delivery_step(
            sender,
            buffer,
            state_after(sender, buffer, state, events.drop_last()),
            events.last(),
        ).0
    }
}

/// The tally of what a run of events made the delivery ask for.
pub open spec fn tally_of(
    sender: u64,
    buffer: u64,
    state: DeliveryState,
    tally: DeliveryTally,
    events: Seq<DeliveryEvent>,
) -> DeliveryTally
    decreases events.len(),
{
    if events.len() == 0 {
        tally
    } else {
        tally_after(
            tally_of(sender, buffer, state, tally, events.drop_last()),
            delivery_step(
                sender,
                buffer,
                state_after(sender, buffer, state, events.drop_last()),
                events.last(),
            ).1,
        )
    }
}

/// Whatever the host and the sender report, in whatever order and however
/// often, one delivery asks for the lock at most once, sends at most once
/// and only after the lock, and releases at most once and only what it
/// locked. Once it has ended, the lock was asked for exactly once.
pub proof fn lemma_one_lock_per_delivery(sender: u64, buffer: u64, events: Seq<DeliveryEvent>)
    ensures
        ({
            let start = DeliveryTally { locks: 0, sends: 0, unlocks: 0 };
            let state = state_after(sender, buffer, DeliveryState::Received, events);
            let tally = tally_of(sender, buffer, DeliveryState::Received, start, events);
            &&& tally_fits(state, tally)
            &&& tally.locks <= 1
            &&& tally.sends <= tally.locks
            &&& tally.unlocks <= tally.locks
            &&& state is Finished ==> tally.locks == 1 && tally.sends <= tally.unlocks
            &&& state == DeliveryState::Finished(FrameOutcome::Delivered) ==> tally == (
            DeliveryTally { locks: 1, sends: 1, unlocks: 1 })
        }),
    decreases events.len(),
{
    if events.len() > 0 {
        lemma_one_lock_per_delivery(sender, buffer, events.drop_last());
    }
}

/// A delivery that has ended asked for the lock once. If the frame was
/// delivered it was sent once and released once; if not, it was sent at most
/// once and released exactly if it had been locked.
pub proof fn lemma_finished_delivery_is_balanced(delivery: FrameDelivery)
    requires
        delivery.wf(),
        delivery.state() is Finished,
    ensures
        delivery.tally().locks == 1,
        delivery.tally().unlocks <= 1,
        delivery.tally().sends <= delivery.tally().unlocks,
        delivery.state() == DeliveryState::Finished(FrameOutcome::Delivered) ==> delivery.tally()
            == (DeliveryTally { locks: 1, sends: 1, unlocks: 1 }),
{
}

} // verus!
