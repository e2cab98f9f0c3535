use vstd::prelude::*;
use crate::bridge::{FrameDelivery, FrameOutcome};
use crate::config::{center_crop_config, StreamConfig, StreamConfigurator};
use crate::content::{Display, ShareableContent};
use crate::error::CaptureError;
use crate::filter::{
    blocked_applications,
    default_blocklist,
    default_blocklist_ids,
    ContentFilter,
    FilterBuilder,
};
use crate::geometry::Size;
use crate::sender::{valid_sender_name, Sender};

verus! {

/// The name under which the sender announces itself on the network.
pub const SENDER_NAME: &'static str = "sckitndi";

/// The width of the region that is captured and sent.
pub const OUTPUT_WIDTH: usize = 1920;

/// The height of the region that is captured and sent.
pub const OUTPUT_HEIGHT: usize = 1080;

/// The extent of the region that is captured and sent.
pub open spec fn output_size() -> Size {
    Size { width: OUTPUT_WIDTH, height: OUTPUT_HEIGHT }
}

/// Where a capture session stands. A session starts once and is never
/// stopped: nothing leads out of `Running`, and nothing leads to `Stopped`.
#[derive(Clone, Copy, Debug, PartialEq, Eq, Structural)]
pub enum SessionState {
    Idle,
    Configuring,
    Starting,
    Running,
    Failed,
    Stopped,
}

/// What is to be done next for the session.
#[derive(Clone, Copy, Debug, PartialEq, Eq, Structural)]
pub enum SessionAction {
    /// Nothing: the event does not belong to the state the session is in.
    Nothing,
    /// Ask the host what can be captured.
    RequestContent,
    /// Create the stream and attach the frame delegate to it.
    RegisterOutput,
    /// Ask the host to start capturing.
    StartCapture,
    /// Tell the caller that the session has failed, and why.
    Report(CaptureError),
    /// Tell the caller that frames are on their way.
    Started,
}

/// What the session waits for. This is the state of the session, with
/// `Configuring` told apart by the answer that is still to come.
#[derive(Clone, Copy, Debug, PartialEq, Eq, Structural)]
pub enum SessionPhase {
    Idle,
    AwaitingContent,
    AwaitingRegistration,
    Starting,
    Running,
    Failed,
}

/// What the user or the host reports to the session.
#[derive(Clone, Copy, Debug, PartialEq, Eq, Structural)]
pub enum SessionEvent {
    /// The user asked for the capture to start.
    StartRequested,
    /// The host could not say what can be captured.
    ContentUnavailable,
    /// The host listed the content, and no display is in it.
    ContentWithoutDisplay,
    /// The host listed the content, with a display to capture.
    ContentReady,
    /// The host answered the request to attach the frame delegate.
    OutputRegistered { accepted: bool },
    /// The host answered the request to start capturing.
    CaptureStarted { started: bool },
}

/// The phase after `event`, and what is to be done. An event that the phase
/// does not wait for changes nothing.
pub open spec fn session_step(phase: SessionPhase, event: SessionEvent) -> (
    SessionPhase,
    SessionAction,
) {
    match (phase, event) {
        (SessionPhase::Idle, SessionEvent::StartRequested) => (
            SessionPhase::AwaitingContent,
            SessionAction::RequestContent,
        ),
        (SessionPhase::AwaitingContent, SessionEvent::ContentUnavailable) => (
            SessionPhase::Failed,
            SessionAction::Report(CaptureError::ContentUnavailable),
        ),
        (SessionPhase::AwaitingContent, SessionEvent::ContentWithoutDisplay) => (
            SessionPhase::Failed,
            SessionAction::Report(CaptureError::FilterConstructionError),
        ),
        (SessionPhase::AwaitingContent, SessionEvent::ContentReady) => (
            SessionPhase::AwaitingRegistration,
            SessionAction::RegisterOutput,
        ),
        (SessionPhase::AwaitingRegistration, SessionEvent::OutputRegistered { accepted }) => if accepted {
            (SessionPhase::Starting, SessionAction::StartCapture)
        } else {
            (SessionPhase::Failed, SessionAction::Report(CaptureError::SessionStartError))
        },
        (SessionPhase::Starting, SessionEvent::CaptureStarted { started }) => if started {
            (SessionPhase::Running, SessionAction::Started)
        } else {
            (SessionPhase::Failed, SessionAction::Report(CaptureError::SessionStartError))
        },
        _ => (phase, SessionAction::Nothing),
    }
}

/// The state that a phase is shown as.
pub open spec fn state_of(phase: SessionPhase) -> SessionState {
    match phase {
        SessionPhase::Idle => SessionState::Idle,
        SessionPhase::AwaitingContent => SessionState::Configuring,
        SessionPhase::AwaitingRegistration => SessionState::Configuring,
        SessionPhase::Starting => SessionState::Starting,
        SessionPhase::Running => SessionState::Running,
        SessionPhase::Failed => SessionState::Failed,
    }
}

/// The event that the host's answer on the content amounts to.
pub open spec fn content_event(content: Option<&ShareableContent>) -> SessionEvent {
    match content {
        None => SessionEvent::ContentUnavailable,
        Some(c) => if c.spec_displays().len() == 0 {
            SessionEvent::ContentWithoutDisplay
        } else {
            SessionEvent::ContentReady
        },
    }
}

/// A capture stream: what it shows, how it delivers it, and whether a frame
/// delegate is attached to it.
#[derive(Clone, Debug)]
pub struct Stream {
    pub filter: ContentFilter,
    pub config: StreamConfig,
    pub has_output: bool,
}

impl Stream {
    /// A stream for the filter and the configuration, with no delegate yet.
    pub fn new(filter: ContentFilter, config: StreamConfig) -> (stream: Stream)
        ensures
            stream == (Stream { filter, config, has_output: false }),
    {
        Stream { filter, config, has_output: false }
    }

    /// Takes the host's answer to the request to attach the frame delegate.
    /// A stream has one delegate: the answer counts only where the host
    /// accepted and none was attached before. Returns whether the delegate
    /// is attached by this call.
    pub fn add_stream_output(&mut self, accepted: bool) -> (attached: bool)
        ensures
            attached == (accepted && !old(self).has_output),
            *final(self) == (Stream {
                has_output: old(self).has_output || accepted,
                ..*old(self)
            }),
    {
        let attached = accepted && !self.has_output;
        if attached {
            self.has_output = true;
        }
        attached
    }

    /// Takes the host's answer to the request to start capturing.
    pub fn start_capture(&self, started: bool) -> (result: Result<(), CaptureError>)
        ensures
            result == (if started {
                Ok::<(), CaptureError>(())
            } else {
                Err::<(), CaptureError>(CaptureError::SessionStartError)
            }),
    {
        if started {
            Ok(())
        } else {
            Err(CaptureError::SessionStartError)
        }
    }
}

/// How many frames came in, and what became of them.
#[derive(Clone, Copy, Debug, PartialEq, Eq, Structural)]
pub struct DeliveryStats {
    pub frames: u64,
    pub delivered: u64,
    pub dropped: u64,
}

/// The counts after one more frame. They stand still once they are full.
pub open spec fn recorded(stats: DeliveryStats, outcome: FrameOutcome) -> DeliveryStats {
    if stats.frames == u64::MAX {
        stats
    } else if outcome == FrameOutcome::Delivered {
        DeliveryStats {
            frames: (stats.frames + 1) as u64,
            delivered: (stats.delivered + 1) as u64,
            ..stats
        }
    } else {
        DeliveryStats {
            frames: (stats.frames + 1) as u64,
            dropped: (stats.dropped + 1) as u64,
            ..stats
        }
    }
}

/// The counts after a run of frames, one after the other.
pub open spec fn recorded_all(stats: DeliveryStats, outcomes: Seq<FrameOutcome>) -> DeliveryStats
    decreases outcomes.len(),
{
    if outcomes.len() == 0 {
        stats
    } else {
        recorded(recorded_all(stats, outcomes.drop_last()), outcomes.last())
    }
}

impl DeliveryStats {
    /// Every frame was either delivered or dropped.
    pub open spec fn wf(self) -> bool {
        self.delivered + self.dropped == self.frames
    }
}

/// The grabber: the sender, the one capture session of the process, and the
/// count of the frames that went through.
#[derive(Debug)]
pub struct Grabber {
    sender: Sender,
    state: SessionState,
    stream: Option<Stream>,
    stats: DeliveryStats,
}

/// A [`Grabber`] as contracts speak of it.
pub struct GrabberView {
    pub sender: Sender,
    pub state: SessionState,
    pub stream: Option<Stream>,
    pub stats: DeliveryStats,
}

impl View for Grabber {
    type V = GrabberView;

    closed spec fn view(&self) -> GrabberView {
        GrabberView {
            sender: self.sender,
            state: self.state,
            stream: self.stream,
            stats: self.stats,
        }
    }
}

/// Whether the stream is the one that a session makes of the content: the
/// first display, without the applications on the fixed blocklist and with
/// no window left out, cropped to the middle of the display at the output
/// size, and with no delegate yet.
pub open spec fn session_stream(stream: Stream, content: ShareableContent) -> bool {
    &&& content.spec_displays().len() > 0
    &&& stream.filter matches ContentFilter::DisplayExcludingApplications {
        display,
        applications,
        excepting_windows,
    } && display == content.spec_displays()[0] && applications@ == blocked_applications(
        content.spec_applications(),
        default_blocklist_ids(),
    ) && excepting_windows@.len() == 0
    &&& stream.config@ == center_crop_config(content.spec_displays()[0].bounds, output_size())
    &&& !stream.has_output
}

/// A failure is reported with the step that makes the session fail, and with
/// no other: once failed, a session stays as it is and says nothing more.
pub open spec fn reported_once(before: GrabberView, after: GrabberView, action: SessionAction) -> bool {
    &&& action is Report <==> (after.state is Failed && !(before.state is Failed))
    &&& before.state is Failed ==> after == before
    &&& before.state is Running ==> after == before
    &&& after.sender == before.sender
    &&& after.stats == before.stats
}

impl Grabber {
    /// The sender exists, the counts add up, and a session that is starting
    /// or running has a stream with its delegate attached.
    pub open spec fn wf(self) -> bool {
        &&& self@.sender.wf()
        &&& self@.stats.wf()
        &&& self@.state is Idle ==> self@.stream is None
        &&& (self@.state is Starting || self@.state is Running) ==> (self@.stream matches Some(s)
            && s.has_output)
        &&& self@.state is Configuring ==> (self@.stream matches Some(s) ==> !s.has_output)
        &&& !(self@.state is Stopped)
    }

    /// The phase that the session is in.
    pub open spec fn phase(self) -> SessionPhase {
        match self@.state {
            SessionState::Idle => SessionPhase::Idle,
            SessionState::Configuring => if self@.stream is None {
                SessionPhase::AwaitingContent
            } else {
                SessionPhase::AwaitingRegistration
            },
            SessionState::Starting => SessionPhase::Starting,
            SessionState::Running => SessionPhase::Running,
            _ => SessionPhase::Failed,
        }
    }

    /// The grabber for the handle that the transport gave for a sender named
    /// [`SENDER_NAME`]. Without a sender there is no grabber, and so nothing
    /// that could send a frame.
    pub fn new(handle: u64) -> (grabber: Result<Grabber, CaptureError>)
        ensures
            handle != 0 ==> (grabber matches Ok(g) && g.wf() && g@.sender.handle() == handle
                && g@.sender.name() == SENDER_NAME@ && g@.state == SessionState::Idle
                && g@.stream is None && g@.stats == (DeliveryStats {
                frames: 0,
                delivered: 0,
                dropped: 0,
            })),
            handle == 0 ==> (grabber matches Err(e) && e == CaptureError::SenderConstructionError),
    {
        proof {
            reveal_strlit("sckitndi");
            assert(valid_sender_name(SENDER_NAME@)) by {
                assert forall|k: int| 0 <= k < SENDER_NAME@.len() implies SENDER_NAME@[k]
                    != '\0' by {}
            }
        }
        match Sender::new(SENDER_NAME, handle) {
            Ok(sender) => Ok(
                Grabber {
                    sender,
                    state: SessionState::Idle,
                    stream: None,
                    stats: DeliveryStats { frames: 0, delivered: 0, dropped: 0 },
                },
            ),
            Err(e) => Err(e),
        }
    }

    /// The sender.
    pub fn sender(&self) -> (sender: &Sender)
        ensures
            *sender == self@.sender,
    {
        &self.sender
    }

    /// Where the session stands.
    pub fn state(&self) -> (state: SessionState)
        ensures
            state == self@.state,
    {
        self.state
    }

    /// What the session waits for.
    pub fn current_phase(&self) -> (phase: SessionPhase)
        ensures
            phase == self.phase(),
    {
        match self.state {
            SessionState::Idle => SessionPhase::Idle,
            SessionState::Configuring => if self.stream.is_none() {
                SessionPhase::AwaitingContent
            } else {
                SessionPhase::AwaitingRegistration
            },
            SessionState::Starting => SessionPhase::Starting,
            SessionState::Running => SessionPhase::Running,
            _ => SessionPhase::Failed,
        }
    }

    /// The stream, once the session has made one.
    pub fn stream(&self) -> (stream: &Option<Stream>)
        ensures
            *stream == self@.stream,
    {
        &self.stream
    }

    /// The frame counts.
    pub fn stats(&self) -> (stats: DeliveryStats)
        ensures
            stats == self@.stats,
    {
        self.stats
    }

    /// Starts the session: the host is to be asked for the content. A
    /// process has one session, so this does something only the first time.
    pub fn start(&mut self) -> (action: SessionAction)
        requires
            old(self).wf(),
        ensures
            final(self).wf(),
            reported_once(old(self)@, final(self)@, action),
            (final(self).phase(), action) == session_step(
                old(self).phase(),
                SessionEvent::StartRequested,
            ),
            old(self)@.state is Idle ==> action == SessionAction::RequestContent && final(self)@ == (
            GrabberView { state: SessionState::Configuring, ..old(self)@ }),
            !(old(self)@.state is Idle) ==> action == SessionAction::Nothing && final(self)@ == old(self)@,
    {
        match self.state {
            SessionState::Idle => {
                self.state = SessionState::Configuring;
                SessionAction::RequestContent
            },
            _ => SessionAction::Nothing,
        }
    }

    /// Whether the session waits for the host's answer on the content.
    pub open spec fn awaits_content(self) -> bool {
        self@.state is Configuring && self@.stream is None
    }

    /// Whether the session waits for the host's answer on the delegate.
    pub open spec fn awaits_registration(self) -> bool {
        self@.state is Configuring && (self@.stream matches Some(s) && !s.has_output)
    }

    /// Takes the host's answer on what can be captured; `None` stands for its
    /// failure to answer. From the content the session makes its stream, for
    /// the first display; the delegate is to be attached next. Without
    /// content, or without a display in it, the session fails.
    pub fn content_received(&mut self, content: Option<&ShareableContent>) -> (action:
        SessionAction)
        requires
            old(self).wf(),
        ensures
            final(self).wf(),
            reported_once(old(self)@, final(self)@, action),
            (final(self).phase(), action) == session_step(old(self).phase(), content_event(content)),
            !old(self).awaits_content() ==> action == SessionAction::Nothing && final(self)@ == old(self)@,
            old(self).awaits_content() ==> (match content {
                None => action == SessionAction::Report(CaptureError::ContentUnavailable)
                    && final(self)@ == (GrabberView { state: SessionState::Failed, ..old(self)@ }),
                Some(c) => if c.spec_displays().len() == 0 {
                    action == SessionAction::Report(CaptureError::FilterConstructionError)
                        && final(self)@ == (GrabberView {
                        state: SessionState::Failed,
                        ..old(self)@
                    })
                } else {
                    action == SessionAction::RegisterOutput && final(self)@.state
                        == SessionState::Configuring && (final(self)@.stream matches Some(s)
                        && session_stream(s, *c))
                },
            }),
    {
        if !(matches!(self.state, SessionState::Configuring) && self.stream.is_none()) {
            return SessionAction::Nothing;
        }
        match content {
            None => {
                self.state = SessionState::Failed;
                SessionAction::Report(CaptureError::ContentUnavailable)
            },
            Some(c) => {
                let displays = c.displays();
                if displays.len() == 0 {
                    self.state = SessionState::Failed;
                    return SessionAction::Report(CaptureError::FilterConstructionError);
                }
                let display: Display = displays[0];
                let blocklist = default_blocklist();
                let filter = FilterBuilder::build(display, c.applications(), &blocklist);
                let desired = Size { width: OUTPUT_WIDTH, height: OUTPUT_HEIGHT };
                let config = StreamConfigurator::configure(&display, desired);
                self.stream = Some(Stream::new(filter, config));
                SessionAction::RegisterOutput
            },
        }
    }

    /// Takes the host's answer on attaching the frame delegate. Capturing is
    /// started only with the delegate attached: where the host refused, the
    /// session fails and no start is asked for.
    pub fn output_registered(&mut self, accepted: bool) -> (action: SessionAction)
        requires
            old(self).wf(),
        ensures
            final(self).wf(),
            reported_once(old(self)@, final(self)@, action),
            (final(self).phase(), action) == session_step(
                old(self).phase(),
                SessionEvent::OutputRegistered { accepted },
            ),
            action == SessionAction::StartCapture <==> (old(self).awaits_registration()
                && accepted),
            !old(self).awaits_registration() ==> action == SessionAction::Nothing && final(self)@
                == old(self)@,
            old(self).awaits_registration() && accepted ==> final(self)@ == (GrabberView {
                state: SessionState::Starting,
                stream: Some(Stream { has_output: true, ..old(self)@.stream.unwrap() }),
                ..old(self)@
            }),
            old(self).awaits_registration() && !accepted ==> action == SessionAction::Report(
                CaptureError::SessionStartError,
            ) && final(self)@ == (GrabberView { state: SessionState::Failed, ..old(self)@ }),
    {
        if !matches!(self.state, SessionState::Configuring) {
            return SessionAction::Nothing;
        }
        match &mut self.stream {
            None => SessionAction::Nothing,
            Some(stream) => {
                if stream.has_output {
                    return SessionAction::Nothing;
                }
                if stream.add_stream_output(accepted) {
                    self.state = SessionState::Starting;
                    SessionAction::StartCapture
                } else {
                    self.state = SessionState::Failed;
                    SessionAction::Report(CaptureError::SessionStartError)
                }
            },
        }
    }

    /// Takes the host's answer on the start of the capture.
    pub fn capture_started(&mut self, started: bool) -> (action: SessionAction)
        requires
            old(self).wf(),
        ensures
            final(self).wf(),
            reported_once(old(self)@, final(self)@, action),
            (final(self).phase(), action) == session_step(
                old(self).phase(),
                SessionEvent::CaptureStarted { started },
            ),
            !(old(self)@.state is Starting) ==> action == SessionAction::Nothing && final(self)@
                == old(self)@,
            old(self)@.state is Starting && started ==> action == SessionAction::Started
                && final(self)@ == (GrabberView { state: SessionState::Running, ..old(self)@ }),
            old(self)@.state is Starting && !started ==> action == SessionAction::Report(
                CaptureError::SessionStartError,
            ) && final(self)@ == (GrabberView { state: SessionState::Failed, ..old(self)@ }),
    {
        if !matches!(self.state, SessionState::Starting) {
            return SessionAction::Nothing;
        }
        let answer = match &self.stream {
            Some(stream) => stream.start_capture(started),
            None => Err(CaptureError::SessionStartError),
        };
        match answer {
            Ok(()) => {
                self.state = SessionState::Running;
                SessionAction::Started
            },
            Err(e) => {
                self.state = SessionState::Failed;
                SessionAction::Report(e)
            },
        }
    }

    /// Begins the delivery of a buffer that the host has handed over. It
    /// goes through the grabber's one sender.
    pub fn did_output_sample_buffer_of_type(&self, buffer: u64) -> (delivery: FrameDelivery)
        requires
            self.wf(),
        ensures
            delivery.wf(),
            delivery.sender() == self@.sender.handle(),
            delivery.buffer() == buffer,
            delivery.state() == crate::bridge::DeliveryState::Received,
            delivery.tally() == (crate::bridge::DeliveryTally { locks: 0, sends: 0, unlocks: 0 }),
    {
        FrameDelivery::new(&self.sender, buffer)
    }

    /// Counts a frame whose delivery has ended.
    pub fn frame_finished(&mut self, outcome: FrameOutcome)
        requires
            old(self).wf(),
        ensures
            final(self).wf(),
            final(self)@ == (GrabberView {
                stats: recorded(old(self)@.stats, outcome),
                ..old(self)@
            }),
    {
        if self.stats.frames == u64::MAX {
            return ;
        }
        self.stats.frames = self.stats.frames + 1;
        match outcome {
            FrameOutcome::Delivered => {
                self.stats.delivered = self.stats.delivered + 1;
            },
            FrameOutcome::Dropped(_) => {
                self.stats.dropped = self.stats.dropped + 1;
            },
        }
    }
}

/// The entry point behind the start button: starts the session of the
/// grabber that the process was set up with.
pub fn start(grabber: &mut Grabber) -> (action: SessionAction)
    requires
        old(grabber).wf(),
    ensures
        final(grabber).wf(),
        reported_once(old(grabber)@, final(grabber)@, action),
        old(grabber)@.state is Idle ==> action == SessionAction::RequestContent && final(grabber)@
            == (GrabberView { state: SessionState::Configuring, ..old(grabber)@ }),
        !(old(grabber)@.state is Idle) ==> action == SessionAction::Nothing && final(grabber)@
            == old(grabber)@,
{
    grabber.start()
}

/// The phase of a session tells its state.
pub proof fn lemma_phase_tells_state(grabber: Grabber)
    requires
        grabber.wf(),
    ensures
        state_of(grabber.phase()) == grabber@.state,
{
}

/// The phase that a run of events leads to, one step after the other.
pub open spec fn phase_after(phase: SessionPhase, events: Seq<SessionEvent>) -> SessionPhase
    decreases events.len(),
{
    if events.len() == 0 {
        phase
    } else {
        session_step(phase_after(phase, events.drop_last()), events.last()).0
    }
}

/// What a session that starts idle is to do on the event at position `at` of
/// a run.
pub open spec fn action_at(events: Seq<SessionEvent>, at: int) -> SessionAction
    recommends
        0 <= at < events.len(),
{
    session_step(phase_after(SessionPhase::Idle, events.take(at)), events[at]).1
}

/// How far a phase is along the way of a session. No step leads back.
pub open spec fn progress(phase: SessionPhase) -> nat {
    match phase {
        SessionPhase::Idle => 0,
        SessionPhase::AwaitingContent => 1,
        SessionPhase::AwaitingRegistration => 2,
        SessionPhase::Starting => 3,
        SessionPhase::Running => 4,
        SessionPhase::Failed => 5,
    }
}

/// A session only moves on: a later point of a run is never in an earlier
/// phase.
pub proof fn lemma_session_only_moves_on(events: Seq<SessionEvent>, earlier: int, later: int)
    requires
        0 <= earlier <= later <= events.len(),
    ensures
        progress(phase_after(SessionPhase::Idle, events.take(earlier))) <= progress(
            phase_after(SessionPhase::Idle, events.take(later)),
        ),
    decreases later - earlier,
{
    if earlier < later {
        lemma_session_only_moves_on(events, earlier, later - 1);
        assert(events.take(later).drop_last() =~= events.take(later - 1));
    }
}

/// In every run of events, whatever the user and the host report and in
/// whatever order: once a failure was reported nothing is asked for or
/// reported again; the host is asked at most once for the content, for the
/// delegate and for the start; and it is asked to start capturing only on
/// the answer that the delegate is attached.
pub proof fn lemma_session_acts_once(events: Seq<SessionEvent>, first: int, second: int)
    requires
        0 <= first < second < events.len(),
    ensures
        action_at(events, first) is Report ==> action_at(events, second)
            == SessionAction::Nothing,
        action_at(events, first) != SessionAction::Nothing ==> action_at(events, second)
            != action_at(events, first),
        action_at(events, first) == SessionAction::StartCapture ==> events[first] == (
        SessionEvent::OutputRegistered { accepted: true }),
{
    lemma_session_only_moves_on(events, first + 1, second);
    assert(events.take(first + 1).drop_last() =~= events.take(first));
}

/// Counting keeps the counts consistent, and as long as they are not full
/// every frame counts once: of `n` frames that were all delivered, `n` were
/// sent and none was dropped.
pub proof fn lemma_every_frame_counts_once(stats: DeliveryStats, outcomes: Seq<FrameOutcome>)
    requires
        stats.wf(),
        stats.frames + outcomes.len() <= u64::MAX,
    ensures
        recorded_all(stats, outcomes).wf(),
        recorded_all(stats, outcomes).frames == stats.frames + outcomes.len(),
        (forall|k: int| 0 <= k < outcomes.len() ==> outcomes[k] == FrameOutcome::Delivered)
            ==> recorded_all(stats, outcomes).delivered == stats.delivered + outcomes.len()
            && recorded_all(stats, outcomes).dropped == stats.dropped,
    decreases outcomes.len(),
{
    if outcomes.len() > 0 {
        lemma_every_frame_counts_once(stats, outcomes.drop_last());
    }
}

} // verus!
