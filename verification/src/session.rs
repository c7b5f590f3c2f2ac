//! The capture session: one frame's way from the capture request to a
//! terminal result.
//!
//! The session never talks to the compositor or to the buffer pool itself.
//! The caller reports what happened as a [`SessionEvent`]; the session moves
//! to its next state and answers with the [`CaptureAction`] to perform next.

use crate::descriptor::{BufferDescriptor, BufferKind, PixelFormat};
use crate::error::{AllocationError, FrameCaptureError};
use crate::negotiate::{has_shared, select_descriptor, selection, selection_is_first_match};
use crate::status::{CaptureStatus, Timestamp};
use vstd::prelude::*;

verus! {

/// Names a buffer that the pool handed out. The session only carries it.
#[derive(Clone, Copy, Debug, PartialEq, Eq, Structural)]
pub struct BufferHandle {
    pub slot: u32,
}

/// The stages of a session, in the order they are passed through.
#[derive(Clone, Copy, Debug, PartialEq, Eq, Structural)]
pub enum Phase {
    /// The capture was requested; no offer has arrived.
    Requested,
    /// Offers are arriving, or have all arrived and a buffer is being allocated.
    Negotiating,
    /// A buffer of the selected layout is bound to the frame.
    BufferBound,
    /// The copy request is out; the compositor has not answered yet.
    AwaitingCompletion,
    /// The buffer holds the captured frame.
    Ready,
    /// The capture ended without a frame.
    Failed,
}

impl Phase {
    /// Position of the phase along the way of a session. The two terminal
    /// phases share the last position.
    pub open spec fn rank(self) -> nat {
        match self {
            Phase::Requested => 0,
            Phase::Negotiating => 1,
            Phase::BufferBound => 2,
            Phase::AwaitingCompletion => 3,
            Phase::Ready => 4,
            Phase::Failed => 4,
        }
    }

    /// Whether a session in this phase has ended.
    pub open spec fn spec_is_terminal(self) -> bool {
        self == Phase::Ready || self == Phase::Failed
    }

    /// Whether a session in this phase has ended.
    #[verifier::when_used_as_spec(spec_is_terminal)]
    pub fn is_terminal(self) -> (r: bool)
        ensures
            r == self.spec_is_terminal(),
    {
        match self {
            Phase::Ready => true,
            Phase::Failed => true,
            _ => false,
        }
    }
}

/// A frame that was captured into a buffer, before its pixels are converted.
#[derive(Clone, Copy, Debug, PartialEq, Eq, Structural)]
pub struct CapturedFrame {
    /// The buffer that holds the pixels.
    pub buffer: BufferHandle,
    /// The layout of that buffer.
    pub descriptor: BufferDescriptor,
    /// When the compositor captured the frame.
    pub timestamp: Timestamp,
}

impl CapturedFrame {
    /// Pixel layout of the buffer.
    pub fn format(&self) -> (f: PixelFormat)
        ensures
            f == self.descriptor.format,
    {
        self.descriptor.format
    }

    /// Pixels per row.
    pub fn width(&self) -> (w: u32)
        ensures
            w == self.descriptor.width,
    {
        self.descriptor.width
    }

    /// Number of rows.
    pub fn height(&self) -> (h: u32)
        ensures
            h == self.descriptor.height,
    {
        self.descriptor.height
    }

    /// Bytes from the start of one row to the start of the next.
    pub fn stride(&self) -> (s: u32)
        ensures
            s == self.descriptor.stride,
    {
        self.descriptor.stride
    }
}

/// Something that happened to the frame, as the caller reports it.
#[derive(Clone, Copy, Debug, PartialEq, Eq, Structural)]
pub enum SessionEvent {
    /// The compositor offered a buffer layout.
    Offer(BufferDescriptor),
    /// The compositor has announced all its offers.
    OffersDone,
    /// The pool allocated a buffer of the selected layout.
    BufferAllocated(BufferHandle),
    /// The pool could not allocate a buffer.
    AllocationFailed(AllocationError),
    /// The caller is about to send the copy request.
    CopyRequested,
    /// The status of the frame, as seen after a dispatch.
    Status(CaptureStatus),
    /// Dispatching events failed.
    TransportError,
    /// The caller is about to give the bound buffer back to the pool.
    Released,
}

impl SessionEvent {
    /// An offer must carry a well-formed descriptor; any other event is
    /// always well formed.
    pub open spec fn wf(self) -> bool {
        match self {
            SessionEvent::Offer(d) => d.wf(),
            _ => true,
        }
    }
}

/// What the caller is to do next.
#[derive(Clone, Copy, Debug, PartialEq, Eq, Structural)]
pub enum CaptureAction {
    /// Dispatch events and report each offer, then the end of the offers.
    CollectOffers,
    /// Ask the pool for a buffer of this layout and report how that went.
    Allocate(BufferDescriptor),
    /// Report `CopyRequested`, then send the copy request for this buffer.
    Copy(BufferHandle),
    /// Wait for events and report the status of the frame.
    AwaitCompletion,
    /// Read the frame out of its buffer, then report `Released` and give the
    /// buffer back.
    Deliver(CapturedFrame),
    /// Report `Released` and give this buffer back; the capture has failed.
    Release(BufferHandle),
    /// Nothing is left to do after a delivered frame.
    Done,
    /// Nothing is left to do after a failure.
    Abort(FrameCaptureError),
}

/// Answer to an event that the session does not accept in its current phase.
#[derive(Clone, Copy, Debug, PartialEq, Eq, Structural)]
pub struct ContractViolation {
    /// The phase in which the event was refused.
    pub phase: Phase,
}

/// The state of a session as contracts see it.
pub struct SessionState {
    /// Identifier of the output that is captured.
    pub output: u32,
    pub phase: Phase,
    /// Every offer received, in the order of arrival.
    pub offers: Seq<BufferDescriptor>,
    /// The layout settled on once the offers were complete.
    pub selected: Option<BufferDescriptor>,
    /// The buffer bound to the frame.
    pub buffer: Option<BufferHandle>,
    /// Whether the bound buffer went back to the pool.
    pub released: bool,
    /// The capture time, once the frame is ready.
    pub timestamp: Option<Timestamp>,
    /// Why the session failed, once it has.
    pub error: Option<FrameCaptureError>,
}

impl SessionState {
    /// The state of a session right after the capture of `output` was requested.
    pub open spec fn initial(output: u32) -> SessionState {
        SessionState {
            output,
            phase: Phase::Requested,
            offers: Seq::empty(),
            selected: None,
            buffer: None,
            released: false,
            timestamp: None,
            error: None,
        }
    }

    /// What always holds of a session.
    pub open spec fn wf(self) -> bool {
        &&& forall|i: int| 0 <= i < self.offers.len() ==> (#[trigger] self.offers[i]).wf()
        &&& self.phase == Phase::Requested ==> self.offers.len() == 0 && self.selected.is_none()
        &&& self.selected.is_some() ==> self.selected == selection(self.offers)
        &&& self.buffer.is_some() ==> self.selected.is_some()
        &&& self.buffer.is_some() <== (self.phase == Phase::BufferBound || self.phase
            == Phase::AwaitingCompletion || self.phase == Phase::Ready)
        &&& self.buffer.is_none() <== (self.phase == Phase::Requested || self.phase
            == Phase::Negotiating)
        &&& self.timestamp.is_some() <==> self.phase == Phase::Ready
        &&& self.error.is_some() <==> self.phase == Phase::Failed
        &&& self.released ==> self.phase.spec_is_terminal() && self.buffer.is_some()
    }

    /// The status of the frame.
    pub open spec fn status(self) -> CaptureStatus {
        match self.phase {
            Phase::Ready => CaptureStatus::Ready(self.timestamp.unwrap()),
            Phase::Failed => CaptureStatus::Failed,
            _ => CaptureStatus::NotReady,
        }
    }

    /// Offers are taken until their end was announced.
    pub open spec fn accepts_offers(self) -> bool {
        (self.phase == Phase::Requested || self.phase == Phase::Negotiating)
            && self.selected.is_none()
    }

    /// A layout is selected and the pool has not answered yet.
    pub open spec fn awaits_buffer(self) -> bool {
        self.phase == Phase::Negotiating && self.selected.is_some()
    }

    /// A bound buffer has yet to go back to the pool.
    pub open spec fn holds_buffer(self) -> bool {
        self.buffer.is_some() && !self.released
    }

    /// Whether the session accepts the event in this state.
    pub open spec fn permits(self, event: SessionEvent) -> bool {
        match event {
            SessionEvent::Offer(_) => self.accepts_offers(),
            SessionEvent::OffersDone => self.accepts_offers(),
            SessionEvent::BufferAllocated(_) => self.awaits_buffer(),
            SessionEvent::AllocationFailed(_) => self.awaits_buffer(),
            SessionEvent::CopyRequested => self.phase == Phase::BufferBound,
            SessionEvent::Status(_) => self.phase == Phase::AwaitingCompletion
                || self.phase.spec_is_terminal(),
            SessionEvent::TransportError => true,
            SessionEvent::Released => self.phase.spec_is_terminal() && self.holds_buffer(),
        }
    }

    /// The same session, failed for the given reason.
    pub open spec fn failed(self, reason: FrameCaptureError) -> SessionState {
        SessionState { phase: Phase::Failed, error: Some(reason), ..self }
    }

    /// The state after an event that the session accepts.
    pub open spec fn effect(self, event: SessionEvent) -> SessionState {
        match event {
            SessionEvent::Offer(d) => SessionState {
                phase: Phase::Negotiating,
                offers: self.offers.push(d),
                ..self
            },
            SessionEvent::OffersDone => match selection(self.offers) {
                Some(d) => SessionState { phase: Phase::Negotiating, selected: Some(d), ..self },
                None => self.failed(FrameCaptureError::UnsupportedBufferKind),
            },
            SessionEvent::BufferAllocated(h) => SessionState {
                phase: Phase::BufferBound,
                buffer: Some(h),
                ..self
            },
            SessionEvent::AllocationFailed(e) => self.failed(FrameCaptureError::Allocation(e)),
            SessionEvent::CopyRequested => SessionState {
                phase: Phase::AwaitingCompletion,
                ..self
            },
            SessionEvent::Status(reported) => if self.phase.spec_is_terminal() {
                self
            } else {
                match reported {
                    CaptureStatus::NotReady => self,
                    CaptureStatus::Ready(t) => SessionState {
                        phase: Phase::Ready,
                        timestamp: Some(t),
                        ..self
                    },
                    CaptureStatus::Failed => self.failed(FrameCaptureError::CaptureFailed),
                }
            },
            SessionEvent::TransportError => if self.phase.spec_is_terminal() {
                self
            } else {
                self.failed(FrameCaptureError::Transport)
            },
            SessionEvent::Released => SessionState { released: true, ..self },
        }
    }

    /// The state after any event: an event that is not accepted changes nothing.
    pub open spec fn step(self, event: SessionEvent) -> SessionState {
        if self.permits(event) {
            self.effect(event)
        } else {
            self
        }
    }

    /// The state after a run of events, applied in order.
    pub open spec fn run(self, events: Seq<SessionEvent>) -> SessionState
        decreases events.len(),
    {
        if events.len() == 0 {
            self
        } else {
            self.step(events[0]).run(events.drop_first())
        }
    }

    /// What the caller is to do in this state.
    pub open spec fn next_action(self) -> CaptureAction {
        match self.phase {
            Phase::Requested => CaptureAction::CollectOffers,
            Phase::Negotiating => match self.selected {
                Some(d) => CaptureAction::Allocate(d),
                None => CaptureAction::CollectOffers,
            },
            Phase::BufferBound => CaptureAction::Copy(self.buffer.unwrap()),
            Phase::AwaitingCompletion => CaptureAction::AwaitCompletion,
            Phase::Ready => if self.released {
                CaptureAction::Done
            } else {
                CaptureAction::Deliver(
                    CapturedFrame {
                        buffer: self.buffer.unwrap(),
                        descriptor: self.selected.unwrap(),
                        timestamp: self.timestamp.unwrap(),
                    },
                )
            },
            Phase::Failed => if self.holds_buffer() {
                CaptureAction::Release(self.buffer.unwrap())
            } else {
                CaptureAction::Abort(self.error.unwrap())
            },
        }
    }
}

/// One frame's capture, driven by the events the caller reports.
pub struct CaptureSession {
    output: u32,
    phase: Phase,
    offers: Vec<BufferDescriptor>,
    selected: Option<BufferDescriptor>,
    buffer: Option<BufferHandle>,
    released: bool,
    timestamp: Option<Timestamp>,
    error: Option<FrameCaptureError>,
}

impl View for CaptureSession {
    type V = SessionState;

    closed spec fn view(&self) -> SessionState {
        SessionState {
            output: self.output,
            phase: self.phase,
            offers: self.offers@,
            selected: self.selected,
            buffer: self.buffer,
            released: self.released,
            timestamp: self.timestamp,
            error: self.error,
        }
    }
}

impl CaptureSession {
    /// A session for the capture of `output`, which was just requested.
    pub fn new(output: u32) -> (s: CaptureSession)
        ensures
            s@ == SessionState::initial(output),
            s@.wf(),
    {
        CaptureSession {
            output,
            phase: Phase::Requested,
            offers: Vec::new(),
            selected: None,
            buffer: None,
            released: false,
            timestamp: None,
            error: None,
        }
    }

    /// Identifier of the output that is captured.
    pub fn output(&self) -> (id: u32)
        ensures
            id == self@.output,
    {
        self.output
    }

    /// The phase the session is in.
    pub fn phase(&self) -> (p: Phase)
        ensures
            p == self@.phase,
    {
        self.phase
    }

    /// The status of the frame. Polling changes nothing: once the status is
    /// terminal, every later poll reports the same.
    pub fn status(&self) -> (s: CaptureStatus)
        requires
            self@.wf(),
        ensures
            s == self@.status(),
    {
        match self.phase {
            Phase::Ready => CaptureStatus::Ready(self.timestamp.unwrap()),
            Phase::Failed => CaptureStatus::Failed,
            _ => CaptureStatus::NotReady,
        }
    }

    /// Why the session failed, if it has.
    pub fn error(&self) -> (e: Option<FrameCaptureError>)
        ensures
            e == self@.error,
    {
        self.error
    }

    /// The offers received so far, in the order of arrival.
    pub fn offers(&self) -> (o: &Vec<BufferDescriptor>)
        ensures
            o@ == self@.offers,
    {
        &self.offers
    }

    /// The layout the session settled on, once the offers were complete.
    pub fn selected(&self) -> (d: Option<BufferDescriptor>)
        ensures
            d == self@.selected,
    {
        self.selected
    }

    /// The buffer bound to the frame, while the frame holds it.
    pub fn buffer(&self) -> (h: Option<BufferHandle>)
        ensures
            h == (if self@.released {
                None
            } else {
                self@.buffer
            }),
    {
        if self.released {
            None
        } else {
            self.buffer
        }
    }

    /// What the caller is to do next.
    pub fn next_action(&self) -> (action: CaptureAction)
        requires
            self@.wf(),
        ensures
            action == self@.next_action(),
            action matches CaptureAction::Allocate(d) ==> d.wf() && d.kind
                == BufferKind::SharedMemory,
            action matches CaptureAction::Deliver(frame) ==> frame.descriptor.wf()
                && frame.descriptor.kind == BufferKind::SharedMemory,
    {
        proof {
            self@.buffers_are_shared_memory();
        }
        match self.phase {
            Phase::Requested => CaptureAction::CollectOffers,
            Phase::Negotiating => match self.selected {
                Some(d) => CaptureAction::Allocate(d),
                None => CaptureAction::CollectOffers,
            },
            Phase::BufferBound => CaptureAction::Copy(self.buffer.unwrap()),
            Phase::AwaitingCompletion => CaptureAction::AwaitCompletion,
            Phase::Ready => if self.released {
                CaptureAction::Done
            } else {
                CaptureAction::Deliver(
                    CapturedFrame {
                        buffer: self.buffer.unwrap(),
                        descriptor: self.selected.unwrap(),
                        timestamp: self.timestamp.unwrap(),
                    },
                )
            },
            Phase::Failed => if self.buffer.is_some() && !self.released {
                CaptureAction::Release(self.buffer.unwrap())
            } else {
                CaptureAction::Abort(self.error.unwrap())
            },
        }
    }

    /// Whether the session accepts the event in its current state.
    pub fn permits(&self, event: &SessionEvent) -> (ok: bool)
        ensures
            ok == self@.permits(*event),
    {
        let open = (self.phase == Phase::Requested || self.phase == Phase::Negotiating)
            && self.selected.is_none();
        let pending = self.phase == Phase::Negotiating && self.selected.is_some();
        match event {
            SessionEvent::Offer(_) => open,
            SessionEvent::OffersDone => open,
            SessionEvent::BufferAllocated(_) => pending,
            SessionEvent::AllocationFailed(_) => pending,
            SessionEvent::CopyRequested => self.phase == Phase::BufferBound,
            SessionEvent::Status(_) => self.phase == Phase::AwaitingCompletion
                || self.phase.is_terminal(),
            SessionEvent::TransportError => true,
            SessionEvent::Released => self.phase.is_terminal() && self.buffer.is_some()
                && !self.released,
        }
    }

    fn fail(&mut self, reason: FrameCaptureError)
        ensures
            final(self)@ == old(self)@.failed(reason),
    {
        self.phase = Phase::Failed;
        self.error = Some(reason);
    }

    /// Takes one event. An event that the session accepts moves it to its next
    /// state and is answered with the action to perform next. Any other event
    /// is refused with the phase it came in, and changes nothing.
    pub fn apply(&mut self, event: SessionEvent) -> (r: Result<CaptureAction, ContractViolation>)
        requires
            old(self)@.wf(),
            event.wf(),
        ensures
            final(self)@.wf(),
            final(self)@ == old(self)@.step(event),
            r == (if old(self)@.permits(event) {
                Ok::<CaptureAction, ContractViolation>(final(self)@.next_action())
            } else {
                Err::<CaptureAction, ContractViolation>(
                    ContractViolation { phase: old(self)@.phase },
                )
            }),
    {
        if !self.permits(&event) {
            return Err(ContractViolation { phase: self.phase });
        }
        proof {
            old(self)@.step_keeps_well_formed(event);
        }
        match event {
            SessionEvent::Offer(d) => {
                self.phase = Phase::Negotiating;
                self.offers.push(d);
            },
            SessionEvent::OffersDone => {
                match select_descriptor(&self.offers) {
                    Ok(d) => {
                        self.phase = Phase::Negotiating;
                        self.selected = Some(d);
                    },
                    Err(e) => {
                        self.fail(e);
                    },
                }
            },
            SessionEvent::BufferAllocated(h) => {
                self.phase = Phase::BufferBound;
                self.buffer = Some(h);
            },
            SessionEvent::AllocationFailed(e) => {
                self.fail(FrameCaptureError::Allocation(e));
            },
            SessionEvent::CopyRequested => {
                self.phase = Phase::AwaitingCompletion;
            },
            SessionEvent::Status(reported) => {
                if !self.phase.is_terminal() {
                    match reported {
                        CaptureStatus::NotReady => {},
                        CaptureStatus::Ready(t) => {
                            self.phase = Phase::Ready;
                            self.timestamp = Some(t);
                        },
                        CaptureStatus::Failed => {
                            self.fail(FrameCaptureError::CaptureFailed);
                        },
                    }
                }
            },
            SessionEvent::TransportError => {
                if !self.phase.is_terminal() {
                    self.fail(FrameCaptureError::Transport);
                }
            },
            SessionEvent::Released => {
                self.released = true;
            },
        }
        Ok(self.next_action())
    }
}

/// The events that report the given offers, in order.
pub open spec fn offer_events(offers: Seq<BufferDescriptor>) -> Seq<SessionEvent> {
    Seq::new(offers.len(), |i: int| SessionEvent::Offer(offers[i]))
}

impl SessionState {
    /// Every event leaves a well-formed session well formed.
    pub proof fn step_keeps_well_formed(self, event: SessionEvent)
        requires
            self.wf(),
            event.wf(),
        ensures
            self.step(event).wf(),
    {
        if self.permits(event) {
            match event {
                SessionEvent::Offer(d) => {
                    let next = self.effect(event);
                    assert forall|i: int| 0 <= i < next.offers.len() implies (
                    #[trigger] next.offers[i]).wf() by {
                        if i < self.offers.len() {
                            assert(next.offers[i] == self.offers[i]);
                        }
                    }
                },
                _ => {},
            }
        }
    }

    /// Every run of events leaves a well-formed session well formed.
    pub proof fn run_keeps_well_formed(self, events: Seq<SessionEvent>)
        requires
            self.wf(),
            forall|i: int| 0 <= i < events.len() ==> (#[trigger] events[i]).wf(),
        ensures
            self.run(events).wf(),
        decreases events.len(),
    {
        if events.len() > 0 {
            self.step_keeps_well_formed(events[0]);
            let rest = events.drop_first();
            assert forall|i: int| 0 <= i < rest.len() implies (#[trigger] rest[i]).wf() by {
                assert(rest[i] == events[i + 1]);
            }
            self.step(events[0]).run_keeps_well_formed(rest);
        }
    }

    /// A session that has ended stays as it ended: no event changes its
    /// phase, its status, its error, or what it selected and bound. Only
    /// the release of the buffer is still recorded.
    pub proof fn terminal_is_absorbing(self, event: SessionEvent)
        requires
            self.phase.spec_is_terminal(),
        ensures
            self.step(event) == (SessionState { released: self.step(event).released, ..self }),
            self.step(event).status() == self.status(),
            self.released ==> self.step(event) == self,
    {
    }

    /// However many events follow, a session that has ended reports the
    /// status it ended with.
    pub proof fn terminal_status_is_kept(self, events: Seq<SessionEvent>)
        requires
            self.phase.spec_is_terminal(),
        ensures
            self.run(events).phase == self.phase,
            self.run(events).status() == self.status(),
            self.run(events).error == self.error,
            self.run(events).timestamp == self.timestamp,
            self.run(events).selected == self.selected,
            self.run(events).buffer == self.buffer,
            self.run(events).offers == self.offers,
        decreases events.len(),
    {
        if events.len() > 0 {
            self.terminal_is_absorbing(events[0]);
            self.step(events[0]).terminal_status_is_kept(events.drop_first());
        }
    }

    /// No event takes a session back to an earlier phase.
    pub proof fn phase_never_regresses(self, event: SessionEvent)
        ensures
            self.phase.rank() <= self.step(event).phase.rank(),
    {
    }

    /// No run of events takes a session back to an earlier phase.
    pub proof fn run_never_regresses(self, events: Seq<SessionEvent>)
        ensures
            self.phase.rank() <= self.run(events).phase.rank(),
        decreases events.len(),
    {
        if events.len() > 0 {
            self.phase_never_regresses(events[0]);
            self.step(events[0]).run_never_regresses(events.drop_first());
        }
    }

    /// The selected layout and the bound buffer are set once: no event
    /// changes either after it was set.
    pub proof fn selection_and_buffer_are_set_once(self, event: SessionEvent)
        requires
            self.wf(),
        ensures
            self.selected.is_some() ==> self.step(event).selected == self.selected,
            self.selected.is_some() ==> self.step(event).offers == self.offers,
            self.buffer.is_some() ==> self.step(event).buffer == self.buffer,
    {
    }

    /// A copy request is refused as long as no buffer is bound.
    pub proof fn copy_needs_bound_buffer(self)
        requires
            self.wf(),
            self.buffer.is_none(),
        ensures
            !self.permits(SessionEvent::CopyRequested),
            self.step(SessionEvent::CopyRequested) == self,
    {
    }

    /// After a copy request was accepted, no later one is, whatever happens
    /// in between.
    pub proof fn copy_is_issued_once(self, between: Seq<SessionEvent>)
        requires
            self.permits(SessionEvent::CopyRequested),
        ensures
            !self.step(SessionEvent::CopyRequested).run(between).permits(
                SessionEvent::CopyRequested,
            ),
    {
        self.step(SessionEvent::CopyRequested).run_never_regresses(between);
    }

    /// A buffer is asked of the pool only between the selection and the pool's
    /// answer, and bound at most once: after a buffer was bound or the
    /// allocation failed, neither answer is accepted again.
    pub proof fn buffer_is_bound_once(
        self,
        answer: SessionEvent,
        between: Seq<SessionEvent>,
        again: SessionEvent,
    )
        requires
            answer is BufferAllocated || answer is AllocationFailed,
            again is BufferAllocated || again is AllocationFailed,
            self.permits(answer),
        ensures
            !self.step(answer).run(between).permits(again),
            !(self.step(answer).run(between).next_action() is Allocate),
    {
        self.step(answer).run_never_regresses(between);
    }

    /// Reporting offers one by one to a session that takes offers appends
    /// them, in order, to those it holds.
    pub proof fn offers_accumulate(self, offers: Seq<BufferDescriptor>)
        requires
            self.accepts_offers(),
        ensures
            self.run(offer_events(offers)) == (SessionState {
                phase: if offers.len() > 0 {
                    Phase::Negotiating
                } else {
                    self.phase
                },
                offers: self.offers + offers,
                ..self
            }),
        decreases offers.len(),
    {
        let events = offer_events(offers);
        if offers.len() == 0 {
            assert(self.offers + offers =~= self.offers);
        } else {
            let next = self.step(events[0]);
            let rest = offers.drop_first();
            assert(events.drop_first() =~= offer_events(rest));
            next.offers_accumulate(rest);
            assert(next.offers + rest =~= self.offers + offers);
        }
    }

    /// The state of a session once the given offers were reported, from the
    /// capture request on, and their end was announced.
    pub open spec fn negotiated(output: u32, offers: Seq<BufferDescriptor>) -> SessionState {
        SessionState::initial(output).run(offer_events(offers)).step(SessionEvent::OffersDone)
    }

    /// The state of a session that negotiated the given offers, had the
    /// given buffer bound, and sent its copy request.
    pub open spec fn copying(
        output: u32,
        offers: Seq<BufferDescriptor>,
        buffer: BufferHandle,
    ) -> SessionState {
        Self::negotiated(output, offers).step(SessionEvent::BufferAllocated(buffer)).step(
            SessionEvent::CopyRequested,
        )
    }

    /// When at least one offer is a shared-memory buffer, the session settles
    /// on the first of them and asks for a buffer of exactly that layout.
    pub proof fn shared_offer_is_selected(output: u32, offers: Seq<BufferDescriptor>)
        requires
            has_shared(offers),
        ensures
            Self::negotiated(output, offers) == (SessionState {
                phase: Phase::Negotiating,
                offers,
                selected: selection(offers),
                ..SessionState::initial(output)
            }),
            selection(offers) matches Some(d) && d.kind == BufferKind::SharedMemory
                && Self::negotiated(output, offers).next_action() == CaptureAction::Allocate(d),
    {
        SessionState::initial(output).offers_accumulate(offers);
        assert(Seq::<BufferDescriptor>::empty() + offers =~= offers);
        selection_is_first_match(offers);
    }

    /// When no offer is a shared-memory buffer, the session fails with
    /// `UnsupportedBufferKind`, and no buffer is ever asked of the pool or
    /// bound: whatever events follow, the session only tells its caller to
    /// abort.
    pub proof fn foreign_offers_never_allocate(
        output: u32,
        offers: Seq<BufferDescriptor>,
        later: Seq<SessionEvent>,
    )
        requires
            !has_shared(offers),
        ensures
            Self::negotiated(output, offers).phase == Phase::Failed,
            Self::negotiated(output, offers).error == Some(
                FrameCaptureError::UnsupportedBufferKind,
            ),
            Self::negotiated(output, offers).run(later).buffer.is_none(),
            Self::negotiated(output, offers).run(later).next_action() == CaptureAction::Abort(
                FrameCaptureError::UnsupportedBufferKind,
            ),
    {
        SessionState::initial(output).offers_accumulate(offers);
        assert(Seq::<BufferDescriptor>::empty() + offers =~= offers);
        let ended = Self::negotiated(output, offers);
        ended.terminal_status_is_kept(later);
        ended.released_needs_buffer(later);
    }

    /// A capture whose offers hold a shared-memory buffer, whose buffer was
    /// allocated and whose copy the compositor reports as ready, delivers
    /// the first shared-memory layout offered, in the buffer that was bound,
    /// with the time the compositor gave. Once the buffer is given back,
    /// nothing is left to do.
    pub proof fn ready_capture_delivers_frame(
        output: u32,
        offers: Seq<BufferDescriptor>,
        buffer: BufferHandle,
        time: Timestamp,
    )
        requires
            has_shared(offers),
        ensures
            ({
                let ready = Self::copying(output, offers, buffer).step(
                    SessionEvent::Status(CaptureStatus::Ready(time)),
                );
                &&& ready.status() == CaptureStatus::Ready(time)
                &&& ready.error.is_none()
                &&& selection(offers) matches Some(descriptor) && ready.next_action()
                    == CaptureAction::Deliver(CapturedFrame { buffer, descriptor, timestamp: time })
                &&& ready.step(SessionEvent::Released).next_action() == CaptureAction::Done
            }),
    {
        Self::shared_offer_is_selected(output, offers);
        let negotiated = Self::negotiated(output, offers);
        assert(negotiated.permits(SessionEvent::BufferAllocated(buffer)));
        let bound = negotiated.step(SessionEvent::BufferAllocated(buffer));
        assert(bound.phase == Phase::BufferBound && bound.buffer == Some(buffer));
        let copying = bound.step(SessionEvent::CopyRequested);
        assert(copying.phase == Phase::AwaitingCompletion);
        let ready = copying.step(SessionEvent::Status(CaptureStatus::Ready(time)));
        assert(ready.phase == Phase::Ready && !ready.released);
        assert(ready.permits(SessionEvent::Released));
    }

    /// A capture that fails after its buffer was bound, because the
    /// compositor says so or because the transport breaks, first gives the
    /// buffer back and then aborts with that failure. It is not tried again.
    pub proof fn failed_capture_releases_then_aborts(
        output: u32,
        offers: Seq<BufferDescriptor>,
        buffer: BufferHandle,
        failure: SessionEvent,
    )
        requires
            has_shared(offers),
            failure == SessionEvent::Status(CaptureStatus::Failed) || failure
                == SessionEvent::TransportError,
        ensures
            ({
                let failed = Self::copying(output, offers, buffer).step(failure);
                let reason = if failure == SessionEvent::TransportError {
                    FrameCaptureError::Transport
                } else {
                    FrameCaptureError::CaptureFailed
                };
                &&& failed.status() == CaptureStatus::Failed
                &&& failed.error == Some(reason)
                &&& failed.next_action() == CaptureAction::Release(buffer)
                &&& failed.step(SessionEvent::Released).next_action() == CaptureAction::Abort(
                    reason,
                )
            }),
    {
        Self::shared_offer_is_selected(output, offers);
        let negotiated = Self::negotiated(output, offers);
        assert(negotiated.permits(SessionEvent::BufferAllocated(buffer)));
        let bound = negotiated.step(SessionEvent::BufferAllocated(buffer));
        assert(bound.phase == Phase::BufferBound && bound.buffer == Some(buffer));
        let copying = bound.step(SessionEvent::CopyRequested);
        assert(copying.phase == Phase::AwaitingCompletion);
        let failed = copying.step(failure);
        assert(failed.phase == Phase::Failed && !failed.released);
        assert(failed.permits(SessionEvent::Released));
    }

    /// A capture whose buffer the pool cannot allocate fails with the pool's
    /// error, without a buffer and without a copy request.
    pub proof fn failed_allocation_aborts(
        output: u32,
        offers: Seq<BufferDescriptor>,
        reason: AllocationError,
    )
        requires
            has_shared(offers),
        ensures
            ({
                let failed = Self::negotiated(output, offers).step(
                    SessionEvent::AllocationFailed(reason),
                );
                &&& failed.error == Some(FrameCaptureError::Allocation(reason))
                &&& failed.buffer.is_none()
                &&& failed.next_action() == CaptureAction::Abort(
                    FrameCaptureError::Allocation(reason),
                )
                &&& !failed.permits(SessionEvent::CopyRequested)
            }),
    {
        Self::shared_offer_is_selected(output, offers);
        let negotiated = Self::negotiated(output, offers);
        assert(negotiated.permits(SessionEvent::AllocationFailed(reason)));
    }

    /// The status of the frame follows the reports of the compositor from
    /// the copy request on, and only until it is terminal.
    pub proof fn status_follows_reports(self, reported: CaptureStatus)
        requires
            self.wf(),
            self.permits(SessionEvent::Status(reported)),
        ensures
            self.step(SessionEvent::Status(reported)).status() == self.status().spec_advance(
                reported,
            ),
    {
    }

    /// A session that ended without a buffer never records a release.
    pub proof fn released_needs_buffer(self, events: Seq<SessionEvent>)
        requires
            self.phase.spec_is_terminal(),
            self.buffer.is_none(),
            !self.released,
        ensures
            !self.run(events).released,
        decreases events.len(),
    {
        if events.len() > 0 {
            self.terminal_is_absorbing(events[0]);
            self.step(events[0]).released_needs_buffer(events.drop_first());
        }
    }

    /// The bound buffer goes back to the pool at most once: after a release
    /// was accepted, no later one is.
    pub proof fn buffer_is_released_once(self, between: Seq<SessionEvent>)
        requires
            self.permits(SessionEvent::Released),
        ensures
            !self.step(SessionEvent::Released).run(between).permits(SessionEvent::Released),
        decreases between.len(),
    {
        let released = self.step(SessionEvent::Released);
        released.released_is_kept(between);
    }

    /// A recorded release stays recorded.
    pub proof fn released_is_kept(self, events: Seq<SessionEvent>)
        requires
            self.released,
            self.phase.spec_is_terminal(),
        ensures
            self.run(events).released,
        decreases events.len(),
    {
        if events.len() > 0 {
            self.terminal_is_absorbing(events[0]);
            self.step(events[0]).released_is_kept(events.drop_first());
        }
    }

    /// Every buffer the session asks for, and every frame it delivers, has a
    /// well-formed shared-memory layout: the first such among the offers.
    pub proof fn buffers_are_shared_memory(self)
        requires
            self.wf(),
        ensures
            self.selected matches Some(d) ==> d.wf() && d.kind == BufferKind::SharedMemory
                && has_shared(self.offers),
            self.next_action() matches CaptureAction::Allocate(d) ==> self.selected == Some(d),
            self.next_action() matches CaptureAction::Deliver(frame) ==> self.selected == Some(
                frame.descriptor,
            ) && self.buffer == Some(frame.buffer),
    {
        selection_is_first_match(self.offers);
    }

    /// On every path to an end, the bound buffer is given back: a session
    /// that has ended with a buffer still bound tells its caller to read and
    /// release it, or to release it, and nothing else.
    pub proof fn ended_session_releases_buffer(self)
        requires
            self.wf(),
            self.phase.spec_is_terminal(),
        ensures
            self.holds_buffer() ==> (self.next_action() is Deliver || self.next_action()
                is Release) && self.permits(SessionEvent::Released),
            !self.holds_buffer() ==> self.next_action() is Done || self.next_action() is Abort,
            self.next_action() is Deliver ==> self.phase == Phase::Ready,
    {
    }
}

} // verus!
