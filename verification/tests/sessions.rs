use frame_capture::convert::{convert, CapturedImage};
use frame_capture::descriptor::{BufferDescriptor, BufferKind, PixelFormat};
use frame_capture::error::{AllocationError, FrameCaptureError};
use frame_capture::session::{
    BufferHandle, CaptureAction, CaptureSession, CapturedFrame, ContractViolation, Phase,
    SessionEvent,
};
use frame_capture::status::{CaptureStatus, Timestamp};

fn shared(format: PixelFormat, width: u32, height: u32, stride: u32) -> BufferDescriptor {
    BufferDescriptor { kind: BufferKind::SharedMemory, format, width, height, stride }
}

fn foreign(width: u32, height: u32) -> BufferDescriptor {
    BufferDescriptor {
        kind: BufferKind::ForeignMemory,
        format: PixelFormat::Other(0x3432_5258),
        width,
        height,
        stride: 0,
    }
}

fn stamp() -> Timestamp {
    Timestamp { seconds: 1_700_000_000, nanoseconds: 42 }
}

fn refused(phase: Phase) -> Result<CaptureAction, ContractViolation> {
    Err(ContractViolation { phase })
}

/// A session that has a buffer bound and no copy request out.
fn bound_session() -> CaptureSession {
    let mut session = CaptureSession::new(1);
    session.apply(SessionEvent::Offer(shared(PixelFormat::Rgba8888, 4, 4, 16))).unwrap();
    session.apply(SessionEvent::OffersDone).unwrap();
    session.apply(SessionEvent::BufferAllocated(BufferHandle { slot: 5 })).unwrap();
    session
}

/// What the compositor and the pool answer during one capture.
struct World {
    offers: Vec<BufferDescriptor>,
    allocation: Result<BufferHandle, AllocationError>,
    reports: Vec<CaptureStatus>,
    contents: Vec<u8>,
}

/// What a capture came to, and how often the pool and the compositor were asked.
struct Outcome {
    result: Result<CapturedImage, FrameCaptureError>,
    allocations: usize,
    copies: usize,
    releases: usize,
}

/// Performs every action the session asks for against the given world.
fn capture(world: &World) -> Outcome {
    let mut session = CaptureSession::new(1);
    let mut allocations = 0;
    let mut copies = 0;
    let mut releases = 0;
    let mut reports = world.reports.iter();
    let mut image = None;
    let mut action = session.next_action();
    loop {
        action = match action {
            CaptureAction::CollectOffers => {
                for offer in &world.offers {
                    session.apply(SessionEvent::Offer(*offer)).unwrap();
                }
                session.apply(SessionEvent::OffersDone).unwrap()
            }
            CaptureAction::Allocate(descriptor) => {
                allocations += 1;
                assert_eq!(descriptor.kind, BufferKind::SharedMemory);
                match world.allocation {
                    Ok(handle) => session.apply(SessionEvent::BufferAllocated(handle)).unwrap(),
                    Err(e) => session.apply(SessionEvent::AllocationFailed(e)).unwrap(),
                }
            }
            CaptureAction::Copy(handle) => {
                assert_eq!(Ok(handle), world.allocation);
                let next = session.apply(SessionEvent::CopyRequested).unwrap();
                copies += 1;
                next
            }
            CaptureAction::AwaitCompletion => match reports.next() {
                Some(report) => session.apply(SessionEvent::Status(*report)).unwrap(),
                None => session.apply(SessionEvent::TransportError).unwrap(),
            },
            CaptureAction::Deliver(frame) => {
                assert_eq!(Ok(frame.buffer), world.allocation);
                image = Some(convert(&frame.descriptor, world.contents.clone()));
                releases += 1;
                session.apply(SessionEvent::Released).unwrap()
            }
            CaptureAction::Release(handle) => {
                assert_eq!(Ok(handle), world.allocation);
                releases += 1;
                session.apply(SessionEvent::Released).unwrap()
            }
            CaptureAction::Done => {
                return Outcome { result: image.unwrap(), allocations, copies, releases };
            }
            CaptureAction::Abort(e) => {
                return Outcome { result: Err(e), allocations, copies, releases };
            }
        };
    }
}

#[test]
fn new_session_waits_for_offers() {
    let session = CaptureSession::new(7);
    assert_eq!(session.output(), 7);
    assert_eq!(session.phase(), Phase::Requested);
    assert_eq!(session.status(), CaptureStatus::NotReady);
    assert_eq!(session.next_action(), CaptureAction::CollectOffers);
    assert_eq!(session.error(), None);
    assert_eq!(session.selected(), None);
    assert_eq!(session.buffer(), None);
    assert!(session.offers().is_empty());
}

#[test]
fn offers_are_kept_in_order_of_arrival() {
    let mut session = CaptureSession::new(1);
    let offers = vec![
        foreign(4, 4),
        shared(PixelFormat::Xrgb8888, 4, 4, 16),
        shared(PixelFormat::Rgba8888, 4, 4, 16),
    ];
    for offer in &offers {
        assert_eq!(session.apply(SessionEvent::Offer(*offer)), Ok(CaptureAction::CollectOffers));
        assert_eq!(session.phase(), Phase::Negotiating);
        assert_eq!(session.selected(), None);
    }
    assert_eq!(session.offers(), &offers);
}

#[test]
fn session_does_not_act_on_a_partial_offer_set() {
    let mut session = CaptureSession::new(1);
    let action = session.apply(SessionEvent::Offer(shared(PixelFormat::Rgba8888, 4, 4, 16)));
    assert_eq!(action, Ok(CaptureAction::CollectOffers));
    assert_eq!(session.selected(), None);
    assert_eq!(
        session.apply(SessionEvent::BufferAllocated(BufferHandle { slot: 0 })),
        refused(Phase::Negotiating)
    );
    assert_eq!(session.buffer(), None);
}

#[test]
fn end_of_offers_selects_the_first_shared_memory_offer() {
    let mut session = CaptureSession::new(1);
    let wanted = shared(PixelFormat::Xrgb8888, 4, 4, 16);
    session.apply(SessionEvent::Offer(foreign(4, 4))).unwrap();
    session.apply(SessionEvent::Offer(wanted)).unwrap();
    session.apply(SessionEvent::Offer(shared(PixelFormat::Rgba8888, 4, 4, 16))).unwrap();
    assert_eq!(session.apply(SessionEvent::OffersDone), Ok(CaptureAction::Allocate(wanted)));
    assert_eq!(session.selected(), Some(wanted));
    assert_eq!(session.phase(), Phase::Negotiating);
    assert_eq!(session.status(), CaptureStatus::NotReady);
}

#[test]
fn offers_after_their_end_are_refused() {
    let mut session = CaptureSession::new(1);
    let wanted = shared(PixelFormat::Rgba8888, 4, 4, 16);
    session.apply(SessionEvent::Offer(wanted)).unwrap();
    session.apply(SessionEvent::OffersDone).unwrap();
    assert_eq!(
        session.apply(SessionEvent::Offer(shared(PixelFormat::Xrgb8888, 8, 8, 32))),
        refused(Phase::Negotiating)
    );
    assert_eq!(session.apply(SessionEvent::OffersDone), refused(Phase::Negotiating));
    assert_eq!(session.offers(), &vec![wanted]);
    assert_eq!(session.selected(), Some(wanted));
}

#[test]
fn foreign_only_offers_fail_the_session() {
    let mut session = CaptureSession::new(1);
    session.apply(SessionEvent::Offer(foreign(4, 4))).unwrap();
    assert_eq!(
        session.apply(SessionEvent::OffersDone),
        Ok(CaptureAction::Abort(FrameCaptureError::UnsupportedBufferKind))
    );
    assert_eq!(session.phase(), Phase::Failed);
    assert_eq!(session.status(), CaptureStatus::Failed);
    assert_eq!(session.error(), Some(FrameCaptureError::UnsupportedBufferKind));
    assert_eq!(session.buffer(), None);
    assert_eq!(
        session.apply(SessionEvent::BufferAllocated(BufferHandle { slot: 1 })),
        refused(Phase::Failed)
    );
    assert_eq!(session.buffer(), None);
}

#[test]
fn end_of_offers_without_any_offer_fails_the_session() {
    let mut session = CaptureSession::new(1);
    assert_eq!(
        session.apply(SessionEvent::OffersDone),
        Ok(CaptureAction::Abort(FrameCaptureError::UnsupportedBufferKind))
    );
    assert_eq!(session.phase(), Phase::Failed);
}

#[test]
fn allocated_buffer_is_bound_and_copied_into() {
    let mut session = CaptureSession::new(1);
    session.apply(SessionEvent::Offer(shared(PixelFormat::Rgba8888, 4, 4, 16))).unwrap();
    session.apply(SessionEvent::OffersDone).unwrap();
    let handle = BufferHandle { slot: 9 };
    assert_eq!(
        session.apply(SessionEvent::BufferAllocated(handle)),
        Ok(CaptureAction::Copy(handle))
    );
    assert_eq!(session.phase(), Phase::BufferBound);
    assert_eq!(session.buffer(), Some(handle));
    assert_eq!(
        session.apply(SessionEvent::BufferAllocated(BufferHandle { slot: 10 })),
        refused(Phase::BufferBound)
    );
    assert_eq!(session.buffer(), Some(handle));
}

#[test]
fn failed_allocation_is_surfaced() {
    let mut session = CaptureSession::new(1);
    session.apply(SessionEvent::Offer(shared(PixelFormat::Rgba8888, 4, 4, 16))).unwrap();
    session.apply(SessionEvent::OffersDone).unwrap();
    let error = FrameCaptureError::Allocation(AllocationError::ResourceExhausted);
    assert_eq!(
        session.apply(SessionEvent::AllocationFailed(AllocationError::ResourceExhausted)),
        Ok(CaptureAction::Abort(error))
    );
    assert_eq!(session.error(), Some(error));
    assert_eq!(session.status(), CaptureStatus::Failed);
    assert_eq!(session.buffer(), None);
}

#[test]
fn copy_request_before_a_buffer_is_bound_is_rejected() {
    let mut session = CaptureSession::new(1);
    assert_eq!(session.apply(SessionEvent::CopyRequested), refused(Phase::Requested));
    assert_eq!(session.phase(), Phase::Requested);
    session.apply(SessionEvent::Offer(shared(PixelFormat::Rgba8888, 4, 4, 16))).unwrap();
    assert_eq!(session.apply(SessionEvent::CopyRequested), refused(Phase::Negotiating));
    session.apply(SessionEvent::OffersDone).unwrap();
    assert_eq!(session.apply(SessionEvent::CopyRequested), refused(Phase::Negotiating));
    assert_eq!(session.phase(), Phase::Negotiating);
    assert_eq!(session.buffer(), None);
}

#[test]
fn second_copy_request_is_rejected() {
    let mut session = bound_session();
    assert_eq!(session.apply(SessionEvent::CopyRequested), Ok(CaptureAction::AwaitCompletion));
    assert_eq!(session.phase(), Phase::AwaitingCompletion);
    assert_eq!(session.apply(SessionEvent::CopyRequested), refused(Phase::AwaitingCompletion));
    assert_eq!(session.phase(), Phase::AwaitingCompletion);
    session.apply(SessionEvent::Status(CaptureStatus::Ready(stamp()))).unwrap();
    assert_eq!(session.apply(SessionEvent::CopyRequested), refused(Phase::Ready));
}

#[test]
fn status_before_the_copy_request_is_rejected() {
    let mut session = bound_session();
    assert_eq!(
        session.apply(SessionEvent::Status(CaptureStatus::Ready(stamp()))),
        refused(Phase::BufferBound)
    );
    assert_eq!(session.status(), CaptureStatus::NotReady);
}

#[test]
fn not_ready_keeps_the_session_waiting() {
    let mut session = bound_session();
    session.apply(SessionEvent::CopyRequested).unwrap();
    for _ in 0..3 {
        assert_eq!(
            session.apply(SessionEvent::Status(CaptureStatus::NotReady)),
            Ok(CaptureAction::AwaitCompletion)
        );
        assert_eq!(session.status(), CaptureStatus::NotReady);
        assert_eq!(session.phase(), Phase::AwaitingCompletion);
    }
}

#[test]
fn ready_frame_is_delivered_with_its_layout_and_time() {
    let mut session = bound_session();
    session.apply(SessionEvent::CopyRequested).unwrap();
    let frame = CapturedFrame {
        buffer: BufferHandle { slot: 5 },
        descriptor: shared(PixelFormat::Rgba8888, 4, 4, 16),
        timestamp: stamp(),
    };
    assert_eq!(
        session.apply(SessionEvent::Status(CaptureStatus::Ready(stamp()))),
        Ok(CaptureAction::Deliver(frame))
    );
    assert_eq!(session.phase(), Phase::Ready);
    assert_eq!(session.status(), CaptureStatus::Ready(stamp()));
    assert_eq!(frame.format(), PixelFormat::Rgba8888);
    assert_eq!(frame.width(), 4);
    assert_eq!(frame.height(), 4);
    assert_eq!(frame.stride(), 16);
}

#[test]
fn polling_after_ready_keeps_reporting_ready() {
    let mut session = bound_session();
    session.apply(SessionEvent::CopyRequested).unwrap();
    session.apply(SessionEvent::Status(CaptureStatus::Ready(stamp()))).unwrap();
    let later = Timestamp { seconds: 1, nanoseconds: 1 };
    for report in [
        CaptureStatus::NotReady,
        CaptureStatus::Failed,
        CaptureStatus::Ready(later),
    ] {
        assert!(session.apply(SessionEvent::Status(report)).is_ok());
        assert_eq!(session.status(), CaptureStatus::Ready(stamp()));
        assert_eq!(session.phase(), Phase::Ready);
    }
    assert!(session.apply(SessionEvent::TransportError).is_ok());
    assert_eq!(session.status(), CaptureStatus::Ready(stamp()));
    assert_eq!(session.error(), None);
}

#[test]
fn polling_after_failed_keeps_reporting_failed() {
    let mut session = bound_session();
    session.apply(SessionEvent::CopyRequested).unwrap();
    assert_eq!(
        session.apply(SessionEvent::Status(CaptureStatus::Failed)),
        Ok(CaptureAction::Release(BufferHandle { slot: 5 }))
    );
    assert_eq!(session.error(), Some(FrameCaptureError::CaptureFailed));
    for report in [CaptureStatus::NotReady, CaptureStatus::Ready(stamp()), CaptureStatus::Failed] {
        assert!(session.apply(SessionEvent::Status(report)).is_ok());
        assert_eq!(session.status(), CaptureStatus::Failed);
        assert_eq!(session.error(), Some(FrameCaptureError::CaptureFailed));
    }
    assert!(session.apply(SessionEvent::TransportError).is_ok());
    assert_eq!(session.error(), Some(FrameCaptureError::CaptureFailed));
}

#[test]
fn transport_error_fails_a_running_session() {
    let mut fresh = CaptureSession::new(1);
    assert_eq!(
        fresh.apply(SessionEvent::TransportError),
        Ok(CaptureAction::Abort(FrameCaptureError::Transport))
    );
    assert_eq!(fresh.apply(SessionEvent::OffersDone), refused(Phase::Failed));

    let mut bound = bound_session();
    assert_eq!(
        bound.apply(SessionEvent::TransportError),
        Ok(CaptureAction::Release(BufferHandle { slot: 5 }))
    );
    assert_eq!(bound.error(), Some(FrameCaptureError::Transport));
    assert_eq!(bound.apply(SessionEvent::CopyRequested), refused(Phase::Failed));
}

#[test]
fn buffer_is_released_exactly_once() {
    let mut session = bound_session();
    assert_eq!(session.apply(SessionEvent::Released), refused(Phase::BufferBound));
    session.apply(SessionEvent::CopyRequested).unwrap();
    assert_eq!(session.apply(SessionEvent::Released), refused(Phase::AwaitingCompletion));
    session.apply(SessionEvent::Status(CaptureStatus::Ready(stamp()))).unwrap();
    assert_eq!(session.buffer(), Some(BufferHandle { slot: 5 }));
    assert_eq!(session.apply(SessionEvent::Released), Ok(CaptureAction::Done));
    assert_eq!(session.buffer(), None);
    assert_eq!(session.apply(SessionEvent::Released), refused(Phase::Ready));
    assert_eq!(session.next_action(), CaptureAction::Done);
    assert_eq!(session.status(), CaptureStatus::Ready(stamp()));
}

#[test]
fn failed_session_gives_its_buffer_back_before_it_aborts() {
    let mut session = bound_session();
    session.apply(SessionEvent::CopyRequested).unwrap();
    session.apply(SessionEvent::Status(CaptureStatus::Failed)).unwrap();
    assert_eq!(session.next_action(), CaptureAction::Release(BufferHandle { slot: 5 }));
    assert_eq!(
        session.apply(SessionEvent::Released),
        Ok(CaptureAction::Abort(FrameCaptureError::CaptureFailed))
    );
    assert_eq!(session.apply(SessionEvent::Released), refused(Phase::Failed));
}

#[test]
fn capture_of_a_ready_frame_yields_the_image() {
    let world = World {
        offers: vec![shared(PixelFormat::Rgba8888, 4, 4, 16)],
        allocation: Ok(BufferHandle { slot: 0 }),
        reports: vec![CaptureStatus::NotReady, CaptureStatus::Ready(stamp())],
        contents: (0u8..64).collect(),
    };
    let outcome = capture(&world);
    let image = outcome.result.unwrap();
    assert_eq!(image.width(), 4);
    assert_eq!(image.height(), 4);
    assert_eq!(image.format(), PixelFormat::Rgba8888);
    assert_eq!(image.bytes().len(), 64);
    assert_eq!(image.bytes(), &world.contents);
    assert_eq!(outcome.allocations, 1);
    assert_eq!(outcome.copies, 1);
    assert_eq!(outcome.releases, 1);
}

#[test]
fn capture_converts_the_selected_layout() {
    let world = World {
        offers: vec![
            foreign(2, 1),
            shared(PixelFormat::Xrgb8888, 2, 1, 12),
            shared(PixelFormat::Rgba8888, 2, 1, 8),
        ],
        allocation: Ok(BufferHandle { slot: 3 }),
        reports: vec![CaptureStatus::Ready(stamp())],
        contents: vec![1, 2, 3, 0, 4, 5, 6, 0, 9, 9, 9, 9],
    };
    let outcome = capture(&world);
    assert_eq!(outcome.result.unwrap().into_bytes(), vec![3, 2, 1, 255, 6, 5, 4, 255]);
    assert_eq!(outcome.allocations, 1);
    assert_eq!(outcome.releases, 1);
}

#[test]
fn capture_with_foreign_only_offers_never_asks_the_pool() {
    let world = World {
        offers: vec![foreign(4, 4)],
        allocation: Ok(BufferHandle { slot: 0 }),
        reports: vec![CaptureStatus::Ready(stamp())],
        contents: Vec::new(),
    };
    let outcome = capture(&world);
    assert_eq!(outcome.result.err(), Some(FrameCaptureError::UnsupportedBufferKind));
    assert_eq!(outcome.allocations, 0);
    assert_eq!(outcome.copies, 0);
    assert_eq!(outcome.releases, 0);
}

#[test]
fn capture_surfaces_an_exhausted_pool() {
    let world = World {
        offers: vec![shared(PixelFormat::Rgba8888, 4, 4, 16)],
        allocation: Err(AllocationError::ResourceExhausted),
        reports: vec![CaptureStatus::Ready(stamp())],
        contents: Vec::new(),
    };
    let outcome = capture(&world);
    assert_eq!(
        outcome.result.err(),
        Some(FrameCaptureError::Allocation(AllocationError::ResourceExhausted))
    );
    assert_eq!(outcome.allocations, 1);
    assert_eq!(outcome.copies, 0);
    assert_eq!(outcome.releases, 0);
}

#[test]
fn capture_that_the_compositor_fails_is_not_retried() {
    let world = World {
        offers: vec![shared(PixelFormat::Rgba8888, 4, 4, 16)],
        allocation: Ok(BufferHandle { slot: 0 }),
        reports: vec![CaptureStatus::NotReady, CaptureStatus::Failed, CaptureStatus::Ready(stamp())],
        contents: vec![0; 64],
    };
    let outcome = capture(&world);
    assert_eq!(outcome.result.err(), Some(FrameCaptureError::CaptureFailed));
    assert_eq!(outcome.allocations, 1);
    assert_eq!(outcome.copies, 1);
    assert_eq!(outcome.releases, 1);
}

#[test]
fn capture_ends_on_a_transport_error() {
    let world = World {
        offers: vec![shared(PixelFormat::Rgba8888, 4, 4, 16)],
        allocation: Ok(BufferHandle { slot: 0 }),
        reports: vec![CaptureStatus::NotReady],
        contents: vec![0; 64],
    };
    let outcome = capture(&world);
    assert_eq!(outcome.result.err(), Some(FrameCaptureError::Transport));
    assert_eq!(outcome.releases, 1);
}

#[test]
fn capture_of_an_unknown_format_fails_at_conversion() {
    let world = World {
        offers: vec![shared(PixelFormat::Other(0x3231_5559), 4, 4, 8)],
        allocation: Ok(BufferHandle { slot: 0 }),
        reports: vec![CaptureStatus::Ready(stamp())],
        contents: vec![0; 32],
    };
    let outcome = capture(&world);
    assert_eq!(outcome.result.err(), Some(FrameCaptureError::UnsupportedPixelFormat));
    assert_eq!(outcome.releases, 1);
}

#[test]
fn session_tells_which_events_it_accepts() {
    let mut session = CaptureSession::new(1);
    let offer = SessionEvent::Offer(shared(PixelFormat::Rgba8888, 4, 4, 16));
    assert!(session.permits(&offer));
    assert!(session.permits(&SessionEvent::OffersDone));
    assert!(session.permits(&SessionEvent::TransportError));
    assert!(!session.permits(&SessionEvent::BufferAllocated(BufferHandle { slot: 0 })));
    assert!(!session.permits(&SessionEvent::AllocationFailed(AllocationError::ResourceExhausted)));
    assert!(!session.permits(&SessionEvent::CopyRequested));
    assert!(!session.permits(&SessionEvent::Status(CaptureStatus::NotReady)));
    assert!(!session.permits(&SessionEvent::Released));
    session.apply(offer).unwrap();
    session.apply(SessionEvent::OffersDone).unwrap();
    assert!(!session.permits(&offer));
    assert!(session.permits(&SessionEvent::BufferAllocated(BufferHandle { slot: 0 })));
    assert!(session.permits(&SessionEvent::AllocationFailed(AllocationError::ResourceExhausted)));
    session.apply(SessionEvent::BufferAllocated(BufferHandle { slot: 0 })).unwrap();
    assert!(session.permits(&SessionEvent::CopyRequested));
    session.apply(SessionEvent::CopyRequested).unwrap();
    assert!(session.permits(&SessionEvent::Status(CaptureStatus::Failed)));
    assert!(!session.permits(&SessionEvent::Released));
    session.apply(SessionEvent::Status(CaptureStatus::Failed)).unwrap();
    assert!(session.permits(&SessionEvent::Released));
    assert!(session.permits(&SessionEvent::Status(CaptureStatus::NotReady)));
}
