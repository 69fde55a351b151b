use codex_protocol::ConversationId;
use codex_sdk::error::Error;
use codex_sdk::event::{
    thread_event_terminates_stream, AppServerEvent, EventTarget, OptionalThreadParams, RequestId, RuntimeParams,
    ServerNotification, ServerRequest, ThreadIdParams, ThreadParams, TurnCompletedParams,
};
use codex_sdk::runtime::events::{EventReceiver, EventRouter};
use codex_sdk::runtime::mailbox::{open_mailbox, PendingEvents, TryRecvError, PENDING_EVENT_CAPACITY};
use codex_sdk::runtime::route_model::{ThreadAttachmentKind, INACTIVE_ROUTE_CAPACITY};

const CAPACITY: usize = 4;

fn new_id() -> String {
    ConversationId::new().to_string()
}

fn turn_completed(thread_id: &str, turn_id: &str) -> AppServerEvent {
    AppServerEvent::ServerNotification(ServerNotification::TurnCompleted(TurnCompletedParams {
        thread_id: thread_id.to_string(),
        turn_id: turn_id.to_string(),
        body: "{}".to_string(),
    }))
}

fn thread_warning(thread_id: &str, message: &str) -> AppServerEvent {
    AppServerEvent::ServerNotification(ServerNotification::Warning(OptionalThreadParams {
        thread_id: Some(thread_id.to_string()),
        body: message.to_string(),
    }))
}

fn runtime_warning(message: &str) -> AppServerEvent {
    AppServerEvent::ServerNotification(ServerNotification::Warning(OptionalThreadParams {
        thread_id: None,
        body: message.to_string(),
    }))
}

fn thread_archived(thread_id: &str) -> AppServerEvent {
    AppServerEvent::ServerNotification(ServerNotification::ThreadArchived(ThreadIdParams {
        thread_id: thread_id.to_string(),
    }))
}

fn thread_unarchived(thread_id: &str) -> AppServerEvent {
    AppServerEvent::ServerNotification(ServerNotification::ThreadUnarchived(ThreadIdParams {
        thread_id: thread_id.to_string(),
    }))
}

fn thread_closed(thread_id: &str) -> AppServerEvent {
    AppServerEvent::ServerNotification(ServerNotification::ThreadClosed(ThreadIdParams {
        thread_id: thread_id.to_string(),
    }))
}

fn turn_id(event: Result<AppServerEvent, TryRecvError>) -> Option<String> {
    match event {
        Ok(AppServerEvent::ServerNotification(ServerNotification::TurnCompleted(completed))) => {
            Some(completed.turn_id)
        }
        _ => None,
    }
}

fn warning_text(event: Result<AppServerEvent, TryRecvError>) -> Option<String> {
    match event {
        Ok(AppServerEvent::ServerNotification(ServerNotification::Warning(warning))) => Some(warning.body),
        _ => None,
    }
}

fn is_empty(event: Result<AppServerEvent, TryRecvError>) -> bool {
    matches!(event, Err(TryRecvError::Empty))
}

fn has_ended(event: Result<AppServerEvent, TryRecvError>) -> bool {
    matches!(event, Err(TryRecvError::Disconnected))
}

fn is_archived(event: Result<AppServerEvent, TryRecvError>) -> bool {
    matches!(event, Ok(AppServerEvent::ServerNotification(ServerNotification::ThreadArchived(_))))
}

fn is_unarchived(event: Result<AppServerEvent, TryRecvError>) -> bool {
    matches!(event, Ok(AppServerEvent::ServerNotification(ServerNotification::ThreadUnarchived(_))))
}

fn is_closed(event: Result<AppServerEvent, TryRecvError>) -> bool {
    matches!(event, Ok(AppServerEvent::ServerNotification(ServerNotification::ThreadClosed(_))))
}

fn take_thread(router: &mut EventRouter, id: &str) -> EventReceiver {
    match router.take_thread(id) {
        Ok(receiver) => receiver,
        Err(error) => panic!("thread should attach: {}", error.message()),
    }
}

fn take_runtime(router: &mut EventRouter) -> EventReceiver {
    match router.take_runtime() {
        Ok(receiver) => receiver,
        Err(error) => panic!("runtime stream should attach: {}", error.message()),
    }
}

fn reserve_and_claim(router: &mut EventRouter, id: &str, kind: ThreadAttachmentKind) -> EventReceiver {
    match router.prepare_thread(id, kind) {
        Ok(reservation) => match reservation.claim(router) {
            Ok(receiver) => receiver,
            Err(error) => panic!("reservation should attach: {}", error.message()),
        },
        Err(error) => panic!("route should reserve: {}", error.message()),
    }
}

#[test]
fn routes_events_only_to_their_owning_thread() {
    let mut router = EventRouter::new(CAPACITY);
    let first_id = new_id();
    let second_id = new_id();
    let first = take_thread(&mut router, &first_id);
    let second = take_thread(&mut router, &second_id);

    router.route(turn_completed(&first_id, "turn-1"));

    assert_eq!(turn_id(router.try_recv(&first)).as_deref(), Some("turn-1"));
    assert!(is_empty(router.try_recv(&first)));
    assert!(is_empty(router.try_recv(&second)));
}

#[test]
fn turn_completion_does_not_close_a_thread_route() {
    let mut router = EventRouter::new(CAPACITY);
    let thread_id = new_id();
    let receiver = take_thread(&mut router, &thread_id);

    router.route(turn_completed(&thread_id, "turn-1"));
    router.route(turn_completed(&thread_id, "turn-2"));

    assert_eq!(turn_id(router.try_recv(&receiver)).as_deref(), Some("turn-1"));
    assert_eq!(turn_id(router.try_recv(&receiver)).as_deref(), Some("turn-2"));
    assert!(is_empty(router.try_recv(&receiver)));
}

#[test]
fn thread_close_is_delivered_before_the_route_ends() {
    let mut router = EventRouter::new(CAPACITY);
    let thread_id = new_id();
    let receiver = take_thread(&mut router, &thread_id);

    router.route(thread_closed(&thread_id));

    assert!(is_closed(router.try_recv(&receiver)));
    assert!(has_ended(router.try_recv(&receiver)));
}

#[test]
fn thread_archive_is_delivered_before_the_route_ends() {
    let mut router = EventRouter::new(CAPACITY);
    let thread_id = new_id();
    let receiver = take_thread(&mut router, &thread_id);

    router.route(thread_archived(&thread_id));

    assert!(is_archived(router.try_recv(&receiver)));
    assert!(has_ended(router.try_recv(&receiver)));
    assert!(router.prepare_thread(&thread_id, ThreadAttachmentKind::Unarchive).is_ok());
}

#[test]
fn delete_is_a_terminal_thread_event() {
    let thread_id = new_id();
    assert!(thread_event_terminates_stream(&AppServerEvent::ServerNotification(
        ServerNotification::ThreadDeleted(ThreadIdParams { thread_id })
    )));
}

#[test]
fn reservation_survives_a_late_archive_notification() {
    let mut router = EventRouter::new(CAPACITY);
    let thread_id = new_id();
    let reservation = match router.prepare_thread(&thread_id, ThreadAttachmentKind::Unarchive) {
        Ok(reservation) => reservation,
        Err(error) => panic!("unarchive route should reserve: {}", error.message()),
    };

    router.route(thread_archived(&thread_id));
    router.route(thread_unarchived(&thread_id));
    let receiver = match reservation.claim(&mut router) {
        Ok(receiver) => receiver,
        Err(error) => panic!("reservation should attach: {}", error.message()),
    };
    router.route(turn_completed(&thread_id, "fresh"));

    assert!(is_unarchived(router.try_recv(&receiver)));
    assert_eq!(turn_id(router.try_recv(&receiver)).as_deref(), Some("fresh"));
}

#[test]
fn claimed_unarchive_ignores_the_old_archive_until_its_boundary() {
    let mut router = EventRouter::new(CAPACITY);
    let thread_id = new_id();
    let receiver = reserve_and_claim(&mut router, &thread_id, ThreadAttachmentKind::Unarchive);

    router.route(thread_archived(&thread_id));
    router.route(thread_unarchived(&thread_id));
    router.route(turn_completed(&thread_id, "fresh"));

    assert!(is_unarchived(router.try_recv(&receiver)));
    assert_eq!(turn_id(router.try_recv(&receiver)).as_deref(), Some("fresh"));
}

#[test]
fn successful_archive_closes_locally_and_deduplicates_the_notification() {
    let mut router = EventRouter::new(CAPACITY);
    let thread_id = new_id();
    let receiver = take_thread(&mut router, &thread_id);

    assert!(router.complete_archive(&thread_id).is_ok());
    router.route(thread_archived(&thread_id));

    assert!(is_archived(router.try_recv(&receiver)));
    assert!(has_ended(router.try_recv(&receiver)));
}

#[test]
fn terminal_delivery_bypasses_a_full_live_queue() {
    let mut router = EventRouter::new(1);
    let thread_id = new_id();
    let receiver = take_thread(&mut router, &thread_id);
    router.route(turn_completed(&thread_id, "queued"));

    assert!(router.complete_archive(&thread_id).is_ok());

    assert_eq!(turn_id(router.try_recv(&receiver)).as_deref(), Some("queued"));
    assert!(is_archived(router.try_recv(&receiver)));
    assert!(has_ended(router.try_recv(&receiver)));
}

#[test]
fn a_successful_new_archive_is_not_treated_as_a_stale_notification() {
    let mut router = EventRouter::new(CAPACITY);
    let thread_id = new_id();
    let receiver = reserve_and_claim(&mut router, &thread_id, ThreadAttachmentKind::Unarchive);

    assert!(router.complete_archive(&thread_id).is_ok());

    assert!(is_archived(router.try_recv(&receiver)));
    assert!(has_ended(router.try_recv(&receiver)));
}

#[test]
fn an_unknown_terminal_event_does_not_create_a_route() {
    let mut router = EventRouter::new(CAPACITY);
    let thread_id = new_id();

    router.route(thread_closed(&thread_id));

    assert!(!router.has_thread(&thread_id));
}

#[test]
fn a_terminal_event_after_pending_events_remains_replayable() {
    let mut router = EventRouter::new(CAPACITY);
    let thread_id = new_id();
    router.route(turn_completed(&thread_id, "pending"));
    router.route(thread_closed(&thread_id));

    let receiver = take_thread(&mut router, &thread_id);
    assert_eq!(turn_id(router.try_recv(&receiver)).as_deref(), Some("pending"));
    assert!(is_closed(router.try_recv(&receiver)));
    assert!(has_ended(router.try_recv(&receiver)));
}

#[test]
fn inactive_routes_are_bounded() {
    let mut router = EventRouter::new(CAPACITY);
    for _ in 0..=INACTIVE_ROUTE_CAPACITY {
        let thread_id = new_id();
        router.route(thread_warning(&thread_id, "pending"));
    }

    assert_eq!(router.inactive_count(), INACTIVE_ROUTE_CAPACITY);
    assert_eq!(router.thread_count(), INACTIVE_ROUTE_CAPACITY);
}

#[test]
fn receiver_lease_detaches_its_route() {
    let mut router = EventRouter::new(CAPACITY);
    let thread_id = new_id();
    let receiver = take_thread(&mut router, &thread_id);
    router.release(receiver);

    assert!(router.is_detached(&thread_id));
}

#[test]
fn runtime_events_are_not_duplicated_into_thread_routes() {
    let mut router = EventRouter::new(CAPACITY);
    let thread_id = new_id();
    let runtime = take_runtime(&mut router);
    let thread = take_thread(&mut router, &thread_id);

    router.route(runtime_warning("runtime warning"));

    assert_eq!(warning_text(router.try_recv(&runtime)).as_deref(), Some("runtime warning"));
    assert!(is_empty(router.try_recv(&thread)));
}

#[test]
fn lag_is_broadcast_to_runtime_and_thread_routes() {
    let mut router = EventRouter::new(CAPACITY);
    let thread_id = new_id();
    let runtime = take_runtime(&mut router);
    let thread = take_thread(&mut router, &thread_id);

    router.route(AppServerEvent::Lagged { skipped: 7 });

    assert!(matches!(router.try_recv(&runtime), Ok(AppServerEvent::Lagged { skipped: 7 })));
    assert!(matches!(router.try_recv(&thread), Ok(AppServerEvent::Lagged { skipped: 7 })));
}

#[test]
fn disconnect_is_delivered_to_every_attached_route() {
    let mut router = EventRouter::new(CAPACITY);
    let thread_id = new_id();
    let runtime = take_runtime(&mut router);
    let thread = take_thread(&mut router, &thread_id);

    router.route(AppServerEvent::Disconnected { message: "runtime closed".to_string() });

    assert!(matches!(router.try_recv(&runtime), Ok(AppServerEvent::Disconnected { .. })));
    assert!(matches!(router.try_recv(&thread), Ok(AppServerEvent::Disconnected { .. })));
    assert!(has_ended(router.try_recv(&runtime)));
    assert!(has_ended(router.try_recv(&thread)));
}

#[test]
fn replays_events_that_arrive_before_a_thread_is_attached() {
    let mut router = EventRouter::new(1);
    let thread_id = new_id();

    router.route(turn_completed(&thread_id, "turn-1"));
    router.route(turn_completed(&thread_id, "turn-2"));
    let receiver = take_thread(&mut router, &thread_id);

    assert_eq!(turn_id(router.try_recv(&receiver)).as_deref(), Some("turn-1"));
    assert_eq!(turn_id(router.try_recv(&receiver)).as_deref(), Some("turn-2"));
}

#[test]
fn each_route_has_only_one_receiver() {
    let mut router = EventRouter::new(CAPACITY);
    let thread_id = new_id();
    let _runtime = take_runtime(&mut router);
    let _thread = take_thread(&mut router, &thread_id);

    assert!(matches!(router.take_runtime(), Err(Error::CodexEventStreamTaken)));
    assert!(matches!(router.take_thread(&thread_id), Err(Error::ThreadEventStreamTaken { .. })));
}

#[test]
fn a_dropped_runtime_stream_cannot_be_taken_again() {
    let mut router = EventRouter::new(CAPACITY);
    let runtime = take_runtime(&mut router);
    router.release(runtime);

    router.route(runtime_warning("after drop"));

    assert!(matches!(router.take_runtime(), Err(Error::CodexEventStreamTaken)));
}

#[test]
fn reservation_is_exclusive_and_cancellation_discards_late_events() {
    let mut router = EventRouter::new(CAPACITY);
    let thread_id = new_id();
    let reservation = match router.prepare_thread(&thread_id, ThreadAttachmentKind::Resume) {
        Ok(reservation) => reservation,
        Err(error) => panic!("first reservation should succeed: {}", error.message()),
    };
    assert!(matches!(
        router.prepare_thread(&thread_id, ThreadAttachmentKind::Resume),
        Err(Error::ThreadLifecycleInProgress { .. })
    ));

    reservation.cancel(&mut router);
    router.route(turn_completed(&thread_id, "stale"));

    let receiver = reserve_and_claim(&mut router, &thread_id, ThreadAttachmentKind::Resume);
    router.route(turn_completed(&thread_id, "fresh"));
    assert_eq!(turn_id(router.try_recv(&receiver)).as_deref(), Some("fresh"));
}

#[test]
fn a_closed_thread_route_can_be_reserved_again() {
    let mut router = EventRouter::new(CAPACITY);
    let thread_id = new_id();
    let first = take_thread(&mut router, &thread_id);

    router.route(thread_closed(&thread_id));
    assert!(router.try_recv(&first).is_ok());
    assert!(has_ended(router.try_recv(&first)));

    let second = reserve_and_claim(&mut router, &thread_id, ThreadAttachmentKind::Resume);
    router.route(turn_completed(&thread_id, "turn-after-resume"));

    assert_eq!(turn_id(router.try_recv(&second)).as_deref(), Some("turn-after-resume"));
}

#[test]
fn best_effort_overflow_is_reported_before_a_required_event() {
    let mut router = EventRouter::new(1);
    let thread_id = new_id();
    let receiver = take_thread(&mut router, &thread_id);

    router.route(thread_warning(&thread_id, "first"));
    router.route(thread_warning(&thread_id, "dropped"));
    router.route(turn_completed(&thread_id, "required"));
    assert!(!router.is_idle());

    assert!(matches!(
        router.try_recv(&receiver),
        Ok(AppServerEvent::ServerNotification(ServerNotification::Warning(_)))
    ));
    assert!(matches!(router.try_recv(&receiver), Ok(AppServerEvent::Lagged { skipped: 1 })));
    assert_eq!(turn_id(router.try_recv(&receiver)).as_deref(), Some("required"));
    assert!(router.is_idle());
}

#[test]
fn a_required_event_waits_for_a_full_queue_and_is_not_lost() {
    let mut router = EventRouter::new(1);
    let thread_id = new_id();
    let receiver = take_thread(&mut router, &thread_id);
    router.route(turn_completed(&thread_id, "turn-1"));
    assert!(router.is_idle());
    router.route(turn_completed(&thread_id, "turn-2"));
    assert!(!router.is_idle());

    assert_eq!(turn_id(router.try_recv(&receiver)).as_deref(), Some("turn-1"));
    assert!(router.is_idle());
    assert_eq!(turn_id(router.try_recv(&receiver)).as_deref(), Some("turn-2"));
    assert!(is_empty(router.try_recv(&receiver)));
}

#[test]
fn giving_a_stream_back_frees_a_waiting_router() {
    let mut router = EventRouter::new(1);
    let thread_id = new_id();
    let receiver = take_thread(&mut router, &thread_id);
    router.route(turn_completed(&thread_id, "turn-1"));
    router.route(turn_completed(&thread_id, "turn-2"));
    assert!(!router.is_idle());
    router.release(receiver);
    assert!(router.is_idle());
    assert!(router.is_detached(&thread_id));
}

#[test]
fn abandoning_frees_a_waiting_router() {
    let mut router = EventRouter::new(1);
    let thread_id = new_id();
    let receiver = take_thread(&mut router, &thread_id);
    router.route(turn_completed(&thread_id, "turn-1"));
    router.route(turn_completed(&thread_id, "turn-2"));
    router.abandon();
    assert!(router.is_idle());
    assert_eq!(turn_id(router.try_recv(&receiver)).as_deref(), Some("turn-1"));
}

#[test]
fn lost_events_are_counted_and_reported_once() {
    let mut router = EventRouter::new(1);
    let thread_id = new_id();
    let receiver = take_thread(&mut router, &thread_id);
    for message in ["first", "lost-1", "lost-2", "lost-3"] {
        router.route(thread_warning(&thread_id, message));
    }
    assert_eq!(warning_text(router.try_recv(&receiver)).as_deref(), Some("first"));
    router.route(thread_closed(&thread_id));
    assert!(matches!(router.try_recv(&receiver), Ok(AppServerEvent::Lagged { skipped: 3 })));
    assert!(is_closed(router.try_recv(&receiver)));
    assert!(has_ended(router.try_recv(&receiver)));
}

#[test]
fn a_closed_router_attaches_nobody() {
    let mut router = EventRouter::new(CAPACITY);
    let thread_id = new_id();
    let reservation = match router.prepare_thread(&thread_id, ThreadAttachmentKind::Resume) {
        Ok(reservation) => reservation,
        Err(error) => panic!("reservation should succeed: {}", error.message()),
    };
    router.close("gone".to_string());
    assert!(matches!(reservation.claim(&mut router), Err(Error::RuntimeClosed)));
    assert!(matches!(router.take_runtime(), Err(Error::RuntimeClosed)));
    assert!(matches!(router.take_thread(&thread_id), Err(Error::RuntimeClosed)));
    assert!(matches!(
        router.prepare_thread(&thread_id, ThreadAttachmentKind::Unarchive),
        Err(Error::RuntimeClosed)
    ));
}

#[test]
fn thread_ids_that_do_not_parse_are_refused() {
    let mut router = EventRouter::new(CAPACITY);
    assert!(matches!(
        router.take_thread("not-a-thread"),
        Err(Error::InvalidThreadId { thread_id }) if thread_id == "not-a-thread"
    ));
    assert!(matches!(
        router.prepare_thread("", ThreadAttachmentKind::Resume),
        Err(Error::InvalidThreadId { .. })
    ));
    assert!(matches!(router.complete_archive("x"), Err(Error::InvalidThreadId { .. })));
}

#[test]
fn thread_ids_are_compared_in_their_canonical_form() {
    let mut router = EventRouter::new(CAPACITY);
    let thread_id = new_id();
    let spelled = thread_id.to_uppercase();
    assert_ne!(spelled, thread_id);
    let receiver = take_thread(&mut router, &spelled);
    assert!(router.has_thread(&thread_id));
    router.route(turn_completed(&thread_id, "turn-1"));
    assert_eq!(turn_id(router.try_recv(&receiver)).as_deref(), Some("turn-1"));
}

#[test]
fn events_of_unreadable_threads_reach_nobody() {
    let mut router = EventRouter::new(CAPACITY);
    let runtime = take_runtime(&mut router);
    router.route(turn_completed("not-a-thread", "turn-1"));
    assert!(is_empty(router.try_recv(&runtime)));
    assert_eq!(router.thread_count(), 0);
}

#[test]
fn the_oldest_unowned_route_gives_way() {
    let mut router = EventRouter::new(CAPACITY);
    let oldest = new_id();
    let second = new_id();
    router.route(thread_warning(&oldest, "oldest"));
    router.route(thread_warning(&second, "second"));
    for _ in 0..INACTIVE_ROUTE_CAPACITY - 1 {
        router.route(thread_warning(&new_id(), "pending"));
    }
    assert!(!router.has_thread(&oldest));
    assert!(router.has_thread(&second));
}

#[test]
fn replay_keeps_the_newest_events_and_counts_the_rest() {
    let mut router = EventRouter::new(CAPACITY);
    let thread_id = new_id();
    assert_eq!(PENDING_EVENT_CAPACITY, 32_768);
    for i in 0..PENDING_EVENT_CAPACITY + 5 {
        router.route(thread_warning(&thread_id, &format!("{i}")));
    }
    let receiver = take_thread(&mut router, &thread_id);
    assert!(matches!(router.try_recv(&receiver), Ok(AppServerEvent::Lagged { skipped: 5 })));
    for i in 5..PENDING_EVENT_CAPACITY + 5 {
        assert_eq!(warning_text(router.try_recv(&receiver)), Some(format!("{i}")));
    }
    assert!(is_empty(router.try_recv(&receiver)));
}

#[test]
fn threadless_events_are_replayed_on_the_runtime_stream() {
    let mut router = EventRouter::new(CAPACITY);
    router.route(runtime_warning("early"));
    let runtime = take_runtime(&mut router);
    router.route(AppServerEvent::ServerNotification(ServerNotification::SkillsChanged(RuntimeParams {
        body: "{}".to_string(),
    })));
    assert_eq!(warning_text(router.try_recv(&runtime)).as_deref(), Some("early"));
    assert!(matches!(
        router.try_recv(&runtime),
        Ok(AppServerEvent::ServerNotification(ServerNotification::SkillsChanged(_)))
    ));
}

#[test]
fn server_requests_reach_their_thread() {
    let mut router = EventRouter::new(CAPACITY);
    let thread_id = new_id();
    let receiver = take_thread(&mut router, &thread_id);
    router.route(AppServerEvent::ServerRequest(ServerRequest::FileChangeRequestApproval {
        request_id: RequestId::Integer(7),
        params: ThreadParams { thread_id: thread_id.clone(), body: "{}".to_string() },
    }));
    assert!(matches!(
        router.try_recv(&receiver),
        Ok(AppServerEvent::ServerRequest(ServerRequest::FileChangeRequestApproval {
            request_id: RequestId::Integer(7),
            ..
        }))
    ));
}

#[test]
fn a_router_without_capacity_still_holds_one_event() {
    let mut router = EventRouter::new(0);
    let thread_id = new_id();
    let receiver = take_thread(&mut router, &thread_id);
    router.route(turn_completed(&thread_id, "turn-1"));
    assert!(router.is_idle());
    assert_eq!(turn_id(router.try_recv(&receiver)).as_deref(), Some("turn-1"));
}

#[test]
fn a_reservation_can_be_claimed_by_its_generation_only() {
    let mut router = EventRouter::new(CAPACITY);
    let thread_id = new_id();
    let first = match router.prepare_thread(&thread_id, ThreadAttachmentKind::Resume) {
        Ok(reservation) => reservation,
        Err(error) => panic!("reservation should succeed: {}", error.message()),
    };
    router.cancel_reserved_thread(thread_id.clone(), 1);
    let second = match router.prepare_thread(&thread_id, ThreadAttachmentKind::Resume) {
        Ok(reservation) => reservation,
        Err(error) => panic!("reservation should succeed: {}", error.message()),
    };
    assert!(matches!(first.claim(&mut router), Err(Error::ThreadLifecycleInProgress { .. })));
    assert!(second.claim(&mut router).is_ok());
}

#[test]
fn events_can_be_routed_to_a_parsed_target() {
    let mut router = EventRouter::new(CAPACITY);
    let receiver = match router.take_parsed_thread("thread".to_string()) {
        Ok(receiver) => receiver,
        Err(error) => panic!("thread should attach: {}", error.message()),
    };
    router.route_to(EventTarget::Thread("thread".to_string()), turn_completed("thread", "turn-1"));
    router.route_to(EventTarget::InvalidThread, turn_completed("thread", "turn-2"));
    assert_eq!(turn_id(router.try_recv(&receiver)).as_deref(), Some("turn-1"));
    assert!(is_empty(router.try_recv(&receiver)));
}

#[test]
fn early_events_survive_other_traffic() {
    let mut router = EventRouter::new(1);
    let thread_id = new_id();
    let runtime = take_runtime(&mut router);
    let busy_id = new_id();
    let busy = take_thread(&mut router, &busy_id);
    router.route(turn_completed(&thread_id, "turn-1"));
    for i in 0..INACTIVE_ROUTE_CAPACITY - 1 {
        router.route(thread_warning(&new_id(), &format!("{i}")));
    }
    router.route(AppServerEvent::Lagged { skipped: 2 });
    assert!(router.try_recv(&runtime).is_ok());
    assert!(router.try_recv(&busy).is_ok());
    router.route(turn_completed(&thread_id, "turn-2"));

    let receiver = take_thread(&mut router, &thread_id);
    router.route(turn_completed(&thread_id, "live"));

    assert_eq!(turn_id(router.try_recv(&receiver)).as_deref(), Some("turn-1"));
    assert!(matches!(router.try_recv(&receiver), Ok(AppServerEvent::Lagged { skipped: 2 })));
    assert_eq!(turn_id(router.try_recv(&receiver)).as_deref(), Some("turn-2"));
    assert_eq!(turn_id(router.try_recv(&receiver)).as_deref(), Some("live"));
    assert!(is_empty(router.try_recv(&receiver)));
}

#[test]
fn a_claim_replays_what_came_before_and_during_the_reservation() {
    let mut router = EventRouter::new(1);
    let thread_id = new_id();
    router.route(turn_completed(&thread_id, "before"));
    let reservation = match router.prepare_thread(&thread_id, ThreadAttachmentKind::Resume) {
        Ok(reservation) => reservation,
        Err(error) => panic!("route should reserve: {}", error.message()),
    };
    router.route(turn_completed(&thread_id, "during"));
    for _ in 0..INACTIVE_ROUTE_CAPACITY + 1 {
        router.route(thread_warning(&new_id(), "other"));
    }
    let receiver = match reservation.claim(&mut router) {
        Ok(receiver) => receiver,
        Err(error) => panic!("reservation should attach: {}", error.message()),
    };
    router.route(turn_completed(&thread_id, "after"));
    assert_eq!(turn_id(router.try_recv(&receiver)).as_deref(), Some("before"));
    assert_eq!(turn_id(router.try_recv(&receiver)).as_deref(), Some("during"));
    assert_eq!(turn_id(router.try_recv(&receiver)).as_deref(), Some("after"));
    assert!(is_empty(router.try_recv(&receiver)));
}

#[test]
fn the_runtime_stream_stays_free_until_it_is_taken() {
    let mut router = EventRouter::new(CAPACITY);
    let thread_id = new_id();
    let thread = take_thread(&mut router, &thread_id);
    router.route(runtime_warning("one"));
    router.route(AppServerEvent::Lagged { skipped: 4 });
    assert!(router.try_recv(&thread).is_ok());
    router.release(thread);
    router.route(runtime_warning("two"));

    let runtime = take_runtime(&mut router);
    assert_eq!(warning_text(router.try_recv(&runtime)).as_deref(), Some("one"));
    assert!(matches!(router.try_recv(&runtime), Ok(AppServerEvent::Lagged { skipped: 4 })));
    assert_eq!(warning_text(router.try_recv(&runtime)).as_deref(), Some("two"));

    router.route(AppServerEvent::Lagged { skipped: 1 });
    assert!(matches!(router.take_runtime(), Err(Error::CodexEventStreamTaken)));
    router.release(runtime);
    assert!(matches!(router.take_runtime(), Err(Error::CodexEventStreamTaken)));
    router.close("gone".to_string());
    assert!(matches!(router.take_runtime(), Err(Error::RuntimeClosed)));
}

#[test]
fn a_stream_accounts_for_every_event_it_was_offered() {
    let mut mailbox = open_mailbox(2, PendingEvents::new());
    let thread_id = new_id();
    let mut given = Vec::new();
    for i in 0..12 {
        let event = if i % 5 == 4 {
            assert!(mailbox.forward(turn_completed(&thread_id, &format!("{i}")), true));
            continue;
        } else {
            thread_warning(&thread_id, &format!("{i}"))
        };
        assert!(mailbox.forward(event, false));
        if i % 3 == 2 {
            given.push(mailbox.try_recv());
        }
    }
    loop {
        match mailbox.try_recv() {
            Err(_) => break,
            event => given.push(event),
        }
    }
    let mut place = 0;
    let mut reported = 0;
    let mut kept = 0;
    let mut required = 0;
    for event in given {
        match event {
            Ok(AppServerEvent::Lagged { skipped }) => {
                reported += skipped;
                place += skipped;
            }
            event => {
                let text = match event {
                    Ok(AppServerEvent::ServerNotification(ServerNotification::TurnCompleted(completed))) => {
                        required += 1;
                        completed.turn_id
                    }
                    event => match warning_text(event) {
                        Some(text) => {
                            kept += 1;
                            text
                        }
                        None => panic!("only what was offered comes out"),
                    },
                };
                assert_eq!(text, format!("{place}"));
                place += 1;
            }
        }
    }
    assert!(mailbox.forward(turn_completed(&thread_id, "last"), true));
    if let Ok(AppServerEvent::Lagged { skipped }) = mailbox.try_recv() {
        reported += skipped;
    }
    assert_eq!(required, 2);
    assert!(reported > 0);
    assert_eq!(kept + reported, 10);
}
