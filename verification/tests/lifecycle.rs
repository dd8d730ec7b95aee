use hello_sailor::display::{DisplayServer, ServerOp};
use hello_sailor::event::{close_requested, Event, EventKind};
use hello_sailor::window::{OpenError, WindowHandle};

fn close_event(handle: &WindowHandle) -> Event {
    Event {
        kind: EventKind::ClientMessage,
        message_type: handle.wm_protocols,
        data0: handle.wm_delete_window,
        filtered: false,
    }
}

fn motion_event() -> Event {
    Event { kind: EventKind::MotionNotify, message_type: 0, data0: 0, filtered: false }
}

fn count_op(log: &[ServerOp], op: ServerOp) -> usize {
    let mut n = 0;
    for entry in log {
        if *entry == op {
            n += 1;
        }
    }
    n
}

#[test]
fn open_returns_fully_initialized_handle() {
    let mut server = DisplayServer::new();
    let handle = WindowHandle::open(&mut server, b"hello-sailor", 800, 600).unwrap();
    assert_eq!(handle.width, 800);
    assert_eq!(handle.height, 600);
    assert_ne!(handle.wm_protocols, 0);
    assert_ne!(handle.wm_delete_window, 0);
    assert_ne!(handle.wm_protocols, handle.wm_delete_window);
    assert!(server.connected);
    assert_eq!(count_op(&server.log, ServerOp::Connect), 1);
    assert_eq!(count_op(&server.log, ServerOp::CreateWindow(handle.window)), 1);
    assert_eq!(count_op(&server.log, ServerOp::SetTitle(handle.window)), 1);
    assert_eq!(count_op(&server.log, ServerOp::SetProtocols(handle.window)), 1);
}

#[test]
fn scenario_close_request_then_teardown() {
    let mut server = DisplayServer::new();
    let mut handle = WindowHandle::open(&mut server, b"t", 10, 10).unwrap();
    handle.show(&mut server);
    let synthetic = close_event(&handle);
    server.synthesize(synthetic);
    let drained = handle.drain_events(&mut server);
    assert!(close_requested(&drained, handle.wm_protocols, handle.wm_delete_window));
    let window = handle.window;
    handle.close(&mut server);
    assert_eq!(count_op(&server.log, ServerOp::DestroyWindow(window)), 1);
    assert_eq!(count_op(&server.log, ServerOp::CloseConnection), 1);
    let destroy_at = server.log.iter().position(|op| *op == ServerOp::DestroyWindow(window));
    let close_at = server.log.iter().position(|op| *op == ServerOp::CloseConnection);
    assert!(destroy_at.unwrap() < close_at.unwrap());
    assert!(!server.connected);
}

#[test]
fn scenario_unrelated_events_then_close_request() {
    let mut server = DisplayServer::new();
    let mut handle = WindowHandle::open(&mut server, b"t", 10, 10).unwrap();
    handle.show(&mut server);
    let before = handle;
    let log_len_before = server.log.len();
    for _ in 0..5 {
        server.synthesize(motion_event());
    }
    server.synthesize(close_event(&handle));
    let drained = handle.drain_events(&mut server);
    assert_eq!(drained.len(), 6);
    assert!(close_requested(&drained, handle.wm_protocols, handle.wm_delete_window));
    let close_count = drained
        .iter()
        .filter(|e| {
            e.kind == EventKind::ClientMessage
                && e.message_type == handle.wm_protocols
                && e.data0 == handle.wm_delete_window
        })
        .count();
    assert_eq!(close_count, 1);
    assert_eq!(handle, before);
    assert_eq!(server.log.len(), log_len_before);
}

#[test]
fn open_rejects_title_with_embedded_nul() {
    let mut server = DisplayServer::new();
    let result = WindowHandle::open(&mut server, b"he\0llo", 800, 600);
    assert_eq!(result, Err(OpenError::InvalidTitle));
    assert_eq!(server.log.len(), 0);
    assert!(!server.connected);
    assert_eq!(server.queue.len(), 0);
}

#[test]
fn open_reports_refused_connection() {
    let mut server = DisplayServer::unreachable();
    let result = WindowHandle::open(&mut server, b"t", 10, 10);
    assert_eq!(result, Err(OpenError::ConnectionFailed));
    assert_eq!(server.log.len(), 0);
    assert!(!server.connected);
}

#[test]
fn drain_on_empty_queue_is_a_noop() {
    let mut server = DisplayServer::new();
    let handle = WindowHandle::open(&mut server, b"t", 10, 10).unwrap();
    let log_len_before = server.log.len();
    let first = handle.drain_events(&mut server);
    assert!(first.is_empty());
    let second = handle.drain_events(&mut server);
    assert!(second.is_empty());
    assert_eq!(server.log.len(), log_len_before);
    assert_eq!(server.queue.len(), 0);
}

#[test]
fn show_leaves_identifier_and_atoms_alone() {
    let mut server = DisplayServer::new();
    let mut handle = WindowHandle::open(&mut server, b"t", 10, 10).unwrap();
    let before = handle;
    handle.show(&mut server);
    handle.show(&mut server);
    handle.show(&mut server);
    assert_eq!(handle.window, before.window);
    assert_eq!(handle.screen, before.screen);
    assert_eq!(handle.wm_protocols, before.wm_protocols);
    assert_eq!(handle.wm_delete_window, before.wm_delete_window);
    assert_eq!(count_op(&server.log, ServerOp::MapWindow(handle.window)), 3);
}

#[test]
fn filtered_close_request_is_not_delivered() {
    let mut server = DisplayServer::new();
    let handle = WindowHandle::open(&mut server, b"t", 10, 10).unwrap();
    let mut consumed = close_event(&handle);
    consumed.filtered = true;
    server.synthesize(consumed);
    let drained = handle.drain_events(&mut server);
    assert!(drained.is_empty());
    assert!(!close_requested(&drained, handle.wm_protocols, handle.wm_delete_window));
}

#[test]
fn drain_keeps_order_and_drops_filtered_events() {
    let mut server = DisplayServer::new();
    let handle = WindowHandle::open(&mut server, b"t", 10, 10).unwrap();
    let key = Event { kind: EventKind::KeyPress, message_type: 0, data0: 7, filtered: false };
    let eaten = Event { kind: EventKind::KeyPress, message_type: 0, data0: 8, filtered: true };
    let button = Event { kind: EventKind::ButtonRelease, message_type: 0, data0: 9, filtered: false };
    server.synthesize(key);
    server.synthesize(eaten);
    server.synthesize(button);
    let drained = handle.drain_events(&mut server);
    assert_eq!(drained, vec![key, button]);
    assert!(eaten.filtered);
    assert_eq!(server.queue.len(), 0);
}
