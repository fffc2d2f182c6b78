use shell_bridge::bridge::{
    frontend_ready, on_window_event, react, react_all, Outgoing, ShellEvent, WindowEvent,
};
use shell_bridge::greet;
use shell_bridge::launch::LaunchArgs;

fn with_path(p: &str) -> LaunchArgs {
    LaunchArgs::from_args(&vec!["app".to_string(), p.to_string()])
}

fn open_file_paths(out: &[Option<Outgoing>]) -> Vec<String> {
    out.iter()
        .filter_map(|o| match o {
            Some(Outgoing::OpenFile(p)) => Some(p.clone()),
            _ => None,
        })
        .collect()
}

#[test]
fn greeting_text() {
    assert_eq!(greet("Tauri"), "Hello, Tauri! You've been greeted from Rust!");
    assert_eq!(greet(""), "Hello, ! You've been greeted from Rust!");
}

#[test]
fn event_names() {
    assert_eq!(Outgoing::OpenFile("/a".to_string()).name(), "open-file");
    assert_eq!(Outgoing::AppCloseRequested.name(), "app-close-requested");
}

#[test]
fn no_open_file_without_path() {
    let l = LaunchArgs::from_args(&vec!["app".to_string()]);
    assert!(frontend_ready(&l, true).is_none());
    assert!(frontend_ready(&l, false).is_none());
}

#[test]
fn open_file_once_with_main_window() {
    let l = with_path("/tmp/x.txt");
    let out = vec![frontend_ready(&l, true)];
    assert_eq!(open_file_paths(&out), vec!["/tmp/x.txt".to_string()]);
}

#[test]
fn no_open_file_without_main_window() {
    let l = with_path("/tmp/x.txt");
    assert!(frontend_ready(&l, false).is_none());
}

#[test]
fn ready_twice_emits_twice() {
    let l = with_path("/tmp/x.txt");
    let out = vec![frontend_ready(&l, true), frontend_ready(&l, true)];
    assert_eq!(
        open_file_paths(&out),
        vec!["/tmp/x.txt".to_string(), "/tmp/x.txt".to_string()]
    );
}

#[test]
fn close_request_is_vetoed_and_forwarded() {
    let r = on_window_event(WindowEvent::CloseRequested);
    assert!(r.prevent_close);
    assert!(matches!(r.emit, Some(Outgoing::AppCloseRequested)));
}

#[test]
fn other_window_events_pass_through() {
    let r = on_window_event(WindowEvent::Other);
    assert!(!r.prevent_close);
    assert!(r.emit.is_none());
}

#[test]
fn readiness_never_vetoes_a_close() {
    let l = with_path("/tmp/x.txt");
    let r = react(&l, ShellEvent::FrontendReady { main_window_present: true });
    assert!(!r.prevent_close);
    assert!(matches!(r.emit, Some(Outgoing::OpenFile(ref p)) if p == "/tmp/x.txt"));
}

#[test]
fn every_close_request_in_a_run_is_intercepted() {
    let l = with_path("/tmp/x.txt");
    let events = vec![
        ShellEvent::Window(WindowEvent::CloseRequested),
        ShellEvent::FrontendReady { main_window_present: true },
        ShellEvent::Window(WindowEvent::Other),
        ShellEvent::Window(WindowEvent::CloseRequested),
        ShellEvent::Window(WindowEvent::CloseRequested),
        ShellEvent::FrontendReady { main_window_present: false },
    ];
    let rs = react_all(&l, &events);
    assert_eq!(rs.len(), events.len());
    let notices = rs
        .iter()
        .filter(|r| matches!(r.emit, Some(Outgoing::AppCloseRequested)))
        .count();
    assert_eq!(notices, 3);
    for (e, r) in events.iter().zip(rs.iter()) {
        if *e == ShellEvent::Window(WindowEvent::CloseRequested) {
            assert!(r.prevent_close);
        } else {
            assert!(!r.prevent_close);
        }
    }
    let opens: Vec<Option<Outgoing>> = rs.into_iter().map(|r| r.emit).collect();
    assert_eq!(open_file_paths(&opens), vec!["/tmp/x.txt".to_string()]);
}

#[test]
fn empty_run_has_no_reactions() {
    let rs = react_all(&LaunchArgs::empty(), &Vec::new());
    assert!(rs.is_empty());
}
