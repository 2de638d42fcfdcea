use chefctl::router::{LogRouter, ReadEvent, RouteAction, RouterStatus};

#[test]
fn one_line_then_end_is_copied_once_to_both_sinks() {
    let mut router = LogRouter::new();
    let mut log_file = String::new();
    let mut console = String::new();
    let events = vec![ReadEvent::Line(String::from("line1\n")), ReadEvent::EndOfStream];
    for ev in events {
        match router.on_read(ev) {
            RouteAction::WriteBoth(bytes) => {
                log_file.push_str(&bytes);
                console.push_str(&bytes);
                assert!(router.on_written(true, true));
            }
            RouteAction::Retry => panic!("no read failed"),
            RouteAction::Stop => break,
        }
    }
    assert_eq!(log_file, "line1\n");
    assert_eq!(console, "line1\n");
    assert_eq!(router.status(), RouterStatus::Finished);
}

#[test]
fn failed_read_is_retried() {
    let mut router = LogRouter::new();
    assert!(matches!(router.on_read(ReadEvent::ReadFailed), RouteAction::Retry));
    assert_eq!(router.status(), RouterStatus::Draining);
    match router.on_read(ReadEvent::Line(String::from("x"))) {
        RouteAction::WriteBoth(b) => assert_eq!(b, "x"),
        _ => panic!("a line is written"),
    }
}

#[test]
fn failed_write_halts_the_stream() {
    let mut router = LogRouter::new();
    let _ = router.on_read(ReadEvent::Line(String::from("a\n")));
    assert!(!router.on_written(true, false));
    assert_eq!(router.status(), RouterStatus::Halted);
    assert!(matches!(router.on_read(ReadEvent::Line(String::from("b\n"))), RouteAction::Stop));
}

#[test]
fn finished_router_stays_stopped() {
    let mut router = LogRouter::new();
    assert!(matches!(router.on_read(ReadEvent::EndOfStream), RouteAction::Stop));
    assert!(matches!(router.on_read(ReadEvent::Line(String::from("late"))), RouteAction::Stop));
    assert!(!router.on_written(true, true));
    assert_eq!(router.status(), RouterStatus::Finished);
}
