use fdx::dir_entry::{DirEntry, FileType};
use fdx::exit_codes::{classify, ExitCode};
use fdx::output::render;
use fdx::walk::{
    after_send, dispatch, Dispatch, Event, ReceiverBuffer, ReceiverMode, Step, Visit, Wait,
    WalkOptions, WalkState, WorkerResult, DEFAULT_MAX_BUFFER_TIME, DEFAULT_THREADS,
    MAX_BUFFER_LENGTH,
};

fn file(path: &str) -> DirEntry {
    DirEntry::new(path.to_string(), 1, Some(FileType::Regular))
}

fn dir(path: &str) -> DirEntry {
    DirEntry::new(path.to_string(), 1, Some(FileType::Directory))
}

fn entry(e: DirEntry) -> Event {
    Event::Message(WorkerResult::Entry(e))
}

fn paths(step: &Step) -> Vec<String> {
    step.print.iter().map(|e| e.path().to_string()).collect()
}

#[test]
fn small_scan_prints_sorted_lines() {
    let mut rx = ReceiverBuffer::new(0);
    let mut out: Vec<u8> = Vec::new();
    for e in [file("./src/main.rs"), dir("./src"), file("./Cargo.toml")] {
        let step = rx.poll(entry(e));
        assert!(step.print.is_empty());
        assert!(!step.flush);
        assert_eq!(step.exit, None);
        out.extend(render(&step.print));
    }
    assert_eq!(rx.mode(), ReceiverMode::Buffering);
    let last = rx.poll(Event::Disconnected);
    out.extend(render(&last.print));
    assert_eq!(String::from_utf8(out).unwrap(), "Cargo.toml\nsrc/\nsrc/main.rs\n");
    assert!(last.flush);
    assert!(last.quit);
    assert_eq!(last.exit, Some(ExitCode::HasResults(true)));
    assert_eq!(rx.stopped(), Some(ExitCode::HasResults(true)));
    assert_eq!(rx.num_results(), 3);
}

#[test]
fn slow_scan_streams_in_discovery_order() {
    let mut rx = ReceiverBuffer::new(0);
    let mut lines: Vec<String> = Vec::new();
    for i in (0..10).rev() {
        let step = rx.poll(entry(file(&format!("early{}", i))));
        assert!(step.print.is_empty());
    }
    let flushed = rx.poll(Event::Timeout);
    assert!(flushed.flush);
    assert_eq!(flushed.exit, None);
    lines.extend(paths(&flushed));
    assert_eq!(lines.len(), 10);
    assert_eq!(lines[0], "early0");
    assert_eq!(lines[9], "early9");
    assert_eq!(rx.mode(), ReceiverMode::Streaming);
    for i in (0..4990).rev() {
        let name = format!("late{}", i);
        let step = rx.poll(entry(file(&name)));
        assert_eq!(paths(&step), vec![name]);
        assert!(step.flush);
        lines.extend(paths(&step));
    }
    let last = rx.poll(Event::Disconnected);
    assert!(last.print.is_empty());
    assert!(!last.flush);
    assert_eq!(last.exit, Some(ExitCode::HasResults(true)));
    assert_eq!(lines.len(), 5000);
    assert_eq!(lines[10], "late4989");
    assert_eq!(lines[4999], "late0");
    let mut unique = lines.clone();
    unique.sort();
    unique.dedup();
    assert_eq!(unique.len(), 5000);
}

#[test]
fn buffer_is_flushed_sorted_when_threshold_is_passed() {
    let mut rx = ReceiverBuffer::new(0);
    for i in (0..MAX_BUFFER_LENGTH).rev() {
        let step = rx.poll(entry(file(&format!("f{:04}", i + 1))));
        assert!(step.print.is_empty());
        assert_eq!(rx.mode(), ReceiverMode::Buffering);
    }
    let step = rx.poll(entry(file("f0000")));
    assert_eq!(step.print.len(), MAX_BUFFER_LENGTH + 1);
    assert!(step.flush);
    assert_eq!(step.exit, None);
    let names = paths(&step);
    assert_eq!(names[0], "f0000");
    assert_eq!(names[1], "f0001");
    assert_eq!(names[1000], "f1000");
    assert_eq!(rx.mode(), ReceiverMode::Streaming);
    assert_eq!(rx.num_results(), 1001);
    let next = rx.poll(entry(file("a")));
    assert_eq!(paths(&next), vec!["a".to_string()]);
}

#[test]
fn sink_failure_stops_gracefully() {
    let mut rx = ReceiverBuffer::new(0);
    rx.poll(Event::Timeout);
    let first = rx.poll(entry(file("a")));
    assert_eq!(first.print.len(), 1);
    let stop = rx.poll(Event::SinkFailed);
    assert!(stop.print.is_empty());
    assert!(stop.quit);
    assert_eq!(stop.exit, Some(ExitCode::Success));
    assert_eq!(classify(ExitCode::Success, false).code(), 0);
    let after = rx.poll(entry(file("b")));
    assert!(after.print.is_empty());
    assert!(!after.quit);
    assert_eq!(after.exit, Some(ExitCode::Success));
    assert_eq!(rx.num_results(), 1);
}

#[test]
fn empty_scan_has_no_results() {
    let mut rx = ReceiverBuffer::new(5);
    let last = rx.poll(Event::Disconnected);
    assert!(render(&last.print).is_empty());
    assert_eq!(last.exit, Some(ExitCode::HasResults(false)));
    assert_eq!(classify(ExitCode::HasResults(false), false), ExitCode::HasResults(false));
}

#[test]
fn traversal_errors_are_reported_and_not_counted() {
    let mut rx = ReceiverBuffer::new(0);
    let step = rx.poll(Event::Message(WorkerResult::Error("permission denied".to_string())));
    assert_eq!(step.report, Some("permission denied".to_string()));
    assert!(step.print.is_empty());
    assert_eq!(step.exit, None);
    assert_eq!(rx.num_results(), 0);
    assert_eq!(rx.mode(), ReceiverMode::Buffering);
    let last = rx.poll(Event::Disconnected);
    assert_eq!(last.exit, Some(ExitCode::HasResults(false)));
}

#[test]
fn interrupt_overrides_the_classification() {
    assert_eq!(classify(ExitCode::HasResults(true), true), ExitCode::KilledBySigint);
    assert_eq!(classify(ExitCode::HasResults(false), true), ExitCode::KilledBySigint);
    assert_eq!(classify(ExitCode::Success, true), ExitCode::KilledBySigint);
    assert_eq!(classify(ExitCode::HasResults(true), false), ExitCode::HasResults(true));
    assert_eq!(classify(ExitCode::GeneralError, false), ExitCode::GeneralError);
}

#[test]
fn exit_codes_have_their_status() {
    assert_eq!(ExitCode::Success.code(), 0);
    assert_eq!(ExitCode::HasResults(true).code(), 0);
    assert_eq!(ExitCode::HasResults(false).code(), 0);
    assert_eq!(ExitCode::GeneralError.code(), 1);
    assert_eq!(ExitCode::KilledBySigint.code(), 130);
    assert!(!ExitCode::HasResults(false).is_error());
    assert!(ExitCode::GeneralError.is_error());
    assert!(ExitCode::KilledBySigint.is_error());
}

#[test]
fn wait_is_bounded_by_the_deadline_while_buffering() {
    let mut rx = ReceiverBuffer::new(1000);
    assert_eq!(DEFAULT_MAX_BUFFER_TIME, 100);
    assert_eq!(rx.recv(1000), Wait::AtMost(100));
    assert_eq!(rx.recv(1040), Wait::AtMost(60));
    assert_eq!(rx.recv(1100), Wait::AtMost(0));
    assert_eq!(rx.recv(1101), Wait::Expired);
    rx.poll(Event::Timeout);
    assert_eq!(rx.recv(1101), Wait::Unbounded);
    assert_eq!(rx.recv(0), Wait::Unbounded);
}

#[test]
fn buffer_is_handed_out_once() {
    let mut rx = ReceiverBuffer::new(0);
    rx.poll(entry(file("b")));
    rx.poll(entry(file("a")));
    let held = rx.poll(Event::Timeout);
    assert_eq!(paths(&held), vec!["a".to_string(), "b".to_string()]);
    assert_eq!(rx.mode(), ReceiverMode::Streaming);
    let again = rx.poll(Event::Timeout);
    assert!(again.print.is_empty());
    assert_eq!(again.exit, None);
    let last = rx.poll(Event::Disconnected);
    assert!(last.print.is_empty());
    assert_eq!(last.exit, Some(ExitCode::HasResults(true)));
    let after = rx.poll(Event::Disconnected);
    assert!(after.print.is_empty());
    assert_eq!(after.exit, Some(ExitCode::HasResults(true)));
}

#[test]
fn root_is_never_sent() {
    let root = DirEntry::new(".".to_string(), 0, Some(FileType::Directory));
    assert!(matches!(dispatch(false, Visit::Found(root)), Dispatch::Skip));
    match dispatch(false, Visit::Found(DirEntry::new("./a".to_string(), 1, None))) {
        Dispatch::Send(WorkerResult::Entry(e)) => {
            assert_eq!(e.path(), "./a");
            assert_eq!(e.depth(), 1);
            assert_eq!(e.file_type(), None);
        }
        _ => panic!("an entry below the root is sent"),
    }
    match dispatch(false, Visit::Failed("loop".to_string())) {
        Dispatch::Send(WorkerResult::Error(m)) => assert_eq!(m, "loop"),
        _ => panic!("an error is sent"),
    }
}

#[test]
fn raised_quit_flag_ends_a_walk() {
    assert!(matches!(dispatch(true, Visit::Found(file("a"))), Dispatch::Quit));
    assert!(matches!(dispatch(true, Visit::Failed("x".to_string())), Dispatch::Quit));
    let root = DirEntry::new(".".to_string(), 0, Some(FileType::Directory));
    assert!(matches!(dispatch(true, Visit::Found(root)), Dispatch::Quit));
}

#[test]
fn only_a_failed_send_ends_a_walk() {
    assert_eq!(after_send(true), WalkState::Continue);
    assert_eq!(after_send(false), WalkState::Quit);
}

#[test]
fn walk_options_of_a_scan() {
    let options = WalkOptions::new(&vec!["./a".to_string(), "./b".to_string()]);
    assert_eq!(options.root, "./a");
    assert!(options.hidden);
    assert!(!options.ignore);
    assert!(options.parents);
    assert!(options.git_ignore);
    assert!(options.git_global);
    assert!(options.git_exclude);
    assert!(options.follow_links);
    assert_eq!(options.threads, 4);
    assert_eq!(DEFAULT_THREADS, 4);
}
