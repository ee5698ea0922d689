use hello_from_rust::fault::{alloc_error, check_power_of_two, eh_personality, Layout, PanicInfo};
use hello_from_rust::format_diagnostic;
use hello_from_rust::process::{main, Process, ProcessState};

#[test]
fn entry_point_with_diagnostics_emits_the_greeting() {
    let mut p = Process::new(true, String::from("demo"));
    main(&mut p);
    assert_eq!(p.state, ProcessState::Running);
    assert_eq!(p.sink.len(), 1);
    assert_eq!(p.sink[0], "\x1b[0;94m[demo] Hello, World from Rust!\x1b[0m");
}

#[test]
fn entry_point_default_build_is_silent() {
    let mut p = Process::new(false, String::from("demo"));
    main(&mut p);
    assert_eq!(p.state, ProcessState::Running);
    assert!(p.sink.is_empty());
    assert_eq!(p.identity, "demo");
    assert!(p.diagnostics_enabled == false);
}

#[test]
fn format_diagnostic_exact_bytes() {
    let line = format_diagnostic("demo", "Hello, World from Rust!");
    assert_eq!(
        line.as_bytes(),
        b"\x1b[0;94m[demo] Hello, World from Rust!\x1b[0m"
    );
}

#[test]
fn format_diagnostic_empty_identity_and_message() {
    let line = format_diagnostic("", "");
    assert_eq!(line, "\x1b[0;94m[] \x1b[0m");
}

#[test]
fn emit_disabled_has_no_effect() {
    let mut p = Process::new(false, String::from("demo"));
    p.emit("anything at all");
    assert!(p.sink.is_empty());
    assert_eq!(p.state, ProcessState::Running);
}

#[test]
fn emit_enabled_appends_one_line_each_call() {
    let mut p = Process::new(true, String::from("svc"));
    p.emit("first");
    p.emit("second");
    assert_eq!(p.sink.len(), 2);
    assert_eq!(p.sink[0], "\x1b[0;94m[svc] first\x1b[0m");
    assert_eq!(p.sink[1], "\x1b[0;94m[svc] second\x1b[0m");
}

#[test]
fn alloc_error_halts_and_touches_nothing_else() {
    let mut p = Process::new(false, String::from("demo"));
    let layout = Layout::new(4096, 8).unwrap();
    alloc_error(&mut p, layout);
    assert_eq!(p.state, ProcessState::Halted);
    assert!(p.sink.is_empty());
    assert_eq!(p.identity, "demo");
    assert!(p.diagnostics_enabled == false);
}

#[test]
fn panic_handler_halts_with_and_without_message() {
    let mut p = Process::new(true, String::from("demo"));
    hello_from_rust::fault::panic(&mut p, PanicInfo { message: Some(String::from("index out of bounds")) });
    assert_eq!(p.state, ProcessState::Halted);
    assert!(p.sink.is_empty());

    let mut q = Process::new(true, String::from("demo"));
    hello_from_rust::fault::panic(&mut q, PanicInfo { message: None });
    assert_eq!(q.state, ProcessState::Halted);
    assert!(q.sink.is_empty());
}

#[test]
fn eh_personality_halts() {
    let mut p = Process::new(false, String::from("demo"));
    eh_personality(&mut p);
    assert_eq!(p.state, ProcessState::Halted);
    assert!(p.sink.is_empty());
}

#[test]
fn halted_state_is_absorbing_under_every_handler() {
    let mut p = Process::new(false, String::from("demo"));
    hello_from_rust::fault::panic(&mut p, PanicInfo { message: None });
    assert_eq!(p.state, ProcessState::Halted);
    eh_personality(&mut p);
    assert_eq!(p.state, ProcessState::Halted);
    alloc_error(&mut p, Layout::new(16, 16).unwrap());
    assert_eq!(p.state, ProcessState::Halted);
}

#[test]
fn layout_new_accepts_exactly_well_formed_requests() {
    assert_eq!(Layout::new(4096, 8), Some(Layout { size: 4096, align: 8 }));
    assert_eq!(Layout::new(1, 1), Some(Layout { size: 1, align: 1 }));
    assert_eq!(Layout::new(0, 8), None);
    assert_eq!(Layout::new(4096, 12), None);
    assert_eq!(Layout::new(4096, 0), None);
}

#[test]
fn check_power_of_two_matches_the_mathematical_notion() {
    assert!(check_power_of_two(1));
    assert!(check_power_of_two(2));
    assert!(check_power_of_two(4));
    assert!(check_power_of_two(1024));
    assert!(!check_power_of_two(0));
    assert!(!check_power_of_two(3));
    assert!(!check_power_of_two(6));
    assert!(!check_power_of_two(12));
    assert!(!check_power_of_two(usize::MAX));
}
