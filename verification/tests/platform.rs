use tvterm::pty::{reader_step, ReadOutcome, ReaderStep, READ_BUFFER_SIZE};
use tvterm::renderer::{choose_alpha_mode, choose_format, AlphaMode, SurfaceSize};
use tvterm::terminal::{proxy_action, ProxyAction, TermEvent, TermSize, SCROLLBACK_LINES};
use tvterm::UserEvent;

#[test]
fn term_size_lines() {
    let s = TermSize { cols: 80, rows: 24 };
    assert_eq!(s.total_lines(), 24 + 10_000);
    assert_eq!(s.total_lines(), s.screen_lines() + SCROLLBACK_LINES);
    assert_eq!(s.columns(), 80);
}

#[test]
fn proxy_routes_events() {
    assert!(matches!(proxy_action(TermEvent::Wakeup), ProxyAction::Notify(UserEvent::PtyOutput)));
    assert!(matches!(proxy_action(TermEvent::Exit), ProxyAction::Notify(UserEvent::PtyExited)));
    match proxy_action(TermEvent::PtyWrite("\x1b[0né".to_string())) {
        ProxyAction::WritePty(b) => assert_eq!(b, vec![0x1b, b'[', b'0', b'n', 0xc3, 0xa9]),
        _ => panic!("expected a write"),
    }
    match proxy_action(TermEvent::Title("vim".to_string())) {
        ProxyAction::ReportTitle(t) => assert_eq!(t, "vim"),
        _ => panic!("expected a title"),
    }
    assert!(matches!(proxy_action(TermEvent::Bell), ProxyAction::ReportBell));
    assert!(matches!(proxy_action(TermEvent::Other), ProxyAction::Ignore));
}

#[test]
fn reader_steps() {
    assert_eq!(reader_step(ReadOutcome::Bytes(0)), ReaderStep::ShellExited);
    assert_eq!(reader_step(ReadOutcome::Bytes(17)), ReaderStep::Forward(17));
    assert_eq!(reader_step(ReadOutcome::Bytes(READ_BUFFER_SIZE)), ReaderStep::Forward(4096));
    assert_eq!(reader_step(ReadOutcome::Failed), ReaderStep::ShellExited);
}

#[test]
fn alpha_mode_preference() {
    assert_eq!(choose_alpha_mode(&[AlphaMode::Opaque, AlphaMode::PostMultiplied, AlphaMode::PreMultiplied]), AlphaMode::PreMultiplied);
    assert_eq!(choose_alpha_mode(&[AlphaMode::Opaque, AlphaMode::PostMultiplied, AlphaMode::Inherit]), AlphaMode::PostMultiplied);
    assert_eq!(choose_alpha_mode(&[AlphaMode::Inherit, AlphaMode::Opaque]), AlphaMode::Inherit);
    assert_eq!(choose_alpha_mode(&[AlphaMode::Auto]), AlphaMode::Auto);
}

#[test]
fn format_preference() {
    assert_eq!(choose_format(&[false, true, true]), 1);
    assert_eq!(choose_format(&[true, false]), 0);
    assert_eq!(choose_format(&[false, false, false]), 0);
}

#[test]
fn surface_size_never_zero() {
    let mut s = SurfaceSize::new(0, 0);
    assert_eq!((s.width(), s.height()), (1, 1));
    assert!(!s.resize(0, 300));
    assert_eq!((s.width(), s.height()), (1, 1));
    assert!(s.resize(640, 480));
    assert_eq!((s.width(), s.height()), (640, 480));
    assert!(!s.resize(800, 0));
    assert_eq!((s.width(), s.height()), (640, 480));
    let t = SurfaceSize::new(1024, 0);
    assert_eq!((t.width(), t.height()), (1024, 1));
}
