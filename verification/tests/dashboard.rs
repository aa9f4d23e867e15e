use kuberift::dashboard::{dispatch, loop_step, Mode, Step};
use kuberift::errors::Error;
use kuberift::events::{decode, Broadcast, Event, Keypress, TunnelEntry};
use kuberift::widget::{input::Text, tunnel::Tunnel, RawWidget, Widget};

fn text_widget(content: &str) -> Widget {
    Widget::Text(Text::default().with_title("command").with_content(content))
}

#[test]
fn empty_payload_decodes_to_render_tick() {
    assert_eq!(decode(&vec![]), Event::Render);
}

#[test]
fn single_bytes_decode_to_keypresses() {
    assert_eq!(decode(&vec![4]), Event::Keypress(Keypress::EndOfTransmission));
    assert_eq!(decode(&vec![27]), Event::Keypress(Keypress::Escape));
    assert_eq!(decode(&vec![127]), Event::Keypress(Keypress::Backspace));
    assert_eq!(decode(&vec![13]), Event::Keypress(Keypress::Enter));
    assert_eq!(decode(&vec![b'a']), Event::Keypress(Keypress::Printable('a')));
    assert_eq!(decode(&vec![0]), Event::Keypress(Keypress::Unknown));
}

#[test]
fn arrow_sequences_decode_to_cursor_moves() {
    assert_eq!(decode(&vec![27, 91, 68]), Event::Keypress(Keypress::CursorLeft));
    assert_eq!(decode(&vec![27, 91, 67]), Event::Keypress(Keypress::CursorRight));
    assert_eq!(decode(&vec![27, 91, 65]), Event::Keypress(Keypress::Unknown));
}

#[test]
fn termination_keypress_exits_with_text_widget() {
    let mut mode = Mode::UI(text_widget("hello"));
    assert_eq!(loop_step(&mut mode, &vec![4]), Step::Exit);
}

#[test]
fn termination_keypress_exits_with_tunnel_widget() {
    // The termination keypress bypasses the active widget entirely.
    let mut mode = Mode::UI(Widget::Tunnel(Tunnel::default()));
    assert_eq!(loop_step(&mut mode, &vec![4]), Step::Exit);
}

#[test]
fn render_tick_asks_for_a_redraw() {
    let mut mode = Mode::UI(text_widget(""));
    assert_eq!(loop_step(&mut mode, &vec![]), Step::Redraw);
}

#[test]
fn consumed_keypress_asks_for_a_redraw_and_edits_the_widget() {
    let mut mode = Mode::UI(text_widget(""));
    assert_eq!(loop_step(&mut mode, &vec![b'h']), Step::Redraw);
    assert_eq!(loop_step(&mut mode, &vec![b'i']), Step::Redraw);
    let Mode::UI(Widget::Text(t)) = &mode else {
        panic!("expected UI mode");
    };
    assert_eq!(t.content(), "hi");
}

#[test]
fn ignored_event_does_nothing() {
    let mut mode = Mode::UI(text_widget("x"));
    // An unknown byte reaches the widget and is ignored; no redraw is due.
    assert_eq!(loop_step(&mut mode, &vec![0]), Step::Idle);
    let Mode::UI(Widget::Text(t)) = &mode else {
        panic!("expected UI mode");
    };
    assert_eq!(t.content(), "x");
}

#[test]
fn tunnel_broadcast_reaches_the_widget_through_dispatch() {
    let mut mode = Mode::UI(Widget::Tunnel(Tunnel::default()));
    let ev = Event::Tunnel(Ok(TunnelEntry { id: 3, failed: false }));
    let (b, draws) = dispatch(&mut mode, &ev).expect("dispatch");
    assert_eq!(b, Broadcast::Consumed);
    assert!(draws);
    let Mode::UI(Widget::Tunnel(t)) = &mode else {
        panic!("expected UI mode");
    };
    assert_eq!(t.height(), 3);
}

#[test]
fn dispatch_in_raw_mode_is_a_protocol_violation() {
    let mut mode = Mode::UI(text_widget("abc"));
    mode.raw(RawWidget { id: 1 });
    let r = dispatch(&mut mode, &Event::Render);
    assert_eq!(r, Err(Error::ProtocolViolation));
}

#[test]
fn raw_mode_forwards_bytes_verbatim() {
    let mut mode = Mode::UI(text_widget("abc"));
    mode.raw(RawWidget { id: 1 });
    // While in raw mode every message, keypress or tick, is forwarded.
    assert_eq!(loop_step(&mut mode, &vec![4]), Step::Forward);
    assert_eq!(loop_step(&mut mode, &vec![]), Step::Forward);
    assert!(matches!(mode, Mode::Raw(RawWidget { id: 1 }, _)));
}

#[test]
fn raw_round_trip_restores_the_exact_widget() {
    // Entering raw mode suspends the active widget; completion restores the
    // very same widget value, untouched.
    let kept = text_widget("state to keep");
    let mut mode = Mode::UI(text_widget("state to keep"));
    mode.raw(RawWidget { id: 42 });
    let Mode::Raw(raw, suspended) = &mode else {
        panic!("expected raw mode");
    };
    assert_eq!(*raw, RawWidget { id: 42 });
    assert_eq!(*suspended, kept);
    mode.ui();
    assert_eq!(mode, Mode::UI(kept));
}

#[test]
fn leaving_ui_mode_without_raw_is_a_no_op() {
    let mut mode = Mode::UI(text_widget("abc"));
    mode.ui();
    assert_eq!(mode, Mode::UI(text_widget("abc")));
}
