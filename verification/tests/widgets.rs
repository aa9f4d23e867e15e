use kuberift::events::{Broadcast, Event, Keypress, TunnelEntry, TunnelError};
use kuberift::widget::input::Text;
use kuberift::widget::tunnel::Tunnel;

fn press(t: &mut Text, k: Keypress) -> Broadcast {
    t.dispatch(&Event::Keypress(k)).expect("dispatch")
}

#[test]
fn text_builder_sets_title_and_content() {
    let t = Text::default().with_title("name").with_content("alice");
    assert_eq!(t.content(), "alice");
    assert_eq!(t.title, "name");
    assert_eq!(t.pos, 5);
}

#[test]
fn text_typing_inserts_at_the_cursor() {
    let mut t = Text::default().with_content("ac");
    assert_eq!(press(&mut t, Keypress::CursorLeft), Broadcast::Consumed);
    assert_eq!(press(&mut t, Keypress::Printable('b')), Broadcast::Consumed);
    assert_eq!(t.content(), "abc");
    assert_eq!(t.pos, 2);
}

#[test]
fn text_backspace_removes_before_the_cursor() {
    let mut t = Text::default().with_content("abc");
    assert_eq!(press(&mut t, Keypress::Backspace), Broadcast::Consumed);
    assert_eq!(t.content(), "ab");
    // At the start of the line backspace edits nothing but is still consumed.
    let mut t = Text::default().with_content("abc");
    press(&mut t, Keypress::CursorLeft);
    press(&mut t, Keypress::CursorLeft);
    press(&mut t, Keypress::CursorLeft);
    assert_eq!(press(&mut t, Keypress::Backspace), Broadcast::Consumed);
    assert_eq!(t.content(), "abc");
}

#[test]
fn text_cursor_is_clamped_to_the_content() {
    let mut t = Text::default().with_content("ab");
    assert_eq!(press(&mut t, Keypress::CursorRight), Broadcast::Consumed);
    assert_eq!(t.pos, 2);
    press(&mut t, Keypress::CursorLeft);
    press(&mut t, Keypress::CursorLeft);
    press(&mut t, Keypress::CursorLeft);
    assert_eq!(t.pos, 0);
}

#[test]
fn text_escape_exits() {
    let mut t = Text::default().with_content("whatever");
    assert_eq!(press(&mut t, Keypress::Escape), Broadcast::Exited);
    assert_eq!(t.content(), "whatever");
}

#[test]
fn text_ignores_other_events() {
    let mut t = Text::default();
    assert_eq!(t.dispatch(&Event::Render).unwrap(), Broadcast::Ignored);
    assert_eq!(press(&mut t, Keypress::Unknown), Broadcast::Ignored);
}

#[test]
fn tunnel_update_is_consumed_and_counted() {
    let mut t = Tunnel::default();
    assert_eq!(t.height(), 2);
    let b = t
        .dispatch(&Event::Tunnel(Ok(TunnelEntry { id: 1, failed: false })))
        .unwrap();
    assert_eq!(b, Broadcast::Consumed);
    assert_eq!(t.height(), 3);
}

#[test]
fn tunnel_update_with_same_id_replaces_the_entry() {
    let mut t = Tunnel::default();
    t.dispatch(&Event::Tunnel(Ok(TunnelEntry { id: 1, failed: false })))
        .unwrap();
    t.dispatch(&Event::Tunnel(Ok(TunnelEntry { id: 1, failed: false })))
        .unwrap();
    assert_eq!(t.height(), 3);
    t.dispatch(&Event::Tunnel(Ok(TunnelEntry { id: 2, failed: false })))
        .unwrap();
    assert_eq!(t.height(), 4);
}

#[test]
fn tunnel_failure_is_recorded_but_ignored() {
    let mut t = Tunnel::default();
    let err = TunnelError { tunnel: TunnelEntry { id: 5, failed: false } };
    let b = t.dispatch(&Event::Tunnel(Err(err))).unwrap();
    assert_eq!(b, Broadcast::Ignored);
    assert_eq!(t.items, vec![TunnelEntry { id: 5, failed: true }]);
}

#[test]
fn tunnel_ignores_unrelated_events() {
    let mut t = Tunnel::default();
    assert_eq!(t.dispatch(&Event::Render).unwrap(), Broadcast::Ignored);
    assert_eq!(
        t.dispatch(&Event::Keypress(Keypress::Printable('x'))).unwrap(),
        Broadcast::Ignored
    );
    assert_eq!(t.height(), 2);
}
