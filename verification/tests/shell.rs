use webview_shell::shell::{
    go_to_assistant, on_event, send_url, set_current_url, tray_menu, ShellEvent, TrayAction,
    WindowOp,
};

#[test]
fn send_url_acknowledges_the_url() {
    assert_eq!(send_url("https://example.com/"), "URL received: https://example.com/");
    assert_eq!(send_url(""), "URL received: ");
    assert_eq!(send_url("{}"), "URL received: {}");
    assert_eq!(send_url("日本語"), "URL received: 日本語");
}

#[test]
fn set_current_url_acknowledges_the_url() {
    assert_eq!(
        set_current_url("https://example.com/assistant"),
        "Current URL set to: https://example.com/assistant"
    );
    assert_eq!(set_current_url(""), "Current URL set to: ");
}

#[test]
fn the_two_acknowledgements_differ() {
    assert_ne!(send_url("x"), set_current_url("x"));
    assert_ne!(send_url("x"), "x");
    assert_ne!(set_current_url("x"), "x");
}

#[test]
fn go_to_assistant_names_the_event() {
    assert_eq!(go_to_assistant(), "go-to-assistant");
}

#[test]
fn tray_show_shows_and_focuses() {
    assert_eq!(
        on_event(ShellEvent::Tray(TrayAction::Show), true),
        vec![WindowOp::Show, WindowOp::Focus]
    );
    assert_eq!(
        on_event(ShellEvent::Tray(TrayAction::Show), false),
        vec![WindowOp::Show, WindowOp::Focus]
    );
}

#[test]
fn tray_hide_hides_without_ending_the_process() {
    let ops = on_event(ShellEvent::Tray(TrayAction::Hide), true);
    assert_eq!(ops, vec![WindowOp::Hide]);
    assert!(!ops.contains(&WindowOp::Exit));
}

#[test]
fn tray_quit_ends_the_process() {
    assert_eq!(on_event(ShellEvent::Tray(TrayAction::Quit), true), vec![WindowOp::Exit]);
}

#[test]
fn close_hides_the_window_where_there_is_a_tray() {
    let ops = on_event(ShellEvent::CloseRequested, true);
    assert_eq!(ops, vec![WindowOp::KeepOpen, WindowOp::Hide]);
    assert!(!ops.contains(&WindowOp::Exit));
}

#[test]
fn close_is_native_where_there_is_no_tray() {
    assert!(on_event(ShellEvent::CloseRequested, false).is_empty());
}

#[test]
fn reveal_shows_the_window() {
    assert_eq!(on_event(ShellEvent::Reveal, true), vec![WindowOp::Show]);
    assert_eq!(on_event(ShellEvent::Reveal, false), vec![WindowOp::Show]);
}

#[test]
fn the_tray_menu_has_three_entries() {
    assert_eq!(tray_menu(), vec![TrayAction::Show, TrayAction::Hide, TrayAction::Quit]);
}

#[test]
fn tray_entries_have_ids_and_labels() {
    assert_eq!(TrayAction::Show.id(), "show");
    assert_eq!(TrayAction::Hide.id(), "hide");
    assert_eq!(TrayAction::Quit.id(), "quit");
    assert_eq!(TrayAction::Show.label(), "Show");
    assert_eq!(TrayAction::Hide.label(), "Hide");
    assert_eq!(TrayAction::Quit.label(), "Quit");
}

#[test]
fn every_tray_entry_is_found_under_its_id() {
    for action in tray_menu() {
        assert_eq!(TrayAction::from_id(action.id()), Some(action));
    }
}

#[test]
fn unknown_tray_ids_name_no_entry() {
    assert_eq!(TrayAction::from_id(""), None);
    assert_eq!(TrayAction::from_id("Show"), None);
    assert_eq!(TrayAction::from_id("show "), None);
    assert_eq!(TrayAction::from_id("exit"), None);
    assert_eq!(TrayAction::from_id("sho"), None);
}

#[test]
fn only_quit_ends_the_process() {
    let events = [
        ShellEvent::Reveal,
        ShellEvent::Tray(TrayAction::Show),
        ShellEvent::Tray(TrayAction::Hide),
        ShellEvent::Tray(TrayAction::Quit),
        ShellEvent::CloseRequested,
    ];
    for event in events {
        for tray in [true, false] {
            let exits = on_event(event, tray).contains(&WindowOp::Exit);
            assert_eq!(exits, event == ShellEvent::Tray(TrayAction::Quit));
        }
    }
}
