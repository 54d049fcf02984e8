use robrix_core::home::rooms_sidebar::RoomsView;
use robrix_core::shared::collapse_view::{DrawCollapseState, GCollapse, GCollapseEvent};
use robrix_core::shared::command_input_bar::{CommandInputBar, CommandInputBarAction, CommandKey};
use robrix_core::shared::input_bar::{ImeRequest, InputBar, InputBarAction, TextInputAction};
use robrix_core::shared::position::{Direction, Position4};

#[test]
fn panel_toggles_on_release() {
    let mut panel = GCollapse::new(false);
    panel.animation_counter = false;
    assert_eq!(panel.handle_event(), GCollapseEvent::Opened);
    assert!(panel.opened);
    assert!(panel.animation_counter);
    assert_eq!(panel.handle_event(), GCollapseEvent::Closed);
    assert!(!panel.opened);
    assert_ne!(GCollapseEvent::Hover, GCollapseEvent::Nothing);
}

#[test]
fn panel_opens_and_closes_on_request() {
    let mut panel = GCollapse::new(false);
    panel.animate_open_on();
    assert!(panel.opened);
    panel.animate_open_on();
    assert!(panel.opened);
    panel.animate_open_off();
    assert!(!panel.opened);
    assert!(panel.visible);
}

#[test]
fn panel_draws_the_body_first_on_the_left_and_at_the_top() {
    let mut panel = GCollapse::new(true);
    let header_first = (DrawCollapseState::DrawHeader, DrawCollapseState::DrawBody);
    let body_first = (DrawCollapseState::DrawBody, DrawCollapseState::DrawHeader);
    assert_eq!(panel.draw_steps(), (Direction::Vertical, header_first.0, header_first.1));
    panel.position = Position4::Top;
    assert_eq!(panel.draw_steps(), (Direction::Vertical, body_first.0, body_first.1));
    panel.position = Position4::Left;
    assert_eq!(panel.draw_steps(), (Direction::Horizontal, body_first.0, body_first.1));
    panel.position = Position4::Right;
    assert_eq!(panel.draw_steps(), (Direction::Horizontal, header_first.0, header_first.1));
}

#[test]
fn rooms_header_follows_the_panel() {
    let mut header = RoomsView::new();
    let panel = GCollapse::new(false);
    header.sync(Some(&panel), Some(12));
    assert!(header.rooms_collapsed);
    assert_eq!(header.room_count, 12);
    assert_eq!(header.title(), "Rooms (12 rooms)");
    assert_eq!(header.rotation(), -90);
    header.sync(Some(&panel), None);
    assert_eq!(header.room_count, 0);
    assert_eq!(header.title(), "Rooms (0 rooms)");
    header.room_count = 3;
    header.sync(None, Some(5));
    assert_eq!(header.room_count, 0);
    assert!(header.rooms_collapsed);
}

#[test]
fn rooms_header_toggles_the_panel() {
    let mut header = RoomsView::new();
    let mut panel = GCollapse::new(true);
    header.handle_event(&mut panel);
    assert!(header.rooms_collapsed);
    assert!(!panel.opened);
    assert_eq!(header.rotation(), -90);
    header.handle_event(&mut panel);
    assert!(!header.rooms_collapsed);
    assert!(panel.opened);
    assert_eq!(header.rotation(), 0);
}

#[test]
fn input_bar_tracks_focus_and_passes_changes_on() {
    let mut bar = InputBar::new();
    assert!(!bar.has_focus());
    assert_eq!(bar.handle_event(TextInputAction::KeyFocus), (None, ImeRequest::Show));
    assert!(bar.has_focus());
    assert_eq!(
        bar.handle_event(TextInputAction::Change("hi".to_string())),
        (Some(InputBarAction::MessageChanged("hi".to_string())), ImeRequest::Show)
    );
    assert!(bar.has_focus());
    assert_eq!(bar.handle_event(TextInputAction::Other), (None, ImeRequest::Keep));
    assert_eq!(bar.handle_event(TextInputAction::KeyFocusLost), (None, ImeRequest::Hide));
    assert!(!bar.has_focus());
    bar.set_key_focus();
    assert!(bar.has_focus());
    assert_ne!(
        InputBarAction::LocationButtonClicked,
        InputBarAction::MessageChanged(String::new())
    );
}

#[test]
fn keys_drive_the_list() {
    let mut bar = CommandInputBar::new(Some("@".to_string()));
    bar.on_text_inserted("@");
    for item in [10, 11, 12] {
        bar.add_item(item);
    }
    assert_eq!(bar.on_key_down(CommandKey::ArrowDown, "@", 1), None);
    assert_eq!(bar.keyboard_focus_index(), Some(1));
    assert_eq!(bar.on_key_down(CommandKey::ArrowUp, "@", 1), None);
    assert_eq!(bar.on_key_down(CommandKey::ArrowUp, "@", 1), None);
    assert_eq!(bar.keyboard_focus_index(), Some(0));
    assert_eq!(bar.on_key_down(CommandKey::Other, "@", 1), None);
    assert_eq!(bar.item_count(), 3);
    bar.on_key_down(CommandKey::ArrowDown, "@", 1);
    bar.on_key_down(CommandKey::ArrowDown, "@", 1);
    assert_eq!(
        bar.on_key_down(CommandKey::Return, "@", 1),
        Some((CommandInputBarAction::ItemSelected, Some(String::new())))
    );
    assert_eq!(bar.item_selected(&vec![CommandInputBarAction::ItemSelected]), Some(12));
    bar.on_text_inserted("@");
    bar.add_item(20);
    assert!(bar.is_popup_visible());
    assert_eq!(bar.on_key_down(CommandKey::Escape, "@", 1), None);
    assert!(!bar.is_popup_visible());
    assert_eq!(bar.item_count(), 0);
    assert_eq!(bar.on_key_down(CommandKey::Return, "@", 1), None);
}
