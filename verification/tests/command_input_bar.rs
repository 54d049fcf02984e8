use robrix_core::shared::command_input_bar::{CommandInputBar, CommandInputBarAction, Highlight};
use robrix_core::shared::graphemes::{first_of, last_of, remove_trigger, same_cluster};

fn bar() -> CommandInputBar {
    CommandInputBar::new(Some("@".to_string()))
}

fn clusters(parts: &[(usize, &str)]) -> Vec<(usize, String)> {
    parts.iter().map(|(offset, cluster)| (*offset, cluster.to_string())).collect()
}

#[test]
fn new_bar_is_closed_and_empty() {
    let bar = bar();
    assert!(!bar.is_popup_visible());
    assert_eq!(bar.item_count(), 0);
    assert_eq!(bar.keyboard_focus_index(), None);
    assert_eq!(bar.pointer_hover_index(), None);
    assert_eq!(bar.trigger_grapheme(), Some("@".to_string()));
}

#[test]
fn typing_the_trigger_opens_the_list() {
    let mut bar = bar();
    assert_eq!(bar.on_text_inserted("a"), None);
    assert!(!bar.is_popup_visible());
    assert_eq!(bar.on_text_inserted("hi @"), Some(CommandInputBarAction::ShouldBuildItems));
    assert!(bar.is_popup_visible());
    let mut bar = CommandInputBar::new(Some("@".to_string()));
    assert_eq!(bar.on_text_inserted("@a"), None);
    assert_eq!(bar.on_text_inserted(""), None);
}

#[test]
fn trigger_is_compared_by_grapheme_cluster() {
    let mut bar = CommandInputBar::new(Some("e\u{301}x".to_string()));
    assert_eq!(bar.trigger_grapheme(), Some("e\u{301}".to_string()));
    assert_eq!(bar.on_text_inserted("e"), None);
    assert_eq!(bar.on_text_inserted("\u{301}"), None);
    assert_eq!(bar.on_text_inserted("ae\u{301}"), Some(CommandInputBarAction::ShouldBuildItems));
}

#[test]
fn bar_without_trigger_opens_on_empty_input_only() {
    let mut bar = CommandInputBar::new(None);
    assert_eq!(bar.trigger_grapheme(), None);
    assert_eq!(bar.on_text_inserted("@"), None);
    assert_eq!(bar.on_text_inserted(""), Some(CommandInputBarAction::ShouldBuildItems));
}

#[test]
fn first_item_gets_the_keyboard_focus() {
    let mut bar = bar();
    bar.add_item(40);
    assert_eq!(bar.keyboard_focus_index(), Some(0));
    bar.add_item(41);
    bar.add_item(42);
    assert_eq!(bar.item_count(), 3);
    assert_eq!(bar.keyboard_focus_index(), Some(0));
    bar.on_keyboard_move(1);
    bar.add_item(43);
    assert_eq!(bar.keyboard_focus_index(), Some(1));
}

#[test]
fn keyboard_focus_stays_inside_the_list() {
    let mut bar = bar();
    bar.on_keyboard_move(1);
    assert_eq!(bar.keyboard_focus_index(), None);
    for item in 0..3 {
        bar.add_item(item);
    }
    bar.on_keyboard_move(-1);
    assert_eq!(bar.keyboard_focus_index(), Some(0));
    bar.on_keyboard_move(1);
    assert_eq!(bar.keyboard_focus_index(), Some(1));
    bar.on_keyboard_move(1);
    bar.on_keyboard_move(1);
    assert_eq!(bar.keyboard_focus_index(), Some(2));
    bar.on_keyboard_move(i32::MIN);
    assert_eq!(bar.keyboard_focus_index(), Some(0));
    bar.on_keyboard_move(i32::MAX);
    assert_eq!(bar.keyboard_focus_index(), Some(2));
    bar.on_keyboard_move(-2);
    assert_eq!(bar.keyboard_focus_index(), Some(0));
    bar.on_keyboard_move(0);
    assert_eq!(bar.keyboard_focus_index(), Some(0));
}

#[test]
fn pointer_marks_the_item_it_is_over() {
    let mut bar = bar();
    bar.add_item(1);
    bar.add_item(2);
    bar.on_pointer_hover_in(1);
    assert_eq!(bar.pointer_hover_index(), Some(1));
    assert_eq!(bar.highlight(0), Highlight::KeyboardFocus);
    assert_eq!(bar.highlight(1), Highlight::PointerHover);
    bar.on_pointer_hover_out(0);
    assert_eq!(bar.pointer_hover_index(), Some(1));
    bar.on_pointer_hover_out(1);
    assert_eq!(bar.pointer_hover_index(), None);
    assert_eq!(bar.highlight(1), Highlight::Plain);
    bar.on_pointer_hover_in(0);
    assert_eq!(bar.highlight(0), Highlight::KeyboardFocus);
}

#[test]
fn clearing_takes_items_and_marks_away() {
    let mut bar = bar();
    bar.on_text_inserted("@");
    bar.add_item(1);
    bar.on_pointer_hover_in(0);
    bar.clear_items();
    assert_eq!(bar.item_count(), 0);
    assert_eq!(bar.keyboard_focus_index(), None);
    assert_eq!(bar.pointer_hover_index(), None);
    assert!(bar.is_popup_visible());
    bar.add_item(2);
    assert_eq!(bar.reset(), "");
    assert_eq!(bar.item_count(), 0);
    assert!(!bar.is_popup_visible());
}

#[test]
fn submit_chooses_the_focused_item() {
    let mut bar = bar();
    assert_eq!(bar.on_text_input_submit("hi @", 4), None);
    bar.on_text_inserted("@");
    bar.add_item(7);
    bar.add_item(8);
    bar.on_keyboard_move(1);
    let outcome = bar.on_text_input_submit("hi @", 4);
    assert_eq!(outcome, Some((CommandInputBarAction::ItemSelected, Some("hi ".to_string()))));
    assert!(!bar.is_popup_visible());
    assert_eq!(bar.item_count(), 0);
    assert_eq!(bar.keyboard_focus_index(), None);
    assert_eq!(bar.item_selected(&vec![CommandInputBarAction::ItemSelected]), Some(8));
    assert_eq!(bar.item_selected(&vec![CommandInputBarAction::ShouldBuildItems]), None);
    assert_eq!(bar.item_selected(&vec![]), None);
    assert!(bar.take_focus_request());
    assert!(!bar.take_focus_request());
}

#[test]
fn focus_request_is_served_once() {
    let mut bar = bar();
    assert!(!bar.take_focus_request());
    bar.request_text_input_focus();
    assert!(bar.take_focus_request());
    assert!(!bar.take_focus_request());
}

#[test]
fn build_request_is_found_among_actions() {
    let bar = bar();
    assert!(!bar.should_build_items(&vec![]));
    assert!(!bar.should_build_items(&vec![CommandInputBarAction::ItemSelected]));
    assert!(bar.should_build_items(&vec![
        CommandInputBarAction::ItemSelected,
        CommandInputBarAction::ShouldBuildItems
    ]));
}

#[test]
fn trigger_before_the_cursor_is_removed() {
    let bar = bar();
    assert_eq!(bar.try_remove_trigger_grapheme("a@b", 2), Some("ab".to_string()));
    assert_eq!(bar.try_remove_trigger_grapheme("a@b", 3), None);
    assert_eq!(bar.try_remove_trigger_grapheme("a@b", 1), None);
    assert_eq!(bar.try_remove_trigger_grapheme("@", 0), None);
    assert_eq!(bar.try_remove_trigger_grapheme("@", 1), Some("".to_string()));
    assert_eq!(bar.try_remove_trigger_grapheme("", 3), None);
    // The offsets are in bytes: the accented letter takes three.
    assert_eq!(bar.try_remove_trigger_grapheme("e\u{301}@z", 4), Some("e\u{301}z".to_string()));
    assert_eq!(bar.try_remove_trigger_grapheme("e\u{301}@z", 3), None);
    assert_eq!(CommandInputBar::new(None).try_remove_trigger_grapheme("a@", 2), None);
}

#[test]
fn trigger_removal_on_given_clusters() {
    let text = clusters(&[(0, "a"), (1, "@"), (2, "b")]);
    let trigger = Some("@".to_string());
    assert_eq!(remove_trigger(&text, 2, &trigger), Some("ab".to_string()));
    assert_eq!(remove_trigger(&text, 100, &trigger), None);
    assert_eq!(remove_trigger(&text, 0, &trigger), None);
    assert_eq!(remove_trigger(&text, 2, &None), None);
    assert_eq!(remove_trigger(&vec![], 2, &trigger), None);
    let only = clusters(&[(0, "@")]);
    assert_eq!(remove_trigger(&only, 1, &trigger), Some("".to_string()));
    assert_eq!(first_of(&text), Some("a".to_string()));
    assert_eq!(last_of(&text), Some("b".to_string()));
    assert_eq!(first_of(&vec![]), None);
    assert_eq!(last_of(&vec![]), None);
    assert!(same_cluster(&None, &None));
    assert!(!same_cluster(&None, &trigger));
    assert!(same_cluster(&Some("@".to_string()), &trigger));
    assert!(!same_cluster(&Some("#".to_string()), &trigger));
}
