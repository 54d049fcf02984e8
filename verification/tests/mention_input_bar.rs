use robrix_core::shared::mention_input_bar::{MentionInputBar, MentionInputBarAction, RoomMember};
use robrix_core::shared::text::ends_with;

fn member(user_id: &str, display_name: Option<&str>) -> RoomMember {
    RoomMember { user_id: user_id.to_string(), display_name: display_name.map(str::to_string) }
}

fn room() -> MentionInputBar {
    let mut bar = MentionInputBar::new();
    bar.set_room_members(vec![
        member("@alice:example.org", Some("Alice")),
        member("@bob:example.org", None),
        member("@carol:example.org", Some("Ålice B")),
        member("@dave:example.org", Some("")),
    ]);
    bar
}

#[test]
fn new_input_knows_nobody() {
    let bar = MentionInputBar::new();
    assert_eq!(bar.member_count(), 0);
    assert_eq!(bar.current_input(), "");
    assert_eq!(bar.show_user_list("a", "@a"), Some(vec![]));
}

#[test]
fn member_is_listed_under_display_name_or_user_id() {
    assert_eq!(member("@a:x", Some("Ann")).listed_name(), "Ann");
    assert_eq!(member("@a:x", None).listed_name(), "@a:x");
    assert_eq!(member("@a:x", Some("")).listed_name(), "");
}

#[test]
fn search_ignores_case() {
    let alice = member("@alice:example.org", Some("Alice"));
    assert!(alice.matches("ali"));
    assert!(alice.matches("LIC"));
    assert!(alice.matches(""));
    assert!(!alice.matches("bob"));
    assert!(!alice.matches("example"));
    assert!(member("@bob:example.org", None).matches("EXAMPLE"));
    assert!(member("@x:y", Some("ÅSA")).matches("åsa"));
}

#[test]
fn matching_members_are_listed_in_order() {
    let bar = room();
    assert_eq!(bar.member_count(), 4);
    assert_eq!(bar.show_user_list("lice", "@lice"), Some(vec![0, 2]));
    assert_eq!(bar.show_user_list("BOB", "@BOB"), Some(vec![1]));
    assert_eq!(bar.show_user_list("zed", "@zed"), Some(vec![]));
}

#[test]
fn list_is_shown_right_after_the_at_sign() {
    let bar = room();
    assert_eq!(bar.show_user_list("", "hello @"), Some(vec![0, 1, 2, 3]));
    assert_eq!(bar.show_user_list("", "hello @ "), None);
    assert_eq!(bar.show_user_list("", ""), None);
    assert_eq!(bar.show_user_list("b", ""), Some(vec![1, 2]));
}

#[test]
fn text_without_at_sign_closes_the_list() {
    let mut bar = room();
    let (action, reset) = bar.on_text_changed("hi @al".to_string());
    assert_eq!(action, MentionInputBarAction::MessageChanged("hi @al".to_string()));
    assert!(!reset);
    assert_eq!(bar.current_input(), "hi @al");
    let (action, reset) = bar.on_text_changed("hi".to_string());
    assert_eq!(action, MentionInputBarAction::MessageChanged("hi".to_string()));
    assert!(reset);
    assert_eq!(bar.current_input(), "hi");
}

#[test]
fn choosing_a_member_mentions_them() {
    let bar = room();
    assert_eq!(
        bar.on_user_selected("Alice".to_string()),
        MentionInputBarAction::UserMentioned("Alice".to_string())
    );
}

#[test]
fn room_id_is_kept_and_fetched() {
    let mut bar = room();
    assert_eq!(bar.set_room_id("!room:example.org".to_string()), "!room:example.org");
    assert_eq!(bar.member_count(), 4);
}

#[test]
fn ends_with_looks_at_the_last_character() {
    assert!(ends_with("a@", '@'));
    assert!(!ends_with("@a", '@'));
    assert!(!ends_with("", '@'));
    assert!(ends_with("é", 'é'));
}
