use actiongen::names::{resolve_name, UsedNames};
use actiongen::raw_types::{Action, ActionEventIcon, ActionIconOptions};

fn event_action(raw_name: &str, display_name: &str, codeblock: &str) -> Action {
    let mut icon = ActionEventIcon::empty();
    icon.name = display_name.to_string();
    Action {
        name: raw_name.to_string(),
        codeblock_name: codeblock.to_string(),
        tags: vec![],
        aliases: vec![],
        icon: ActionIconOptions::Event(icon),
        sub_action_blocks: vec![],
    }
}

#[test]
fn test_display_name_is_preferred() {
    let mut used = UsedNames::new();
    let a = event_action("RawName", "Display Name", "PLAYER ACTION");
    assert_eq!(resolve_name(&a, &mut used), "DisplayName");
}

#[test]
fn test_empty_display_name_falls_back_to_raw_name() {
    let mut used = UsedNames::new();
    let a = event_action("RawName", "", "PLAYER ACTION");
    assert_eq!(resolve_name(&a, &mut used), "RawName");
}

#[test]
fn test_collision_falls_back_then_suffixes() {
    let mut used = UsedNames::new();
    let a = event_action("First", "Label", "PLAYER ACTION");
    let b = event_action("Second", "Label", "PLAYER ACTION");
    let c = event_action("Second", "Label", "PLAYER ACTION");
    assert_eq!(resolve_name(&a, &mut used), "Label");
    // The display name collides: the raw name is used instead.
    assert_eq!(resolve_name(&b, &mut used), "Second");
    // Both candidates collide: a literal `N` is appended exactly once.
    assert_eq!(resolve_name(&c, &mut used), "SecondN");
}

#[test]
fn test_third_collision_is_not_retried() {
    // The known single-retry defect: after two prior collisions on the same
    // label, the suffixed name is handed out again and the resolved
    // identifiers are NOT guaranteed distinct.
    let mut used = UsedNames::new();
    let a = event_action("Label", "", "PLAYER ACTION");
    let b = event_action("Label", "", "PLAYER ACTION");
    let c = event_action("Label", "", "PLAYER ACTION");
    assert_eq!(resolve_name(&a, &mut used), "Label");
    assert_eq!(resolve_name(&b, &mut used), "LabelN");
    assert_eq!(resolve_name(&c, &mut used), "LabelN");
}

#[test]
fn test_same_label_in_two_codeblocks_is_permitted() {
    let mut used = UsedNames::new();
    let a = event_action("Raw", "Label", "PLAYER ACTION");
    let b = event_action("Raw", "Label", "ENTITY ACTION");
    assert_eq!(resolve_name(&a, &mut used), "Label");
    assert_eq!(resolve_name(&b, &mut used), "Label");
}

#[test]
fn test_resolved_name_is_recorded() {
    let mut used = UsedNames::new();
    let a = event_action("Raw", "Label", "PLAYER ACTION");
    resolve_name(&a, &mut used);
    assert!(used.contains("Label", "PLAYER ACTION"));
    assert!(!used.contains("Label", "ENTITY ACTION"));
    assert!(!used.contains("Raw", "PLAYER ACTION"));
}
