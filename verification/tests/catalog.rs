use desktop_helper::builtin::builtin_catalog;
use desktop_helper::catalog::{ActionDefinition, Catalog, CatalogError};
use desktop_helper::text::{copy_texts, owned_texts};

fn owned(items: &[&str]) -> Vec<String> {
    items.iter().map(|s| s.to_string()).collect()
}

#[test]
fn new_action_has_the_defaults() {
    let action = ActionDefinition::new("a", "A title", "macos", vec!["echo one", "echo two"]);
    assert_eq!(action.id, "a");
    assert_eq!(action.title, "A title");
    assert_eq!(action.os, "macos");
    assert_eq!(action.commands, owned(&["echo one", "echo two"]));
    assert!(action.rollback_commands.is_empty());
    assert!(action.reversible);
    assert_eq!(action.estimated_time, "10 seconds");
    assert_eq!(action.requirements, owned(&["Administrator privileges"]));
    assert!(!action.creates_backup);
    assert!(action.is_well_formed());
    assert!(!action.can_roll_back());
}

#[test]
fn with_rollback_sets_the_way_back() {
    let action = ActionDefinition::new("a", "A", "macos", vec!["do"]).with_rollback(vec!["undo", "clean"]);
    assert_eq!(action.commands, owned(&["do"]));
    assert_eq!(action.rollback_commands, owned(&["undo", "clean"]));
    assert!(action.creates_backup);
    assert!(action.reversible);
    assert!(action.is_well_formed());
    assert!(action.can_roll_back());
}

#[test]
fn backup_without_rollback_is_malformed() {
    let action = ActionDefinition::new("a", "A", "macos", vec!["do"]).with_rollback(vec![]);
    assert!(action.creates_backup);
    assert!(!action.is_well_formed());
    let good = ActionDefinition::new("g", "G", "macos", vec!["do"]);
    let other = ActionDefinition::new("b", "B", "macos", vec!["do"]).with_rollback(vec![]);
    match Catalog::from_definitions(vec![good, action, other]) {
        Err(error) => assert_eq!(error, CatalogError::Malformed { action_id: "a".to_string() }),
        Ok(_) => panic!("a malformed definition was filed"),
    }
}

#[test]
fn irreversible_action_needs_no_rollback() {
    let mut action = ActionDefinition::new("a", "A", "macos", vec!["do"]).with_rollback(vec![]);
    action.reversible = false;
    assert!(action.is_well_formed());
    assert!(!action.can_roll_back());
}

#[test]
fn clone_keeps_every_field() {
    let action = ActionDefinition::new("a", "A", "linux", vec!["x y", "z"]).with_rollback(vec!["u"]);
    assert_eq!(action.clone(), action);
}

#[test]
fn copies_of_texts() {
    assert_eq!(owned_texts(&vec!["a", "", "b c"]), owned(&["a", "", "b c"]));
    assert_eq!(copy_texts(&owned(&["a", "", "b c"])), owned(&["a", "", "b c"]));
}

#[test]
fn catalog_looks_up_by_identifier() {
    let empty = Catalog::new();
    assert_eq!(empty.len(), 0);
    assert!(empty.get("one").is_none());
    let catalog = Catalog::from_definitions(vec![
        ActionDefinition::new("one", "One", "macos", vec!["a"]),
        ActionDefinition::new("two", "Two", "macos", vec!["b"]),
    ])
    .unwrap();
    assert_eq!(catalog.len(), 2);
    assert_eq!(catalog.get("one").unwrap().title, "One");
    assert_eq!(catalog.get("two").unwrap().title, "Two");
    assert!(catalog.get("three").is_none());
    assert!(catalog.get("One").is_none());
    assert!(catalog.get("").is_none());
    assert!(catalog.contains("two"));
    assert!(!catalog.contains("tw"));
}

#[test]
fn later_definition_replaces_earlier() {
    let catalog = Catalog::from_definitions(vec![
        ActionDefinition::new("one", "First", "macos", vec!["a"]),
        ActionDefinition::new("two", "Two", "macos", vec!["b"]),
        ActionDefinition::new("one", "Second", "macos", vec!["c"]),
    ])
    .unwrap();
    assert_eq!(catalog.len(), 2);
    assert_eq!(catalog.get("one").unwrap().title, "Second");
    assert_eq!(catalog.get("one").unwrap().commands, owned(&["c"]));
    assert_eq!(catalog.get("two").unwrap().title, "Two");
}

#[test]
fn catalog_of_nothing_is_empty() {
    let catalog = Catalog::from_definitions(vec![]).unwrap();
    assert_eq!(catalog.len(), 0);
    assert!(!catalog.contains(""));
}

#[test]
fn builtin_catalog_has_seven_actions() {
    let catalog = builtin_catalog();
    assert_eq!(catalog.len(), 7);
    let ids = [
        "flush-dns-macos",
        "toggle-wifi-macos",
        "clear-app-cache",
        "restart-finder",
        "clear-recent-items",
        "reset-launchpad",
        "clear-system-logs",
    ];
    for id in ids {
        let action = catalog.get(id).unwrap();
        assert_eq!(action.id, id);
        assert_eq!(action.os, "macos");
        assert!(action.reversible);
        assert!(action.is_well_formed());
        assert!(!action.commands.is_empty());
    }
}

#[test]
fn builtin_flush_dns() {
    let catalog = builtin_catalog();
    let action = catalog.get("flush-dns-macos").unwrap();
    assert_eq!(action.title, "Flush DNS Cache (macOS)");
    assert_eq!(
        action.commands,
        owned(&["sudo dscacheutil -flushcache", "sudo killall -HUP mDNSResponder"])
    );
    assert!(action.rollback_commands.is_empty());
    assert!(!action.creates_backup);
    assert!(!action.can_roll_back());
}

#[test]
fn builtin_actions_with_backup_have_a_way_back() {
    let catalog = builtin_catalog();
    let wifi = catalog.get("toggle-wifi-macos").unwrap();
    assert_eq!(wifi.title, "Toggle Wi\u{2011}Fi (macOS)");
    assert_eq!(wifi.commands.len(), 4);
    assert_eq!(wifi.commands[2], "sleep 2");
    assert_eq!(wifi.rollback_commands.len(), 2);
    assert_eq!(wifi.rollback_commands[1], "rm -f /tmp/wifi_state_backup.txt");
    assert!(wifi.creates_backup);
    assert!(wifi.can_roll_back());
    let cache = catalog.get("clear-app-cache").unwrap();
    assert_eq!(cache.commands.len(), 3);
    assert_eq!(
        cache.commands[1],
        "find ~/Library/Caches -name \"*.cache\" -type f -exec cp {} /tmp/cache_backup_$(date +%s)/ \\; 2>/dev/null || true"
    );
    assert_eq!(
        cache.rollback_commands,
        owned(&[
            "latest_backup=$(ls -t /tmp/cache_backup_* | head -1)",
            "if [ -d \"$latest_backup\" ]; then cp \"$latest_backup\"/* ~/Library/Caches/ 2>/dev/null || true; fi",
        ])
    );
    assert!(cache.creates_backup);
}

#[test]
fn builtin_actions_without_backup() {
    let catalog = builtin_catalog();
    for id in ["restart-finder", "clear-recent-items", "reset-launchpad", "clear-system-logs"] {
        let action = catalog.get(id).unwrap();
        assert!(!action.creates_backup);
        assert!(action.rollback_commands.is_empty());
    }
    assert_eq!(catalog.get("restart-finder").unwrap().commands, owned(&["killall Finder"]));
    assert_eq!(catalog.get("clear-recent-items").unwrap().commands.len(), 3);
    assert_eq!(
        catalog.get("reset-launchpad").unwrap().commands,
        owned(&["defaults write com.apple.dock ResetLaunchPad -bool true", "killall Dock"])
    );
    assert_eq!(catalog.get("clear-system-logs").unwrap().title, "Clear Old System Logs (macOS)");
}
