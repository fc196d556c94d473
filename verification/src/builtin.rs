//! The actions that ship with the helper.

use crate::catalog::{entries_map, first_malformed, ActionDefinition, ActionView, Catalog};
use vstd::pervasive::unreached;
use vstd::prelude::*;

verus! {

/// What [`ActionDefinition::new`] makes of its arguments.
pub open spec fn plain_action(
    id: Seq<char>,
    title: Seq<char>,
    os: Seq<char>,
    commands: Seq<Seq<char>>,
) -> ActionView {
    ActionView {
        id,
        title,
        os,
        commands,
        rollback_commands: Seq::empty(),
        reversible: true,
        estimated_time: "10 seconds"@,
        requirements: seq!["Administrator privileges"@],
        creates_backup: false,
    }
}

/// What [`ActionDefinition::with_rollback`] makes of an action.
pub open spec fn backed_action(action: ActionView, rollback_commands: Seq<Seq<char>>) -> ActionView {
    ActionView { rollback_commands, creates_backup: true, ..action }
}

pub open spec fn flush_dns() -> ActionView {
    plain_action(
        "flush-dns-macos"@,
        "Flush DNS Cache (macOS)"@,
        "macos"@,
        seq!["sudo dscacheutil -flushcache"@, "sudo killall -HUP mDNSResponder"@],
    )
}

pub open spec fn toggle_wifi() -> ActionView {
    backed_action(
        plain_action(
            "toggle-wifi-macos"@,
            "Toggle Wi\u{2011}Fi (macOS)"@,
            "macos"@,
            seq![
                "networksetup -getairportpower en0 > /tmp/wifi_state_backup.txt"@,
                "networksetup -setairportpower en0 off"@,
                "sleep 2"@,
                "networksetup -setairportpower en0 on"@,
            ],
        ),
        seq![
            "if grep -q 'On' /tmp/wifi_state_backup.txt; then networksetup -setairportpower en0 on; else networksetup -setairportpower en0 off; fi"@,
            "rm -f /tmp/wifi_state_backup.txt"@,
        ],
    )
}

pub open spec fn clear_app_cache() -> ActionView {
    backed_action(
        plain_action(
            "clear-app-cache"@,
            "Clear App Cache (macOS)"@,
            "macos"@,
            seq![
                "mkdir -p /tmp/cache_backup_$(date +%s)"@,
                "find ~/Library/Caches -name \"*.cache\" -type f -exec cp {} /tmp/cache_backup_$(date +%s)/ \\; 2>/dev/null || true"@,
                "find ~/Library/Caches -name \"*.cache\" -type f -delete 2>/dev/null || true"@,
            ],
        ),
        seq![
            "latest_backup=$(ls -t /tmp/cache_backup_* | head -1)"@,
            "if [ -d \"$latest_backup\" ]; then cp \"$latest_backup\"/* ~/Library/Caches/ 2>/dev/null || true; fi"@,
        ],
    )
}

pub open spec fn restart_finder() -> ActionView {
    plain_action(
        "restart-finder"@,
        "Restart Finder (macOS)"@,
        "macos"@,
        seq!["killall Finder"@],
    )
}

pub open spec fn clear_recent_items() -> ActionView {
    plain_action(
        "clear-recent-items"@,
        "Clear Recent Items (macOS)"@,
        "macos"@,
        seq![
            "defaults delete com.apple.recentitems RecentApplications 2>/dev/null || true"@,
            "defaults delete com.apple.recentitems RecentDocuments 2>/dev/null || true"@,
            "defaults delete com.apple.recentitems RecentServers 2>/dev/null || true"@,
        ],
    )
}

pub open spec fn reset_launchpad() -> ActionView {
    plain_action(
        "reset-launchpad"@,
        "Reset Launchpad Layout (macOS)"@,
        "macos"@,
        seq!["defaults write com.apple.dock ResetLaunchPad -bool true"@, "killall Dock"@],
    )
}

pub open spec fn clear_system_logs() -> ActionView {
    plain_action(
        "clear-system-logs"@,
        "Clear Old System Logs (macOS)"@,
        "macos"@,
        seq![
            "sudo rm -rf /private/var/log/asl/*.asl 2>/dev/null || true"@,
            "sudo rm -rf /private/var/log/DiagnosticMessages/*.asl 2>/dev/null || true"@,
        ],
    )
}

/// The mapping of the built-in catalog.
pub open spec fn builtin_actions() -> Map<Seq<char>, ActionView> {
    Map::empty().insert(flush_dns().id, flush_dns()).insert(
        toggle_wifi().id,
        toggle_wifi(),
    ).insert(clear_app_cache().id, clear_app_cache()).insert(
        restart_finder().id,
        restart_finder(),
    ).insert(clear_recent_items().id, clear_recent_items()).insert(
        reset_launchpad().id,
        reset_launchpad(),
    ).insert(clear_system_logs().id, clear_system_logs())
}

fn make_flush_dns() -> (action: ActionDefinition)
    ensures
        action@ == flush_dns(),
{
    let commands = vec!["sudo dscacheutil -flushcache", "sudo killall -HUP mDNSResponder"];
    assert(commands.deep_view() =~= flush_dns().commands);
    ActionDefinition::new("flush-dns-macos", "Flush DNS Cache (macOS)", "macos", commands)
}

fn make_toggle_wifi() -> (action: ActionDefinition)
    ensures
        action@ == toggle_wifi(),
{
    let commands = vec![
        "networksetup -getairportpower en0 > /tmp/wifi_state_backup.txt",
        "networksetup -setairportpower en0 off",
        "sleep 2",
        "networksetup -setairportpower en0 on",
    ];
    let rollback = vec![
        "if grep -q 'On' /tmp/wifi_state_backup.txt; then networksetup -setairportpower en0 on; else networksetup -setairportpower en0 off; fi",
        "rm -f /tmp/wifi_state_backup.txt",
    ];
    assert(commands.deep_view() =~= toggle_wifi().commands);
    assert(rollback.deep_view() =~= toggle_wifi().rollback_commands);
    ActionDefinition::new(
        "toggle-wifi-macos",
        "Toggle Wi\u{2011}Fi (macOS)",
        "macos",
        commands,
    ).with_rollback(rollback)
}

fn make_clear_app_cache() -> (action: ActionDefinition)
    ensures
        action@ == clear_app_cache(),
{
    let commands = vec![
        "mkdir -p /tmp/cache_backup_$(date +%s)",
        "find ~/Library/Caches -name \"*.cache\" -type f -exec cp {} /tmp/cache_backup_$(date +%s)/ \\; 2>/dev/null || true",
        "find ~/Library/Caches -name \"*.cache\" -type f -delete 2>/dev/null || true",
    ];
    let rollback = vec![
        "latest_backup=$(ls -t /tmp/cache_backup_* | head -1)",
        "if [ -d \"$latest_backup\" ]; then cp \"$latest_backup\"/* ~/Library/Caches/ 2>/dev/null || true; fi",
    ];
    assert(commands.deep_view() =~= clear_app_cache().commands);
    assert(rollback.deep_view() =~= clear_app_cache().rollback_commands);
    ActionDefinition::new(
        "clear-app-cache",
        "Clear App Cache (macOS)",
        "macos",
        commands,
    ).with_rollback(rollback)
}

fn make_restart_finder() -> (action: ActionDefinition)
    ensures
        action@ == restart_finder(),
{
    let commands = vec!["killall Finder"];
    assert(commands.deep_view() =~= restart_finder().commands);
    ActionDefinition::new("restart-finder", "Restart Finder (macOS)", "macos", commands)
}

fn make_clear_recent_items() -> (action: ActionDefinition)
    ensures
        action@ == clear_recent_items(),
{
    let commands = vec![
        "defaults delete com.apple.recentitems RecentApplications 2>/dev/null || true",
        "defaults delete com.apple.recentitems RecentDocuments 2>/dev/null || true",
        "defaults delete com.apple.recentitems RecentServers 2>/dev/null || true",
    ];
    assert(commands.deep_view() =~= clear_recent_items().commands);
    ActionDefinition::new("clear-recent-items", "Clear Recent Items (macOS)", "macos", commands)
}

fn make_reset_launchpad() -> (action: ActionDefinition)
    ensures
        action@ == reset_launchpad(),
{
    let commands = vec!["defaults write com.apple.dock ResetLaunchPad -bool true", "killall Dock"];
    assert(commands.deep_view() =~= reset_launchpad().commands);
    ActionDefinition::new("reset-launchpad", "Reset Launchpad Layout (macOS)", "macos", commands)
}

fn make_clear_system_logs() -> (action: ActionDefinition)
    ensures
        action@ == clear_system_logs(),
{
    let commands = vec![
        "sudo rm -rf /private/var/log/asl/*.asl 2>/dev/null || true",
        "sudo rm -rf /private/var/log/DiagnosticMessages/*.asl 2>/dev/null || true",
    ];
    assert(commands.deep_view() =~= clear_system_logs().commands);
    ActionDefinition::new("clear-system-logs", "Clear Old System Logs (macOS)", "macos", commands)
}

/// The built-in definitions, in the order in which they are filed.
pub open spec fn builtin_definitions() -> Seq<ActionView> {
    seq![
        flush_dns(),
        toggle_wifi(),
        clear_app_cache(),
        restart_finder(),
        clear_recent_items(),
        reset_launchpad(),
        clear_system_logs(),
    ]
}

/// The built-in definitions keep the rule on backups, and their mapping is
/// the built-in one.
pub proof fn lemma_builtin_definitions(definitions: Seq<ActionView>)
    requires
        definitions =~= builtin_definitions(),
    ensures
        first_malformed(definitions) is None,
        entries_map(definitions) == builtin_actions(),
{
    let d = builtin_definitions();
    assert(definitions == d);
    assert(d.take(7) =~= d);
    assert(d.take(7).drop_last() =~= d.take(6));
    assert(d.take(6).drop_last() =~= d.take(5));
    assert(d.take(5).drop_last() =~= d.take(4));
    assert(d.take(4).drop_last() =~= d.take(3));
    assert(d.take(3).drop_last() =~= d.take(2));
    assert(d.take(2).drop_last() =~= d.take(1));
    assert(d.take(1).drop_last() =~= d.take(0));
    assert(first_malformed(d.take(0)) is None);
    assert(first_malformed(d.take(1)) is None);
    assert(first_malformed(d.take(2)) is None);
    assert(first_malformed(d.take(3)) is None);
    assert(first_malformed(d.take(4)) is None);
    assert(first_malformed(d.take(5)) is None);
    assert(first_malformed(d.take(6)) is None);
    assert(first_malformed(d.take(7)) is None);
    assert(entries_map(d.take(0)) =~= Map::<Seq<char>, ActionView>::empty());
    assert(entries_map(d.take(1)) == entries_map(d.take(0)).insert(flush_dns().id, flush_dns()));
    assert(entries_map(d.take(2)) == entries_map(d.take(1)).insert(toggle_wifi().id, toggle_wifi()));
    assert(entries_map(d.take(3)) == entries_map(d.take(2)).insert(
        clear_app_cache().id,
        clear_app_cache(),
    ));
    assert(entries_map(d.take(4)) == entries_map(d.take(3)).insert(
        restart_finder().id,
        restart_finder(),
    ));
    assert(entries_map(d.take(5)) == entries_map(d.take(4)).insert(
        clear_recent_items().id,
        clear_recent_items(),
    ));
    assert(entries_map(d.take(6)) == entries_map(d.take(5)).insert(
        reset_launchpad().id,
        reset_launchpad(),
    ));
    assert(entries_map(d.take(7)) == entries_map(d.take(6)).insert(
        clear_system_logs().id,
        clear_system_logs(),
    ));
}

/// The seven built-in identifiers differ from one another.
pub proof fn lemma_builtin_ids_differ()
    ensures
        builtin_actions().dom().finite(),
        builtin_actions().dom().len() == 7,
{
    reveal_strlit("flush-dns-macos");
    reveal_strlit("toggle-wifi-macos");
    reveal_strlit("clear-app-cache");
    reveal_strlit("restart-finder");
    reveal_strlit("clear-recent-items");
    reveal_strlit("reset-launchpad");
    reveal_strlit("clear-system-logs");
    let a = "flush-dns-macos"@;
    let b = "toggle-wifi-macos"@;
    let c = "clear-app-cache"@;
    let d = "restart-finder"@;
    let e = "clear-recent-items"@;
    let f = "reset-launchpad"@;
    let g = "clear-system-logs"@;
    assert(a[0] == 'f' && b[0] == 't' && c[0] == 'c' && d[0] == 'r' && e[0] == 'c' && f[0] == 'r'
        && g[0] == 'c');
    assert(a.len() == 15 && b.len() == 17 && c.len() == 15 && d.len() == 14 && e.len() == 18
        && f.len() == 15 && g.len() == 17);
    assert(builtin_actions().dom() =~= set![a, b, c, d, e, f, g]);
}

/// The catalog of the built-in actions.
pub fn builtin_catalog() -> (catalog: Catalog)
    ensures
        catalog.well_formed(),
        catalog@ == builtin_actions(),
        catalog@.dom().finite(),
        catalog@.dom().len() == 7,
{
    let mut definitions: Vec<ActionDefinition> = Vec::new();
    definitions.push(make_flush_dns());
    definitions.push(make_toggle_wifi());
    definitions.push(make_clear_app_cache());
    definitions.push(make_restart_finder());
    definitions.push(make_clear_recent_items());
    definitions.push(make_reset_launchpad());
    definitions.push(make_clear_system_logs());
    proof {
        lemma_builtin_ids_differ();
        lemma_builtin_definitions(definitions.deep_view());
    }
    match Catalog::from_definitions(definitions) {
        Ok(catalog) => catalog,
        Err(_) => unreached(),
    }
}

} // verus!
