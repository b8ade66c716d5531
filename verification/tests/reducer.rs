use keybind_legend::labels::{ActionDescriptor, Mode};
use keybind_legend::state::{
    actions_eq, snapshot_eq, table_eq, KeyBinding, KeyBindingTable, ModeSnapshot, SessionEvent,
    SessionState, TabRecord,
};

fn binding(key: &str, actions: Vec<ActionDescriptor>) -> KeyBinding {
    KeyBinding { key: key.to_string(), actions }
}

fn pane_snapshot() -> ModeSnapshot {
    ModeSnapshot {
        mode: Mode::Pane,
        tables: vec![(
            Mode::Pane,
            KeyBindingTable {
                entries: vec![
                    binding("n", vec![ActionDescriptor::FocusNextPane]),
                    binding("t", vec![ActionDescriptor::SwitchToMode(Mode::Tab)]),
                ],
            },
        )],
    }
}

fn tabs(names: &[&str]) -> Vec<TabRecord> {
    names.iter().map(|n| TabRecord { name: n.to_string() }).collect()
}

#[test]
fn mode_update_renders_once_then_dedups() {
    let mut state = SessionState::new(Vec::new());
    assert!(state.update(SessionEvent::ModeUpdate(pane_snapshot())));
    assert!(!state.update(SessionEvent::ModeUpdate(pane_snapshot())));
    assert!(!state.update(SessionEvent::ModeUpdate(pane_snapshot())));
}

#[test]
fn mode_update_rerenders_on_change() {
    let mut state = SessionState::new(Vec::new());
    assert!(state.update(SessionEvent::ModeUpdate(pane_snapshot())));
    let mut changed = pane_snapshot();
    changed.mode = Mode::Tab;
    assert!(state.update(SessionEvent::ModeUpdate(changed)));
    assert_eq!(state.snapshot.mode, Mode::Tab);
}

#[test]
fn initial_snapshot_is_neutral() {
    let mut state = SessionState::new(Vec::new());
    assert_eq!(state.snapshot.mode, Mode::Normal);
    assert!(state.snapshot.tables.is_empty());
    assert!(state.tabs.is_empty());
    // delivering the snapshot the state already holds does not render
    let same = ModeSnapshot { mode: Mode::Normal, tables: Vec::new() };
    assert!(!state.update(SessionEvent::ModeUpdate(same)));
}

#[test]
fn tab_update_always_renders() {
    let mut state = SessionState::new(Vec::new());
    assert!(state.update(SessionEvent::TabUpdate(tabs(&["main", "logs"]))));
    assert!(state.update(SessionEvent::TabUpdate(tabs(&["main", "logs"]))));
    assert_eq!(state.tabs, vec!["main".to_string(), "logs".to_string()]);
}

#[test]
fn tab_update_replaces_names_wholesale() {
    let mut state = SessionState::new(Vec::new());
    assert!(state.update(SessionEvent::TabUpdate(tabs(&["a", "b", "c"]))));
    assert!(state.update(SessionEvent::TabUpdate(tabs(&["z"]))));
    assert_eq!(state.tabs, vec!["z".to_string()]);
}

#[test]
fn other_events_are_ignored() {
    let mut state = SessionState::new(Vec::new());
    assert!(!state.update(SessionEvent::Other));
    assert_eq!(state.snapshot.mode, Mode::Normal);
    assert!(state.tabs.is_empty());
}

#[test]
fn event_counter_counts_every_event() {
    let mut state = SessionState::new(Vec::new());
    state.update(SessionEvent::Other);
    state.update(SessionEvent::TabUpdate(tabs(&["main"])));
    state.update(SessionEvent::ModeUpdate(pane_snapshot()));
    assert_eq!(state.events_seen, 3);
}

#[test]
fn configuration_is_stored_verbatim() {
    let config = vec![("theme".to_string(), "dark".to_string())];
    let state = SessionState::new(config.clone());
    assert_eq!(state.configuration, config);
}

#[test]
fn snapshot_equality_is_by_value() {
    assert!(snapshot_eq(&pane_snapshot(), &pane_snapshot()));
    let mut other = pane_snapshot();
    other.tables[0].1.entries[0].key = "m".to_string();
    assert!(!snapshot_eq(&pane_snapshot(), &other));
    let mut fewer = pane_snapshot();
    fewer.tables[0].1.entries.pop();
    assert!(!snapshot_eq(&pane_snapshot(), &fewer));
}

#[test]
fn table_and_action_equality_are_by_value() {
    let a = KeyBindingTable {
        entries: vec![binding("g", vec![ActionDescriptor::Quit])],
    };
    let b = KeyBindingTable {
        entries: vec![binding("g", vec![ActionDescriptor::Quit])],
    };
    let c = KeyBindingTable {
        entries: vec![binding("g", vec![ActionDescriptor::Unrecognized])],
    };
    assert!(table_eq(&a, &b));
    assert!(!table_eq(&a, &c));
    assert!(actions_eq(
        &vec![ActionDescriptor::Quit, ActionDescriptor::SwitchFocus],
        &vec![ActionDescriptor::Quit, ActionDescriptor::SwitchFocus],
    ));
    assert!(!actions_eq(
        &vec![ActionDescriptor::Quit],
        &vec![ActionDescriptor::Quit, ActionDescriptor::SwitchFocus],
    ));
}
