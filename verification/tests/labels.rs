use keybind_legend::labels::{action_name, direction_name, mode_name, resize_name};
use keybind_legend::labels::{ActionDescriptor, Direction, Mode, ResizeKind};

const ALL_MODES: [Mode; 14] = [
    Mode::Normal,
    Mode::Locked,
    Mode::Resize,
    Mode::Pane,
    Mode::Tab,
    Mode::Scroll,
    Mode::EnterSearch,
    Mode::Search,
    Mode::RenameTab,
    Mode::RenamePane,
    Mode::Session,
    Mode::Move,
    Mode::Prompt,
    Mode::Tmux,
];

#[test]
fn mode_names_are_exact() {
    assert_eq!(mode_name(Mode::Normal), "Normal");
    assert_eq!(mode_name(Mode::Locked), "Locked");
    assert_eq!(mode_name(Mode::Resize), "Resize");
    assert_eq!(mode_name(Mode::Pane), "Pane");
    assert_eq!(mode_name(Mode::Tab), "Tab");
    assert_eq!(mode_name(Mode::Scroll), "Scroll");
    assert_eq!(mode_name(Mode::EnterSearch), "Enter search");
    assert_eq!(mode_name(Mode::Search), "Search");
    assert_eq!(mode_name(Mode::RenameTab), "Rename tab");
    assert_eq!(mode_name(Mode::RenamePane), "Rename pane");
    assert_eq!(mode_name(Mode::Session), "Session");
    assert_eq!(mode_name(Mode::Move), "Move");
    assert_eq!(mode_name(Mode::Prompt), "Prompt");
    assert_eq!(mode_name(Mode::Tmux), "Tmux");
}

#[test]
fn mode_names_are_nonempty_and_distinct() {
    let names: Vec<String> = ALL_MODES.iter().map(|m| mode_name(*m)).collect();
    for name in &names {
        assert!(!name.is_empty());
    }
    for i in 0..names.len() {
        for j in 0..names.len() {
            if i != j {
                assert_ne!(names[i], names[j]);
            }
        }
    }
}

#[test]
fn direction_names_are_exact() {
    assert_eq!(direction_name(Direction::Up), "up");
    assert_eq!(direction_name(Direction::Left), "left");
    assert_eq!(direction_name(Direction::Right), "right");
    assert_eq!(direction_name(Direction::Down), "down");
}

#[test]
fn resize_names_are_exact() {
    assert_eq!(resize_name(ResizeKind::Increase), "increase");
    assert_eq!(resize_name(ResizeKind::Decrease), "decrease");
}

#[test]
fn action_names_are_exact() {
    assert_eq!(action_name(ActionDescriptor::Quit), "Quit");
    assert_eq!(action_name(ActionDescriptor::SwitchToMode(Mode::Pane)), "Pane mode");
    assert_eq!(
        action_name(ActionDescriptor::SwitchToMode(Mode::EnterSearch)),
        "Enter search mode"
    );
    assert_eq!(action_name(ActionDescriptor::FocusNextPane), "Next pane");
    assert_eq!(action_name(ActionDescriptor::FocusPreviousPane), "Previous pane");
    assert_eq!(action_name(ActionDescriptor::SwitchFocus), "Switch focus");
    assert_eq!(
        action_name(ActionDescriptor::MoveFocus(Direction::Left)),
        "Move focus left"
    );
    assert_eq!(action_name(ActionDescriptor::Unrecognized), "unknown");
}

#[test]
fn resize_labels_keep_trailing_space_without_direction() {
    assert_eq!(
        action_name(ActionDescriptor::Resize(ResizeKind::Increase, Some(Direction::Up))),
        "increase up"
    );
    assert_eq!(
        action_name(ActionDescriptor::Resize(ResizeKind::Decrease, None)),
        "decrease "
    );
    assert_eq!(
        action_name(ActionDescriptor::Resize(ResizeKind::Decrease, Some(Direction::Down))),
        "decrease down"
    );
    assert_eq!(
        action_name(ActionDescriptor::Resize(ResizeKind::Increase, None)),
        "increase "
    );
}
