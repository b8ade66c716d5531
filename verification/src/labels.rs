//! Human-readable labels for modes, directions, resize kinds and actions.

use vstd::prelude::*;

verus! {

/// The multiplexer's current interaction mode. Exactly one is active at a
/// time; the set is closed.
#[derive(Clone, Copy, Debug, PartialEq, Eq, Structural)]
pub enum Mode {
    Normal,
    Locked,
    Resize,
    Pane,
    Tab,
    Scroll,
    EnterSearch,
    Search,
    RenameTab,
    RenamePane,
    Session,
    Move,
    Prompt,
    Tmux,
}

/// A qualifier on focus and resize actions.
#[derive(Clone, Copy, Debug, PartialEq, Eq, Structural)]
pub enum Direction {
    Up,
    Left,
    Right,
    Down,
}

/// Whether a resize action grows or shrinks a pane.
#[derive(Clone, Copy, Debug, PartialEq, Eq, Structural)]
pub enum ResizeKind {
    Increase,
    Decrease,
}

/// One bindable action, as reported by the host. `Unrecognized` stands for
/// every host action this display does not label specially.
#[derive(Clone, Copy, Debug, PartialEq, Eq, Structural)]
pub enum ActionDescriptor {
    Quit,
    SwitchToMode(Mode),
    Resize(ResizeKind, Option<Direction>),
    FocusNextPane,
    FocusPreviousPane,
    SwitchFocus,
    MoveFocus(Direction),
    Unrecognized,
}

/// The display string of each mode, one fixed label per variant.
pub open spec fn mode_label(mode: Mode) -> Seq<char> {
    match mode {
        Mode::Normal => "Normal"@,
        Mode::Locked => "Locked"@,
        Mode::Resize => "Resize"@,
        Mode::Pane => "Pane"@,
        Mode::Tab => "Tab"@,
        Mode::Scroll => "Scroll"@,
        Mode::EnterSearch => "Enter search"@,
        Mode::Search => "Search"@,
        Mode::RenameTab => "Rename tab"@,
        Mode::RenamePane => "Rename pane"@,
        Mode::Session => "Session"@,
        Mode::Move => "Move"@,
        Mode::Prompt => "Prompt"@,
        Mode::Tmux => "Tmux"@,
    }
}

/// The lower-case display word of each direction.
pub open spec fn direction_label(direction: Direction) -> Seq<char> {
    match direction {
        Direction::Up => "up"@,
        Direction::Left => "left"@,
        Direction::Right => "right"@,
        Direction::Down => "down"@,
    }
}

/// The lower-case display word of each resize kind.
pub open spec fn resize_label(resize: ResizeKind) -> Seq<char> {
    match resize {
        ResizeKind::Increase => "increase"@,
        ResizeKind::Decrease => "decrease"@,
    }
}

/// The display label of each action. A resize without a direction keeps its
/// trailing space, for layout consistency; unlabelled actions degrade to
/// "unknown" rather than failing.
pub open spec fn action_label(action: ActionDescriptor) -> Seq<char> {
    match action {
        ActionDescriptor::Quit => "Quit"@,
        ActionDescriptor::SwitchToMode(m) => mode_label(m) + " mode"@,
        ActionDescriptor::Resize(r, d) => resize_label(r) + " "@ + (match d {
            Some(dd) => direction_label(dd),
            None => Seq::<char>::empty(),
        }),
        ActionDescriptor::FocusNextPane => "Next pane"@,
        ActionDescriptor::FocusPreviousPane => "Previous pane"@,
        ActionDescriptor::SwitchFocus => "Switch focus"@,
        ActionDescriptor::MoveFocus(d) => "Move focus "@ + direction_label(d),
        ActionDescriptor::Unrecognized => "unknown"@,
    }
}

/// The display string of the given mode.
pub fn mode_name(mode: Mode) -> (r: String)
    ensures
        r@ == mode_label(mode),
{
    match mode {
        Mode::Normal => String::from_str("Normal"),
        Mode::Locked => String::from_str("Locked"),
        Mode::Resize => String::from_str("Resize"),
        Mode::Pane => String::from_str("Pane"),
        Mode::Tab => String::from_str("Tab"),
        Mode::Scroll => String::from_str("Scroll"),
        Mode::EnterSearch => String::from_str("Enter search"),
        Mode::Search => String::from_str("Search"),
        Mode::RenameTab => String::from_str("Rename tab"),
        Mode::RenamePane => String::from_str("Rename pane"),
        Mode::Session => String::from_str("Session"),
        Mode::Move => String::from_str("Move"),
        Mode::Prompt => String::from_str("Prompt"),
        Mode::Tmux => String::from_str("Tmux"),
    }
}

/// The lower-case display word of the given direction.
pub fn direction_name(direction: Direction) -> (r: String)
    ensures
        r@ == direction_label(direction),
{
    match direction {
        Direction::Up => String::from_str("up"),
        Direction::Left => String::from_str("left"),
        Direction::Right => String::from_str("right"),
        Direction::Down => String::from_str("down"),
    }
}

/// The lower-case display word of the given resize kind.
pub fn resize_name(resize: ResizeKind) -> (r: String)
    ensures
        r@ == resize_label(resize),
{
    match resize {
        ResizeKind::Increase => String::from_str("increase"),
        ResizeKind::Decrease => String::from_str("decrease"),
    }
}

/// The display label of the given action: exactly `action_label`.
pub fn action_name(action: ActionDescriptor) -> (r: String)
    ensures
        r@ == action_label(action),
{
    match action {
        ActionDescriptor::Quit => String::from_str("Quit"),
        ActionDescriptor::SwitchToMode(m) => mode_name(m).concat(" mode"),
        ActionDescriptor::Resize(res, dir) => {
            let mut s = resize_name(res);
            s.append(" ");
            match dir {
                Some(d) => {
                    let dname = direction_name(d);
                    s.append(dname.as_str());
                },
                None => {
                    proof {
                        assert(s@ =~= resize_label(res) + " "@ + Seq::<char>::empty());
                    }
                },
            }
            s
        },
        ActionDescriptor::FocusNextPane => String::from_str("Next pane"),
        ActionDescriptor::FocusPreviousPane => String::from_str("Previous pane"),
        ActionDescriptor::SwitchFocus => String::from_str("Switch focus"),
        ActionDescriptor::MoveFocus(d) => {
            let mut s = String::from_str("Move focus ");
            let dname = direction_name(d);
            s.append(dname.as_str());
            s
        },
        ActionDescriptor::Unrecognized => String::from_str("unknown"),
    }
}

/// Law: mode labels form a bijection onto their range. Every mode's label is
/// non-empty, and no two distinct modes share a label.
pub proof fn lemma_mode_label_bijective(a: Mode, b: Mode)
    ensures
        mode_label(a).len() > 0,
        (mode_label(a) == mode_label(b)) <==> a == b,
{
    reveal_strlit("Normal");
    reveal_strlit("Locked");
    reveal_strlit("Resize");
    reveal_strlit("Pane");
    reveal_strlit("Tab");
    reveal_strlit("Scroll");
    reveal_strlit("Enter search");
    reveal_strlit("Search");
    reveal_strlit("Rename tab");
    reveal_strlit("Rename pane");
    reveal_strlit("Session");
    reveal_strlit("Move");
    reveal_strlit("Prompt");
    reveal_strlit("Tmux");
    assert(mode_label(Mode::Normal).len() == 6 && mode_label(Mode::Normal)[0] == 'N');
    assert(mode_label(Mode::Locked).len() == 6 && mode_label(Mode::Locked)[0] == 'L');
    assert(mode_label(Mode::Resize).len() == 6 && mode_label(Mode::Resize)[0] == 'R');
    assert(mode_label(Mode::Pane).len() == 4 && mode_label(Mode::Pane)[0] == 'P');
    assert(mode_label(Mode::Tab).len() == 3 && mode_label(Mode::Tab)[0] == 'T');
    assert(mode_label(Mode::Scroll).len() == 6 && mode_label(Mode::Scroll)[1] == 'c');
    assert(mode_label(Mode::EnterSearch).len() == 12);
    assert(mode_label(Mode::Search).len() == 6 && mode_label(Mode::Search)[1] == 'e');
    assert(mode_label(Mode::RenameTab).len() == 10);
    assert(mode_label(Mode::RenamePane).len() == 11);
    assert(mode_label(Mode::Session).len() == 7);
    assert(mode_label(Mode::Move).len() == 4 && mode_label(Mode::Move)[0] == 'M');
    assert(mode_label(Mode::Prompt).len() == 6 && mode_label(Mode::Prompt)[0] == 'P');
    assert(mode_label(Mode::Tmux).len() == 4 && mode_label(Mode::Tmux)[0] == 'T');
}

} // verus!

