//! The render classifier: the active mode's keybinding table, partitioned
//! into mode-switch and regular bindings and emitted as two ordered blocks
//! of styled display lines.

use vstd::prelude::*;
use crate::labels::{action_label, action_name, ActionDescriptor};
use crate::labels::Mode;
use crate::state::{BindingView, KeyBindingTable, ModeSnapshot, SessionState, SnapshotView};

verus! {

pub const CYAN: u8 = 51;

pub const GRAY_LIGHT: u8 = 238;

pub const GRAY_DARK: u8 = 245;

pub const WHITE: u8 = 15;

pub const BLACK: u8 = 16;

pub const RED: u8 = 124;

pub const GREEN: u8 = 154;

pub const ORANGE: u8 = 166;

/// The character of one decimal digit.
pub open spec fn digit_char(d: nat) -> char {
    if d == 0 {
        '0'
    } else if d == 1 {
        '1'
    } else if d == 2 {
        '2'
    } else if d == 3 {
        '3'
    } else if d == 4 {
        '4'
    } else if d == 5 {
        '5'
    } else if d == 6 {
        '6'
    } else if d == 7 {
        '7'
    } else if d == 8 {
        '8'
    } else {
        '9'
    }
}

/// The decimal digit characters of `n`, most significant first.
pub open spec fn decimal_digits(n: nat) -> Seq<char>
    decreases n,
{
    if n < 10 {
        seq![digit_char(n)]
    } else {
        decimal_digits(n / 10).push(digit_char(n % 10))
    }
}

/// The terminal form of `text` painted bold in entry `color` of the
/// 256-colour palette: the control-sequence prefix, the text unchanged,
/// then the reset sequence.
pub open spec fn bold_colored(color: u8, text: Seq<char>) -> Seq<char> {
    seq!['\u{1b}', '[', '1', ';', '3', '8', ';', '5', ';'] + decimal_digits(color as nat)
        + seq!['m'] + text + seq!['\u{1b}', '[', '0', 'm']
}

/// Relies on ansi_term's `Style::paint`, with bold set and a fixed
/// 256-colour foreground: its displayed form is the prefix
/// `ESC [ 1 ; 3 8 ; 5 ; <color in decimal> m`, the text unchanged, then the
/// reset sequence `ESC [ 0 m`.
#[verifier::external_body]
pub(crate) fn color_bold(color: u8, text: &str) -> (r: String)
    ensures
        r@ == bold_colored(color, text@),
{
    format!("{}", ansi_term::Style::new().fg(ansi_term::Colour::Fixed(color)).bold().paint(text))
}

/// Semantic accent of a rendered line: mode-switch bindings carry the
/// primary accent, regular bindings the secondary one. The palette behind
/// the roles stays swappable in one place, `role_color`.
#[derive(Clone, Copy, Debug, PartialEq, Eq, Structural)]
pub enum StyleRole {
    AccentPrimary,
    AccentSecondary,
}

/// The palette entry of each semantic role.
pub open spec fn role_color(role: StyleRole) -> u8 {
    match role {
        StyleRole::AccentPrimary => ORANGE,
        StyleRole::AccentSecondary => CYAN,
    }
}

/// `text` styled for its semantic role.
pub fn style(text: &str, role: StyleRole) -> (r: String)
    ensures
        r@ == bold_colored(role_color(role), text@),
{
    match role {
        StyleRole::AccentPrimary => color_bold(ORANGE, text),
        StyleRole::AccentSecondary => color_bold(CYAN, text),
    }
}

/// Whether an action switches the active mode.
pub open spec fn is_mode_switch(action: ActionDescriptor) -> bool {
    action is SwitchToMode
}

/// Whether an action switches the active mode.
pub fn is_mode_switch_action(action: &ActionDescriptor) -> (r: bool)
    ensures
        r == is_mode_switch(*action),
{
    match action {
        ActionDescriptor::SwitchToMode(_) => true,
        _ => false,
    }
}

/// The keybinding table listed for `mode`: the first listed table where
/// several are, and no bindings where none is.
pub open spec fn table_for(tables: Seq<(Mode, Seq<BindingView>)>, mode: Mode) -> Seq<BindingView>
    decreases tables.len(),
{
    if tables.len() == 0 {
        Seq::empty()
    } else if tables[0].0 == mode {
        tables[0].1
    } else {
        table_for(tables.skip(1), mode)
    }
}

/// A prefix holding no table for `mode` can be skipped without changing
/// the lookup's result.
proof fn lemma_table_for_skip(tables: Seq<(Mode, Seq<BindingView>)>, mode: Mode, k: int)
    requires
        0 <= k <= tables.len(),
        forall|j: int| 0 <= j < k ==> tables[j].0 != mode,
    ensures
        table_for(tables, mode) == table_for(tables.skip(k), mode),
    decreases k,
{
    if k > 0 {
        lemma_table_for_skip(tables.skip(1), mode, k - 1);
        assert(tables.skip(1).skip(k - 1) =~= tables.skip(k));
    } else {
        assert(tables.skip(0) =~= tables);
    }
}

/// Whether every binding of the table carries at least one action, as the
/// host promises.
pub open spec fn table_wf(table: Seq<BindingView>) -> bool {
    forall|i: int| 0 <= i < table.len() ==> table[i].actions.len() > 0
}

/// Whether a binding's first action switches modes, as a predicate on
/// spec-level bindings.
pub open spec fn switch_pred() -> spec_fn(BindingView) -> bool {
    |b: BindingView| is_mode_switch(b.actions[0])
}

/// The complement of `switch_pred`.
pub open spec fn regular_pred() -> spec_fn(BindingView) -> bool {
    |b: BindingView| !is_mode_switch(b.actions[0])
}

/// The bindings whose first action switches modes, in table order.
pub open spec fn mode_switch_entries(table: Seq<BindingView>) -> Seq<BindingView> {
    table.filter(switch_pred())
}

/// The bindings whose first action does anything else, in table order.
pub open spec fn regular_entries(table: Seq<BindingView>) -> Seq<BindingView> {
    table.filter(regular_pred())
}

/// One display line: the key-chord painted in `color`, a separator, then
/// the label of the binding's first action.
pub open spec fn line_label(color: u8, binding: BindingView) -> Seq<char> {
    bold_colored(color, binding.key) + ": "@ + action_label(binding.actions[0])
}

/// The display line of each binding, in order, all painted in `color`.
pub open spec fn line_labels(color: u8, bindings: Seq<BindingView>) -> Seq<Seq<char>> {
    bindings.map_values(|b: BindingView| line_label(color, b))
}

/// The character sequences of a sequence of strings.
pub open spec fn string_views(lines: Seq<String>) -> Seq<Seq<char>> {
    lines.map_values(|l: String| l@)
}

/// Every display line of a snapshot: the active mode's mode-switch bindings
/// in the primary accent colour, then its regular bindings in the secondary
/// accent colour.
pub open spec fn rendered_lines(snapshot: SnapshotView) -> Seq<Seq<char>> {
    let table = table_for(snapshot.tables, snapshot.mode);
    line_labels(ORANGE, mode_switch_entries(table)) + line_labels(CYAN, regular_entries(table))
}

/// Appending a binding appends its line.
proof fn lemma_line_labels_push(color: u8, bindings: Seq<BindingView>, x: BindingView)
    ensures
        line_labels(color, bindings.push(x)) =~= line_labels(color, bindings).push(
            line_label(color, x),
        ),
{
}

/// Appending a string appends its characters.
proof fn lemma_string_views_push(lines: Seq<String>, x: String)
    ensures
        string_views(lines.push(x)) =~= string_views(lines).push(x@),
{
}

impl ModeSnapshot {
    /// The keybinding table listed for the given mode, if any is.
    pub fn keybinds_for_mode(&self, mode: Mode) -> (t: Option<&KeyBindingTable>)
        ensures
            match t {
                Some(table) => table@ == table_for(self@.tables, mode),
                None => table_for(self@.tables, mode) == Seq::<BindingView>::empty(),
            },
    {
        let mut i: usize = 0;
        while i < self.tables.len()
            invariant
                i <= self.tables.len(),
                forall|j: int| 0 <= j < i ==> self@.tables[j].0 != mode,
            decreases self.tables.len() - i,
        {
            let p = &self.tables[i];
            if p.0 == mode {
                proof {
                    lemma_table_for_skip(self@.tables, mode, i as int);
                }
                return Some(&p.1);
            }
            i += 1;
        }
        proof {
            lemma_table_for_skip(self@.tables, mode, self.tables@.len() as int);
            assert(self@.tables.skip(self.tables@.len() as int) =~= Seq::<(
                Mode,
                Seq<BindingView>,
            )>::empty());
        }
        None
    }
}

/// Whether every binding of the table carries at least one action.
pub fn check_table_wf(table: &KeyBindingTable) -> (r: bool)
    ensures
        r == table_wf(table@),
{
    let mut i: usize = 0;
    while i < table.entries.len()
        invariant
            i <= table.entries.len(),
            forall|j: int| 0 <= j < i ==> table@[j].actions.len() > 0,
        decreases table.entries.len() - i,
    {
        if table.entries[i].actions.len() == 0 {
            proof {
                assert(table@[i as int].actions.len() == 0);
            }
            return false;
        }
        i += 1;
    }
    true
}

/// One display line: the key-chord styled for `role`, a separator, then
/// the label of the binding's first action.
pub fn styled_line(role: StyleRole, key: &String, first: ActionDescriptor) -> (r: String)
    ensures
        r@ == bold_colored(role_color(role), key@) + ": "@ + action_label(first),
{
    let mut line = style(key.as_str(), role);
    line.append(": ");
    let label = action_name(first);
    line.append(label.as_str());
    line
}

/// Appending an element extends a filtered sequence exactly when the
/// element passes the filter.
proof fn lemma_filter_push<A>(s: Seq<A>, pred: spec_fn(A) -> bool, x: A)
    ensures
        s.push(x).filter(pred) == if pred(x) {
            s.filter(pred).push(x)
        } else {
            s.filter(pred)
        },
{
    reveal(Seq::filter);
    assert(s.push(x).drop_last() =~= s);
    assert(s.push(x).last() == x);
}

/// The display lines for the current session state: every mode-switch
/// binding of the active mode's table first, painted in the primary accent
/// colour, then every other binding, painted in the secondary accent
/// colour, each line as `key: label`. The viewport dimensions are received
/// but not used: the full content is always emitted.
pub fn render_lines(state: &SessionState, _rows: usize, _cols: usize) -> (lines: Vec<String>)
    requires
        table_wf(table_for(state@.snapshot.tables, state@.snapshot.mode)),
    ensures
        string_views(lines@) == rendered_lines(state@.snapshot),
{
    let ghost table_spec = table_for(state@.snapshot.tables, state@.snapshot.mode);
    let ghost ms_lines = line_labels(ORANGE, mode_switch_entries(table_spec));
    let mut lines: Vec<String> = Vec::new();
    let table_opt = state.snapshot.keybinds_for_mode(state.snapshot.mode);
    match table_opt {
        None => {
            proof {
                assert(mode_switch_entries(table_spec) =~= Seq::<BindingView>::empty());
                assert(regular_entries(table_spec) =~= Seq::<BindingView>::empty());
                assert(string_views(lines@) =~= rendered_lines(state@.snapshot));
            }
            lines
        },
        Some(table) => {
            let mut i: usize = 0;
            while i < table.entries.len()
                invariant
                    table@ == table_spec,
                    table_wf(table_spec),
                    table.entries@.len() == table_spec.len(),
                    i <= table.entries.len(),
                    string_views(lines@) == line_labels(
                        ORANGE,
                        mode_switch_entries(table_spec.take(i as int)),
                    ),
                decreases table.entries.len() - i,
            {
                let entry = &table.entries[i];
                proof {
                    assert(table@[i as int] == table_spec[i as int]);
                    assert(entry@ == table_spec[i as int]);
                    assert(table_spec[i as int].actions.len() > 0);
                }
                let first = entry.actions[0];
                proof {
                    assert(first == table_spec[i as int].actions[0]);
                    assert(switch_pred()(table_spec[i as int]) == is_mode_switch(first));
                    lemma_filter_push(
                        table_spec.take(i as int),
                        switch_pred(),
                        table_spec[i as int],
                    );
                    assert(table_spec.take(i as int).push(table_spec[i as int]) =~= table_spec.take(
                        i as int + 1,
                    ));
                }
                let ghost lines_pre = lines@;
                if is_mode_switch_action(&first) {
                    let line = styled_line(StyleRole::AccentPrimary, &entry.key, first);
                    lines.push(line);
                    proof {
                        assert(mode_switch_entries(table_spec.take(i as int + 1))
                            == mode_switch_entries(table_spec.take(i as int)).push(
                            table_spec[i as int],
                        ));
                        assert(line@ == line_label(ORANGE, table_spec[i as int]));
                        lemma_string_views_push(lines_pre, line);
                        lemma_line_labels_push(
                            ORANGE,
                            mode_switch_entries(table_spec.take(i as int)),
                            table_spec[i as int],
                        );
                    }
                } else {
                    proof {
                        assert(mode_switch_entries(table_spec.take(i as int + 1))
                            == mode_switch_entries(table_spec.take(i as int)));
                    }
                }
                i += 1;
            }
            proof {
                assert(table_spec.take(table_spec.len() as int) =~= table_spec);
                assert(string_views(lines@) == ms_lines);
            }
            let mut i: usize = 0;
            while i < table.entries.len()
                invariant
                    table@ == table_spec,
                    table_wf(table_spec),
                    table.entries@.len() == table_spec.len(),
                    i <= table.entries.len(),
                    string_views(lines@) == ms_lines + line_labels(
                        CYAN,
                        regular_entries(table_spec.take(i as int)),
                    ),
                decreases table.entries.len() - i,
            {
                let entry = &table.entries[i];
                proof {
                    assert(table@[i as int] == table_spec[i as int]);
                    assert(entry@ == table_spec[i as int]);
                    assert(table_spec[i as int].actions.len() > 0);
                }
                let first = entry.actions[0];
                proof {
                    assert(first == table_spec[i as int].actions[0]);
                    assert(regular_pred()(table_spec[i as int]) == !is_mode_switch(first));
                    lemma_filter_push(
                        table_spec.take(i as int),
                        regular_pred(),
                        table_spec[i as int],
                    );
                    assert(table_spec.take(i as int).push(table_spec[i as int]) =~= table_spec.take(
                        i as int + 1,
                    ));
                }
                let ghost lines_pre = lines@;
                if !is_mode_switch_action(&first) {
                    let line = styled_line(StyleRole::AccentSecondary, &entry.key, first);
                    lines.push(line);
                    proof {
                        assert(regular_entries(table_spec.take(i as int + 1)) == regular_entries(
                            table_spec.take(i as int),
                        ).push(table_spec[i as int]));
                        assert(line@ == line_label(CYAN, table_spec[i as int]));
                        lemma_string_views_push(lines_pre, line);
                        lemma_line_labels_push(
                            CYAN,
                            regular_entries(table_spec.take(i as int)),
                            table_spec[i as int],
                        );
                        assert((ms_lines + line_labels(
                            CYAN,
                            regular_entries(table_spec.take(i as int)),
                        )).push(line@) =~= ms_lines + line_labels(
                            CYAN,
                            regular_entries(table_spec.take(i as int)),
                        ).push(line@));
                    }
                } else {
                    proof {
                        assert(regular_entries(table_spec.take(i as int + 1)) == regular_entries(
                            table_spec.take(i as int),
                        ));
                    }
                }
                i += 1;
            }
            proof {
                assert(table_spec.take(table_spec.len() as int) =~= table_spec);
            }
            lines
        },
    }
}

/// Law: the two groups partition the table. Together they hold exactly the
/// table's entries, and no entry belongs to both groups.
pub proof fn lemma_partition_complete(table: Seq<BindingView>)
    ensures
        mode_switch_entries(table).to_multiset().add(regular_entries(table).to_multiset())
            =~= table.to_multiset(),
        forall|b: BindingView|
            !(mode_switch_entries(table).contains(b) && regular_entries(table).contains(b)),
    decreases table.len(),
{
    broadcast use vstd::seq_lib::group_seq_properties;

    let ms = switch_pred();
    let reg = regular_pred();
    if table.len() == 0 {
        reveal(Seq::filter);
        assert(mode_switch_entries(table).to_multiset().add(
            regular_entries(table).to_multiset(),
        ) =~= table.to_multiset());
    } else {
        let prefix = table.drop_last();
        let x = table.last();
        lemma_partition_complete(prefix);
        lemma_filter_push(prefix, ms, x);
        lemma_filter_push(prefix, reg, x);
        assert(prefix.push(x) =~= table);
        prefix.to_multiset_ensures();
        mode_switch_entries(prefix).to_multiset_ensures();
        regular_entries(prefix).to_multiset_ensures();
        assert(mode_switch_entries(table).to_multiset().add(
            regular_entries(table).to_multiset(),
        ) =~= table.to_multiset());
    }
    assert forall|b: BindingView|
        !(mode_switch_entries(table).contains(b) && regular_entries(table).contains(b)) by {
        if mode_switch_entries(table).contains(b) && regular_entries(table).contains(b) {
            let i = choose|i: int|
                0 <= i < mode_switch_entries(table).len() && mode_switch_entries(table)[i] == b;
            let j = choose|j: int|
                0 <= j < regular_entries(table).len() && regular_entries(table)[j] == b;
            table.lemma_filter_pred(ms, i);
            table.lemma_filter_pred(reg, j);
        }
    }
}

} // verus!
