//! Session state and the event reducer: what the host last reported, and
//! whether an incoming event warrants a re-render.

use vstd::prelude::*;
use crate::labels::{ActionDescriptor, Mode};

verus! {

/// One keybinding: an opaque key-chord identifier bound to an ordered,
/// non-empty sequence of actions. Only the first action in the sequence is
/// significant for display purposes.
pub struct KeyBinding {
    pub key: String,
    pub actions: Vec<ActionDescriptor>,
}

/// Spec-level value of one keybinding.
#[verifier::ext_equal]
pub ghost struct BindingView {
    pub key: Seq<char>,
    pub actions: Seq<ActionDescriptor>,
}

impl View for KeyBinding {
    type V = BindingView;

    open spec fn view(&self) -> BindingView {
        BindingView { key: self.key@, actions: self.actions@ }
    }
}

/// The keybinding table of one mode, in host traversal order.
pub struct KeyBindingTable {
    pub entries: Vec<KeyBinding>,
}

impl View for KeyBindingTable {
    type V = Seq<BindingView>;

    open spec fn view(&self) -> Seq<BindingView> {
        self.entries@.map_values(|b: KeyBinding| b@)
    }
}

/// The full host-reported UI state: the active mode, and a keybinding table
/// per mode, queryable by mode.
pub struct ModeSnapshot {
    pub mode: Mode,
    pub tables: Vec<(Mode, KeyBindingTable)>,
}

/// Spec-level value of a mode snapshot.
#[verifier::ext_equal]
pub ghost struct SnapshotView {
    pub mode: Mode,
    pub tables: Seq<(Mode, Seq<BindingView>)>,
}

impl View for ModeSnapshot {
    type V = SnapshotView;

    open spec fn view(&self) -> SnapshotView {
        SnapshotView {
            mode: self.mode,
            tables: self.tables@.map_values(|p: (Mode, KeyBindingTable)| (p.0, p.1@)),
        }
    }
}

/// One tab as reported by the host; only its display name matters here.
pub struct TabRecord {
    pub name: String,
}

impl View for TabRecord {
    type V = Seq<char>;

    open spec fn view(&self) -> Seq<char> {
        self.name@
    }
}

/// A host event the reducer reacts to. `Other` stands for every event type
/// this display ignores.
pub enum SessionEvent {
    ModeUpdate(ModeSnapshot),
    TabUpdate(Vec<TabRecord>),
    Other,
}

/// Spec-level value of a host event.
#[verifier::ext_equal]
pub ghost enum EventView {
    ModeUpdate(SnapshotView),
    TabUpdate(Seq<Seq<char>>),
    Other,
}

impl View for SessionEvent {
    type V = EventView;

    open spec fn view(&self) -> EventView {
        match self {
            SessionEvent::ModeUpdate(snapshot) => EventView::ModeUpdate(snapshot@),
            SessionEvent::TabUpdate(records) => EventView::TabUpdate(
                records@.map_values(|t: TabRecord| t@),
            ),
            SessionEvent::Other => EventView::Other,
        }
    }
}

/// The process-local record of the most recent mode and tab snapshots,
/// mutated exclusively by `update`.
pub struct SessionState {
    pub snapshot: ModeSnapshot,
    pub tabs: Vec<String>,
    pub events_seen: u64,
    pub configuration: Vec<(String, String)>,
}

/// Spec-level value of the session state.
#[verifier::ext_equal]
pub ghost struct SessionView {
    pub snapshot: SnapshotView,
    pub tabs: Seq<Seq<char>>,
    pub events_seen: u64,
    pub configuration: Seq<(Seq<char>, Seq<char>)>,
}

impl View for SessionState {
    type V = SessionView;

    open spec fn view(&self) -> SessionView {
        SessionView {
            snapshot: self.snapshot@,
            tabs: self.tabs@.map_values(|s: String| s@),
            events_seen: self.events_seen,
            configuration: self.configuration@.map_values(
                |p: (String, String)| (p.0@, p.1@),
            ),
        }
    }
}

/// The state before any event has arrived: Normal mode, no tables, no tabs,
/// with the load-time configuration stored verbatim.
pub open spec fn initial_session(config: Seq<(Seq<char>, Seq<char>)>) -> SessionView {
    SessionView {
        snapshot: SnapshotView { mode: Mode::Normal, tables: Seq::empty() },
        tabs: Seq::empty(),
        events_seen: 0,
        configuration: config,
    }
}

/// The diagnostic event counter after one more event; it sticks at the top
/// of its range rather than wrapping.
pub open spec fn bumped(count: u64) -> u64 {
    if count == u64::MAX {
        count
    } else {
        (count + 1) as u64
    }
}

/// The event reducer, as a mathematical function: the state after an event,
/// and whether that event warrants a re-render. A mode update renders only
/// when the snapshot changed; a tab update always renders, even when the
/// names did not change; any other event is ignored.
pub open spec fn spec_update(s: SessionView, e: EventView) -> (SessionView, bool) {
    match e {
        EventView::ModeUpdate(snapshot) => (
            SessionView { snapshot, events_seen: bumped(s.events_seen), ..s },
            s.snapshot != snapshot,
        ),
        EventView::TabUpdate(names) => (
            SessionView { tabs: names, events_seen: bumped(s.events_seen), ..s },
            true,
        ),
        EventView::Other => (
            SessionView { events_seen: bumped(s.events_seen), ..s },
            false,
        ),
    }
}

/// Whether two action sequences hold the same actions in the same order.
pub fn actions_eq(a: &Vec<ActionDescriptor>, b: &Vec<ActionDescriptor>) -> (r: bool)
    ensures
        r == (a@ == b@),
{
    if a.len() != b.len() {
        return false;
    }
    let mut i: usize = 0;
    while i < a.len()
        invariant
            i <= a.len(),
            a@.len() == b@.len(),
            forall|j: int| 0 <= j < i ==> a@[j] == b@[j],
        decreases a.len() - i,
    {
        if a[i] != b[i] {
            return false;
        }
        i += 1;
    }
    proof {
        assert(a@ =~= b@);
    }
    true
}

/// Whether two keybinding tables hold the same bindings in the same order.
pub fn table_eq(a: &KeyBindingTable, b: &KeyBindingTable) -> (r: bool)
    ensures
        r == (a@ == b@),
{
    if a.entries.len() != b.entries.len() {
        proof {
            assert(a@.len() != b@.len());
        }
        return false;
    }
    let mut i: usize = 0;
    while i < a.entries.len()
        invariant
            i <= a.entries.len(),
            a.entries@.len() == b.entries@.len(),
            forall|j: int| 0 <= j < i ==> a@[j] == b@[j],
        decreases a.entries.len() - i,
    {
        let ka = &a.entries[i];
        let kb = &b.entries[i];
        if !(ka.key == kb.key) {
            proof {
                assert(a@[i as int].key != b@[i as int].key);
            }
            return false;
        }
        if !actions_eq(&ka.actions, &kb.actions) {
            proof {
                assert(a@[i as int].actions != b@[i as int].actions);
            }
            return false;
        }
        proof {
            assert(a@[i as int] =~= b@[i as int]);
        }
        i += 1;
    }
    proof {
        assert(a@ =~= b@);
    }
    true
}

/// Whether two mode snapshots are equal, all fields compared by value.
pub fn snapshot_eq(a: &ModeSnapshot, b: &ModeSnapshot) -> (r: bool)
    ensures
        r == (a@ == b@),
{
    if a.mode != b.mode {
        return false;
    }
    if a.tables.len() != b.tables.len() {
        proof {
            assert(a@.tables.len() != b@.tables.len());
        }
        return false;
    }
    let mut i: usize = 0;
    while i < a.tables.len()
        invariant
            a.mode == b.mode,
            i <= a.tables.len(),
            a.tables@.len() == b.tables@.len(),
            forall|j: int| 0 <= j < i ==> a@.tables[j] == b@.tables[j],
        decreases a.tables.len() - i,
    {
        let pa = &a.tables[i];
        let pb = &b.tables[i];
        if pa.0 != pb.0 {
            proof {
                assert(a@.tables[i as int].0 != b@.tables[i as int].0);
            }
            return false;
        }
        if !table_eq(&pa.1, &pb.1) {
            proof {
                assert(a@.tables[i as int].1 != b@.tables[i as int].1);
            }
            return false;
        }
        proof {
            assert(a@.tables[i as int] == b@.tables[i as int]);
        }
        i += 1;
    }
    proof {
        assert(a@.tables =~= b@.tables);
        assert(a@ =~= b@);
    }
    true
}

impl SessionState {
    /// Create the session state at process start, holding the load-time
    /// configuration verbatim and no host data yet.
    pub fn new(configuration: Vec<(String, String)>) -> (s: SessionState)
        ensures
            s@ == initial_session(configuration@.map_values(|p: (String, String)| (p.0@, p.1@))),
    {
        let s = SessionState {
            snapshot: ModeSnapshot { mode: Mode::Normal, tables: Vec::new() },
            tabs: Vec::new(),
            events_seen: 0,
            configuration,
        };
        proof {
            assert(s@ =~= initial_session(s.configuration@.map_values(
                |p: (String, String)| (p.0@, p.1@),
            )));
        }
        s
    }

    /// The event reducer: apply one host event and report whether a
    /// re-render is warranted. Behaves exactly as `spec_update` says.
    pub fn update(&mut self, event: SessionEvent) -> (should_render: bool)
        ensures
            final(self)@ == spec_update(old(self)@, event@).0,
            should_render == spec_update(old(self)@, event@).1,
    {
        let should_render: bool;
        match event {
            SessionEvent::ModeUpdate(snapshot) => {
                should_render = !snapshot_eq(&self.snapshot, &snapshot);
                self.snapshot = snapshot;
            },
            SessionEvent::TabUpdate(records) => {
                let mut names: Vec<String> = Vec::new();
                let mut i: usize = 0;
                while i < records.len()
                    invariant
                        i <= records.len(),
                        names@.len() == i,
                        forall|j: int| 0 <= j < i ==> names@[j]@ == records@[j]@,
                    decreases records.len() - i,
                {
                    names.push(records[i].name.clone());
                    i += 1;
                }
                self.tabs = names;
                should_render = true;
                proof {
                    assert(self.tabs@.map_values(|s: String| s@) =~= records@.map_values(
                        |t: TabRecord| t@,
                    ));
                }
            },
            SessionEvent::Other => {
                should_render = false;
            },
        }
        if self.events_seen < u64::MAX {
            self.events_seen = self.events_seen + 1;
        }
        proof {
            assert(self@ =~= spec_update(old(self)@, event@).0);
        }
        should_render
    }
}

/// Law: duplicate mode snapshots are absorbed. The first delivery renders
/// exactly when the snapshot differs from the stored one; delivering the
/// same snapshot again never renders.
pub proof fn lemma_mode_update_dedups(s: SessionView, snapshot: SnapshotView)
    ensures
        ({
            let (s1, r1) = spec_update(s, EventView::ModeUpdate(snapshot));
            let (s2, r2) = spec_update(s1, EventView::ModeUpdate(snapshot));
            &&& r1 == (s.snapshot != snapshot)
            &&& r2 == false
        }),
{
}

/// Law: tab updates always render, by design. Delivering the same tab name
/// list twice renders both times, and the names are stored wholesale.
pub proof fn lemma_tab_update_always_renders(s: SessionView, names: Seq<Seq<char>>)
    ensures
        ({
            let (s1, r1) = spec_update(s, EventView::TabUpdate(names));
            let (s2, r2) = spec_update(s1, EventView::TabUpdate(names));
            &&& r1 == true
            &&& r2 == true
            &&& s2.tabs == names
        }),
{
}

} // verus!
