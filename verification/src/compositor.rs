//! Generic compositor workspace driver: a two-phase binary object
//! protocol. A workspace handle is announced first and then accumulates
//! properties as discrete events in a *pending* record; it is committed —
//! made visible to the consumer — exactly when name, state flags and
//! capability flags have each been observed. A removal while still
//! pending discards the record without ever committing it; a removal
//! after commit deletes the visible workspace, and removals for unknown
//! handles are defensive no-ops. State and capability payloads arrive as
//! bitsets decoded once at the protocol boundary; a bitset with unknown
//! bits is dropped and the prior state retained.

use vstd::prelude::*;

verus! {

use vstd::string::StringExecFns;
use crate::assoc::IdMap;

// ---------------------------------------------------------------------------
// Bitset decoding.
// ---------------------------------------------------------------------------
/// The decoded per-workspace state flags.
#[derive(PartialEq, Eq, Structural, Clone, Copy, Debug)]
pub struct WorkspaceState {
    pub active: bool,
    pub urgent: bool,
    pub hidden: bool,
}

/// The decoded per-workspace capability flags; only `activate` makes a
/// workspace clickable.
#[derive(PartialEq, Eq, Structural, Clone, Copy, Debug)]
pub struct WorkspaceCapabilities {
    pub activate: bool,
    pub deactivate: bool,
    pub remove: bool,
    pub assign: bool,
}

/// The protocol's state bitset: active = 1, urgent = 2, hidden = 4; any
/// other bit makes the payload undecodable.
pub open spec fn spec_state_from_bits(bits: u32) -> Option<WorkspaceState> {
    if bits & 0xfffffff8u32 != 0u32 {
        None
    } else {
        Some(
            WorkspaceState {
                active: bits & 1u32 != 0u32,
                urgent: bits & 2u32 != 0u32,
                hidden: bits & 4u32 != 0u32,
            },
        )
    }
}

/// The protocol's capability bitset: activate = 1, deactivate = 2,
/// remove = 4, assign = 8; any other bit makes the payload undecodable.
pub open spec fn spec_caps_from_bits(bits: u32) -> Option<WorkspaceCapabilities> {
    if bits & 0xfffffff0u32 != 0u32 {
        None
    } else {
        Some(
            WorkspaceCapabilities {
                activate: bits & 1u32 != 0u32,
                deactivate: bits & 2u32 != 0u32,
                remove: bits & 4u32 != 0u32,
                assign: bits & 8u32 != 0u32,
            },
        )
    }
}

/// Decode a state bitset.
pub fn workspace_state_from_bits(bits: u32) -> (r: Option<WorkspaceState>)
    ensures
        r == spec_state_from_bits(bits),
{
    if bits & 0xfffffff8u32 != 0u32 {
        None
    } else {
        Some(
            WorkspaceState {
                active: bits & 1u32 != 0u32,
                urgent: bits & 2u32 != 0u32,
                hidden: bits & 4u32 != 0u32,
            },
        )
    }
}

/// Decode a capability bitset.
pub fn workspace_caps_from_bits(bits: u32) -> (r: Option<WorkspaceCapabilities>)
    ensures
        r == spec_caps_from_bits(bits),
{
    if bits & 0xfffffff0u32 != 0u32 {
        None
    } else {
        Some(
            WorkspaceCapabilities {
                activate: bits & 1u32 != 0u32,
                deactivate: bits & 2u32 != 0u32,
                remove: bits & 4u32 != 0u32,
                assign: bits & 8u32 != 0u32,
            },
        )
    }
}

// ---------------------------------------------------------------------------
// Events and records.
// ---------------------------------------------------------------------------
/// One event for a workspace handle, with bitsets still raw: they are
/// decoded here, once, at the protocol boundary.
pub enum WorkspaceEvent {
    Id(String),
    Name(String),
    Coordinates(Vec<u8>),
    State(u32),
    Capabilities(u32),
    Removed,
}

/// A partially filled record, keyed by its handle, accumulating fields
/// from successive events.
pub struct PendingWorkspace {
    pub id: Option<String>,
    pub name: Option<String>,
    pub coordinates: Option<Vec<u8>>,
    pub state: Option<WorkspaceState>,
    pub capabilities: Option<WorkspaceCapabilities>,
}

/// A committed workspace: by construction it carries a name, state flags
/// and capability flags; id and coordinates stay optional and never gate
/// the commit.
pub struct Workspace {
    pub id: Option<String>,
    pub name: String,
    pub coordinates: Option<Vec<u8>>,
    pub state: WorkspaceState,
    pub capabilities: WorkspaceCapabilities,
}

/// The record a freshly announced handle starts from.
pub open spec fn empty_pending() -> PendingWorkspace {
    PendingWorkspace { id: None, name: None, coordinates: None, state: None, capabilities: None }
}

impl PendingWorkspace {
    /// The promotion rule: a pending record commits exactly when name,
    /// state and capabilities have each been observed at least once.
    pub open spec fn complete(self) -> bool {
        self.name is Some && self.state is Some && self.capabilities is Some
    }
}

/// How one event transforms a pending record: the matching field is
/// overwritten; an undecodable bitset leaves the record as it was; a
/// removal is handled by the caller, never here.
pub open spec fn pending_after(p: PendingWorkspace, e: WorkspaceEvent) -> PendingWorkspace {
    match e {
        WorkspaceEvent::Id(s) => PendingWorkspace { id: Some(s), ..p },
        WorkspaceEvent::Name(s) => PendingWorkspace { name: Some(s), ..p },
        WorkspaceEvent::Coordinates(c) => PendingWorkspace { coordinates: Some(c), ..p },
        WorkspaceEvent::State(bits) => match spec_state_from_bits(bits) {
            Some(st) => PendingWorkspace { state: Some(st), ..p },
            None => p,
        },
        WorkspaceEvent::Capabilities(bits) => match spec_caps_from_bits(bits) {
            Some(c) => PendingWorkspace { capabilities: Some(c), ..p },
            None => p,
        },
        WorkspaceEvent::Removed => p,
    }
}

/// The workspace a complete pending record commits to.
pub open spec fn commit_of(p: PendingWorkspace) -> Workspace {
    Workspace {
        id: p.id,
        name: p.name->0,
        coordinates: p.coordinates,
        state: p.state->0,
        capabilities: p.capabilities->0,
    }
}

/// How one event updates an already committed workspace in place (a
/// removal is handled by the caller, never here).
pub open spec fn committed_after(w: Workspace, e: WorkspaceEvent) -> Workspace {
    match e {
        WorkspaceEvent::Id(s) => Workspace { id: Some(s), ..w },
        WorkspaceEvent::Name(s) => Workspace { name: s, ..w },
        WorkspaceEvent::Coordinates(c) => Workspace { coordinates: Some(c), ..w },
        WorkspaceEvent::State(bits) => match spec_state_from_bits(bits) {
            Some(st) => Workspace { state: st, ..w },
            None => w,
        },
        WorkspaceEvent::Capabilities(bits) => match spec_caps_from_bits(bits) {
            Some(c) => Workspace { capabilities: c, ..w },
            None => w,
        },
        WorkspaceEvent::Removed => w,
    }
}

/// Apply one event to a pending record.
fn step_pending(p: PendingWorkspace, e: WorkspaceEvent) -> (r: PendingWorkspace)
    ensures
        r == pending_after(p, e),
{
    match e {
        WorkspaceEvent::Id(s) => PendingWorkspace { id: Some(s), ..p },
        WorkspaceEvent::Name(s) => PendingWorkspace { name: Some(s), ..p },
        WorkspaceEvent::Coordinates(c) => PendingWorkspace { coordinates: Some(c), ..p },
        WorkspaceEvent::State(bits) => match workspace_state_from_bits(bits) {
            Some(st) => PendingWorkspace { state: Some(st), ..p },
            None => p,
        },
        WorkspaceEvent::Capabilities(bits) => match workspace_caps_from_bits(bits) {
            Some(c) => PendingWorkspace { capabilities: Some(c), ..p },
            None => p,
        },
        WorkspaceEvent::Removed => p,
    }
}

/// Apply one event to a committed workspace.
fn step_committed(w: Workspace, e: WorkspaceEvent) -> (r: Workspace)
    ensures
        r == committed_after(w, e),
{
    match e {
        WorkspaceEvent::Id(s) => Workspace { id: Some(s), ..w },
        WorkspaceEvent::Name(s) => Workspace { name: s, ..w },
        WorkspaceEvent::Coordinates(c) => Workspace { coordinates: Some(c), ..w },
        WorkspaceEvent::State(bits) => match workspace_state_from_bits(bits) {
            Some(st) => Workspace { state: st, ..w },
            None => w,
        },
        WorkspaceEvent::Capabilities(bits) => match workspace_caps_from_bits(bits) {
            Some(c) => Workspace { capabilities: c, ..w },
            None => w,
        },
        WorkspaceEvent::Removed => w,
    }
}

/// One update forwarded from the protocol thread to the widget's context
/// over the unbounded channel, applied there in arrival order.
pub enum Update {
    NewWorkspace { handle: u64, workspace: Workspace },
    WorkspaceEvent { handle: u64, event: WorkspaceEvent },
    Error(String),
}

// ---------------------------------------------------------------------------
// Protocol-thread state: pending records.
// ---------------------------------------------------------------------------
/// The dispatch-loop state: pending records keyed by handle. Committed
/// workspaces live on the widget side ([`Workspaces`]); this side only
/// assembles and forwards.
pub struct ProtocolState {
    pub pending_workspaces: IdMap<PendingWorkspace>,
}

impl ProtocolState {
    /// The pending store is a well-formed map, and no stored record is
    /// already complete: a record that completes is committed and removed
    /// at once, so it never sits here.
    pub open spec fn wf(self) -> bool {
        &&& self.pending_workspaces.wf()
        &&& forall|h: u64|
            #[trigger] self.pending_workspaces@.contains_key(h)
                ==> !self.pending_workspaces@[h].complete()
    }

    pub fn new() -> (r: ProtocolState)
        ensures
            r.wf(),
            r.pending_workspaces@ == Map::<u64, PendingWorkspace>::empty(),
    {
        ProtocolState { pending_workspaces: IdMap::new() }
    }

    /// The manager announced a workspace object: it begins pending, with
    /// no fields observed.
    pub fn announce_workspace(&mut self, handle: u64)
        requires
            old(self).wf(),
        ensures
            final(self).wf(),
            final(self).pending_workspaces@ == old(self).pending_workspaces@.insert(
                handle,
                empty_pending(),
            ),
    {
        self.pending_workspaces.insert(
            handle,
            PendingWorkspace {
                id: None,
                name: None,
                coordinates: None,
                state: None,
                capabilities: None,
            },
        );
    }

    /// An event arrived for `handle`. While the handle is pending, the
    /// event lands in its record: a removal discards the record without
    /// committing it, and the record is committed (removed here, emitted
    /// as a new workspace) exactly when it becomes complete. For a handle
    /// not pending, the event is forwarded untouched to the widget side.
    pub fn handle_event(&mut self, handle: u64, event: WorkspaceEvent) -> (r: Option<Update>)
        requires
            old(self).wf(),
        ensures
            final(self).wf(),
            old(self).pending_workspaces@.contains_key(handle) ==> {
                let p2 = pending_after(old(self).pending_workspaces@[handle], event);
                if event is Removed {
                    &&& final(self).pending_workspaces@ == old(self).pending_workspaces@.remove(
                        handle,
                    )
                    &&& r is None
                } else if p2.complete() {
                    &&& final(self).pending_workspaces@ == old(self).pending_workspaces@.remove(
                        handle,
                    )
                    &&& r == Some(Update::NewWorkspace { handle, workspace: commit_of(p2) })
                } else {
                    &&& final(self).pending_workspaces@ == old(self).pending_workspaces@.insert(
                        handle,
                        p2,
                    )
                    &&& r is None
                }
            },
            !old(self).pending_workspaces@.contains_key(handle) ==> {
                &&& final(self).pending_workspaces@ == old(self).pending_workspaces@
                &&& r == Some(Update::WorkspaceEvent { handle, event })
            },
    {
        match self.pending_workspaces.remove(handle) {
            Some(p) => {
                match event {
                    WorkspaceEvent::Removed => {
                        return None;
                    },
                    _ => {},
                }
                let p2 = step_pending(p, event);
                if p2.name.is_some() && p2.state.is_some() && p2.capabilities.is_some() {
                    let workspace = Workspace {
                        id: p2.id,
                        name: p2.name.unwrap(),
                        coordinates: p2.coordinates,
                        state: p2.state.unwrap(),
                        capabilities: p2.capabilities.unwrap(),
                    };
                    Some(Update::NewWorkspace { handle, workspace })
                } else {
                    self.pending_workspaces.insert(handle, p2);
                    proof {
                        assert(final(self).pending_workspaces@ =~= old(
                            self,
                        ).pending_workspaces@.insert(
                            handle,
                            pending_after(old(self).pending_workspaces@[handle], event),
                        ));
                    }
                    None
                }
            },
            None => {
                proof {
                    assert(old(self).pending_workspaces@.remove(handle) =~= old(
                        self,
                    ).pending_workspaces@);
                }
                Some(Update::WorkspaceEvent { handle, event })
            },
        }
    }
}

// ---------------------------------------------------------------------------
// Widget-side state: the visible workspaces.
// ---------------------------------------------------------------------------
/// Snapshot of the committed, consumer-visible workspaces.
pub struct Workspaces {
    pub error_message: Option<String>,
    pub workspaces: IdMap<Workspace>,
}

impl Workspaces {
    pub open spec fn wf(self) -> bool {
        self.workspaces.wf()
    }

    pub fn new() -> (r: Workspaces)
        ensures
            r.wf(),
            r.error_message is None,
            r.workspaces@ == Map::<u64, Workspace>::empty(),
    {
        Workspaces { error_message: None, workspaces: IdMap::new() }
    }

    /// Apply one forwarded update. A new workspace becomes visible; an
    /// event for a visible workspace updates it in place, or removes it
    /// on a removal; an event for an unknown handle — including a second
    /// removal — is a logged no-op, never an error.
    pub fn apply_update(&mut self, u: Update) -> (known: bool)
        requires
            old(self).wf(),
        ensures
            final(self).wf(),
            (u matches Update::NewWorkspace { handle, workspace } ==> {
                &&& final(self).workspaces@ == old(self).workspaces@.insert(handle, workspace)
                &&& final(self).error_message == old(self).error_message
                &&& known
            }),
            (u matches Update::WorkspaceEvent { handle, event } ==> {
                &&& final(self).error_message == old(self).error_message
                &&& known == old(self).workspaces@.contains_key(handle)
                &&& if !old(self).workspaces@.contains_key(handle) {
                    final(self).workspaces@ == old(self).workspaces@
                } else if event is Removed {
                    final(self).workspaces@ == old(self).workspaces@.remove(handle)
                } else {
                    final(self).workspaces@ == old(self).workspaces@.insert(
                        handle,
                        committed_after(old(self).workspaces@[handle], event),
                    )
                }
            }),
            (u matches Update::Error(e) ==> {
                &&& final(self).workspaces@ == old(self).workspaces@
                &&& final(self).error_message == Some(e)
                &&& known
            }),
    {
        match u {
            Update::NewWorkspace { handle, workspace } => {
                self.workspaces.insert(handle, workspace);
                true
            },
            Update::WorkspaceEvent { handle, event } => {
                match self.workspaces.remove(handle) {
                    None => {
                        proof {
                            assert(old(self).workspaces@.remove(handle) =~= old(
                                self,
                            ).workspaces@);
                        }
                        false
                    },
                    Some(w) => {
                        match event {
                            WorkspaceEvent::Removed => {},
                            _ => {
                                let w2 = step_committed(w, event);
                                self.workspaces.insert(handle, w2);
                                proof {
                                    assert(final(self).workspaces@ =~= old(
                                        self,
                                    ).workspaces@.insert(
                                        handle,
                                        committed_after(old(self).workspaces@[handle], event),
                                    ));
                                }
                            },
                        }
                        true
                    },
                }
            },
            Update::Error(e) => {
                self.error_message = Some(e);
                true
            },
        }
    }
}

// ---------------------------------------------------------------------------
// Rendering decisions.
// ---------------------------------------------------------------------------
/// The visual precedence when several flags could apply: urgent wins over
/// active, anything else is neutral.
#[derive(PartialEq, Eq, Structural, Clone, Copy, Debug)]
pub enum WorkspaceStyle {
    Urgent,
    Active,
    Neutral,
}

/// What [`workspace_style`] returns, as a function of the flags.
pub open spec fn spec_workspace_style(st: WorkspaceState) -> WorkspaceStyle {
    if st.urgent {
        WorkspaceStyle::Urgent
    } else if st.active {
        WorkspaceStyle::Active
    } else {
        WorkspaceStyle::Neutral
    }
}

/// Decide a workspace's visual style.
pub fn workspace_style(st: &WorkspaceState) -> (r: WorkspaceStyle)
    ensures
        r == spec_workspace_style(*st),
{
    if st.urgent {
        WorkspaceStyle::Urgent
    } else if st.active {
        WorkspaceStyle::Active
    } else {
        WorkspaceStyle::Neutral
    }
}

/// Only a workspace with the activate capability is made clickable; a
/// click issues a fire-and-forget activation request.
pub fn is_clickable(w: &Workspace) -> (r: bool)
    ensures
        r == w.capabilities.activate,
{
    w.capabilities.activate
}

/// The text a workspace is rendered with: the active one is decorated as
/// ` > name < `, any other shows its bare name.
pub fn display_name(w: &Workspace) -> (r: String)
    ensures
        w.state.active ==> r@ == " > "@ + w.name@ + " < "@,
        !w.state.active ==> r@ == w.name@,
{
    if w.state.active {
        let mut s = String::from_str(" > ");
        s.append(w.name.as_str());
        s.append(" < ");
        s
    } else {
        w.name.clone()
    }
}

// ---------------------------------------------------------------------------
// The combined driver and its laws.
// ---------------------------------------------------------------------------
/// One event as the dispatch loop sees it: the manager announcing a new
/// workspace object, or an event for an already announced handle.
pub enum DriverEvent {
    Announce { handle: u64 },
    Handle { handle: u64, event: WorkspaceEvent },
}

/// The two maps the driver maintains across both sides of the channel.
pub struct CompositorModel {
    pub pending: Map<u64, PendingWorkspace>,
    pub committed: Map<u64, Workspace>,
}

/// The model a fresh driver starts from.
pub open spec fn initial_model() -> CompositorModel {
    CompositorModel {
        pending: Map::<u64, PendingWorkspace>::empty(),
        committed: Map::<u64, Workspace>::empty(),
    }
}

/// How one driver event transforms the combined state: exactly the
/// composition of [`ProtocolState::handle_event`] with
/// [`Workspaces::apply_update`] on whatever it emits (the channel hands
/// updates over in arrival order).
pub open spec fn model_step(s: CompositorModel, e: DriverEvent) -> CompositorModel {
    match e {
        DriverEvent::Announce { handle } => CompositorModel {
            pending: s.pending.insert(handle, empty_pending()),
            committed: s.committed,
        },
        DriverEvent::Handle { handle, event } => {
            if s.pending.contains_key(handle) {
                if event is Removed {
                    CompositorModel { pending: s.pending.remove(handle), committed: s.committed }
                } else {
                    let p2 = pending_after(s.pending[handle], event);
                    if p2.complete() {
                        CompositorModel {
                            pending: s.pending.remove(handle),
                            committed: s.committed.insert(handle, commit_of(p2)),
                        }
                    } else {
                        CompositorModel {
                            pending: s.pending.insert(handle, p2),
                            committed: s.committed,
                        }
                    }
                }
            } else {
                if !s.committed.contains_key(handle) {
                    s
                } else if event is Removed {
                    CompositorModel { pending: s.pending, committed: s.committed.remove(handle) }
                } else {
                    CompositorModel {
                        pending: s.pending,
                        committed: s.committed.insert(
                            handle,
                            committed_after(s.committed[handle], event),
                        ),
                    }
                }
            }
        },
    }
}

/// An event sequence folded over a model.
pub open spec fn model_run(s: CompositorModel, es: Seq<DriverEvent>) -> CompositorModel
    decreases es.len(),
{
    if es.len() == 0 {
        s
    } else {
        model_step(model_run(s, es.drop_last()), es.last())
    }
}

/// Both halves of the driver in one place, for callers that run the
/// dispatch loop and the widget in the same context; its single-step
/// contract *is* [`model_step`].
pub struct CompositorDriver {
    pub protocol: ProtocolState,
    pub view: Workspaces,
}

impl CompositorDriver {
    /// The combined state the driver is at.
    pub open spec fn model(self) -> CompositorModel {
        CompositorModel { pending: self.protocol.pending_workspaces@, committed: self.view.workspaces@ }
    }

    pub open spec fn wf(self) -> bool {
        self.protocol.wf() && self.view.wf()
    }

    pub fn new() -> (r: CompositorDriver)
        ensures
            r.wf(),
            r.model() == initial_model(),
            r.view.error_message is None,
    {
        CompositorDriver { protocol: ProtocolState::new(), view: Workspaces::new() }
    }

    /// Process one driver event end to end.
    pub fn dispatch(&mut self, e: DriverEvent)
        requires
            old(self).wf(),
        ensures
            final(self).wf(),
            final(self).model() == model_step(old(self).model(), e),
            final(self).view.error_message == old(self).view.error_message,
    {
        match e {
            DriverEvent::Announce { handle } => {
                self.protocol.announce_workspace(handle);
            },
            DriverEvent::Handle { handle, event } => {
                match self.protocol.handle_event(handle, event) {
                    Some(u) => {
                        self.view.apply_update(u);
                    },
                    None => {},
                }
            },
        }
    }

    /// A terminal transport failure: one error update, rendered from
    /// then on.
    pub fn set_error(&mut self, e: String)
        requires
            old(self).wf(),
        ensures
            final(self).wf(),
            final(self).model() == old(self).model(),
            final(self).view.error_message == Some(e),
    {
        self.view.apply_update(Update::Error(e));
    }
}

// ---------------------------------------------------------------------------
// Laws.
// ---------------------------------------------------------------------------
/// `e` observes a name for handle `h`.
pub open spec fn observes_name(e: DriverEvent, h: u64) -> bool {
    e matches DriverEvent::Handle { handle, event: WorkspaceEvent::Name(_) } && handle == h
}

/// `e` observes a decodable state bitset for handle `h`.
pub open spec fn observes_state(e: DriverEvent, h: u64) -> bool {
    e matches DriverEvent::Handle { handle, event: WorkspaceEvent::State(bits) } && handle == h
        && spec_state_from_bits(bits) is Some
}

/// `e` observes a decodable capability bitset for handle `h`.
pub open spec fn observes_caps(e: DriverEvent, h: u64) -> bool {
    e matches DriverEvent::Handle { handle, event: WorkspaceEvent::Capabilities(bits) } && handle
        == h && spec_caps_from_bits(bits) is Some
}

/// `e` announces handle `h`.
pub open spec fn announces(e: DriverEvent, h: u64) -> bool {
    e matches DriverEvent::Announce { handle } && handle == h
}

pub open spec fn seen_name(es: Seq<DriverEvent>, h: u64) -> bool {
    exists|i: int| 0 <= i < es.len() && observes_name(#[trigger] es[i], h)
}

pub open spec fn seen_state(es: Seq<DriverEvent>, h: u64) -> bool {
    exists|i: int| 0 <= i < es.len() && observes_state(#[trigger] es[i], h)
}

pub open spec fn seen_caps(es: Seq<DriverEvent>, h: u64) -> bool {
    exists|i: int| 0 <= i < es.len() && observes_caps(#[trigger] es[i], h)
}

/// The inductive invariant behind the no-partial-commit law: whatever a
/// pending record has observed really was observed, and everything
/// committed observed all three gating fields.
proof fn lemma_observation_invariant(es: Seq<DriverEvent>, h: u64)
    ensures
        ({
            let m = model_run(initial_model(), es);
            &&& (m.pending.contains_key(h) ==> {
                &&& (m.pending[h].name is Some ==> seen_name(es, h))
                &&& (m.pending[h].state is Some ==> seen_state(es, h))
                &&& (m.pending[h].capabilities is Some ==> seen_caps(es, h))
            })
            &&& (m.committed.contains_key(h) ==> seen_name(es, h) && seen_state(es, h) && seen_caps(
                es,
                h,
            ))
        }),
    decreases es.len(),
{
    if es.len() == 0 {
    } else {
        let es0 = es.drop_last();
        let e = es.last();
        lemma_observation_invariant(es0, h);
        assert(forall|j: int| 0 <= j < es0.len() ==> es0[j] == es[j]);
        assert(es[es.len() - 1] == e);
        if seen_name(es0, h) {
            let i = choose|i: int| 0 <= i < es0.len() && observes_name(#[trigger] es0[i], h);
            assert(observes_name(es[i], h));
        }
        if seen_state(es0, h) {
            let i = choose|i: int| 0 <= i < es0.len() && observes_state(#[trigger] es0[i], h);
            assert(observes_state(es[i], h));
        }
        if seen_caps(es0, h) {
            let i = choose|i: int| 0 <= i < es0.len() && observes_caps(#[trigger] es0[i], h);
            assert(observes_caps(es[i], h));
        }
    }
}

/// For every event sequence, a workspace is visible to the consumer only
/// after its name, its state flags and its capability flags have each
/// been observed (with a decodable bitset): no partially assembled
/// workspace ever leaks.
pub proof fn lemma_no_partial_commit(es: Seq<DriverEvent>, h: u64)
    ensures
        model_run(initial_model(), es).committed.contains_key(h) ==> seen_name(es, h) && seen_state(
            es,
            h,
        ) && seen_caps(es, h),
{
    lemma_observation_invariant(es, h);
}

/// A handle that is neither pending nor visible stays invisible under any
/// events that do not announce it anew.
proof fn lemma_absent_stays_absent(s: CompositorModel, es: Seq<DriverEvent>, h: u64)
    requires
        !s.pending.contains_key(h),
        !s.committed.contains_key(h),
        forall|i: int| 0 <= i < es.len() ==> !announces(#[trigger] es[i], h),
    ensures
        !model_run(s, es).pending.contains_key(h),
        !model_run(s, es).committed.contains_key(h),
    decreases es.len(),
{
    if es.len() > 0 {
        let es0 = es.drop_last();
        assert(forall|j: int| 0 <= j < es0.len() ==> es0[j] == es[j]);
        lemma_absent_stays_absent(s, es0, h);
        assert(es[es.len() - 1] == es.last());
    }
}

/// A removal for a handle still pending (and not yet visible) commits
/// nothing: the handle never becomes visible under any later events,
/// unless the protocol announces the handle anew.
pub proof fn lemma_removed_while_pending_never_commits(
    s: CompositorModel,
    es: Seq<DriverEvent>,
    h: u64,
)
    requires
        s.pending.contains_key(h),
        !s.committed.contains_key(h),
        forall|i: int| 0 <= i < es.len() ==> !announces(#[trigger] es[i], h),
    ensures
        !model_run(
            model_step(s, DriverEvent::Handle { handle: h, event: WorkspaceEvent::Removed }),
            es,
        ).committed.contains_key(h),
{
    let s2 = model_step(s, DriverEvent::Handle { handle: h, event: WorkspaceEvent::Removed });
    lemma_absent_stays_absent(s2, es, h);
}

} // verus!
