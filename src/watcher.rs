//! The decisions of the content watcher: which filesystem events count as a
//! change, and what a debounced batch of them sets off.
use vstd::prelude::*;
use crate::text::chars_of;

verus! {

/// What happened to a watched path.
pub enum ChangeKind {
    Create,
    Modify,
    Remove,
    /// A change of metadata alone (permissions, times).
    Metadata,
    /// Any other event (an access, or one the platform does not name).
    Other,
}

/// One filesystem event: its kind and the file names (the last component)
/// of the paths it concerns; a path without a readable file name has the
/// empty name.
pub struct FsEvent {
    pub kind: ChangeKind,
    pub file_names: Vec<String>,
}

/// What the watcher does with a debounced batch of events.
pub enum WatchAction {
    /// Nothing: no event in the batch counts.
    Ignore,
    /// Reload the content, then send one reload signal to every subscriber,
    /// whether or not the reload succeeded.
    RefreshThenBroadcast,
}

/// An editor's lock file (`.#` at the start) or backup file (`~` at the end).
pub open spec fn is_temp_name_spec(n: Seq<char>) -> bool {
    (n.len() >= 2 && n[0] == '.' && n[1] == '#') || (n.len() >= 1 && n.last() == '~')
}

/// Creations, modifications and removals count; metadata and other events
/// do not.
pub open spec fn relevant_kind(k: ChangeKind) -> bool {
    match k {
        ChangeKind::Create | ChangeKind::Modify | ChangeKind::Remove => true,
        _ => false,
    }
}

/// An event counts when its kind does and none of its paths names an
/// editor's temporary file.
pub open spec fn event_accepted(e: FsEvent) -> bool {
    relevant_kind(e.kind) && forall|j: int|
        0 <= j < e.file_names@.len() ==> !is_temp_name_spec(#[trigger] e.file_names@[j]@)
}

/// A batch counts when at least one of its events does.
pub open spec fn batch_accepted(events: Seq<FsEvent>) -> bool {
    exists|i: int| 0 <= i < events.len() && #[trigger] event_accepted(events[i])
}

/// The action for a batch.
pub open spec fn plan_spec(events: Seq<FsEvent>) -> WatchAction {
    if batch_accepted(events) {
        WatchAction::RefreshThenBroadcast
    } else {
        WatchAction::Ignore
    }
}

/// How many reload signals an action sends.
pub open spec fn broadcast_count(a: WatchAction) -> nat {
    match a {
        WatchAction::Ignore => 0,
        WatchAction::RefreshThenBroadcast => 1,
    }
}

/// Whether a file name is an editor's lock file (it starts with `.#`) or
/// backup file (it ends with `~`).
pub fn is_temp_file_name(name: &str) -> (r: bool)
    ensures
        r == is_temp_name_spec(name@),
{
    let c = chars_of(name);
    let n = c.len();
    (n >= 2 && c[0] == '.' && c[1] == '#') || (n >= 1 && c[n - 1] == '~')
}

/// Whether an event counts as a change of the content.
pub fn is_relevant_event(event: &FsEvent) -> (r: bool)
    ensures
        r == event_accepted(*event),
{
    let kind_counts = match event.kind {
        ChangeKind::Create | ChangeKind::Modify | ChangeKind::Remove => true,
        _ => false,
    };
    if !kind_counts {
        return false;
    }
    let mut j: usize = 0;
    while j < event.file_names.len()
        invariant
            j <= event.file_names@.len(),
            forall|k: int| 0 <= k < j ==> !is_temp_name_spec(#[trigger] event.file_names@[k]@),
        decreases event.file_names.len() - j,
    {
        if is_temp_file_name(event.file_names[j].as_str()) {
            return false;
        }
        j = j + 1;
    }
    true
}

/// The action for a debounced batch: one reload and one signal where at
/// least one event counts, nothing otherwise.
pub fn plan_for_batch(events: &Vec<FsEvent>) -> (r: WatchAction)
    ensures
        r == plan_spec(events@),
{
    let mut i: usize = 0;
    while i < events.len()
        invariant
            i <= events.len(),
            forall|k: int| 0 <= k < i ==> !#[trigger] event_accepted(events@[k]),
        decreases events.len() - i,
    {
        if is_relevant_event(&events[i]) {
            return WatchAction::RefreshThenBroadcast;
        }
        i = i + 1;
    }
    WatchAction::Ignore
}

/// Every batch that holds an accepted event sends exactly one reload signal.
pub proof fn lemma_accepted_batch_broadcasts_once(events: Seq<FsEvent>)
    requires
        batch_accepted(events),
    ensures
        broadcast_count(plan_spec(events)) == 1,
{
}

/// A batch in which every path of every event names an editor's temporary
/// file sends no signal. (An event that names no path at all is left out: it
/// holds no temporary file, so it counts.)
pub proof fn lemma_temp_files_never_broadcast(events: Seq<FsEvent>)
    requires
        forall|i: int| 0 <= i < events.len() ==> (#[trigger] events[i]).file_names@.len() > 0,
        forall|i: int, j: int|
            0 <= i < events.len() && 0 <= j < events[i].file_names@.len() ==> is_temp_name_spec(
                #[trigger] events[i].file_names@[j]@,
            ),
    ensures
        broadcast_count(plan_spec(events)) == 0,
{
    assert forall|i: int| 0 <= i < events.len() implies !#[trigger] event_accepted(events[i]) by {
        assert(is_temp_name_spec(events[i].file_names@[0]@));
    }
}

} // verus!
