use vstd::prelude::*;
use crate::backend::niri::protocol::{NiriEvent, NiriWorkspace};
use crate::events::{Event, EventManager, WorkspaceInfo};

verus! {

/// The summary of a compositor workspace: it is known by its index.
pub open spec fn info_of(ws: NiriWorkspace) -> WorkspaceInfo {
    WorkspaceInfo { id: ws.idx, name: ws.name, is_active: ws.is_active, is_focused: ws.is_focused }
}

/// Summaries of compositor workspaces, in the same order.
pub fn workspace_infos(ws: &Vec<NiriWorkspace>) -> (r: Vec<WorkspaceInfo>)
    ensures
        r@.len() == ws@.len(),
        forall|i: int| 0 <= i < ws@.len() ==> #[trigger] r@[i] == info_of(ws@[i]),
{
    let mut out: Vec<WorkspaceInfo> = Vec::new();
    let mut i: usize = 0;
    while i < ws.len()
        invariant
            i <= ws.len(),
            out@.len() == i,
            forall|k: int| 0 <= k < i ==> #[trigger] out@[k] == info_of(ws@[k]),
        decreases ws.len() - i,
    {
        let w = &ws[i];
        let name = match &w.name {
            Some(n) => Some(n.clone()),
            None => None,
        };
        out.push(WorkspaceInfo { id: w.idx, name, is_active: w.is_active, is_focused: w.is_focused });
        i += 1;
    }
    out
}

/// `e` publishes the summaries of `ws`.
pub open spec fn lists_workspaces(e: Event, ws: Seq<NiriWorkspace>) -> bool {
    e matches Event::WorkspacesUpdated { workspaces } && workspaces@.len() == ws.len() && forall|i: int|
        0 <= i < ws.len() ==> #[trigger] workspaces@[i] == info_of(ws[i])
}

/// The bus event, if any, that a compositor notification becomes.
pub open spec fn yields_event(n: NiriEvent, e: Option<Event>) -> bool {
    match n {
        NiriEvent::WorkspaceActivated { id, focused } => e == Some(Event::WorkspaceChanged { id: id as u32 }),
        NiriEvent::WorkspacesChanged { workspaces } => e matches Some(ev) && lists_workspaces(ev, workspaces@),
        _ => e is None,
    }
}

/// Turns compositor workspace state and notifications into bus events.
pub struct NiriEventListener {
    pub events: EventManager,
}

impl NiriEventListener {
    pub fn new(events: EventManager) -> (r: Self)
        ensures
            r.events.published() == events.published(),
    {
        NiriEventListener { events }
    }

    /// Publish the polled workspaces as one `WorkspacesUpdated` event.
    pub fn poll_workspaces(&mut self, ws: &Vec<NiriWorkspace>)
        ensures
            exists|e: Event| lists_workspaces(e, ws@) && final(self).events.published()
                == old(self).events.published().push(e),
    {
        let infos = workspace_infos(ws);
        let ev = Event::WorkspacesUpdated { workspaces: infos };
        assert(lists_workspaces(ev, ws@));
        self.events.emit(ev);
    }

    /// Publish what a compositor notification means for the shell: an
    /// activated workspace, or a new workspace list; the rest is ignored.
    pub fn handle_niri_event(&mut self, niri_event: NiriEvent)
        ensures
            exists|e: Option<Event>| yields_event(niri_event, e) && final(self).events.published() == match e {
                Some(ev) => old(self).events.published().push(ev),
                None => old(self).events.published(),
            },
    {
        match niri_event {
            NiriEvent::WorkspaceActivated { id, focused } => {
                let ev = Event::WorkspaceChanged { id: id as u32 };
                assert(yields_event(niri_event, Some(ev)));
                self.events.emit(ev);
            },
            NiriEvent::WorkspacesChanged { workspaces } => {
                let infos = workspace_infos(&workspaces);
                let ev = Event::WorkspacesUpdated { workspaces: infos };
                assert(lists_workspaces(ev, workspaces@));
                assert(yields_event(niri_event, Some(ev)));
                self.events.emit(ev);
            },
            _ => {
                assert(yields_event(niri_event, None));
            },
        }
    }
}

} // verus!
