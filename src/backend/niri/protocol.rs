use vstd::prelude::*;

verus! {

/// A workspace as the compositor reports it.
#[derive(Debug, PartialEq, Eq)]
pub struct NiriWorkspace {
    pub id: u64,
    pub name: Option<String>,
    pub idx: u32,
    pub is_active: bool,
    pub is_focused: bool,
}

impl Clone for NiriWorkspace {
    fn clone(&self) -> (r: Self)
        ensures
            r == *self,
    {
        let name = match &self.name {
            Some(n) => Some(n.clone()),
            None => None,
        };
        NiriWorkspace { id: self.id, name, idx: self.idx, is_active: self.is_active, is_focused: self.is_focused }
    }
}

/// Answer to a workspaces request.
#[derive(Debug, Clone, PartialEq, Eq)]
pub struct NiriWorkspacesResponse {
    pub workspaces: Vec<NiriWorkspace>,
}

/// A window as the compositor reports it.
#[derive(Debug, Clone, PartialEq, Eq)]
pub struct NiriWindow {
    pub id: u64,
    pub title: Option<String>,
    pub app_id: Option<String>,
    pub workspace_id: Option<u64>,
    pub is_focused: bool,
}

/// Notifications from the compositor.
#[derive(Debug, Clone, PartialEq, Eq)]
pub enum NiriEvent {
    WorkspaceActivated { id: u64, focused: bool },
    WorkspaceActiveWindowChanged { workspace_id: u64, window_id: Option<u64> },
    WorkspacesChanged { workspaces: Vec<NiriWorkspace> },
    WindowOpenedOrChanged { window: NiriWindow },
    WindowClosed { id: u64 },
    WindowFocusChanged { id: Option<u64> },
    KeyboardLayoutsChanged { keyboard_layouts: Vec<String>, current_idx: u32 },
    KeyboardLayoutSwitched { idx: u32 },
}

/// Reference to a workspace by index or by name.
#[derive(Debug, Clone, PartialEq, Eq)]
pub enum WorkspaceReference {
    Index(u32),
    Name(String),
}

/// Actions the compositor can be asked to perform.
#[derive(Debug, Clone, PartialEq, Eq)]
pub enum NiriAction {
    FocusWorkspace { reference: WorkspaceReference },
    FocusWorkspaceDown,
    FocusWorkspaceUp,
    MoveWindowToWorkspace { reference: WorkspaceReference },
    MoveWindowToWorkspaceDown,
    MoveWindowToWorkspaceUp,
    Quit,
    PowerOffMonitors,
}

} // verus!
