use vstd::prelude::*;
use crate::events::WorkspaceInfo;

verus! {

/// A workspace as the bar lists it.
#[derive(Debug, Clone, PartialEq, Eq)]
pub struct Workspace {
    pub id: u32,
    pub name: Option<String>,
    pub is_active: bool,
    pub is_focused: bool,
}

/// A list of workspaces.
#[derive(Debug, Clone, PartialEq, Eq)]
pub struct WorkspacesResponse {
    pub workspaces: Vec<Workspace>,
}

impl Workspace {
    /// The workspace a bus summary describes.
    pub fn from_info(info: WorkspaceInfo) -> (r: Self)
        ensures
            r.id == info.id,
            r.name == info.name,
            r.is_active == info.is_active,
            r.is_focused == info.is_focused,
    {
        Workspace { id: info.id, name: info.name, is_active: info.is_active, is_focused: info.is_focused }
    }
}

} // verus!
