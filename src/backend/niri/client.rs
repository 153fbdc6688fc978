use vstd::prelude::*;
use crate::backend::strings::{ends_with, signed_decimal, signed_decimal_text, str_ends_with};
use crate::error::AmiyaError;

verus! {

/// Request method names of the compositor protocol.
pub const WORKSPACES: &'static str = "Workspaces";

pub const FOCUSED_WINDOW: &'static str = "FocusedWindow";

pub const ACTION: &'static str = "Action";

pub const OUTPUTS: &'static str = "Outputs";

pub const VERSION: &'static str = "Version";

pub const SUBSCRIBE: &'static str = "EventStream";

/// A file name that names a socket: some stem, then ".sock".
pub open spec fn is_socket_name(name: Seq<char>) -> bool {
    ends_with(name, ".sock"@) && name.len() > 5
}

/// The conventional socket path under a runtime directory.
pub open spec fn standard_socket(runtime_dir: Seq<char>, display: Seq<char>) -> Seq<char> {
    runtime_dir + "/niri/niri-"@ + display + ".sock"@
}

/// Position of the first socket name in `names` at or after `from`.
pub open spec fn first_socket(names: Seq<String>, from: int) -> Option<int>
    decreases names.len() - from,
{
    if from < 0 || from >= names.len() {
        None
    } else if is_socket_name(names[from]@) {
        Some(from)
    } else {
        first_socket(names, from + 1)
    }
}

/// Where a socket is found: the conventional path when it exists, else the
/// first socket among the names in the compositor's directory.
pub open spec fn socket_choice(
    runtime_dir: Seq<char>,
    display: Seq<char>,
    standard_exists: bool,
    names: Seq<String>,
) -> Option<Seq<char>> {
    if standard_exists {
        Some(standard_socket(runtime_dir, display))
    } else {
        match first_socket(names, 0) {
            Some(i) => Some(runtime_dir + "/niri/"@ + names[i]@),
            None => None,
        }
    }
}

/// The conventional socket path for a runtime directory and display name.
pub fn standard_socket_path(runtime_dir: &str, display: &str) -> (r: String)
    ensures
        r@ == standard_socket(runtime_dir@, display@),
{
    runtime_dir.to_owned().concat("/niri/niri-").concat(display).concat(".sock")
}

/// Locate the compositor socket: `standard_exists` tells whether the
/// conventional path exists, `names` lists the compositor directory.
pub fn find_socket(runtime_dir: &str, display: &str, standard_exists: bool, names: &Vec<String>) -> (r: Result<String, AmiyaError>)
    ensures
        match r {
            Ok(p) => socket_choice(runtime_dir@, display@, standard_exists, names@) == Some(p@),
            Err(e) => socket_choice(runtime_dir@, display@, standard_exists, names@) is None
                && e == AmiyaError::Ipc(e->Ipc_0) && e->Ipc_0@ == "Could not find niri socket. Is niri running?"@,
        },
{
    if standard_exists {
        return Ok(standard_socket_path(runtime_dir, display));
    }
    proof {
        reveal_strlit(".sock");
        reveal_strlit("Could not find niri socket. Is niri running?");
    }
    let mut i: usize = 0;
    while i < names.len()
        invariant
            i <= names.len(),
            !standard_exists,
            first_socket(names@, 0) == first_socket(names@, i as int),
        decreases names.len() - i,
    {
        let name = names[i].as_str();
        if str_ends_with(name, ".sock") && name.unicode_len() > 5 {
            let p = runtime_dir.to_owned().concat("/niri/").concat(name);
            assert(first_socket(names@, i as int) == Some(i as int));
            return Ok(p);
        }
        assert(first_socket(names@, i as int) == first_socket(names@, i + 1));
        i += 1;
    }
    assert(first_socket(names@, i as int) is None);
    Err(AmiyaError::Ipc("Could not find niri socket. Is niri running?".to_owned()))
}

/// Error text for an error object in a compositor reply.
pub open spec fn rpc_error_text(message: Seq<char>, code: int) -> Seq<char> {
    "Niri error: "@ + message + " (code: "@ + signed_decimal(code) + ")"@
}

/// A reply that carries an error object is a failure.
pub fn check_reply_error(error: Option<(i32, String)>) -> (r: Result<(), AmiyaError>)
    ensures
        match error {
            None => r is Ok,
            Some((code, message)) => r matches Err(AmiyaError::Ipc(m)) && m@ == rpc_error_text(message@, code as int),
        },
{
    match error {
        None => Ok(()),
        Some((code, message)) => {
            let m = "Niri error: ".to_owned().concat(message.as_str()).concat(" (code: ").concat(
                signed_decimal_text(code as i64).as_str(),
            ).concat(")");
            Err(AmiyaError::Ipc(m))
        },
    }
}

/// Compositor client state: the socket path and the correlation id of the
/// next request.
pub struct NiriClient {
    socket_path: String,
    request_id: u64,
}

impl NiriClient {
    pub closed spec fn socket(&self) -> Seq<char> {
        self.socket_path@
    }

    /// Correlation id that the next request gets.
    pub closed spec fn next_request_id(&self) -> u64 {
        self.request_id
    }

    pub fn new(socket_path: String) -> (r: Self)
        ensures
            r.socket() == socket_path@,
            r.next_request_id() == 1,
    {
        NiriClient { socket_path, request_id: 1 }
    }

    pub fn socket_path(&self) -> (r: &String)
        ensures
            r@ == self.socket(),
    {
        &self.socket_path
    }

    /// Take the next correlation id. Ids strictly increase until the last
    /// value of `u64`, which is then kept.
    pub fn next_id(&mut self) -> (r: u64)
        ensures
            r == old(self).next_request_id(),
            final(self).next_request_id() == (if r < u64::MAX { (r + 1) as u64 } else { r }),
            final(self).socket() == old(self).socket(),
    {
        let id = self.request_id;
        if id < u64::MAX {
            self.request_id = id + 1;
        }
        id
    }
}

} // verus!
