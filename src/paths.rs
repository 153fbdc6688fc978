use vstd::prelude::*;

verus! {

/// The runtime directory: `XDG_RUNTIME_DIR`, else `TMPDIR`, else "/tmp".
pub open spec fn runtime_dir_of(xdg_runtime_dir: Option<String>, tmpdir: Option<String>) -> Seq<char> {
    match xdg_runtime_dir {
        Some(d) => d@,
        None => match tmpdir {
            Some(t) => t@,
            None => "/tmp"@,
        },
    }
}

/// Resolve the runtime directory from the two environment values.
pub fn runtime_dir(xdg_runtime_dir: Option<String>, tmpdir: Option<String>) -> (r: String)
    ensures
        r@ == runtime_dir_of(xdg_runtime_dir, tmpdir),
{
    match xdg_runtime_dir {
        Some(d) => d,
        None => match tmpdir {
            Some(t) => t,
            None => "/tmp".to_owned(),
        },
    }
}

/// Directory of the command socket under a runtime directory.
pub fn socket_dir(runtime_dir: &str) -> (r: String)
    ensures
        r@ == runtime_dir@ + "/amiya"@,
{
    runtime_dir.to_owned().concat("/amiya")
}

/// The command socket under a runtime directory.
pub fn socket_path(runtime_dir: &str) -> (r: String)
    ensures
        r@ == runtime_dir@ + "/amiya"@ + "/amiya.sock"@,
{
    socket_dir(runtime_dir).concat("/amiya.sock")
}

/// The configuration directory: `XDG_CONFIG_HOME`, else `$HOME/.config`.
pub open spec fn config_dir_of(xdg_config_home: Option<String>, home: Option<String>) -> Option<Seq<char>> {
    match xdg_config_home {
        Some(d) => Some(d@),
        None => match home {
            Some(h) => Some(h@ + "/.config"@),
            None => None,
        },
    }
}

pub fn config_dir(xdg_config_home: Option<String>, home: Option<String>) -> (r: Option<String>)
    ensures
        match r {
            Some(d) => config_dir_of(xdg_config_home, home) == Some(d@),
            None => config_dir_of(xdg_config_home, home) is None,
        },
{
    match xdg_config_home {
        Some(d) => Some(d),
        None => match home {
            Some(h) => Some(h.concat("/.config")),
            None => None,
        },
    }
}

/// The configuration file under a configuration directory.
pub fn config_file(config_dir: &str) -> (r: String)
    ensures
        r@ == config_dir@ + "/amiya/config.toml"@,
{
    config_dir.to_owned().concat("/amiya/config.toml")
}

} // verus!
