//! Where Ultidesk keeps per-user configuration and per-session runtime state, as pure
//! rules over an explicit environment so both platforms' rules are testable anywhere.
//!
//! Paths are strings; a name is joined onto a directory the way a Unix path is: with a
//! `/` unless the directory is empty or already ends in one.

use vstd::prelude::*;

verus! {

/// The environment the configuration directory is resolved from.
#[derive(Debug, Clone)]
pub struct ConfigEnv {
    pub override_dir: Option<String>,
    pub appdata: Option<String>,
    pub xdg_config_home: Option<String>,
    pub home: Option<String>,
}

/// The environment the runtime directory is resolved from.
#[derive(Debug, Clone)]
pub struct RuntimeEnv {
    pub override_dir: Option<String>,
    /// `LOCALAPPDATA` on Windows.
    pub local_appdata: Option<String>,
    /// `XDG_RUNTIME_DIR` on Linux.
    pub xdg_runtime_dir: Option<String>,
    pub temp_dir: String,
    /// Names the fallback directory, so two users on one machine do not collide.
    pub user: Option<String>,
}

impl Default for ConfigEnv {
    /// An environment with nothing set.
    fn default() -> (r: Self)
        ensures
            r.override_dir is None,
            r.appdata is None,
            r.xdg_config_home is None,
            r.home is None,
    {
        ConfigEnv { override_dir: None, appdata: None, xdg_config_home: None, home: None }
    }
}

impl Default for RuntimeEnv {
    /// An environment with nothing set and an empty temporary directory.
    fn default() -> (r: Self)
        ensures
            r.override_dir is None,
            r.local_appdata is None,
            r.xdg_runtime_dir is None,
            r.temp_dir@ == Seq::<char>::empty(),
            r.user is None,
    {
        RuntimeEnv {
            override_dir: None,
            local_appdata: None,
            xdg_runtime_dir: None,
            temp_dir: String::new(),
            user: None,
        }
    }
}

/// What a name is appended to when it is joined onto `base`: nothing for an empty
/// base, the base itself when it already ends in `/`, and the base and a `/` otherwise.
pub open spec fn dir_prefix(base: Seq<char>) -> Seq<char> {
    if base.len() == 0 {
        base
    } else if base.last() == '/' {
        base
    } else {
        base + seq!['/']
    }
}

/// `name` joined onto `base`.
pub open spec fn path_join(base: Seq<char>, name: Seq<char>) -> Seq<char> {
    if base.len() == 0 {
        name
    } else if base.last() == '/' {
        base + name
    } else {
        base + seq!['/'] + name
    }
}

pub open spec fn opt_view(o: Option<String>) -> Option<Seq<char>> {
    match o {
        Some(s) => Some(s@),
        None => None,
    }
}

/// The configuration directory the rules choose.
pub open spec fn config_dir_spec(env: ConfigEnv, windows: bool) -> Option<Seq<char>> {
    if env.override_dir is Some {
        opt_view(env.override_dir)
    } else if windows {
        match env.appdata {
            Some(a) => Some(path_join(a@, "Ultidesk"@)),
            None => None,
        }
    } else if env.xdg_config_home is Some {
        Some(path_join(env.xdg_config_home->0@, "ultidesk"@))
    } else {
        match env.home {
            Some(h) => Some(path_join(path_join(h@, ".config"@), "ultidesk"@)),
            None => None,
        }
    }
}

/// The runtime directory the rules choose.
pub open spec fn runtime_dir_spec(env: RuntimeEnv, windows: bool) -> Seq<char> {
    if env.override_dir is Some {
        env.override_dir->0@
    } else if windows {
        match env.local_appdata {
            Some(l) => path_join(l@, "Ultidesk"@),
            None => path_join(env.temp_dir@, "Ultidesk"@),
        }
    } else if env.xdg_runtime_dir is Some {
        path_join(env.xdg_runtime_dir->0@, "ultidesk"@)
    } else {
        let user = match env.user {
            Some(u) => u@,
            None => "user"@,
        };
        path_join(env.temp_dir@, "ultidesk-"@ + user)
    }
}

/// `name` joined onto `base` as a directory.
pub(crate) fn join(base: &str, name: &str) -> (r: String)
    ensures
        r@ == path_join(base@, name@),
{
    let n = base.unicode_len();
    let mut out = String::from_str(base);
    if n == 0 {
        return String::from_str(name);
    }
    if base.get_char(n - 1) != '/' {
        let slash = "/";
        proof {
            reveal_strlit("/");
        }
        out.append(slash);
    }
    out.append(name);
    out
}

/// The configuration directory: the override wins everywhere; then `APPDATA\Ultidesk`
/// on Windows; elsewhere `$XDG_CONFIG_HOME/ultidesk`, falling back to
/// `$HOME/.config/ultidesk`. `None` when there is nowhere to put it.
pub fn resolve_config_dir(env: &ConfigEnv, windows: bool) -> (r: Option<String>)
    ensures
        opt_view(r) == config_dir_spec(*env, windows),
{
    if let Some(dir) = &env.override_dir {
        return Some(dir.clone());
    }
    if windows {
        return match &env.appdata {
            Some(a) => Some(join(a.as_str(), "Ultidesk")),
            None => None,
        };
    }
    if let Some(x) = &env.xdg_config_home {
        return Some(join(x.as_str(), "ultidesk"));
    }
    match &env.home {
        Some(h) => {
            let config = join(h.as_str(), ".config");
            Some(join(config.as_str(), "ultidesk"))
        },
        None => None,
    }
}

/// This session's runtime directory: the override wins everywhere; then
/// `LOCALAPPDATA\Ultidesk` (or the temp directory) on Windows; elsewhere
/// `$XDG_RUNTIME_DIR/ultidesk`, falling back to a per-user `ultidesk-<user>` under the
/// temp directory. Always produces a directory.
pub fn resolve_runtime_dir(env: &RuntimeEnv, windows: bool) -> (r: String)
    ensures
        r@ == runtime_dir_spec(*env, windows),
{
    if let Some(dir) = &env.override_dir {
        return dir.clone();
    }
    if windows {
        return match &env.local_appdata {
            Some(local) => join(local.as_str(), "Ultidesk"),
            None => join(env.temp_dir.as_str(), "Ultidesk"),
        };
    }
    if let Some(runtime) = &env.xdg_runtime_dir {
        return join(runtime.as_str(), "ultidesk");
    }
    let mut name = String::from_str("ultidesk-");
    match &env.user {
        Some(u) => name.append(u.as_str()),
        None => name.append("user"),
    }
    join(env.temp_dir.as_str(), name.as_str())
}

/// The override, when set, is the answer on both platforms, for both directories.
pub proof fn lemma_override_wins(c: ConfigEnv, r: RuntimeEnv, windows: bool)
    ensures
        c.override_dir is Some ==> config_dir_spec(c, windows) == opt_view(c.override_dir),
        r.override_dir is Some ==> runtime_dir_spec(r, windows) == r.override_dir->0@,
{
}

/// Each platform ignores the other's variable: Windows never consults the XDG or home
/// directories, and Linux never consults `APPDATA`.
pub proof fn lemma_platforms_do_not_cross(c: ConfigEnv, a2: Option<String>, x2: Option<String>, h2: Option<String>)
    ensures
        config_dir_spec(c, true) == config_dir_spec(ConfigEnv { xdg_config_home: x2, home: h2, ..c }, true),
        config_dir_spec(c, false) == config_dir_spec(ConfigEnv { appdata: a2, ..c }, false),
{
}

/// Without an override, two users whose fallback runtime directories share a temp
/// directory never share a runtime directory.
pub proof fn lemma_fallback_is_per_user(e: RuntimeEnv, u1: String, u2: String)
    requires
        e.override_dir is None,
        e.xdg_runtime_dir is None,
        u1@ != u2@,
    ensures
        runtime_dir_spec(RuntimeEnv { user: Some(u1), ..e }, false)
            != runtime_dir_spec(RuntimeEnv { user: Some(u2), ..e }, false),
{
    let t = e.temp_dir@;
    let a = "ultidesk-"@ + u1@;
    let b = "ultidesk-"@ + u2@;
    let pa = path_join(t, a);
    let pb = path_join(t, b);
    let k = "ultidesk-"@.len();
    if pa == pb {
        let off = (pa.len() - a.len()) as int;
        assert(pa.len() - a.len() == pb.len() - b.len());
        assert(a.len() == b.len());
        assert forall|i: int| 0 <= i < u1@.len() implies u1@[i] == u2@[i] by {
            assert(pa[off + k + i] == a[k + i]);
            assert(pb[off + k + i] == b[k + i]);
        }
        assert(u1@ =~= u2@);
    }
}

} // verus!
