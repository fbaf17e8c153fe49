//! The per-run configuration: which editor opens scripts, and where the
//! script directory lives.

use vstd::prelude::*;
use vstd::string::StringExecFns;

verus! {

/// User-adjustable settings, loaded once per invocation: an optional
/// editor command and an optional script-directory override.
pub struct Config {
    pub editor: Option<String>,
    pub script_dir: Option<String>,
}

/// The editor used when neither the configuration nor the environment
/// names one.
pub open spec fn fallback_editor() -> Seq<char> {
    "nano"@
}

/// The settings written on first run: the fallback editor spelled out,
/// and no script-directory override.
pub fn default_config() -> (c: Config)
    ensures
        c.editor matches Some(e) && e@ == fallback_editor(),
        c.script_dir is None,
{
    Config { editor: Some(String::from_str("nano")), script_dir: None }
}

/// The editor that a given configuration and environment select: the
/// configured editor wins, then the environment's, then the fallback.
pub open spec fn chosen_editor(config_editor: Option<String>, env_editor: Option<String>) -> Seq<char> {
    if config_editor is Some {
        config_editor->0@
    } else if env_editor is Some {
        env_editor->0@
    } else {
        fallback_editor()
    }
}

/// Pick the editor command for this run.
pub fn choose_editor(config: &Config, env_editor: Option<String>) -> (r: String)
    ensures
        r@ == chosen_editor(config.editor, env_editor),
{
    match &config.editor {
        Some(e) => e.clone(),
        None => match env_editor {
            Some(e) => e,
            None => String::from_str("nano"),
        },
    }
}

/// The script directory that a configuration selects: the configured
/// override, or the hidden directory under the user's home.
pub open spec fn resolved_script_dir(script_dir: Option<String>, home: Seq<char>) -> Seq<char> {
    if script_dir is Some {
        script_dir->0@
    } else {
        home + "/.eph"@
    }
}

/// Resolve the script directory for this run from the configuration and
/// the user's home directory.
pub fn resolve_script_dir(config: &Config, home: &str) -> (r: String)
    ensures
        r@ == resolved_script_dir(config.script_dir, home@),
{
    match &config.script_dir {
        Some(d) => d.clone(),
        None => String::from_str(home).concat("/.eph"),
    }
}

/// The directory that holds the configuration file.
pub fn config_dir_path(home: &str) -> (r: String)
    ensures
        r@ == home@ + "/.config/eph"@,
{
    String::from_str(home).concat("/.config/eph")
}

/// The configuration file's own path.
pub fn config_file_path(home: &str) -> (r: String)
    ensures
        r@ == home@ + "/.config/eph/config.toml"@,
{
    let r = String::from_str(home).concat("/.config/eph").concat("/config.toml");
    proof {
        reveal_strlit("/.config/eph");
        reveal_strlit("/config.toml");
        reveal_strlit("/.config/eph/config.toml");
        assert(home@ + "/.config/eph"@ + "/config.toml"@ =~= home@ + "/.config/eph/config.toml"@);
    }
    r
}

} // verus!
