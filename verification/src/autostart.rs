//! Starting the program with the desktop session, through an XDG autostart
//! entry in the user's configuration directory.
//!
//! Whether the entry exists is probed here; writing and removing it is
//! file I/O and happens in the program, which reports back how it went.
use vstd::prelude::*;

use crate::host::{config_dir, path_exists};
use crate::ipc::opt_view;
use crate::text::ends_with;

verus! {

/// The desktop entry written to enable autostart.
pub const DESKTOP_ENTRY: &'static str = "[Desktop Entry]
Type=Application
Name=Shroud VPN Manager
Comment=VPN connection manager with kill switch
Exec=shroud
Icon=network-vpn
Terminal=false
Categories=Network;System;
StartupNotify=false
X-GNOME-Autostart-enabled=true
";

/// Where the entry lies, relative to the configuration directory.
pub const AUTOSTART_FILE: &'static str = "autostart/shroud.desktop";

/// `Path::join` with a relative path: a separator goes between unless the
/// base is empty or already ends with one.
pub open spec fn join_spec(base: Seq<char>, rel: Seq<char>) -> Seq<char> {
    if base.len() == 0 || base[base.len() - 1] == '/' {
        base + rel
    } else {
        base + seq!['/'] + rel
    }
}

/// Appends the relative path `rel` to `base` as `Path::join` does.
pub fn join_path(base: &str, rel: &str) -> (r: String)
    ensures
        r@ == join_spec(base@, rel@),
{
    let mut s = String::from_str(base);
    let sep = "/";
    proof {
        reveal_strlit("/");
    }
    let ends = ends_with(base, sep);
    if base.unicode_len() > 0 && !ends {
        s.append(sep);
        assert(base@[base@.len() - 1] != '/') by {
            if base@[base@.len() - 1] == '/' {
                assert(base@.subrange(base@.len() - 1, base@.len() as int) =~= sep@);
            }
        }
    } else if base.unicode_len() > 0 {
        assert(base@[base@.len() - 1] == base@.subrange(base@.len() - 1, base@.len() as int)[0]);
    }
    s.append(rel);
    s
}

/// What the program does to toggle autostart.
#[derive(Debug, Clone, Copy, PartialEq, Eq)]
pub enum AutostartChange {
    /// Write the desktop entry, creating its directory first.
    Enable,
    /// Remove the desktop entry if it is there.
    Disable,
}

/// Why enabling or disabling autostart failed. The details are the text
/// of the underlying I/O error.
#[derive(Debug, Clone, PartialEq, Eq)]
pub enum AutostartError {
    NoConfigDir,
    CreateDir(String),
    Write(String),
    Remove(String),
}

/// The message of an `AutostartError`.
pub open spec fn autostart_error_message(e: AutostartError) -> Seq<char> {
    match e {
        AutostartError::NoConfigDir => "Could not determine config directory"@,
        AutostartError::CreateDir(d) => "Failed to create autostart directory: "@ + d@,
        AutostartError::Write(d) => "Failed to write desktop file: "@ + d@,
        AutostartError::Remove(d) => "Failed to remove desktop file: "@ + d@,
    }
}

impl AutostartError {
    /// The message shown to the user.
    pub fn message(&self) -> (r: String)
        ensures
            r@ == autostart_error_message(*self),
    {
        match self {
            AutostartError::NoConfigDir => String::from_str("Could not determine config directory"),
            AutostartError::CreateDir(d) => {
                let mut s = String::from_str("Failed to create autostart directory: ");
                s.append(d.as_str());
                s
            },
            AutostartError::Write(d) => {
                let mut s = String::from_str("Failed to write desktop file: ");
                s.append(d.as_str());
                s
            },
            AutostartError::Remove(d) => {
                let mut s = String::from_str("Failed to remove desktop file: ");
                s.append(d.as_str());
                s
            },
        }
    }
}

/// The entry's path under a configuration directory.
pub open spec fn desktop_file_spec(config: Option<Seq<char>>) -> Option<Seq<char>> {
    match config {
        Some(c) => Some(join_spec(c, AUTOSTART_FILE@)),
        None => None,
    }
}

/// What toggling does when autostart is currently on or off.
pub open spec fn toggle_spec(currently_enabled: bool) -> AutostartChange {
    if currently_enabled {
        AutostartChange::Disable
    } else {
        AutostartChange::Enable
    }
}

/// What toggling reports once `change` was applied with the outcome
/// `applied`: whether autostart is now on, or the error's message.
pub open spec fn toggle_result_spec(change: AutostartChange, applied: Result<(), AutostartError>) -> Result<
    bool,
    Seq<char>,
> {
    match applied {
        Ok(()) => Ok(change == AutostartChange::Enable),
        Err(e) => Err(autostart_error_message(e)),
    }
}

/// Toggling switches autostart to the opposite of its current state and,
/// when the change succeeds, reports that new state.
pub proof fn lemma_toggle_flips(currently_enabled: bool)
    ensures
        toggle_result_spec(toggle_spec(currently_enabled), Ok(())) == Ok::<bool, Seq<char>>(
            !currently_enabled,
        ),
{
}

/// Toggling autostart.
pub struct Autostart;

impl Autostart {
    /// The entry's path under the configuration directory `config`, if
    /// there is one.
    pub fn desktop_file_in(config: Option<String>) -> (r: Option<String>)
        ensures
            opt_view(r) == desktop_file_spec(opt_view(config)),
    {
        match config {
            Some(c) => Some(join_path(c.as_str(), AUTOSTART_FILE)),
            None => None,
        }
    }

    /// The entry's path under the user's configuration directory, if one
    /// can be determined.
    pub fn desktop_file_path() -> (r: Option<String>)
        ensures
            r matches Some(p) ==> exists|c: Seq<char>| p@ == #[trigger] join_spec(c, AUTOSTART_FILE@),
    {
        let r = Self::desktop_file_in(config_dir());
        proof {
            if r is Some {
                let c = choose|c: Seq<char>| desktop_file_spec(Some(c)) == opt_view(r);
                assert(r->0@ == join_spec(c, AUTOSTART_FILE@));
            }
        }
        r
    }

    /// Whether autostart is on, given whether the entry's file exists
    /// (`None` when no configuration directory is known).
    pub fn enabled_from(entry_exists: Option<bool>) -> (r: bool)
        ensures
            r == (entry_exists == Some(true)),
    {
        match entry_exists {
            Some(b) => b,
            None => false,
        }
    }

    /// Whether autostart is on: the entry's file exists. What the file
    /// system answers is decided by `enabled_from`.
    pub fn is_enabled() -> bool {
        let probe = match Self::desktop_file_path() {
            Some(p) => Some(path_exists(p.as_str())),
            None => None,
        };
        Self::enabled_from(probe)
    }

    /// What toggling does when autostart is currently on or off.
    pub fn toggle(currently_enabled: bool) -> (r: AutostartChange)
        ensures
            r == toggle_spec(currently_enabled),
    {
        if currently_enabled {
            AutostartChange::Disable
        } else {
            AutostartChange::Enable
        }
    }

    /// What toggling reports once the change was applied: whether
    /// autostart is now on, or the error that stopped it.
    pub fn toggle_result(change: AutostartChange, applied: Result<(), AutostartError>) -> (r: Result<
        bool,
        String,
    >)
        ensures
            match (r, toggle_result_spec(change, applied)) {
                (Ok(b), Ok(c)) => b == c,
                (Err(m), Err(c)) => m@ == c,
                _ => false,
            },
    {
        match applied {
            Ok(()) => Ok(
                match change {
                    AutostartChange::Enable => true,
                    AutostartChange::Disable => false,
                },
            ),
            Err(e) => Err(e.message()),
        }
    }
}

} // verus!
