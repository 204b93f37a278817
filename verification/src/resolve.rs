//! Location resolution: from a store descriptor to the settings file path.
//!
//! Resolution is purely textual composition — paths are strings joined with
//! `/`, never normalised, never checked against the filesystem. Only the
//! `Auto` and `File` strategies consult the OS configuration root, which the
//! directory-provider collaborator supplies.

use vstd::prelude::*;

use crate::error::Error;
use crate::format::Format;

verus! {

/// Represents the location of a config file.
#[derive(Debug, Clone, PartialEq)]
pub enum Location {
    /// Automatically determines location of config file based on platform/OS.
    Auto,
    /// Provides the full path to the config file; app name and format are
    /// ignored entirely.
    Path(String),
    /// Automatically determines config directory, with file name specified
    /// manually.
    File(String),
    /// Automatically determines config file name, with directory specified
    /// manually.
    Dir(String),
}

/// Represents an app's settings store, specifying how its settings are
/// managed: the app name, where the settings file lives, and its format.
/// A descriptor is immutable; every operation re-derives the path from it.
#[derive(Debug, Clone, PartialEq)]
pub struct Abserde {
    /// App name under which app settings are typically to be stored.
    pub app: String,
    /// Location specification for where app settings are physically kept.
    pub location: Location,
    /// Format for app setting storage and serialisation.
    pub format: Format,
}

impl Abserde {
    /// Whether resolution consults the OS config root at all: only the
    /// `Auto` and `File` strategies depend on it.
    pub open spec fn needs_root(self) -> bool {
        match self.location {
            Location::Auto => true,
            Location::Path(_) => false,
            Location::File(_) => true,
            Location::Dir(_) => false,
        }
    }

    /// The path this descriptor resolves to against a given OS config root:
    /// a pure function of the descriptor and the root.
    pub open spec fn resolved_path(self, root: Seq<char>) -> Seq<char> {
        match self.location {
            Location::Auto => root + "/"@ + self.app@ + "/"@ + self.format.default_name_seq(),
            Location::Path(p) => p@,
            Location::File(f) => root + "/"@ + self.app@ + "/"@ + f@,
            Location::Dir(dir) => dir@ + "/"@ + self.format.default_name_seq(),
        }
    }

    /// Resolve against the given OS config root: the pure core of
    /// resolution.
    pub fn resolve_with_root(&self, root: &str) -> (p: String)
        ensures
            p@ == self.resolved_path(root@),
    {
        match &self.location {
            Location::Auto => {
                let mut p = String::from_str(root);
                p.append("/");
                p.append(self.app.as_str());
                p.append("/");
                let name = self.format.default_name();
                p.append(name.as_str());
                p
            },
            Location::Path(path) => path.clone(),
            Location::File(file) => {
                let mut p = String::from_str(root);
                p.append("/");
                p.append(self.app.as_str());
                p.append("/");
                p.append(file.as_str());
                p
            },
            Location::Dir(dir) => {
                let mut p = dir.clone();
                p.append("/");
                let name = self.format.default_name();
                p.append(name.as_str());
                p
            },
        }
    }

    /// The OS config root to resolve against: empty (and ignored by
    /// resolution) for the `Path` and `Dir` strategies; the provider's root
    /// otherwise, failing with `DirectoryUnavailable` when it has none.
    pub(crate) fn root_for_resolution(&self) -> (out: Result<String, Error>)
        ensures
            out matches Err(e) ==> e == Error::DirectoryUnavailable && self.needs_root(),
            !self.needs_root() ==> out is Ok,
    {
        match &self.location {
            Location::Auto | Location::File(_) => match os_config_root() {
                Some(root) => Ok(root),
                None => Err(Error::DirectoryUnavailable),
            },
            Location::Path(_) | Location::Dir(_) => Ok(String::new()),
        }
    }

    /// Resolve this descriptor to its settings file path, discovering the OS
    /// config root when the strategy needs it. Fails with
    /// `DirectoryUnavailable` exactly when the root is needed and the
    /// provider cannot supply one; the `Path` and `Dir` strategies never
    /// fail.
    pub fn config_path(&self) -> (out: Result<String, Error>)
        ensures
            match out {
                Ok(p) => exists|root| #[trigger] self.resolved_path(root) == p@,
                Err(e) => e == Error::DirectoryUnavailable && self.needs_root(),
            },
            self.location matches Location::Path(q) ==> out matches Ok(p) && p@ == q@,
            self.location matches Location::Dir(dir) ==> out matches Ok(p) && p@ == dir@ + "/"@
                + self.format.default_name_seq(),
    {
        match &self.location {
            Location::Auto | Location::File(_) => match os_config_root() {
                Some(root) => {
                    let p = self.resolve_with_root(root.as_str());
                    proof {
                        assert(self.resolved_path(root@) == p@);
                    }
                    Ok(p)
                },
                None => Err(Error::DirectoryUnavailable),
            },
            Location::Path(_) | Location::Dir(_) => {
                let p = self.resolve_with_root("");
                proof {
                    assert(self.resolved_path(""@) == p@);
                }
                Ok(p)
            },
        }
    }
}

impl Default for Abserde {
    /// The default store: this library's own name for the app, automatic
    /// location, JSON format.
    fn default() -> (d: Abserde)
        ensures
            d.app@ == "abserde"@,
            d.location is Auto,
            d.format is Json,
    {
        Abserde {
            app: String::from_str("abserde"),
            location: Location::Auto,
            format: Format::Json,
        }
    }
}

/// Resolution is deterministic: the path is a pure function of the
/// descriptor and the OS config root, so resolving twice with identical
/// inputs and an unchanged root yields an identical path. Stated for the
/// strategies that derive the path (`Auto`, `Dir`, `File`).
pub proof fn lemma_resolve_deterministic(d1: Abserde, d2: Abserde, root: Seq<char>)
    requires
        d1 == d2,
        d1.location is Auto || d1.location is Dir || d1.location is File,
    ensures
        d1.resolved_path(root) == d2.resolved_path(root),
{
}

/// Relies on dirs::config_dir for the platform's per-user configuration
/// root (`%APPDATA%`, `~/.config`, `~/Library/Application Support`); yields
/// it only when the path is valid UTF-8. The result depends on the machine
/// and its environment, so nothing is assumed about it.
#[verifier::external_body]
fn os_config_root() -> (r: Option<String>) {
    match dirs::config_dir() {
        Some(p) => match p.into_os_string().into_string() {
            Ok(s) => Some(s),
            Err(_) => None,
        },
        None => None,
    }
}

} // verus!
