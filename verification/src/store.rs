//! The config store: save, load and delete, prepared as plans.
//!
//! Each operation re-resolves the path from the descriptor and does its
//! computing here — encoding, decoding, and the directory-cleanup policy.
//! The filesystem steps themselves (create a directory, write, read or
//! remove a file) are the caller's: a plan names each step exactly, so the
//! shell around the library only carries them out in order.

use vstd::prelude::*;

use crate::codec::decode;
use crate::codec::decodes_to;
use crate::codec::encode;
use crate::codec::encoded_bytes;
use crate::codec::round_trip_keys;
use crate::error::Error;
use crate::record::Record;
use crate::record::record_entries;
use crate::resolve::Abserde;
use crate::resolve::Location;

verus! {

/// Whether position `i` splits `p` at its last `/`: `i` holds a slash and no
/// later position does.
pub open spec fn splits_at_last_slash(p: Seq<char>, i: int) -> bool {
    &&& 0 <= i < p.len()
    &&& p[i] == '/'
    &&& forall|j: int| i < j < p.len() ==> p[j] != '/'
}

/// Whether `par` is the textual parent of `p`: what stands before its last
/// slash.
pub open spec fn is_parent_of(par: Seq<char>, p: Seq<char>) -> bool {
    exists|i: int| #[trigger] splits_at_last_slash(p, i) && par == p.subrange(0, i)
}

/// Whether `p` has no parent: it holds no slash at all.
pub open spec fn has_no_parent(p: Seq<char>) -> bool {
    forall|j: int| 0 <= j < p.len() ==> p[j] != '/'
}

/// The textual parent of a path: everything before the last `/`, or `None`
/// for a path without one. Purely textual, like resolution itself.
pub fn parent_of(path: &str) -> (out: Option<String>)
    ensures
        match out {
            Some(par) => is_parent_of(par@, path@),
            None => has_no_parent(path@),
        },
{
    let len = path.unicode_len();
    let mut i = len;
    while i > 0
        invariant
            i <= len,
            len == path@.len(),
            forall|j: int| i <= j < len ==> path@[j] != '/',
        decreases i,
    {
        let c = path.get_char(i - 1);
        if c == '/' {
            let par = path.substring_char(0, i - 1);
            proof {
                assert(splits_at_last_slash(path@, i - 1));
            }
            return Some(par.to_owned());
        }
        i = i - 1;
    }
    None
}

/// The steps a save performs, in order: create the directory (recursively,
/// when one is named), then write the bytes to the path, overwriting any
/// file already there.
pub struct SavePlan {
    /// The parent directory to create before writing, if the path has one.
    pub dir: Option<String>,
    /// The file the bytes are written to.
    pub path: String,
    /// The encoded record.
    pub bytes: Vec<u8>,
}

/// The steps a delete performs, in order: remove the file, then — when the
/// cleanup policy names one — attempt to remove the named directory,
/// discarding any failure: a directory that is not empty, or that cannot be
/// removed, is expected and no error.
pub struct DeletePlan {
    /// The file to remove.
    pub path: String,
    /// The directory to attempt to remove afterwards, only if it is empty.
    /// `None` under the `Dir` strategy: that directory is caller-owned and
    /// is never touched.
    pub parent_to_remove: Option<String>,
}

impl Abserde {
    /// Prepare a save against the given OS config root: resolve the path,
    /// name the parent directory to create, and encode the record under
    /// this descriptor's format.
    pub fn save_plan_with_root(&self, record: &Record, root: &str) -> (plan: SavePlan)
        ensures
            plan.path@ == self.resolved_path(root@),
            plan.bytes@ == encoded_bytes(record_entries(*record), self.format),
            match plan.dir {
                Some(dir) => is_parent_of(dir@, plan.path@),
                None => has_no_parent(plan.path@),
            },
    {
        let path = self.resolve_with_root(root);
        let dir = parent_of(path.as_str());
        let bytes = encode(record, &self.format);
        SavePlan { dir, path, bytes }
    }

    /// Prepare a save, discovering the OS config root when the location
    /// strategy needs it; only then can it fail, with `DirectoryUnavailable`.
    pub fn save_plan(&self, record: &Record) -> (out: Result<SavePlan, Error>)
        ensures
            match out {
                Ok(plan) => {
                    &&& exists|root| #[trigger] self.resolved_path(root) == plan.path@
                    &&& plan.bytes@ == encoded_bytes(record_entries(*record), self.format)
                    &&& match plan.dir {
                        Some(dir) => is_parent_of(dir@, plan.path@),
                        None => has_no_parent(plan.path@),
                    }
                },
                Err(e) => e == Error::DirectoryUnavailable && self.needs_root(),
            },
            !self.needs_root() ==> out is Ok,
    {
        let root = match self.root_for_resolution() {
            Ok(r) => r,
            Err(e) => {
                return Err(e);
            },
        };
        let plan = self.save_plan_with_root(record, root.as_str());
        proof {
            assert(self.resolved_path(root@) == plan.path@);
        }
        Ok(plan)
    }

    /// Prepare a delete against the given OS config root. The caller-owned
    /// directory of a `Dir` location is never named for removal; under every
    /// other strategy the file's textual parent is, to be removed only if it
    /// turns out empty.
    pub fn delete_plan_with_root(&self, root: &str) -> (plan: DeletePlan)
        ensures
            plan.path@ == self.resolved_path(root@),
            self.location is Dir ==> plan.parent_to_remove is None,
            !(self.location is Dir) ==> match plan.parent_to_remove {
                Some(par) => is_parent_of(par@, plan.path@),
                None => has_no_parent(plan.path@),
            },
    {
        let path = self.resolve_with_root(root);
        let parent_to_remove = match &self.location {
            Location::Dir(_) => None,
            _ => parent_of(path.as_str()),
        };
        DeletePlan { path, parent_to_remove }
    }

    /// Prepare a delete, discovering the OS config root when the location
    /// strategy needs it; only then can it fail, with `DirectoryUnavailable`.
    pub fn delete_plan(&self) -> (out: Result<DeletePlan, Error>)
        ensures
            match out {
                Ok(plan) => {
                    &&& exists|root| #[trigger] self.resolved_path(root) == plan.path@
                    &&& (self.location is Dir ==> plan.parent_to_remove is None)
                    &&& (!(self.location is Dir) ==> match plan.parent_to_remove {
                        Some(par) => is_parent_of(par@, plan.path@),
                        None => has_no_parent(plan.path@),
                    })
                },
                Err(e) => e == Error::DirectoryUnavailable && self.needs_root(),
            },
            !self.needs_root() ==> out is Ok,
    {
        let root = match self.root_for_resolution() {
            Ok(r) => r,
            Err(e) => {
                return Err(e);
            },
        };
        let plan = self.delete_plan_with_root(root.as_str());
        proof {
            assert(self.resolved_path(root@) == plan.path@);
        }
        Ok(plan)
    }

    /// The compute half of a load: decode bytes read back from the resolved
    /// file under this descriptor's format. Bytes that `encode` produced
    /// under this descriptor decode to the record they encode; malformed
    /// bytes fail with `DecodingFailure`.
    pub fn load_from_bytes(&self, bytes: &Vec<u8>) -> (out: Result<Record, Error>)
        ensures
            out matches Err(e) ==> e == Error::DecodingFailure,
            forall|m|
                #![trigger encoded_bytes(m, self.format)]
                round_trip_keys(m, self.format) && bytes@ == encoded_bytes(m, self.format)
                    ==> decodes_to(out, m),
    {
        decode(bytes, &self.format)
    }
}

/// Under the `Auto` strategy the textual parent of the resolved path — the
/// directory a save creates and a delete may remove once empty — is exactly
/// the app's own directory under the OS config root, provided the app name
/// holds no `/`.
pub proof fn lemma_auto_parent(d: Abserde, root: Seq<char>)
    requires
        d.location is Auto,
        forall|j: int| 0 <= j < d.app@.len() ==> d.app@[j] != '/',
    ensures
        is_parent_of(root + "/"@ + d.app@, d.resolved_path(root)),
{
    reveal_strlit("/");
    reveal_strlit("config.json");
    reveal_strlit("config.yaml");
    reveal_strlit("config.pickle");
    reveal_strlit("config.ini");
    reveal_strlit("config.toml");
    let p = d.resolved_path(root);
    let name = d.format.default_name_seq();
    let i = root.len() + 1 + d.app@.len() as int;
    assert(forall|j: int| 0 <= j < name.len() ==> name[j] != '/');
    assert(p =~= root + "/"@ + d.app@ + "/"@ + name);
    assert(splits_at_last_slash(p, i));
    assert(p.subrange(0, i) =~= root + "/"@ + d.app@);
}

/// Save-then-load law, up to the filesystem: the bytes a save plan writes,
/// decoded again under the same descriptor, yield a record with the same
/// entries as the one saved. (A load after a save reads exactly the written
/// bytes back, so this is the computing half of that round trip.)
pub fn saved_bytes_reload(d: &Abserde, record: &Record, root: &str) -> (out: Result<Record, Error>)
    ensures
        round_trip_keys(record_entries(*record), d.format) ==> decodes_to(
            out,
            record_entries(*record),
        ),
{
    let plan = d.save_plan_with_root(record, root);
    d.load_from_bytes(&plan.bytes)
}

} // verus!
