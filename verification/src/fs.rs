//! An explicit model of the parts of the filesystem the emitter consults:
//! directory listings (filenames only) and file-existence answers.  A
//! directory that could not be read is simply absent, which makes read
//! failure indistinguishable from "no matches" — exactly the non-fatal
//! policy the locator wants.

use crate::artifact;
use crate::config::{spec_opt_to_seq, view_opt, ResolvedConfig};
use crate::strutil;
use vstd::prelude::*;

verus! {

/// The filenames found in one directory.
pub struct DirListing {
    pub path: String,
    pub names: Vec<String>,
}

/// Whether one path names an existing file.
pub struct FileStat {
    pub path: String,
    pub exists: bool,
}

/// Snapshot of everything the emitter may ask of the filesystem.
pub struct FsView {
    pub dirs: Vec<DirListing>,
    pub files: Vec<FileStat>,
}

/// Names in the first listing recorded for `p`, if one was recorded.
pub open spec fn spec_listing(dirs: Seq<DirListing>, p: Seq<char>) -> Option<Seq<Seq<char>>>
    decreases dirs.len(),
{
    if dirs.len() == 0 {
        None
    } else if dirs[0].path@ == p {
        Some(dirs[0].names.deep_view())
    } else {
        spec_listing(dirs.skip(1), p)
    }
}

/// Whether `p` was recorded as an existing file; an unrecorded path
/// counts as absent.
pub open spec fn spec_exists(files: Seq<FileStat>, p: Seq<char>) -> bool
    decreases files.len(),
{
    if files.len() == 0 {
        false
    } else if files[0].path@ == p {
        files[0].exists
    } else {
        spec_exists(files.skip(1), p)
    }
}

/// The artifact chosen from directory `p` for `lib<prefix>`, under the
/// given kind preference; an unreadable or unrecorded directory yields
/// nothing.
pub open spec fn spec_find_in_dir(
    dirs: Seq<DirListing>,
    p: Seq<char>,
    prefix: Seq<char>,
    prefer_dynamic: bool,
) -> Option<Seq<char>> {
    match spec_listing(dirs, p) {
        Some(names) => artifact::spec_find_lib(names, prefix, prefer_dynamic),
        None => None,
    }
}

impl FsView {
    /// Does `path` name an existing file in this snapshot?
    pub fn file_exists(&self, path: &str) -> (r: bool)
        ensures
            r == spec_exists(self.files@, path@),
    {
        let n = self.files.len();
        let mut i: usize = 0;
        proof {
            assert(self.files@.skip(0) =~= self.files@);
        }
        while i < n
            invariant
                i <= n,
                n == self.files@.len(),
                spec_exists(self.files@, path@) == spec_exists(self.files@.skip(i as int), path@),
            decreases n - i,
        {
            proof {
                assert(self.files@.skip(i as int)[0] == self.files@[i as int]);
                assert(self.files@.skip(i as int).skip(1) =~= self.files@.skip(i as int + 1));
            }
            let entry = &self.files[i];
            if strutil::str_eq(entry.path.as_str(), path) {
                return entry.exists;
            }
            i = i + 1;
        }
        false
    }

    /// Choose a library artifact from the listing of `path`.
    pub fn find_in_dir(&self, path: &str, prefix: &str, prefer_dynamic: bool) -> (r: Option<
        String,
    >)
        ensures
            r is Some <==> spec_find_in_dir(self.dirs@, path@, prefix@, prefer_dynamic) is Some,
            r matches Some(v) ==> spec_find_in_dir(self.dirs@, path@, prefix@, prefer_dynamic)
                == Some(v@),
    {
        let n = self.dirs.len();
        let mut i: usize = 0;
        proof {
            assert(self.dirs@.skip(0) =~= self.dirs@);
        }
        while i < n
            invariant
                i <= n,
                n == self.dirs@.len(),
                spec_listing(self.dirs@, path@) == spec_listing(
                    self.dirs@.skip(i as int),
                    path@,
                ),
            decreases n - i,
        {
            proof {
                assert(self.dirs@.skip(i as int)[0] == self.dirs@[i as int]);
                assert(self.dirs@.skip(i as int).skip(1) =~= self.dirs@.skip(i as int + 1));
            }
            let entry = &self.dirs[i];
            if strutil::str_eq(entry.path.as_str(), path) {
                return artifact::find_lib(&entry.names, prefix, prefer_dynamic);
            }
            i = i + 1;
        }
        None
    }
}

/// The directories the emitter will ask listings of, given the resolved
/// configuration: the Boost library directory, and the `lib` directories
/// under the LZ4 and protobuf roots.
pub open spec fn spec_scan_dirs(cfg: ResolvedConfig) -> Seq<Seq<char>> {
    spec_opt_to_seq(view_opt(cfg.boost_lib)) + spec_opt_to_seq(
        match view_opt(cfg.lz4_dir) {
            Some(d) => Some(d + "/lib"@),
            None => None,
        },
    ) + spec_opt_to_seq(
        match view_opt(cfg.pb_dir) {
            Some(d) => Some(d + "/lib"@),
            None => None,
        },
    )
}

/// The file paths the emitter will ask existence of: the explicit LZ4
/// and protobuf library files.
pub open spec fn spec_scan_files(cfg: ResolvedConfig) -> Seq<Seq<char>> {
    spec_opt_to_seq(view_opt(cfg.lz4_lib)) + spec_opt_to_seq(view_opt(cfg.pb_lib))
}

/// Directories to list and files to stat so that an `FsView` answers
/// every question the emitter will ask for this configuration.
pub fn scan_requests(cfg: &ResolvedConfig) -> (r: (Vec<String>, Vec<String>))
    ensures
        r.0.deep_view() == spec_scan_dirs(*cfg),
        r.1.deep_view() == spec_scan_files(*cfg),
{
    let mut dirs: Vec<String> = Vec::new();
    if let Some(bl) = &cfg.boost_lib {
        dirs.push(bl.clone());
    }
    if let Some(d) = &cfg.lz4_dir {
        dirs.push(strutil::concat2(d.as_str(), "/lib"));
    }
    if let Some(d) = &cfg.pb_dir {
        dirs.push(strutil::concat2(d.as_str(), "/lib"));
    }
    let mut files: Vec<String> = Vec::new();
    if let Some(p) = &cfg.lz4_lib {
        files.push(p.clone());
    }
    if let Some(p) = &cfg.pb_lib {
        files.push(p.clone());
    }
    proof {
        assert(dirs.deep_view() =~~= spec_scan_dirs(*cfg));
        assert(files.deep_view() =~~= spec_scan_files(*cfg));
    }
    (dirs, files)
}

} // verus!
