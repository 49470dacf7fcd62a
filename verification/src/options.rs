//! The options a directory copy runs with.

use vstd::prelude::*;

verus! {

/// How a recursive directory copy treats the destination.
///
/// The fields are those of `fs_extra::dir::CopyOptions`, one for one, so that
/// the embedding program can hand them over without interpreting them.
#[derive(Clone, Copy, Debug, PartialEq, Eq, Structural)]
pub struct CopyOptions {
    /// Replace a file that already exists at the destination.
    pub overwrite: bool,
    /// Leave a file that already exists at the destination as it is, without
    /// reporting a failure. Has no effect while `overwrite` is set.
    pub skip_exist: bool,
    /// Bytes moved between two progress reports. Only copies that report
    /// progress read it.
    pub buffer_size: usize,
    /// Create every missing directory above what is written. Unless
    /// `content_only` is set, a destination that is missing then becomes the
    /// copy itself, and one that is there receives a directory named after
    /// the source.
    pub copy_inside: bool,
    /// Put the children of the source directly into the destination, whether
    /// it is there already or not, and never a directory named after the
    /// source.
    pub content_only: bool,
    /// How many levels of the source are read; 0 reads all of them.
    pub depth: u64,
}

/// The options of a copy that nobody has configured.
pub open spec fn unconfigured() -> CopyOptions {
    CopyOptions {
        overwrite: false,
        skip_exist: false,
        buffer_size: 64000,
        copy_inside: false,
        content_only: false,
        depth: 0,
    }
}

/// The options of a merge copy: the unconfigured ones, but the destination is
/// created where it is missing, the children of the source become children of
/// the destination, and a file that is already there is replaced.
pub open spec fn merge_copy() -> CopyOptions {
    CopyOptions { overwrite: true, copy_inside: true, content_only: true, ..unconfigured() }
}

/// Calls `fs_extra::dir::CopyOptions::new` and moves the six fields of what it
/// returns into this crate's type. The contract repeats the values that
/// function writes into the struct: nothing is overwritten or skipped, 64000
/// bytes of buffer, no copying inside, not the contents only, unlimited depth.
#[verifier::external_body]
fn fs_extra_defaults() -> (options: CopyOptions)
    ensures
        options == unconfigured(),
{
    let given = fs_extra::dir::CopyOptions::new();
    CopyOptions {
        overwrite: given.overwrite,
        skip_exist: given.skip_exist,
        buffer_size: given.buffer_size,
        copy_inside: given.copy_inside,
        content_only: given.content_only,
        depth: given.depth,
    }
}

impl CopyOptions {
    /// The options of a copy that nobody has configured.
    pub fn defaults() -> (options: CopyOptions)
        ensures
            options == unconfigured(),
    {
        fs_extra_defaults()
    }

    /// The options of a merge copy.
    ///
    /// With them the source directory is never nested inside the destination,
    /// a missing destination is created together with its missing parents,
    /// every level of the source is read, and a file of the source replaces
    /// the file found at the same relative path.
    pub fn merging() -> (options: CopyOptions)
        ensures
            options == merge_copy(),
    {
        let mut options = CopyOptions::defaults();
        options.copy_inside = true;
        options.content_only = true;
        options.overwrite = true;
        options
    }
}

} // verus!
