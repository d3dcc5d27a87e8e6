//! Race-free staging of plaintext: path construction for the uniquely-named
//! staging file, and the handle that owns such a path for a scope.
//!
//! The caller that performs filesystem work must create the file with an
//! exclusive-creation flag (so a colliding or planted name fails instead of
//! being reused) and with owner-only access, and must delete the path exactly
//! once when the handle is released, whatever else happened in between.  The
//! name logic here guarantees the part that can be guaranteed before touching
//! the disk: the shape of the name, and that distinct suffixes give distinct
//! paths.

use vstd::prelude::*;

use crate::entropy::{alphanum_charset, gen_random_alphanum_from, DrawSource};

verus! {

/// How many random alphanumeric characters follow the fixed prefix in a
/// staging file name.
pub const SUFFIX_LEN: usize = 6;

/// The staging path built from a directory and a random suffix: the
/// directory, a separator, the fixed recognizable prefix, and the suffix.
pub open spec fn spec_staging_path(dir: Seq<char>, suffix: Seq<char>) -> Seq<char> {
    dir + "/aikot-"@ + suffix
}

/// Two staging names in one directory differ whenever their suffixes differ.
pub proof fn lemma_staging_paths_distinct(dir: Seq<char>, s1: Seq<char>, s2: Seq<char>)
    requires
        s1.len() == s2.len(),
        s1 != s2,
    ensures
        spec_staging_path(dir, s1) != spec_staging_path(dir, s2),
{
    reveal_strlit("/aikot-");
    if spec_staging_path(dir, s1) == spec_staging_path(dir, s2) {
        assert forall|k: int| 0 <= k < s1.len() implies s1[k] == s2[k] by {
            assert(spec_staging_path(dir, s1)[dir.len() + 7 + k] == s1[k]);
            assert(spec_staging_path(dir, s2)[dir.len() + 7 + k] == s2[k]);
        }
        assert(s1 =~= s2);
    }
}

/// A fresh staging path under `dir`: the fixed prefix followed by
/// [`SUFFIX_LEN`] random alphanumeric characters, drawn from the given
/// source.
pub fn create_temp_path_from<S: DrawSource>(dir: &str, source: &mut S) -> (r: String)
    ensures
        exists|suffix: Seq<char>|
            {
                &&& r@ == spec_staging_path(dir@, suffix)
                &&& suffix.len() == SUFFIX_LEN
                &&& forall|i: int| 0 <= i < suffix.len() ==> alphanum_charset().contains(
                    #[trigger] suffix[i],
                )
            },
{
    let suffix = gen_random_alphanum_from(source, SUFFIX_LEN);
    let mut path = String::from_str(dir);
    path.append("/aikot-");
    path.append(suffix.as_str());
    proof {
        assert(path@ =~= spec_staging_path(dir@, suffix@));
    }
    path
}

/// A fresh staging path under `dir`, with its suffix drawn from the
/// operating system's random generator.
pub fn create_temp_path(dir: &str) -> (r: String)
    ensures
        exists|suffix: Seq<char>|
            {
                &&& r@ == spec_staging_path(dir@, suffix)
                &&& suffix.len() == SUFFIX_LEN
                &&& forall|i: int| 0 <= i < suffix.len() ==> alphanum_charset().contains(
                    #[trigger] suffix[i],
                )
            },
{
    let mut source = crate::entropy::OsDrawSource;
    create_temp_path_from(dir, &mut source)
}

/// Owns the path of one staging file from creation to release.
///
/// Rust's ownership does the bookkeeping the deletion guarantee needs: the
/// path can only be taken out of the handle once, by [`TempPath::release`],
/// which consumes the handle.  The caller that released it performs the one
/// deletion; it must do so on every exit path of its scope.
pub struct TempPath {
    path: String,
}

impl TempPath {
    /// Takes ownership of a freshly created staging path.
    pub fn new(path: String) -> (r: TempPath)
        ensures
            r@ == path@,
    {
        TempPath { path }
    }

    /// The path this handle owns.
    pub fn path(&self) -> (r: &String)
        ensures
            r@ == self@,
    {
        &self.path
    }

    /// Gives the path up for deletion, consuming the handle: after this, the
    /// path cannot be read from the handle again, so it is deleted at most
    /// once.
    pub fn release(self) -> (r: String)
        ensures
            r@ == self@,
    {
        self.path
    }
}

impl View for TempPath {
    type V = Seq<char>;

    closed spec fn view(&self) -> Seq<char> {
        self.path@
    }
}

} // verus!
