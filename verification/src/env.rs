//! The store's environment: where the password store lives, which encryption
//! executable serves it, and the store-level naming conventions.
//!
//! Reading environment variables and probing the filesystem are the caller's
//! work; the functions here take those raw findings as plain values and make
//! every decision that follows from them.

use vstd::prelude::*;

use crate::err::AikotError;
use crate::text::{spec_lines, split_lines};

verus! {

/// The resolved environment of one invocation: the store's base directory
/// and the path of the encryption executable.
#[derive(Debug)]
pub struct AikotEnv {
    base_dir: String,
    gpg_path: String,
}

/// The store directory that the environment values select: an explicit store
/// directory wins, else the `.password-store` directory under the home
/// directory, else there is no valid environment.
pub fn password_store_dir(store_dir: Option<String>, home: Option<String>) -> (r: Result<
    String,
    AikotError,
>)
    ensures
        store_dir matches Some(d) ==> (r matches Ok(p) && p@ == d@),
        store_dir is None ==> (home matches Some(h) ==> (r matches Ok(p) && p@ == h@
            + "/.password-store"@)),
        store_dir is None && home is None ==> (r matches Err(AikotError::InvalidEnv { name })
            && name@ == "HOME"@),
{
    match store_dir {
        Some(dir) => Ok(dir),
        None => match home {
            Some(home) => {
                let mut p = home;
                p.append("/.password-store");
                Ok(p)
            },
            None => Err(AikotError::InvalidEnv { name: String::from_str("HOME") }),
        },
    }
}

/// The encryption executable that a search for `gpg`, then `gpg2`, turned
/// up; no find is an error of its own.
pub fn gpg_path(found: Option<String>) -> (r: Result<String, AikotError>)
    ensures
        found matches Some(p) ==> r == Ok::<String, AikotError>(p),
        found is None ==> r == Err::<String, AikotError>(AikotError::GpgNotFound),
{
    match found {
        Some(p) => Ok(p),
        None => Err(AikotError::GpgNotFound),
    }
}

/// The editor command that the environment names, or an invalid-environment
/// error naming the variable that is missing.
pub fn editor_cmd(editor: Option<String>) -> (r: Result<String, AikotError>)
    ensures
        editor matches Some(e) ==> r == Ok::<String, AikotError>(e),
        editor is None ==> (r matches Err(AikotError::InvalidEnv { name }) && name@
            == "EDITOR"@),
{
    match editor {
        Some(e) => Ok(e),
        None => Err(AikotError::InvalidEnv { name: String::from_str("EDITOR") }),
    }
}

impl AikotEnv {
    /// The store's base directory.
    pub closed spec fn spec_base_dir(&self) -> Seq<char> {
        self.base_dir@
    }

    /// The path of the encryption executable.
    pub closed spec fn spec_gpg_path(&self) -> Seq<char> {
        self.gpg_path@
    }

    /// Resolves the environment from the raw values the caller read: the
    /// optional explicit store directory, the optional home directory, and
    /// the encryption executable a search of the path turned up, if any.
    /// A missing store location is reported before a missing executable.
    pub fn from_env(store_dir: Option<String>, home: Option<String>, gpg: Option<String>) -> (r:
        Result<AikotEnv, AikotError>)
        ensures
            r matches Ok(env) ==> {
                &&& store_dir is Some || home is Some
                &&& gpg is Some
                &&& store_dir matches Some(d) ==> env.spec_base_dir() == d@
                &&& store_dir is None ==> (home matches Some(h) ==> env.spec_base_dir() == h@
                    + "/.password-store"@)
                &&& gpg matches Some(g) ==> env.spec_gpg_path() == g@
            },
            store_dir is None && home is None ==> (r matches Err(AikotError::InvalidEnv { name })
                && name@ == "HOME"@),
            (store_dir is Some || home is Some) && gpg is None ==> r == Err::<
                AikotEnv,
                AikotError,
            >(AikotError::GpgNotFound),
    {
        let base_dir = match password_store_dir(store_dir, home) {
            Ok(d) => d,
            Err(e) => {
                return Err(e);
            },
        };
        let gpg_path = match gpg_path(gpg) {
            Ok(p) => p,
            Err(e) => {
                return Err(e);
            },
        };
        Ok(AikotEnv { base_dir, gpg_path })
    }

    /// The store's base directory.
    pub fn base_dir(&self) -> (r: &String)
        ensures
            r@ == self.spec_base_dir(),
    {
        &self.base_dir
    }

    /// The path of the encryption executable.
    pub fn gpg_path(&self) -> (r: &String)
        ensures
            r@ == self.spec_gpg_path(),
    {
        &self.gpg_path
    }

    /// The path of the store's recipient list.
    pub fn gpg_id_path(&self) -> (r: String)
        ensures
            r@ == self.spec_base_dir() + "/.gpg-id"@,
    {
        let mut p = self.base_dir.clone();
        p.append("/.gpg-id");
        p
    }

    /// The recipient identities of the store, given the contents of its
    /// recipient list (`None` where the list file does not exist): one
    /// identity per line.  A missing or empty list is an error: nothing
    /// could be encrypted then.
    pub fn get_recipients(&self, gpg_id_contents: Option<&String>) -> (r: Result<
        Vec<String>,
        AikotError,
    >)
        ensures
            gpg_id_contents matches Some(c) ==> (spec_lines(c@).len() > 0 ==> (r matches Ok(recs)
                && recs.deep_view() == spec_lines(c@))),
            gpg_id_contents matches Some(c) ==> (spec_lines(c@).len() == 0 ==> r == Err::<
                Vec<String>,
                AikotError,
            >(AikotError::RecipientNotFound)),
            gpg_id_contents is None ==> r == Err::<Vec<String>, AikotError>(
                AikotError::RecipientNotFound,
            ),
    {
        if let Some(contents) = gpg_id_contents {
            let recs = split_lines(contents.as_str());
            if recs.len() > 0 {
                proof {
                    assert(recs.deep_view().len() == recs@.len());
                }
                return Ok(recs);
            }
        }
        Err(AikotError::RecipientNotFound)
    }

    /// The path under which a secret of the given name is stored: the base
    /// directory, the name, and the `.gpg` extension.
    pub fn password_store_file(&self, name: &str) -> (r: Result<String, AikotError>)
        ensures
            r matches Ok(p) && p@ == self.spec_base_dir() + "/"@ + name@ + ".gpg"@,
    {
        let mut p = self.base_dir.clone();
        p.append("/");
        p.append(name);
        p.append(".gpg");
        Ok(p)
    }
}

} // verus!
