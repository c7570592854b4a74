//! File paths of the local storage: each user has a directory of files, and one per chat session.

use crate::ids::{hyphenated_text, Uuid};
use crate::text::{chars_of, push_char, push_str};
use vstd::prelude::*;

verus! {

/// Local storage of files under a base directory.
#[derive(Debug)]
pub struct LocalStorage {
    pub base_path: String,
}

/// Errors of storage paths.
#[derive(Debug, Clone, Copy, PartialEq, Eq, Structural)]
pub enum StoragePathError {
    /// A file path must be relative to the user's directory.
    NotRelative,
}

impl StoragePathError {
    /// The message of the error.
    pub fn message(&self) -> (r: &'static str)
        ensures
            r@ == "Path must be relative"@,
    {
        "Path must be relative"
    }
}

/// Whether a path is relative: it does not start at the root.
pub open spec fn is_relative_path(p: Seq<char>) -> bool {
    !(p.len() > 0 && p[0] == '/')
}

/// A relative path joined onto a directory: a separator is put between them unless the directory
/// is empty or already ends with one.
pub open spec fn path_join(dir: Seq<char>, p: Seq<char>) -> Seq<char> {
    if dir.len() == 0 || dir.last() == '/' {
        dir + p
    } else {
        dir + seq!['/'] + p
    }
}

/// The directory of a user's files: `<base>/<user>/sessions/<session>` for the files of a chat
/// session, `<base>/<user>/files` for the others.
pub open spec fn user_directory(base: Seq<char>, user: u128, session: Option<u128>) -> Seq<char> {
    let dir = path_join(base, hyphenated_text(user));
    match session {
        Some(s) => path_join(path_join(dir, "sessions"@), hyphenated_text(s)),
        None => path_join(dir, "files"@),
    }
}

/// The bits of an optional session ID.
pub open spec fn session_bits(session_id: Option<&Uuid>) -> Option<u128> {
    match session_id {
        Some(s) => Some(s.bits),
        None => None,
    }
}

/// Join a relative path onto a directory.
pub fn join_path(dir: &str, p: &str) -> (r: String)
    ensures
        r@ == path_join(dir@, p@),
{
    let cs = chars_of(dir);
    let mut r = dir.to_string();
    if cs.len() > 0 && cs[cs.len() - 1] != '/' {
        push_char(&mut r, '/');
    }
    push_str(&mut r, p);
    assert(dir@.len() > 0 ==> dir@.last() == cs@[cs@.len() - 1]);
    r
}

impl LocalStorage {
    pub fn new(base_path: String) -> (r: Self)
        ensures
            r.base_path == base_path,
    {
        LocalStorage { base_path }
    }

    fn get_user_directory(&self, user_id: &Uuid, session_id: Option<&Uuid>) -> (r: String)
        ensures
            r@ == user_directory(self.base_path@, user_id.bits, session_bits(session_id)),
    {
        let user = user_id.to_string();
        let dir = join_path(self.base_path.as_str(), user.as_str());
        match session_id {
            Some(session_id) => {
                let sessions = join_path(dir.as_str(), "sessions");
                let session = session_id.to_string();
                proof {
                    reveal_strlit("sessions");
                }
                join_path(sessions.as_str(), session.as_str())
            },
            None => {
                proof {
                    reveal_strlit("files");
                }
                join_path(dir.as_str(), "files")
            },
        }
    }

    /// The full path of a user's file, given by its path relative to the user's directory (that of
    /// the chat session, if one is given). A path that is not relative is refused.
    pub fn get_file_path(&self, user_id: &Uuid, session_id: Option<&Uuid>, path: &str) -> (r: Result<
        String,
        StoragePathError,
    >)
        ensures
            match r {
                Ok(p) => is_relative_path(path@) && p@ == path_join(
                    user_directory(self.base_path@, user_id.bits, session_bits(session_id)),
                    path@,
                ),
                Err(e) => !is_relative_path(path@) && e == StoragePathError::NotRelative,
            },
    {
        let cs = chars_of(path);
        if cs.len() > 0 && cs[0] == '/' {
            return Err(StoragePathError::NotRelative);
        }
        let dir = self.get_user_directory(user_id, session_id);
        Ok(join_path(dir.as_str(), path))
    }
}

} // verus!
