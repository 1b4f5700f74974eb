//! Where the two folders are: the recent-files folder below the user's
//! application data, and the Prefetch folder below the Windows folder.
//!
//! The caller reads the environment; the paths are put together here, with
//! the backslash as separator.

use vstd::prelude::*;
use vstd::string::*;

use crate::error::{RecentEnablerError, RecentEnablerErrorView};
use crate::text::{ends_with, ends_with_char};

verus! {

/// The recent-files folder, from the application data folder on.
pub const RECENT_SUBFOLDER: &'static str = "Microsoft\\Windows\\Recent";

/// The Prefetch folder, from the Windows folder on.
pub const PREFETCH_SUBFOLDER: &'static str = "Prefetch";

/// `name` below `base`: with one backslash between them, unless `base` is
/// empty or ends in a separator already.
pub open spec fn joined(base: Seq<char>, name: Seq<char>) -> Seq<char> {
    if base.len() == 0 || ends_with(base, '\\') || ends_with(base, '/') {
        base + name
    } else {
        base.push('\\') + name
    }
}

pub fn join(base: &str, name: &str) -> (path: String)
    ensures
        path@ == joined(base@, name@),
{
    let mut path = String::from_str(base);
    if !(base.unicode_len() == 0 || ends_with_char(base, '\\') || ends_with_char(base, '/')) {
        proof {
            reveal_strlit("\\");
        }
        path.append("\\");
        assert(path@ =~= base@.push('\\'));
    }
    path.append(name);
    path
}

pub open spec fn appdata_missing_text() -> Seq<char> {
    "APPDATA is not set"@
}

pub open spec fn windows_missing_text() -> Seq<char> {
    "neither SystemRoot nor windir is set"@
}

/// The recent-files folder, given the `APPDATA` variable; an error where
/// the variable is not set.
pub fn get_recent_folder(appdata: Option<&str>) -> (result: Result<String, RecentEnablerError>)
    ensures
        match appdata {
            Some(base) => result is Ok && result->Ok_0@ == joined(base@, RECENT_SUBFOLDER@),
            None => result is Err && result->Err_0@ == RecentEnablerErrorView::RecentFolderNotFound(
                appdata_missing_text(),
            ),
        },
{
    match appdata {
        Some(base) => Ok(join(base, RECENT_SUBFOLDER)),
        None => Err(
            RecentEnablerError::RecentFolderNotFound(String::from_str("APPDATA is not set")),
        ),
    }
}

/// The Windows folder: `SystemRoot` where it is set, else `windir`.
pub open spec fn windows_folder(system_root: Option<&str>, windir: Option<&str>) -> Option<
    Seq<char>,
> {
    match system_root {
        Some(root) => Some(root@),
        None => match windir {
            Some(dir) => Some(dir@),
            None => None,
        },
    }
}

/// The Prefetch folder, given the `SystemRoot` and `windir` variables; an
/// error where neither is set.
pub fn get_prefetch_folder(system_root: Option<&str>, windir: Option<&str>) -> (result: Result<
    String,
    RecentEnablerError,
>)
    ensures
        match windows_folder(system_root, windir) {
            Some(base) => result is Ok && result->Ok_0@ == joined(base, PREFETCH_SUBFOLDER@),
            None => result is Err && result->Err_0@ == RecentEnablerErrorView::WindowsPathNotFound(
                windows_missing_text(),
            ),
        },
{
    let base = match system_root {
        Some(root) => Some(root),
        None => windir,
    };
    match base {
        Some(folder) => Ok(join(folder, PREFETCH_SUBFOLDER)),
        None => Err(
            RecentEnablerError::WindowsPathNotFound(
                String::from_str("neither SystemRoot nor windir is set"),
            ),
        ),
    }
}

} // verus!
