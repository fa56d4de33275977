//! The secondary-storage condition: where the persisted-storage database file
//! lives, and when its existence satisfies the wait.
//!
//! The readiness signal is the mere existence of the database file at a
//! platform-convention-derived location. The environment values and the
//! file-existence probe come from the caller; deriving the path from them
//! and reading the condition from the outcome is decided — and verified — here.

use vstd::prelude::*;

use crate::port::view_opt;

verus! {

/// The platform-convention location of the persisted-storage database: the
/// data home — `XDG_DATA_HOME` when set and non-empty, else
/// `~/.local/share` — with `opencode/opencode.db` under it, or nothing when
/// no home directory can be determined.
/// The fallback data home under the home directory, if one is known.
pub open spec fn home_data_base(home_dir: Option<Seq<char>>) -> Option<Seq<char>> {
    match home_dir {
        Some(h) => Some(h + "/.local/share"@),
        None => None,
    }
}

pub open spec fn db_path_spec(xdg_data_home: Option<Seq<char>>, home_dir: Option<Seq<char>>) -> Option<
    Seq<char>,
> {
    let base = match xdg_data_home {
        Some(x) => if x.len() > 0 {
            Some(x)
        } else {
            home_data_base(home_dir)
        },
        None => home_data_base(home_dir),
    };
    match base {
        Some(b) => Some(b + "/opencode/opencode.db"@),
        None => None,
    }
}

/// Derives the database file's path from the environment's data-home
/// values. An empty `XDG_DATA_HOME` counts as unset; with no home directory
/// either, the path cannot be determined.
pub fn opencode_db_path(xdg_data_home: Option<&str>, home_dir: Option<&str>) -> (r: Result<
    String,
    String,
>)
    ensures
        db_path_spec(view_opt(xdg_data_home), view_opt(home_dir)) matches Some(p) ==> r matches Ok(
            s,
        ) && s@ == p,
        db_path_spec(view_opt(xdg_data_home), view_opt(home_dir)) is None ==> (r matches Err(e)
            && e@ == "cannot determine home directory"@),
{
    let base: Option<String> = match xdg_data_home {
        Some(x) => if !x.is_empty() {
            Some(String::from_str(x))
        } else {
            match home_dir {
                Some(h) => {
                    let mut b = String::from_str(h);
                    b.append("/.local/share");
                    Some(b)
                },
                None => None,
            }
        },
        None => match home_dir {
            Some(h) => {
                let mut b = String::from_str(h);
                b.append("/.local/share");
                Some(b)
            },
            None => None,
        },
    };
    match base {
        Some(mut b) => {
            b.append("/opencode/opencode.db");
            Ok(b)
        },
        None => Err(String::from_str("cannot determine home directory")),
    }
}

/// Whether the storage condition counts as satisfied: the caller probed the
/// derived path for existence and feeds the outcome in. Where no path could
/// be determined at all, the condition is treated as satisfied rather than
/// stalling startup forever on a question that cannot be answered.
pub fn sqlite_file_exists(db_path: &Result<String, String>, file_present: bool) -> (r: bool)
    ensures
        r == (db_path is Err || file_present),
{
    match db_path {
        Ok(_) => file_present,
        Err(_) => true,
    }
}

} // verus!
