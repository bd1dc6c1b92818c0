//! The decisions around the database: where its file lives and how stored values read.

use vstd::prelude::*;

use crate::text::{before_first, split_first, strip_leading, trim_start_matches, same_text};

verus! {

/// The file path in a SQLite URL: the `sqlite://` and then the `sqlite:` prefixes
/// stripped (each as often as it repeats), and the query string cut off.
pub open spec fn url_file_path(url: Seq<char>) -> Seq<char> {
    before_first(strip_leading(strip_leading(url, "sqlite://"@), "sqlite:"@), '?')
}

/// The database file whose directory must exist before the pool opens it: none for an
/// empty path or an in-memory database.
pub open spec fn database_file(url: Seq<char>) -> Option<Seq<char>> {
    let p = url_file_path(url);
    if p.len() == 0 || p == ":memory:"@ {
        None
    } else {
        Some(p)
    }
}

/// The database file of `database_url`, if it names one on disk.
pub fn database_file_path(database_url: &str) -> (r: Option<String>)
    ensures
        match r {
            Some(p) => database_file(database_url@) == Some(p@),
            None => database_file(database_url@) is None,
        },
{
    proof {
        reveal_strlit("sqlite://");
        reveal_strlit("sqlite:");
    }
    let a = trim_start_matches(database_url, "sqlite://");
    let b = trim_start_matches(a.as_str(), "sqlite:");
    let path = split_first(b.as_str(), '?');
    if path.as_str().is_empty() || same_text(path.as_str(), ":memory:") {
        return None;
    }
    Some(path)
}

/// Whether a stored credential count means that the email has a credential.
pub fn email_has_credential(count: i64) -> (r: bool)
    ensures
        r == (count > 0),
{
    count > 0
}

/// Whether the stored phase flag means that phase 2 is active.
pub fn phase2_active(stored: i64) -> (r: bool)
    ensures
        r == (stored != 0),
{
    stored != 0
}

} // verus!
