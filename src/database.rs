//! Where the store lives: the SQLite location derived from a configured path.

use vstd::prelude::*;
use crate::model::opt_view;
use crate::text::{seq_starts_with, text_starts_with};

verus! {

/// The URL of a database at `path`: the path itself when it already carries
/// the `sqlite://` scheme, otherwise the path after that scheme.
pub open spec fn url_for(path: Seq<char>) -> Seq<char> {
    if seq_starts_with(path, "sqlite://"@) {
        path
    } else {
        "sqlite://"@ + path
    }
}

/// The URL used when no path is configured.
pub open spec fn default_url() -> Seq<char> {
    "sqlite://./database.db"@
}

/// The file behind a URL: the URL without its `sqlite://` scheme, if it has one.
pub open spec fn file_of(url: Seq<char>) -> Seq<char> {
    if seq_starts_with(url, "sqlite://"@) {
        url.subrange("sqlite://"@.len() as int, url.len() as int)
    } else {
        url
    }
}

fn url_of_path(path: &String) -> (r: String)
    ensures
        r@ == url_for(path@),
{
    if text_starts_with(path.as_str(), "sqlite://") {
        path.clone()
    } else {
        let mut r = String::from_str("sqlite://");
        r.append(path.as_str());
        r
    }
}

/// Holds the configured database path.
pub struct DatabaseManager {
    db_path: Option<String>,
}

impl DatabaseManager {
    pub closed spec fn path(&self) -> Option<String> {
        self.db_path
    }

    pub fn new(db_path: Option<String>) -> (r: DatabaseManager)
        ensures
            r.path() == db_path,
    {
        DatabaseManager { db_path }
    }

    pub fn get_db_path(&self) -> (r: &Option<String>)
        ensures
            *r == self.path(),
    {
        &self.db_path
    }

    /// The URL of the configured database, or of the default one.
    pub fn build_database_url(&self) -> (r: String)
        ensures
            r@ == match self.path() {
                Some(p) => url_for(p@),
                None => default_url(),
            },
    {
        match &self.db_path {
            Some(path) => url_of_path(path),
            None => String::from_str("sqlite://./database.db"),
        }
    }

    /// The URL of the configured database, if a path is configured.
    pub fn get_db_path_for_connection(&self) -> (r: Option<String>)
        ensures
            opt_view(r) == match self.path() {
                Some(p) => Some(url_for(p@)),
                None => None,
            },
    {
        match &self.db_path {
            Some(path) => Some(url_of_path(path)),
            None => None,
        }
    }

    /// The file that holds the database.
    pub fn database_file_path(&self) -> (r: String)
        ensures
            r@ == file_of(
                match self.path() {
                    Some(p) => url_for(p@),
                    None => default_url(),
                },
            ),
    {
        let url = self.build_database_url();
        let scheme = "sqlite://";
        if text_starts_with(url.as_str(), scheme) {
            proof {
                reveal_strlit("sqlite://");
            }
            let n = url.as_str().unicode_len();
            String::from_str(url.as_str().substring_char(9, n))
        } else {
            url
        }
    }
}

} // verus!
