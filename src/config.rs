use vstd::prelude::*;

verus! {

/// Failures while settling where the database file lives.
pub enum ConfigError {
    /// The file system refused an operation; the text describes it.
    IoError(String),
    /// The path cannot hold the database (not a regular file, or no parent
    /// directory).
    InvalidPath(String),
    /// A database path was given that does not exist.
    DbPathNodExists(String),
    /// No default location: the home directory is unknown.
    FaildToGetHome,
}

/// What the file system says about a path.
#[derive(PartialEq, Eq, Structural, Clone, Copy, Debug)]
pub enum PathKind {
    Missing,
    File,
    Other,
}

/// Where the database file lives under the home directory when no path is
/// requested.
pub const DEFAULT_DB_SUBPATH: &'static str = "/.local/share/frecency/db/frecency.db3";

/// The default database path for the home directory `home`.
pub open spec fn default_dbpath_of(home: Seq<char>) -> Seq<char> {
    home + DEFAULT_DB_SUBPATH@
}

/// Where the database file lives.
pub struct Config {
    pub dbpath: String,
}

impl Config {
    /// Settles the database path. A requested path is used when it names an
    /// existing regular file (`kind` says what it names); without one the
    /// default path under the home directory `home` is used, which exists
    /// only where the home directory is known.
    pub fn new(requested: Option<String>, kind: PathKind, home: Option<String>) -> (r:
        Result<Config, ConfigError>)
        ensures
            requested is Some && kind == PathKind::File ==> r is Ok && r->Ok_0.dbpath@
                == requested->Some_0@,
            requested is Some && kind == PathKind::Missing ==> r is Err && r->Err_0 is DbPathNodExists
                && r->Err_0->DbPathNodExists_0@ == requested->Some_0@,
            requested is Some && kind == PathKind::Other ==> r is Err && r->Err_0 is InvalidPath
                && r->Err_0->InvalidPath_0@ == requested->Some_0@,
            requested is None && home is Some ==> r is Ok && r->Ok_0.dbpath@ == default_dbpath_of(
                home->Some_0@,
            ),
            requested is None && home is None ==> r is Err && r->Err_0 is FaildToGetHome,
    {
        match requested {
            Some(p) => match kind {
                PathKind::File => Ok(Config { dbpath: p }),
                PathKind::Missing => Err(ConfigError::DbPathNodExists(p)),
                PathKind::Other => Err(ConfigError::InvalidPath(p)),
            },
            None => match home {
                Some(h) => {
                    let mut d = h;
                    d.append(DEFAULT_DB_SUBPATH);
                    Ok(Config { dbpath: d })
                },
                None => Err(ConfigError::FaildToGetHome),
            },
        }
    }
}

} // verus!
