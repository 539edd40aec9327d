use vstd::prelude::*;

verus! {

/// Calls `directories::ProjectDirs::from` for the given project and returns
/// its per-user configuration directory as the path's platform-encoded
/// bytes (`OsStr::as_encoded_bytes`, which keeps every path exactly). Which
/// directory it is depends on the platform and the user's environment, and
/// it is absent when no home directory can be found; that is not claimed.
/// Claimed is only that a directory it gives is not empty: on every
/// platform the crate joins a non-empty component (`.config`,
/// `Library/Application Support`, `config`) onto its base.
#[verifier::external_body]
fn project_config_dir(qualifier: &str, organization: &str, application: &str) -> (dir: Option<
    Vec<u8>,
>)
    ensures
        dir matches Some(d) ==> d@.len() > 0,
{
    match directories::ProjectDirs::from(qualifier, organization, application) {
        Some(dirs) => Some(dirs.config_dir().as_os_str().as_encoded_bytes().to_vec()),
        None => None,
    }
}

/// Reads `std::path::MAIN_SEPARATOR`, the platform's path separator, as its
/// ASCII byte: `/` on Unix-like systems and `\` on Windows.
#[verifier::external_body]
fn main_separator() -> (sep: u8)
    ensures
        sep == SLASH || sep == BACKSLASH,
{
    std::path::MAIN_SEPARATOR as u8
}

/// The byte of `/`.
pub const SLASH: u8 = 0x2f;

/// The byte of `\`.
pub const BACKSLASH: u8 = 0x5c;

/// The directory used when the platform offers no configuration directory:
/// `.mukalujauh`.
pub open spec fn fallback_app_dir() -> Seq<u8> {
    seq![0x2eu8, 0x6d, 0x75, 0x6b, 0x61, 0x6c, 0x75, 0x6a, 0x61, 0x75, 0x68]
}

/// `config.toml`.
pub open spec fn config_file_name() -> Seq<u8> {
    seq![0x63u8, 0x6f, 0x6e, 0x66, 0x69, 0x67, 0x2e, 0x74, 0x6f, 0x6d, 0x6c]
}

/// `identities.enc`.
pub open spec fn database_file_name() -> Seq<u8> {
    seq![0x69u8, 0x64, 0x65, 0x6e, 0x74, 0x69, 0x74, 0x69, 0x65, 0x73, 0x2e, 0x65, 0x6e, 0x63]
}

/// `b` separates path components on a platform whose main separator is `sep`.
pub open spec fn is_separator(b: u8, sep: u8) -> bool {
    b == sep || b == SLASH
}

/// The path of the file `file` inside the directory `dir` (paths as their
/// encoded bytes): a separator is put between them unless `dir` is empty or
/// already ends in one.
pub open spec fn joined(dir: Seq<u8>, sep: u8, file: Seq<u8>) -> Seq<u8> {
    if dir.len() == 0 || is_separator(dir.last(), sep) {
        dir + file
    } else {
        dir.push(sep) + file
    }
}

/// The application directory: the platform's configuration directory for
/// the project when there is one, else `.mukalujauh`.
pub open spec fn app_dir_choice(found: Option<Seq<u8>>) -> Seq<u8> {
    match found {
        Some(dir) => dir,
        None => fallback_app_dir(),
    }
}

/// The bytes of an optional byte vector.
pub open spec fn bytes_view(v: Option<Vec<u8>>) -> Option<Seq<u8>> {
    match v {
        Some(b) => Some(b@),
        None => None,
    }
}

/// Where the configuration and the encrypted profile database live. Paths
/// are handed out as the platform-encoded bytes of an `OsStr`.
pub struct ConfigManager;

impl ConfigManager {
    /// The application directory given what the platform offered.
    pub fn app_dir_from(found: Option<Vec<u8>>) -> (dir: Vec<u8>)
        ensures
            dir@ == app_dir_choice(bytes_view(found)),
    {
        match found {
            Some(dir) => dir,
            None => vec![0x2eu8, 0x6d, 0x75, 0x6b, 0x61, 0x6c, 0x75, 0x6a, 0x61, 0x75, 0x68],
        }
    }

    /// The per-user configuration directory of `com.mukalujauh.mukalujauh`,
    /// or `.mukalujauh` when the platform has none (see `app_dir_from`);
    /// never empty.
    pub fn get_app_dir() -> (dir: Vec<u8>)
        ensures
            dir@.len() > 0,
    {
        let found = project_config_dir("com", "mukalujauh", "mukalujauh");
        Self::app_dir_from(found)
    }

    /// The path of `file` inside `dir`, with `sep` as the separator.
    pub fn join_path(dir: &[u8], sep: u8, file: &[u8]) -> (path: Vec<u8>)
        ensures
            path@ == joined(dir@, sep, file@),
    {
        let mut path: Vec<u8> = Vec::new();
        path.extend_from_slice(dir);
        let n: usize = dir.len();
        if n > 0 && !(dir[n - 1] == sep || dir[n - 1] == SLASH) {
            path.push(sep);
        }
        path.extend_from_slice(file);
        proof {
            if dir@.len() == 0 || is_separator(dir@.last(), sep) {
                assert(path@ == dir@ + file@);
            } else {
                assert(path@ == dir@.push(sep) + file@);
            }
        }
        path
    }

    /// The configuration file, `config.toml` in the application directory.
    pub fn get_config_path() -> (path: Vec<u8>)
        ensures
            exists|dir: Seq<u8>, sep: u8|
                dir.len() > 0 && (sep == SLASH || sep == BACKSLASH) && path@ == joined(
                    dir,
                    sep,
                    config_file_name(),
                ),
    {
        let name: Vec<u8> = vec![0x63u8, 0x6f, 0x6e, 0x66, 0x69, 0x67, 0x2e, 0x74, 0x6f, 0x6d, 0x6c];
        proof {
            assert(name@ == config_file_name());
        }
        let path = Self::path_in_app_dir(name.as_slice());
        proof {
            let (dir, sep) = choose|dir: Seq<u8>, sep: u8|
                dir.len() > 0 && (sep == SLASH || sep == BACKSLASH) && path@ == joined(dir, sep, name@);
            assert(dir.len() > 0 && (sep == SLASH || sep == BACKSLASH) && path@ == joined(
                dir,
                sep,
                config_file_name(),
            ));
        }
        path
    }

    /// The encrypted profile database, `identities.enc` in the application
    /// directory.
    pub fn get_database_path() -> (path: Vec<u8>)
        ensures
            exists|dir: Seq<u8>, sep: u8|
                dir.len() > 0 && (sep == SLASH || sep == BACKSLASH) && path@ == joined(
                    dir,
                    sep,
                    database_file_name(),
                ),
    {
        let name: Vec<u8> = vec![
            0x69u8, 0x64, 0x65, 0x6e, 0x74, 0x69, 0x74, 0x69, 0x65, 0x73, 0x2e, 0x65, 0x6e, 0x63,
        ];
        proof {
            assert(name@ == database_file_name());
        }
        let path = Self::path_in_app_dir(name.as_slice());
        proof {
            let (dir, sep) = choose|dir: Seq<u8>, sep: u8|
                dir.len() > 0 && (sep == SLASH || sep == BACKSLASH) && path@ == joined(dir, sep, name@);
            assert(dir.len() > 0 && (sep == SLASH || sep == BACKSLASH) && path@ == joined(
                dir,
                sep,
                database_file_name(),
            ));
        }
        path
    }

    /// The file `file` in the application directory.
    fn path_in_app_dir(file: &[u8]) -> (path: Vec<u8>)
        ensures
            exists|dir: Seq<u8>, sep: u8|
                dir.len() > 0 && (sep == SLASH || sep == BACKSLASH) && path@ == joined(
                    dir,
                    sep,
                    file@,
                ),
    {
        let dir = Self::get_app_dir();
        let sep: u8 = main_separator();
        let path = Self::join_path(dir.as_slice(), sep, file);
        proof {
            assert(dir@.len() > 0 && (sep == SLASH || sep == BACKSLASH) && path@ == joined(
                dir@,
                sep,
                file@,
            ));
        }
        path
    }
}

} // verus!
