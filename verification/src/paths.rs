//! Where kiro-cli keeps its files.
use vstd::prelude::*;
use vstd::string::*;

use crate::text::{joined, opt_text, texts};

verus! {

/// The operating system, as far as the place of the database depends on it.
#[derive(Clone, Copy, Debug, PartialEq, Eq)]
pub enum Platform {
    MacOs,
    Windows,
    Other,
}

/// The variables that name the directories of the user, where they are set.
#[derive(Debug, PartialEq, Eq)]
pub struct UserDirs {
    /// `HOME`
    pub home: Option<String>,
    /// `USERPROFILE`
    pub user_profile: Option<String>,
    /// `LOCALAPPDATA`
    pub local_app_data: Option<String>,
    /// `XDG_DATA_HOME`
    pub xdg_data_home: Option<String>,
}

impl UserDirs {
    /// The home directory: `HOME`, or else `USERPROFILE`.
    pub open spec fn home_text(self) -> Option<Seq<char>> {
        match self.home {
            Some(h) => Some(h@),
            None => opt_text(self.user_profile),
        }
    }
}

/// A file: a directory and the components that lead from it to the file.
#[derive(Debug, PartialEq, Eq)]
pub struct FileLocation {
    pub base: String,
    pub parts: Vec<String>,
}

/// What a file location holds.
pub struct LocationView {
    pub base: Seq<char>,
    pub parts: Seq<Seq<char>>,
}

impl View for FileLocation {
    type V = LocationView;

    open spec fn view(&self) -> LocationView {
        LocationView { base: self.base@, parts: texts(self.parts@) }
    }
}

/// What each location of a list holds.
pub open spec fn location_views(locations: Seq<FileLocation>) -> Seq<LocationView> {
    locations.map_values(|l: FileLocation| l@)
}

/// The path with a leading `~` replaced by the home directory. There is none when
/// the path begins with `~` and no home directory is known.
pub open spec fn expanded(path: Seq<char>, home: Option<Seq<char>>) -> Option<Seq<char>> {
    if path.len() > 0 && path[0] == '~' {
        match home {
            Some(h) => Some(h + path.skip(1)),
            None => None,
        }
    } else {
        Some(path)
    }
}

/// Where the database may stand, the preferred place first.
pub open spec fn database_places(
    platform: Platform,
    home: Seq<char>,
    local_app_data: Option<Seq<char>>,
    xdg_data_home: Option<Seq<char>>,
) -> Seq<LocationView> {
    match platform {
        Platform::MacOs => seq![
            LocationView {
                base: home,
                parts: seq![
                    "Library"@,
                    "Application Support"@,
                    "kiro-cli"@,
                    "data.sqlite3"@,
                ],
            },
        ],
        Platform::Windows => match local_app_data {
            Some(dir) => seq![
                LocationView { base: dir, parts: seq!["Kiro-Cli"@, "data.sqlite3"@] },
            ],
            None => seq![],
        },
        Platform::Other => {
            let shared = LocationView {
                base: home,
                parts: seq![".local"@, "share"@, "kiro-cli"@, "data.sqlite3"@],
            };
            match xdg_data_home {
                Some(dir) => seq![
                    LocationView { base: dir, parts: seq!["kiro-cli"@, "data.sqlite3"@] },
                    shared,
                ],
                None => seq![shared],
            }
        },
    }
}

/// The file `name` in the token cache below `home`.
pub open spec fn cache_place(home: Seq<char>, name: Seq<char>) -> LocationView {
    LocationView { base: home, parts: seq![".aws"@, "sso"@, "cache"@, name] }
}

/// `chosen` is the first of the paths that exists, or empty when none does.
pub open spec fn first_existing(
    paths: Seq<Seq<char>>,
    exists_at: Seq<bool>,
    chosen: Seq<char>,
) -> bool {
    ||| exists|i: int|
        {
            &&& 0 <= i < paths.len()
            &&& #[trigger] exists_at[i]
            &&& chosen == paths[i]
            &&& forall|j: int| 0 <= j < i ==> !#[trigger] exists_at[j]
        }
    ||| {
        &&& forall|j: int| 0 <= j < paths.len() ==> !#[trigger] exists_at[j]
        &&& chosen.len() == 0
    }
}

/// A list of strings from string slices.
fn owned_texts(list: &[&str]) -> (r: Vec<String>)
    ensures
        r@.len() == list@.len(),
        forall|i: int| 0 <= i < list@.len() ==> #[trigger] r@[i]@ == list@[i]@,
{
    let mut out: Vec<String> = Vec::new();
    let mut i: usize = 0;
    while i < list.len()
        invariant
            i <= list.len(),
            out.len() == i,
            forall|j: int| 0 <= j < i ==> #[trigger] out@[j]@ == list@[j]@,
        decreases list.len() - i,
    {
        out.push(list[i].to_owned());
        i += 1;
    }
    out
}

/// The home directory of the user.
pub fn home_dir(dirs: &UserDirs) -> (r: Result<String, String>)
    ensures
        match dirs.home_text() {
            Some(home) => r matches Ok(s) && s@ == home,
            None => r matches Err(e) && e@ == "无法获取用户主目录"@,
        },
{
    match &dirs.home {
        Some(home) => Ok(home.clone()),
        None => match &dirs.user_profile {
            Some(profile) => Ok(profile.clone()),
            None => Err("无法获取用户主目录".to_string()),
        },
    }
}

/// Replaces a leading `~` by the home directory of the user. The home directory is
/// asked for only when the path begins with `~`.
pub fn expand_home_dir(path: &str, dirs: &UserDirs) -> (r: Result<String, String>)
    ensures
        match expanded(path@, dirs.home_text()) {
            Some(text) => r matches Ok(s) && s@ == text,
            None => r matches Err(e) && e@ == "无法获取用户主目录"@,
        },
{
    let n: usize = path.unicode_len();
    if n > 0 && path.get_char(0) == '~' {
        match home_dir(dirs) {
            Ok(home) => {
                assert(path@.skip(1) =~= path@.subrange(1, n as int));
                Ok(joined(home.as_str(), path.substring_char(1, n)))
            },
            Err(e) => Err(e),
        }
    } else {
        Ok(path.to_owned())
    }
}

/// The places where the database of kiro-cli may stand, the preferred one first.
pub fn database_candidates(platform: Platform, dirs: &UserDirs) -> (r: Result<
    Vec<FileLocation>,
    String,
>)
    ensures
        match dirs.home_text() {
            Some(home) => r matches Ok(v) && location_views(v@) == database_places(
                platform,
                home,
                opt_text(dirs.local_app_data),
                opt_text(dirs.xdg_data_home),
            ),
            None => r matches Err(e) && e@ == "无法获取用户主目录"@,
        },
{
    let home: String = match home_dir(dirs) {
        Ok(home) => home,
        Err(e) => {
            return Err(e);
        },
    };
    let ghost places = database_places(
        platform,
        home@,
        opt_text(dirs.local_app_data),
        opt_text(dirs.xdg_data_home),
    );
    let mut candidates: Vec<FileLocation> = Vec::new();
    match platform {
        Platform::MacOs => {
            let parts: Vec<String> = owned_texts(
                &["Library", "Application Support", "kiro-cli", "data.sqlite3"],
            );
            assert(texts(parts@) =~= places[0].parts);
            candidates.push(FileLocation { base: home, parts });
        },
        Platform::Windows => {
            if let Some(dir) = &dirs.local_app_data {
                let parts: Vec<String> = owned_texts(&["Kiro-Cli", "data.sqlite3"]);
                assert(texts(parts@) =~= places[0].parts);
                candidates.push(FileLocation { base: dir.clone(), parts });
            }
        },
        Platform::Other => {
            if let Some(dir) = &dirs.xdg_data_home {
                let parts: Vec<String> = owned_texts(&["kiro-cli", "data.sqlite3"]);
                assert(texts(parts@) =~= places[0].parts);
                candidates.push(FileLocation { base: dir.clone(), parts });
            }
            let parts: Vec<String> = owned_texts(
                &[".local", "share", "kiro-cli", "data.sqlite3"],
            );
            assert(texts(parts@) =~= places.last().parts);
            candidates.push(FileLocation { base: home, parts });
        },
    }
    assert(location_views(candidates@) =~= places);
    Ok(candidates)
}

/// The first of the paths that exists; empty when none does, so that a caller can
/// show a placeholder.
pub fn choose_existing(paths: &[String], exists_at: &[bool]) -> (r: String)
    requires
        paths@.len() == exists_at@.len(),
    ensures
        first_existing(texts(paths@), exists_at@, r@),
{
    let mut i: usize = 0;
    while i < paths.len()
        invariant
            i <= paths.len(),
            paths@.len() == exists_at@.len(),
            forall|j: int| 0 <= j < i ==> !#[trigger] exists_at@[j],
        decreases paths.len() - i,
    {
        if exists_at[i] {
            assert(texts(paths@)[i as int] == paths@[i as int]@);
            return paths[i].clone();
        }
        i += 1;
    }
    String::new()
}

/// The file `name` in the token cache below `home`.
fn cache_file(home: String, name: &str) -> (r: FileLocation)
    ensures
        r@ == cache_place(home@, name@),
{
    let parts: Vec<String> = owned_texts(&[".aws", "sso", "cache", name]);
    assert(texts(parts@) =~= cache_place(home@, name@).parts);
    FileLocation { base: home, parts }
}

/// The file in which kiro-cli keeps its token.
pub fn token_file(dirs: &UserDirs) -> (r: Result<FileLocation, String>)
    ensures
        match dirs.home_text() {
            Some(home) => r matches Ok(l) && l@ == cache_place(
                home,
                "kiro-auth-token-cli.json"@,
            ),
            None => r matches Err(e) && e@ == "无法获取用户主目录"@,
        },
{
    match home_dir(dirs) {
        Ok(home) => Ok(cache_file(home, "kiro-auth-token-cli.json")),
        Err(e) => Err(e),
    }
}

/// The file with the client registration. Without a home directory it is looked for
/// below an empty path.
pub fn registration_file(dirs: &UserDirs, name: &str) -> (r: FileLocation)
    ensures
        r@ == cache_place(
            match dirs.home_text() {
                Some(home) => home,
                None => Seq::empty(),
            },
            name@,
        ),
{
    match home_dir(dirs) {
        Ok(home) => cache_file(home, name),
        Err(_) => cache_file(String::new(), name),
    }
}

} // verus!
