//! XDG paths for Klippo's config, database and image storage.
//!
//! The base directories come from the `directories` crate and depend on the
//! environment (`$HOME`, `$XDG_*`); they are `None` when no home directory can
//! be determined.

use vstd::prelude::*;

use crate::actions::{join_path, joined_path};
use crate::text::{join_words, lowercase, words};

verus! {

/// The name `directories` gives a project's directory on Linux: the
/// application name's whitespace-separated words, each lowercased, run
/// together.
pub open spec fn project_name(application: Seq<char>) -> Seq<char> {
    join_words(words(application).map_values(|w: Seq<char>| lowercase(w)), seq![])
}

/// Some path that is `name` joined onto a directory.
pub open spec fn is_child_path(p: Seq<char>, name: Seq<char>) -> bool {
    exists|dir: Seq<char>| p == joined_path(dir, name)
}

/// A path named `name` inside one of Klippo's own directories (a directory
/// that is `klippo`'s project name joined onto a base directory).
pub open spec fn in_project_dir(p: Seq<char>, name: Seq<char>) -> bool {
    exists|dir: Seq<char>| is_child_path(dir, project_name("klippo"@)) && p == joined_path(dir, name)
}

/// The directories of a project, as strings.
struct ProjectPaths {
    project_path: String,
    data_dir: String,
    config_dir: String,
}

/// Calls `directories::ProjectDirs::from` and reads out the project path, the
/// data directory and the config directory (`ProjectDirs::project_path`,
/// `data_dir`, `config_dir`), each converted to a string (lossily for paths
/// that are not UTF-8). On Linux the project path is the application name's
/// words lowercased and run together, and each directory is a base directory
/// (from `$XDG_DATA_HOME`/`$XDG_CONFIG_HOME` or `$HOME`) joined with it. Whether
/// a result comes back, and the base directories, depend on the environment
/// and are not stated.
#[verifier::external_body]
fn project_paths(qualifier: &str, organization: &str, application: &str) -> (r: Option<ProjectPaths>)
    ensures
        r matches Some(p) ==> p.project_path@ == project_name(application@)
            && is_child_path(p.data_dir@, p.project_path@) && is_child_path(
            p.config_dir@,
            p.project_path@,
        ),
{
    match directories::ProjectDirs::from(qualifier, organization, application) {
        None => None,
        Some(d) => Some(ProjectPaths {
            project_path: d.project_path().to_string_lossy().into_owned(),
            data_dir: d.data_dir().to_string_lossy().into_owned(),
            config_dir: d.config_dir().to_string_lossy().into_owned(),
        }),
    }
}

/// `~/.local/share/klippo` (or `$XDG_DATA_HOME/klippo`); `None` when no home
/// directory can be determined.
pub fn data_dir() -> (r: Option<String>)
    ensures
        r matches Some(d) ==> is_child_path(d@, project_name("klippo"@)),
{
    match project_paths("", "", "klippo") {
        Some(p) => Some(p.data_dir),
        None => None,
    }
}

/// `~/.config/klippo` (or `$XDG_CONFIG_HOME/klippo`); `None` when no home
/// directory can be determined.
pub fn config_dir() -> (r: Option<String>)
    ensures
        r matches Some(d) ==> is_child_path(d@, project_name("klippo"@)),
{
    match project_paths("", "", "klippo") {
        Some(p) => Some(p.config_dir),
        None => None,
    }
}

fn child(dir: Option<String>, name: &str) -> (r: Option<String>)
    requires
        dir matches Some(d) ==> is_child_path(d@, project_name("klippo"@)),
    ensures
        match dir {
            Some(d) => r matches Some(p) && p@ == joined_path(d@, name@),
            None => r is None,
        },
        r matches Some(p) ==> in_project_dir(p@, name@),
{
    match dir {
        Some(d) => {
            let p = join_path(d.as_str(), name);
            assert(is_child_path(d@, project_name("klippo"@)) && p@ == joined_path(d@, name@));
            Some(p)
        },
        None => None,
    }
}

/// `~/.config/klippo/config.toml`
pub fn config_path() -> (r: Option<String>)
    ensures
        r matches Some(p) ==> in_project_dir(p@, "config.toml"@),
{
    child(config_dir(), "config.toml")
}

/// `~/.local/share/klippo/history.db`
pub fn db_path() -> (r: Option<String>)
    ensures
        r matches Some(p) ==> in_project_dir(p@, "history.db"@),
{
    child(data_dir(), "history.db")
}

/// `~/.local/share/klippo/images`
pub fn images_dir() -> (r: Option<String>)
    ensures
        r matches Some(p) ==> in_project_dir(p@, "images"@),
{
    child(data_dir(), "images")
}

/// `~/.local/share/klippo/thumbs`
pub fn thumbs_dir() -> (r: Option<String>)
    ensures
        r matches Some(p) ==> in_project_dir(p@, "thumbs"@),
{
    child(data_dir(), "thumbs")
}

/// The stored file for content `id` in `dir`: `{dir}/{id}.png`.
pub fn png_path(dir: &str, id: &str) -> (r: String)
    ensures
        r@ == joined_path(dir@, id@ + ".png"@),
{
    let mut name = id.to_owned();
    crate::text::push_str(&mut name, ".png");
    join_path(dir, name.as_str())
}

} // verus!
