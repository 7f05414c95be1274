//! Where the program keeps its files. Each directory is chosen from an
//! explicit override (read from the environment by the caller), then the
//! platform's directory for the project or user, then a fallback under the
//! working directory.

use vstd::prelude::*;

verus! {

/// The first of the override and the platform directory that is given,
/// else `fallback`.
pub open spec fn chosen_dir(overridden: Option<String>, platform: Option<String>, fallback: Seq<char>) -> Seq<char> {
    match overridden {
        Some(s) => s@,
        None => match platform {
            Some(p) => p@,
            None => fallback,
        },
    }
}

fn choose_dir(overridden: Option<String>, platform: Option<String>, fallback: &str) -> (r: String)
    ensures
        r@ == chosen_dir(overridden, platform, fallback@),
{
    match overridden {
        Some(s) => s,
        None => match platform {
            Some(p) => p,
            None => fallback.to_owned(),
        },
    }
}

/// The favorites directory: the override, else the project's local data
/// directory, else `./.favorites`.
pub fn get_favorites_dir(overridden: Option<String>, project_data_local_dir: Option<String>) -> (r: String)
    ensures
        r@ == chosen_dir(overridden, project_data_local_dir, "./.favorites"@),
{
    choose_dir(overridden, project_data_local_dir, "./.favorites")
}

/// The data directory: the override, else the project's local data
/// directory, else `./.data`.
pub fn get_data_dir(overridden: Option<String>, project_data_local_dir: Option<String>) -> (r: String)
    ensures
        r@ == chosen_dir(overridden, project_data_local_dir, "./.data"@),
{
    choose_dir(overridden, project_data_local_dir, "./.data")
}

/// The configuration directory: the override, else the project's local
/// configuration directory, else `./.config`.
pub fn get_config_dir(overridden: Option<String>, project_config_local_dir: Option<String>) -> (r: String)
    ensures
        r@ == chosen_dir(overridden, project_config_local_dir, "./.config"@),
{
    choose_dir(overridden, project_config_local_dir, "./.config")
}

/// The export directory: the override, else the user's download directory,
/// else `./.export`.
pub fn get_export_dir(overridden: Option<String>, user_download_dir: Option<String>) -> (r: String)
    ensures
        r@ == chosen_dir(overridden, user_download_dir, "./.export"@),
{
    choose_dir(overridden, user_download_dir, "./.export")
}

} // verus!
