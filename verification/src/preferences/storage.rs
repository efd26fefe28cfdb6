//! Where the preferences are stored.

use std::path::{Path, PathBuf};
use vstd::prelude::*;

use crate::paths::{join, path_joined};

verus! {

/// Where the preferences are stored.
pub fn get_preferences_path(app_data_dir: &Path) -> (path: PathBuf)
    ensures
        path == path_joined(app_data_dir, "preferences.json"@),
{
    join(app_data_dir, "preferences.json")
}

} // verus!
