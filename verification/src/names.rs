//! The program's name and the names of its folders and files.
use vstd::prelude::*;
use crate::text::{push_all, string_of};
use crate::updater::CURRENT_VERSION;

verus! {

/// Display name of the program.
pub const APP_NAME: &'static str = "必应每日壁纸库";

/// Folder under `%LOCALAPPDATA%` that holds the program's data.
pub const DATA_DIR_NAME: &'static str = "BingWallpaperLib";

/// Default download folder, under the data folder.
pub const WALLPAPERS_DIR_NAME: &'static str = "Wallpapers";

/// Thumbnails of downloaded wallpapers, under the data folder.
pub const THUMBNAILS_DIR_NAME: &'static str = "downloaded-thumbnails";

/// Folder of the extracted download tool, under the data folder.
pub const TOOLS_DIR_NAME: &'static str = "bin";

/// Folder of downloaded updates, under the data folder.
pub const UPDATE_DIR_NAME: &'static str = "update";

/// Cached wallpaper list.
pub const CACHE_FILE_NAME: &'static str = "wallpapers_cache.json";

/// Favorite days.
pub const FAVORITES_FILE_NAME: &'static str = "favorites.json";

/// Settings.
pub const SETTINGS_FILE_NAME: &'static str = "settings.json";

pub open spec fn window_title_text() -> Seq<char> {
    APP_NAME@ + " v"@ + CURRENT_VERSION@
}

/// Window and taskbar title, with the version.
pub fn app_window_title() -> (r: String)
    ensures
        r@ == window_title_text(),
{
    let mut out: Vec<char> = Vec::new();
    push_all(&mut out, APP_NAME);
    push_all(&mut out, " v");
    push_all(&mut out, CURRENT_VERSION);
    string_of(out.as_slice())
}

pub open spec fn is_lower_hex(c: char) -> bool {
    ('0' <= c <= '9') || ('a' <= c <= 'f')
}

/// Calls `uuid::Uuid::new_v4` and writes it with `simple()`. uuid writes
/// the random identifier as 32 lowercase hexadecimal digits; which digits
/// is left to chance.
#[verifier::external_body]
fn random_identifier() -> (r: String)
    ensures
        r@.len() == 32,
        forall|i: int| 0 <= i < r@.len() ==> is_lower_hex(#[trigger] r@[i]),
{
    uuid::Uuid::new_v4().simple().to_string()
}

pub open spec fn tool_file_name_of(id: Seq<char>) -> Seq<char> {
    "aria2c-"@ + id + ".exe"@
}

/// File name for the download tool extracted for one run: `aria2c-`, the
/// identifier and `.exe`.
pub fn tool_file_name(id: &str) -> (r: String)
    ensures
        r@ == tool_file_name_of(id@),
{
    let mut out: Vec<char> = Vec::new();
    push_all(&mut out, "aria2c-");
    push_all(&mut out, id);
    push_all(&mut out, ".exe");
    string_of(out.as_slice())
}

/// A fresh file name for the download tool, with a random identifier of
/// 32 lowercase hexadecimal digits.
pub fn new_tool_file_name() -> (r: String)
    ensures
        exists|id: Seq<char>|
            id.len() == 32 && (forall|i: int| 0 <= i < id.len() ==> is_lower_hex(#[trigger] id[i]))
                && r@ == #[trigger] tool_file_name_of(id),
{
    let id = random_identifier();
    tool_file_name(id.as_str())
}

} // verus!
