//! Remembered window sizes, kept in `window-state.json` beside the menu
//! layout: where the file is, which size a window opens with, and the
//! text written back when a window closes.

use vstd::prelude::*;
use crate::actions::{join, join_path};
use crate::settings_gui::config::{config_dir, config_dir_for, config_dir_path};

verus! {

broadcast use vstd::string::group_string_axioms;

/// The window-state file for the given `$XDG_CONFIG_HOME` and home directory.
pub fn window_state_path_for(xdg_config_home: Option<String>, home: Option<String>) -> (r: String)
    ensures
        r@ == join_path(
            config_dir_path(xdg_config_home.deep_view(), home.deep_view()),
            "window-state.json"@,
        ),
{
    let dir = config_dir_for(xdg_config_home, home);
    join(dir.as_str(), "window-state.json")
}

/// The window-state file: `window-state.json` in the configuration directory.
pub fn window_state_path(xdg_config_home: Option<String>) -> (r: String)
    ensures
        exists|home: Option<Seq<char>>|
            r@ == join_path(config_dir_path(xdg_config_home.deep_view(), home), "window-state.json"@),
{
    let dir = config_dir(xdg_config_home);
    join(dir.as_str(), "window-state.json")
}

/// The size a window opens with: the stored width and height (cast to
/// `i32`, keeping the low bits) when both were stored as integers, else the default.
pub fn window_size(stored: Option<(Option<i64>, Option<i64>)>, default_w: i32, default_h: i32) -> (r: (
    i32,
    i32,
))
    ensures
        match stored {
            Some((Some(w), Some(h))) => r == (w as i32, h as i32),
            _ => r == (default_w, default_h),
        },
{
    match stored {
        Some((Some(w), Some(h))) => (w as i32, h as i32),
        _ => (default_w, default_h),
    }
}

/// What serde_json reads in the window-state text `text` for the window
/// `key`: none when the text is not JSON or has no entry for the key;
/// otherwise its `width` and `height` when they are integers that fit an `i64`.
pub uninterp spec fn spec_stored_size(text: Seq<char>, key: Seq<char>) -> Option<
    (Option<i64>, Option<i64>),
>;

/// `serde_json::from_str::<Value>`, then `Value::get(key)` and `as_i64` of
/// its `width` and `height`. Trusted: the result is `spec_stored_size` of the
/// text and the key.
#[verifier::external_body]
fn stored_size(text: &str, key: &str) -> (r: Option<(Option<i64>, Option<i64>)>)
    ensures
        r == spec_stored_size(text@, key@),
{
    let val: serde_json::Value = serde_json::from_str(text).ok()?;
    let obj = val.get(key)?;
    Some((
        obj.get("width").and_then(serde_json::Value::as_i64),
        obj.get("height").and_then(serde_json::Value::as_i64),
    ))
}

/// The size window `key` opens with, from the window-state file's text
/// (`None` when it could not be read): the stored width and height when
/// both are integers, else the default.
pub fn load_window_size(text: Option<String>, key: &str, default_w: i32, default_h: i32) -> (r: (
    i32,
    i32,
))
    ensures
        r == (match (match text {
            Some(t) => spec_stored_size(t@, key@),
            None => None,
        }) {
            Some((Some(w), Some(h))) => (w as i32, h as i32),
            _ => (default_w, default_h),
        }),
{
    let stored = match text {
        Some(t) => stored_size(t.as_str(), key),
        None => None,
    };
    window_size(stored, default_w, default_h)
}

/// The window-state text after remembering `width` × `height` for window
/// `key`, as serde_json writes it (pretty-printed).
pub uninterp spec fn spec_merged_state(old: Seq<char>, key: Seq<char>, width: i32, height: i32) -> Seq<
    char,
>;

/// `serde_json::from_str::<Value>` of the old text, its object (an empty one
/// when the text is not a JSON object), `Map::insert` of `key` ↦
/// `{"width", "height"}`, then `serde_json::to_string_pretty`. Trusted: the
/// result is `spec_merged_state` of the arguments; printing a map of strings
/// and integers cannot fail.
#[verifier::external_body]
fn merged_state(old: &str, key: &str, width: i32, height: i32) -> (r: String)
    ensures
        r@ == spec_merged_state(old@, key@, width, height),
{
    let parsed: Option<serde_json::Value> = serde_json::from_str(old).ok();
    let mut obj: serde_json::Map<String, serde_json::Value> =
        parsed.as_ref().and_then(serde_json::Value::as_object).cloned().unwrap_or_default();
    let mut size = serde_json::Map::new();
    size.insert("width".to_string(), serde_json::Value::from(width));
    size.insert("height".to_string(), serde_json::Value::from(height));
    obj.insert(key.to_string(), serde_json::Value::Object(size));
    serde_json::to_string_pretty(&obj).unwrap_or_default()
}

/// The text to write back to the window-state file after window `key`
/// closed at `width` × `height`; `old` is the file's text (`None` when it
/// could not be read, then the other windows' entries are not kept).
pub fn save_window_size(old: Option<String>, key: &str, width: i32, height: i32) -> (r: String)
    ensures
        r@ == spec_merged_state(
            match old {
                Some(t) => t@,
                None => ""@,
            },
            key@,
            width,
            height,
        ),
{
    match old {
        Some(t) => merged_state(t.as_str(), key, width, height),
        None => merged_state("", key, width, height),
    }
}

} // verus!
