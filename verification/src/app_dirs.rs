//! Where configuration and saved filters live, given the platform
//! directories and which of them exist.

use vstd::prelude::*;
use crate::text::{push_char, push_str, string_of};

verus! {

/// `base` joined with the relative path `name`, with one `/` between them
/// unless `base` is empty or already ends in `/`.
pub open spec fn joined(base: Seq<char>, name: Seq<char>) -> Seq<char> {
    if base.len() == 0 || base.last() == '/' {
        base + name
    } else {
        base + seq!['/'] + name
    }
}

/// Joins the relative path `name` onto `base`.
pub fn path_join(base: &str, name: &str) -> (r: String)
    ensures
        r@ == joined(base@, name@),
{
    let mut r = string_of(base);
    let n = base.unicode_len();
    if n > 0 && base.get_char(n - 1) != '/' {
        push_char(&mut r, '/');
    }
    push_str(&mut r, name);
    r
}

/// The directory in use: the current one when it exists, else the legacy
/// one when that exists, else the current one; none when either location
/// is unknown.
pub open spec fn chosen_dir(
    current: Option<Seq<char>>,
    legacy: Option<Seq<char>>,
    current_exists: bool,
    legacy_exists: bool,
) -> Option<Seq<char>> {
    match (current, legacy) {
        (Some(c), Some(l)) => if current_exists {
            Some(c)
        } else if legacy_exists {
            Some(l)
        } else {
            Some(c)
        },
        _ => None,
    }
}

/// The view of an optional string.
pub open spec fn opt_view(v: Option<&str>) -> Option<Seq<char>> {
    match v {
        Some(s) => Some(s@),
        None => None,
    }
}

/// The view of an optional owned string.
pub open spec fn opt_string_view(v: Option<String>) -> Option<Seq<char>> {
    match v {
        Some(s) => Some(s@),
        None => None,
    }
}

fn choose_dir(current: Option<&str>, legacy: Option<&str>, current_exists: bool, legacy_exists: bool) -> (r: Option<String>)
    ensures
        opt_string_view(r) == chosen_dir(opt_view(current), opt_view(legacy), current_exists, legacy_exists),
{
    match (current, legacy) {
        (Some(c), Some(l)) => if current_exists {
            Some(string_of(c))
        } else if legacy_exists {
            Some(string_of(l))
        } else {
            Some(string_of(c))
        },
        _ => None,
    }
}

/// The configuration directory, from the current and the legacy
/// per-application configuration directories and whether each exists.
pub fn config_dir(current: Option<&str>, legacy: Option<&str>, current_exists: bool, legacy_exists: bool) -> (r: Option<String>)
    ensures
        opt_string_view(r) == chosen_dir(opt_view(current), opt_view(legacy), current_exists, legacy_exists),
{
    choose_dir(current, legacy, current_exists, legacy_exists)
}

/// The local data directory, from the current and the legacy
/// per-application data directories and whether each exists.
pub fn data_local_dir(current: Option<&str>, legacy: Option<&str>, current_exists: bool, legacy_exists: bool) -> (r: Option<String>)
    ensures
        opt_string_view(r) == chosen_dir(opt_view(current), opt_view(legacy), current_exists, legacy_exists),
{
    choose_dir(current, legacy, current_exists, legacy_exists)
}

/// `name` inside the optional directory `dir`.
pub open spec fn file_in(dir: Option<Seq<char>>, name: Seq<char>) -> Option<Seq<char>> {
    match dir {
        Some(d) => Some(joined(d, name)),
        None => None,
    }
}

fn join_opt(dir: Option<&str>, name: &str) -> (r: Option<String>)
    ensures
        opt_string_view(r) == file_in(opt_view(dir), name@),
{
    match dir {
        Some(d) => Some(path_join(d, name)),
        None => None,
    }
}

/// The configuration file inside the configuration directory in use.
pub fn config_file(config_dir: Option<&str>) -> (r: Option<String>)
    ensures
        opt_string_view(r) == file_in(opt_view(config_dir), "config.toml"@),
{
    join_opt(config_dir, "config.toml")
}

/// The configuration file inside the current configuration directory.
pub fn current_config_file(current_dir: Option<&str>) -> (r: Option<String>)
    ensures
        opt_string_view(r) == file_in(opt_view(current_dir), "config.toml"@),
{
    join_opt(current_dir, "config.toml")
}

/// The configuration file inside the legacy configuration directory.
pub fn legacy_config_file(legacy_dir: Option<&str>) -> (r: Option<String>)
    ensures
        opt_string_view(r) == file_in(opt_view(legacy_dir), "config.toml"@),
{
    join_opt(legacy_dir, "config.toml")
}

/// The filter directory inside the local data directory in use.
pub fn filter_dir(data_dir: Option<&str>) -> (r: Option<String>)
    ensures
        opt_string_view(r) == file_in(opt_view(data_dir), "filters"@),
{
    join_opt(data_dir, "filters")
}

} // verus!
