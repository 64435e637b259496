//! What the command line asks for, and the small decisions made before a
//! database is opened.

use vstd::prelude::*;
use crate::text::{chars_of, push_str, same_text, string_of};
use crate::value::{chars_contain, seq_contains};
use crate::theme::{color_to_hex, hex_text, Theme};

verus! {

/// A subcommand.
#[derive(PartialEq, Eq, Structural, Clone, Copy, Debug)]
pub enum CliCommand {
    /// Report what the terminal supports.
    CheckTerminal,
    /// Print the configuration and data paths in use.
    Paths,
}

/// The parsed command line: a database path and its flags, or a
/// subcommand.
pub struct Cli {
    pub path: Option<String>,
    pub readonly: bool,
    pub no_watch: bool,
    pub command: Option<CliCommand>,
}

/// How to open a database.
#[derive(Debug)]
pub struct OpenOptions {
    pub path: String,
    pub readonly: bool,
    pub watch: bool,
}

/// What the program does.
#[derive(Debug)]
pub enum RunMode {
    Open(OpenOptions),
    CheckTerminal,
    Paths,
}

impl Cli {
    /// The run mode: a subcommand when one is given, else opening the path
    /// with watching on unless `--no-watch`.
    pub fn into_run_mode(self) -> (r: RunMode)
        requires
            self.command is Some || self.path is Some,
        ensures
            match self.command {
                Some(CliCommand::CheckTerminal) => r is CheckTerminal,
                Some(CliCommand::Paths) => r is Paths,
                None => r matches RunMode::Open(o) && o.path == self.path->0 && o.readonly == self.readonly
                    && o.watch == !self.no_watch,
            },
    {
        match self.command {
            Some(CliCommand::CheckTerminal) => RunMode::CheckTerminal,
            Some(CliCommand::Paths) => RunMode::Paths,
            None => {
                let path = match self.path {
                    Some(p) => p,
                    None => String::new(),
                };
                RunMode::Open(OpenOptions { path, readonly: self.readonly, watch: !self.no_watch })
            },
        }
    }
}

/// The in-memory database's name.
pub open spec fn memory_name() -> Seq<char> {
    ":memory:"@
}

/// A database path argument is accepted when it names the in-memory
/// database or an existing file (`exists`).
pub fn parse_database_path(value: &str, exists: bool) -> (r: Result<String, String>)
    ensures
        match r {
            Ok(p) => (value@ == memory_name() || exists) && p@ == value@,
            Err(m) => !(value@ == memory_name() || exists) && m@ == "database file '"@ + value@
                + "' does not exist"@,
        },
{
    if same_text(value, ":memory:") || exists {
        Ok(string_of(value))
    } else {
        let mut m = string_of("database file '");
        push_str(&mut m, value);
        push_str(&mut m, "' does not exist");
        Err(m)
    }
}

/// The database file is watched for outside changes unless watching is off
/// or the database is in memory.
pub fn should_watch_database(path: &str, watch: bool) -> (r: bool)
    ensures
        r == (watch && path@ != memory_name()),
{
    watch && !same_text(path, ":memory:")
}

/// The escape sequence that sets the terminal background to a colour.
pub open spec fn background_osc(hex: Seq<char>) -> Seq<char> {
    "\x1b]11;"@ + hex + "\x07"@
}

/// The escape sequence that sets the terminal background to the theme's.
pub fn terminal_background_osc(theme: &Theme) -> (r: Option<String>)
    ensures
        r is Some && r->0@ == background_osc(hex_text(theme.bg)),
{
    let mut s = string_of("\x1b]11;");
    push_str(&mut s, color_to_hex(theme.bg).as_str());
    push_str(&mut s, "\x07");
    Some(s)
}

/// One line of `paths`: the label and the path, or `unavailable`.
pub open spec fn path_line(label: Seq<char>, path: Option<Seq<char>>) -> Seq<char> {
    match path {
        Some(p) => label + ": "@ + p,
        None => label + ": unavailable"@,
    }
}

/// One line of the `paths` report.
pub fn print_path_line(label: &str, path: Option<&str>) -> (r: String)
    ensures
        r@ == path_line(label@, crate::app_dirs::opt_view(path)),
{
    let mut s = string_of(label);
    match path {
        Some(p) => {
            push_str(&mut s, ": ");
            push_str(&mut s, p);
        },
        None => {
            push_str(&mut s, ": unavailable");
        },
    }
    s
}

/// The Unicode lowercase form of a string.
pub uninterp spec fn unicode_lower(s: Seq<char>) -> Seq<char>;

/// Calls `str::to_lowercase`; the contract names the Unicode mapping and
/// says nothing more of it.
#[verifier::external_body]
fn to_lowercase(s: &str) -> (r: String)
    ensures
        r@ == unicode_lower(s@),
{
    s.to_lowercase()
}

/// The colour support reported for a `COLORTERM` value.
pub open spec fn color_support(colorterm: Seq<char>) -> Seq<char> {
    let l = unicode_lower(colorterm);
    if l == "truecolor"@ || l == "24bit"@ {
        "truecolor ✓"@
    } else if l == "256color"@ {
        "256color"@
    } else {
        "unknown"@
    }
}

/// The terminal capability report for the values of `COLORTERM`,
/// `TERM_PROGRAM` (each `unknown` when unset) and `TERM` (empty when
/// unset), one line each.
pub open spec fn terminal_report_text(colorterm: Seq<char>, term_program: Seq<char>, term: Seq<char>) -> Seq<char> {
    let mouse = if seq_contains(term, seq!['x', 't', 'e', 'r', 'm']) || term_program.len() > 0 {
        "yes"@
    } else {
        "unknown"@
    };
    "Terminal capabilities:\n"@ + "  COLORTERM: "@ + color_support(colorterm) + "\n"@ + "  TERM_PROGRAM: "@
        + (if term_program.len() == 0 { "unknown"@ } else { term_program }) + "\n"@ + "  Mouse support: "@
        + mouse + " (from TERM)\n"@ + "  Unicode: yes\n"@
        + "  Nerd fonts: not detectable (set nerd_font = false in config if icons look wrong)\n"@
}

/// The text `check-terminal` prints.
pub fn terminal_report(colorterm: &str, term_program: &str, term: &str) -> (r: String)
    ensures
        r@ == terminal_report_text(colorterm@, term_program@, term@),
{
    let lower = to_lowercase(colorterm);
    let support = if same_text(lower.as_str(), "truecolor") || same_text(lower.as_str(), "24bit") {
        "truecolor ✓"
    } else if same_text(lower.as_str(), "256color") {
        "256color"
    } else {
        "unknown"
    };
    let xterm = ['x', 't', 'e', 'r', 'm'];
    assert(xterm@ =~= seq!['x', 't', 'e', 'r', 'm']);
    let term_chars = chars_of(term);
    let mouse = if chars_contain(term_chars.as_slice(), &xterm) || term_program.unicode_len() > 0 {
        "yes"
    } else {
        "unknown"
    };
    let mut r = String::new();
    push_str(&mut r, "Terminal capabilities:\n");
    push_str(&mut r, "  COLORTERM: ");
    push_str(&mut r, support);
    push_str(&mut r, "\n");
    push_str(&mut r, "  TERM_PROGRAM: ");
    if term_program.unicode_len() == 0 {
        push_str(&mut r, "unknown");
    } else {
        push_str(&mut r, term_program);
    }
    push_str(&mut r, "\n");
    push_str(&mut r, "  Mouse support: ");
    push_str(&mut r, mouse);
    push_str(&mut r, " (from TERM)\n");
    push_str(&mut r, "  Unicode: yes\n");
    push_str(&mut r, "  Nerd fonts: not detectable (set nerd_font = false in config if icons look wrong)\n");
    assert(r@ =~= terminal_report_text(colorterm@, term_program@, term@));
    r
}

/// The kind of a file-system change.
#[derive(PartialEq, Eq, Structural, Clone, Copy, Debug)]
pub enum ChangeKind {
    Modify,
    Create,
    Remove,
    Other,
}

/// The file names watched for a database: the file and its WAL and
/// shared-memory companions.
pub open spec fn watched(db_file: Seq<char>) -> Seq<Seq<char>> {
    seq![db_file, db_file + "-wal"@, db_file + "-shm"@]
}

/// The file names to watch for a database file.
pub fn watched_names(database_name: &str) -> (v: Vec<String>)
    ensures
        v@.map_values(|s: String| s@) == watched(database_name@),
{
    let mut wal = string_of(database_name);
    push_str(&mut wal, "-wal");
    let mut shm = string_of(database_name);
    push_str(&mut shm, "-shm");
    let v = vec![string_of(database_name), wal, shm];
    assert(v@.map_values(|s: String| s@) =~= watched(database_name@));
    v
}

/// The views of optional strings.
pub open spec fn opt_views(v: Seq<Option<String>>) -> Seq<Option<Seq<char>>> {
    v.map_values(|n: Option<String>| match n {
        Some(s) => Some(s@),
        None => None,
    })
}

/// The views of strings.
pub open spec fn str_views(v: Seq<String>) -> Seq<Seq<char>> {
    v.map_values(|s: String| s@)
}

/// A change is reported when it modifies, creates or removes a file whose
/// name is watched.
pub open spec fn is_watched_change(kind: ChangeKind, names: Seq<Option<Seq<char>>>, watched_names: Seq<Seq<char>>) -> bool {
    &&& kind != ChangeKind::Other
    &&& exists|i: int| 0 <= i < names.len() && (#[trigger] names[i]) is Some && watched_names.contains(names[i]->0)
}

/// Whether a file-system event should refresh the database view; `names`
/// are the file names of the event's paths (none for a path without one).
pub fn should_refresh(kind: ChangeKind, names: &[Option<String>], watched_names: &[String]) -> (r: bool)
    ensures
        r == is_watched_change(
            kind,
            opt_views(names@),
            str_views(watched_names@),
        ),
{
    let ghost nv = opt_views(names@);
    let ghost wv = str_views(watched_names@);
    if kind == ChangeKind::Other {
        return false;
    }
    let mut i: usize = 0;
    while i < names.len()
        invariant
            kind != ChangeKind::Other,
            i <= names@.len(),
            nv == opt_views(names@),
            wv == str_views(watched_names@),
            forall|k: int| 0 <= k < i ==> !((#[trigger] nv[k]) is Some && wv.contains(nv[k]->0)),
        decreases names@.len() - i,
    {
        if let Some(name) = &names[i] {
            let mut j: usize = 0;
            while j < watched_names.len()
                invariant
                    kind != ChangeKind::Other,
                    nv == opt_views(names@),
                    j <= watched_names@.len(),
                    wv == str_views(watched_names@),
                    i < names@.len(),
                    nv[i as int] == Some(name@),
                    forall|q: int| 0 <= q < j ==> wv[q] != name@,
                decreases watched_names@.len() - j,
            {
                if same_text(watched_names[j].as_str(), name.as_str()) {
                    assert(wv[j as int] == name@);
                    assert(wv.contains(name@));
                    assert(nv[i as int] is Some && wv.contains(nv[i as int]->0));
                    return true;
                }
                j = j + 1;
            }
            assert(!wv.contains(name@));
        }
        i = i + 1;
    }
    false
}

/// What starting up does about the configuration file.
#[derive(PartialEq, Eq, Structural, Clone, Copy, Debug)]
pub enum ConfigSetup {
    /// The configuration location is unknown.
    Unavailable,
    /// The current configuration file exists.
    Ready,
    /// Copy the legacy configuration file to the current location.
    CopyLegacy,
    /// Write the default configuration file.
    WriteDefault,
}

/// Keeps an existing configuration file, else migrates the legacy one,
/// else writes the defaults.
pub fn config_setup(current_known: bool, current_exists: bool, legacy_exists: bool) -> (r: ConfigSetup)
    ensures
        r == if !current_known {
            ConfigSetup::Unavailable
        } else if current_exists {
            ConfigSetup::Ready
        } else if legacy_exists {
            ConfigSetup::CopyLegacy
        } else {
            ConfigSetup::WriteDefault
        },
{
    if !current_known {
        ConfigSetup::Unavailable
    } else if current_exists {
        ConfigSetup::Ready
    } else if legacy_exists {
        ConfigSetup::CopyLegacy
    } else {
        ConfigSetup::WriteDefault
    }
}

} // verus!

