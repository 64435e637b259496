//! Interface glyphs and their overrides from the configuration file.

use vstd::prelude::*;
use crate::text::{nat_decimal, push_char, push_decimal, push_str, string_of};

verus! {

/// The glyphs the interface draws with.
pub struct Symbols {
    pub arrow_up: char,
    pub arrow_down: char,
    pub arrow_left: char,
    pub arrow_right: char,
    pub range_dash: char,
    pub sort_asc: char,
    pub sort_desc: char,
    pub separator: char,
    pub breadcrumb_prefix: char,
    pub breadcrumb_separator: String,
    pub empty_placeholder: char,
    pub missing_placeholder: char,
    pub ellipsis: char,
    pub cursor: char,
    pub active_bar: char,
    pub selection: char,
    pub loading: char,
    pub enter: char,
    pub foreign_key_arrow: char,
    pub bool_true: char,
    pub bool_false: char,
    pub valid: char,
    pub invalid: char,
    pub readonly: char,
    pub dropdown: char,
    pub table_icon: String,
    pub view_icon: String,
    pub index_icon: String,
    pub help_icon: String,
    pub filter_icon: String,
    pub filter_marker: String,
    pub folder_open: String,
    pub folder_closed: String,
    pub pk_icon: String,
    pub fk_icon: String,
    pub tab_shortcuts: [String; 10],
    pub box_horizontal: char,
    pub box_vertical: char,
    pub focus_top_left: char,
    pub focus_top_right: char,
    pub focus_bottom_left: char,
    pub focus_bottom_right: char,
    pub tab_top_left: char,
    pub tab_top_right: char,
    pub tab_join_left: char,
    pub tab_join_right: char,
    pub tab_close: char,
    pub table_rule_header_mid: char,
    pub table_rule_cross_mid: char,
    pub scrollbar_thumb: char,
}

/// Glyph overrides as read from the `[symbols]` table; absent entries keep
/// the defaults.
pub struct SymbolOverrides {
    pub arrow_up: Option<String>,
    pub arrow_down: Option<String>,
    pub arrow_left: Option<String>,
    pub arrow_right: Option<String>,
    pub range_dash: Option<String>,
    pub sort_asc: Option<String>,
    pub sort_desc: Option<String>,
    pub separator: Option<String>,
    pub breadcrumb_prefix: Option<String>,
    pub breadcrumb_separator: Option<String>,
    pub empty_placeholder: Option<String>,
    pub missing_placeholder: Option<String>,
    pub ellipsis: Option<String>,
    pub cursor: Option<String>,
    pub active_bar: Option<String>,
    pub selection: Option<String>,
    pub loading: Option<String>,
    pub enter: Option<String>,
    pub foreign_key_arrow: Option<String>,
    pub bool_true: Option<String>,
    pub bool_false: Option<String>,
    pub valid: Option<String>,
    pub invalid: Option<String>,
    pub readonly: Option<String>,
    pub dropdown: Option<String>,
    pub table_icon: Option<String>,
    pub view_icon: Option<String>,
    pub index_icon: Option<String>,
    pub help_icon: Option<String>,
    pub filter_icon: Option<String>,
    pub filter_marker: Option<String>,
    pub folder_open: Option<String>,
    pub folder_closed: Option<String>,
    pub pk_icon: Option<String>,
    pub fk_icon: Option<String>,
    pub tab_shortcuts: Option<Vec<String>>,
    pub box_horizontal: Option<String>,
    pub box_vertical: Option<String>,
    pub focus_top_left: Option<String>,
    pub focus_top_right: Option<String>,
    pub focus_bottom_left: Option<String>,
    pub focus_bottom_right: Option<String>,
    pub tab_top_left: Option<String>,
    pub tab_top_right: Option<String>,
    pub tab_join_left: Option<String>,
    pub tab_join_right: Option<String>,
    pub tab_close: Option<String>,
    pub table_rule_header_mid: Option<String>,
    pub table_rule_cross_mid: Option<String>,
    pub scrollbar_thumb: Option<String>,
}

/// What is wrong with an override.
#[derive(PartialEq, Eq, Structural, Clone, Copy, Debug)]
pub enum SymbolErrorKind {
    /// A single-glyph entry is empty.
    Empty,
    /// A single-glyph entry holds more than one character.
    NotSingleCharacter,
    /// `tab_shortcuts` does not hold ten entries; it holds this many.
    TabShortcutCount(usize),
}

/// A refused override: the configuration key and what is wrong with it.
#[derive(Debug)]
pub struct SymbolError {
    pub field: String,
    pub kind: SymbolErrorKind,
}

/// The single character of an override, or why it is refused.
pub open spec fn single_char(v: Seq<char>) -> Result<char, SymbolErrorKind> {
    if v.len() == 0 {
        Err(SymbolErrorKind::Empty)
    } else if v.len() > 1 {
        Err(SymbolErrorKind::NotSingleCharacter)
    } else {
        Ok(v[0])
    }
}

/// The refusal of a single-glyph override, if it is refused.
pub open spec fn char_override_error(v: Option<String>) -> Option<SymbolErrorKind> {
    match v {
        Some(s) => match single_char(s@) {
            Err(k) => Some(k),
            Ok(_) => None,
        },
        None => None,
    }
}

/// A glyph after its override.
pub open spec fn char_after(v: Option<String>, default: char) -> char {
    match v {
        Some(s) => s@[0],
        None => default,
    }
}

/// A string after its override.
pub open spec fn string_after(v: Option<String>, default: Seq<char>) -> Seq<char> {
    match v {
        Some(s) => s@,
        None => default,
    }
}

impl Symbols {
    /// The default glyphs; the icons use Nerd Font glyphs when `nerd_font`.
    pub open spec fn is_default(self, nerd_font: bool) -> bool {
        &&& self.arrow_up == '↑'
        &&& self.arrow_down == '↓'
        &&& self.arrow_left == '←'
        &&& self.arrow_right == '→'
        &&& self.range_dash == '–'
        &&& self.sort_asc == '▲'
        &&& self.sort_desc == '▼'
        &&& self.separator == '·'
        &&& self.breadcrumb_prefix == '↩'
        &&& self.breadcrumb_separator@ == " › "@
        &&& self.empty_placeholder == '—'
        &&& self.missing_placeholder == '–'
        &&& self.ellipsis == '…'
        &&& self.cursor == '▌'
        &&& self.active_bar == '▌'
        &&& self.selection == '⏵'
        &&& self.loading == '•'
        &&& self.enter == '↵'
        &&& self.foreign_key_arrow == '→'
        &&& self.bool_true == '✓'
        &&& self.bool_false == '·'
        &&& self.valid == '✓'
        &&& self.invalid == '✗'
        &&& self.readonly == '⊘'
        &&& self.dropdown == '▾'
        &&& self.table_icon@ == (if nerd_font { "󰓫"@ } else { "[T]"@ })
        &&& self.view_icon@ == (if nerd_font { "󰈈"@ } else { "[V]"@ })
        &&& self.index_icon@ == (if nerd_font { "󰓹"@ } else { "[I]"@ })
        &&& self.help_icon@ == (if nerd_font { "󰋖"@ } else { "?"@ })
        &&& self.filter_icon@ == (if nerd_font { "󰈲"@ } else { "[f]"@ })
        &&& self.filter_marker@ == "ƒ"@
        &&& self.folder_open@ == "📂"@
        &&& self.folder_closed@ == "📁"@
        &&& self.pk_icon@ == "🔑"@
        &&& self.fk_icon@ == "🔗"@
        &&& self.tab_shortcuts@[0]@ == "¹"@
        &&& self.tab_shortcuts@[1]@ == "²"@
        &&& self.tab_shortcuts@[2]@ == "³"@
        &&& self.tab_shortcuts@[3]@ == "⁴"@
        &&& self.tab_shortcuts@[4]@ == "⁵"@
        &&& self.tab_shortcuts@[5]@ == "⁶"@
        &&& self.tab_shortcuts@[6]@ == "⁷"@
        &&& self.tab_shortcuts@[7]@ == "⁸"@
        &&& self.tab_shortcuts@[8]@ == "⁹"@
        &&& self.tab_shortcuts@[9]@ == "⁰"@
        &&& self.box_horizontal == '─'
        &&& self.box_vertical == '│'
        &&& self.focus_top_left == '┌'
        &&& self.focus_top_right == '┐'
        &&& self.focus_bottom_left == '└'
        &&& self.focus_bottom_right == '┘'
        &&& self.tab_top_left == '╭'
        &&& self.tab_top_right == '╮'
        &&& self.tab_join_left == '┘'
        &&& self.tab_join_right == '└'
        &&& self.tab_close == '×'
        &&& self.table_rule_header_mid == '┬'
        &&& self.table_rule_cross_mid == '┼'
        &&& self.scrollbar_thumb == '█'
    }

    /// The default glyphs; the icons use Nerd Font glyphs when `nerd_font`.
    pub fn default_with_nerd_font(nerd_font: bool) -> (s: Symbols)
        ensures
            s.is_default(nerd_font),
    {
        Symbols {
            arrow_up: '↑',
            arrow_down: '↓',
            arrow_left: '←',
            arrow_right: '→',
            range_dash: '–',
            sort_asc: '▲',
            sort_desc: '▼',
            separator: '·',
            breadcrumb_prefix: '↩',
            breadcrumb_separator: string_of(" › "),
            empty_placeholder: '—',
            missing_placeholder: '–',
            ellipsis: '…',
            cursor: '▌',
            active_bar: '▌',
            selection: '⏵',
            loading: '•',
            enter: '↵',
            foreign_key_arrow: '→',
            bool_true: '✓',
            bool_false: '·',
            valid: '✓',
            invalid: '✗',
            readonly: '⊘',
            dropdown: '▾',
            table_icon: if nerd_font { string_of("󰓫") } else { string_of("[T]") },
            view_icon: if nerd_font { string_of("󰈈") } else { string_of("[V]") },
            index_icon: if nerd_font { string_of("󰓹") } else { string_of("[I]") },
            help_icon: if nerd_font { string_of("󰋖") } else { string_of("?") },
            filter_icon: if nerd_font { string_of("󰈲") } else { string_of("[f]") },
            filter_marker: string_of("ƒ"),
            folder_open: string_of("📂"),
            folder_closed: string_of("📁"),
            pk_icon: string_of("🔑"),
            fk_icon: string_of("🔗"),
            tab_shortcuts: [
                string_of("¹"),
                string_of("²"),
                string_of("³"),
                string_of("⁴"),
                string_of("⁵"),
                string_of("⁶"),
                string_of("⁷"),
                string_of("⁸"),
                string_of("⁹"),
                string_of("⁰"),
            ],
            box_horizontal: '─',
            box_vertical: '│',
            focus_top_left: '┌',
            focus_top_right: '┐',
            focus_bottom_left: '└',
            focus_bottom_right: '┘',
            tab_top_left: '╭',
            tab_top_right: '╮',
            tab_join_left: '┘',
            tab_join_right: '└',
            tab_close: '×',
            table_rule_header_mid: '┬',
            table_rule_cross_mid: '┼',
            scrollbar_thumb: '█',
        }
    }

}

impl SymbolOverrides {
    /// The key and refusal of the first refused single-glyph override, in
    /// the order of the `[symbols]` keys.
    pub open spec fn first_char_error(self) -> Option<(Seq<char>, SymbolErrorKind)> {
        if char_override_error(self.arrow_up) is Some {
            Some(("symbols.arrow_up"@, char_override_error(self.arrow_up)->0))
        } else if char_override_error(self.arrow_down) is Some {
            Some(("symbols.arrow_down"@, char_override_error(self.arrow_down)->0))
        } else if char_override_error(self.arrow_left) is Some {
            Some(("symbols.arrow_left"@, char_override_error(self.arrow_left)->0))
        } else if char_override_error(self.arrow_right) is Some {
            Some(("symbols.arrow_right"@, char_override_error(self.arrow_right)->0))
        } else if char_override_error(self.range_dash) is Some {
            Some(("symbols.range_dash"@, char_override_error(self.range_dash)->0))
        } else if char_override_error(self.sort_asc) is Some {
            Some(("symbols.sort_asc"@, char_override_error(self.sort_asc)->0))
        } else if char_override_error(self.sort_desc) is Some {
            Some(("symbols.sort_desc"@, char_override_error(self.sort_desc)->0))
        } else if char_override_error(self.separator) is Some {
            Some(("symbols.separator"@, char_override_error(self.separator)->0))
        } else if char_override_error(self.breadcrumb_prefix) is Some {
            Some(("symbols.breadcrumb_prefix"@, char_override_error(self.breadcrumb_prefix)->0))
        } else if char_override_error(self.empty_placeholder) is Some {
            Some(("symbols.empty_placeholder"@, char_override_error(self.empty_placeholder)->0))
        } else if char_override_error(self.missing_placeholder) is Some {
            Some(("symbols.missing_placeholder"@, char_override_error(self.missing_placeholder)->0))
        } else if char_override_error(self.ellipsis) is Some {
            Some(("symbols.ellipsis"@, char_override_error(self.ellipsis)->0))
        } else if char_override_error(self.cursor) is Some {
            Some(("symbols.cursor"@, char_override_error(self.cursor)->0))
        } else if char_override_error(self.active_bar) is Some {
            Some(("symbols.active_bar"@, char_override_error(self.active_bar)->0))
        } else if char_override_error(self.selection) is Some {
            Some(("symbols.selection"@, char_override_error(self.selection)->0))
        } else if char_override_error(self.loading) is Some {
            Some(("symbols.loading"@, char_override_error(self.loading)->0))
        } else if char_override_error(self.enter) is Some {
            Some(("symbols.enter"@, char_override_error(self.enter)->0))
        } else if char_override_error(self.foreign_key_arrow) is Some {
            Some(("symbols.foreign_key_arrow"@, char_override_error(self.foreign_key_arrow)->0))
        } else if char_override_error(self.bool_true) is Some {
            Some(("symbols.bool_true"@, char_override_error(self.bool_true)->0))
        } else if char_override_error(self.bool_false) is Some {
            Some(("symbols.bool_false"@, char_override_error(self.bool_false)->0))
        } else if char_override_error(self.valid) is Some {
            Some(("symbols.valid"@, char_override_error(self.valid)->0))
        } else if char_override_error(self.invalid) is Some {
            Some(("symbols.invalid"@, char_override_error(self.invalid)->0))
        } else if char_override_error(self.readonly) is Some {
            Some(("symbols.readonly"@, char_override_error(self.readonly)->0))
        } else if char_override_error(self.dropdown) is Some {
            Some(("symbols.dropdown"@, char_override_error(self.dropdown)->0))
        } else if char_override_error(self.box_horizontal) is Some {
            Some(("symbols.box_horizontal"@, char_override_error(self.box_horizontal)->0))
        } else if char_override_error(self.box_vertical) is Some {
            Some(("symbols.box_vertical"@, char_override_error(self.box_vertical)->0))
        } else if char_override_error(self.focus_top_left) is Some {
            Some(("symbols.focus_top_left"@, char_override_error(self.focus_top_left)->0))
        } else if char_override_error(self.focus_top_right) is Some {
            Some(("symbols.focus_top_right"@, char_override_error(self.focus_top_right)->0))
        } else if char_override_error(self.focus_bottom_left) is Some {
            Some(("symbols.focus_bottom_left"@, char_override_error(self.focus_bottom_left)->0))
        } else if char_override_error(self.focus_bottom_right) is Some {
            Some(("symbols.focus_bottom_right"@, char_override_error(self.focus_bottom_right)->0))
        } else if char_override_error(self.tab_top_left) is Some {
            Some(("symbols.tab_top_left"@, char_override_error(self.tab_top_left)->0))
        } else if char_override_error(self.tab_top_right) is Some {
            Some(("symbols.tab_top_right"@, char_override_error(self.tab_top_right)->0))
        } else if char_override_error(self.tab_join_left) is Some {
            Some(("symbols.tab_join_left"@, char_override_error(self.tab_join_left)->0))
        } else if char_override_error(self.tab_join_right) is Some {
            Some(("symbols.tab_join_right"@, char_override_error(self.tab_join_right)->0))
        } else if char_override_error(self.tab_close) is Some {
            Some(("symbols.tab_close"@, char_override_error(self.tab_close)->0))
        } else if char_override_error(self.table_rule_header_mid) is Some {
            Some(("symbols.table_rule_header_mid"@, char_override_error(self.table_rule_header_mid)->0))
        } else if char_override_error(self.table_rule_cross_mid) is Some {
            Some(("symbols.table_rule_cross_mid"@, char_override_error(self.table_rule_cross_mid)->0))
        } else if char_override_error(self.scrollbar_thumb) is Some {
            Some(("symbols.scrollbar_thumb"@, char_override_error(self.scrollbar_thumb)->0))
        } else {
            None
        }
    }


    /// `resolved` holds the defaults with every override applied.
    pub open spec fn applied(self, nerd_font: bool, resolved: Symbols) -> bool {
        &&& resolved.arrow_up == char_after(self.arrow_up, '↑')
        &&& resolved.arrow_down == char_after(self.arrow_down, '↓')
        &&& resolved.arrow_left == char_after(self.arrow_left, '←')
        &&& resolved.arrow_right == char_after(self.arrow_right, '→')
        &&& resolved.range_dash == char_after(self.range_dash, '–')
        &&& resolved.sort_asc == char_after(self.sort_asc, '▲')
        &&& resolved.sort_desc == char_after(self.sort_desc, '▼')
        &&& resolved.separator == char_after(self.separator, '·')
        &&& resolved.breadcrumb_prefix == char_after(self.breadcrumb_prefix, '↩')
        &&& resolved.breadcrumb_separator@ == string_after(self.breadcrumb_separator, " › "@)
        &&& resolved.empty_placeholder == char_after(self.empty_placeholder, '—')
        &&& resolved.missing_placeholder == char_after(self.missing_placeholder, '–')
        &&& resolved.ellipsis == char_after(self.ellipsis, '…')
        &&& resolved.cursor == char_after(self.cursor, '▌')
        &&& resolved.active_bar == char_after(self.active_bar, '▌')
        &&& resolved.selection == char_after(self.selection, '⏵')
        &&& resolved.loading == char_after(self.loading, '•')
        &&& resolved.enter == char_after(self.enter, '↵')
        &&& resolved.foreign_key_arrow == char_after(self.foreign_key_arrow, '→')
        &&& resolved.bool_true == char_after(self.bool_true, '✓')
        &&& resolved.bool_false == char_after(self.bool_false, '·')
        &&& resolved.valid == char_after(self.valid, '✓')
        &&& resolved.invalid == char_after(self.invalid, '✗')
        &&& resolved.readonly == char_after(self.readonly, '⊘')
        &&& resolved.dropdown == char_after(self.dropdown, '▾')
        &&& resolved.table_icon@ == string_after(self.table_icon, if nerd_font { "󰓫"@ } else { "[T]"@ })
        &&& resolved.view_icon@ == string_after(self.view_icon, if nerd_font { "󰈈"@ } else { "[V]"@ })
        &&& resolved.index_icon@ == string_after(self.index_icon, if nerd_font { "󰓹"@ } else { "[I]"@ })
        &&& resolved.help_icon@ == string_after(self.help_icon, if nerd_font { "󰋖"@ } else { "?"@ })
        &&& resolved.filter_icon@ == string_after(self.filter_icon, if nerd_font { "󰈲"@ } else { "[f]"@ })
        &&& resolved.filter_marker@ == string_after(self.filter_marker, "ƒ"@)
        &&& resolved.folder_open@ == string_after(self.folder_open, "📂"@)
        &&& resolved.folder_closed@ == string_after(self.folder_closed, "📁"@)
        &&& resolved.pk_icon@ == string_after(self.pk_icon, "🔑"@)
        &&& resolved.fk_icon@ == string_after(self.fk_icon, "🔗"@)
        &&& resolved.tab_shortcuts@[0]@ == (match self.tab_shortcuts { Some(v) => v@[0]@, None => "¹"@ })
        &&& resolved.tab_shortcuts@[1]@ == (match self.tab_shortcuts { Some(v) => v@[1]@, None => "²"@ })
        &&& resolved.tab_shortcuts@[2]@ == (match self.tab_shortcuts { Some(v) => v@[2]@, None => "³"@ })
        &&& resolved.tab_shortcuts@[3]@ == (match self.tab_shortcuts { Some(v) => v@[3]@, None => "⁴"@ })
        &&& resolved.tab_shortcuts@[4]@ == (match self.tab_shortcuts { Some(v) => v@[4]@, None => "⁵"@ })
        &&& resolved.tab_shortcuts@[5]@ == (match self.tab_shortcuts { Some(v) => v@[5]@, None => "⁶"@ })
        &&& resolved.tab_shortcuts@[6]@ == (match self.tab_shortcuts { Some(v) => v@[6]@, None => "⁷"@ })
        &&& resolved.tab_shortcuts@[7]@ == (match self.tab_shortcuts { Some(v) => v@[7]@, None => "⁸"@ })
        &&& resolved.tab_shortcuts@[8]@ == (match self.tab_shortcuts { Some(v) => v@[8]@, None => "⁹"@ })
        &&& resolved.tab_shortcuts@[9]@ == (match self.tab_shortcuts { Some(v) => v@[9]@, None => "⁰"@ })
        &&& resolved.box_horizontal == char_after(self.box_horizontal, '─')
        &&& resolved.box_vertical == char_after(self.box_vertical, '│')
        &&& resolved.focus_top_left == char_after(self.focus_top_left, '┌')
        &&& resolved.focus_top_right == char_after(self.focus_top_right, '┐')
        &&& resolved.focus_bottom_left == char_after(self.focus_bottom_left, '└')
        &&& resolved.focus_bottom_right == char_after(self.focus_bottom_right, '┘')
        &&& resolved.tab_top_left == char_after(self.tab_top_left, '╭')
        &&& resolved.tab_top_right == char_after(self.tab_top_right, '╮')
        &&& resolved.tab_join_left == char_after(self.tab_join_left, '┘')
        &&& resolved.tab_join_right == char_after(self.tab_join_right, '└')
        &&& resolved.tab_close == char_after(self.tab_close, '×')
        &&& resolved.table_rule_header_mid == char_after(self.table_rule_header_mid, '┬')
        &&& resolved.table_rule_cross_mid == char_after(self.table_rule_cross_mid, '┼')
        &&& resolved.scrollbar_thumb == char_after(self.scrollbar_thumb, '█')
    }

    /// Whether a `tab_shortcuts` override, if present, holds ten entries.
    pub open spec fn tab_count_ok(self) -> bool {
        match self.tab_shortcuts {
            Some(v) => v.len() == 10,
            None => true,
        }
    }

    /// What `resolve` answers: the overridden glyphs when every override is
    /// valid, else the first refused key in the order of the `[symbols]`
    /// keys, the tab shortcut count being checked last.
    pub open spec fn resolve_outcome(self, nerd_font: bool, r: Result<Symbols, SymbolError>) -> bool {
        match r {
            Ok(s) => {
                &&& self.first_char_error() is None
                &&& self.tab_count_ok()
                &&& self.applied(nerd_font, s)
            },
            Err(e) => match self.first_char_error() {
                Some(p) => e.field@ == p.0 && e.kind == p.1,
                None => {
                    &&& !self.tab_count_ok()
                    &&& e.field@ == "symbols.tab_shortcuts"@
                    &&& e.kind == SymbolErrorKind::TabShortcutCount(self.tab_shortcuts.unwrap().len() as usize)
                },
            },
        }
    }

    /// The glyphs with these overrides applied over the defaults for
    /// `nerd_font`, or the first refused override.
    #[verifier::rlimit(60)]
    pub fn resolve(&self, nerd_font: bool) -> (r: Result<Symbols, SymbolError>)
        ensures
            self.resolve_outcome(nerd_font, r),
    {
        if let Some(k) = check_char(&self.arrow_up) {
            return Err(SymbolError { field: string_of("symbols.arrow_up"), kind: k });
        }
        if let Some(k) = check_char(&self.arrow_down) {
            return Err(SymbolError { field: string_of("symbols.arrow_down"), kind: k });
        }
        if let Some(k) = check_char(&self.arrow_left) {
            return Err(SymbolError { field: string_of("symbols.arrow_left"), kind: k });
        }
        if let Some(k) = check_char(&self.arrow_right) {
            return Err(SymbolError { field: string_of("symbols.arrow_right"), kind: k });
        }
        if let Some(k) = check_char(&self.range_dash) {
            return Err(SymbolError { field: string_of("symbols.range_dash"), kind: k });
        }
        if let Some(k) = check_char(&self.sort_asc) {
            return Err(SymbolError { field: string_of("symbols.sort_asc"), kind: k });
        }
        if let Some(k) = check_char(&self.sort_desc) {
            return Err(SymbolError { field: string_of("symbols.sort_desc"), kind: k });
        }
        if let Some(k) = check_char(&self.separator) {
            return Err(SymbolError { field: string_of("symbols.separator"), kind: k });
        }
        if let Some(k) = check_char(&self.breadcrumb_prefix) {
            return Err(SymbolError { field: string_of("symbols.breadcrumb_prefix"), kind: k });
        }
        if let Some(k) = check_char(&self.empty_placeholder) {
            return Err(SymbolError { field: string_of("symbols.empty_placeholder"), kind: k });
        }
        if let Some(k) = check_char(&self.missing_placeholder) {
            return Err(SymbolError { field: string_of("symbols.missing_placeholder"), kind: k });
        }
        if let Some(k) = check_char(&self.ellipsis) {
            return Err(SymbolError { field: string_of("symbols.ellipsis"), kind: k });
        }
        if let Some(k) = check_char(&self.cursor) {
            return Err(SymbolError { field: string_of("symbols.cursor"), kind: k });
        }
        if let Some(k) = check_char(&self.active_bar) {
            return Err(SymbolError { field: string_of("symbols.active_bar"), kind: k });
        }
        if let Some(k) = check_char(&self.selection) {
            return Err(SymbolError { field: string_of("symbols.selection"), kind: k });
        }
        if let Some(k) = check_char(&self.loading) {
            return Err(SymbolError { field: string_of("symbols.loading"), kind: k });
        }
        if let Some(k) = check_char(&self.enter) {
            return Err(SymbolError { field: string_of("symbols.enter"), kind: k });
        }
        if let Some(k) = check_char(&self.foreign_key_arrow) {
            return Err(SymbolError { field: string_of("symbols.foreign_key_arrow"), kind: k });
        }
        if let Some(k) = check_char(&self.bool_true) {
            return Err(SymbolError { field: string_of("symbols.bool_true"), kind: k });
        }
        if let Some(k) = check_char(&self.bool_false) {
            return Err(SymbolError { field: string_of("symbols.bool_false"), kind: k });
        }
        if let Some(k) = check_char(&self.valid) {
            return Err(SymbolError { field: string_of("symbols.valid"), kind: k });
        }
        if let Some(k) = check_char(&self.invalid) {
            return Err(SymbolError { field: string_of("symbols.invalid"), kind: k });
        }
        if let Some(k) = check_char(&self.readonly) {
            return Err(SymbolError { field: string_of("symbols.readonly"), kind: k });
        }
        if let Some(k) = check_char(&self.dropdown) {
            return Err(SymbolError { field: string_of("symbols.dropdown"), kind: k });
        }
        if let Some(k) = check_char(&self.box_horizontal) {
            return Err(SymbolError { field: string_of("symbols.box_horizontal"), kind: k });
        }
        if let Some(k) = check_char(&self.box_vertical) {
            return Err(SymbolError { field: string_of("symbols.box_vertical"), kind: k });
        }
        if let Some(k) = check_char(&self.focus_top_left) {
            return Err(SymbolError { field: string_of("symbols.focus_top_left"), kind: k });
        }
        if let Some(k) = check_char(&self.focus_top_right) {
            return Err(SymbolError { field: string_of("symbols.focus_top_right"), kind: k });
        }
        if let Some(k) = check_char(&self.focus_bottom_left) {
            return Err(SymbolError { field: string_of("symbols.focus_bottom_left"), kind: k });
        }
        if let Some(k) = check_char(&self.focus_bottom_right) {
            return Err(SymbolError { field: string_of("symbols.focus_bottom_right"), kind: k });
        }
        if let Some(k) = check_char(&self.tab_top_left) {
            return Err(SymbolError { field: string_of("symbols.tab_top_left"), kind: k });
        }
        if let Some(k) = check_char(&self.tab_top_right) {
            return Err(SymbolError { field: string_of("symbols.tab_top_right"), kind: k });
        }
        if let Some(k) = check_char(&self.tab_join_left) {
            return Err(SymbolError { field: string_of("symbols.tab_join_left"), kind: k });
        }
        if let Some(k) = check_char(&self.tab_join_right) {
            return Err(SymbolError { field: string_of("symbols.tab_join_right"), kind: k });
        }
        if let Some(k) = check_char(&self.tab_close) {
            return Err(SymbolError { field: string_of("symbols.tab_close"), kind: k });
        }
        if let Some(k) = check_char(&self.table_rule_header_mid) {
            return Err(SymbolError { field: string_of("symbols.table_rule_header_mid"), kind: k });
        }
        if let Some(k) = check_char(&self.table_rule_cross_mid) {
            return Err(SymbolError { field: string_of("symbols.table_rule_cross_mid"), kind: k });
        }
        if let Some(k) = check_char(&self.scrollbar_thumb) {
            return Err(SymbolError { field: string_of("symbols.scrollbar_thumb"), kind: k });
        }
        if let Some(v) = &self.tab_shortcuts {
            if v.len() != 10 {
                return Err(SymbolError {
                    field: string_of("symbols.tab_shortcuts"),
                    kind: SymbolErrorKind::TabShortcutCount(v.len()),
                });
            }
        }
        let d = Symbols::default_with_nerd_font(nerd_font);
        let tab_shortcuts: [String; 10] = match &self.tab_shortcuts {
            Some(v) => [
                v[0].clone(),
                v[1].clone(),
                v[2].clone(),
                v[3].clone(),
                v[4].clone(),
                v[5].clone(),
                v[6].clone(),
                v[7].clone(),
                v[8].clone(),
                v[9].clone(),
            ],
            None => [
                d.tab_shortcuts[0].clone(),
                d.tab_shortcuts[1].clone(),
                d.tab_shortcuts[2].clone(),
                d.tab_shortcuts[3].clone(),
                d.tab_shortcuts[4].clone(),
                d.tab_shortcuts[5].clone(),
                d.tab_shortcuts[6].clone(),
                d.tab_shortcuts[7].clone(),
                d.tab_shortcuts[8].clone(),
                d.tab_shortcuts[9].clone(),
            ],
        };
        Ok(Symbols {
            arrow_up: char_value(&self.arrow_up, d.arrow_up),
            arrow_down: char_value(&self.arrow_down, d.arrow_down),
            arrow_left: char_value(&self.arrow_left, d.arrow_left),
            arrow_right: char_value(&self.arrow_right, d.arrow_right),
            range_dash: char_value(&self.range_dash, d.range_dash),
            sort_asc: char_value(&self.sort_asc, d.sort_asc),
            sort_desc: char_value(&self.sort_desc, d.sort_desc),
            separator: char_value(&self.separator, d.separator),
            breadcrumb_prefix: char_value(&self.breadcrumb_prefix, d.breadcrumb_prefix),
            breadcrumb_separator: string_value(&self.breadcrumb_separator, &d.breadcrumb_separator),
            empty_placeholder: char_value(&self.empty_placeholder, d.empty_placeholder),
            missing_placeholder: char_value(&self.missing_placeholder, d.missing_placeholder),
            ellipsis: char_value(&self.ellipsis, d.ellipsis),
            cursor: char_value(&self.cursor, d.cursor),
            active_bar: char_value(&self.active_bar, d.active_bar),
            selection: char_value(&self.selection, d.selection),
            loading: char_value(&self.loading, d.loading),
            enter: char_value(&self.enter, d.enter),
            foreign_key_arrow: char_value(&self.foreign_key_arrow, d.foreign_key_arrow),
            bool_true: char_value(&self.bool_true, d.bool_true),
            bool_false: char_value(&self.bool_false, d.bool_false),
            valid: char_value(&self.valid, d.valid),
            invalid: char_value(&self.invalid, d.invalid),
            readonly: char_value(&self.readonly, d.readonly),
            dropdown: char_value(&self.dropdown, d.dropdown),
            table_icon: string_value(&self.table_icon, &d.table_icon),
            view_icon: string_value(&self.view_icon, &d.view_icon),
            index_icon: string_value(&self.index_icon, &d.index_icon),
            help_icon: string_value(&self.help_icon, &d.help_icon),
            filter_icon: string_value(&self.filter_icon, &d.filter_icon),
            filter_marker: string_value(&self.filter_marker, &d.filter_marker),
            folder_open: string_value(&self.folder_open, &d.folder_open),
            folder_closed: string_value(&self.folder_closed, &d.folder_closed),
            pk_icon: string_value(&self.pk_icon, &d.pk_icon),
            fk_icon: string_value(&self.fk_icon, &d.fk_icon),
            tab_shortcuts,
            box_horizontal: char_value(&self.box_horizontal, d.box_horizontal),
            box_vertical: char_value(&self.box_vertical, d.box_vertical),
            focus_top_left: char_value(&self.focus_top_left, d.focus_top_left),
            focus_top_right: char_value(&self.focus_top_right, d.focus_top_right),
            focus_bottom_left: char_value(&self.focus_bottom_left, d.focus_bottom_left),
            focus_bottom_right: char_value(&self.focus_bottom_right, d.focus_bottom_right),
            tab_top_left: char_value(&self.tab_top_left, d.tab_top_left),
            tab_top_right: char_value(&self.tab_top_right, d.tab_top_right),
            tab_join_left: char_value(&self.tab_join_left, d.tab_join_left),
            tab_join_right: char_value(&self.tab_join_right, d.tab_join_right),
            tab_close: char_value(&self.tab_close, d.tab_close),
            table_rule_header_mid: char_value(&self.table_rule_header_mid, d.table_rule_header_mid),
            table_rule_cross_mid: char_value(&self.table_rule_cross_mid, d.table_rule_cross_mid),
            scrollbar_thumb: char_value(&self.scrollbar_thumb, d.scrollbar_thumb),
        })
    }
}

/// Why a single-glyph override is refused, if it is.
fn check_char(v: &Option<String>) -> (r: Option<SymbolErrorKind>)
    ensures
        r == char_override_error(*v),
{
    match v {
        Some(s) => {
            let n = s.as_str().unicode_len();
            if n == 0 {
                Some(SymbolErrorKind::Empty)
            } else if n > 1 {
                Some(SymbolErrorKind::NotSingleCharacter)
            } else {
                None
            }
        },
        None => None,
    }
}

/// A glyph after an accepted override.
fn char_value(v: &Option<String>, default: char) -> (r: char)
    requires
        char_override_error(*v) is None,
    ensures
        r == char_after(*v, default),
{
    match v {
        Some(s) => s.as_str().get_char(0),
        None => default,
    }
}

/// A string after its override.
fn string_value(v: &Option<String>, default: &String) -> (r: String)
    ensures
        r@ == string_after(*v, default@),
{
    match v {
        Some(s) => s.clone(),
        None => default.clone(),
    }
}

impl Symbols {
    /// The shortcut label of tab `idx`, for the first ten tabs.
    pub fn tab_shortcut(&self, idx: usize) -> (r: Option<&str>)
        ensures
            idx < 10 ==> r is Some && r->0@ == self.tab_shortcuts@[idx as int]@,
            idx >= 10 ==> r is None,
    {
        if idx < 10 {
            Some(self.tab_shortcuts[idx].as_str())
        } else {
            None
        }
    }

    /// The separator with one space on each side.
    pub fn inline_separator(&self) -> (r: String)
        ensures
            r@ == seq![' ', self.separator, ' '],
    {
        let mut r = String::new();
        push_char(&mut r, ' ');
        push_char(&mut r, self.separator);
        push_char(&mut r, ' ');
        r
    }

    /// The separator with two spaces on each side.
    pub fn padded_separator(&self) -> (r: String)
        ensures
            r@ == seq![' ', ' ', self.separator, ' ', ' '],
    {
        let mut r = String::new();
        push_char(&mut r, ' ');
        push_char(&mut r, ' ');
        push_char(&mut r, self.separator);
        push_char(&mut r, ' ');
        push_char(&mut r, ' ');
        r
    }

    /// The vertical box rule with two spaces on each side.
    pub fn segment_separator(&self) -> (r: String)
        ensures
            r@ == seq![' ', ' ', self.box_vertical, ' ', ' '],
    {
        let mut r = String::new();
        push_char(&mut r, ' ');
        push_char(&mut r, ' ');
        push_char(&mut r, self.box_vertical);
        push_char(&mut r, ' ');
        push_char(&mut r, ' ');
        r
    }

    /// `label` after a space and followed by the ellipsis glyph.
    pub fn loading_label(&self, label: &str) -> (r: String)
        ensures
            r@ == seq![' '] + label@ + seq![self.ellipsis],
    {
        let mut r = String::new();
        push_char(&mut r, ' ');
        push_str(&mut r, label);
        push_char(&mut r, self.ellipsis);
        r
    }
}

/// The message of a refused override.
pub open spec fn symbol_error_message(field: Seq<char>, kind: SymbolErrorKind) -> Seq<char> {
    match kind {
        SymbolErrorKind::Empty => field + " must not be empty"@,
        SymbolErrorKind::NotSingleCharacter => field + " must be exactly one character"@,
        SymbolErrorKind::TabShortcutCount(n) => "symbols.tab_shortcuts must contain exactly 10 entries, got "@
            + nat_decimal(n as nat),
    }
}

impl SymbolError {
    /// The message shown for this refusal.
    pub fn message(&self) -> (m: String)
        ensures
            m@ == symbol_error_message(self.field@, self.kind),
    {
        match self.kind {
            SymbolErrorKind::Empty => {
                let mut m = self.field.clone();
                push_str(&mut m, " must not be empty");
                m
            },
            SymbolErrorKind::NotSingleCharacter => {
                let mut m = self.field.clone();
                push_str(&mut m, " must be exactly one character");
                m
            },
            SymbolErrorKind::TabShortcutCount(n) => {
                let mut m = string_of("symbols.tab_shortcuts must contain exactly 10 entries, got ");
                push_decimal(&mut m, n as u64);
                m
            },
        }
    }
}

} // verus!

