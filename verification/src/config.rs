//! The configuration file: glyph and colour overrides and the default
//! file written on first start.

use vstd::prelude::*;
use crate::symbols::{SymbolError, SymbolOverrides, Symbols};
use crate::theme::{color_to_hex, default_theme, hex_text, Theme, ThemeError, ThemeOverrides};
use crate::text::{push_str};

verus! {

/// The settings read from the configuration file.
pub struct Config {
    pub nerd_font: bool,
    pub theme: ThemeOverrides,
    pub symbols: SymbolOverrides,
}

impl ThemeOverrides {
    /// No colour is overridden.
    pub open spec fn is_empty(self) -> bool {
        &&& self.bg is None
        &&& self.bg_soft is None
        &&& self.bg_raised is None
        &&& self.line is None
        &&& self.line_soft is None
        &&& self.fg is None
        &&& self.fg_dim is None
        &&& self.fg_mute is None
        &&& self.fg_faint is None
        &&& self.accent is None
        &&& self.red is None
        &&& self.yellow is None
        &&& self.green is None
        &&& self.teal is None
        &&& self.blue is None
        &&& self.purple is None
        &&& self.pink is None
    }
}

impl Default for ThemeOverrides {
    fn default() -> (o: ThemeOverrides)
        ensures
            o.is_empty(),
    {
        ThemeOverrides {
            bg: None,
            bg_soft: None,
            bg_raised: None,
            line: None,
            line_soft: None,
            fg: None,
            fg_dim: None,
            fg_mute: None,
            fg_faint: None,
            accent: None,
            red: None,
            yellow: None,
            green: None,
            teal: None,
            blue: None,
            purple: None,
            pink: None,
        }
    }
}

impl SymbolOverrides {
    /// No glyph is overridden.
    pub open spec fn is_empty(self) -> bool {
        &&& self.arrow_up is None
        &&& self.arrow_down is None
        &&& self.arrow_left is None
        &&& self.arrow_right is None
        &&& self.range_dash is None
        &&& self.sort_asc is None
        &&& self.sort_desc is None
        &&& self.separator is None
        &&& self.breadcrumb_prefix is None
        &&& self.breadcrumb_separator is None
        &&& self.empty_placeholder is None
        &&& self.missing_placeholder is None
        &&& self.ellipsis is None
        &&& self.cursor is None
        &&& self.active_bar is None
        &&& self.selection is None
        &&& self.loading is None
        &&& self.enter is None
        &&& self.foreign_key_arrow is None
        &&& self.bool_true is None
        &&& self.bool_false is None
        &&& self.valid is None
        &&& self.invalid is None
        &&& self.readonly is None
        &&& self.dropdown is None
        &&& self.table_icon is None
        &&& self.view_icon is None
        &&& self.index_icon is None
        &&& self.help_icon is None
        &&& self.filter_icon is None
        &&& self.filter_marker is None
        &&& self.folder_open is None
        &&& self.folder_closed is None
        &&& self.pk_icon is None
        &&& self.fk_icon is None
        &&& self.tab_shortcuts is None
        &&& self.box_horizontal is None
        &&& self.box_vertical is None
        &&& self.focus_top_left is None
        &&& self.focus_top_right is None
        &&& self.focus_bottom_left is None
        &&& self.focus_bottom_right is None
        &&& self.tab_top_left is None
        &&& self.tab_top_right is None
        &&& self.tab_join_left is None
        &&& self.tab_join_right is None
        &&& self.tab_close is None
        &&& self.table_rule_header_mid is None
        &&& self.table_rule_cross_mid is None
        &&& self.scrollbar_thumb is None
    }
}

impl Default for SymbolOverrides {
    fn default() -> (o: SymbolOverrides)
        ensures
            o.is_empty(),
    {
        SymbolOverrides {
            arrow_up: None,
            arrow_down: None,
            arrow_left: None,
            arrow_right: None,
            range_dash: None,
            sort_asc: None,
            sort_desc: None,
            separator: None,
            breadcrumb_prefix: None,
            breadcrumb_separator: None,
            empty_placeholder: None,
            missing_placeholder: None,
            ellipsis: None,
            cursor: None,
            active_bar: None,
            selection: None,
            loading: None,
            enter: None,
            foreign_key_arrow: None,
            bool_true: None,
            bool_false: None,
            valid: None,
            invalid: None,
            readonly: None,
            dropdown: None,
            table_icon: None,
            view_icon: None,
            index_icon: None,
            help_icon: None,
            filter_icon: None,
            filter_marker: None,
            folder_open: None,
            folder_closed: None,
            pk_icon: None,
            fk_icon: None,
            tab_shortcuts: None,
            box_horizontal: None,
            box_vertical: None,
            focus_top_left: None,
            focus_top_right: None,
            focus_bottom_left: None,
            focus_bottom_right: None,
            tab_top_left: None,
            tab_top_right: None,
            tab_join_left: None,
            tab_join_right: None,
            tab_close: None,
            table_rule_header_mid: None,
            table_rule_cross_mid: None,
            scrollbar_thumb: None,
        }
    }
}

impl Default for Config {
    fn default() -> (c: Config)
        ensures
            c.nerd_font,
            c.theme.is_empty(),
            c.symbols.is_empty(),
    {
        Config { nerd_font: true, theme: ThemeOverrides::default(), symbols: SymbolOverrides::default() }
    }
}

/// How the `toml` crate writes a string value, quotes and escapes
/// included.
pub uninterp spec fn toml_string_repr(s: Seq<char>) -> Seq<char>;

/// Renders `value` as a TOML string through `toml::Value::String` and its
/// `Display`; the contract names the rendering and says nothing more of it.
#[verifier::external_body]
fn toml_string(value: &str) -> (r: String)
    ensures
        r@ == toml_string_repr(value@),
{
    toml::Value::String(value.to_string()).to_string()
}

/// A one-character TOML string.
fn toml_char(c: char) -> (r: String)
    ensures
        r@ == toml_string_repr(seq![c]),
{
    let mut s = String::new();
    crate::text::push_char(&mut s, c);
    toml_string(s.as_str())
}

/// `text` followed by the line `key = value`.
pub open spec fn with_entry(text: Seq<char>, key: Seq<char>, value: Seq<char>) -> Seq<char> {
    text + key + " = "@ + value + "\n"@
}

/// Appends the line `key = value` to `out`.
pub fn push_entry(out: &mut String, key: &str, value: &str)
    ensures
        final(out)@ == with_entry(old(out)@, key@, value@),
{
    push_str(out, key);
    push_str(out, " = ");
    push_str(out, value);
    push_str(out, "\n");
}

/// The default configuration file: every colour and glyph spelled out.
pub open spec fn default_toml_text() -> Seq<char> {
    let d = default_theme();
    let t = "nerd_font = true\n\n[theme]\n"@;
    let t = with_entry(t, "bg"@, toml_string_repr(hex_text(d.bg)));
    let t = with_entry(t, "bg_soft"@, toml_string_repr(hex_text(d.bg_soft)));
    let t = with_entry(t, "bg_raised"@, toml_string_repr(hex_text(d.bg_raised)));
    let t = with_entry(t, "line"@, toml_string_repr(hex_text(d.line)));
    let t = with_entry(t, "line_soft"@, toml_string_repr(hex_text(d.line_soft)));
    let t = with_entry(t, "fg"@, toml_string_repr(hex_text(d.fg)));
    let t = with_entry(t, "fg_dim"@, toml_string_repr(hex_text(d.fg_dim)));
    let t = with_entry(t, "fg_mute"@, toml_string_repr(hex_text(d.fg_mute)));
    let t = with_entry(t, "fg_faint"@, toml_string_repr(hex_text(d.fg_faint)));
    let t = with_entry(t, "accent"@, toml_string_repr(hex_text(d.accent)));
    let t = with_entry(t, "red"@, toml_string_repr(hex_text(d.red)));
    let t = with_entry(t, "yellow"@, toml_string_repr(hex_text(d.yellow)));
    let t = with_entry(t, "green"@, toml_string_repr(hex_text(d.green)));
    let t = with_entry(t, "teal"@, toml_string_repr(hex_text(d.teal)));
    let t = with_entry(t, "blue"@, toml_string_repr(hex_text(d.blue)));
    let t = with_entry(t, "purple"@, toml_string_repr(hex_text(d.purple)));
    let t = with_entry(t, "pink"@, toml_string_repr(hex_text(d.pink)));
    let t = t + "\n[symbols]\n"@;
    let t = with_entry(t, "arrow_up"@, toml_string_repr(seq!['↑']));
    let t = with_entry(t, "arrow_down"@, toml_string_repr(seq!['↓']));
    let t = with_entry(t, "arrow_left"@, toml_string_repr(seq!['←']));
    let t = with_entry(t, "arrow_right"@, toml_string_repr(seq!['→']));
    let t = with_entry(t, "range_dash"@, toml_string_repr(seq!['–']));
    let t = with_entry(t, "sort_asc"@, toml_string_repr(seq!['▲']));
    let t = with_entry(t, "sort_desc"@, toml_string_repr(seq!['▼']));
    let t = with_entry(t, "separator"@, toml_string_repr(seq!['·']));
    let t = with_entry(t, "breadcrumb_prefix"@, toml_string_repr(seq!['↩']));
    let t = with_entry(t, "breadcrumb_separator"@, toml_string_repr(" › "@));
    let t = with_entry(t, "empty_placeholder"@, toml_string_repr(seq!['—']));
    let t = with_entry(t, "missing_placeholder"@, toml_string_repr(seq!['–']));
    let t = with_entry(t, "ellipsis"@, toml_string_repr(seq!['…']));
    let t = with_entry(t, "cursor"@, toml_string_repr(seq!['▌']));
    let t = with_entry(t, "active_bar"@, toml_string_repr(seq!['▌']));
    let t = with_entry(t, "selection"@, toml_string_repr(seq!['⏵']));
    let t = with_entry(t, "loading"@, toml_string_repr(seq!['•']));
    let t = with_entry(t, "enter"@, toml_string_repr(seq!['↵']));
    let t = with_entry(t, "foreign_key_arrow"@, toml_string_repr(seq!['→']));
    let t = with_entry(t, "bool_true"@, toml_string_repr(seq!['✓']));
    let t = with_entry(t, "bool_false"@, toml_string_repr(seq!['·']));
    let t = with_entry(t, "valid"@, toml_string_repr(seq!['✓']));
    let t = with_entry(t, "invalid"@, toml_string_repr(seq!['✗']));
    let t = with_entry(t, "readonly"@, toml_string_repr(seq!['⊘']));
    let t = with_entry(t, "dropdown"@, toml_string_repr(seq!['▾']));
    let t = with_entry(t, "table_icon"@, toml_string_repr("󰓫"@));
    let t = with_entry(t, "view_icon"@, toml_string_repr("󰈈"@));
    let t = with_entry(t, "index_icon"@, toml_string_repr("󰓹"@));
    let t = with_entry(t, "help_icon"@, toml_string_repr("󰋖"@));
    let t = with_entry(t, "filter_icon"@, toml_string_repr("󰈲"@));
    let t = with_entry(t, "filter_marker"@, toml_string_repr("ƒ"@));
    let t = with_entry(t, "folder_open"@, toml_string_repr("📂"@));
    let t = with_entry(t, "folder_closed"@, toml_string_repr("📁"@));
    let t = with_entry(t, "pk_icon"@, toml_string_repr("🔑"@));
    let t = with_entry(t, "fk_icon"@, toml_string_repr("🔗"@));
    let t = t + "tab_shortcuts = ["@;
    let t = t + toml_string_repr("¹"@);
    let t = t + ", "@;
    let t = t + toml_string_repr("²"@);
    let t = t + ", "@;
    let t = t + toml_string_repr("³"@);
    let t = t + ", "@;
    let t = t + toml_string_repr("⁴"@);
    let t = t + ", "@;
    let t = t + toml_string_repr("⁵"@);
    let t = t + ", "@;
    let t = t + toml_string_repr("⁶"@);
    let t = t + ", "@;
    let t = t + toml_string_repr("⁷"@);
    let t = t + ", "@;
    let t = t + toml_string_repr("⁸"@);
    let t = t + ", "@;
    let t = t + toml_string_repr("⁹"@);
    let t = t + ", "@;
    let t = t + toml_string_repr("⁰"@);
    let t = t + "]\n"@;
    let t = with_entry(t, "box_horizontal"@, toml_string_repr(seq!['─']));
    let t = with_entry(t, "box_vertical"@, toml_string_repr(seq!['│']));
    let t = with_entry(t, "focus_top_left"@, toml_string_repr(seq!['┌']));
    let t = with_entry(t, "focus_top_right"@, toml_string_repr(seq!['┐']));
    let t = with_entry(t, "focus_bottom_left"@, toml_string_repr(seq!['└']));
    let t = with_entry(t, "focus_bottom_right"@, toml_string_repr(seq!['┘']));
    let t = with_entry(t, "tab_top_left"@, toml_string_repr(seq!['╭']));
    let t = with_entry(t, "tab_top_right"@, toml_string_repr(seq!['╮']));
    let t = with_entry(t, "tab_join_left"@, toml_string_repr(seq!['┘']));
    let t = with_entry(t, "tab_join_right"@, toml_string_repr(seq!['└']));
    let t = with_entry(t, "tab_close"@, toml_string_repr(seq!['×']));
    let t = with_entry(t, "table_rule_header_mid"@, toml_string_repr(seq!['┬']));
    let t = with_entry(t, "table_rule_cross_mid"@, toml_string_repr(seq!['┼']));
    let t = with_entry(t, "scrollbar_thumb"@, toml_string_repr(seq!['█']));
    t
}

impl Config {
    /// The colours with the `[theme]` overrides applied.
    pub fn resolve_theme(&self) -> (r: Result<Theme, ThemeError>)
        requires
            self.theme.cuts_ok(),
        ensures
            match r {
                Ok(t) => self.theme.first_error() is None && self.theme.applied(t),
                Err(e) => self.theme.first_error() == Some((e.field@, e.kind)),
            },
    {
        self.theme.resolve()
    }

    /// The glyphs with the `[symbols]` overrides applied over the defaults
    /// for `nerd_font`.
    pub fn resolve_symbols(&self) -> (r: Result<Symbols, SymbolError>)
        ensures
            self.symbols.resolve_outcome(self.nerd_font, r),
    {
        self.symbols.resolve(self.nerd_font)
    }

    /// The configuration file written when none exists.
    #[verifier::rlimit(60)]
    pub fn default_toml() -> (r: String)
        ensures
            r@ == default_toml_text(),
    {
        let theme = Theme::default();
        let symbols = Symbols::default_with_nerd_font(true);
        let mut t = String::new();
        push_str(&mut t, "nerd_font = true\n\n[theme]\n");
        push_entry(&mut t, "bg", toml_string(color_to_hex(theme.bg).as_str()).as_str());
        push_entry(&mut t, "bg_soft", toml_string(color_to_hex(theme.bg_soft).as_str()).as_str());
        push_entry(&mut t, "bg_raised", toml_string(color_to_hex(theme.bg_raised).as_str()).as_str());
        push_entry(&mut t, "line", toml_string(color_to_hex(theme.line).as_str()).as_str());
        push_entry(&mut t, "line_soft", toml_string(color_to_hex(theme.line_soft).as_str()).as_str());
        push_entry(&mut t, "fg", toml_string(color_to_hex(theme.fg).as_str()).as_str());
        push_entry(&mut t, "fg_dim", toml_string(color_to_hex(theme.fg_dim).as_str()).as_str());
        push_entry(&mut t, "fg_mute", toml_string(color_to_hex(theme.fg_mute).as_str()).as_str());
        push_entry(&mut t, "fg_faint", toml_string(color_to_hex(theme.fg_faint).as_str()).as_str());
        push_entry(&mut t, "accent", toml_string(color_to_hex(theme.accent).as_str()).as_str());
        push_entry(&mut t, "red", toml_string(color_to_hex(theme.red).as_str()).as_str());
        push_entry(&mut t, "yellow", toml_string(color_to_hex(theme.yellow).as_str()).as_str());
        push_entry(&mut t, "green", toml_string(color_to_hex(theme.green).as_str()).as_str());
        push_entry(&mut t, "teal", toml_string(color_to_hex(theme.teal).as_str()).as_str());
        push_entry(&mut t, "blue", toml_string(color_to_hex(theme.blue).as_str()).as_str());
        push_entry(&mut t, "purple", toml_string(color_to_hex(theme.purple).as_str()).as_str());
        push_entry(&mut t, "pink", toml_string(color_to_hex(theme.pink).as_str()).as_str());
        push_str(&mut t, "\n[symbols]\n");
        push_entry(&mut t, "arrow_up", toml_char(symbols.arrow_up).as_str());
        push_entry(&mut t, "arrow_down", toml_char(symbols.arrow_down).as_str());
        push_entry(&mut t, "arrow_left", toml_char(symbols.arrow_left).as_str());
        push_entry(&mut t, "arrow_right", toml_char(symbols.arrow_right).as_str());
        push_entry(&mut t, "range_dash", toml_char(symbols.range_dash).as_str());
        push_entry(&mut t, "sort_asc", toml_char(symbols.sort_asc).as_str());
        push_entry(&mut t, "sort_desc", toml_char(symbols.sort_desc).as_str());
        push_entry(&mut t, "separator", toml_char(symbols.separator).as_str());
        push_entry(&mut t, "breadcrumb_prefix", toml_char(symbols.breadcrumb_prefix).as_str());
        push_entry(&mut t, "breadcrumb_separator", toml_string(symbols.breadcrumb_separator.as_str()).as_str());
        push_entry(&mut t, "empty_placeholder", toml_char(symbols.empty_placeholder).as_str());
        push_entry(&mut t, "missing_placeholder", toml_char(symbols.missing_placeholder).as_str());
        push_entry(&mut t, "ellipsis", toml_char(symbols.ellipsis).as_str());
        push_entry(&mut t, "cursor", toml_char(symbols.cursor).as_str());
        push_entry(&mut t, "active_bar", toml_char(symbols.active_bar).as_str());
        push_entry(&mut t, "selection", toml_char(symbols.selection).as_str());
        push_entry(&mut t, "loading", toml_char(symbols.loading).as_str());
        push_entry(&mut t, "enter", toml_char(symbols.enter).as_str());
        push_entry(&mut t, "foreign_key_arrow", toml_char(symbols.foreign_key_arrow).as_str());
        push_entry(&mut t, "bool_true", toml_char(symbols.bool_true).as_str());
        push_entry(&mut t, "bool_false", toml_char(symbols.bool_false).as_str());
        push_entry(&mut t, "valid", toml_char(symbols.valid).as_str());
        push_entry(&mut t, "invalid", toml_char(symbols.invalid).as_str());
        push_entry(&mut t, "readonly", toml_char(symbols.readonly).as_str());
        push_entry(&mut t, "dropdown", toml_char(symbols.dropdown).as_str());
        push_entry(&mut t, "table_icon", toml_string(symbols.table_icon.as_str()).as_str());
        push_entry(&mut t, "view_icon", toml_string(symbols.view_icon.as_str()).as_str());
        push_entry(&mut t, "index_icon", toml_string(symbols.index_icon.as_str()).as_str());
        push_entry(&mut t, "help_icon", toml_string(symbols.help_icon.as_str()).as_str());
        push_entry(&mut t, "filter_icon", toml_string(symbols.filter_icon.as_str()).as_str());
        push_entry(&mut t, "filter_marker", toml_string(symbols.filter_marker.as_str()).as_str());
        push_entry(&mut t, "folder_open", toml_string(symbols.folder_open.as_str()).as_str());
        push_entry(&mut t, "folder_closed", toml_string(symbols.folder_closed.as_str()).as_str());
        push_entry(&mut t, "pk_icon", toml_string(symbols.pk_icon.as_str()).as_str());
        push_entry(&mut t, "fk_icon", toml_string(symbols.fk_icon.as_str()).as_str());
        push_str(&mut t, "tab_shortcuts = [");
        push_str(&mut t, toml_string(symbols.tab_shortcuts[0].as_str()).as_str());
        push_str(&mut t, ", ");
        push_str(&mut t, toml_string(symbols.tab_shortcuts[1].as_str()).as_str());
        push_str(&mut t, ", ");
        push_str(&mut t, toml_string(symbols.tab_shortcuts[2].as_str()).as_str());
        push_str(&mut t, ", ");
        push_str(&mut t, toml_string(symbols.tab_shortcuts[3].as_str()).as_str());
        push_str(&mut t, ", ");
        push_str(&mut t, toml_string(symbols.tab_shortcuts[4].as_str()).as_str());
        push_str(&mut t, ", ");
        push_str(&mut t, toml_string(symbols.tab_shortcuts[5].as_str()).as_str());
        push_str(&mut t, ", ");
        push_str(&mut t, toml_string(symbols.tab_shortcuts[6].as_str()).as_str());
        push_str(&mut t, ", ");
        push_str(&mut t, toml_string(symbols.tab_shortcuts[7].as_str()).as_str());
        push_str(&mut t, ", ");
        push_str(&mut t, toml_string(symbols.tab_shortcuts[8].as_str()).as_str());
        push_str(&mut t, ", ");
        push_str(&mut t, toml_string(symbols.tab_shortcuts[9].as_str()).as_str());
        push_str(&mut t, "]\n");
        push_entry(&mut t, "box_horizontal", toml_char(symbols.box_horizontal).as_str());
        push_entry(&mut t, "box_vertical", toml_char(symbols.box_vertical).as_str());
        push_entry(&mut t, "focus_top_left", toml_char(symbols.focus_top_left).as_str());
        push_entry(&mut t, "focus_top_right", toml_char(symbols.focus_top_right).as_str());
        push_entry(&mut t, "focus_bottom_left", toml_char(symbols.focus_bottom_left).as_str());
        push_entry(&mut t, "focus_bottom_right", toml_char(symbols.focus_bottom_right).as_str());
        push_entry(&mut t, "tab_top_left", toml_char(symbols.tab_top_left).as_str());
        push_entry(&mut t, "tab_top_right", toml_char(symbols.tab_top_right).as_str());
        push_entry(&mut t, "tab_join_left", toml_char(symbols.tab_join_left).as_str());
        push_entry(&mut t, "tab_join_right", toml_char(symbols.tab_join_right).as_str());
        push_entry(&mut t, "tab_close", toml_char(symbols.tab_close).as_str());
        push_entry(&mut t, "table_rule_header_mid", toml_char(symbols.table_rule_header_mid).as_str());
        push_entry(&mut t, "table_rule_cross_mid", toml_char(symbols.table_rule_cross_mid).as_str());
        push_entry(&mut t, "scrollbar_thumb", toml_char(symbols.scrollbar_thumb).as_str());
        t
    }
}

} // verus!
