use sqview::config::Config;
use sqview::symbols::{SymbolErrorKind, SymbolOverrides};
use sqview::theme::{color_to_hex, parse_hex_color, Rgb, Theme, ThemeErrorKind, ThemeOverrides};

#[test]
fn config_supports_theme_and_symbol_overrides() {
    let config = Config {
        nerd_font: false,
        theme: ThemeOverrides { accent: Some("#ff8800".to_string()), ..ThemeOverrides::default() },
        symbols: SymbolOverrides {
            table_icon: Some("TAB".to_string()),
            sort_asc: Some(">".to_string()),
            ..SymbolOverrides::default()
        },
    };

    let theme = config.resolve_theme().ok().expect("theme");
    let symbols = config.resolve_symbols().ok().expect("symbols");

    assert_eq!(theme.accent, Rgb { r: 0xff, g: 0x88, b: 0x00 });
    assert_eq!(symbols.table_icon, "TAB");
    assert_eq!(symbols.sort_asc, '>');
    assert_eq!(symbols.view_icon, "[V]");
}

#[test]
fn invalid_single_cell_symbol_is_rejected() {
    let config = Config {
        nerd_font: true,
        theme: ThemeOverrides::default(),
        symbols: SymbolOverrides { selection: Some(">>".to_string()), ..SymbolOverrides::default() },
    };

    let err = match config.resolve_symbols() {
        Ok(_) => panic!("invalid symbol should fail"),
        Err(e) => e,
    };
    assert!(err.message().contains("symbols.selection"));
    assert_eq!(err.kind, SymbolErrorKind::NotSingleCharacter);
}

#[test]
fn first_refused_symbol_and_tab_count_are_reported() {
    let config = Config {
        nerd_font: true,
        theme: ThemeOverrides::default(),
        symbols: SymbolOverrides {
            arrow_down: Some(String::new()),
            scrollbar_thumb: Some("ab".to_string()),
            ..SymbolOverrides::default()
        },
    };
    let err = config.resolve_symbols().err().expect("empty glyph");
    assert_eq!(err.field, "symbols.arrow_down");
    assert_eq!(err.message(), "symbols.arrow_down must not be empty");

    let config = Config {
        nerd_font: true,
        theme: ThemeOverrides::default(),
        symbols: SymbolOverrides {
            tab_shortcuts: Some(vec!["a".to_string(); 3]),
            ..SymbolOverrides::default()
        },
    };
    let err = config.resolve_symbols().err().expect("short tab list");
    assert_eq!(err.kind, SymbolErrorKind::TabShortcutCount(3));
    assert_eq!(err.message(), "symbols.tab_shortcuts must contain exactly 10 entries, got 3");

    let ten = (0..10).map(|i| format!("t{i}")).collect::<Vec<_>>();
    let config = Config {
        nerd_font: true,
        theme: ThemeOverrides::default(),
        symbols: SymbolOverrides { tab_shortcuts: Some(ten), ..SymbolOverrides::default() },
    };
    let symbols = config.resolve_symbols().ok().expect("ten shortcuts");
    assert_eq!(symbols.tab_shortcut(9), Some("t9"));
    assert_eq!(symbols.tab_shortcut(10), None);
}

#[test]
fn theme_colors_parse_in_hex_with_optional_hash() {
    assert_eq!(parse_hex_color("theme.bg", "#0a0B0c").ok(), Some(Rgb { r: 10, g: 11, b: 12 }));
    assert_eq!(parse_hex_color("theme.bg", "ffffff").ok(), Some(Rgb { r: 255, g: 255, b: 255 }));
    assert_eq!(parse_hex_color("theme.bg", "+f+f+f").ok(), Some(Rgb { r: 15, g: 15, b: 15 }));
    assert_eq!(parse_hex_color("theme.bg", "#fff").err().map(|e| e.kind), Some(ThemeErrorKind::Format));
    assert_eq!(parse_hex_color("theme.bg", "#gg0000").err().map(|e| e.kind), Some(ThemeErrorKind::Red));
    assert_eq!(parse_hex_color("theme.bg", "#00zz00").err().map(|e| e.kind), Some(ThemeErrorKind::Green));
    let e = parse_hex_color("theme.fg", "#0000-1").err().expect("bad blue");
    assert_eq!(e.kind, ThemeErrorKind::Blue);
    assert_eq!(e.message(), "theme.fg has an invalid blue channel");
    assert_eq!(parse_hex_color("theme.bg", "éé12").err().map(|e| e.kind), Some(ThemeErrorKind::Red));
}

#[test]
fn hex_rendering_reads_back() {
    for c in [Rgb { r: 0, g: 0, b: 0 }, Rgb { r: 0x23, g: 0x21, b: 0x1f }, Rgb { r: 255, g: 128, b: 7 }] {
        let hex = color_to_hex(c);
        assert_eq!(parse_hex_color("theme.bg", &hex).ok(), Some(c));
    }
    assert_eq!(color_to_hex(Rgb { r: 0x23, g: 0x21, b: 0x1f }), "#23211f");
}

fn string_at(table: &toml::Table, key: &str) -> Option<String> {
    table.get(key).and_then(|v| v.as_str()).map(|s| s.to_string())
}

#[test]
fn default_config_toml_round_trips() {
    let text = Config::default_toml();
    let parsed: toml::Table = toml::from_str(&text).expect("default config");
    assert_eq!(parsed.get("nerd_font").and_then(|v| v.as_bool()), Some(true));
    let theme_table = parsed.get("theme").and_then(|v| v.as_table()).expect("theme table").clone();
    let symbol_table = parsed.get("symbols").and_then(|v| v.as_table()).expect("symbols table").clone();
    let theme = ThemeOverrides {
        bg: string_at(&theme_table, "bg"),
        bg_soft: string_at(&theme_table, "bg_soft"),
        bg_raised: string_at(&theme_table, "bg_raised"),
        line: string_at(&theme_table, "line"),
        line_soft: string_at(&theme_table, "line_soft"),
        fg: string_at(&theme_table, "fg"),
        fg_dim: string_at(&theme_table, "fg_dim"),
        fg_mute: string_at(&theme_table, "fg_mute"),
        fg_faint: string_at(&theme_table, "fg_faint"),
        accent: string_at(&theme_table, "accent"),
        red: string_at(&theme_table, "red"),
        yellow: string_at(&theme_table, "yellow"),
        green: string_at(&theme_table, "green"),
        teal: string_at(&theme_table, "teal"),
        blue: string_at(&theme_table, "blue"),
        purple: string_at(&theme_table, "purple"),
        pink: string_at(&theme_table, "pink"),
    };
    let symbols = SymbolOverrides {
        arrow_up: string_at(&symbol_table, "arrow_up"),
        arrow_down: string_at(&symbol_table, "arrow_down"),
        arrow_left: string_at(&symbol_table, "arrow_left"),
        arrow_right: string_at(&symbol_table, "arrow_right"),
        range_dash: string_at(&symbol_table, "range_dash"),
        sort_asc: string_at(&symbol_table, "sort_asc"),
        sort_desc: string_at(&symbol_table, "sort_desc"),
        separator: string_at(&symbol_table, "separator"),
        breadcrumb_prefix: string_at(&symbol_table, "breadcrumb_prefix"),
        breadcrumb_separator: string_at(&symbol_table, "breadcrumb_separator"),
        empty_placeholder: string_at(&symbol_table, "empty_placeholder"),
        missing_placeholder: string_at(&symbol_table, "missing_placeholder"),
        ellipsis: string_at(&symbol_table, "ellipsis"),
        cursor: string_at(&symbol_table, "cursor"),
        active_bar: string_at(&symbol_table, "active_bar"),
        selection: string_at(&symbol_table, "selection"),
        loading: string_at(&symbol_table, "loading"),
        enter: string_at(&symbol_table, "enter"),
        foreign_key_arrow: string_at(&symbol_table, "foreign_key_arrow"),
        bool_true: string_at(&symbol_table, "bool_true"),
        bool_false: string_at(&symbol_table, "bool_false"),
        valid: string_at(&symbol_table, "valid"),
        invalid: string_at(&symbol_table, "invalid"),
        readonly: string_at(&symbol_table, "readonly"),
        dropdown: string_at(&symbol_table, "dropdown"),
        table_icon: string_at(&symbol_table, "table_icon"),
        view_icon: string_at(&symbol_table, "view_icon"),
        index_icon: string_at(&symbol_table, "index_icon"),
        help_icon: string_at(&symbol_table, "help_icon"),
        filter_icon: string_at(&symbol_table, "filter_icon"),
        filter_marker: string_at(&symbol_table, "filter_marker"),
        folder_open: string_at(&symbol_table, "folder_open"),
        folder_closed: string_at(&symbol_table, "folder_closed"),
        pk_icon: string_at(&symbol_table, "pk_icon"),
        fk_icon: string_at(&symbol_table, "fk_icon"),
        tab_shortcuts: symbol_table.get("tab_shortcuts").and_then(|v| v.as_array()).map(|a| {
            a.iter().map(|x| x.as_str().unwrap_or_default().to_string()).collect()
        }),
        box_horizontal: string_at(&symbol_table, "box_horizontal"),
        box_vertical: string_at(&symbol_table, "box_vertical"),
        focus_top_left: string_at(&symbol_table, "focus_top_left"),
        focus_top_right: string_at(&symbol_table, "focus_top_right"),
        focus_bottom_left: string_at(&symbol_table, "focus_bottom_left"),
        focus_bottom_right: string_at(&symbol_table, "focus_bottom_right"),
        tab_top_left: string_at(&symbol_table, "tab_top_left"),
        tab_top_right: string_at(&symbol_table, "tab_top_right"),
        tab_join_left: string_at(&symbol_table, "tab_join_left"),
        tab_join_right: string_at(&symbol_table, "tab_join_right"),
        tab_close: string_at(&symbol_table, "tab_close"),
        table_rule_header_mid: string_at(&symbol_table, "table_rule_header_mid"),
        table_rule_cross_mid: string_at(&symbol_table, "table_rule_cross_mid"),
        scrollbar_thumb: string_at(&symbol_table, "scrollbar_thumb"),
    };
    let config = Config { nerd_font: true, theme, symbols };

    let theme = config.resolve_theme().ok().expect("theme");
    let symbols = config.resolve_symbols().ok().expect("symbols");

    assert_eq!(theme, Theme::default());
    assert_eq!(symbols.table_icon, "󰓫");
    assert_eq!(symbols.tab_shortcuts[0], "¹");
    assert_eq!(symbols.breadcrumb_separator, " › ");
    assert_eq!(symbols.scrollbar_thumb, '█');
}
