use sqview::grid::view::Rect;
use sqview::grid::{GridInit, GridState};
use sqview::query::quote_identifier;
use sqview::symbols::{SymbolOverrides, Symbols};
use sqview::theme::{Theme, ThemeOverrides};
use sqview::filter::{filter_to_sql, ColumnFilter, FilterOp, FilterRule, FilterSet, FilterValue};
use sqview::value::{Column, SqlValue};

fn unquote(q: &str) -> String {
    q[1..q.len() - 1].replace("\"\"", "\"")
}

#[test]
fn quoting_reads_back() {
    for s in ["plain", "a\"b", "\"\"", "", "名前"] {
        assert_eq!(unquote(&quote_identifier(s)), s);
    }
}

#[test]
fn no_overrides_give_the_defaults() {
    let t = ThemeOverrides::default().resolve().ok().expect("theme");
    assert_eq!(t, Theme::default());
    let s = SymbolOverrides::default().resolve(false).ok().expect("symbols");
    let d = Symbols::default_with_nerd_font(false);
    assert_eq!(s.table_icon, d.table_icon);
    assert_eq!(s.ellipsis, d.ellipsis);
    assert_eq!(s.tab_shortcuts, d.tab_shortcuts);
}

#[test]
fn viewport_keeps_the_focused_row_visible() {
    let mut grid = GridState::new(GridInit {
        table_name: "t".to_string(),
        columns: vec![Column {
            cid: 0,
            name: "c".to_string(),
            col_type: "TEXT".to_string(),
            not_null: false,
            default_value: None,
            is_pk: false,
            pk_position: 0,
            writable: true,
        }],
        fk_cols: vec![false],
        enumerated_values: vec![Vec::new()],
        rows: vec![vec![SqlValue::Null]; 10],
        width_sample_rows: vec![],
        total_rows: 1000,
        area_width: 40,
    });
    grid.window.viewport_rows = 10;
    for step in [3usize, 50, 7, 400] {
        grid.scroll_down(step);
        let f = grid.focused_row as i64;
        assert!(grid.viewport_start <= f && f < grid.viewport_start + 10);
    }
    grid.scroll_to_end();
    assert_eq!(grid.focused_row, 999);
    assert!(grid.viewport_start <= 999 && 999 < grid.viewport_start + 10);
    let _ = Rect { x: 0, y: 0, width: 1, height: 1 };
}

#[test]
fn disabled_rules_on_many_columns_filter_nothing() {
    let mut fs = FilterSet::default();
    for (name, op) in [("a", FilterOp::Gt), ("b", FilterOp::Contains), ("c", FilterOp::Formula)] {
        fs.columns.push((
            name.to_string(),
            ColumnFilter {
                rules: vec![
                    FilterRule {
                        op,
                        value: FilterValue::Literal(SqlValue::Integer(7)),
                        enabled: false,
                        label: None,
                    },
                    FilterRule {
                        op: FilterOp::IsNull,
                        value: FilterValue::Literal(SqlValue::Null),
                        enabled: false,
                        label: Some("off".to_string()),
                    },
                ],
            },
        ));
    }
    let (clause, params) = filter_to_sql(&fs).expect("nothing enabled");
    assert!(clause.is_empty());
    assert!(params.is_empty());
}
