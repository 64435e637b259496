use sqview::filter::{
    escape_like_literal, filter_path, filter_to_sql, ColumnFilter, FilterError, FilterOp, FilterRule, FilterSet,
    FilterValue,
};
use sqview::value::SqlValue;

fn make_set(col: &str, op: FilterOp, val: FilterValue) -> FilterSet {
    let mut fs = FilterSet::default();
    fs.columns.push((
        col.to_string(),
        ColumnFilter { rules: vec![FilterRule { op, value: val, enabled: true, label: None }] },
    ));
    fs
}

fn text(v: &SqlValue) -> Option<&str> {
    match v {
        SqlValue::Text(t) => Some(t.as_str()),
        _ => None,
    }
}

#[test]
fn test_simple_equality() {
    let fs = make_set("id", FilterOp::Eq, FilterValue::Literal(SqlValue::Integer(42)));
    let (clause, params) = filter_to_sql(&fs).expect("valid filter");
    assert!(clause.contains("\"id\" = ?1"), "got: {}", clause);
    assert_eq!(params.len(), 1);
    assert!(matches!(params[0], SqlValue::Integer(42)));
}

#[test]
fn test_text_contains() {
    let fs = make_set("name", FilterOp::Contains, FilterValue::Pattern("foo".to_string()));
    let (clause, params) = filter_to_sql(&fs).expect("valid filter");
    assert!(clause.contains("LIKE"), "got: {}", clause);
    assert_eq!(params.first().and_then(text), Some("%foo%"));
}

#[test]
fn test_between() {
    let fs = make_set(
        "age",
        FilterOp::Between,
        FilterValue::Range(SqlValue::Integer(18), SqlValue::Integer(65)),
    );
    let (clause, params) = filter_to_sql(&fs).expect("valid filter");
    assert!(clause.contains("BETWEEN"), "got: {}", clause);
    assert_eq!(params.len(), 2);
}

#[test]
fn test_or_within_column() {
    let mut fs = FilterSet::default();
    fs.columns.push((
        "status".to_string(),
        ColumnFilter {
            rules: vec![
                FilterRule {
                    op: FilterOp::Eq,
                    value: FilterValue::Literal(SqlValue::Text("active".to_string())),
                    enabled: true,
                    label: None,
                },
                FilterRule {
                    op: FilterOp::Eq,
                    value: FilterValue::Literal(SqlValue::Text("pending".to_string())),
                    enabled: true,
                    label: None,
                },
            ],
        },
    ));
    let (clause, _) = filter_to_sql(&fs).expect("valid filter");
    assert!(clause.contains(" OR "), "got: {}", clause);
}

#[test]
fn test_and_across_columns() {
    let mut fs = FilterSet::default();
    fs.columns.push((
        "age".to_string(),
        ColumnFilter {
            rules: vec![FilterRule {
                op: FilterOp::Gt,
                value: FilterValue::Literal(SqlValue::Integer(18)),
                enabled: true,
                label: None,
            }],
        },
    ));
    fs.columns.push((
        "name".to_string(),
        ColumnFilter {
            rules: vec![FilterRule {
                op: FilterOp::Contains,
                value: FilterValue::Pattern("foo".to_string()),
                enabled: true,
                label: None,
            }],
        },
    ));
    let (clause, _) = filter_to_sql(&fs).expect("valid filter");
    assert!(clause.contains("\"age\"") && clause.contains("\"name\""), "got: {}", clause);
}

#[test]
fn test_null_checks() {
    let fs_null = make_set("email", FilterOp::IsNull, FilterValue::Literal(SqlValue::Null));
    let (clause, params) = filter_to_sql(&fs_null).expect("valid filter");
    assert!(clause.contains("IS NULL"), "got: {}", clause);
    assert_eq!(params.len(), 0);

    let fs_notnull = make_set("email", FilterOp::IsNotNull, FilterValue::Literal(SqlValue::Null));
    let (clause2, _) = filter_to_sql(&fs_notnull).expect("valid filter");
    assert!(clause2.contains("IS NOT NULL"), "got: {}", clause2);
}

#[test]
fn test_disabled_rule_excluded() {
    let mut fs = FilterSet::default();
    fs.columns.push((
        "id".to_string(),
        ColumnFilter {
            rules: vec![FilterRule {
                op: FilterOp::Eq,
                value: FilterValue::Literal(SqlValue::Integer(42)),
                enabled: false,
                label: None,
            }],
        },
    ));
    let (clause, params) = filter_to_sql(&fs).expect("valid filter");
    assert!(clause.is_empty(), "got: {}", clause);
    assert_eq!(params.len(), 0);
}

#[test]
fn test_empty_filter_set() {
    let fs = FilterSet::default();
    let (clause, params) = filter_to_sql(&fs).expect("valid filter");
    assert!(clause.is_empty());
    assert!(params.is_empty());
}

#[test]
fn test_starts_with() {
    let fs = make_set("title", FilterOp::StartsWith, FilterValue::Pattern("foo".to_string()));
    let (clause, params) = filter_to_sql(&fs).expect("valid filter");
    assert!(clause.contains("LIKE"), "got: {}", clause);
    assert_eq!(params.first().and_then(text), Some("foo%"));
}

#[test]
fn literal_text_operators_escape_like_wildcards_and_escape_character() {
    let cases = [
        (FilterOp::Contains, "%50\\%\\_\\\\off%", "\"name\" LIKE ?1 ESCAPE '\\'"),
        (FilterOp::NotContains, "%50\\%\\_\\\\off%", "\"name\" NOT LIKE ?1 ESCAPE '\\'"),
        (FilterOp::StartsWith, "50\\%\\_\\\\off%", "\"name\" LIKE ?1 ESCAPE '\\'"),
        (FilterOp::EndsWith, "%50\\%\\_\\\\off", "\"name\" LIKE ?1 ESCAPE '\\'"),
    ];

    for (op, expected_pattern, expected_clause) in cases {
        let filter = make_set("name", op, FilterValue::Pattern("50%_\\off".to_string()));
        let (clause, params) = filter_to_sql(&filter).expect("valid literal text filter");

        assert_eq!(clause, expected_clause);
        assert_eq!(params.len(), 1);
        assert_eq!(text(&params[0]), Some(expected_pattern));
    }
}

#[test]
fn explicit_like_preserves_wildcard_pattern() {
    let pattern = "50%_\\off";
    let filter = make_set("name", FilterOp::Like, FilterValue::Pattern(pattern.to_string()));
    let (clause, params) = filter_to_sql(&filter).expect("valid LIKE filter");

    assert_eq!(clause, "\"name\" LIKE ?1");
    assert_eq!(params.len(), 1);
    assert_eq!(text(&params[0]), Some(pattern));
}

#[test]
fn rejects_rule_value_mismatches() {
    let filter = make_set("name", FilterOp::Eq, FilterValue::Pattern("unexpected".to_string()));
    assert!(filter_to_sql(&filter).is_err());
}

#[test]
fn rejects_invalid_regex_and_formula() {
    let regex = make_set("name", FilterOp::Regex, FilterValue::Regex("[".to_string()));
    assert!(matches!(filter_to_sql(&regex), Err(FilterError::InvalidRegex(_))));

    let formula = make_set(
        "amount",
        FilterOp::Formula,
        FilterValue::Formula("col; DROP TABLE items".to_string()),
    );
    assert!(filter_to_sql(&formula).is_err());
}

#[test]
fn valid_regex_becomes_a_regexp_call() {
    let regex = make_set("name", FilterOp::Regex, FilterValue::Regex("^a+$".to_string()));
    let (clause, params) = filter_to_sql(&regex).expect("valid regex");
    assert_eq!(clause, "regexp(?1, \"name\")");
    assert_eq!(params.first().and_then(text), Some("^a+$"));
}

#[test]
fn like_escaping_marks_wildcards_and_the_escape() {
    assert_eq!(escape_like_literal("50%_\\off"), "50\\%\\_\\\\off");
    assert_eq!(escape_like_literal("plain"), "plain");
}

fn parent(p: &str) -> Option<&str> {
    p.rsplit_once('/').map(|(dir, _)| dir)
}

fn file_name(p: &str) -> Option<&str> {
    p.rsplit_once('/').map(|(_, name)| name)
}

#[test]
fn table_name_cannot_escape_filter_directory() {
    let normal = filter_path("/tmp/example.db", None, "items", Some("/data")).expect("filter path");
    let hostile = filter_path("/tmp/example.db", None, "/../../outside", Some("/data")).expect("filter path");
    assert_eq!(parent(&normal), parent(&hostile));
    assert_ne!(file_name(&normal), file_name(&hostile));
}

#[test]
fn databases_with_the_same_filename_have_distinct_directories() {
    let first = filter_path("/tmp/one/data.db", None, "items", Some("/data")).expect("filter path");
    let second = filter_path("/tmp/two/data.db", None, "items", Some("/data")).expect("filter path");
    assert_ne!(parent(&first), parent(&second));
}

#[test]
fn filter_paths_hash_the_database_and_hex_the_table() {
    let p = filter_path(":memory:", Some("/ignored"), "ab", Some("/data/")).expect("filter path");
    assert_eq!(p, "/data/filters-v2/1b8d945f58a428a4/6162.toml");
    let canonical = filter_path("rel.db", Some("/abs/rel.db"), "t", Some("/d")).unwrap();
    let direct = filter_path("/abs/rel.db", None, "t", Some("/d")).unwrap();
    assert_eq!(canonical, direct);
    assert_eq!(filter_path("x.db", None, "t", None), None);
}

fn rule(op: FilterOp, v: i64, enabled: bool) -> FilterRule {
    FilterRule { op, value: FilterValue::Literal(SqlValue::Integer(v)), enabled, label: None }
}

fn rule_value(cf: Option<&ColumnFilter>) -> Option<i64> {
    match cf.map(|c| &c.rules[0].value) {
        Some(FilterValue::Literal(SqlValue::Integer(n))) => Some(*n),
        _ => None,
    }
}

#[test]
fn column_filters_read_back_what_was_set() {
    let mut fs = FilterSet::default();
    fs.set_column_filter("a".to_string(), ColumnFilter { rules: vec![rule(FilterOp::Eq, 1, true)] });
    fs.set_column_filter("b".to_string(), ColumnFilter { rules: vec![rule(FilterOp::Gt, 2, true)] });
    fs.set_column_filter("a".to_string(), ColumnFilter { rules: vec![rule(FilterOp::Lt, 3, true)] });
    assert_eq!(fs.columns.len(), 2);
    assert_eq!(fs.columns[0].0, "a");
    assert_eq!(rule_value(fs.column_filter("a")), Some(3));
    assert_eq!(rule_value(fs.column_filter("b")), Some(2));
    assert!(fs.column_filter("c").is_none());

    fs.remove_column_filter("a");
    assert!(fs.column_filter("a").is_none());
    assert_eq!(rule_value(fs.column_filter("b")), Some(2));
    fs.remove_column_filter("zzz");
    assert_eq!(fs.columns.len(), 1);
}

#[test]
fn applying_only_disabled_rules_drops_the_column_filter() {
    let mut fs = FilterSet::default();
    fs.apply_column_filter("a".to_string(), ColumnFilter { rules: vec![rule(FilterOp::Eq, 1, true)] });
    assert_eq!(rule_value(fs.column_filter("a")), Some(1));
    fs.apply_column_filter("a".to_string(), ColumnFilter { rules: vec![rule(FilterOp::Eq, 1, false)] });
    assert!(fs.column_filter("a").is_none());
    fs.apply_column_filter("b".to_string(), ColumnFilter { rules: vec![] });
    assert!(fs.columns.is_empty());
}

#[test]
fn filter_errors_read_as_their_messages() {
    assert_eq!(FilterError::EmptyList.message(), "in filter requires at least one value");
    assert_eq!(FilterError::RequiresLiteral(FilterOp::Gt).message(), "Gt filter requires a literal value");
    assert_eq!(FilterError::RequiresPattern(FilterOp::StartsWith).message(), "StartsWith filter requires a text pattern");
    assert_eq!(
        FilterError::InvalidRegex("unclosed group".to_string()).message(),
        "invalid regular expression: unclosed group"
    );
    assert_eq!(FilterError::NegativeDayCount.message(), "last-N-days filter cannot be negative");
}
