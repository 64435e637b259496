use sqview::grid::view::{hit_test, scrollbar_drag_start, scrollbar_drag_target_row, GridHit, Rect};
use sqview::grid::{GridInit, GridState, RowSelection};
use sqview::mouse::{
    grid_click, route_mouse, GridClick, MouseButton, MouseContext, MouseInput, MouseKind, MouseRoute, OpenPopup,
    TabClick,
};
use sqview::value::{Column, SqlValue};

fn column(cid: i64, name: &str, col_type: &str) -> Column {
    Column {
        cid,
        name: name.to_string(),
        col_type: col_type.to_string(),
        not_null: false,
        default_value: None,
        is_pk: cid == 0,
        pk_position: if cid == 0 { 1 } else { 0 },
        writable: true,
    }
}

fn make_grid() -> GridState {
    let columns = vec![
        column(0, "id", "INTEGER"),
        column(1, "name", "TEXT"),
        column(2, "age", "INTEGER"),
        column(3, "email", "TEXT"),
    ];
    let rows: Vec<Vec<SqlValue>> = (0..50)
        .map(|i| {
            vec![
                SqlValue::Integer(i),
                SqlValue::Text(format!("user-{i}")),
                SqlValue::Integer(20 + i % 40),
                SqlValue::Text(format!("user{}@example.com", i)),
            ]
        })
        .collect();
    let mut grid = GridState::new(GridInit {
        table_name: "users".to_string(),
        columns,
        fk_cols: vec![false; 4],
        enumerated_values: vec![Vec::new(); 4],
        rows,
        width_sample_rows: vec![Vec::new(); 4],
        total_rows: 50,
        area_width: 80,
    });
    grid.window.rowids = (1..=50).map(Some).collect();
    grid
}

fn browse(grid_area: Rect) -> MouseContext {
    MouseContext {
        popup: OpenPopup::Nothing,
        edit_mode: false,
        sidebar_area: None,
        sidebar_visible: true,
        grid_scroll_area: None,
        grid_area: Some(grid_area),
        tab_hit: None,
    }
}

fn event(kind: MouseKind, x: u16, y: u16) -> MouseInput {
    MouseInput { kind, x, y, ctrl: false }
}

#[test]
fn mouse_click_on_grid_focuses_grid() {
    let area = Rect { x: 12, y: 8, width: 56, height: 16 };
    let route = route_mouse(event(MouseKind::Down(MouseButton::Left), 20, 10), &browse(area));
    assert_eq!(route, MouseRoute::Grid { left: true });
}

#[test]
fn mouse_drag_on_grid_scrollbar_scrolls_rows() {
    let mut grid = make_grid();
    grid.window.fetch_in_flight = true;
    let area = Rect { x: 12, y: 8, width: 20, height: 13 };
    grid.window.viewport_rows = (area.height - 3) as usize;
    let c = browse(area);

    assert_eq!(route_mouse(event(MouseKind::Down(MouseButton::Left), 31, 11), &c), MouseRoute::Grid { left: true });
    assert_eq!(grid_click(hit_test(area, &grid, 31, 11), false), GridClick::StartDrag);
    let (grab_offset, target_row) = scrollbar_drag_start(area, &grid, 11).expect("on the scrollbar track");
    grid.scroll_to_row(target_row);
    let start_row = grid.focused_row;

    assert_eq!(route_mouse(event(MouseKind::Drag(MouseButton::Left), 31, 20), &c), MouseRoute::DragScrollbar);
    let row = scrollbar_drag_target_row(area, &grid, 20, grab_offset).expect("a row");
    grid.scroll_to_row(row);
    assert!(grid.focused_row > start_row);

    assert_eq!(route_mouse(event(MouseKind::Up(MouseButton::Left), 31, 20), &c), MouseRoute::EndDrag);
}

#[test]
fn popups_and_edit_mode_take_or_drop_mouse_events() {
    let area = Rect { x: 0, y: 0, width: 10, height: 10 };
    let mut c = browse(area);
    let click = event(MouseKind::Down(MouseButton::Left), 1, 1);
    c.popup = OpenPopup::FilterEditor;
    assert_eq!(route_mouse(click, &c), MouseRoute::FilterEditor);
    c.popup = OpenPopup::TextEditor;
    assert_eq!(route_mouse(click, &c), MouseRoute::TextEditor);
    c.popup = OpenPopup::Other;
    assert_eq!(route_mouse(click, &c), MouseRoute::Ignore);
    c.popup = OpenPopup::Nothing;
    c.edit_mode = true;
    assert_eq!(route_mouse(click, &c), MouseRoute::Ignore);
}

#[test]
fn wheel_scrolls_the_panel_under_the_pointer_and_tabs_win_clicks() {
    let grid = Rect { x: 20, y: 2, width: 40, height: 20 };
    let mut c = browse(grid);
    c.sidebar_area = Some(Rect { x: 0, y: 2, width: 20, height: 20 });
    c.grid_scroll_area = Some(Rect { x: 19, y: 1, width: 42, height: 22 });
    assert_eq!(route_mouse(event(MouseKind::ScrollDown, 5, 5), &c), MouseRoute::ScrollSidebar { down: true });
    assert_eq!(route_mouse(event(MouseKind::ScrollUp, 60, 22), &c), MouseRoute::ScrollGrid { down: false });
    assert_eq!(route_mouse(event(MouseKind::ScrollUp, 70, 5), &c), MouseRoute::Ignore);
    c.sidebar_visible = false;
    assert_eq!(route_mouse(event(MouseKind::Down(MouseButton::Left), 5, 5), &c), MouseRoute::Ignore);
    assert_eq!(route_mouse(event(MouseKind::Down(MouseButton::Middle), 30, 5), &c), MouseRoute::Grid { left: false });
    c.tab_hit = Some(TabClick::Close(2));
    assert_eq!(route_mouse(event(MouseKind::Down(MouseButton::Middle), 30, 0), &c), MouseRoute::Tab(TabClick::Close(2)));
    assert_eq!(route_mouse(event(MouseKind::Down(MouseButton::Right), 30, 5), &c), MouseRoute::Ignore);
}

#[test]
fn grid_clicks_follow_what_is_under_the_pointer() {
    assert_eq!(grid_click(Some(GridHit::Header(2)), false), GridClick::SortColumn(2));
    assert_eq!(grid_click(Some(GridHit::RowGutter(4)), true), GridClick::SelectRow { row: 4, toggle: true });
    assert_eq!(grid_click(Some(GridHit::Cell { row: 1, col: 3 }), false), GridClick::FocusCell { row: 1, col: 3 });
    assert_eq!(grid_click(Some(GridHit::AlphabetRail('Q')), false), GridClick::JumpToLetter('Q'));
    assert_eq!(grid_click(None, false), GridClick::Nothing);
}

#[test]
fn ctrl_click_on_row_gutter_toggles_rows_without_clearing_selection() {
    let mut grid = make_grid();
    let area = Rect { x: 12, y: 8, width: 56, height: 16 };
    grid.window.viewport_rows = (area.height - 3) as usize;
    let c = browse(area);
    for y in [11u16, 13] {
        let click = MouseInput { kind: MouseKind::Down(MouseButton::Left), x: 12, y, ctrl: true };
        assert_eq!(route_mouse(click, &c), MouseRoute::Grid { left: true });
        match grid_click(hit_test(area, &grid, 12, y), click.ctrl) {
            GridClick::SelectRow { row, toggle } => {
                let col = grid.focused_col;
                if toggle {
                    grid.toggle_row_selected(row);
                } else {
                    grid.select_only_row(row);
                }
                grid.focus_cell_preserve_selection(row, col);
            }
            other => panic!("expected the row gutter, got {:?}", other),
        }
    }
    assert_eq!(grid.focused_row, 2);
    assert_eq!(grid.row_selection, RowSelection::Rows(vec![0, 2]));
}
