use canvas_grid::canvas::{DrawOp, DrawingContext};
use canvas_grid::cell::{Border, CellObject, CellValue};
use canvas_grid::column::{Column, ColumnType, CELL_HEIGHT};
use canvas_grid::grid::{Grid, COLUMN_WIDTH};

fn rect(x: u64, y: u64, width: u32, height: u32) -> DrawOp {
    DrawOp::Rect { x, y, width, height }
}

fn rects(ctx: &DrawingContext) -> Vec<DrawOp> {
    ctx.ops
        .iter()
        .copied()
        .filter(|op| matches!(op, DrawOp::Rect { .. }))
        .collect()
}

fn name_of(column_id: u32) -> String {
    let mut ctx = DrawingContext::new();
    Column::new(&mut ctx, column_id, 0, COLUMN_WIDTH).get_column_name()
}

#[test]
fn cells_know_their_place() {
    let mut ctx = DrawingContext::new();
    let grid = Grid::new(&mut ctx, 3, 4);
    for (c, column) in grid.columns.iter().enumerate() {
        assert_eq!(column.column_id as usize, c);
        for (r, cell) in column.cells.iter().enumerate() {
            assert_eq!(cell.column_id as usize, c);
            assert_eq!(cell.row_id as usize, r);
        }
    }
}

#[test]
fn grid_dimensions() {
    let mut ctx = DrawingContext::new();
    let grid = Grid::new(&mut ctx, 7, 5);
    assert_eq!(grid.num_rows, 7);
    assert_eq!(grid.num_cols, 5);
    assert_eq!(grid.columns.len(), 5);
    for column in grid.columns.iter() {
        assert_eq!(column.cells.len(), 7);
        assert_eq!(column.column_type, ColumnType::String);
    }
}

#[test]
fn width_is_sum_of_column_widths() {
    let mut ctx = DrawingContext::new();
    let mut grid = Grid::new(&mut ctx, 2, 3);
    assert_eq!(grid.get_width(), 240);
    grid.columns[1].set_width(100);
    assert_eq!(grid.get_width(), 260);
    let sum: u64 = grid.columns.iter().map(|c| c.get_width() as u64).sum();
    assert_eq!(grid.get_width(), sum);
}

#[test]
fn set_width_leaves_cells_alone() {
    let mut ctx = DrawingContext::new();
    let mut column = Column::new(&mut ctx, 2, 3, COLUMN_WIDTH);
    let drawn = ctx.ops.len();
    column.set_width(120);
    assert_eq!(column.get_width(), 120);
    assert_eq!(ctx.ops.len(), drawn);
    for cell in column.cells.iter() {
        assert_eq!(cell.width, 80);
    }
}

#[test]
fn fresh_cell_holds_absent_string() {
    let cell = CellObject::new(4, 9, 30, 80);
    assert_eq!(cell.get_value(), CellValue::String(None));
    assert_eq!(cell.column_id, 4);
    assert_eq!(cell.row_id, 9);
    assert_eq!(cell.height, 30);
    assert_eq!(cell.width, 80);
}

#[test]
fn get_value_is_a_copy() {
    let mut cell = CellObject::new(0, 0, 30, 80);
    cell.value = CellValue::String(Some("x".to_string()));
    let mut copy = cell.get_value();
    assert_eq!(copy, CellValue::String(Some("x".to_string())));
    copy = CellValue::Int(Some(3));
    assert_eq!(copy, CellValue::Int(Some(3)));
    assert_eq!(cell.get_value(), CellValue::String(Some("x".to_string())));
    cell.value = CellValue::Float(Some(1.5f32.to_bits()));
    assert_eq!(cell.get_value(), CellValue::Float(Some(1.5f32.to_bits())));
    cell.value = CellValue::Int(None);
    assert_eq!(cell.get_value(), CellValue::Int(None));
}

#[test]
fn cell_draws_one_stroked_rectangle() {
    let mut ctx = DrawingContext::new();
    let cell = CellObject::new(3, 2, 30, 80);
    cell.draw(&mut ctx);
    assert_eq!(
        ctx.ops,
        vec![DrawOp::BeginPath, rect(240, 60, 80, 30), DrawOp::Stroke]
    );
}

#[test]
fn cell_draw_appends() {
    let mut ctx = DrawingContext::new();
    ctx.stroke();
    let cell = CellObject::new(u32::MAX, u32::MAX, u32::MAX, u32::MAX);
    cell.draw(&mut ctx);
    let far = (u32::MAX as u64) * (u32::MAX as u64);
    assert_eq!(
        ctx.ops,
        vec![
            DrawOp::Stroke,
            DrawOp::BeginPath,
            rect(far, far, u32::MAX, u32::MAX),
            DrawOp::Stroke
        ]
    );
}

#[test]
fn first_columns_are_single_letters() {
    for id in 0u32..26 {
        let expected = ((b'A' + id as u8) as char).to_string();
        assert_eq!(name_of(id), expected);
    }
}

#[test]
fn column_26_is_aa() {
    assert_eq!(name_of(26), "AA");
}

#[test]
fn column_27_is_ab() {
    assert_eq!(name_of(27), "AB");
}

#[test]
fn column_51_is_az() {
    assert_eq!(name_of(51), "AZ");
}

#[test]
fn column_52_is_ba() {
    assert_eq!(name_of(52), "BA");
}

#[test]
fn column_701_is_zz() {
    assert_eq!(name_of(701), "ZZ");
}

#[test]
fn column_702_is_aaa() {
    assert_eq!(name_of(702), "AAA");
}

#[test]
fn names_strictly_increase() {
    let mut previous = name_of(0);
    for id in 1u32..20000 {
        let name = name_of(id);
        assert!(
            previous.len() < name.len() || (previous.len() == name.len() && previous < name),
            "{} then {}",
            previous,
            name
        );
        previous = name;
    }
}

#[test]
fn names_are_never_empty() {
    for id in [0u32, 1, 25, 26, 701, 702, 18277, 18278, u32::MAX - 1, u32::MAX] {
        let name = name_of(id);
        assert!(!name.is_empty());
        assert!(name.chars().all(|c| c.is_ascii_uppercase()));
    }
    assert_eq!(name_of(u32::MAX), "MWLQKWV");
}

#[test]
fn wide_grid_scenario() {
    let mut ctx = DrawingContext::new();
    let grid = Grid::new(&mut ctx, 12, 350);
    assert_eq!(grid.get_width(), 350 * 80);
    assert_eq!(grid.get_width(), 28000);
    assert_eq!(grid.get_column(349).unwrap().get_column_name(), "ML");
    assert_eq!(name_of(361), "MX");
    assert!(grid.get_column(350).is_none());
    assert_eq!(rects(&ctx).len(), 12 * 350);
}

#[test]
fn one_cell_grid_scenario() {
    let mut ctx = DrawingContext::new();
    let grid = Grid::new(&mut ctx, 1, 1);
    assert_eq!(grid.columns.len(), 1);
    assert_eq!(grid.columns[0].cells.len(), 1);
    assert_eq!(grid.get_column(0).unwrap().get_column_name(), "A");
    assert_eq!(grid.get_width(), 80);
    assert_eq!(
        ctx.ops,
        vec![DrawOp::BeginPath, rect(0, 0, 80, 30), DrawOp::Stroke]
    );
}

#[test]
fn draw_order_is_column_major() {
    let mut ctx = DrawingContext::new();
    let _grid = Grid::new(&mut ctx, 2, 3);
    assert_eq!(
        rects(&ctx),
        vec![
            rect(0, 0, 80, 30),
            rect(0, 30, 80, 30),
            rect(80, 0, 80, 30),
            rect(80, 30, 80, 30),
            rect(160, 0, 80, 30),
            rect(160, 30, 80, 30),
        ]
    );
    assert_eq!(ctx.ops.len(), 18);
    for chunk in ctx.ops.chunks(3) {
        assert_eq!(chunk[0], DrawOp::BeginPath);
        assert_eq!(chunk[2], DrawOp::Stroke);
    }
}

#[test]
fn rowless_grid_scenario() {
    let mut ctx = DrawingContext::new();
    let grid = Grid::new(&mut ctx, 0, 5);
    assert_eq!(grid.columns.len(), 5);
    for column in grid.columns.iter() {
        assert!(column.cells.is_empty());
    }
    assert_eq!(grid.get_width(), 400);
    assert!(ctx.ops.is_empty());
}

#[test]
fn empty_grid() {
    let mut ctx = DrawingContext::new();
    let grid = Grid::new(&mut ctx, 4, 0);
    assert_eq!(grid.get_width(), 0);
    assert!(grid.get_column(0).is_none());
    assert!(ctx.ops.is_empty());
}

#[test]
fn add_scenario() {
    assert_eq!(canvas_grid::add(2, 3), 5);
    assert_eq!(canvas_grid::add(0, 0), 0);
    assert_eq!(canvas_grid::add(u32::MAX - 1, 1), u32::MAX);
}

#[test]
fn column_names_around_z() {
    let mut ctx = DrawingContext::new();
    assert_eq!(Column::new(&mut ctx, 25, 3, 80).get_column_name(), "Z");
    assert_eq!(Column::new(&mut ctx, 26, 3, 80).get_column_name(), "AA");
}

#[test]
fn column_cells_use_row_height() {
    let mut ctx = DrawingContext::new();
    let column = Column::new(&mut ctx, 1, 2, 50);
    assert_eq!(column.column_type, ColumnType::String);
    for cell in column.cells.iter() {
        assert_eq!(cell.height, CELL_HEIGHT);
        assert_eq!(cell.width, 50);
    }
    assert_eq!(rects(&ctx), vec![rect(50, 0, 50, 30), rect(50, 30, 50, 30)]);
}
