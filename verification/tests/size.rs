use modernterm::size::{clamp_metric, count_cells, Size, TerminalSize, WindowDimensions};

fn size(width: u32, height: u32) -> Size {
    Size { width, height }
}

#[test]
fn default_sizes() {
    assert_eq!(Size::default(), size(800, 600));
    let terminal = TerminalSize::default();
    assert_eq!(terminal.cell_width, 6);
    assert_eq!(terminal.cell_height, 12);
    assert_eq!(terminal.columns(), 120);
    assert_eq!(terminal.screen_lines(), 30);
    assert_eq!(terminal.total_lines(), 30);
    assert_eq!(terminal.last_column(), 119);
    assert_eq!(terminal.bottommost_line(), 29);
    assert_eq!(terminal.layout_size, None);
}

#[test]
fn count_cells_rounds_down() {
    assert_eq!(count_cells(1000, 6), 166);
    assert_eq!(count_cells(5, 6), 0);
    assert_eq!(count_cells(6, 6), 1);
    assert_eq!(count_cells(0, 6), 0);
}

#[test]
fn count_cells_saturates_at_sixteen_bits() {
    assert_eq!(count_cells(u32::MAX, 1), u16::MAX);
    assert_eq!(count_cells(65535, 1), 65535);
    assert_eq!(count_cells(65536, 1), 65535);
}

#[test]
fn a_cell_without_extent_fits_without_bound() {
    assert_eq!(count_cells(10, 0), u16::MAX);
    assert_eq!(count_cells(0, 0), 0);
}

#[test]
fn clamp_metric_saturates() {
    assert_eq!(clamp_metric(12), 12);
    assert_eq!(clamp_metric(65535), 65535);
    assert_eq!(clamp_metric(70000), 65535);
}

#[test]
fn resize_computes_columns_and_lines() {
    let mut terminal = TerminalSize::default();
    let notice = terminal.resize(size(1000, 700), size(6, 12));
    assert_eq!(
        notice,
        Some(WindowDimensions { num_lines: 58, num_cols: 166, cell_width: 6, cell_height: 12 })
    );
    assert_eq!(terminal.columns(), 166);
    assert_eq!(terminal.screen_lines(), 58);
    assert_eq!(terminal.layout_size, Some(size(1000, 700)));
    assert_eq!(terminal.to_window(), notice.unwrap());
}

#[test]
fn resize_is_idempotent() {
    let mut terminal = TerminalSize::default();
    assert!(terminal.resize(size(1000, 700), size(6, 12)).is_some());
    let after_first = terminal;
    assert_eq!(terminal.resize(size(1000, 700), size(6, 12)), None);
    assert_eq!(terminal, after_first);
}

#[test]
fn resize_below_one_cell_is_ignored() {
    let mut terminal = TerminalSize::default();
    terminal.resize(size(1000, 700), size(6, 12));
    let valid = terminal;
    assert_eq!(terminal.resize(size(5, 700), size(6, 12)), None);
    assert_eq!(terminal, valid);
    assert_eq!(terminal.resize(size(1000, 11), size(6, 12)), None);
    assert_eq!(terminal, valid);
    assert_eq!(terminal.resize(size(0, 0), size(6, 12)), None);
    assert_eq!(terminal, valid);
}

#[test]
fn an_ignored_resize_is_not_remembered() {
    let mut terminal = TerminalSize::default();
    assert_eq!(terminal.resize(size(5, 5), size(6, 12)), None);
    assert_eq!(terminal, TerminalSize::default());
    assert_eq!(
        terminal.resize(size(60, 120), size(6, 12)),
        Some(WindowDimensions { num_lines: 10, num_cols: 10, cell_width: 6, cell_height: 12 })
    );
}

#[test]
fn the_first_resize_of_a_new_size_is_applied() {
    let mut terminal = TerminalSize::default();
    assert_eq!(
        terminal.resize(size(800, 600), size(6, 12)),
        Some(WindowDimensions { num_lines: 50, num_cols: 133, cell_width: 6, cell_height: 12 })
    );
    assert_eq!(terminal.columns(), 133);
    assert_eq!(terminal.screen_lines(), 50);
    assert_eq!(terminal.layout_size, Some(size(800, 600)));
    assert_eq!(terminal.resize(size(800, 600), size(6, 12)), None);
}

#[test]
fn the_first_resize_is_applied_even_where_it_derives_the_starting_grid() {
    let mut terminal = TerminalSize::default();
    assert_eq!(
        terminal.resize(size(720, 360), size(6, 12)),
        Some(WindowDimensions { num_lines: 30, num_cols: 120, cell_width: 6, cell_height: 12 })
    );
    assert_eq!(terminal.resize(size(720, 360), size(6, 12)), None);
}

#[test]
fn new_cell_metrics_alone_make_a_resize() {
    let mut terminal = TerminalSize::default();
    terminal.resize(size(800, 600), size(6, 12));
    assert_eq!(
        terminal.resize(size(800, 600), size(8, 16)),
        Some(WindowDimensions { num_lines: 37, num_cols: 100, cell_width: 8, cell_height: 16 })
    );
}
