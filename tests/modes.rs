use termsonic::canvas::{Canvas, Cell, Color};
use termsonic::modes::{
    draw_trace, CircularMode, ModeKind, SpectrumBarsMode, CENTER_LINE, DISC, FULL_BLOCK, PEAK_DOT,
    RING, TRACE_LINE,
};

#[test]
fn test_mode_names() {
    let spectrum_mode = SpectrumBarsMode::new();
    assert_eq!(spectrum_mode.name(), "spectrum");

    assert_eq!(ModeKind::Waveform.name(), "waveform");

    let circular_mode = CircularMode::new();
    assert_eq!(circular_mode.name(), "circular");
}

#[test]
fn modes_are_found_by_name() {
    assert_eq!(ModeKind::from_name("spectrum"), Some(ModeKind::Spectrum));
    assert_eq!(ModeKind::from_name("waveform"), Some(ModeKind::Waveform));
    assert_eq!(ModeKind::from_name("circular"), Some(ModeKind::Circular));
    assert_eq!(ModeKind::from_name("Spectrum"), None);
    assert_eq!(ModeKind::from_name(""), None);
}

#[test]
fn block_char_fills_the_bottom_rows() {
    assert_eq!(SpectrumBarsMode::get_block_char(9, 3, 10), '█');
    assert_eq!(SpectrumBarsMode::get_block_char(7, 3, 10), '█');
    assert_eq!(SpectrumBarsMode::get_block_char(6, 3, 10), ' ');
    assert_eq!(SpectrumBarsMode::get_block_char(0, 0, 10), ' ');
    assert_eq!(SpectrumBarsMode::get_block_char(0, 10, 10), '█');
    assert_eq!(FULL_BLOCK, '█');
}

#[test]
fn bars_fill_from_the_bottom_with_peak_dots() {
    let mut canvas = Canvas::new(5, 3);
    let mode = SpectrumBarsMode::new();
    mode.draw(&vec![3, 1], &vec![Color::Red, Color::Blue], true, &mut canvas);
    for x in 0..2 {
        for y in 0..3 {
            assert_eq!(canvas.get_cell(x, y), Some(&Cell::new(FULL_BLOCK, Color::Red)));
        }
    }
    for x in 2..4 {
        assert_eq!(canvas.get_cell(x, 0), Some(&Cell::new(' ', Color::Blue)));
        assert_eq!(canvas.get_cell(x, 1), Some(&Cell::new(PEAK_DOT, Color::Blue)));
        assert_eq!(canvas.get_cell(x, 2), Some(&Cell::new(FULL_BLOCK, Color::Blue)));
    }
    for y in 0..3 {
        assert_eq!(canvas.get_cell(4, y), Some(&Cell::empty()));
    }
}

#[test]
fn bars_without_peaks_and_more_bands_than_columns() {
    let mut canvas = Canvas::new(2, 2);
    let mode = SpectrumBarsMode::new();
    mode.draw(&vec![0, 2, 1], &vec![Color::Red, Color::Green, Color::Blue], false, &mut canvas);
    assert_eq!(canvas.get_cell(0, 0), Some(&Cell::new(' ', Color::Red)));
    assert_eq!(canvas.get_cell(0, 1), Some(&Cell::new(' ', Color::Red)));
    assert_eq!(canvas.get_cell(1, 0), Some(&Cell::new(FULL_BLOCK, Color::Green)));
    assert_eq!(canvas.get_cell(1, 1), Some(&Cell::new(FULL_BLOCK, Color::Green)));
}

#[test]
fn empty_bar_has_its_peak_on_the_bottom_row() {
    let mut canvas = Canvas::new(1, 3);
    SpectrumBarsMode::new().draw(&vec![0], &vec![Color::Cyan], true, &mut canvas);
    assert_eq!(canvas.get_cell(0, 2), Some(&Cell::new(PEAK_DOT, Color::Cyan)));
    assert_eq!(canvas.get_cell(0, 1), Some(&Cell::new(' ', Color::Cyan)));
}

#[test]
fn hub_glyphs_by_distance() {
    assert_eq!(CircularMode::hub_glyph_at(0, 0), Some(DISC));
    assert_eq!(CircularMode::hub_glyph_at(2, 1), Some(DISC));
    assert_eq!(CircularMode::hub_glyph_at(4, 0), Some(RING));
    assert_eq!(CircularMode::hub_glyph_at(0, 3), Some(RING));
    assert_eq!(CircularMode::hub_glyph_at(6, 0), Some(RING));
    assert_eq!(CircularMode::hub_glyph_at(6, 1), None);
    assert_eq!(CircularMode::hub_glyph_at(-6, -3), None);
}

#[test]
fn hub_is_drawn_around_the_center() {
    let mut canvas = Canvas::new(20, 8);
    CircularMode::new().draw_hub(&mut canvas);
    assert_eq!(canvas.get_cell(10, 4), Some(&Cell::new(DISC, Color::White)));
    assert_eq!(canvas.get_cell(16, 4), Some(&Cell::new(RING, Color::White)));
    assert_eq!(canvas.get_cell(10, 1), Some(&Cell::new(RING, Color::White)));
    assert_eq!(canvas.get_cell(10, 7), Some(&Cell::new(RING, Color::White)));
    assert_eq!(canvas.get_cell(17, 4), Some(&Cell::empty()));
    assert_eq!(canvas.get_cell(16, 5), Some(&Cell::empty()));
    assert_eq!(canvas.get_cell(10, 0), Some(&Cell::empty()));
}

#[test]
fn hub_is_cut_at_the_canvas_edges() {
    let mut canvas = Canvas::new(4, 2);
    CircularMode::new().draw_hub(&mut canvas);
    assert_eq!(canvas.get_cell(2, 1), Some(&Cell::new(DISC, Color::White)));
    assert_eq!(canvas.get_cell(0, 0), Some(&Cell::new(DISC, Color::White)));
    assert_eq!(canvas.get_cell(3, 0), Some(&Cell::new(DISC, Color::White)));
}

#[test]
fn trace_joins_neighbouring_points_over_the_center_line() {
    let mut canvas = Canvas::new(4, 5);
    draw_trace(&vec![2, 0, 1, 4], Color::Green, &mut canvas);
    assert_eq!(canvas.get_cell(0, 2), Some(&Cell::new(DISC, Color::Green)));
    assert_eq!(canvas.get_cell(0, 0), Some(&Cell::empty()));
    for y in 0..=2 {
        assert_eq!(canvas.get_cell(1, y), Some(&Cell::new(TRACE_LINE, Color::Green)));
    }
    assert_eq!(canvas.get_cell(1, 3), Some(&Cell::empty()));
    assert_eq!(canvas.get_cell(2, 0), Some(&Cell::new(TRACE_LINE, Color::Green)));
    assert_eq!(canvas.get_cell(2, 1), Some(&Cell::new(TRACE_LINE, Color::Green)));
    assert_eq!(canvas.get_cell(2, 2), Some(&Cell::new(CENTER_LINE, Color::DarkGrey)));
    assert_eq!(canvas.get_cell(2, 3), Some(&Cell::empty()));
    for y in 1..=4 {
        assert_eq!(canvas.get_cell(3, y), Some(&Cell::new(TRACE_LINE, Color::Green)));
    }
    assert_eq!(canvas.get_cell(3, 0), Some(&Cell::empty()));
}

#[test]
fn flat_trace_lies_on_the_center_line() {
    let mut canvas = Canvas::new(3, 4);
    draw_trace(&vec![2, 2, 2], Color::Red, &mut canvas);
    assert_eq!(canvas.get_cell(0, 2), Some(&Cell::new(DISC, Color::Red)));
    assert_eq!(canvas.get_cell(1, 2), Some(&Cell::new(TRACE_LINE, Color::Red)));
    assert_eq!(canvas.get_cell(2, 2), Some(&Cell::new(TRACE_LINE, Color::Red)));
    assert_eq!(canvas.get_cell(1, 1), Some(&Cell::empty()));
}
