use termsonic::canvas::{Canvas, Cell, Color};

#[test]
fn new_canvas_is_blank() {
    let canvas = Canvas::new(3, 2);
    assert_eq!(canvas.width(), 3);
    assert_eq!(canvas.height(), 2);
    assert_eq!(canvas.buffer().len(), 2);
    for row in canvas.buffer() {
        assert_eq!(row.len(), 3);
        assert!(row.iter().all(|c| *c == Cell::empty()));
    }
}

#[test]
fn set_and_get_cell() {
    let mut canvas = Canvas::new(3, 2);
    canvas.set_cell(2, 1, Cell::new('x', Color::Red));
    assert_eq!(canvas.get_cell(2, 1), Some(&Cell::new('x', Color::Red)));
    assert_eq!(canvas.get_cell(1, 1), Some(&Cell::empty()));
    assert_eq!(canvas.get_cell(3, 0), None);
    assert_eq!(canvas.get_cell(0, 2), None);
}

#[test]
fn writes_off_the_canvas_are_ignored() {
    let mut canvas = Canvas::new(2, 2);
    canvas.set_cell(5, 0, Cell::new('x', Color::Red));
    canvas.set_cell(0, 9, Cell::new('x', Color::Red));
    assert!(canvas.buffer().iter().flatten().all(|c| *c == Cell::empty()));
}

#[test]
fn clear_and_resize_blank_every_cell() {
    let mut canvas = Canvas::new(2, 2);
    canvas.set_cell(1, 1, Cell::new('x', Color::Green));
    canvas.clear();
    assert_eq!(canvas.get_cell(1, 1), Some(&Cell::empty()));
    canvas.set_cell(0, 0, Cell::new('y', Color::Blue));
    canvas.resize(4, 1);
    assert_eq!(canvas.width(), 4);
    assert_eq!(canvas.height(), 1);
    assert_eq!(canvas.get_cell(0, 0), Some(&Cell::empty()));
    assert_eq!(canvas.get_cell(3, 0), Some(&Cell::empty()));
    assert_eq!(canvas.get_cell(0, 1), None);
}
