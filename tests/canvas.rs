use unsvg::{colors, Color, Image, Primitive};

#[test]
fn new_canvas_holds_only_background() {
    let img = Image::new(100, 50);
    assert_eq!(img.get_dimensions(), (100, 50));
    assert_eq!(img.primitives().len(), 1);
    assert_eq!(
        img.primitives()[0],
        Primitive::Background { width: 100, height: 50, fill: Color::black() }
    );
}

#[test]
fn each_draw_adds_one_line() {
    let mut img = Image::new(300, 300);
    let c = colors();
    for n in 0..10 {
        let r = img.draw_simple_line(n, n, n * 37, 20, c[n as usize % 16]);
        assert!(r.is_ok());
        assert_eq!(img.primitives().len(), n as usize + 2);
    }
    assert_eq!(img.get_dimensions(), (300, 300));
}

#[test]
fn draw_appends_line_and_returns_end() {
    let mut img = Image::new(200, 200);
    let c = colors();
    let end = img.draw_simple_line(10, 10, 90, 30, c[4]).unwrap();
    assert_eq!(end, (40, 10));
    assert_eq!(
        img.primitives()[1],
        Primitive::Line { start_x: 10, start_y: 10, end_x: 40, end_y: 10, color: c[4] }
    );
}

#[test]
fn out_of_range_draw_fails_and_leaves_canvas() {
    let mut img = Image::new(10, 10);
    let c = colors();
    assert!(img.draw_simple_line(i32::MAX, 0, 90, 1, c[1]).is_err());
    assert!(img.draw_simple_line(0, i32::MIN, 0, i32::MAX, c[1]).is_err());
    assert_eq!(img.primitives().len(), 1);
    assert!(img.draw_simple_line(i32::MAX - 1, 0, 90, 1, c[1]).is_ok());
    assert_eq!(img.primitives().len(), 2);
}

#[test]
fn three_chained_lines() {
    let mut img = Image::new(200, 200);
    let c = colors();
    let (x1, y1) = (10, 10);
    let (x2, y2) = img.draw_simple_line(x1, y1, 120, 100, c[1]).unwrap();
    assert_eq!((x2, y2), (97, 60));
    let (x3, y3) = img.draw_simple_line(x2, y2, 240, 100, c[2]).unwrap();
    assert_eq!((x3, y3), (10, 110));
    let end = img.draw_simple_line(x3, y3, 0, 100, c[3]).unwrap();
    assert_eq!(end, (10, 10));
    let scene = img.primitives();
    assert_eq!(scene.len(), 4);
    assert_eq!(
        scene[3],
        Primitive::Line { start_x: 10, start_y: 110, end_x: 10, end_y: 10, color: c[3] }
    );
}

#[test]
fn cloned_canvas_is_independent() {
    let mut img = Image::new(20, 20);
    let copy = img.clone();
    img.draw_simple_line(0, 0, 180, 5, colors()[2]).unwrap();
    assert_eq!(copy.primitives().len(), 1);
    assert_eq!(img.primitives().len(), 2);
}
