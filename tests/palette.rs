use unsvg::{colors, Color, PaletteColor, PaletteError};

#[test]
fn palette_has_sixteen_colors_in_order() {
    let c = colors();
    assert_eq!(c.len(), 16);
    assert_eq!(c[0], Color { red: 0, green: 0, blue: 0 });
    assert_eq!(c[1], Color { red: 0, green: 0, blue: 255 });
    assert_eq!(c[2], Color { red: 0, green: 255, blue: 255 });
    assert_eq!(c[7], Color { red: 255, green: 255, blue: 255 });
    assert_eq!(c[8], Color { red: 165, green: 42, blue: 42 });
    assert_eq!(c[15], Color { red: 128, green: 128, blue: 128 });
}

#[test]
fn palette_round_trips_by_index_and_color() {
    let c = colors();
    for i in 0..16 {
        let p = PaletteColor::from_index(i).unwrap();
        assert_eq!(p.index(), i);
        assert_eq!(p.color(), c[i]);
        assert_eq!(PaletteColor::from_color(c[i]), Ok(p));
    }
    assert_eq!(PaletteColor::from_index(3), Ok(PaletteColor::Green));
    assert_eq!(PaletteColor::from_index(13), Ok(PaletteColor::Purple));
}

#[test]
fn palette_lookup_errors() {
    assert_eq!(PaletteColor::from_index(16), Err(PaletteError::IndexOutOfRange));
    assert_eq!(PaletteColor::from_index(usize::MAX), Err(PaletteError::IndexOutOfRange));
    let absent = Color { red: 1, green: 2, blue: 3 };
    assert_eq!(PaletteColor::from_color(absent), Err(PaletteError::ColorNotFound));
}

#[test]
fn black_is_first_entry() {
    assert_eq!(Color::black(), colors()[0]);
    assert_eq!(PaletteColor::Black.color(), Color::black());
}
