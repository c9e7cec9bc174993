use vstd::prelude::*;

verus! {

/// An opaque 8-bit-per-channel RGB color. Two colors are equal when all three
/// channels are.
#[derive(Clone, Copy, Debug, PartialEq, Eq, Structural)]
pub struct Color {
    pub red: u8,
    pub green: u8,
    pub blue: u8,
}

pub open spec fn rgb(red: u8, green: u8, blue: u8) -> Color {
    Color { red, green, blue }
}

impl Color {
    /// Pure black, the background of every new canvas.
    pub fn black() -> (r: Color)
        ensures
            r == rgb(0, 0, 0),
    {
        Color { red: 0, green: 0, blue: 0 }
    }
}

/// Why a palette lookup failed.
#[derive(Clone, Copy, Debug, PartialEq, Eq, Structural)]
pub enum PaletteError {
    /// The index is 16 or more.
    IndexOutOfRange,
    /// The color is none of the palette's sixteen.
    ColorNotFound,
}

/// The sixteen named colors of the Logo palette, in palette order.
#[derive(Clone, Copy, Debug, PartialEq, Eq, Structural)]
pub enum PaletteColor {
    Black,
    Blue,
    Cyan,
    Green,
    Red,
    Magenta,
    Yellow,
    White,
    Brown,
    Tan,
    Forest,
    Aqua,
    Salmon,
    Purple,
    Orange,
    Grey,
}

/// The palette entry at index `i`, for `i` in `[0, 16)`.
pub open spec fn palette_at(i: u8) -> PaletteColor {
    match i {
        0 => PaletteColor::Black,
        1 => PaletteColor::Blue,
        2 => PaletteColor::Cyan,
        3 => PaletteColor::Green,
        4 => PaletteColor::Red,
        5 => PaletteColor::Magenta,
        6 => PaletteColor::Yellow,
        7 => PaletteColor::White,
        8 => PaletteColor::Brown,
        9 => PaletteColor::Tan,
        10 => PaletteColor::Forest,
        11 => PaletteColor::Aqua,
        12 => PaletteColor::Salmon,
        13 => PaletteColor::Purple,
        14 => PaletteColor::Orange,
        15 => PaletteColor::Grey,
        _ => PaletteColor::Black,
    }
}

/// The palette as a sequence of colors: entry `i` is the color of the `i`-th name.
pub open spec fn palette() -> Seq<Color> {
    Seq::new(16, |i: int| palette_at(i as u8).color_spec())
}

impl PaletteColor {
    pub open spec fn index_spec(self) -> int {
        match self {
            PaletteColor::Black => 0,
            PaletteColor::Blue => 1,
            PaletteColor::Cyan => 2,
            PaletteColor::Green => 3,
            PaletteColor::Red => 4,
            PaletteColor::Magenta => 5,
            PaletteColor::Yellow => 6,
            PaletteColor::White => 7,
            PaletteColor::Brown => 8,
            PaletteColor::Tan => 9,
            PaletteColor::Forest => 10,
            PaletteColor::Aqua => 11,
            PaletteColor::Salmon => 12,
            PaletteColor::Purple => 13,
            PaletteColor::Orange => 14,
            PaletteColor::Grey => 15,
        }
    }

    pub open spec fn color_spec(self) -> Color {
        match self {
            PaletteColor::Black => rgb(0, 0, 0),
            PaletteColor::Blue => rgb(0, 0, 255),
            PaletteColor::Cyan => rgb(0, 255, 255),
            PaletteColor::Green => rgb(0, 255, 0),
            PaletteColor::Red => rgb(255, 0, 0),
            PaletteColor::Magenta => rgb(255, 0, 255),
            PaletteColor::Yellow => rgb(255, 255, 0),
            PaletteColor::White => rgb(255, 255, 255),
            PaletteColor::Brown => rgb(165, 42, 42),
            PaletteColor::Tan => rgb(210, 180, 140),
            PaletteColor::Forest => rgb(34, 139, 34),
            PaletteColor::Aqua => rgb(127, 255, 212),
            PaletteColor::Salmon => rgb(250, 128, 114),
            PaletteColor::Purple => rgb(128, 0, 128),
            PaletteColor::Orange => rgb(255, 165, 0),
            PaletteColor::Grey => rgb(128, 128, 128),
        }
    }

    /// This name's position in the palette.
    pub fn index(&self) -> (r: usize)
        ensures
            r as int == self.index_spec(),
            r < 16,
    {
        match self {
            PaletteColor::Black => 0,
            PaletteColor::Blue => 1,
            PaletteColor::Cyan => 2,
            PaletteColor::Green => 3,
            PaletteColor::Red => 4,
            PaletteColor::Magenta => 5,
            PaletteColor::Yellow => 6,
            PaletteColor::White => 7,
            PaletteColor::Brown => 8,
            PaletteColor::Tan => 9,
            PaletteColor::Forest => 10,
            PaletteColor::Aqua => 11,
            PaletteColor::Salmon => 12,
            PaletteColor::Purple => 13,
            PaletteColor::Orange => 14,
            PaletteColor::Grey => 15,
        }
    }

    /// This name's color.
    pub fn color(&self) -> (r: Color)
        ensures
            r == self.color_spec(),
            r == palette()[self.index_spec()],
    {
        match self {
            PaletteColor::Black => Color { red: 0, green: 0, blue: 0 },
            PaletteColor::Blue => Color { red: 0, green: 0, blue: 255 },
            PaletteColor::Cyan => Color { red: 0, green: 255, blue: 255 },
            PaletteColor::Green => Color { red: 0, green: 255, blue: 0 },
            PaletteColor::Red => Color { red: 255, green: 0, blue: 0 },
            PaletteColor::Magenta => Color { red: 255, green: 0, blue: 255 },
            PaletteColor::Yellow => Color { red: 255, green: 255, blue: 0 },
            PaletteColor::White => Color { red: 255, green: 255, blue: 255 },
            PaletteColor::Brown => Color { red: 165, green: 42, blue: 42 },
            PaletteColor::Tan => Color { red: 210, green: 180, blue: 140 },
            PaletteColor::Forest => Color { red: 34, green: 139, blue: 34 },
            PaletteColor::Aqua => Color { red: 127, green: 255, blue: 212 },
            PaletteColor::Salmon => Color { red: 250, green: 128, blue: 114 },
            PaletteColor::Purple => Color { red: 128, green: 0, blue: 128 },
            PaletteColor::Orange => Color { red: 255, green: 165, blue: 0 },
            PaletteColor::Grey => Color { red: 128, green: 128, blue: 128 },
        }
    }

    /// The name at palette index `i`; fails with `IndexOutOfRange` from 16 on.
    pub fn from_index(i: usize) -> (r: Result<PaletteColor, PaletteError>)
        ensures
            i < 16 ==> r == Ok::<PaletteColor, PaletteError>(palette_at(i as u8)),
            i < 16 ==> palette_at(i as u8).index_spec() == i,
            i >= 16 ==> r == Err::<PaletteColor, PaletteError>(PaletteError::IndexOutOfRange),
    {
        match i {
            0 => Ok(PaletteColor::Black),
            1 => Ok(PaletteColor::Blue),
            2 => Ok(PaletteColor::Cyan),
            3 => Ok(PaletteColor::Green),
            4 => Ok(PaletteColor::Red),
            5 => Ok(PaletteColor::Magenta),
            6 => Ok(PaletteColor::Yellow),
            7 => Ok(PaletteColor::White),
            8 => Ok(PaletteColor::Brown),
            9 => Ok(PaletteColor::Tan),
            10 => Ok(PaletteColor::Forest),
            11 => Ok(PaletteColor::Aqua),
            12 => Ok(PaletteColor::Salmon),
            13 => Ok(PaletteColor::Purple),
            14 => Ok(PaletteColor::Orange),
            15 => Ok(PaletteColor::Grey),
            _ => Err(PaletteError::IndexOutOfRange),
        }
    }

    /// The name of a palette color, found by a scan of the sixteen entries; fails
    /// with `ColorNotFound` for a color outside the palette.
    pub fn from_color(c: Color) -> (r: Result<PaletteColor, PaletteError>)
        ensures
            match r {
                Ok(p) => p.color_spec() == c,
                Err(e) => e == PaletteError::ColorNotFound && !palette().contains(c),
            },
            r is Ok <==> palette().contains(c),
    {
        let mut i: usize = 0;
        while i < 16
            invariant
                i <= 16,
                forall|j: int| 0 <= j < i ==> palette()[j] != c,
            decreases 16 - i,
        {
            let p = match PaletteColor::from_index(i) {
                Ok(p) => p,
                Err(_) => PaletteColor::Black,
            };
            if p.color() == c {
                return Ok(p);
            }
            i = i + 1;
        }
        Err(PaletteError::ColorNotFound)
    }
}

/// The sixteen palette colors, in palette order.
pub fn colors() -> (r: Vec<Color>)
    ensures
        r@ == palette(),
{
    let mut v: Vec<Color> = Vec::new();
    let mut i: usize = 0;
    while i < 16
        invariant
            i <= 16,
            v@.len() == i,
            forall|j: int| 0 <= j < i ==> v@[j] == palette()[j],
        decreases 16 - i,
    {
        let p = match PaletteColor::from_index(i) {
            Ok(p) => p,
            Err(_) => PaletteColor::Black,
        };
        v.push(p.color());
        i = i + 1;
    }
    assert(v@ =~= palette());
    v
}

/// Every palette entry round-trips through the names: index `i` names a color whose
/// index is `i`, that color is in the palette, and it is the color of no other name,
/// so looking it up by color gives back the name at `i`.
pub proof fn lemma_palette_round_trip(i: int, p: PaletteColor)
    requires
        0 <= i < 16,
    ensures
        palette_at(i as u8).index_spec() == i,
        palette_at(i as u8).color_spec() == palette()[i],
        palette().contains(palette()[i]),
        p.color_spec() == palette()[i] ==> p == palette_at(i as u8),
{
    assert(palette()[i] == palette_at(i as u8).color_spec());
}

} // verus!
