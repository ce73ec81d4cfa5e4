//! The colours and cell writes that the scene's decisions are stated in.

use vstd::prelude::*;

verus! {

/// A colour of the theme in use.
#[derive(PartialEq, Eq, Structural, Clone, Copy, Debug)]
pub enum ThemeSlot {
    NeonMain,
    NeonSub1,
    NeonSub2,
    NeonSub3,
    Rain,
    RainBg,
    Snow,
    PoliceRed,
    PoliceBlue,
    /// The colour of the foreground towers' walls.
    BuildingBase,
    /// The colour of the distant buildings, drawn darkened.
    BuildingFar,
    WindowLit,
    WindowUnlit,
    WindowDark,
    /// The colour of the street and of the lamp poles.
    Ground,
    StreetLampLit,
    StreetLampDim,
}

/// A colour a cell is painted with.
#[derive(PartialEq, Eq, Structural, Clone, Copy, Debug)]
pub enum Ink {
    /// The terminal's own colour.
    Reset,
    White,
    DarkGray,
    Rgb { r: u8, g: u8, b: u8 },
    /// A colour of the theme.
    Theme { slot: ThemeSlot },
    /// A colour of the theme, darkened.
    Darkened { slot: ThemeSlot },
    /// The colour of the vehicle being drawn.
    Vehicle,
    Red,
    Green,
    /// The colour of the pedestrian being drawn.
    Person,
    /// A logo glyph's colour, unless the theme overrides the logo's colour.
    LogoGlyph,
    /// A logo glyph's background, or the towers' wall colour where the
    /// glyph has none of its own.
    LogoGlyphBack,
    /// The configured solid background colour, or the terminal's own where
    /// it does not name a colour.
    SolidBackground,
}

/// What becomes of a written cell's background.
#[derive(PartialEq, Eq, Structural, Clone, Copy, Debug)]
pub enum Backdrop {
    /// The cell keeps its background.
    Keep,
    /// The cell takes what shows behind it: the old foreground over a solid
    /// block glyph, else the old background (see `backdrop_of`).
    Blend,
    /// The cell's background becomes `ink`.
    Paint { ink: Ink },
}

/// One glyph written to one cell.
#[derive(PartialEq, Eq, Structural, Clone, Copy, Debug)]
pub struct CellWrite {
    pub col: u16,
    pub row: u16,
    pub glyph: char,
    pub fg: Ink,
    pub bg: Backdrop,
}

/// A symbol (one or more characters shown in one cell) written to one cell.
pub struct SymbolWrite {
    pub col: u16,
    pub row: u16,
    pub symbol: String,
    pub fg: Ink,
    pub bg: Backdrop,
}

/// `w` writes `symbol` at `(col, row)` in `fg`, doing `bg` to the
/// background.
pub open spec fn writes_symbol(w: SymbolWrite, col: int, row: int, symbol: Seq<char>, fg: Ink, bg: Backdrop) -> bool {
    &&& w.col == col
    &&& w.row == row
    &&& w.symbol@ == symbol
    &&& w.fg == fg
    &&& w.bg == bg
}

/// `w` writes `text` from `(col, row)` in `fg`.
pub open spec fn writes_text(w: TextWrite, col: int, row: int, text: Seq<char>, fg: Ink) -> bool {
    &&& w.col == col
    &&& w.row == row
    &&& w.text@ == text
    &&& w.fg == fg
}

/// Every cell of an area set to `symbol` on the background `bg`, each
/// keeping its foreground.
#[derive(PartialEq, Eq, Structural, Clone, Copy, Debug)]
pub struct AreaFill {
    pub x: u16,
    pub y: u16,
    pub width: u16,
    pub height: u16,
    pub symbol: char,
    pub bg: Ink,
}

/// A text written from a cell to the right, keeping the backgrounds.
pub struct TextWrite {
    pub col: u16,
    pub row: u16,
    pub text: String,
    pub fg: Ink,
}

} // verus!
