# metropolis

The verified core of a terminal city skyline that shows system load: the
layout of its towers, street lamps and billboard, what every facade cell
shows and the glyph and colour it is drawn with, the rooftop fixtures,
lamps, pedestrians, vehicles and weather glyphs, which layers an area of a
given size paints, the identity of the city (display name, monolith sign,
frame counter), the steps of loading the configuration, and the
diagnostics overlay.  Colours are stated as roles of the theme
(`paint::Ink`); the themes themselves are not part of this crate.

- `src/` is the library, checked by Verus.
- `app/` holds the parts that touch the disk, serde and floating point, and
  paints the layers the library decides into a terminal buffer.  It does
  not move or draw weather, vehicles or people, nor draw signs and the
  billboard: their state and drawing are not part of this crate.
- `tests/` runs the library on concrete values.
