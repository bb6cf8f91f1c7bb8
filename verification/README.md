# pathfinder_font

A font-reading and glyph-packing library whose behaviour is stated in Verus contracts and
proved by Verus.

- `src/otf/`: the OpenType tables (`cmap`, `head`, `hhea`, `hmtx`, `OS/2`, `kern`, `loca`,
  `glyf` with simple and composite glyphs, and `CFF` charstrings), each parsed against a spec
  function over the table's bytes.
- `src/font.rs`: fonts from OpenType files, TrueType collections, resource forks and WOFF
  files (whose tables are inflated with `flate2`), and the per-glyph queries on them.
- `src/outline.rs`, `src/glyph_buffer.rs`, `src/buffers.rs`: packing glyph outlines into
  vertex and index lists, or into coordinates and two-bit point operations.
- `src/rect_packer.rs`, `src/atlas.rs`, `src/batch.rs`, `src/runs.rs`: placing glyph images
  on the shelves of an atlas, and joining the index spans of the glyphs into runs to draw.
- `src/charmap.rs`, `src/glyph_range.rs`, `src/shaper.rs`: codepoint ranges, glyph mappings
  and a simple shaper.
- `src/hinting/`: the TrueType hinting VM: decoding instructions, matching the branches of a
  program, and the interpreter, whose every step (`Hinter::step`) is stated by `step_spec`
  and whose runs of at most a given number of steps (`Hinter::exec`) by `run_spec`.
- `src/simd/`: packed integer vectors.
- `app/`: what needs floating point or the process environment: scaling glyph bounds to a
  point size, text layout, the subpixel origins of atlas images, reading rasterizer settings
  from the environment, and the loop that runs a hinting program until it stops.

The tests under `tests/` run the library on concrete fonts built byte by byte.
