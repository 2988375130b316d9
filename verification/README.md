# cymg

`cymg` applies a cyberpunk-style effect to an image:
`cymg [options] <image-path>` writes `<stem>.cyber.<ext>` beside the input;
`--random` writes ten variants `<stem>.cyber.<index>.<ext>`, and
`--animation` writes `<stem>.cyber.gif` built from those ten variants.

## Layout

- `src/` — the verified library (Verus):
  - `cli.rs` — the argument grammar as a state machine (`ArgParser::feed` /
    `finish`), option ranges and defaults;
  - `decimal.rs` — integer parsing with the syntax of Rust's `FromStr`;
  - `effects/math.rs` — the seeded hash, row shifts, grain numerators and
    clamped pixel sampling;
  - `effects/pipeline.rs` — per-row context, channel sampling offsets and
    the scanline pattern;
  - `effects/bloom.rs` — neighbour indices of the bloom blur;
  - `output.rs` — the output file names (single image, numbered batch
    variant, animation);
  - `batch.rs` — the integer settings of each variant of the random batch;
  - `animation.rs` — frame order and frame size of the flash animation,
    RGB to RGBA;
  - `raster.rs` — the `image` crate's RGB buffer behind trusted accessors.
- `app/` — the program: argument and file I/O, and the floating-point colour
  work (grading, bloom, vignette, grain, blending), which calls the library
  for every integer decision.
- `tests/` — tests of the library.
