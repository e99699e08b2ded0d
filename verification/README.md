# HDR-Oxide

Creates HDR images from bracketed exposures, from the command line or a
graphical interface, and tone-maps them for display.

## Layout

- `src/` is the verified library. It holds the logic that works on
  integers, text and state:
  - `histogram`: per-channel 8-bit histograms (counting, maximum, clearing);
  - `error`: the error type and its messages;
  - `tonemap`: choosing the operator by name, pacing progress reports,
    assembling the 8-bit output image from rows;
  - `merge`: checking that the exposures can be merged, pacing progress;
  - `loader`: decoding image bytes, reading the exposure time from EXIF
    data, where each image's exposure time comes from, splitting
    fractional exposures;
  - `commands`: the decisions of the `create` command;
  - `gui`: the state machine behind the graphical interface;
  - `raster`, `text`, `pathname`: the calls into the `image` crate and std
    that the logic makes (building images, lowering letter case, reading a
    path's extension, comparing paths).
- `app/` is the program around it: argument parsing, file I/O,
  threads, the window, and the per-pixel floating-point arithmetic of
  merging and tone mapping.
- `tests/` exercises the library.
