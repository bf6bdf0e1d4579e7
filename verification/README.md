# models

Readers and writers for the binary game files of the Infinity Engine
(Baldur's Gate Enhanced Edition and Baldur's Gate II Enhanced Edition),
verified with Verus.

- `src/` is the library. Every format is read from a byte buffer by a
  function whose contract states, field by field, which bytes each value
  was read from, and when reading fails; writing states the bytes written.
  `src/laws.rs` holds the properties that span several functions: what
  writing gives back of what was read, and how names and rows are read.
- `src/common/` holds the building blocks: the little-endian codec of
  fixed-size records (`binary.rs`), text fields, resource types, zlib
  inflation and the string tables with 32-bit indices.
- `tests/` runs the library on small buffers built by hand.
- `app/` is the command-line tool: it reads a file, prints it as JSON or
  writes it back, and turns JSON back into game files.
