# print_queue

The logic of PrintQueue, a desktop application that watches a folder,
extracts images from zip archives, reads a paper size keyword from each
image's file name, routes the image to a print preset and sends it to the
printer.  The library is written in Verus: each function states what it
does in `requires`/`ensures` over mathematical models, and Verus proves it.

## Layout

- `src/` — the verified library
  - `text.rs` — character-sequence helpers and their specifications
  - `parser.rs` — the file name keyword parser
  - `models.rs`, `jobs.rs` — presets, configuration and the job queue
  - `watcher.rs` — the watch-folder pipeline: which events are handled,
    duplicate suppression, zip bookkeeping, routing images to presets
  - `printing.rs`, `windows_printing.rs`, `labels.rs` — printer discovery
    and capability parsing (CUPS and Windows), with their display labels
  - `cups.rs`, `macos.rs`, `windows_print.rs`, `pdf_image.rs`,
    `commands.rs` — command lines, scripts, page sizes and the readings of
    what the printing tools answer
- `tests/` — tests of the library on concrete values
- `app/` — the Tauri application around the library: commands, storage,
  the file system watcher, processes, the PDF wrapper and the tray

Page dimensions are kept in hundredths of a point, floating-point preset
fields as the bit patterns of their `f64` values, identifiers as the
128-bit value of their UUID.
