# nmrs_gui

A small GTK window for NetworkManager, built on the `nmrs` crate.

- `src/` is the library, verified with Verus. It holds what the window
  decides: which Wi-Fi networks are listed and in which order, what each
  row, header and details page shows, how the VPN forms are read, the steps of a refresh (`src/ui/refresh.rs`, a state machine that `app/` drives), when a
  refresh may start, and where the style sheets live. Every public function
  states its result in its `ensures`; the `lemma_*` proof functions state
  the properties that span several functions.
- `src/nm.rs` and the wrappers in `src/text.rs` and `src/style.rs` are the
  trusted items: the calls into `nmrs`, `dirs` and std whose contracts are
  believed, each with a doc comment saying what it claims.
- `app/` is the GTK front end: widgets, the asynchronous calls to
  NetworkManager, and the conversions between `nmrs` values and the
  library's own types.
- `tests/` runs the library on concrete values.
