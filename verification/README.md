# glide_wm

The decisions of a tiling window manager for macOS, verified with Verus.

- `src/sys`: which screen is which and in which coordinates (`screen`,
  `geometry`), which desktop a number names on which display (`space`,
  `display_selector`), and what keys and buttons mean (`event`).
- `src/actor`: commands, and the preview of a window being dragged.
- `src/ui`: the status menu and the overlay that names a Workset.
- `src/text`, `src/search`: what the others compare and look up with.
- `app`: the macOS side, which asks AppKit and the window server and carries
  out what the library decides. It needs a macOS toolchain.

Coordinates are doubles, carried through the library by their bit patterns.
Their sums and differences come from the `Arithmetic` that the caller hands in,
and contracts name the operations that a result is made of.
