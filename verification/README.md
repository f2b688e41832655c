# cosmic-touch-keyboard

On-screen keyboard for Wayland with a bottom panel UI and touch-focused
behavior.

- `src/` is the library, verified with Verus:
  - `shell_state` — when the panel is hidden or expanded, with the laws of
    its state machine (a dismissal sticks until focus leaves, touch-first
    mode needs a touch, no reachable state is collapsed);
  - `layout` — the four key layers as exact tables, and what every layer
    satisfies (only emoji keys type text, layer keys lead elsewhere, every
    layer leads back to the letters);
  - `mod_set`, `keyboard` — modifiers (off, armed, locked), what a tap
    does and what it sends, tap highlights, and the surface each shell
    state asks for;
  - `appearance` — captions, colours and row widths of keys;
  - `raster` — painting pixels, rectangles and 8x8 glyphs into the buffer;
  - `vk` — the virtual-keyboard requests for each command.
- `app/` is the program: Wayland connections, the drawing geometry (floating
  point), fonts, subprocesses, and the event loops that hand events to the
  library and carry out what it returns.
- `tests/` runs the library on concrete values.
