# wshowkeys

Shows the keys being pressed in an overlay on a wlroots-based Wayland
compositor. Input devices are opened by a small helper that keeps root
privileges and passes descriptors to the unprivileged client over a
socket.

## Layout

- `src/` — the verified library (Verus):
  - `text.rs`: substring and prefix search on UTF-8 text, text equality,
    reading and writing decimal `u32` numerals.
  - `wire.rs`: the packet between client and helper (a tag byte, then the
    UTF-8 path), with both directions of the round trip proved.
  - `helper.rs`: which requests the helper serves, what it answers, and
    what the client makes of the answer.
  - `root_utils.rs`: the ids recorded by `sudo`, and the order in which root
    is given up.
  - `cairo_utils.rs`: subpixel orders and the channels of `0xRRGGBBAA`
    colours.
  - `wsk.rs`: the overlay's state and every event decision (registry,
    seat, keymap, output, configure), redraw scheduling, key labels,
    drawing extents and the frame rule.
  - `libinput_stuff.rs`: key events and the device-opening context.
  - `wayland_utils.rs`: the listing of announced globals.
- `tests/` — tests of the library on concrete values.
- `app/` — the program: Wayland, libinput, xkb, cairo and pango calls, the
  fork and socket plumbing, system calls on credentials and shared memory.
  It asks the library at each decision and does what it is told.
