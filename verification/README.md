# window

A small Win32 windowing library whose decision logic is verified with Verus.

- `src/` is the verified library: decoding window messages into events
  (`message`, `queue_test`, `global_event`), key codes (`event`), keyboard and
  mouse-button state (`input`), rectangles (`rect`), window styles and the
  per-window frame buffer and event queue (`window`, `queue`), the records GDI
  and the shell read (`gdi`, `bitmap`, `monitor`, `tray`, `clipboard`), and
  the checks around dark mode and accent colours (`dark_mode`, `dwm`).
- `app/` holds the calls into Windows: the C layouts of the Win32 records,
  the message loop, the window procedure, and a demo program.
- `tests/` exercises the library on concrete values.
