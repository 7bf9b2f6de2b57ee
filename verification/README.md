# emscripten_window

The window of a windowing library's emscripten backend: a single canvas that fills the page
body, with contracts proved by Verus.

- `src/` holds the verified library: window ids and their `u64` conversions, the window and
  its operations (most have fixed answers on a canvas), the events it sends, the errors it
  returns, the types of the settings it accepts, monitors and video modes (which have no
  values on a page), and the text of the scripts it runs in the page, with the numbers in
  decimal and no NUL character.
- `app/` holds the calls into the browser (through `deft-emscripten-sys`) and the
  floating-point size arithmetic (through `dpi`) that the library leaves to its caller.
- `tests/` runs the library on concrete values.
