# win_canvas

An overlay for Windows that shows every open top-level window as a live
thumbnail on a pannable, zoomable canvas (toggled with Ctrl+Alt+Space), and
switches to the window the user picks.

- `src/` is the verified library (Verus):
  - `input`: decoding of mouse, wheel, key and timer messages into commands;
  - `navigation`: the selected window of the carousel and how it moves;
  - `overlay`: shown/hidden state, the fade-in of the overlay and of the
    labels, and the pending click;
  - `window_list`: which windows are offered, their titles and icons, and the
    thumbnail each laid-out window uses;
  - `geometry`: which thumbnails are on screen, label and indicator placement,
    pixel-buffer sizes, thumbnail property flags;
  - `text`: UTF-16 encoding and lossy decoding, and blank-title detection.
- `app/` is the Windows program around it: window creation, DWM thumbnails,
  GDI/GDI+ painting, the Direct2D blur of the background, the floating-point
  canvas geometry, and state persistence.
- `tests/` exercises the library on concrete values.
