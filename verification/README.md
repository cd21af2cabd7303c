# screen_grabber

A desktop screenshot tool: it captures a screen, or an area of it selected
with the mouse, lets the screenshot be annotated (free-hand lines,
rectangles, circles, arrows) and cropped, and saves it as PNG, JPEG or GIF.
Hotkeys start a screenshot while the window is in the background.

## Layout

- `src/` is the library, verified with Verus. It holds the decisions of the
  tool: the image formats and how a file is written for an extension, the
  save settings and the output path they lead to, the hotkey tables with
  their configuration file format, the screen selection, and the state
  machines of the window, the main menu, the settings screens, the area
  selection and the editor. Each function states what it returns in its
  `ensures`; the properties that span several calls (undo after a stroke,
  the configuration file read back after it was written, a drag that ends
  in a shape, ...) are public proof functions.
- `app/` is the program around it: the `eframe` window, the worker threads,
  the screenshots, the dialogs, the clipboard and the files. It passes what
  a frame observed to the library and performs what the library decides.
- `tests/` runs the library on concrete values.
