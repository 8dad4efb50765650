# maple_limit

The editing logic of a small vector drawing editor, verified with Verus,
and the desktop program around it.

- `src/` is the library: the document with its boolean groups and its
  undo/redo history (`document`, `history`, `editor`), the drawing tools
  (`tool`), the palette and theme panels (`panels`, `palette`, `theme`),
  keyboard shortcuts (`keys`), grid settings (`grid`) and the text parts of
  the SVG export (`export`). Every function has a contract that Verus checks.
- `app/` is the program: the window and widgets, the canvas, floating-point
  geometry and drawing, the boolean operations on outlines, file and network
  input and output, and saved settings.
- `tests/` runs the library on concrete values.
