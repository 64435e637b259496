# sqview

The verified core of a keyboard-first terminal viewer for SQLite databases.

- `src/` is the library, verified with Verus: SQL text for paging, counting,
  filtering and writes; the filter language; the grid (paging window,
  focus, viewport, column layout, row selection); key and mouse routing; the
  inline cell editor; configuration, themes and symbols; and `session`, the
  interface as a state machine (`App::update` takes a message and returns
  the effects to perform).
- `app/` is the terminal program around it: arguments, the database
  connection, drawing, clipboard and file watching.
- `tests/` runs the library on concrete cases.
