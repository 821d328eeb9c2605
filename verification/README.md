# zoe

The logic of Zoe, a small GTK file manager, as a verified library.

- `src/` (verified): the navigation history (`history`), folder listings
  (`listing`, `cd`), path strings (`paths`, `text`), the context menus and
  dialogs (`menus`) and theme-dependent icons (`theme`).
- `app/`: the GTK window and the file system calls, driving the library.
- `tests/`: tests of the library on concrete values.
