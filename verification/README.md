# clippi_ui

The logic of the main window of a clipboard manager: the clipboard list with its
selection, clicks and keys, the search box, the filter strip and its panel, the
sidebar of tags, the pages, dialogs, overlays and messages.

- `src/` is the library. Every function has a contract that says what it returns
  and how it changes the state, and Verus proves it. What the window asks of the
  rest of the program (the database, the clipboard, the hotkeys, the screen) is
  put into a queue of requests, in order.
- `app/` paints the window with gpui, runs the timers and does the requests.
- `tests/` runs the library on concrete values.

The state of the window is `root::RootView`. `root_laws`, `list_laws` and
`sidebar_laws`, and the `law_` functions of the other modules, state what holds
of more than one call.
