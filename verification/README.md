# Light

A small, resource-efficient web browser: a window with a sidebar of tabs, a
navigation bar, and one native webview per tab.

- `src/` is the library, written in Verus. It holds everything the browser
  decides: the tabs and which one is active (`tab`), the bookmarks
  (`bookmarks`), address-bar input (`url`), keyboard shortcuts (`keys`), the
  settings (`settings`), the messages exchanged with the chrome (`ipc`), the
  HTML of the sidebar, navigation bar, settings and bookmarks pages and the
  script every page runs, and `browser`, which answers each message, shortcut
  or resize with the next state and the list of effects to carry out. Every
  function has a contract, and the laws that tie the operations together are
  proved as proof functions next to them.
- `app/` is the program around it: the `tao` window and event loop, the `wry`
  webviews, JSON through `serde`, and the files in the user's configuration
  directory (`settings.json`, `bookmarks.json`).
- `tests/` runs the library on concrete values.
