# SimpleTally

A tray-resident app that counts what was done: task types in categories, one click or one
keystroke per tally, with a daily view, insights over a span of days and a quick-add popup.

The rules of the app are a library verified with Verus; the program around it draws, reads and
writes.

- `src/service/` — the files and the database: opening, restoring and recovering them step by
  step, importing tables, looking for old databases, keeping the settings.
- `src/ui/` — the screens and dialogs: their state, what each frame of clicks and keys does to
  it, their colours, the texts that are put together from numbers, dates and names, and the
  ranking behind the quick-add search.
- `src/platform/` — windows and processes: where a window may open, when to paint it, the one
  running copy, the icons, what is kept between two launches.
- `src/dates.rs`, `src/catalog.rs`, `src/text.rs`, `src/path.rs`, `src/error.rs` — the plain
  values all of these share.
- `tests/` — the library's tests.
- `app/` — the program: it performs the actions the library asks for, hands back what came of
  them, and draws what the library decided, with the fixed labels of the screens.
