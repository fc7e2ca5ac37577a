# shortwave

The core of Shortwave, an internet radio player for GNOME, as a library
verified with Verus, and the GTK front end around it.

- `src/` — the verified library:
  - `station.rs`: station metadata and stations;
  - `station_model.rs`: the station list (an `indexmap::IndexMap` keyed by
    station identifier) and the changes it announces;
  - `station_sorter.rs`, `text.rs`, `chars.rs`: the order of station lists
    and its laws;
  - `library.rs`: the user's library, its status and the decisions taken
    while entries are loaded from the database;
  - `client.rs`: radio-browser.info requests, addresses, answers, and the
    search for a server that answers;
  - `window.rs`, `pages.rs`, `ui.rs`, `app.rs`: what the window, the pages
    and the widgets show.
- `tests/` — tests of the library.
- `app/` — the GTK application, the HTTP and DNS access, JSON and the
  database file; it asks the library for every decision.
