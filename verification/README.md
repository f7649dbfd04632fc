# movie_mover

A terminal tool that links video files into media libraries under standard names
(`Title (Year) [imdbid-…]` for movies, `Show (Year) [tvdbid-…]/Season N/…` for episodes),
looking the titles up on the TVDB service.

- `src/` is the library, verified with Verus: directory listings and their order, the
  file explorer, reading search parameters from file names, the search state, turning
  service replies into entries, the plan of folders and links for a selection, the field
  editor and the key bindings. Regular expressions come from the `regex` crate through a
  few trusted wrappers (`src/patterns.rs`); the remaining trusted items are string and
  path operations of the standard library and the clock.
- `app/` is the program around it: configuration file, file system, network requests,
  the event loop and the drawing with ratatui.
- `tests/` exercises the library on concrete values.
