# terra

The rules of a 2D sandbox game, as a verified library.

- `src/` — the library, verified:
  - `world`: the world's cells (a grid kept in an `ndarray` array), tiles and
    their side neighbours, chunk coordinates, placing blocks and updating the
    neighbours of a placed block;
  - `chunks`: which chunks the camera sees, which chunks to draw and take down,
    and what each chunk shows;
  - `sprites`, `particles`: sprite-sheet indexes, with looks drawn at random;
  - `collision`: which sides of the player touch tiles;
  - `inventory`: slots, the stack carried by the mouse, grabbing and putting
    down, using up blocks;
  - `settings`, `settings_menu`, `menu_text`, `ui`, `ingame_settings`,
    `player`, `visibility`: switches, resolutions, menu navigation, button
    labels and interface state.
- `app/` — what the library cannot hold: the settings file (serde, file I/O)
  and the floating-point geometry and physics that turn screen positions into
  tiles and chunks.
- `tests/` — tests of the library on concrete values.
