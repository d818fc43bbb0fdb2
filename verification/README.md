# rusty_roguelike

The verified core of a tile-based roguelike built on the `rltk` terminal library and the
`specs` entity-component system.

`src/` is the library, checked by Verus:

- `map` — the dungeon level: tile indexing, blocking, exits for path finding, wall
  glyphs, drawing plans, the edge border, and the acceptance checks for new levels.
- `builders` — level recipes: the random choice of initial and meta builders, the
  builder chain and its build data, and the tile gallery layout.
- `runstate` — the per-frame state machine: what each state asks of the outside world,
  and the next state and world change decided from the answer.
- `player`, `movement` — key commands, stairs, picking up, waiting and healing, hotkeys,
  and the player's step (swaps, attacks, doors, stairs).
- `level`, `spawner` — level changes, level rejection, and spawn placement.
- `config` — the settings file format: reading the settings and the default file.
- `rng`, `glyph` — the trusted calls into `rltk` (dice and code page 437 glyphs).

`app/` is the program around it: the settings files on disk, the terminal window, the
save-file form of a level, path-finding traits, and the frame loop.
