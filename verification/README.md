# Liwin

A small web application: configuration records with their built-in defaults,
and a fog-of-war exploration game drawn on a canvas.

- `src/` is the library, verified with Verus:
  - `config.rs` — the configuration records, their defaults, their one-line
    descriptions, and which file the configuration is read from;
  - `world.rs` — terrain, food and entities;
  - `generation.rs` — building a world from random draws (a draw is a `u64`
    read as a fraction of 2^64);
  - `game.rs` — the game state: vision, moving, picking things up, what each
    cell shows;
  - `controls.rs` — keys, map size from the canvas size, the game clock;
  - `tally.rs`, `text.rs` — counting over entities, decimal text;
  - `laws.rs` — properties that span the game's operations.
- `app/` is the browser front end (Dioxus components, canvas drawing, the
  random source, reading `config.toml`).
- `tests/` runs the library on concrete worlds and configurations.
