# abyss

A terminal roguelike: an endless, seeded dungeon of chunks, creatures that
hunt or wander, items, crafting, rituals and a vending machine, with saves
in three slots.

The rules of the game live in `src/`, a library written in Verus: each
function states what it does in `requires` / `ensures`, and Verus proves the
code meets it. Laws that span several functions (a failed step takes no
turn, the debug console stays shut without the debug switch, a refused item
use changes nothing, accepted configurations hold what their files say, and
others) are public proof functions beside the code they speak of.

- `src/` – the verified library: world generation, configuration checks,
  inventory and items, combat and creature turns, the screens' key handling,
  save checks and restoring.
- `app/` – the program around it: the terminal loop and drawing, reading the
  data files and saves, and the floating-point Perlin terrain.
- `tests/` – tests of the library on concrete values.

SHA-256 for save checks comes from the `sha2` crate behind one trusted
wrapper; serde, serde_json, toml, ratatui and crossterm are used by `app/`.
