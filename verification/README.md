# Shambala

The rules of Shambala, a story-driven action RPG inspired by .hack//sign,
written in Verus with their contracts proved.

- `src/` — the verified library: game states, stats and levelling, the
  inventory, party and skill trees, quests and dialogue, the title,
  character-selection, options and Chaos Gate screens, the event bus, the
  network connection machine, the asset registry, atlas layout, draw order,
  texture batching, line breaking, tiles and image decoding. Each public
  function states what it returns or changes; the `law_*` proof functions
  state what holds across calls.
- `tests/` — scenarios run against the compiled library.
- `app/` — the executable: logging, save files on disk, the GPU, the
  camera and clock, and the parts of the game kept in floating point
  (positions, timers, volumes, animations), built on the library.
