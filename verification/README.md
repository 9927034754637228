# arena

The rules of a small turn-based tactics game, verified with Verus.

- `src/atlas`: map points, sized points, directions, lines and areas.
- `src/clash`: the battle rules — hits on characters and what follows them
  (knockback moves, static charge, aim), whose turn it is and the enemies'
  movement and targeting decisions, damage and defenses, strength rolls,
  temperature, statuses, timers and turn order, skills and their costs,
  the map and what stands on it, orbs, fields and movement, help pages and
  character summaries, and the gunslinger, elementalist and bird content.
- `src/clash/progression`: equipment, the skill tree, the store, rewards and
  how the equipment worn shapes a character.
- `src/text.rs`, `src/assoc.rs`: number formatting and string helpers, and
  association lists with distinct keys read as maps.
- `app/`: what the library leaves to its caller — files and paths, crash
  reports, map files, floating-point exhaustion and focus, and the glue that
  asks the map whether knockback tiles are free before an attack lands.
- `tests/`: the scenarios the library is checked against when run.

Exhaustion and focus costs of skills are held in hundredths of a point.
