# gauntlet

The game logic of Gauntlet Complex, a first-person game on raylib, as a
library verified with Verus, and the program around it.

- `src/` is the verified library: input bindings and their latched events
  (`user`, `setting`, `keycode`), the menu's device, cursor, widget and page
  decisions (`window`), room visibility through views and the path-node index
  (`scene`), the entity table of a world (`world`), the asset cache
  (`asset`), and the small codes and rules that the game hands around
  (`r3d`, `physical`, `weapon`, `tutorial`, `meta`, `locale`).
- `tests/` runs the library on concrete values.
- `app/` is the program: the raylib window and devices, the rapier physics,
  drawing, sound, the configuration file and the entities' floating-point
  motion.
