# skip_stone

A stone-skipping game for the Godot engine, with its decisions verified in Verus.

- `src/` — the verified library:
  - `flow` — the round as a state machine (aiming, flight, ground, result
    screen); `Session::step` takes an event and returns what the engine must do.
    The laws of the round (frames never take it back, the result is shown once,
    a launched stone flies until it touches the ground) are proof functions here.
  - `rules` — the skip rule of the water and the boost rule of accelerators.
  - `accelerator` — random ids and node names of accelerators.
- `app/` — the Godot extension: engine classes that measure positions and
  velocities (floating point), perform the library's actions, draw and build the UI.
- `tests/` — tests of the library.
