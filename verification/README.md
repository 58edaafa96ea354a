# madlab

A particle-life sandbox: particles of nineteen types attract and repel each
other inside a physics world and are drawn with macroquad.

- `src/` is the verified core, with contracts and proofs:
  - `collector` — the keyed collection that holds the simulated objects, with
    laws on reading after writing, removing, and counting;
  - `physics_types` — the table of particle types (id and colour of each);
  - `sim` — the answer of the simulation loop to the signals raised by the
    user interface, the frame-rate history and its average, the background grid;
  - `globals`, `palette`, `util`, `ui` — display modes, signals, colour
    palettes and random colour picks, the seed formula, the menu and its
    captions, the decoding of the menu pictures.
- `app/` is the program around it: the rigid-body world (rapier2d), the
  particle forces and drawing, which work in floating point, and the egui
  interface.
