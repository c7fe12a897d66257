# gravity_sim

A small gravity simulation game: suns, planets, moons and a ship move under
Newtonian gravity, and the positions of the next 1000 simulation steps are
predicted and drawn as trails.

- `src/` is the verified library (Verus): the ring of predicted positions
  (`prediction`), the collection of masses with its ring index and the order in
  which pairs of masses pull on each other (`masses`), the table of scenes
  (`scene`), the keyboard controls (`controls`), and the integer decisions of
  drawing (`canvas`).
- `app/` is the game itself on top of macroquad: the physics on `f64`
  vectors, the drawing, and the frame loop.
- `tests/` runs the library on concrete values.
