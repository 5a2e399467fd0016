# verlet_ropes

Verlet rope simulation with a small interactive sandbox (macroquad).

- `src/` is the verified library: the sticks of a simulation (`Line`) and their index
  logic (ropes, deleting a point, joining two simulations, reaching both ends of a
  stick), the tool labels, and the decisions of the sandbox and its menu, frame by frame.
  `src/laws.rs` states what these operations keep.
- `app/` is the program: the window, input and drawing, and the `f32` physics
  (Verlet steps, stick resolution, box collisions), which run on the library's index logic.
- `tests/` runs the library on concrete values.
