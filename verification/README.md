# cube_world

A small spinning-cube renderer. The verified library in `src/` holds the
parts that decide things: the keyboard controls of the cube (`cube`,
`handle_input`, `keys`, `direction`), the rates at which the cube moves,
the cube and square meshes with proofs that they are sound (`shape_util`),
the world's frame plans and debug read-back (`world`), and the reactions of
the application to window events and surface states (`app`).

`app/` is the program around it: window and GPU setup with winit and wgpu,
the egui overlay, the floating-point pose and projection matrices, and the
event loop that carries out what the library decides.
