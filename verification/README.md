# tvterm

A transparent, GPU-rendered terminal emulator window running the user's
shell.

- `src/` is the verified library. `input` encodes key presses as the bytes
  a shell expects (xterm conventions), `text` resolves cell colors and lays
  out one frame of the grid, `theme` holds the color themes, `control`
  decides what each window event and PTY notice makes the terminal do,
  and `terminal`, `pty`, `renderer` and `overlay` hold the smaller
  decisions of those parts. Every function states its result in its
  contract; the lemmas state the properties that span calls.
- `app/` is the program: the window (winit), the GPU renderer (wgpu,
  egui-wgpu), the UI (egui), the terminal state machine
  (alacritty_terminal) and the PTY (portable-pty). It converts their
  values to the library's and carries out the library's decisions.
- `tests/` runs the library on concrete inputs.

Usage: `tvterm run [config.toml]`.
