# plurimus_doom

Doom in the terminal, rendered through plurimus, with the decisions that sit
between the terminal, the renderer and the engine written in Verus and proved.

- `src/` — the verified library:
  - `input` — the key and mouse messages as the library reads them, and the
    key events the engine consumes;
  - `keymap` — terminal keys and mouse buttons to engine key codes, under the
    engine's key bindings;
  - `mouse_aim` — mouse motion to engine turn deltas;
  - `doom_thread` — the frame hand-off between the engine thread and the
    renderer, behind a verified lock;
  - `wad` — the IWAD search and its messages;
  - `plugin` — the HUD line and the quit chord.
- `app/` — the program around it: the bevy plugins and systems, the engine
  thread, terminal restore and log redirection, and the filesystem probes
  for the IWAD.
- `tests/` — tests of the library.
