# textgo

The logic of TextGO, a desktop helper that reacts to global shortcuts and mouse gestures on
selected text, written in Verus with its behaviour stated in contracts and proved.

- `src/` — the verified library:
  - `shortcut`: parsing shortcut strings, the registry of registered shortcuts, pausing and
    resuming, and the guard that suspends shortcut handling;
  - `keys`: key and modifier names, key requests and the keys of cut, copy and paste;
  - `clicks`, `mouse`: the click sequence tracker and the input state machine that turns
    input events into gestures and actions;
  - `tray`, `window`, `settings`: locale choice and tray menu, window steps and placement,
    user settings;
  - `platform`: the decisions of the macOS and Windows accessibility layers;
  - `text`: character-sequence helpers and their specifications.
- `tests/` — tests of the library on concrete values.
- `app/` — the Tauri program around the library: commands, input hooks, operating system
  calls, and the floating-point window geometry.

`public proof fn law_*` items state the properties that hold across calls, such as that
suspension guards nest, that double and triple clicks never overlap, and that the order of a
shortcut's modifiers does not matter.
