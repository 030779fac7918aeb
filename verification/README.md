# control_cheat

A trainer for the game CONTROL, split in two:

- `src/` (verified with Verus): the byte layout of the inline hooks
  (`hooking`), the game's patch sites, the hotkey switches and the decisions
  of the damage hook (`cheat`), and the search for the game's process and the
  buffer handed to `LoadLibraryA` (`process_injection`).
- `app/`: ordinary Rust with a single crate root, the injector program
  (`main.rs`, `injector.rs`). The code that runs inside the game (entry point,
  memory writes, hooks, hotkey loop) is the module `cheat_dll.rs`, compiled
  on Windows only. This layout holds one crate, so that module is compiled
  into the injector here; the library `control_cheat_dll.dll` that the
  injector loads is a separate `cdylib` crate whose root declares that same
  module, and it is not built from this directory.
