//! Verified core of a trainer for the game CONTROL: the byte layout of the
//! inline hooks it installs, the game-specific patch sites, the hotkey state
//! machine, the decisions taken inside the health hook, and the search for the
//! game's process.
pub mod hooking;
pub mod process_injection;
pub mod cheat;
