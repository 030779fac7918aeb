//! The cheat itself: where it patches the game, the hotkeys that switch its
//! features on and off, and what the health hook does with each hit.
use vstd::prelude::*;
use crate::hooking::HOOK_PATCH_LEN;

verus! {

/// The executable of the game.
pub const GAME_EXE: &'static str = "Control_DX11.exe";

/// Offset, from the game's base, of the function that decrements the ammo.
pub const AMMO_DECFN_OFFSET: usize = 0x3B7500;

/// Offset, from the game's base, of the instruction whose operand is the
/// amount of ammo that a shot uses.
pub const AMMO_MINSS_OFFSET: usize = 0x3B7570;

/// Offset, within that instruction, of the byte that the ammo cheat rewrites.
pub const AMMO_OPERAND_OFFSET: usize = 2;

/// The byte that the ammo cheat writes there.
pub const AMMO_PATCH_BYTE: u8 = 0x10;

/// Offset, from the game's base, of the function that applies damage.
pub const HEALTH_DECFN_OFFSET: usize = 0x3246D0;

/// Number of bytes saved when the damage function is hooked.
pub const HEALTH_SAVED_BYTES: usize = 21;

/// Offset, from the game's base, of the function that spends energy.
pub const ENERGY_DECFN_OFFSET: usize = 0xF3740;

/// Number of bytes saved when the energy function is hooked.
pub const ENERGY_SAVED_BYTES: usize = 13;

/// Offset, within a game object, of the byte that is 1 for the player.
pub const IS_PLAYER_OFFSET: usize = 0xA8;

/// Offset, within a game object, of its health.
pub const HEALTH_OFFSET: usize = 0x64;

/// Value of the player byte of the player's own object.
pub const IS_PLAYER: u8 = 1;

/// Reason code with which the loader calls a library's entry point when it
/// maps the library into a process.
pub const DLL_PROCESS_ATTACH: u32 = 1;

/// Reason code with which the loader calls a library's entry point when it
/// unmaps the library from a process.
pub const DLL_PROCESS_DETACH: u32 = 0;

/// Bit of a key's state word that is set while the key is down.
pub const KEY_DOWN_MASK: u16 = 0x8000;

/// Bytes to write at an address of the game.
pub struct MemoryPatch {
    /// Where to write.
    pub address: usize,
    /// What to write there.
    pub bytes: Vec<u8>,
}

/// A function of the game to hook.
#[derive(Clone, Copy, Debug, PartialEq, Eq, Structural)]
pub struct HookSite {
    /// Address of the function's entry.
    pub address: usize,
    /// Number of bytes to save from its entry.
    pub num_bytes_to_save: usize,
}

/// Whether the entry point, called with `reason`, sets the cheat up: it does
/// when the library is attached to the process, and does nothing otherwise.
pub fn dll_entry_initializes(reason: u32) -> (init: bool)
    ensures
        init == (reason == DLL_PROCESS_ATTACH),
{
    reason == DLL_PROCESS_ATTACH
}

/// Infinite ammo: the byte of the game's code that makes a shot use no ammo.
pub fn enable_infinite_ammo(game_base: usize) -> (patch: MemoryPatch)
    requires
        game_base + AMMO_MINSS_OFFSET + AMMO_OPERAND_OFFSET <= usize::MAX,
    ensures
        patch.address == game_base + AMMO_MINSS_OFFSET + AMMO_OPERAND_OFFSET,
        patch.bytes@ == seq![AMMO_PATCH_BYTE],
{
    let ammo_offset = game_base + AMMO_MINSS_OFFSET;
    let mut bytes: Vec<u8> = Vec::new();
    bytes.push(AMMO_PATCH_BYTE);
    MemoryPatch { address: ammo_offset + AMMO_OPERAND_OFFSET, bytes }
}

/// Infinite health: the damage function of the game, to be hooked.
pub fn enable_infinite_health(game_base: usize) -> (site: HookSite)
    requires
        game_base + HEALTH_DECFN_OFFSET <= usize::MAX,
    ensures
        site.address == game_base + HEALTH_DECFN_OFFSET,
        site.num_bytes_to_save == HEALTH_SAVED_BYTES,
{
    HookSite { address: game_base + HEALTH_DECFN_OFFSET, num_bytes_to_save: HEALTH_SAVED_BYTES }
}

/// Infinite energy: the energy function of the game, to be hooked.
pub fn enable_infinite_energy(game_base: usize) -> (site: HookSite)
    requires
        game_base + ENERGY_DECFN_OFFSET <= usize::MAX,
    ensures
        site.address == game_base + ENERGY_DECFN_OFFSET,
        site.num_bytes_to_save == ENERGY_SAVED_BYTES,
{
    HookSite { address: game_base + ENERGY_DECFN_OFFSET, num_bytes_to_save: ENERGY_SAVED_BYTES }
}

/// Whether a key is down, from the state word that the system reports for it:
/// its top bit is set while the key is down.
pub fn key_is_down(state: i16) -> (down: bool)
    ensures
        down == (state < 0),
{
    let bits = state as u16;
    let down = bits & KEY_DOWN_MASK != 0;
    assert(down == (state < 0)) by (bit_vector)
        requires
            bits == state as u16,
            down == (bits & 0x8000u16 != 0),
    ;
    down
}

/// The hotkeys that are down in one pass of the hotkey loop.
#[derive(Clone, Copy, Debug, PartialEq, Eq, Structural)]
pub struct Keys {
    /// F1: show the help.
    pub f1: bool,
    /// F5: switch one-shot kills.
    pub f5: bool,
    /// F6: switch infinite energy.
    pub f6: bool,
    /// F7: switch infinite health, and with it one-shot kills.
    pub f7: bool,
}

/// No hotkey down.
pub open spec fn no_keys() -> Keys {
    Keys { f1: false, f5: false, f6: false, f7: false }
}

/// The switches of the cheat.
#[derive(Clone, Copy, Debug, PartialEq, Eq, Structural)]
pub struct CheatFlags {
    /// Monsters die on the next hit.
    pub do_oneshot: bool,
    /// The damage hook is active: the player takes no damage, and monsters
    /// are brought down as `do_oneshot` says.
    pub inf_health_active: bool,
    /// Spending energy costs nothing.
    pub inf_energy_active: bool,
}

impl CheatFlags {
    /// All features on, as the cheat starts.
    pub fn new() -> (flags: CheatFlags)
        ensures
            flags.do_oneshot,
            flags.inf_health_active,
            flags.inf_energy_active,
    {
        CheatFlags { do_oneshot: true, inf_health_active: true, inf_energy_active: true }
    }
}

/// The state of the hotkey loop: the switches, and the keys that were down in
/// the previous pass, so that a key held over several passes counts as one
/// press.
#[derive(Clone, Copy, Debug, PartialEq, Eq, Structural)]
pub struct Hotkeys {
    /// The switches.
    pub flags: CheatFlags,
    /// The keys that were down in the previous pass.
    pub held: Keys,
}

/// What the hotkey loop reports after a pass.
#[derive(Clone, Copy, Debug, PartialEq, Eq, Structural)]
pub enum Notice {
    /// Show the help.
    Help,
    /// One-shot kills were switched to the value carried.
    OneShot(bool),
    /// Infinite energy was switched to the value carried.
    InfiniteEnergy(bool),
    /// Infinite health was switched to the value carried.
    InfiniteHealth(bool),
}

/// The keys pressed in a pass: down now and up in the previous pass.
pub open spec fn spec_pressed(held: Keys, keys: Keys) -> Keys {
    Keys {
        f1: keys.f1 && !held.f1,
        f5: keys.f5 && !held.f5,
        f6: keys.f6 && !held.f6,
        f7: keys.f7 && !held.f7,
    }
}

/// The switches after the keys `pressed` were pressed: each of F5, F6 and F7
/// flips its switch.
pub open spec fn spec_toggled(flags: CheatFlags, pressed: Keys) -> CheatFlags {
    CheatFlags {
        do_oneshot: flags.do_oneshot != pressed.f5,
        inf_health_active: flags.inf_health_active != pressed.f7,
        inf_energy_active: flags.inf_energy_active != pressed.f6,
    }
}

/// What a pass reports when the keys `pressed` were pressed, in order: the
/// help for F1, then the new value of each switch that was flipped, for F5,
/// F6 and F7.
pub open spec fn spec_notices(flags: CheatFlags, pressed: Keys) -> Seq<Notice> {
    let after = spec_toggled(flags, pressed);
    (if pressed.f1 { seq![Notice::Help] } else { seq![] }) + (if pressed.f5 {
        seq![Notice::OneShot(after.do_oneshot)]
    } else {
        seq![]
    }) + (if pressed.f6 {
        seq![Notice::InfiniteEnergy(after.inf_energy_active)]
    } else {
        seq![]
    }) + (if pressed.f7 {
        seq![Notice::InfiniteHealth(after.inf_health_active)]
    } else {
        seq![]
    })
}

/// The state after a pass of the hotkey loop in which `keys` are down.
pub open spec fn spec_step(state: Hotkeys, keys: Keys) -> Hotkeys {
    Hotkeys { flags: spec_toggled(state.flags, spec_pressed(state.held, keys)), held: keys }
}

/// The state after `n` passes in which the same `keys` are down.
pub open spec fn spec_polls(state: Hotkeys, keys: Keys, n: nat) -> Hotkeys
    decreases n,
{
    if n == 0 {
        state
    } else {
        spec_polls(spec_step(state, keys), keys, (n - 1) as nat)
    }
}

impl Hotkeys {
    /// All features on and no key held, as the cheat starts.
    pub fn new() -> (state: Hotkeys)
        ensures
            state.flags.do_oneshot,
            state.flags.inf_health_active,
            state.flags.inf_energy_active,
            state.held == no_keys(),
    {
        Hotkeys { flags: CheatFlags::new(), held: Keys { f1: false, f5: false, f6: false, f7: false } }
    }

    /// One pass of the hotkey loop with `keys` down: each key pressed since
    /// the previous pass (down now, up then) acts once, F5, F6 and F7 by
    /// flipping their switches; returns what to report.
    pub fn on_keys(&mut self, keys: Keys) -> (notices: Vec<Notice>)
        ensures
            *final(self) == spec_step(*old(self), keys),
            notices@ == spec_notices(old(self).flags, spec_pressed(old(self).held, keys)),
    {
        let held = self.held;
        let mut notices: Vec<Notice> = Vec::new();
        if keys.f1 && !held.f1 {
            notices.push(Notice::Help);
        }
        if keys.f5 && !held.f5 {
            self.flags.do_oneshot = !self.flags.do_oneshot;
            notices.push(Notice::OneShot(self.flags.do_oneshot));
        }
        if keys.f6 && !held.f6 {
            self.flags.inf_energy_active = !self.flags.inf_energy_active;
            notices.push(Notice::InfiniteEnergy(self.flags.inf_energy_active));
        }
        if keys.f7 && !held.f7 {
            self.flags.inf_health_active = !self.flags.inf_health_active;
            notices.push(Notice::InfiniteHealth(self.flags.inf_health_active));
        }
        self.held = keys;
        proof {
            assert(notices@ =~= spec_notices(old(self).flags, spec_pressed(old(self).held, keys)));
        }
        notices
    }
}

/// What the damage hook does with a hit on a game object.
#[derive(Clone, Copy, Debug, PartialEq, Eq, Structural)]
pub enum HealthAction {
    /// Pass the hit on to the game's own damage function.
    CallOriginal,
    /// The object is the player: ignore the hit.
    SparePlayer,
    /// Set the monster's health to zero.
    Kill,
    /// Set the monster's health to the small value just above the kill
    /// threshold.
    Weaken,
}

/// The decision of the damage hook.
pub open spec fn spec_health_action(flags: CheatFlags, is_player: u8, health_below_threshold: bool) -> HealthAction {
    if !flags.inf_health_active {
        HealthAction::CallOriginal
    } else if is_player == IS_PLAYER {
        HealthAction::SparePlayer
    } else if flags.do_oneshot || health_below_threshold {
        HealthAction::Kill
    } else {
        HealthAction::Weaken
    }
}

/// Decides what the damage hook does with a hit, from the switches, the
/// object's player byte, and whether its health is already below the kill
/// threshold.
pub fn health_action(flags: CheatFlags, is_player: u8, health_below_threshold: bool) -> (action: HealthAction)
    ensures
        action == spec_health_action(flags, is_player, health_below_threshold),
{
    if flags.inf_health_active {
        if is_player == IS_PLAYER {
            HealthAction::SparePlayer
        } else if flags.do_oneshot || health_below_threshold {
            HealthAction::Kill
        } else {
            HealthAction::Weaken
        }
    } else {
        HealthAction::CallOriginal
    }
}

/// Pressing the same keys twice puts every switch back where it was.
pub proof fn lemma_toggle_twice_restores(flags: CheatFlags, pressed: Keys)
    ensures
        spec_toggled(spec_toggled(flags, pressed), pressed) == flags,
{
}

/// A pass with no key down changes no switch and reports nothing.
pub proof fn lemma_no_keys_no_change(state: Hotkeys)
    ensures
        spec_step(state, no_keys()).flags == state.flags,
        spec_step(state, no_keys()).held == no_keys(),
        spec_notices(state.flags, spec_pressed(state.held, no_keys())).len() == 0,
{
}

/// Passes in which the keys that are down stay the same change nothing.
pub proof fn lemma_held_keys_change_nothing(state: Hotkeys, n: nat)
    ensures
        spec_polls(state, state.held, n) == state,
    decreases n,
{
    if n > 0 {
        assert(spec_step(state, state.held) == state);
        lemma_held_keys_change_nothing(state, (n - 1) as nat);
    }
}

/// One press of some keys, held down over any number of passes and then
/// released, switches each of their features exactly once.
pub proof fn lemma_one_press_switches_once(state: Hotkeys, keys: Keys, n: nat)
    requires
        state.held == no_keys(),
        n >= 1,
    ensures
        spec_step(spec_polls(state, keys, n), no_keys()).flags == spec_toggled(
            state.flags,
            keys,
        ),
        spec_step(spec_polls(state, keys, n), no_keys()).held == no_keys(),
{
    let first = spec_step(state, keys);
    assert(spec_pressed(state.held, keys) == keys);
    assert(first.held == keys);
    lemma_held_keys_change_nothing(first, (n - 1) as nat);
    assert(spec_polls(state, keys, n) == spec_polls(first, keys, (n - 1) as nat));
}

/// While infinite health is on, the player is never hurt; while it is off, the
/// game handles every hit itself.
pub proof fn lemma_player_never_hurt(flags: CheatFlags, is_player: u8, health_below_threshold: bool)
    ensures
        flags.inf_health_active && is_player == IS_PLAYER ==> spec_health_action(
            flags,
            is_player,
            health_below_threshold,
        ) == HealthAction::SparePlayer,
        !flags.inf_health_active ==> spec_health_action(flags, is_player, health_below_threshold)
            == HealthAction::CallOriginal,
{
}

/// With infinite health on, a monster either dies or is left just above the
/// kill threshold, from where its next hit kills it.
pub proof fn lemma_monster_dies_by_next_hit(flags: CheatFlags, is_player: u8)
    requires
        flags.inf_health_active,
        is_player != IS_PLAYER,
    ensures
        spec_health_action(flags, is_player, false) == HealthAction::Kill
            || spec_health_action(flags, is_player, false) == HealthAction::Weaken,
        spec_health_action(flags, is_player, true) == HealthAction::Kill,
{
}

/// With infinite health and one-shot kills on, every hit on a monster kills
/// it, whatever its health.
pub proof fn lemma_oneshot_kills_every_monster(flags: CheatFlags, is_player: u8, health_below_threshold: bool)
    requires
        flags.inf_health_active,
        flags.do_oneshot,
        is_player != IS_PLAYER,
    ensures
        spec_health_action(flags, is_player, health_below_threshold) == HealthAction::Kill,
{
}

/// With infinite health on and one-shot kills off, a monster is killed
/// exactly when its health is already below the threshold, and otherwise
/// weakened.
pub proof fn lemma_without_oneshot_monsters_are_weakened_first(flags: CheatFlags, is_player: u8, health_below_threshold: bool)
    requires
        flags.inf_health_active,
        !flags.do_oneshot,
        is_player != IS_PLAYER,
    ensures
        health_below_threshold ==> spec_health_action(flags, is_player, health_below_threshold)
            == HealthAction::Kill,
        !health_below_threshold ==> spec_health_action(flags, is_player, health_below_threshold)
            == HealthAction::Weaken,
{
}

/// The damage hook does not look at the energy switch: flipping infinite
/// energy never changes what happens to a hit.
pub proof fn lemma_health_action_ignores_energy(flags: CheatFlags, is_player: u8, health_below_threshold: bool, energy: bool)
    ensures
        spec_health_action(
            CheatFlags { inf_energy_active: energy, ..flags },
            is_player,
            health_below_threshold,
        ) == spec_health_action(flags, is_player, health_below_threshold),
{
}

/// Each switch follows its own key only: after a pass, one-shot kills are
/// flipped exactly when F5 went down in that pass, infinite energy exactly
/// when F6 did, and infinite health exactly when F7 did; the keys down are
/// remembered for the next pass.
pub proof fn lemma_each_switch_follows_its_key(state: Hotkeys, keys: Keys)
    ensures
        spec_step(state, keys).flags.do_oneshot == (state.flags.do_oneshot != (keys.f5
            && !state.held.f5)),
        spec_step(state, keys).flags.inf_energy_active == (state.flags.inf_energy_active != (
        keys.f6 && !state.held.f6)),
        spec_step(state, keys).flags.inf_health_active == (state.flags.inf_health_active != (
        keys.f7 && !state.held.f7)),
        spec_step(state, keys).held == keys,
{
}

/// A pass in which one key alone goes down does exactly that key's job: F1
/// reports the help and changes nothing; F5, F6 or F7 flips its own switch,
/// leaves the others, and reports the switch's new value.
pub proof fn lemma_single_key_press(state: Hotkeys)
    requires
        state.held == no_keys(),
    ensures
        ({
            let keys = Keys { f1: true, f5: false, f6: false, f7: false };
            &&& spec_step(state, keys).flags == state.flags
            &&& spec_notices(state.flags, spec_pressed(state.held, keys)) == seq![Notice::Help]
        }),
        ({
            let keys = Keys { f1: false, f5: true, f6: false, f7: false };
            &&& spec_step(state, keys).flags == CheatFlags {
                do_oneshot: !state.flags.do_oneshot,
                ..state.flags
            }
            &&& spec_notices(state.flags, spec_pressed(state.held, keys)) == seq![
                Notice::OneShot(!state.flags.do_oneshot),
            ]
        }),
        ({
            let keys = Keys { f1: false, f5: false, f6: true, f7: false };
            &&& spec_step(state, keys).flags == CheatFlags {
                inf_energy_active: !state.flags.inf_energy_active,
                ..state.flags
            }
            &&& spec_notices(state.flags, spec_pressed(state.held, keys)) == seq![
                Notice::InfiniteEnergy(!state.flags.inf_energy_active),
            ]
        }),
        ({
            let keys = Keys { f1: false, f5: false, f6: false, f7: true };
            &&& spec_step(state, keys).flags == CheatFlags {
                inf_health_active: !state.flags.inf_health_active,
                ..state.flags
            }
            &&& spec_notices(state.flags, spec_pressed(state.held, keys)) == seq![
                Notice::InfiniteHealth(!state.flags.inf_health_active),
            ]
        }),
{
    assert(spec_notices(state.flags, spec_pressed(state.held, Keys { f1: true, f5: false, f6: false, f7: false })) =~= seq![Notice::Help]);
    assert(spec_notices(state.flags, spec_pressed(state.held, Keys { f1: false, f5: true, f6: false, f7: false })) =~= seq![Notice::OneShot(!state.flags.do_oneshot)]);
    assert(spec_notices(state.flags, spec_pressed(state.held, Keys { f1: false, f5: false, f6: true, f7: false })) =~= seq![Notice::InfiniteEnergy(!state.flags.inf_energy_active)]);
    assert(spec_notices(state.flags, spec_pressed(state.held, Keys { f1: false, f5: false, f6: false, f7: true })) =~= seq![Notice::InfiniteHealth(!state.flags.inf_health_active)]);
}

/// Both hooks of the cheat save at least the bytes that the hook overwrites,
/// so their trampolines hold every byte the patch destroys.
pub proof fn lemma_hook_sites_save_patched_bytes()
    ensures
        HOOK_PATCH_LEN <= HEALTH_SAVED_BYTES,
        HOOK_PATCH_LEN <= ENERGY_SAVED_BYTES,
{
}

} // verus!
