use control_cheat::cheat::{
    dll_entry_initializes, enable_infinite_ammo, enable_infinite_energy, enable_infinite_health,
    health_action, key_is_down, CheatFlags, HealthAction, HookSite, Hotkeys, Keys, Notice,
    DLL_PROCESS_ATTACH, DLL_PROCESS_DETACH,
};

const NONE: Keys = Keys { f1: false, f5: false, f6: false, f7: false };

#[test]
fn entry_point_initializes_only_on_attach() {
    assert!(dll_entry_initializes(DLL_PROCESS_ATTACH));
    assert!(!dll_entry_initializes(DLL_PROCESS_DETACH));
    assert!(!dll_entry_initializes(2));
    assert!(!dll_entry_initializes(3));
}

#[test]
fn patch_sites_are_offsets_from_the_base() {
    let base = 0x7ff6_1000_0000usize;
    let ammo = enable_infinite_ammo(base);
    assert_eq!(ammo.address, base + 0x3B7572);
    assert_eq!(ammo.bytes, vec![0x10]);
    assert_eq!(
        enable_infinite_health(base),
        HookSite { address: base + 0x3246D0, num_bytes_to_save: 21 }
    );
    assert_eq!(
        enable_infinite_energy(base),
        HookSite { address: base + 0xF3740, num_bytes_to_save: 13 }
    );
}

#[test]
fn key_state_top_bit_means_down() {
    assert!(key_is_down(i16::MIN));
    assert!(key_is_down(-32767));
    assert!(key_is_down(-1));
    assert!(!key_is_down(0));
    assert!(!key_is_down(1));
    assert!(!key_is_down(i16::MAX));
}

#[test]
fn cheat_starts_with_everything_on() {
    let flags = CheatFlags::new();
    assert!(flags.do_oneshot && flags.inf_health_active && flags.inf_energy_active);
    let state = Hotkeys::new();
    assert_eq!(state.flags, flags);
    assert_eq!(state.held, NONE);
}

#[test]
fn hotkeys_flip_switches_and_report() {
    let mut state = Hotkeys::new();
    let notices = state.on_keys(Keys { f1: true, f5: true, f6: false, f7: true });
    assert_eq!(
        notices,
        vec![Notice::Help, Notice::OneShot(false), Notice::InfiniteHealth(false)]
    );
    assert_eq!(
        state.flags,
        CheatFlags { do_oneshot: false, inf_health_active: false, inf_energy_active: true }
    );
    let notices = state.on_keys(Keys { f1: false, f5: false, f6: true, f7: false });
    assert_eq!(notices, vec![Notice::InfiniteEnergy(false)]);
    assert!(!state.flags.inf_energy_active);
}

#[test]
fn held_key_switches_once() {
    let f5 = Keys { f1: false, f5: true, f6: false, f7: false };
    let mut state = Hotkeys::new();
    assert_eq!(state.on_keys(f5), vec![Notice::OneShot(false)]);
    for _ in 0..5 {
        assert!(state.on_keys(f5).is_empty());
        assert!(!state.flags.do_oneshot);
    }
    assert!(state.on_keys(NONE).is_empty());
    assert!(!state.flags.do_oneshot);
    assert_eq!(state.held, NONE);
    assert_eq!(state.on_keys(f5), vec![Notice::OneShot(true)]);
    assert!(state.flags.do_oneshot);
}

#[test]
fn held_help_key_shows_help_once() {
    let f1 = Keys { f1: true, f5: false, f6: false, f7: false };
    let mut state = Hotkeys::new();
    assert_eq!(state.on_keys(f1), vec![Notice::Help]);
    assert!(state.on_keys(f1).is_empty());
    assert_eq!(state.flags, CheatFlags::new());
}

#[test]
fn new_key_while_another_is_held() {
    let mut state = Hotkeys::new();
    state.on_keys(Keys { f1: false, f5: true, f6: false, f7: false });
    let notices = state.on_keys(Keys { f1: false, f5: true, f6: true, f7: false });
    assert_eq!(notices, vec![Notice::InfiniteEnergy(false)]);
    assert!(!state.flags.do_oneshot);
}

#[test]
fn two_presses_restore_switches() {
    let start = CheatFlags { do_oneshot: true, inf_health_active: false, inf_energy_active: true };
    let keys = Keys { f1: true, f5: true, f6: true, f7: true };
    let mut state = Hotkeys { flags: start, held: NONE };
    state.on_keys(keys);
    assert_ne!(state.flags, start);
    state.on_keys(NONE);
    let notices = state.on_keys(keys);
    assert_eq!(state.flags, start);
    assert_eq!(
        notices,
        vec![
            Notice::Help,
            Notice::OneShot(true),
            Notice::InfiniteEnergy(true),
            Notice::InfiniteHealth(false),
        ]
    );
}

#[test]
fn no_keys_change_nothing() {
    let mut state = Hotkeys::new();
    let notices = state.on_keys(NONE);
    assert!(notices.is_empty());
    assert_eq!(state, Hotkeys::new());
}

#[test]
fn health_hook_decisions() {
    let all = CheatFlags::new();
    assert_eq!(health_action(all, 1, false), HealthAction::SparePlayer);
    assert_eq!(health_action(all, 0, false), HealthAction::Kill);
    let no_oneshot = CheatFlags { do_oneshot: false, ..all };
    assert_eq!(health_action(no_oneshot, 0, false), HealthAction::Weaken);
    assert_eq!(health_action(no_oneshot, 2, true), HealthAction::Kill);
    assert_eq!(health_action(no_oneshot, 1, true), HealthAction::SparePlayer);
    let off = CheatFlags { inf_health_active: false, ..all };
    assert_eq!(health_action(off, 1, false), HealthAction::CallOriginal);
    assert_eq!(health_action(off, 0, true), HealthAction::CallOriginal);
}
