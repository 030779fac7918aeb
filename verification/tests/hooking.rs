use control_cheat::hooking::{hook_patch, plan_hook, trampoline, HOOK_PROTECT_LEN};

#[test]
fn hook_patch_encodes_mov_rax_push_ret() {
    let patch = hook_patch(0x1122_3344_5566_7788);
    assert_eq!(
        patch,
        vec![0x48, 0xb8, 0x88, 0x77, 0x66, 0x55, 0x44, 0x33, 0x22, 0x11, 0x50, 0xc3]
    );
}

#[test]
fn trampoline_keeps_code_and_jumps_back() {
    let code = trampoline(&[1, 2, 3], 0xAABB);
    assert_eq!(
        code,
        vec![1, 2, 3, 0x49, 0xbf, 0xbb, 0xaa, 0, 0, 0, 0, 0, 0, 0x41, 0x57, 0xc3, 0x90]
    );
}

#[test]
fn trampoline_of_empty_code_is_only_the_jump() {
    let code = trampoline(&[], 0);
    assert_eq!(code, vec![0x49, 0xbf, 0, 0, 0, 0, 0, 0, 0, 0, 0x41, 0x57, 0xc3, 0x90]);
}

#[test]
fn plan_hook_resumes_after_saved_bytes() {
    let original: Vec<u8> = (0u8..21).collect();
    let plan = plan_hook(0x7ff6_0000_1000, 0x1000_2000, &original);
    assert_eq!(plan.protect_len, HOOK_PROTECT_LEN);
    assert_eq!(plan.trampoline_alloc_len, 36);
    assert_eq!(plan.patch, hook_patch(0x1000_2000));
    assert_eq!(&plan.trampoline[..21], &original[..]);
    let resume = u64::from_le_bytes(plan.trampoline[23..31].try_into().unwrap());
    assert_eq!(resume, 0x7ff6_0000_1000 + 21);
    assert_eq!(plan.trampoline.len(), 35);
}

#[test]
fn hooked_code_with_saved_prefix_gives_back_the_original() {
    let original: Vec<u8> = (100u8..140).collect();
    let n = 13;
    let plan = plan_hook(0x4000, 0x9000, &original[..n]);
    let mut hooked = original.clone();
    hooked[..plan.patch.len()].copy_from_slice(&plan.patch);
    let mut rebuilt = plan.trampoline[..n].to_vec();
    rebuilt.extend_from_slice(&hooked[n..]);
    assert_eq!(rebuilt, original);
}
