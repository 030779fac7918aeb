//! Inline hooks for x86-64 code.
//!
//! A hook overwrites the entry of a function with
//! `mov rax, <hook>; push rax; ret`, so that every call lands in the hook.
//! The first bytes of the function are saved first into a trampoline, which
//! ends with `mov r15, <function + saved>; push r15; ret; nop` and so runs the
//! original function when it is called.
use vstd::prelude::*;
use vstd::bytes::*;

verus! {

/// `pop rax`.
pub const HOOKING_POP_RAX: u8 = 0x58;

/// `push rax`.
pub const HOOKING_PUSH_RAX: u8 = 0x50;

/// `mov rax, imm64`, as a little-endian word (REX.W, B8).
pub const HOOKING_MOV_RAX: u16 = 0xb848;

/// `mov r15, imm64`, as a little-endian word (REX.WB, BF).
pub const HOOKING_MOV_R15: u16 = 0xbf49;

/// `push rax; ret`, as a little-endian word.
pub const HOOKING_PUSH_RAX_RET: u16 = 0xc350;

/// `push r15; ret; nop`, as a little-endian double word.
pub const HOOKING_PUSH_R15_RET: u32 = 0x90c35741;

/// Number of bytes that the hook writes at the entry of the hooked function.
pub const HOOK_PATCH_LEN: usize = 12;

/// Number of bytes at the entry of the hooked function whose protection is
/// lifted while the hook is written.
pub const HOOK_PROTECT_LEN: usize = 15;

/// Number of bytes that follow the saved code in a trampoline.
pub const TRAMPOLINE_TAIL_LEN: usize = 14;

/// Number of bytes that are allocated for a trampoline beyond the saved code.
pub const TRAMPOLINE_SLACK: usize = 15;

/// The bytes written at the entry of a hooked function:
/// `mov rax, hook_func; push rax; ret`, that is `48 B8`, the eight bytes of
/// `hook_func` from the least significant one up, then `50 C3`.
pub open spec fn spec_hook_patch(hook_func: u64) -> Seq<u8> {
    seq![0x48u8, 0xb8u8] + spec_u64_to_le_bytes_open(hook_func) + seq![0x50u8, 0xc3u8]
}

/// The bytes of a trampoline: the saved code, then
/// `mov r15, resume; push r15; ret; nop`, that is `49 BF`, the eight bytes
/// of `resume` from the least significant one up, then `41 57 C3 90`.
pub open spec fn spec_trampoline(saved_code: Seq<u8>, resume: u64) -> Seq<u8> {
    saved_code + seq![0x49u8, 0xbfu8] + spec_u64_to_le_bytes_open(resume) + seq![
        0x41u8,
        0x57u8,
        0xc3u8,
        0x90u8,
    ]
}

/// The code of a function after its entry was overwritten by a hook.
pub open spec fn spec_hooked_code(code: Seq<u8>, hook_func: u64) -> Seq<u8> {
    spec_hook_patch(hook_func) + code.skip(HOOK_PATCH_LEN as int)
}

/// The two bytes of `x` in memory order (least significant first).
fn u16_bytes(x: u16) -> (bytes: (u8, u8))
    ensures
        bytes.0 == x & 0xff,
        bytes.1 == x >> 8,
{
    let lo = (x & 0xff) as u8;
    let hi = (x >> 8) as u8;
    assert(lo == x & 0xff && hi == x >> 8) by (bit_vector)
        requires
            lo == (x & 0xff) as u8,
            hi == (x >> 8) as u8,
    ;
    (lo, hi)
}

/// The four bytes of `x` in memory order (least significant first).
fn u32_bytes(x: u32) -> (bytes: (u8, u8, u8, u8))
    ensures
        bytes.0 == x & 0xff,
        bytes.1 == (x >> 8) & 0xff,
        bytes.2 == (x >> 16) & 0xff,
        bytes.3 == x >> 24,
{
    let b0 = (x & 0xff) as u8;
    let b1 = ((x >> 8) & 0xff) as u8;
    let b2 = ((x >> 16) & 0xff) as u8;
    let b3 = (x >> 24) as u8;
    assert(b0 == x & 0xff && b1 == (x >> 8) & 0xff && b2 == (x >> 16) & 0xff && b3 == x >> 24)
        by (bit_vector)
        requires
            b0 == (x & 0xff) as u8,
            b1 == ((x >> 8) & 0xff) as u8,
            b2 == ((x >> 16) & 0xff) as u8,
            b3 == (x >> 24) as u8,
    ;
    (b0, b1, b2, b3)
}

/// The bytes written at the entry of a hooked function so that it jumps to
/// `hook_func`: the opcode words `HOOKING_MOV_RAX` and `HOOKING_PUSH_RAX_RET`
/// around the address, each stored least significant byte first.
pub fn hook_patch(hook_func: u64) -> (patch: Vec<u8>)
    ensures
        patch@ == spec_hook_patch(hook_func),
        patch@.len() == HOOK_PATCH_LEN,
{
    let (mov0, mov1) = u16_bytes(HOOKING_MOV_RAX);
    let (ret0, ret1) = u16_bytes(HOOKING_PUSH_RAX_RET);
    proof {
        lemma_opcode_bytes();
    }
    let mut patch: Vec<u8> = Vec::new();
    patch.push(mov0);
    patch.push(mov1);
    let mut target = u64_to_le_bytes(hook_func);
    proof {
        spec_u64_to_le_bytes_to_open(hook_func);
    }
    patch.append(&mut target);
    patch.push(ret0);
    patch.push(ret1);
    proof {
        assert(patch@ =~= spec_hook_patch(hook_func));
    }
    patch
}

/// The trampoline that runs `saved_code` and then continues at `resume`: the
/// saved code, then the opcode word `HOOKING_MOV_R15`, the address, and the
/// opcode double word `HOOKING_PUSH_R15_RET`, each stored least significant
/// byte first.
pub fn trampoline(saved_code: &[u8], resume: u64) -> (code: Vec<u8>)
    ensures
        code@ == spec_trampoline(saved_code@, resume),
        code@.len() == saved_code@.len() + TRAMPOLINE_TAIL_LEN,
{
    let (mov0, mov1) = u16_bytes(HOOKING_MOV_R15);
    let (ret0, ret1, ret2, ret3) = u32_bytes(HOOKING_PUSH_R15_RET);
    proof {
        lemma_opcode_bytes();
    }
    let mut code: Vec<u8> = Vec::new();
    code.extend_from_slice(saved_code);
    code.push(mov0);
    code.push(mov1);
    let mut target = u64_to_le_bytes(resume);
    proof {
        spec_u64_to_le_bytes_to_open(resume);
    }
    code.append(&mut target);
    code.push(ret0);
    code.push(ret1);
    code.push(ret2);
    code.push(ret3);
    proof {
        assert(code@ =~= spec_trampoline(saved_code@, resume));
    }
    code
}

/// What installing a hook writes: the patch at the entry of the hooked
/// function, and the trampoline placed in a block of fresh executable memory.
pub struct HookPlan {
    /// Bytes to write at the entry of the hooked function.
    pub patch: Vec<u8>,
    /// Bytes to write at the start of the trampoline block.
    pub trampoline: Vec<u8>,
    /// Size of the executable block to allocate for the trampoline.
    pub trampoline_alloc_len: usize,
    /// Number of bytes at the entry of the hooked function to make writable
    /// while the patch is written.
    pub protect_len: usize,
}

/// Plans the hook that diverts the function at `original_func` to
/// `hook_func`. `original_code` holds the first bytes of the function, those
/// that the trampoline saves; the trampoline resumes the function right after
/// them.
pub fn plan_hook(original_func: usize, hook_func: usize, original_code: &[u8]) -> (plan: HookPlan)
    requires
        original_func + original_code@.len() <= usize::MAX,
        original_code@.len() + TRAMPOLINE_SLACK <= usize::MAX,
    ensures
        plan.patch@ == spec_hook_patch(hook_func as u64),
        plan.trampoline@ == spec_trampoline(
            original_code@,
            (original_func + original_code@.len()) as u64,
        ),
        plan.trampoline_alloc_len == original_code@.len() + TRAMPOLINE_SLACK,
        plan.protect_len == HOOK_PROTECT_LEN,
        plan.patch@.len() <= plan.protect_len,
        plan.trampoline@.len() < plan.trampoline_alloc_len,
{
    let num_bytes_to_save = original_code.len();
    let resume = original_func + num_bytes_to_save;
    HookPlan {
        patch: hook_patch(hook_func as u64),
        trampoline: trampoline(original_code, resume as u64),
        trampoline_alloc_len: num_bytes_to_save + TRAMPOLINE_SLACK,
        protect_len: HOOK_PROTECT_LEN,
    }
}

/// The opcode bytes of the hooks are the opcode words and double word stored
/// least significant byte first, as the processor reads them.
pub proof fn lemma_opcode_bytes()
    ensures
        HOOKING_MOV_RAX & 0xff == 0x48 && HOOKING_MOV_RAX >> 8 == 0xb8,
        HOOKING_PUSH_RAX_RET & 0xff == 0x50 && HOOKING_PUSH_RAX_RET >> 8 == 0xc3,
        HOOKING_MOV_R15 & 0xff == 0x49 && HOOKING_MOV_R15 >> 8 == 0xbf,
        HOOKING_PUSH_R15_RET & 0xff == 0x41 && (HOOKING_PUSH_R15_RET >> 8) & 0xff == 0x57
            && (HOOKING_PUSH_R15_RET >> 16) & 0xff == 0xc3 && HOOKING_PUSH_R15_RET >> 24 == 0x90,
{
    assert(0xb848u16 & 0xff == 0x48 && 0xb848u16 >> 8 == 0xb8 && 0xc350u16 & 0xff == 0x50
        && 0xc350u16 >> 8 == 0xc3 && 0xbf49u16 & 0xff == 0x49 && 0xbf49u16 >> 8 == 0xbf)
        by (bit_vector);
    assert(0x90c35741u32 & 0xff == 0x41 && (0x90c35741u32 >> 8) & 0xff == 0x57 && (0x90c35741u32
        >> 16) & 0xff == 0xc3 && 0x90c35741u32 >> 24 == 0x90) by (bit_vector);
}

/// The patch is `mov rax, hook_func; push rax; ret`: it starts with `48 B8`,
/// the next eight bytes read back as `hook_func` in little-endian order, and
/// it ends with `50 C3`.
pub proof fn lemma_hook_patch_decodes(hook_func: u64)
    ensures
        spec_hook_patch(hook_func).len() == HOOK_PATCH_LEN,
        spec_hook_patch(hook_func)[0] == 0x48,
        spec_hook_patch(hook_func)[1] == 0xb8,
        spec_u64_from_le_bytes(spec_hook_patch(hook_func).subrange(2, 10)) == hook_func,
        spec_hook_patch(hook_func)[10] == 0x50,
        spec_hook_patch(hook_func)[11] == 0xc3,
{
    lemma_auto_spec_u64_to_from_le_bytes();
    spec_u64_to_le_bytes_to_open(hook_func);
    let p = spec_hook_patch(hook_func);
    assert(p.subrange(2, 10) =~= spec_u64_to_le_bytes(hook_func));
}

/// A trampoline starts with the saved code unchanged and then is
/// `mov r15, resume; push r15; ret; nop`: `49 BF`, eight bytes that read back
/// as `resume` in little-endian order, and `41 57 C3 90`.
pub proof fn lemma_trampoline_decodes(saved_code: Seq<u8>, resume: u64)
    ensures
        spec_trampoline(saved_code, resume).len() == saved_code.len() + TRAMPOLINE_TAIL_LEN,
        spec_trampoline(saved_code, resume).take(saved_code.len() as int) == saved_code,
        spec_trampoline(saved_code, resume)[saved_code.len() as int] == 0x49,
        spec_trampoline(saved_code, resume)[saved_code.len() + 1int] == 0xbf,
        spec_u64_from_le_bytes(
            spec_trampoline(saved_code, resume).subrange(
                saved_code.len() + 2int,
                saved_code.len() + 10int,
            ),
        ) == resume,
        spec_trampoline(saved_code, resume).subrange(
            saved_code.len() + 10int,
            saved_code.len() + 14int,
        ) == seq![0x41u8, 0x57u8, 0xc3u8, 0x90u8],
{
    lemma_auto_spec_u64_to_from_le_bytes();
    spec_u64_to_le_bytes_to_open(resume);
    let n = saved_code.len() as int;
    let t = spec_trampoline(saved_code, resume);
    assert(t.take(n) =~= saved_code);
    assert(t.subrange(n + 2, n + 10) =~= spec_u64_to_le_bytes(resume));
    assert(t.subrange(n + 10, n + 14) =~= seq![0x41u8, 0x57u8, 0xc3u8, 0x90u8]);
}

/// Nothing of the hooked function is lost when at least the bytes that the
/// patch overwrites are saved: the saved prefix of the trampoline, followed
/// by what comes after it in the hooked function, is the original code.
pub proof fn lemma_hook_keeps_original_code(code: Seq<u8>, num_bytes_to_save: nat, hook_func: u64, resume: u64)
    requires
        HOOK_PATCH_LEN <= num_bytes_to_save <= code.len(),
    ensures
        spec_trampoline(code.take(num_bytes_to_save as int), resume).take(num_bytes_to_save as int)
            + spec_hooked_code(code, hook_func).skip(num_bytes_to_save as int) == code,
{
    let n = num_bytes_to_save as int;
    let saved = code.take(n);
    lemma_trampoline_decodes(saved, resume);
    let patch = spec_hook_patch(hook_func);
    assert(patch.len() == 12);
    let hooked = spec_hooked_code(code, hook_func);
    assert(hooked.skip(n) =~= code.skip(n));
    assert(saved + code.skip(n) =~= code);
}

} // verus!
