//! Locating the game's process and preparing the buffer that a remote thread
//! hands to `LoadLibraryA` there.
use vstd::prelude::*;
use vstd::string::StringSliceAdditionalSpecFns;
use sysinfo::{ProcessExt, System, SystemExt};

verus! {

/// The value that `find_process` returns when no process has the name asked
/// for.
pub const PROCESS_NOT_FOUND: u32 = 0xFFFF_FFFF;

/// One running process, as the process list reports it.
pub struct ProcessEntry {
    /// Its process id.
    pub pid: u32,
    /// The name of its executable.
    pub name: String,
}

/// Makes Verus aware of `sysinfo::System`, a snapshot of the machine's state.
#[verifier::external_type_specification]
#[verifier::external_body]
pub struct ExSystem(System);

/// Calls `sysinfo::SystemExt::new_all`, which reads the current state of the
/// machine, its processes among it. What it holds depends on the machine and
/// the moment, so nothing is stated of it. The call can also panic, on
/// conditions of the machine and never of an argument: on Linux when the
/// clock reads a time before 1970, on Windows when one of sysinfo's internal
/// system queries fails. No `requires` can exclude these.
#[verifier::external_body]
fn system_snapshot() -> System {
    System::new_all()
}

/// Calls `sysinfo::SystemExt::processes` and hands out each process as its
/// id (converted with `as u32`, as `ProcessExt` pids are) and its name
/// (`ProcessExt::name`). The entries come in the order in which the
/// underlying `HashMap` is walked, which each process seeds anew, and the
/// list reflects the machine: nothing is stated of it.
#[verifier::external_body]
fn process_entries(system: &System) -> Vec<ProcessEntry> {
    system.processes().iter().map(|(pid, process)| ProcessEntry {
        pid: *pid as u32,
        name: process.name().to_string(),
    }).collect()
}

/// The id of the first entry named `name`, or `PROCESS_NOT_FOUND` when no
/// entry has that name.
pub open spec fn spec_find_pid(entries: Seq<ProcessEntry>, name: Seq<char>) -> u32
    decreases entries.len(),
{
    if entries.len() == 0 {
        PROCESS_NOT_FOUND
    } else if entries[0].name@ == name {
        entries[0].pid
    } else {
        spec_find_pid(entries.drop_first(), name)
    }
}

/// Searches `entries` in order for the first process named exactly
/// `proc_str` and returns its id, or `PROCESS_NOT_FOUND` when none is.
pub fn find_pid(entries: &Vec<ProcessEntry>, proc_str: &str) -> (pid: u32)
    ensures
        pid == spec_find_pid(entries@, proc_str@),
{
    let target = proc_str.to_string();
    let len = entries.len();
    let mut i: usize = 0;
    proof {
        assert(entries@.skip(0) =~= entries@);
    }
    while i < len
        invariant
            len == entries@.len(),
            i <= len,
            target@ == proc_str@,
            spec_find_pid(entries@, proc_str@) == spec_find_pid(entries@.skip(i as int), proc_str@),
        decreases len - i,
    {
        let ghost rest = entries@.skip(i as int);
        assert(rest[0] == entries@[i as int]);
        assert(rest.drop_first() =~= entries@.skip(i + 1));
        if entries[i].name == target {
            return entries[i].pid;
        }
        i = i + 1;
    }
    PROCESS_NOT_FOUND
}

/// Looks through the processes running on this machine for one whose
/// executable is named `proc_str` and returns its id, or
/// `PROCESS_NOT_FOUND`. Which processes run, and in which order they are
/// listed, is the machine's affair, so the one thing that holds of every
/// outcome is that the result is what `find_pid` returns on some list of
/// processes; `find_pid` states the search exactly. Like the snapshot it
/// takes, this can panic on conditions of the machine (see
/// `system_snapshot`).
pub fn find_process(proc_str: &str) -> (pid: u32)
    ensures
        exists|entries: Seq<ProcessEntry>| pid == #[trigger] spec_find_pid(entries, proc_str@),
{
    let system = system_snapshot();
    let entries = process_entries(&system);
    let pid = find_pid(&entries, proc_str);
    assert(pid == spec_find_pid(entries@, proc_str@));
    pid
}

/// The search yields the id of the first entry with the name asked for, and
/// `PROCESS_NOT_FOUND` exactly when no entry has that name (or when that
/// first entry's id is itself `PROCESS_NOT_FOUND`).
pub proof fn lemma_find_pid_first_match(entries: Seq<ProcessEntry>, name: Seq<char>)
    ensures
        (forall|i: int| 0 <= i < entries.len() ==> entries[i].name@ != name) ==> spec_find_pid(
            entries,
            name,
        ) == PROCESS_NOT_FOUND,
        forall|i: int|
            #![trigger entries[i]]
            0 <= i < entries.len() && entries[i].name@ == name && (forall|j: int|
                0 <= j < i ==> entries[j].name@ != name) ==> spec_find_pid(entries, name)
                == entries[i].pid,
    decreases entries.len(),
{
    if entries.len() > 0 {
        let rest = entries.drop_first();
        lemma_find_pid_first_match(rest, name);
        assert forall|i: int|
            #![trigger entries[i]]
            0 <= i < entries.len() && entries[i].name@ == name && (forall|j: int|
                0 <= j < i ==> entries[j].name@ != name) implies spec_find_pid(entries, name)
            == entries[i].pid by {
            if i > 0 {
                assert(entries[0].name@ != name);
                assert(rest[i - 1] == entries[i]);
                assert forall|j: int| 0 <= j < i - 1 implies rest[j].name@ != name by {
                    assert(rest[j] == entries[j + 1]);
                }
            }
        }
        if forall|i: int| 0 <= i < entries.len() ==> entries[i].name@ != name {
            assert forall|i: int| 0 <= i < rest.len() implies rest[i].name@ != name by {
                assert(rest[i] == entries[i + 1]);
            }
            assert(entries[0].name@ != name);
        }
    }
}

/// The search only ever returns the id of an entry with the name asked for,
/// and it finds one whenever an entry with that name exists (its id is
/// `PROCESS_NOT_FOUND` only if that entry's own id is the sentinel).
pub proof fn lemma_find_pid_sound_and_complete(entries: Seq<ProcessEntry>, name: Seq<char>)
    ensures
        spec_find_pid(entries, name) != PROCESS_NOT_FOUND ==> exists|i: int|
            0 <= i < entries.len() && #[trigger] entries[i].name@ == name && entries[i].pid
                == spec_find_pid(entries, name),
        (exists|i: int|
            0 <= i < entries.len() && #[trigger] entries[i].name@ == name && entries[i].pid
                != PROCESS_NOT_FOUND && (forall|j: int| 0 <= j < entries.len() && entries[j].name@ == name ==> entries[j].pid != PROCESS_NOT_FOUND))
            ==> spec_find_pid(entries, name) != PROCESS_NOT_FOUND,
    decreases entries.len(),
{
    if entries.len() > 0 {
        let rest = entries.drop_first();
        lemma_find_pid_sound_and_complete(rest, name);
        if entries[0].name@ != name {
            if spec_find_pid(entries, name) != PROCESS_NOT_FOUND {
                let i = choose|i: int|
                    0 <= i < rest.len() && #[trigger] rest[i].name@ == name && rest[i].pid
                        == spec_find_pid(rest, name);
                assert(entries[i + 1] == rest[i]);
            }
            if exists|i: int|
                0 <= i < entries.len() && #[trigger] entries[i].name@ == name && entries[i].pid
                    != PROCESS_NOT_FOUND && (forall|j: int| 0 <= j < entries.len() && entries[j].name@ == name ==> entries[j].pid != PROCESS_NOT_FOUND) {
                let i = choose|i: int|
                    0 <= i < entries.len() && #[trigger] entries[i].name@ == name && entries[i].pid
                        != PROCESS_NOT_FOUND && (forall|j: int| 0 <= j < entries.len() && entries[j].name@ == name ==> entries[j].pid != PROCESS_NOT_FOUND);
                assert(rest[i - 1] == entries[i]);
                assert forall|j: int| 0 <= j < rest.len() && rest[j].name@ == name implies rest[j].pid != PROCESS_NOT_FOUND by {
                    assert(rest[j] == entries[j + 1]);
                }
            }
        } else {
            assert(entries[0].name@ == name);
        }
    }
}

/// The buffer that is written into the game's process for `LoadLibraryA`:
/// the bytes of the library's path, in a block one byte longer so that the
/// zeroed memory of the fresh block terminates the string.
pub struct InjectionPlan {
    /// Size of the block to allocate in the game's process.
    pub remote_alloc_len: usize,
    /// Bytes to write at the start of that block.
    pub payload: Vec<u8>,
}

/// Prepares the buffer that carries `dll_path` into the game's process.
pub fn plan_injection(dll_path: &str) -> (plan: InjectionPlan)
    requires
        dll_path.spec_bytes().len() < usize::MAX,
    ensures
        plan.payload@ == dll_path.spec_bytes(),
        plan.remote_alloc_len == dll_path.spec_bytes().len() + 1,
{
    let bytes = dll_path.as_bytes();
    let payload = vstd::slice::slice_to_vec(bytes);
    let len = bytes.len();
    InjectionPlan { remote_alloc_len: len + 1, payload }
}

} // verus!
