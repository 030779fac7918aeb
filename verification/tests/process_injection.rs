use control_cheat::process_injection::{
    find_pid, find_process, plan_injection, ProcessEntry, PROCESS_NOT_FOUND,
};

fn entry(pid: u32, name: &str) -> ProcessEntry {
    ProcessEntry { pid, name: name.to_string() }
}

#[test]
fn find_pid_returns_first_match() {
    let entries = vec![
        entry(10, "explorer.exe"),
        entry(20, "Control_DX11.exe"),
        entry(30, "Control_DX11.exe"),
    ];
    assert_eq!(find_pid(&entries, "Control_DX11.exe"), 20);
    assert_eq!(find_pid(&entries, "explorer.exe"), 10);
}

#[test]
fn find_pid_without_match_is_not_found() {
    let entries = vec![entry(10, "explorer.exe"), entry(20, "control_dx11.exe")];
    assert_eq!(find_pid(&entries, "Control_DX11.exe"), PROCESS_NOT_FOUND);
    assert_eq!(find_pid(&Vec::new(), "Control_DX11.exe"), 0xFFFF_FFFF);
}

#[test]
fn find_pid_needs_the_whole_name() {
    let entries = vec![entry(10, "Control_DX11.exe.bak"), entry(11, "Control")];
    assert_eq!(find_pid(&entries, "Control_DX11.exe"), PROCESS_NOT_FOUND);
}

#[test]
fn find_process_of_absent_name_is_not_found() {
    assert_eq!(find_process("no-such-process-name-4711.exe"), PROCESS_NOT_FOUND);
}

#[test]
fn plan_injection_allocates_room_for_terminator() {
    let plan = plan_injection("C:\\cheat\\control_cheat_dll.dll");
    assert_eq!(plan.payload, b"C:\\cheat\\control_cheat_dll.dll".to_vec());
    assert_eq!(plan.remote_alloc_len, plan.payload.len() + 1);
}

#[test]
fn plan_injection_of_empty_path() {
    let plan = plan_injection("");
    assert!(plan.payload.is_empty());
    assert_eq!(plan.remote_alloc_len, 1);
}
