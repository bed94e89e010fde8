use wasmruntime::config::WasmConfig;
use wasmruntime::sandbox::{plan_sandbox, OUTPUT_CAPACITY};
use wasmtime_wasi::{DirPerms, FilePerms};

fn configured() -> WasmConfig {
    let mut cfg = WasmConfig::from_working_dir(Some("/srv".to_string()));
    cfg.set_host_path("/tmp/wasm-playground").unwrap();
    cfg.set_guest_path("/data");
    cfg
}

#[test]
fn no_directory_without_write_access() {
    let cfg = configured();
    let plan = plan_sandbox(&cfg, b"in".to_vec());
    assert!(plan.preopen.is_none());
    assert_eq!(plan.stdin, b"in".to_vec());
    assert_eq!(plan.stdout_capacity, 64 * 1024);
    assert_eq!(plan.stderr_capacity, OUTPUT_CAPACITY);
}

#[test]
fn directory_exposed_with_write_access() {
    let mut cfg = configured();
    cfg.set_allow_write(true);
    cfg.set_dir_perms(DirPerms::READ);
    cfg.set_file_perms(FilePerms::READ);
    let p = plan_sandbox(&cfg, Vec::new()).preopen.unwrap();
    assert_eq!(p.host_path, "/tmp/wasm-playground");
    assert_eq!(p.guest_path, "/data");
    assert_eq!(p.dir_perms, DirPerms::READ);
    assert_eq!(p.file_perms, FilePerms::READ);
}

#[test]
fn no_sockets_without_network() {
    let plan = plan_sandbox(&configured(), Vec::new());
    assert!(!plan.allow_tcp);
    assert!(!plan.allow_udp);
}

#[test]
fn sockets_with_network() {
    let mut cfg = configured();
    cfg.set_allow_network(true);
    let plan = plan_sandbox(&cfg, Vec::new());
    assert!(plan.allow_tcp);
    assert!(plan.allow_udp);
}
