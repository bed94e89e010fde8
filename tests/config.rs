use wasmruntime::config::{join_path, WasmConfig};
use wasmtime_wasi::{DirPerms, FilePerms};

#[test]
fn default_configuration_values() {
    let cfg = WasmConfig::from_working_dir(Some("/home/user".to_string()));
    assert_eq!(cfg.get_host_path(), "/home/user");
    assert_eq!(cfg.get_root_path(), "/home/user");
    assert_eq!(cfg.get_guest_path(), "/");
    assert_eq!(cfg.get_wasm_ext(), "wasm");
    assert!(!cfg.get_allow_write());
    assert!(!cfg.get_allow_network());
    assert_eq!(cfg.get_dir_perms(), DirPerms::all());
    assert_eq!(cfg.get_file_perms(), FilePerms::all());
}

#[test]
fn default_without_working_dir_uses_dot() {
    let cfg = WasmConfig::from_working_dir(None);
    assert_eq!(cfg.get_host_path(), ".");
    assert_eq!(cfg.get_root_path(), ".");
}

#[test]
fn relative_host_path_is_resolved_against_root_at_set_time() {
    let mut cfg = WasmConfig::from_working_dir(Some("/home/user".to_string()));
    cfg.set_rootdir("/srv/wasm");
    assert!(cfg.set_host_path("data").is_ok());
    assert_eq!(cfg.get_host_path(), "/srv/wasm/data");
    cfg.set_rootdir("/elsewhere");
    assert_eq!(cfg.get_host_path(), "/srv/wasm/data");
}

#[test]
fn absolute_host_path_is_kept() {
    let mut cfg = WasmConfig::from_working_dir(Some("/home/user".to_string()));
    assert!(cfg.set_host_path("/tmp/wasm-playground").is_ok());
    assert_eq!(cfg.get_host_path(), "/tmp/wasm-playground");
}

#[test]
fn join_path_separators() {
    assert_eq!(join_path("/srv/", "data"), "/srv/data");
    assert_eq!(join_path("/srv", "data"), "/srv/data");
    assert_eq!(join_path("", "data"), "data");
    assert_eq!(join_path("./wasm_bins", "x"), "./wasm_bins/x");
    assert_eq!(join_path("/srv", "/abs"), "/abs");
}

#[test]
fn setters_update_each_field() {
    let mut cfg = WasmConfig::from_working_dir(None);
    assert!(cfg.set_allow_write(true).get_allow_write());
    assert!(cfg.set_allow_network(true).get_allow_network());
    assert_eq!(cfg.set_guest_path("/data").get_guest_path(), "/data");
    assert_eq!(cfg.set_wasm_ext("wat").get_wasm_ext(), "wat");
    assert_eq!(cfg.set_dir_perms(DirPerms::READ).get_dir_perms(), DirPerms::READ);
    assert_eq!(cfg.set_file_perms(FilePerms::WRITE).get_file_perms(), FilePerms::WRITE);
    assert_eq!(cfg.set_rootdir("./wasm_bins").get_root_path(), "./wasm_bins");
}

#[test]
fn binary_path_uses_root_and_extension() {
    let mut cfg = WasmConfig::from_working_dir(Some("/srv/wasm".to_string()));
    assert_eq!(cfg.binary_path("echo"), "/srv/wasm/echo.wasm");
    cfg.set_wasm_ext("wat");
    assert_eq!(cfg.binary_path("echo"), "/srv/wasm/echo.wat");
}
