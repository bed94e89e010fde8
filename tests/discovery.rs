use wasmruntime::discovery::{guest_id, select_ids, DirEntry};

fn file(name: &str) -> DirEntry {
    DirEntry { name: name.to_string(), is_file: true }
}

fn dir(name: &str) -> DirEntry {
    DirEntry { name: name.to_string(), is_file: false }
}

#[test]
fn discover_lists_matching_files_sorted() {
    let entries = vec![file("b.wasm"), file("readme.txt"), dir("sub"), file("a.wasm")];
    assert_eq!(select_ids(&entries, "wasm"), vec!["a".to_string(), "b".to_string()]);
}

#[test]
fn discover_ignores_directories_with_the_extension() {
    let entries = vec![dir("c.wasm"), file("d.wasm")];
    assert_eq!(select_ids(&entries, "wasm"), vec!["d".to_string()]);
}

#[test]
fn discover_empty_listing() {
    assert!(select_ids(&Vec::new(), "wasm").is_empty());
}

#[test]
fn discover_orders_by_bytes() {
    let entries = vec![file("b.wasm"), file("B.wasm"), file("a.wasm"), file("ab.wasm")];
    let expected: Vec<String> = vec!["B".into(), "a".into(), "ab".into(), "b".into()];
    assert_eq!(select_ids(&entries, "wasm"), expected);
}

#[test]
fn discover_uses_configured_extension() {
    let entries = vec![file("a.wasm"), file("b.wat")];
    assert_eq!(select_ids(&entries, "wat"), vec!["b".to_string()]);
}

#[test]
fn guest_id_takes_last_extension() {
    assert_eq!(guest_id(&file("a.b.wasm"), "wasm"), Some("a.b".to_string()));
    assert_eq!(guest_id(&file("a.wasm.txt"), "wasm"), None);
    assert_eq!(guest_id(&file("x.WASM"), "wasm"), None);
    assert_eq!(guest_id(&file("noext"), "wasm"), None);
}

#[test]
fn guest_id_hidden_file_has_no_extension() {
    assert_eq!(guest_id(&file(".wasm"), "wasm"), None);
    assert_eq!(guest_id(&file(".hidden.wasm"), "wasm"), Some(".hidden".to_string()));
}
