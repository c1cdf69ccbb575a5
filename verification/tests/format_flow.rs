use wasm_plugin_host::environment::{FormatOutcome, ImportObjectEnvironment};
use wasm_plugin_host::errors::HostError;
use wasm_plugin_host::identity::IdentityImportObject;
use wasm_plugin_host::memory::GuestMemory;

fn stage(env: &mut ImportObjectEnvironment, bytes: &[u8]) {
    env.set_memory(GuestMemory::from_vec(bytes.to_vec()));
    env.clear_bytes(bytes.len() as u32);
    env.read_buffer(0, bytes.len() as u32).unwrap();
}

#[test]
fn chunked_path_with_multibyte_character_reconstructs() {
    // "héllo" is six UTF-8 bytes; staged as two reads of three bytes each,
    // the multi-byte character is split across the reads but reassembled
    // in the buffer.
    let path = "héllo";
    let mut env = ImportObjectEnvironment::new("plugin-a");
    env.set_memory(GuestMemory::from_vec(path.as_bytes().to_vec()));
    env.clear_bytes(5);
    env.read_buffer(0, 3).unwrap();
    env.read_buffer(3, 3).unwrap();
    env.take_file_path().unwrap();

    env.clear_bytes(0);
    let req = env.begin_format().unwrap();
    assert_eq!(req.file_path, path.as_bytes().to_vec());
    assert_eq!(String::from_utf8(req.file_path).unwrap(), path);
}

#[test]
fn truncated_multibyte_path_is_invalid_encoding() {
    // Staging stops in the middle of the two-byte character: the buffered
    // bytes are not valid UTF-8.
    let path = "héllo";
    let mut env = ImportObjectEnvironment::new("plugin-a");
    env.set_memory(GuestMemory::from_vec(path.as_bytes().to_vec()));
    env.clear_bytes(2);
    env.read_buffer(0, 2).unwrap();
    assert_eq!(env.take_file_path(), Err(HostError::InvalidEncoding));
    // Nothing was consumed: completing the character makes the take succeed.
    env.read_buffer(2, 4).unwrap();
    assert_eq!(env.take_file_path(), Ok(()));
}

#[test]
fn invalid_utf8_text_is_rejected_by_format() {
    let mut env = ImportObjectEnvironment::new("plugin-a");
    stage(&mut env, b"a.txt");
    env.take_file_path().unwrap();
    stage(&mut env, &[0xff, 0xfe]);
    assert_eq!(env.begin_format().err(), Some(HostError::InvalidEncoding));
}

#[test]
fn no_change_with_absent_config_reports_zero() {
    let mut env = ImportObjectEnvironment::new("plugin-a");
    stage(&mut env, b"file.ts");
    env.take_file_path().unwrap();
    stage(&mut env, b"already formatted\n");

    let req = env.begin_format().unwrap();
    assert_eq!(req.plugin_name, "plugin-a");
    assert_eq!(req.file_path, b"file.ts".to_vec());
    assert_eq!(req.file_text, b"already formatted\n".to_vec());
    // No override configuration was staged: the call sees an empty one.
    assert!(req.override_config.is_empty());

    assert_eq!(env.finish_format(FormatOutcome::NoChange), 0);
    assert_eq!(env.get_formatted_text(), 0);
    assert_eq!(env.get_error_text(), 0);
}

#[test]
fn bridge_error_text_is_retrievable_exactly() {
    let message = b"plugin b failed: unexpected token".to_vec();
    let mut env = ImportObjectEnvironment::new("plugin-a");
    stage(&mut env, b"file.css");
    env.take_file_path().unwrap();
    stage(&mut env, b"body {}");

    let _req = env.begin_format().unwrap();
    assert_eq!(env.finish_format(FormatOutcome::Failed(message.clone())), 2);

    let len = env.get_error_text();
    assert_eq!(len as usize, message.len());

    // Retrieve the message through the protocol: write the buffer into
    // guest memory and look at the bytes.
    env.set_memory(GuestMemory::new(message.len()));
    env.write_buffer(0, 0, len).unwrap();
    let mem = env.take_memory().unwrap();
    let mut got = Vec::new();
    for i in 0..mem.size() {
        got.push(mem.read_byte(i));
    }
    assert_eq!(got, message);
}

#[test]
fn staged_config_reaches_the_format_call() {
    let mut env = ImportObjectEnvironment::new("plugin-a");
    stage(&mut env, b"file.json");
    env.take_file_path().unwrap();
    stage(&mut env, b"{\"indentWidth\":4,\"semiColons\":\"asi\"}");
    env.take_override_config();

    stage(&mut env, b"{ }");
    let req = env.begin_format().unwrap();
    assert_eq!(req.override_config.len(), 2);
    assert_eq!(req.override_config.get("indentWidth").and_then(|v| v.as_i64()), Some(4));
    assert_eq!(
        req.override_config.get("semiColons").and_then(|v| v.as_str()),
        Some("asi")
    );
}

#[test]
fn malformed_config_degrades_to_empty() {
    let mut env = ImportObjectEnvironment::new("plugin-a");
    stage(&mut env, b"file.json");
    env.take_file_path().unwrap();
    stage(&mut env, b"not json at all");
    env.take_override_config();

    env.clear_bytes(0);
    let req = env.begin_format().unwrap();
    assert!(req.override_config.is_empty());
}

#[test]
fn config_is_taken_once() {
    let mut env = ImportObjectEnvironment::new("plugin-a");
    stage(&mut env, b"a");
    env.take_file_path().unwrap();
    stage(&mut env, b"{\"x\":1}");
    env.take_override_config();
    env.clear_bytes(0);
    let req = env.begin_format().unwrap();
    assert_eq!(req.override_config.len(), 1);

    // The next call finds the slot empty again.
    stage(&mut env, b"b");
    env.take_file_path().unwrap();
    env.clear_bytes(0);
    let req2 = env.begin_format().unwrap();
    assert!(req2.override_config.is_empty());
}

#[test]
fn empty_path_is_accepted() {
    // An empty byte sequence is valid UTF-8, so an empty path is stored.
    let mut env = ImportObjectEnvironment::new("plugin-a");
    env.clear_bytes(0);
    assert_eq!(env.take_file_path(), Ok(()));
    let req = env.begin_format().unwrap();
    assert_eq!(req.file_path, Vec::<u8>::new());
}

#[test]
fn identity_table_always_reports_no_change() {
    let table = IdentityImportObject::new();
    table.clear_bytes(16);
    table.read_buffer(0, 16);
    table.write_buffer(0, 0, 16);
    table.take_override_config();
    table.take_file_path();
    assert_eq!(table.format(), 0);
    assert_eq!(table.get_formatted_text(), 0);
    assert_eq!(table.get_error_text(), 0);
}
