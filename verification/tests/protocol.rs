use wasm_plugin_host::environment::{FormatOutcome, ImportObjectEnvironment};
use wasm_plugin_host::errors::HostError;
use wasm_plugin_host::memory::GuestMemory;

fn memory_bytes(env: &mut ImportObjectEnvironment) -> Vec<u8> {
    let mem = env.take_memory().expect("memory should be bound");
    let mut out = Vec::new();
    let mut i = 0;
    while i < mem.size() {
        out.push(mem.read_byte(i));
        i += 1;
    }
    env.set_memory(mem);
    out
}

#[test]
fn round_trip_in_chunks() {
    let b: Vec<u8> = vec![10, 20, 30, 40, 50, 60, 70];
    let mut env = ImportObjectEnvironment::new("plugin-a");
    env.set_memory(GuestMemory::from_vec(b.clone()));

    env.clear_bytes(7);
    env.read_buffer(0, 3).unwrap();
    env.read_buffer(3, 1).unwrap();
    env.read_buffer(4, 3).unwrap();

    env.set_memory(GuestMemory::new(7));
    env.write_buffer(0, 0, 3).unwrap();
    env.write_buffer(3, 3, 1).unwrap();
    env.write_buffer(4, 4, 3).unwrap();

    assert_eq!(memory_bytes(&mut env), b);
}

#[test]
fn read_buffer_rejects_out_of_bounds() {
    let mut env = ImportObjectEnvironment::new("plugin-a");
    env.set_memory(GuestMemory::new(4));
    env.clear_bytes(8);
    assert_eq!(env.read_buffer(2, 3), Err(HostError::OutOfBounds));
    assert_eq!(env.read_buffer(0, 5), Err(HostError::OutOfBounds));
    assert_eq!(env.read_buffer(0, 4), Ok(()));
}

#[test]
fn write_buffer_rejects_out_of_bounds_without_partial_write() {
    let mut env = ImportObjectEnvironment::new("plugin-a");
    env.set_memory(GuestMemory::from_vec(vec![7, 7, 7, 7]));
    env.clear_bytes(3);
    env.read_buffer(0, 3).unwrap();

    // offset + length exceeds the buffer's current contents.
    assert_eq!(env.write_buffer(0, 2, 2), Err(HostError::OutOfBounds));
    // pointer + length exceeds the guest memory's size.
    assert_eq!(env.write_buffer(3, 0, 2), Err(HostError::OutOfBounds));
    // Nothing was written by the rejected calls.
    assert_eq!(memory_bytes(&mut env), vec![7, 7, 7, 7]);
}

#[test]
fn formatted_text_drain_is_idempotent() {
    let mut env = ImportObjectEnvironment::new("plugin-a");
    let status = env.finish_format(FormatOutcome::Changed(b"abc".to_vec()));
    assert_eq!(status, 1);
    assert_eq!(env.get_formatted_text(), 3);
    assert_eq!(env.get_formatted_text(), 0);
}

#[test]
fn error_text_drain_is_idempotent() {
    let mut env = ImportObjectEnvironment::new("plugin-a");
    let status = env.finish_format(FormatOutcome::Failed(b"bad input".to_vec()));
    assert_eq!(status, 2);
    assert_eq!(env.get_error_text(), 9);
    assert_eq!(env.get_error_text(), 0);
}

#[test]
fn file_path_is_taken_exactly_once() {
    let mut env = ImportObjectEnvironment::new("plugin-a");
    env.set_memory(GuestMemory::from_vec(b"a.json".to_vec()));
    env.clear_bytes(6);
    env.read_buffer(0, 6).unwrap();
    env.take_file_path().unwrap();

    env.clear_bytes(0);
    let first = env.begin_format();
    assert!(first.is_ok());

    // A second format call without an intervening take-file-path.
    let second = env.begin_format();
    assert_eq!(second.err(), Some(HostError::MissingPrecondition));
}

#[test]
fn format_without_path_is_missing_precondition() {
    let mut env = ImportObjectEnvironment::new("plugin-a");
    assert_eq!(env.begin_format().err(), Some(HostError::MissingPrecondition));
}

#[test]
fn status_zero_leaves_both_slots_empty() {
    let mut env = ImportObjectEnvironment::new("plugin-a");
    assert_eq!(env.finish_format(FormatOutcome::NoChange), 0);
    assert_eq!(env.get_formatted_text(), 0);
    assert_eq!(env.get_error_text(), 0);
}

#[test]
fn status_one_fills_only_the_result_slot() {
    let mut env = ImportObjectEnvironment::new("plugin-a");
    assert_eq!(env.finish_format(FormatOutcome::Changed(b"new text".to_vec())), 1);
    assert_eq!(env.get_error_text(), 0);
    assert_eq!(env.get_formatted_text(), 8);
}

#[test]
fn status_two_fills_only_the_error_slot() {
    let mut env = ImportObjectEnvironment::new("plugin-a");
    assert_eq!(env.finish_format(FormatOutcome::Failed(b"oops".to_vec())), 2);
    assert_eq!(env.get_formatted_text(), 0);
    assert_eq!(env.get_error_text(), 4);
}

#[test]
fn later_outcome_replaces_earlier_slots() {
    let mut env = ImportObjectEnvironment::new("plugin-a");
    assert_eq!(env.finish_format(FormatOutcome::Failed(b"oops".to_vec())), 2);
    // The next call reports no change: nothing from the earlier call is
    // retrievable any more.
    assert_eq!(env.finish_format(FormatOutcome::NoChange), 0);
    assert_eq!(env.get_error_text(), 0);
    assert_eq!(env.get_formatted_text(), 0);
}

#[test]
fn take_memory_before_binding_is_none() {
    let mut env = ImportObjectEnvironment::new("plugin-a");
    assert!(env.take_memory().is_none());
}
