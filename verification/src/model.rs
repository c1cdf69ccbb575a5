use vstd::prelude::*;

use crate::config::{is_config_payload, parsed_config_keys};
use crate::utf8::is_utf8;

verus! {

/// The mathematical state of one guest instance's host environment:
/// its bound linear memory, the calling plugin's identity, the four
/// call-scoped slots, and the shared transfer buffer.
#[verifier::ext_equal]
pub struct EnvState {
    /// The guest linear memory, absent until bound after instantiation.
    pub memory: Option<Seq<u8>>,
    /// The identity of the plugin this environment belongs to.
    pub plugin_name: Seq<char>,
    /// The key set of the override configuration staged for the next
    /// format call, when one is staged.
    pub override_config: Option<Set<Seq<char>>>,
    /// The active file path, staged for the next format call.
    pub file_path: Option<Seq<u8>>,
    /// The shared transfer buffer's current contents.
    pub shared_bytes: Seq<u8>,
    /// The formatted-result slot.
    pub formatted_text: Seq<u8>,
    /// The error-text slot.
    pub error_text: Seq<u8>,
}

/// The three outcomes the recursive dispatch bridge can report.
pub enum OutcomeState {
    NoChange,
    Changed(Seq<u8>),
    Failed(Seq<u8>),
}

/// A freshly created environment: nothing bound, nothing staged.
pub open spec fn init_state(plugin_name: Seq<char>) -> EnvState {
    EnvState {
        memory: None,
        plugin_name: plugin_name,
        override_config: None,
        file_path: None,
        shared_bytes: Seq::<u8>::empty(),
        formatted_text: Seq::<u8>::empty(),
        error_text: Seq::<u8>::empty(),
    }
}

/// The slots that hold text a guest can retrieve must fit a `u32` length,
/// and an active file path is always valid UTF-8.
pub open spec fn wf_state(v: EnvState) -> bool {
    &&& (v.file_path matches Some(p) ==> is_utf8(p))
    &&& v.formatted_text.len() <= u32::MAX
    &&& v.error_text.len() <= u32::MAX
}

/// Binding (or rebinding) the guest linear memory.
pub open spec fn set_memory_state(v: EnvState, m: Seq<u8>) -> EnvState {
    EnvState { memory: Some(m), ..v }
}

/// Declaring a transfer: the buffer is reset to empty.
pub open spec fn clear_bytes_state(v: EnvState) -> EnvState {
    EnvState { shared_bytes: Seq::<u8>::empty(), ..v }
}

/// Whether a read of `length` guest bytes at `pointer` stays inside the
/// bound memory.
pub open spec fn read_in_bounds(v: EnvState, pointer: nat, length: nat) -> bool {
    v.memory matches Some(m) && pointer + length <= m.len()
}

/// Appending `length` guest memory bytes at `pointer` to the buffer.
pub open spec fn read_buffer_state(v: EnvState, pointer: nat, length: nat) -> EnvState
    recommends
        read_in_bounds(v, pointer, length),
{
    EnvState {
        shared_bytes: v.shared_bytes + v.memory->0.subrange(
            pointer as int,
            (pointer + length) as int,
        ),
        ..v
    }
}

/// Whether a write of `length` buffer bytes from `offset` to guest address
/// `pointer` stays inside both the buffer contents and the bound memory.
pub open spec fn write_in_bounds(v: EnvState, pointer: nat, offset: nat, length: nat) -> bool {
    &&& offset + length <= v.shared_bytes.len()
    &&& v.memory matches Some(m) && pointer + length <= m.len()
}

/// `m` with `s` written over the range starting at `at`.
pub open spec fn splice(m: Seq<u8>, at: int, s: Seq<u8>) -> Seq<u8>
    recommends
        0 <= at,
        at + s.len() <= m.len(),
{
    m.subrange(0, at) + s + m.subrange(at + s.len(), m.len() as int)
}

/// Copying `length` buffer bytes from `offset` into guest memory at `pointer`.
pub open spec fn write_buffer_state(v: EnvState, pointer: nat, offset: nat, length: nat) -> EnvState
    recommends
        write_in_bounds(v, pointer, offset, length),
{
    EnvState {
        memory: Some(
            splice(
                v.memory->0,
                pointer as int,
                v.shared_bytes.subrange(offset as int, (offset + length) as int),
            ),
        ),
        ..v
    }
}

/// The configuration a staging of `bytes` leaves behind, by its key set:
/// the parsed object's keys where the bytes parse as a configuration,
/// the empty configuration otherwise.
pub open spec fn staged_config_keys(bytes: Seq<u8>) -> Set<Seq<char>> {
    if is_config_payload(bytes) {
        parsed_config_keys(bytes)
    } else {
        Set::<Seq<char>>::empty()
    }
}

/// The configuration a format call consumes: the staged one, or the empty
/// one when none was staged.
pub open spec fn staged_or_empty(c: Option<Set<Seq<char>>>) -> Set<Seq<char>> {
    match c {
        Some(keys) => keys,
        None => Set::<Seq<char>>::empty(),
    }
}

/// Draining the buffer into the override-config slot; the slot becomes
/// occupied whatever the bytes were, since malformed input degrades to an
/// empty configuration.
pub open spec fn take_override_config_state(v: EnvState) -> EnvState {
    EnvState {
        override_config: Some(staged_config_keys(v.shared_bytes)),
        shared_bytes: Seq::<u8>::empty(),
        ..v
    }
}

/// Draining the buffer into the active-file-path slot; only valid UTF-8
/// is accepted.
pub open spec fn take_file_path_state(v: EnvState) -> EnvState
    recommends
        is_utf8(v.shared_bytes),
{
    EnvState { file_path: Some(v.shared_bytes), shared_bytes: Seq::<u8>::empty(), ..v }
}

/// Consuming the staged config, path and buffered text at the start of a
/// format call: all three are gone afterwards.
pub open spec fn begin_format_state(v: EnvState) -> EnvState
    recommends
        v.file_path is Some,
        is_utf8(v.shared_bytes),
{
    EnvState {
        override_config: None,
        file_path: None,
        shared_bytes: Seq::<u8>::empty(),
        ..v
    }
}

/// Recording the bridge's outcome: the two result slots are mutually
/// exclusive, and both are empty when nothing changed.
pub open spec fn finish_format_state(v: EnvState, o: OutcomeState) -> EnvState {
    match o {
        OutcomeState::NoChange => EnvState {
            formatted_text: Seq::<u8>::empty(),
            error_text: Seq::<u8>::empty(),
            ..v
        },
        OutcomeState::Changed(t) => EnvState {
            formatted_text: t,
            error_text: Seq::<u8>::empty(),
            ..v
        },
        OutcomeState::Failed(m) => EnvState {
            formatted_text: Seq::<u8>::empty(),
            error_text: m,
            ..v
        },
    }
}

/// The integer status reported across the boundary for each outcome.
pub open spec fn status_of(o: OutcomeState) -> u32 {
    match o {
        OutcomeState::NoChange => 0u32,
        OutcomeState::Changed(_) => 1u32,
        OutcomeState::Failed(_) => 2u32,
    }
}

/// Draining the formatted-result slot into the buffer.
pub open spec fn get_formatted_text_state(v: EnvState) -> EnvState {
    EnvState {
        formatted_text: Seq::<u8>::empty(),
        shared_bytes: v.formatted_text,
        ..v
    }
}

/// Draining the error-text slot into the buffer.
pub open spec fn get_error_text_state(v: EnvState) -> EnvState {
    EnvState {
        error_text: Seq::<u8>::empty(),
        shared_bytes: v.error_text,
        ..v
    }
}

} // verus!
