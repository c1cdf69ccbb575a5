use vstd::prelude::*;

use crate::config::{config_map_keys, empty_config_map, parse_config_bytes};
use crate::errors::HostError;
use crate::memory::GuestMemory;
use crate::model::{
    begin_format_state, clear_bytes_state, finish_format_state, get_error_text_state,
    get_formatted_text_state, init_state, read_buffer_state, read_in_bounds, set_memory_state,
    staged_or_empty, status_of, take_file_path_state, take_override_config_state, wf_state,
    write_buffer_state, write_in_bounds, EnvState, OutcomeState,
};
use crate::utf8::{check_utf8, is_utf8};

verus! {

/// Everything a format call hands to the recursive dispatch bridge: the
/// calling plugin's identity, the consumed path and text, and the consumed
/// override configuration.
pub struct FormatRequest {
    /// The plugin on whose behalf the bridge is re-entered.
    pub plugin_name: String,
    /// The active file path that was staged for this call, as UTF-8 bytes.
    pub file_path: Vec<u8>,
    /// The candidate text to format, as UTF-8 bytes.
    pub file_text: Vec<u8>,
    /// The override configuration staged for this call; empty when none
    /// was staged or the staged bytes were malformed.
    pub override_config: serde_json::Map<String, serde_json::Value>,
}

/// The bridge's report on one format request.
pub enum FormatOutcome {
    /// The text was already formatted; nothing is retrievable.
    NoChange,
    /// The text changed; the new text is retrievable.
    Changed(Vec<u8>),
    /// Formatting failed; the message is retrievable.
    Failed(Vec<u8>),
}

impl View for FormatOutcome {
    type V = OutcomeState;

    open spec fn view(&self) -> OutcomeState {
        match self {
            FormatOutcome::NoChange => OutcomeState::NoChange,
            FormatOutcome::Changed(t) => OutcomeState::Changed(t@),
            FormatOutcome::Failed(m) => OutcomeState::Failed(m@),
        }
    }
}

/// The host-side environment of one guest instance: its late-bound linear
/// memory, the shared transfer buffer, and the four call-scoped slots.
///
/// One environment serves at most one format call at a time; a caller's
/// exclusive access stands in for the per-slot locks that guard the state
/// when host primitives and management operations share it.
pub struct ImportObjectEnvironment {
    memory: Option<GuestMemory>,
    plugin_name: String,
    override_config: Option<serde_json::Map<String, serde_json::Value>>,
    file_path: Option<Vec<u8>>,
    shared_bytes: Vec<u8>,
    formatted_text: Vec<u8>,
    error_text: Vec<u8>,
}

impl View for ImportObjectEnvironment {
    type V = EnvState;

    closed spec fn view(&self) -> EnvState {
        EnvState {
            memory: match self.memory {
                Some(m) => Some(m@),
                None => None,
            },
            plugin_name: self.plugin_name@,
            override_config: match self.override_config {
                Some(m) => Some(config_map_keys(m)),
                None => None,
            },
            file_path: match self.file_path {
                Some(p) => Some(p@),
                None => None,
            },
            shared_bytes: self.shared_bytes@,
            formatted_text: self.formatted_text@,
            error_text: self.error_text@,
        }
    }
}

impl ImportObjectEnvironment {
    /// A fresh environment for the named plugin: no memory bound, no slot
    /// occupied, the buffer empty.
    pub fn new(plugin_name: &str) -> (r: ImportObjectEnvironment)
        ensures
            r@ == init_state(plugin_name@),
    {
        let r = ImportObjectEnvironment {
            memory: None,
            plugin_name: <String as vstd::string::StringExecFns>::from_str(plugin_name),
            override_config: None,
            file_path: None,
            shared_bytes: Vec::new(),
            formatted_text: Vec::new(),
            error_text: Vec::new(),
        };
        proof {
            assert(r@ =~= init_state(plugin_name@));
        }
        r
    }

    /// Binds the guest's exported linear memory into the environment.
    /// Until this has happened, no buffer primitive may run.
    pub fn set_memory(&mut self, memory: GuestMemory)
        ensures
            final(self)@ == set_memory_state(old(self)@, memory@),
    {
        let ghost m = memory@;
        self.memory = Some(memory);
        proof {
            assert(self@ =~= set_memory_state(old(self)@, m));
        }
    }

    /// Unbinds and returns the guest memory, if one is bound; the rest of
    /// the environment is untouched.
    pub fn take_memory(&mut self) -> (r: Option<GuestMemory>)
        ensures
            final(self)@ == (EnvState { memory: None, ..old(self)@ }),
            match r {
                Some(m) => old(self)@.memory == Some(m@),
                None => old(self)@.memory is None,
            },
    {
        let r = self.memory.take();
        proof {
            assert(self@ =~= (EnvState { memory: None, ..old(self)@ }));
        }
        r
    }

    /// Resets the shared transfer buffer to empty, reserving `length`
    /// bytes for the value about to be staged.
    pub fn clear_bytes(&mut self, length: u32)
        ensures
            final(self)@ == clear_bytes_state(old(self)@),
    {
        self.shared_bytes = Vec::with_capacity(length as usize);
        proof {
            assert(self@ =~= clear_bytes_state(old(self)@));
        }
    }

    /// Appends `length` bytes of guest memory, starting at `pointer`, to
    /// the shared transfer buffer. Rejects ranges that leave the guest
    /// memory's current size, copying nothing.
    pub fn read_buffer(&mut self, pointer: u32, length: u32) -> (r: Result<(), HostError>)
        requires
            old(self)@.memory is Some,
        ensures
            r is Ok <==> read_in_bounds(old(self)@, pointer as nat, length as nat),
            r is Ok ==> final(self)@ == read_buffer_state(
                old(self)@,
                pointer as nat,
                length as nat,
            ),
            r is Err ==> final(self)@ == old(self)@ && r == Err::<(), HostError>(
                HostError::OutOfBounds,
            ),
    {
        let mem = self.memory.take().unwrap();
        let mem_size = mem.size();
        let p = pointer as usize;
        let l = length as usize;
        if l > mem_size || p > mem_size - l {
            self.memory = Some(mem);
            proof {
                assert(self@ =~= old(self)@);
            }
            return Err(HostError::OutOfBounds);
        }
        let mut i: usize = 0;
        while i < l
            invariant
                i <= l,
                p + l <= mem@.len(),
                p + l <= usize::MAX,
                self.memory is None,
                mem@ == old(self)@.memory->0,
                self.plugin_name@ == old(self)@.plugin_name,
                self@.override_config == old(self)@.override_config,
                self@.file_path == old(self)@.file_path,
                self.formatted_text@ == old(self)@.formatted_text,
                self.error_text@ == old(self)@.error_text,
                self.shared_bytes@ == old(self)@.shared_bytes + mem@.subrange(
                    p as int,
                    p + i,
                ),
            decreases l - i,
        {
            let b = mem.read_byte(p + i);
            self.shared_bytes.push(b);
            proof {
                assert(self.shared_bytes@ =~= old(self)@.shared_bytes + mem@.subrange(
                    p as int,
                    p + i + 1,
                ));
            }
            i = i + 1;
        }
        self.memory = Some(mem);
        proof {
            assert(self@ =~= read_buffer_state(old(self)@, pointer as nat, length as nat));
        }
        Ok(())
    }

    /// Copies `length` bytes of the shared transfer buffer, starting at
    /// `offset`, into guest memory at `pointer`. Rejects ranges that leave
    /// the buffer's current contents or the guest memory, writing nothing.
    pub fn write_buffer(&mut self, pointer: u32, offset: u32, length: u32) -> (r: Result<
        (),
        HostError,
    >)
        requires
            old(self)@.memory is Some,
        ensures
            r is Ok <==> write_in_bounds(old(self)@, pointer as nat, offset as nat, length as nat),
            r is Ok ==> final(self)@ == write_buffer_state(
                old(self)@,
                pointer as nat,
                offset as nat,
                length as nat,
            ),
            r is Err ==> final(self)@ == old(self)@ && r == Err::<(), HostError>(
                HostError::OutOfBounds,
            ),
    {
        let mut mem = self.memory.take().unwrap();
        let mem_size = mem.size();
        let buf_len = self.shared_bytes.len();
        let p = pointer as usize;
        let o = offset as usize;
        let l = length as usize;
        if l > buf_len || o > buf_len - l || l > mem_size || p > mem_size - l {
            self.memory = Some(mem);
            proof {
                assert(self@ =~= old(self)@);
            }
            return Err(HostError::OutOfBounds);
        }
        let mut i: usize = 0;
        while i < l
            invariant
                i <= l,
                p + l <= mem@.len(),
                p + l <= usize::MAX,
                o + l <= self.shared_bytes@.len(),
                o + l <= usize::MAX,
                self.memory is None,
                mem@.len() == old(self)@.memory->0.len(),
                self.plugin_name@ == old(self)@.plugin_name,
                self@.override_config == old(self)@.override_config,
                self@.file_path == old(self)@.file_path,
                self.formatted_text@ == old(self)@.formatted_text,
                self.error_text@ == old(self)@.error_text,
                self.shared_bytes@ == old(self)@.shared_bytes,
                forall|j: int|
                    0 <= j < mem@.len() && !(p <= j < p + i) ==> mem@[j] == old(
                        self,
                    )@.memory->0[j],
                forall|j: int| p <= j < p + i ==> mem@[j] == old(self)@.shared_bytes[o + j - p],
            decreases l - i,
        {
            let b = self.shared_bytes[o + i];
            mem.write_byte(p + i, b);
            i = i + 1;
        }
        self.memory = Some(mem);
        proof {
            assert(self@.memory->0 =~= write_buffer_state(
                old(self)@,
                pointer as nat,
                offset as nat,
                length as nat,
            ).memory->0);
            assert(self@ =~= write_buffer_state(
                old(self)@,
                pointer as nat,
                offset as nat,
                length as nat,
            ));
        }
        Ok(())
    }

    /// Drains the buffer and parses it as an override configuration, a
    /// JSON object of string keys. Malformed or absent input degrades to
    /// an empty configuration; this primitive never fails.
    pub fn take_override_config(&mut self)
        ensures
            final(self)@ == take_override_config_state(old(self)@),
    {
        let mut bytes: Vec<u8> = Vec::new();
        core::mem::swap(&mut self.shared_bytes, &mut bytes);
        let config = match parse_config_bytes(&bytes) {
            Some(m) => m,
            None => empty_config_map(),
        };
        self.override_config = Some(config);
        proof {
            assert(self@ =~= take_override_config_state(old(self)@));
        }
    }

    /// Drains the buffer into the active-file-path slot. The bytes must be
    /// valid UTF-8; otherwise nothing changes and the encoding is reported
    /// as invalid.
    pub fn take_file_path(&mut self) -> (r: Result<(), HostError>)
        ensures
            r is Ok <==> is_utf8(old(self)@.shared_bytes),
            r is Ok ==> final(self)@ == take_file_path_state(old(self)@),
            r is Err ==> final(self)@ == old(self)@ && r == Err::<(), HostError>(
                HostError::InvalidEncoding,
            ),
    {
        if !check_utf8(&self.shared_bytes) {
            return Err(HostError::InvalidEncoding);
        }
        let mut bytes: Vec<u8> = Vec::new();
        core::mem::swap(&mut self.shared_bytes, &mut bytes);
        self.file_path = Some(bytes);
        proof {
            assert(self@ =~= take_file_path_state(old(self)@));
        }
        Ok(())
    }

    /// Starts a format call: consumes the staged override configuration
    /// (empty when none was staged), the active file path, and the
    /// buffered candidate text, and hands them over for dispatch.
    ///
    /// A call without an active file path is a protocol violation and is
    /// rejected without consuming anything; so is buffered text that is
    /// not valid UTF-8.
    pub fn begin_format(&mut self) -> (r: Result<FormatRequest, HostError>)
        requires
            wf_state(old(self)@),
        ensures
            r is Ok <==> old(self)@.file_path is Some && is_utf8(old(self)@.shared_bytes),
            old(self)@.file_path is None ==> r == Err::<FormatRequest, HostError>(
                HostError::MissingPrecondition,
            ),
            old(self)@.file_path is Some && !is_utf8(old(self)@.shared_bytes) ==> r
                == Err::<FormatRequest, HostError>(HostError::InvalidEncoding),
            r is Err ==> final(self)@ == old(self)@,
            r matches Ok(req) ==> {
                &&& final(self)@ == begin_format_state(old(self)@)
                &&& req.plugin_name@ == old(self)@.plugin_name
                &&& Some(req.file_path@) == old(self)@.file_path
                &&& req.file_text@ == old(self)@.shared_bytes
                &&& config_map_keys(req.override_config) == staged_or_empty(
                    old(self)@.override_config,
                )
                &&& is_utf8(req.file_path@)
                &&& is_utf8(req.file_text@)
            },
    {
        if self.file_path.is_none() {
            return Err(HostError::MissingPrecondition);
        }
        if !check_utf8(&self.shared_bytes) {
            return Err(HostError::InvalidEncoding);
        }
        let override_config = match self.override_config.take() {
            Some(m) => m,
            None => empty_config_map(),
        };
        let file_path = self.file_path.take().unwrap();
        let mut file_text: Vec<u8> = Vec::new();
        core::mem::swap(&mut self.shared_bytes, &mut file_text);
        let plugin_name = self.plugin_name.clone();
        proof {
            assert(self@ =~= begin_format_state(old(self)@));
        }
        Ok(FormatRequest { plugin_name, file_path, file_text, override_config })
    }

    /// Records the bridge's outcome and encodes it as the status returned
    /// across the boundary: 0 for no change, 1 for changed, 2 for error.
    /// Exactly one result slot is filled for statuses 1 and 2; both are
    /// left empty for status 0.
    pub fn finish_format(&mut self, outcome: FormatOutcome) -> (r: u32)
        requires
            outcome@ matches OutcomeState::Changed(t) ==> t.len() <= u32::MAX,
            outcome@ matches OutcomeState::Failed(m) ==> m.len() <= u32::MAX,
        ensures
            final(self)@ == finish_format_state(old(self)@, outcome@),
            r == status_of(outcome@),
    {
        let ghost o = outcome@;
        self.formatted_text = Vec::new();
        self.error_text = Vec::new();
        let r: u32 = match outcome {
            FormatOutcome::NoChange => 0,
            FormatOutcome::Changed(t) => {
                self.formatted_text = t;
                1
            },
            FormatOutcome::Failed(m) => {
                self.error_text = m;
                2
            },
        };
        proof {
            assert(self@ =~= finish_format_state(old(self)@, o));
        }
        r
    }

    /// Drains the formatted-result slot into the shared transfer buffer
    /// and reports its byte length; zero when the slot is empty, as after
    /// a previous drain.
    pub fn get_formatted_text(&mut self) -> (r: u32)
        requires
            wf_state(old(self)@),
        ensures
            final(self)@ == get_formatted_text_state(old(self)@),
            r == old(self)@.formatted_text.len(),
    {
        let mut text: Vec<u8> = Vec::new();
        core::mem::swap(&mut self.formatted_text, &mut text);
        let len = text.len();
        self.shared_bytes = text;
        proof {
            assert(self@ =~= get_formatted_text_state(old(self)@));
        }
        len as u32
    }

    /// Drains the error-text slot into the shared transfer buffer and
    /// reports its byte length; zero when the slot is empty.
    pub fn get_error_text(&mut self) -> (r: u32)
        requires
            wf_state(old(self)@),
        ensures
            final(self)@ == get_error_text_state(old(self)@),
            r == old(self)@.error_text.len(),
    {
        let mut text: Vec<u8> = Vec::new();
        core::mem::swap(&mut self.error_text, &mut text);
        let len = text.len();
        self.shared_bytes = text;
        proof {
            assert(self@ =~= get_error_text_state(old(self)@));
        }
        len as u32
    }
}

} // verus!
