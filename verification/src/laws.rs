use vstd::prelude::*;

use crate::model::{
    begin_format_state, clear_bytes_state, finish_format_state, get_error_text_state,
    get_formatted_text_state, read_buffer_state, set_memory_state, status_of,
    take_override_config_state, write_buffer_state, EnvState, OutcomeState,
};
use crate::utf8::is_utf8;

verus! {

/// Chunk boundaries for a transfer of `n` bytes: a weakly increasing
/// sequence of cut points running from 0 to `n`.
pub open spec fn valid_cuts(cuts: Seq<int>, n: int) -> bool {
    &&& cuts.len() >= 1
    &&& cuts[0] == 0
    &&& cuts[cuts.len() - 1] == n
    &&& forall|i: int| 0 <= i < cuts.len() - 1 ==> #[trigger] cuts[i] <= cuts[i + 1]
    &&& forall|i: int| 0 <= i < cuts.len() ==> 0 <= #[trigger] cuts[i] <= n
}

/// The state after the guest has staged the chunks `[cuts[i], cuts[i+1])`,
/// `[cuts[i+1], cuts[i+2])`, ... of its memory through read-buffer calls.
pub open spec fn stage_chunks(v: EnvState, cuts: Seq<int>, i: int) -> EnvState
    decreases cuts.len() - i,
{
    if i + 1 >= cuts.len() {
        v
    } else {
        stage_chunks(
            read_buffer_state(v, cuts[i] as nat, (cuts[i + 1] - cuts[i]) as nat),
            cuts,
            i + 1,
        )
    }
}

/// The state after the buffer ranges `[cuts[i], cuts[i+1])`, ... have been
/// written back into guest memory at their own offsets.
pub open spec fn write_chunks(v: EnvState, cuts: Seq<int>, i: int) -> EnvState
    decreases cuts.len() - i,
{
    if i + 1 >= cuts.len() {
        v
    } else {
        write_chunks(
            write_buffer_state(
                v,
                cuts[i] as nat,
                cuts[i] as nat,
                (cuts[i + 1] - cuts[i]) as nat,
            ),
            cuts,
            i + 1,
        )
    }
}

/// Law: reading a byte sequence out of guest memory in arbitrary
/// consecutive chunks appends exactly that sequence to the buffer, and
/// touches nothing else.
pub proof fn lemma_stage_chunks_exact(v: EnvState, b: Seq<u8>, cuts: Seq<int>, i: int)
    requires
        valid_cuts(cuts, b.len() as int),
        0 <= i < cuts.len(),
        v.memory is Some,
        b.len() <= v.memory->0.len(),
        v.memory->0.subrange(0, b.len() as int) == b,
        v.shared_bytes == b.subrange(0, cuts[i]),
    ensures
        stage_chunks(v, cuts, i) == (EnvState { shared_bytes: b, ..v }),
    decreases cuts.len() - i,
{
    let m = v.memory->0;
    if i + 1 >= cuts.len() {
        assert(cuts[i] == b.len() as int);
        assert(b.subrange(0, b.len() as int) =~= b);
        assert(v =~= EnvState { shared_bytes: b, ..v });
    } else {
        let w = read_buffer_state(v, cuts[i] as nat, (cuts[i + 1] - cuts[i]) as nat);
        assert(m.subrange(cuts[i], cuts[i + 1]) =~= b.subrange(cuts[i], cuts[i + 1]));
        assert(w.shared_bytes =~= b.subrange(0, cuts[i + 1]));
        lemma_stage_chunks_exact(w, b, cuts, i + 1);
        assert(stage_chunks(w, cuts, i + 1) =~= EnvState { shared_bytes: b, ..v });
    }
}

/// Law: writing consecutive buffer ranges back into guest memory at their
/// own offsets lays the buffer's bytes down exactly, leaves the rest of
/// the memory as it was, and touches no other state.
pub proof fn lemma_write_chunks_exact(v: EnvState, cuts: Seq<int>, i: int)
    requires
        valid_cuts(cuts, v.shared_bytes.len() as int),
        0 <= i < cuts.len(),
        v.memory is Some,
        v.shared_bytes.len() <= v.memory->0.len(),
    ensures
        stage_written_memory(v, cuts, i),
        write_chunks(v, cuts, i) == (EnvState { memory: write_chunks(v, cuts, i).memory, ..v }),
    decreases cuts.len() - i,
{
    let m = v.memory->0;
    let n = v.shared_bytes.len() as int;
    if i + 1 >= cuts.len() {
        assert(cuts[i] == n);
        assert(v =~= EnvState { memory: v.memory, ..v });
    } else {
        let li = (cuts[i + 1] - cuts[i]) as nat;
        let w = write_buffer_state(v, cuts[i] as nat, cuts[i] as nat, li);
        assert(w.memory->0.len() == m.len()) by {
            assert(w.memory->0 == m.subrange(0, cuts[i]) + v.shared_bytes.subrange(
                cuts[i],
                cuts[i + 1],
            ) + m.subrange(cuts[i + 1], m.len() as int));
        }
        assert forall|j: int| 0 <= j < m.len() implies {
            &&& (cuts[i] <= j < cuts[i + 1] ==> w.memory->0[j] == v.shared_bytes[j])
            &&& (!(cuts[i] <= j < cuts[i + 1]) ==> w.memory->0[j] == m[j])
        } by {
            assert(w.memory->0 == m.subrange(0, cuts[i]) + v.shared_bytes.subrange(
                cuts[i],
                cuts[i + 1],
            ) + m.subrange(cuts[i + 1], m.len() as int));
        }
        lemma_write_chunks_exact(w, cuts, i + 1);
        assert(write_chunks(w, cuts, i + 1) =~= EnvState {
            memory: write_chunks(v, cuts, i).memory,
            ..v
        });
    }
}

/// What `lemma_write_chunks_exact` guarantees of the memory: the buffer's
/// bytes from `cuts[i]` on are in place, and everything else is untouched.
pub open spec fn stage_written_memory(v: EnvState, cuts: Seq<int>, i: int) -> bool {
    let r = write_chunks(v, cuts, i);
    let m = v.memory->0;
    let n = v.shared_bytes.len() as int;
    &&& r.memory is Some
    &&& r.memory->0.len() == m.len()
    &&& forall|j: int| cuts[i] <= j < n ==> #[trigger] r.memory->0[j] == v.shared_bytes[j]
    &&& forall|j: int|
        0 <= j < m.len() && !(cuts[i] <= j < n) ==> #[trigger] r.memory->0[j] == m[j]
}

/// Law: the transfer protocol round-trips any byte sequence. Declaring
/// the length, reading a sequence `b` out of guest memory in arbitrary
/// chunks, then writing the same chunk ranges into a freshly bound memory
/// region reproduces `b` exactly, leaving the fresh region's remainder as
/// it was.
pub proof fn lemma_buffer_round_trip(v: EnvState, b: Seq<u8>, cuts: Seq<int>, fresh: Seq<u8>)
    requires
        valid_cuts(cuts, b.len() as int),
        v.memory is Some,
        b.len() <= v.memory->0.len(),
        v.memory->0.subrange(0, b.len() as int) == b,
        b.len() <= fresh.len(),
    ensures
        ({
            let staged = stage_chunks(clear_bytes_state(v), cuts, 0);
            let written = write_chunks(set_memory_state(staged, fresh), cuts, 0);
            &&& staged.shared_bytes == b
            &&& written.memory is Some
            &&& written.memory->0.len() == fresh.len()
            &&& written.memory->0.subrange(0, b.len() as int) == b
            &&& forall|j: int|
                b.len() <= j < fresh.len() ==> #[trigger] written.memory->0[j] == fresh[j]
        }),
{
    let cleared = clear_bytes_state(v);
    assert(cleared.shared_bytes =~= b.subrange(0, 0));
    lemma_stage_chunks_exact(cleared, b, cuts, 0);
    let staged = stage_chunks(cleared, cuts, 0);
    let rebound = set_memory_state(staged, fresh);
    lemma_write_chunks_exact(rebound, cuts, 0);
    let written = write_chunks(rebound, cuts, 0);
    assert(written.memory->0.subrange(0, b.len() as int) =~= b);
}

/// Law: draining a result slot is idempotent. The first drain reports the
/// stored text's length and moves the text into the buffer; the slot is
/// then empty, so an immediate second drain reports length zero. The same
/// holds of the error-text slot.
pub proof fn lemma_slot_drain_idempotent(v: EnvState)
    ensures
        get_formatted_text_state(v).shared_bytes == v.formatted_text,
        get_formatted_text_state(v).formatted_text.len() == 0,
        get_formatted_text_state(get_formatted_text_state(v)).shared_bytes.len() == 0,
        get_error_text_state(v).shared_bytes == v.error_text,
        get_error_text_state(v).error_text.len() == 0,
        get_error_text_state(get_error_text_state(v)).shared_bytes.len() == 0,
{
}

/// Law: the active file path is consumed exactly once. A format call
/// clears the slot, and no primitive other than take-file-path fills it,
/// so a second format call without an intervening take-file-path finds no
/// path and is rejected as a missing precondition.
pub proof fn lemma_file_path_take_once(
    v: EnvState,
    m: Seq<u8>,
    ptr: nat,
    off: nat,
    len: nat,
    o: OutcomeState,
)
    ensures
        begin_format_state(v).file_path is None,
        set_memory_state(v, m).file_path == v.file_path,
        clear_bytes_state(v).file_path == v.file_path,
        read_buffer_state(v, ptr, len).file_path == v.file_path,
        write_buffer_state(v, ptr, off, len).file_path == v.file_path,
        take_override_config_state(v).file_path == v.file_path,
        finish_format_state(v, o).file_path == v.file_path,
        get_formatted_text_state(v).file_path == v.file_path,
        get_error_text_state(v).file_path == v.file_path,
{
}

/// Law: the result slots are mutually exclusive outcomes of one format
/// call. Exactly one of them is non-empty after a call reports status 1
/// or 2, and both are empty after status 0; no status other than 0, 1, 2
/// occurs. Outcomes that carry an empty payload stage nothing retrievable
/// and are left out.
pub proof fn lemma_status_exclusivity(v: EnvState, o: OutcomeState)
    requires
        o matches OutcomeState::Changed(t) ==> t.len() > 0,
        o matches OutcomeState::Failed(e) ==> e.len() > 0,
    ensures
        status_of(o) == 0 || status_of(o) == 1 || status_of(o) == 2,
        status_of(o) == 0 ==> finish_format_state(v, o).formatted_text.len() == 0
            && finish_format_state(v, o).error_text.len() == 0,
        status_of(o) == 1 ==> finish_format_state(v, o).formatted_text.len() > 0
            && finish_format_state(v, o).error_text.len() == 0,
        status_of(o) == 2 ==> finish_format_state(v, o).error_text.len() > 0
            && finish_format_state(v, o).formatted_text.len() == 0,
{
}

/// Law: after a format call has consumed the staged path and text, the
/// consumed slots are empty, so nothing staged for one call can leak into
/// the next.
pub proof fn lemma_begin_format_consumes_all(v: EnvState)
    requires
        v.file_path is Some,
        is_utf8(v.shared_bytes),
    ensures
        begin_format_state(v).file_path is None,
        begin_format_state(v).override_config is None,
        begin_format_state(v).shared_bytes.len() == 0,
{
}

} // verus!
