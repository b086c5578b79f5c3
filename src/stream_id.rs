use vstd::prelude::*;

verus! {

/// Number of streams one session can open: the counter fills the low 16 bits.
pub const STREAM_COUNTER_LIMIT: u32 = 0x10000;

/// The id the daemon knows a stream by: the session id in the high 16 bits,
/// the session's stream counter in the low 16 bits.
pub open spec fn stream_id_of(client_id: u32, counter: u32) -> u32 {
    ((client_id << 16u32) | counter) as u32
}

/// Composes the daemon-side stream id from a session id and a stream counter.
pub fn server_stream_id(client_id: u32, counter: u32) -> (r: u32)
    ensures
        r == stream_id_of(client_id, counter),
        counter < STREAM_COUNTER_LIMIT ==> r & 0xffff == counter,
        counter < STREAM_COUNTER_LIMIT ==> r >> 16u32 == client_id & 0xffff,
{
    let r = (client_id << 16u32) | counter;
    proof {
        if counter < STREAM_COUNTER_LIMIT {
            assert(((client_id << 16u32) | counter) & 0xffff == counter) by (bit_vector)
                requires
                    counter < 0x10000u32,
            ;
            assert(((client_id << 16u32) | counter) >> 16u32 == client_id & 0xffff)
                by (bit_vector)
                requires
                    counter < 0x10000u32,
            ;
        }
    }
    r
}

/// Within one session, a later counter value gives a larger stream id: ids
/// issued in order never repeat.
pub proof fn lemma_stream_ids_increase(client_id: u32, a: u32, b: u32)
    requires
        a < b,
        b < STREAM_COUNTER_LIMIT,
    ensures
        stream_id_of(client_id, a) < stream_id_of(client_id, b),
{
    assert(((client_id << 16u32) | a) < ((client_id << 16u32) | b)) by (bit_vector)
        requires
            a < b,
            b < 0x10000u32,
    ;
}

} // verus!
