//! The save-state envelope: a 12-byte header (magic, format version, model
//! tag, two reserved bytes, little-endian payload length) followed by the
//! emulator's serialized state, padded with zeros to the frontend's buffer.

use vstd::prelude::*;
use crate::machine::{MachineModel, model_tag, machine_model_tag};

verus! {

/// The fixed buffer size advertised to the frontend for save states.
pub const SERIALIZATION_BUFFER_SIZE: usize = 1048576;
/// The length of the envelope header.
pub const SERIALIZATION_HEADER_SIZE: usize = 12;
/// The envelope format version.
pub const SERIALIZATION_FORMAT_VERSION: u8 = 1;

/// The magic bytes `WQXS` that open every envelope.
pub open spec fn magic() -> Seq<u8> {
    seq![0x57u8, 0x51u8, 0x58u8, 0x53u8]
}

/// The little-endian bytes of a 32-bit length.
pub open spec fn le32(n: u32) -> Seq<u8> {
    seq![
        (n % 256) as u8,
        ((n / 256) % 256) as u8,
        ((n / 65536) % 256) as u8,
        ((n / 16777216) % 256) as u8,
    ]
}

/// The value of four little-endian bytes.
pub open spec fn le32_value(b: Seq<u8>) -> int {
    b[0] + b[1] * 256 + b[2] * 65536 + b[3] * 16777216
}

/// The header of an envelope that holds `len` payload bytes for `model`.
pub open spec fn envelope_header(model: MachineModel, len: u32) -> Seq<u8> {
    magic() + seq![SERIALIZATION_FORMAT_VERSION, model_tag(model), 0u8, 0u8] + le32(len)
}

/// Zero padding of length `n`.
pub open spec fn zeros(n: nat) -> Seq<u8> {
    Seq::new(n, |i: int| 0u8)
}

/// The payload that `data` carries for `model`, if it is a valid envelope.
pub open spec fn envelope_payload(model: MachineModel, data: Seq<u8>) -> Option<Seq<u8>> {
    if data.len() < 12 || data.subrange(0, 4) != magic() || data[4] != SERIALIZATION_FORMAT_VERSION
        || data[5] != model_tag(model) {
        None
    } else {
        let size = le32_value(data.subrange(8, 12));
        if 12 + size <= data.len() {
            Some(data.subrange(12, 12 + size))
        } else {
            None
        }
    }
}

proof fn lemma_le32_round_trip(n: u32)
    ensures
        le32_value(le32(n)) == n,
{
    let b = le32(n);
    assert(b[0] + b[1] * 256 + b[2] * 65536 + b[3] * 16777216 == n) by (nonlinear_arith)
        requires
            b[0] == n % 256,
            b[1] == (n / 256) % 256,
            b[2] == (n / 65536) % 256,
            b[3] == (n / 16777216) % 256,
    ;
}

fn le32_bytes(n: u32) -> (r: [u8; 4])
    ensures
        r@ == le32(n),
{
    let r = [(n % 256) as u8, ((n / 256) % 256) as u8, ((n / 65536) % 256) as u8, ((n / 16777216) % 256) as u8];
    assert(r@ =~= le32(n));
    r
}

fn write_header(output: &mut [u8], model: MachineModel, size: u32)
    requires
        old(output)@.len() >= 12,
        old(output)@[6] == 0,
        old(output)@[7] == 0,
    ensures
        final(output)@.len() == old(output)@.len(),
        final(output)@.subrange(0, 12) == envelope_header(model, size),
        forall|j: int| 12 <= j < old(output)@.len() ==> final(output)@[j] == old(output)@[j],
{
    output[0] = 0x57;
    output[1] = 0x51;
    output[2] = 0x58;
    output[3] = 0x53;
    output[4] = SERIALIZATION_FORMAT_VERSION;
    output[5] = machine_model_tag(model);
    let size_bytes = le32_bytes(size);
    output[8] = size_bytes[0];
    output[9] = size_bytes[1];
    output[10] = size_bytes[2];
    output[11] = size_bytes[3];
    assert(output@.subrange(0, 12) =~= envelope_header(model, size));
}

/// Write `payload` into `output` as an envelope for `model`, zero-filling the
/// rest of the buffer. Fails, leaving `output` untouched, when the payload
/// length does not fit in 32 bits or the envelope does not fit in `output`.
pub fn write_serialized_state(model: MachineModel, payload: &[u8], output: &mut [u8]) -> (ok: bool)
    ensures
        ok <==> payload@.len() <= u32::MAX && 12 + payload@.len() <= old(output)@.len(),
        ok ==> final(output)@ == envelope_header(model, payload@.len() as u32) + payload@ + zeros(
            (old(output)@.len() - 12 - payload@.len()) as nat,
        ),
        !ok ==> final(output)@ == old(output)@,
{
    if payload.len() > 4294967295usize {
        return false;
    }
    let payload_size: u32 = payload.len() as u32;
    if payload.len() > output.len() || output.len() - payload.len() < SERIALIZATION_HEADER_SIZE {
        return false;
    }
    let required_size = SERIALIZATION_HEADER_SIZE + payload.len();
    let ghost n = output@.len();
    let mut i: usize = 0;
    while i < output.len()
        invariant
            output@.len() == n,
            i <= n,
            forall|j: int| 0 <= j < i ==> output@[j] == 0,
        decreases n - i,
    {
        output[i] = 0;
        i = i + 1;
    }
    write_header(output, model, payload_size);
    let mut k: usize = 0;
    while k < payload.len()
        invariant
            output@.len() == n,
            required_size == 12 + payload@.len(),
            required_size <= n,
            k <= payload@.len(),
            output@.subrange(0, 12) == envelope_header(model, payload_size),
            forall|j: int| 0 <= j < k ==> output@[12 + j] == payload@[j],
            forall|j: int| required_size <= j < n ==> output@[j] == 0,
        decreases payload@.len() - k,
    {
        output[SERIALIZATION_HEADER_SIZE + k] = payload[k];
        k = k + 1;
    }
    proof {
        let expected = envelope_header(model, payload_size) + payload@ + zeros((n - required_size) as nat);
        assert forall|j: int| 0 <= j < n implies output@[j] == expected[j] by {
            if j < 12 {
                assert(output@[j] == output@.subrange(0, 12)[j]);
            } else if j < required_size {
                assert(output@[12 + (j - 12)] == payload@[j - 12]);
            }
        }
        assert(output@ =~= expected);
    }
    true
}

/// The payload of a save-state envelope written for `model`, if `data` is one.
pub fn serialized_state_payload<'a>(model: MachineModel, data: &'a [u8]) -> (r: Option<&'a [u8]>)
    ensures
        match (r, envelope_payload(model, data@)) {
            (Some(p), Some(q)) => p@ == q,
            (None, None) => true,
            _ => false,
        },
{
    if data.len() < SERIALIZATION_HEADER_SIZE || data[0] != 0x57 || data[1] != 0x51 || data[2] != 0x58
        || data[3] != 0x53 || data[4] != SERIALIZATION_FORMAT_VERSION || data[5] != machine_model_tag(model) {
        proof {
            if data@.len() >= 12 && data@.subrange(0, 4) == magic() {
                assert(data@[0] == data@.subrange(0, 4)[0]);
                assert(data@[1] == data@.subrange(0, 4)[1]);
                assert(data@[2] == data@.subrange(0, 4)[2]);
                assert(data@[3] == data@.subrange(0, 4)[3]);
            }
        }
        return None;
    }
    assert(data@.subrange(0, 4) =~= magic());
    let payload_size: u64 = (data[8] as u64) + (data[9] as u64) * 256 + (data[10] as u64) * 65536 + (data[11] as u64) * 16777216;
    assert(payload_size == le32_value(data@.subrange(8, 12)));
    if payload_size > (data.len() - SERIALIZATION_HEADER_SIZE) as u64 {
        return None;
    }
    let end = SERIALIZATION_HEADER_SIZE + payload_size as usize;
    Some(&data[SERIALIZATION_HEADER_SIZE..end])
}

/// Law: an envelope written for a model gives back exactly the payload that
/// was written, whatever padding the rest of the buffer holds.
pub proof fn lemma_envelope_round_trip(model: MachineModel, payload: Seq<u8>, padding: nat)
    requires
        payload.len() <= u32::MAX,
    ensures
        envelope_payload(model, envelope_header(model, payload.len() as u32) + payload + zeros(padding))
            == Some(payload),
{
    let len = payload.len() as u32;
    let data = envelope_header(model, len) + payload + zeros(padding);
    lemma_le32_round_trip(len);
    assert(data.subrange(0, 4) =~= magic());
    assert(data.subrange(8, 12) =~= le32(len));
    assert(data.subrange(12, 12 + payload.len() as int) =~= payload);
}

/// Law: an envelope written for one model is refused for any other model.
pub proof fn lemma_envelope_rejects_other_model(
    written: MachineModel,
    read: MachineModel,
    payload: Seq<u8>,
    padding: nat,
)
    requires
        written != read,
        payload.len() <= u32::MAX,
    ensures
        envelope_payload(read, envelope_header(written, payload.len() as u32) + payload + zeros(padding))
            is None,
{
    let data = envelope_header(written, payload.len() as u32) + payload + zeros(padding);
    assert(data[5] == model_tag(written));
}

} // verus!
