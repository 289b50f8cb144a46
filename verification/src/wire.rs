//! The Wiiload wire format: what one transfer writes, byte for byte.
//!
//! A transfer is header, then payload, then filename, over one ordered
//! stream. The spec functions here are the format's definition; the exec
//! functions build exactly those bytes or refuse with a typed error.

use vstd::prelude::*;
use crate::WiiloadError;
use crate::deflate::deflate_best;
use crate::deflate::deflate_of;

verus! {

/// The four magic bytes, ASCII "HAXX", that open every header.
pub open spec fn magic_spec() -> Seq<u8> {
    seq![0x48u8, 0x41u8, 0x58u8, 0x58u8]
}

/// The two protocol version bytes: major 0, minor 5.
pub open spec fn version_spec() -> Seq<u8> {
    seq![0x00u8, 0x05u8]
}

/// A 32-bit count as four big-endian bytes.
pub open spec fn be32_spec(n: u32) -> Seq<u8> {
    seq![
        ((n >> 24) & 0xff) as u8,
        ((n >> 16) & 0xff) as u8,
        ((n >> 8) & 0xff) as u8,
        (n & 0xff) as u8,
    ]
}

/// The filename as transmitted: exactly one trailing null byte, appended
/// only when the name does not already end with one.
pub open spec fn normalized_name(name: Seq<u8>) -> Seq<u8> {
    if name.len() > 0 && name.last() == 0u8 {
        name
    } else {
        name.push(0u8)
    }
}

/// Both counts the header carries fit their fields: the null-terminated
/// filename length in one byte, the transmitted payload length in 32 bits.
pub open spec fn sizes_ok(name: Seq<u8>, payload: Seq<u8>) -> bool {
    &&& normalized_name(name).len() <= 255
    &&& payload.len() <= u32::MAX
}

/// The fifteen header bytes: magic, version, filename length (null
/// terminator included), big-endian transmitted-payload size, big-endian
/// uncompressed size.
pub open spec fn header_spec(name_len: u8, payload_len: u32, uncompressed_size: u32) -> Seq<u8> {
    magic_spec() + version_spec() + seq![name_len] + be32_spec(payload_len)
        + be32_spec(uncompressed_size)
}

/// Every byte one transfer puts on the wire: header, then the transmitted
/// payload, then the null-terminated filename.
pub open spec fn wire_spec(name: Seq<u8>, payload: Seq<u8>, uncompressed_size: u32) -> Seq<u8> {
    header_spec(normalized_name(name).len() as u8, payload.len() as u32, uncompressed_size)
        + payload + normalized_name(name)
}

/// Header byte-exactness: whatever the filename, payload and uncompressed
/// size, the wire image opens with exactly the fifteen header bytes — magic,
/// version, filename length, big-endian payload size, big-endian
/// uncompressed size — and carries the payload and then the null-terminated
/// filename right behind them.
pub proof fn lemma_header_layout(name: Seq<u8>, payload: Seq<u8>, uncompressed_size: u32)
    requires
        sizes_ok(name, payload),
    ensures
        wire_spec(name, payload, uncompressed_size).len() == 15 + payload.len()
            + normalized_name(name).len(),
        wire_spec(name, payload, uncompressed_size).subrange(0, 4) == magic_spec(),
        wire_spec(name, payload, uncompressed_size).subrange(4, 6) == version_spec(),
        wire_spec(name, payload, uncompressed_size)[6] == normalized_name(name).len() as u8,
        wire_spec(name, payload, uncompressed_size).subrange(7, 11) == be32_spec(
            payload.len() as u32,
        ),
        wire_spec(name, payload, uncompressed_size).subrange(11, 15) == be32_spec(
            uncompressed_size,
        ),
        wire_spec(name, payload, uncompressed_size).subrange(15, 15 + payload.len() as int)
            == payload,
        wire_spec(name, payload, uncompressed_size).subrange(
            15 + payload.len() as int,
            wire_spec(name, payload, uncompressed_size).len() as int,
        ) == normalized_name(name),
{
    let n = normalized_name(name);
    let h = header_spec(n.len() as u8, payload.len() as u32, uncompressed_size);
    let w = wire_spec(name, payload, uncompressed_size);
    assert(h.len() == 15);
    assert(w.subrange(0, 4) =~= magic_spec());
    assert(w.subrange(4, 6) =~= version_spec());
    assert(w.subrange(7, 11) =~= be32_spec(payload.len() as u32));
    assert(w.subrange(11, 15) =~= be32_spec(uncompressed_size));
    assert(w.subrange(15, 15 + payload.len() as int) =~= payload);
    assert(w.subrange(15 + payload.len() as int, w.len() as int) =~= n);
}

/// Null-termination idempotence: normalizing a filename that already ends
/// with a null byte changes nothing, so a name never carries two
/// terminators.
pub proof fn lemma_normalize_idempotent(name: Seq<u8>)
    ensures
        normalized_name(normalized_name(name)) == normalized_name(name),
{
    if !(name.len() > 0 && name.last() == 0u8) {
        assert(name.push(0u8).last() == 0u8);
    }
}

/// A filename and its null-terminated form put identical bytes on the wire:
/// the transfer of `name` and the transfer of `name` with one trailing null
/// cannot be told apart by the receiver.
pub proof fn lemma_wire_null_insensitive(name: Seq<u8>, payload: Seq<u8>, uncompressed_size: u32)
    ensures
        wire_spec(normalized_name(name), payload, uncompressed_size) == wire_spec(
            name,
            payload,
            uncompressed_size,
        ),
{
    lemma_normalize_idempotent(name);
}

/// Appends a slice to a byte vector.
fn push_bytes(out: &mut Vec<u8>, bytes: &[u8])
    ensures
        final(out)@ == old(out)@ + bytes@,
{
    proof {
        assert(out@ =~= old(out)@ + bytes@.subrange(0, 0));
    }
    let mut i: usize = 0;
    while i < bytes.len()
        invariant
            i <= bytes@.len(),
            out@ == old(out)@ + bytes@.subrange(0, i as int),
        decreases bytes@.len() - i,
    {
        let b: u8 = bytes[i];
        out.push(b);
        proof {
            assert(bytes@.subrange(0, i + 1) =~= bytes@.subrange(0, i as int).push(b));
        }
        i = i + 1;
    }
    proof {
        assert(bytes@.subrange(0, bytes@.len() as int) =~= bytes@);
    }
}

/// Appends a 32-bit count as four big-endian bytes.
fn push_be32(out: &mut Vec<u8>, n: u32)
    ensures
        final(out)@ == old(out)@ + be32_spec(n),
{
    proof {
        assert((n >> 24) & 0xff < 256 && (n >> 16) & 0xff < 256 && (n >> 8) & 0xff < 256
            && n & 0xff < 256) by (bit_vector);
    }
    out.push(((n >> 24) & 0xff) as u8);
    out.push(((n >> 16) & 0xff) as u8);
    out.push(((n >> 8) & 0xff) as u8);
    out.push((n & 0xff) as u8);
    proof {
        assert(out@ =~= old(out)@ + be32_spec(n));
    }
}

/// Returns the filename as it goes on the wire: unchanged when it already
/// ends with a null byte, with one null byte appended otherwise.
pub fn normalize_filename(name: &[u8]) -> (r: Vec<u8>)
    ensures
        r@ == normalized_name(name@),
{
    let mut out: Vec<u8> = Vec::new();
    push_bytes(&mut out, name);
    proof {
        assert(out@ =~= name@);
    }
    if out.len() == 0 || out[out.len() - 1] != 0u8 {
        out.push(0u8);
    }
    out
}

/// Builds the full wire image of one transfer: header, payload, filename.
/// The payload goes out verbatim; the caller chooses what the uncompressed
/// size field says (zero on the uncompressed path, the original length on
/// the compressed path). Fails, without building anything, exactly when a
/// count would not fit its header field.
pub fn encode_transfer(filename: &[u8], body: &[u8], uncompressed_size: u32) -> (r: Result<
    Vec<u8>,
    WiiloadError,
>)
    ensures
        r is Ok <==> sizes_ok(filename@, body@),
        r matches Ok(wire) ==> wire@ == wire_spec(filename@, body@, uncompressed_size),
        r matches Err(e) ==> e is TryFromIntError,
{
    if body.len() > u32::MAX as usize {
        return Err(WiiloadError::TryFromIntError);
    }
    let payload_len: u32 = body.len() as u32;
    let name = normalize_filename(filename);
    if name.len() > 255 {
        return Err(WiiloadError::TryFromIntError);
    }
    let name_len: u8 = name.len() as u8;

    let mut out: Vec<u8> = Vec::new();
    out.push(0x48u8);
    out.push(0x41u8);
    out.push(0x58u8);
    out.push(0x58u8);
    out.push(0x00u8);
    out.push(0x05u8);
    out.push(name_len);
    proof {
        assert(out@ =~= magic_spec() + version_spec() + seq![name_len]);
    }
    push_be32(&mut out, payload_len);
    push_be32(&mut out, uncompressed_size);
    proof {
        assert(out@ =~= header_spec(name_len, payload_len, uncompressed_size));
    }
    push_bytes(&mut out, body);
    push_bytes(&mut out, name.as_slice());
    proof {
        assert(name_len == normalized_name(filename@).len() as u8);
        assert(payload_len == body@.len() as u32);
        assert(out@ =~= wire_spec(filename@, body@, uncompressed_size));
    }
    Ok(out)
}

/// The uncompressed path: the body goes out as it is, and the uncompressed
/// size field is zero — on the wire, zero there says "the payload is not
/// compressed" and the payload size field is the true length.
pub fn encode_plain(filename: &[u8], body: &[u8]) -> (r: Result<Vec<u8>, WiiloadError>)
    ensures
        r is Ok <==> sizes_ok(filename@, body@),
        r matches Ok(wire) ==> wire@ == wire_spec(filename@, body@, 0),
        r matches Err(e) ==> e is TryFromIntError,
{
    encode_transfer(filename, body, 0)
}

/// The compressed path: the body is DEFLATE-compressed at maximum level,
/// the compressed bytes go out as the payload, and both size fields are
/// filled truthfully — the payload size with the compressed length, the
/// uncompressed size with the body's original length.
pub fn encode_compressed(filename: &[u8], body: &[u8]) -> (r: Result<Vec<u8>, WiiloadError>)
    ensures
        r is Ok <==> body@.len() <= u32::MAX && sizes_ok(filename@, deflate_of(body@)),
        r matches Ok(wire) ==> wire@ == wire_spec(
            filename@,
            deflate_of(body@),
            body@.len() as u32,
        ),
        r matches Err(e) ==> e is TryFromIntError,
{
    if body.len() > u32::MAX as usize {
        return Err(WiiloadError::TryFromIntError);
    }
    let uncompressed_size: u32 = body.len() as u32;
    let compressed = deflate_best(body);
    encode_transfer(filename, compressed.as_slice(), uncompressed_size)
}

} // verus!
