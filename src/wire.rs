use vstd::prelude::*;
use vstd::utf8::encode_utf8;
use crate::client::ExtendRequest;

verus! {

/// Protocol Buffers base-128 varint of `n`: low groups of seven bits first,
/// the high bit set on every byte but the last.
pub open spec fn varint(n: u64) -> Seq<u8>
    decreases n,
{
    if n < 128 {
        seq![n as u8]
    } else {
        seq![((n % 128) + 128) as u8] + varint(n / 128)
    }
}

/// A length-delimited field with key byte `key`; proto3 leaves out an empty one.
pub open spec fn bytes_field(key: u8, b: Seq<u8>) -> Seq<u8> {
    if b.len() == 0 {
        Seq::empty()
    } else {
        seq![key] + varint(b.len() as u64) + b
    }
}

/// The encoded extend request: `Domain` = 1, `Operation` = 2, `Content` = 3
/// (strings), `RegisterIndex` = 4 (optional uint64, present only when set).
pub open spec fn extend_request_bytes(req: ExtendRequest) -> Seq<u8> {
    bytes_field(0x0a, encode_utf8(req.domain@)) + bytes_field(0x12, encode_utf8(req.operation@))
        + bytes_field(0x1a, encode_utf8(req.content@)) + match req.register_index {
        Some(i) => seq![0x20u8] + varint(i),
        None => Seq::<u8>::empty(),
    }
}

/// Appends the varint of `n`.
fn push_varint(out: &mut Vec<u8>, n: u64)
    ensures
        final(out)@ == old(out)@ + varint(n),
{
    let mut v: u64 = n;
    while v >= 128
        invariant
            out@ + varint(v) == old(out)@ + varint(n),
        decreases v,
    {
        let b: u8 = ((v % 128) + 128) as u8;
        proof {
            assert(varint(v) == seq![b] + varint(v / 128));
            assert(out@.push(b) + varint(v / 128) =~= out@ + (seq![b] + varint(v / 128)));
        }
        out.push(b);
        v = v / 128;
    }
    proof {
        assert(varint(v) == seq![v as u8]);
        assert(out@.push(v as u8) =~= out@ + varint(v));
    }
    out.push(v as u8);
}

/// Appends a length-delimited field, or nothing for empty content.
fn push_bytes_field(out: &mut Vec<u8>, key: u8, b: &[u8])
    ensures
        final(out)@ == old(out)@ + bytes_field(key, b@),
{
    if b.len() == 0 {
        assert(old(out)@ + bytes_field(key, b@) =~= old(out)@);
        return;
    }
    out.push(key);
    push_varint(out, b.len() as u64);
    let ghost mid = out@;
    let mut i: usize = 0;
    while i < b.len()
        invariant
            i <= b@.len(),
            out@ == mid + b@.subrange(0, i as int),
        decreases b@.len() - i,
    {
        proof {
            assert(mid + b@.subrange(0, i + 1) =~= (mid + b@.subrange(0, i as int)).push(b@[i as int]));
        }
        out.push(b[i]);
        i += 1;
    }
    assert(b@.subrange(0, b@.len() as int) =~= b@);
    assert(old(out)@ + bytes_field(key, b@) =~= old(out)@.push(key) + varint(b@.len() as u64) + b@);
}

/// The bytes of the extend request as the binary channel carries them.
pub fn encode_extend_request(req: &ExtendRequest) -> (r: Vec<u8>)
    ensures
        r@ == extend_request_bytes(*req),
{
    let mut out: Vec<u8> = Vec::new();
    push_bytes_field(&mut out, 0x0a, req.domain.as_str().as_bytes());
    push_bytes_field(&mut out, 0x12, req.operation.as_str().as_bytes());
    push_bytes_field(&mut out, 0x1a, req.content.as_str().as_bytes());
    match req.register_index {
        Some(i) => {
            out.push(0x20);
            push_varint(&mut out, i);
        },
        None => {},
    }
    assert(out@ =~= extend_request_bytes(*req));
    out
}

} // verus!
