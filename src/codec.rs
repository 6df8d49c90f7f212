use vstd::prelude::*;

verus! {

/// 256 raised to `n`: the weight of a byte `n` places from the right.
pub open spec fn byte_weight(n: nat) -> nat
    decreases n,
{
    if n == 0 {
        1
    } else {
        256 * byte_weight((n - 1) as nat)
    }
}

/// The unsigned number that `s` spells in big-endian byte order.
pub open spec fn be_value(s: Seq<u8>) -> nat
    decreases s.len(),
{
    if s.len() == 0 {
        0
    } else {
        be_value(s.drop_last()) * 256 + s.last() as nat
    }
}

/// The `n` lowest bytes of `v`, most significant first.
pub open spec fn be_bytes(v: nat, n: nat) -> Seq<u8> {
    Seq::new(n, |i: int| ((v / byte_weight((n - 1 - i) as nat)) % 256) as u8)
}

/// Relies on echonet's `Bytes::to_u32`: it reads the bytes as one big-endian
/// number. With more than four bytes its shifts would overflow.
#[verifier::external_body]
fn bytes_to_u32(bytes: &Vec<u8>) -> (r: u32)
    requires
        bytes@.len() <= 4,
    ensures
        r as nat == be_value(bytes@),
{
    echonet::util::Bytes::to_u32(bytes.as_slice())
}

/// Relies on echonet's `Bytes::from_u32`: it fills the whole buffer with the
/// low bytes of `val`, most significant first. With more than four bytes its
/// shifts would overflow.
#[verifier::external_body]
fn bytes_from_u32(val: u32, bytes: &mut Vec<u8>)
    requires
        old(bytes)@.len() <= 4,
    ensures
        final(bytes)@ == be_bytes(val as nat, old(bytes)@.len()),
{
    echonet::util::Bytes::from_u32(val, bytes.as_mut_slice())
}

/// Decodes a property payload as a big-endian number; payloads wider than
/// four bytes have no such reading and give `None`.
pub fn decode_payload(data: &Vec<u8>) -> (r: Option<u32>)
    ensures
        data@.len() <= 4 ==> r is Some && r->Some_0 as nat == be_value(data@),
        data@.len() > 4 ==> r is None,
{
    if data.len() <= 4 {
        let v = bytes_to_u32(data);
        Some(v)
    } else {
        None
    }
}

/// Encodes `val` as a big-endian payload of `width` bytes.
pub fn encode_payload(val: u32, width: usize) -> (r: Vec<u8>)
    requires
        width <= 4,
    ensures
        r@ == be_bytes(val as nat, width as nat),
{
    let mut bytes: Vec<u8> = Vec::new();
    let mut i: usize = 0;
    while i < width
        invariant
            i <= width,
            bytes@.len() == i,
        decreases width - i,
    {
        bytes.push(0u8);
        i = i + 1;
    }
    bytes_from_u32(val, &mut bytes);
    bytes
}

} // verus!
