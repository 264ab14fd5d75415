//! Building and decoding the 16-byte wire frame.
//!
//! Layout: byte 0 reserved (0), byte 1 destination, byte 2 source, byte 3
//! protocol version, byte 4 hop count, byte 5 opcode, bytes 6-13 the 8-byte
//! payload, byte 14 the checksum, byte 15 reserved (0).

use vstd::prelude::*;
use crate::checksum::{checksum, checksum_spec};

verus! {

/// The logical fields of an outgoing frame.
#[derive(Debug, Clone, Copy)]
pub struct MsgBuilder {
    pub to: u8,
    pub from: u8,
    pub hops: u8,
    pub version: u8,
    pub opcode: u8,
    pub l7_sdu: [u8; 8],
}

/// The 13 bytes the checksum covers: the addressing header followed by the
/// payload.
pub open spec fn header_bytes(b: MsgBuilder) -> Seq<u8> {
    seq![b.to, b.from, b.version, b.hops, b.opcode] + b.l7_sdu@
}

/// The full 16-byte frame for the given fields and checksum byte.
pub open spec fn frame_bytes(b: MsgBuilder, ck: u8) -> Seq<u8> {
    seq![0u8] + header_bytes(b) + seq![ck, 0u8]
}

/// The frame `build` produces: the fields framed with their own checksum.
pub open spec fn encoded_frame(b: MsgBuilder) -> Seq<u8> {
    frame_bytes(b, checksum_spec(header_bytes(b)))
}

impl MsgBuilder {
    /// A builder for a single-node origin: source address and hop count 0,
    /// protocol version 4.
    pub fn new(to: u8, opcode: u8, l7_sdu: [u8; 8]) -> (r: Self)
        ensures
            r.to == to,
            r.from == 0,
            r.version == 4,
            r.hops == 0,
            r.opcode == opcode,
            r.l7_sdu == l7_sdu,
    {
        Self { to, from: 0, version: 4, hops: 0, opcode, l7_sdu }
    }

    /// Encode the fields as a 16-byte frame, computing the checksum over the
    /// header and payload.
    pub fn build(self) -> (r: [u8; 16])
        ensures
            r@ == encoded_frame(self),
    {
        let mut covered: Vec<u8> = Vec::new();
        covered.push(self.to);
        covered.push(self.from);
        covered.push(self.version);
        covered.push(self.hops);
        covered.push(self.opcode);
        covered.push(self.l7_sdu[0]);
        covered.push(self.l7_sdu[1]);
        covered.push(self.l7_sdu[2]);
        covered.push(self.l7_sdu[3]);
        covered.push(self.l7_sdu[4]);
        covered.push(self.l7_sdu[5]);
        covered.push(self.l7_sdu[6]);
        covered.push(self.l7_sdu[7]);
        assert(covered@ =~= header_bytes(self));
        let check_sum: u8 = checksum(covered.as_slice());
        self.build_with_checksum(check_sum)
    }

    /// Lay the fields and a caller-supplied checksum byte out in wire order.
    pub fn build_with_checksum(self, check_sum: u8) -> (r: [u8; 16])
        ensures
            r@ == frame_bytes(self, check_sum),
    {
        let r: [u8; 16] = [
            0,
            self.to,
            self.from,
            self.version,
            self.hops,
            self.opcode,
            self.l7_sdu[0],
            self.l7_sdu[1],
            self.l7_sdu[2],
            self.l7_sdu[3],
            self.l7_sdu[4],
            self.l7_sdu[5],
            self.l7_sdu[6],
            self.l7_sdu[7],
            check_sum,
            0,
        ];
        assert(r@ =~= frame_bytes(self, check_sum));
        r
    }
}

/// Read the named fields back out of a 16-byte frame: the builder fields and
/// the checksum byte as they stand on the wire.
pub fn decode(bytes: &[u8; 16]) -> (r: (MsgBuilder, u8))
    ensures
        r.0.to == bytes@[1],
        r.0.from == bytes@[2],
        r.0.version == bytes@[3],
        r.0.hops == bytes@[4],
        r.0.opcode == bytes@[5],
        r.0.l7_sdu@ == bytes@.subrange(6, 14),
        r.1 == bytes@[14],
{
    let l7_sdu: [u8; 8] = [
        bytes[6],
        bytes[7],
        bytes[8],
        bytes[9],
        bytes[10],
        bytes[11],
        bytes[12],
        bytes[13],
    ];
    assert(l7_sdu@ =~= bytes@.subrange(6, 14));
    let b = MsgBuilder {
        to: bytes[1],
        from: bytes[2],
        version: bytes[3],
        hops: bytes[4],
        opcode: bytes[5],
        l7_sdu,
    };
    (b, bytes[14])
}

/// A frame holds its fields where the layout says: it is 16 bytes long, the
/// reserved bytes at offsets 0 and 15 are 0, offset 1 is the destination,
/// offset 5 the opcode, offsets 6-13 the payload, offset 14 the checksum
/// byte.
pub proof fn lemma_frame_layout(b: MsgBuilder, ck: u8)
    ensures
        frame_bytes(b, ck).len() == 16,
        frame_bytes(b, ck)[0] == 0,
        frame_bytes(b, ck)[15] == 0,
        frame_bytes(b, ck)[1] == b.to,
        frame_bytes(b, ck)[2] == b.from,
        frame_bytes(b, ck)[3] == b.version,
        frame_bytes(b, ck)[4] == b.hops,
        frame_bytes(b, ck)[5] == b.opcode,
        frame_bytes(b, ck).subrange(6, 14) == b.l7_sdu@,
        frame_bytes(b, ck)[14] == ck,
{
    assert(frame_bytes(b, ck).subrange(6, 14) =~= b.l7_sdu@);
}

/// Decoding an encoded frame recovers the destination, opcode and payload
/// unchanged; source, version and hop count come back as the constants the
/// builder wrote.
pub proof fn lemma_round_trip(b: MsgBuilder)
    ensures
        encoded_frame(b)[1] == b.to,
        encoded_frame(b)[2] == b.from,
        encoded_frame(b)[3] == b.version,
        encoded_frame(b)[4] == b.hops,
        encoded_frame(b)[5] == b.opcode,
        encoded_frame(b).subrange(6, 14) == b.l7_sdu@,
        encoded_frame(b)[14] == checksum_spec(header_bytes(b)),
{
    lemma_frame_layout(b, checksum_spec(header_bytes(b)));
}

/// Encoding is a function of the logical fields alone: two frames built from
/// the same fields are byte-identical.
pub proof fn lemma_encode_deterministic(f1: Seq<u8>, f2: Seq<u8>, b: MsgBuilder)
    requires
        f1 == encoded_frame(b),
        f2 == encoded_frame(b),
    ensures
        f1 == f2,
{
}

} // verus!
