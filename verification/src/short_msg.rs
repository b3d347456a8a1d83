//! A concrete schema type: the networking PDU of a short-message protocol,
//! with its registry entry.
//!
//! The message is a sequence of a network-layer choice (carrying a protocol
//! version), a transport-layer choice (carrying a variable-length destination
//! address), and an opaque octet-string body. Its packed image is one byte
//! per header field followed by the body: the version (at most 15), the
//! destination address (at most 127, the top bit marks an extension and is
//! never set for the plain form), and the body length (at most 255), then
//! the body octets themselves.

use vstd::prelude::*;

use crate::registry::ASN1GenType;

verus! {

/// Network-layer information carrying only the protocol version.
#[derive(Debug)]
pub struct NullNetworking {
    pub version: i64,
}

/// The network-layer choice of the message.
#[derive(Debug)]
pub enum ShortMsgSubtype {
    NullNetworking(NullNetworking),
}

/// A number packed into a single octet whose top bit is reserved for an
/// extension marker; the plain form carries a value of at most 127.
#[derive(Debug)]
pub enum VarLengthNumber {
    Content(i64),
}

/// The broadcast-mode transport PDU: where the message is going.
#[derive(Debug)]
pub struct ShortMsgBcPDU {
    pub dest_address: VarLengthNumber,
}

/// The transport-layer choice of the message.
#[derive(Debug)]
pub enum ShortMsgTpdus {
    BcMode(ShortMsgBcPDU),
}

/// The networking PDU: network-layer choice, transport-layer choice, and an
/// opaque octet-string body.
#[derive(Debug)]
pub struct ShortMsgNpdu {
    pub subtype: ShortMsgSubtype,
    pub transport: ShortMsgTpdus,
    pub body: Vec<u8>,
}

impl ShortMsgNpdu {
    /// The protocol version carried by the network-layer choice.
    pub open spec fn spec_version(&self) -> i64 {
        match self.subtype {
            ShortMsgSubtype::NullNetworking(n) => n.version,
        }
    }

    /// The destination address carried by the transport-layer choice.
    pub open spec fn spec_dest_address(&self) -> i64 {
        match self.transport {
            ShortMsgTpdus::BcMode(b) => match b.dest_address {
                VarLengthNumber::Content(c) => c,
            },
        }
    }

    /// The protocol version, as an executable read.
    pub fn version(&self) -> (r: i64)
        ensures
            r == self.spec_version(),
    {
        match &self.subtype {
            ShortMsgSubtype::NullNetworking(n) => n.version,
        }
    }

    /// The destination address, as an executable read.
    pub fn dest_address(&self) -> (r: i64)
        ensures
            r == self.spec_dest_address(),
    {
        match &self.transport {
            ShortMsgTpdus::BcMode(b) => match &b.dest_address {
                VarLengthNumber::Content(c) => *c,
            },
        }
    }
}

impl ASN1GenType for ShortMsgNpdu {
    type Model = (i64, i64, Seq<u8>);

    open spec fn model(&self) -> (i64, i64, Seq<u8>) {
        (self.spec_version(), self.spec_dest_address(), self.body@)
    }

    proof fn lemma_encoding_determines_model(v: &Self, w: &Self) {
        let ev = v.uper_encoding();
        let ew = w.uper_encoding();
        assert(ev[0] == v.spec_version() as u8);
        assert(ew[0] == w.spec_version() as u8);
        assert(v.spec_version() == w.spec_version());
        assert(ev[1] == v.spec_dest_address() as u8);
        assert(ew[1] == w.spec_dest_address() as u8);
        assert(v.spec_dest_address() == w.spec_dest_address());
        assert(ev.len() == 3 + v.body@.len());
        assert(ew.len() == 3 + w.body@.len());
        assert(v.body@ =~= w.body@) by {
            assert(forall|k: int| 0 <= k < v.body@.len() ==> v.body@[k] == ev[3 + k]);
            assert(forall|k: int| 0 <= k < w.body@.len() ==> w.body@[k] == ew[3 + k]);
        }
    }

    open spec fn uper_encodable(&self) -> bool {
        &&& 0 <= self.spec_version() <= 15
        &&& 0 <= self.spec_dest_address() <= 127
        &&& self.body@.len() <= 255
    }

    open spec fn uper_encoding(&self) -> Seq<u8> {
        seq![
            self.spec_version() as u8,
            self.spec_dest_address() as u8,
            self.body@.len() as u8,
        ] + self.body@
    }

    fn uper_encode(&self, buffer: &mut Vec<u8>) -> (r: Option<usize>) {
        let version: i64 = match &self.subtype {
            ShortMsgSubtype::NullNetworking(n) => n.version,
        };
        let dest: i64 = match &self.transport {
            ShortMsgTpdus::BcMode(b) => match &b.dest_address {
                VarLengthNumber::Content(c) => *c,
            },
        };
        proof {
            assert(version == self.spec_version());
            assert(dest == self.spec_dest_address());
            assert(self.uper_encoding().len() == 3 + self.body@.len());
        }
        if version < 0 || version > 15 {
            return None;
        }
        if dest < 0 || dest > 127 {
            return None;
        }
        if self.body.len() > 255 {
            return None;
        }
        let total: usize = 3 + self.body.len();
        if buffer.len() < total {
            return None;
        }
        buffer[0] = version as u8;
        buffer[1] = dest as u8;
        buffer[2] = self.body.len() as u8;
        let mut i: usize = 0;
        while i < self.body.len()
            invariant
                i <= self.body@.len(),
                self.body@.len() <= 255,
                total == 3 + self.body@.len(),
                buffer@.len() == old(buffer)@.len(),
                buffer@.len() >= total,
                buffer@[0] == self.spec_version() as u8,
                buffer@[1] == self.spec_dest_address() as u8,
                buffer@[2] == self.body@.len() as u8,
                forall|k: int| 0 <= k < i ==> buffer@[3 + k] == self.body@[k],
            decreases self.body@.len() - i,
        {
            buffer[3 + i] = self.body[i];
            i = i + 1;
        }
        proof {
            assert(buffer@.subrange(0, total as int) =~= self.uper_encoding());
        }
        Some(total)
    }

    fn uper_decode(bytes: &[u8]) -> (r: Option<Self>) {
        if bytes.len() < 3 {
            proof {
                if exists|v: Self| v.uper_encodable() && v.uper_encoding() == bytes@ {
                    let v = choose|v: Self| v.uper_encodable() && v.uper_encoding() == bytes@;
                    assert(v.uper_encoding().len() == 3 + v.body@.len());
                    assert(false);
                }
            }
            return None;
        }
        let version_byte = bytes[0];
        let dest_byte = bytes[1];
        let len_byte = bytes[2];
        if version_byte > 15 {
            proof {
                if exists|v: Self| v.uper_encodable() && v.uper_encoding() == bytes@ {
                    let v = choose|v: Self| v.uper_encodable() && v.uper_encoding() == bytes@;
                    assert(v.uper_encoding()[0] == v.spec_version() as u8);
                    assert(false);
                }
            }
            return None;
        }
        if dest_byte > 127 {
            proof {
                if exists|v: Self| v.uper_encodable() && v.uper_encoding() == bytes@ {
                    let v = choose|v: Self| v.uper_encodable() && v.uper_encoding() == bytes@;
                    assert(v.uper_encoding()[1] == v.spec_dest_address() as u8);
                    assert(false);
                }
            }
            return None;
        }
        let body_len: usize = len_byte as usize;
        if bytes.len() != 3 + body_len {
            proof {
                if exists|v: Self| v.uper_encodable() && v.uper_encoding() == bytes@ {
                    let v = choose|v: Self| v.uper_encodable() && v.uper_encoding() == bytes@;
                    assert(v.uper_encoding().len() == 3 + v.body@.len());
                    assert(v.uper_encoding()[2] == v.body@.len() as u8);
                    assert(false);
                }
            }
            return None;
        }
        let mut body: Vec<u8> = Vec::new();
        let mut i: usize = 3;
        while i < bytes.len()
            invariant
                3 <= i <= bytes@.len(),
                body@.len() == i - 3,
                forall|k: int| 0 <= k < body@.len() ==> body@[k] == bytes@[3 + k],
            decreases bytes@.len() - i,
        {
            body.push(bytes[i]);
            i = i + 1;
        }
        let msg = ShortMsgNpdu {
            subtype: ShortMsgSubtype::NullNetworking(
                NullNetworking { version: version_byte as i64 },
            ),
            transport: ShortMsgTpdus::BcMode(
                ShortMsgBcPDU { dest_address: VarLengthNumber::Content(dest_byte as i64) },
            ),
            body,
        };
        proof {
            assert(msg.uper_encoding() =~= bytes@);
        }
        Some(msg)
    }
}

/// Round trip, closed field for field for this schema type: two encodable
/// messages with the same packed image agree on every choice and on the body
/// octets, so the value a successful decode of an encoding returns is the
/// encoded value itself, field for field.
pub proof fn lemma_short_msg_npdu_encoding_injective(v: ShortMsgNpdu, w: ShortMsgNpdu)
    requires
        v.uper_encodable(),
        w.uper_encodable(),
        v.uper_encoding() == w.uper_encoding(),
    ensures
        v.subtype == w.subtype,
        v.transport == w.transport,
        v.body@ == w.body@,
{
    ShortMsgNpdu::lemma_encoding_determines_model(&v, &w);
    match v.subtype {
        ShortMsgSubtype::NullNetworking(nv) => match w.subtype {
            ShortMsgSubtype::NullNetworking(nw) => {
                assert(nv.version == nw.version);
            },
        },
    }
    match v.transport {
        ShortMsgTpdus::BcMode(bv) => match w.transport {
            ShortMsgTpdus::BcMode(bw) => {
                match bv.dest_address {
                    VarLengthNumber::Content(cv) => match bw.dest_address {
                        VarLengthNumber::Content(cw) => {
                            assert(cv == cw);
                        },
                    },
                }
            },
        },
    }
}

} // verus!
