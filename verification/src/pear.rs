//! Core data model: startup configuration, the device record kept in the
//! registry, and the fixed control-channel request header.

use vstd::prelude::*;
use crate::codec::{
    spec_u16_le, spec_u16_of_le, spec_u32_le, spec_u32_of_le, u16_le_byte, u16_of_le, u32_le_byte,
    u32_of_le,
};

verus! {

/// Startup flags. `DebugMode` selects extra logging and the debug port offset.
pub enum PeardFlags {
    DebugMode,
}

impl PeardFlags {
    /// The bit this flag occupies in the packed `flags` byte.
    pub fn mask(&self) -> (m: u8)
        ensures
            m == 1,
    {
        match self {
            PeardFlags::DebugMode => 1,
        }
    }
}

/// Immutable startup snapshot shared by every component. The bind address is
/// kept as its four IPv4 octets.
#[derive(Copy, Clone)]
pub struct PeardConfig {
    pub flags: u8,
    pub interface_addr: [u8; 4],
    pub interface_port: u16,
    pub discover_recv_timeout: u64,
    pub device_id: u32,
}

impl PeardConfig {
    /// Whether debug mode is switched on in the packed flags.
    pub open spec fn spec_debug_enabled(&self) -> bool {
        self.flags & 1 == 1
    }

    /// The port probes are broadcast to: the configured port, moved up by one
    /// in debug mode so a monitor can listen beside a running daemon.
    pub open spec fn spec_broadcast_port(&self) -> u16 {
        (self.interface_port + (self.flags & 1)) as u16
    }

    /// The configuration is usable: the debug port offset does not push the
    /// broadcast port past the largest port number.
    pub open spec fn wf(&self) -> bool {
        self.interface_port + (self.flags & 1) <= u16::MAX
    }

    /// Whether debug mode is switched on.
    pub fn debug_enabled(&self) -> (b: bool)
        ensures
            b == self.spec_debug_enabled(),
    {
        self.flags & 1 == 1
    }

    /// The port probes are broadcast to.
    pub fn broadcast_port(&self) -> (p: u16)
        requires
            self.wf(),
        ensures
            p == self.spec_broadcast_port(),
    {
        let offset: u8 = self.flags & 1;
        proof {
            let f = self.flags;
            assert(f & 1 <= 1) by (bit_vector);
        }
        self.interface_port + offset as u16
    }
}

/// A discovered peer. The id is peer-chosen; the address is the four IPv4
/// octets of the connection that registered the peer. `name` and `pbl_key`
/// are reserved and stay zero.
#[derive(Copy, Clone)]
pub struct Device {
    pub id: u32,
    pub name: [u8; 20],
    pub name_len: u8,
    pub ip_addr: [u8; 4],
    pub pbl_key: u64,
}

/// The reserved all-zero name field of a freshly seen device.
pub open spec fn spec_zero_name() -> [u8; 20] {
    vstd::array::spec_array_fill_for_copy_type(0u8)
}

/// The device record made for a newly seen peer: the given id and address,
/// reserved fields zero.
pub open spec fn spec_new_device(id: u32, addr: [u8; 4]) -> Device {
    Device { id, name: spec_zero_name(), name_len: 0, ip_addr: addr, pbl_key: 0 }
}

/// The 25-byte pipe image of a device: little-endian id at 0..4, name length
/// at 4, name bytes at 5..25.
pub open spec fn spec_device_pipe(d: Device) -> Seq<u8> {
    spec_u32_le(d.id) + seq![d.name_len] + d.name@
}

impl Device {
    /// A record for a newly seen peer.
    pub fn new(id: u32, addr: [u8; 4]) -> (d: Device)
        ensures
            d == spec_new_device(id, addr),
    {
        Device {
            id: id,
            name: vstd::array::array_fill_for_copy_types(0u8),
            name_len: 0,
            ip_addr: addr,
            pbl_key: 0,
        }
    }

    /// The fixed 25-byte image written onto the control channel for this
    /// device: id (little-endian) at bytes 0..4, name length at byte 4,
    /// name at bytes 5..25.
    pub fn to_pipe(&self) -> (buf: [u8; 25])
        ensures
            buf@ == spec_device_pipe(*self),
    {
        let mut buf = [0u8; 25];
        buf[0] = u32_le_byte(self.id, 0);
        buf[1] = u32_le_byte(self.id, 1);
        buf[2] = u32_le_byte(self.id, 2);
        buf[3] = u32_le_byte(self.id, 3);
        buf[4] = self.name_len;
        let mut i: usize = 0;
        while i < 20
            invariant
                i <= 20,
                buf@.len() == 25,
                buf@.subrange(0, 4) =~= spec_u32_le(self.id),
                buf@[4] == self.name_len,
                forall|j: int| 0 <= j < i ==> buf@[5 + j] == self.name@[j],
            decreases 20 - i,
        {
            buf[5 + i] = self.name[i];
            i = i + 1;
        }
        assert(buf@ =~= spec_device_pipe(*self));
        buf
    }
}

/// The fixed 8-byte control-channel request header. On the wire: `d_type` at
/// byte 0, `r_flag` at byte 1, `target_id` little-endian at bytes 2..6,
/// `p_len` little-endian at bytes 6..8.
pub struct PipeHeader {
    pub d_type: u8,
    pub r_flag: u8,
    pub target_id: u32,
    pub p_len: u16,
}

/// The header read from an 8-byte request.
pub open spec fn spec_parse_header(s: Seq<u8>) -> PipeHeader {
    PipeHeader {
        d_type: s[0],
        r_flag: s[1],
        target_id: spec_u32_of_le(s[2], s[3], s[4], s[5]),
        p_len: spec_u16_of_le(s[6], s[7]),
    }
}

/// The 8-byte image of a header.
pub open spec fn spec_encode_header(h: PipeHeader) -> Seq<u8> {
    seq![h.d_type, h.r_flag] + spec_u32_le(h.target_id) + spec_u16_le(h.p_len)
}

impl PipeHeader {
    /// Reads the fixed request header from its 8-byte wire form.
    pub fn parse(buf: [u8; 8]) -> (h: PipeHeader)
        ensures
            h == spec_parse_header(buf@),
    {
        PipeHeader {
            d_type: buf[0],
            r_flag: buf[1],
            target_id: u32_of_le(buf[2], buf[3], buf[4], buf[5]),
            p_len: u16_of_le(buf[6], buf[7]),
        }
    }

    /// Writes the header into its 8-byte wire form.
    pub fn encode(&self) -> (buf: [u8; 8])
        ensures
            buf@ == spec_encode_header(*self),
    {
        let mut buf = [0u8; 8];
        buf[0] = self.d_type;
        buf[1] = self.r_flag;
        buf[2] = u32_le_byte(self.target_id, 0);
        buf[3] = u32_le_byte(self.target_id, 1);
        buf[4] = u32_le_byte(self.target_id, 2);
        buf[5] = u32_le_byte(self.target_id, 3);
        buf[6] = u16_le_byte(self.p_len, 0);
        buf[7] = u16_le_byte(self.p_len, 1);
        assert(buf@ =~= spec_encode_header(*self));
        buf
    }
}

/// Parsing the encoding of a header gives the header back, so the documented
/// field offsets and widths are consistent.
pub proof fn lemma_header_round_trip(h: PipeHeader)
    ensures
        spec_parse_header(spec_encode_header(h)) == h,
{
    crate::codec::lemma_u32_le_round_trip(h.target_id);
    crate::codec::lemma_u16_le_round_trip(h.p_len);
}

/// Encoding the header parsed from any 8 bytes gives the same bytes back.
pub proof fn lemma_header_encode_round_trip(s: Seq<u8>)
    requires
        s.len() == 8,
    ensures
        spec_encode_header(spec_parse_header(s)) =~= s,
{
    crate::codec::lemma_u32_of_le_round_trip(s[2], s[3], s[4], s[5]);
    crate::codec::lemma_u16_of_le_round_trip(s[6], s[7]);
}

} // verus!
