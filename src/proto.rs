//! The binary application frame carried in LoRaWAN payloads:
//! `[0x68][cmd][16-byte address/mask][payload][0x16]`.

use crate::buffers::{capped, frame_items, to_frame};
use vstd::prelude::*;

verus! {

/// First byte of every frame.
pub const FRAME_HEAD: u8 = 0x68;

/// Last byte of every frame.
pub const FRAME_END: u8 = 0x16;

/// Length of the address/mask field.
pub const ADDR_LEN: usize = 16;

/// Shortest well-formed frame: header, command, address and trailer.
pub const MIN_FRAME_LEN: usize = 19;

/// The bytes of a frame with the given command byte, address and payload.
pub open spec fn frame_bytes(cmd: u8, addr: Seq<u8>, payload: Seq<u8>) -> Seq<u8> {
    seq![FRAME_HEAD, cmd] + addr + payload + seq![FRAME_END]
}

/// A payload of fixed size `S` that a frame carries.
pub trait StackData<const S: usize> {
    /// The payload's bytes.
    spec fn spec_bytes(&self) -> Seq<u8>;

    fn to_bytes(&self) -> (r: [u8; S])
        ensures
            r@ == self.spec_bytes(),
    ;
}

impl StackData<0> for () {
    open spec fn spec_bytes(&self) -> Seq<u8> {
        Seq::empty()
    }

    fn to_bytes(&self) -> (r: [u8; 0]) {
        let r: [u8; 0] = [];
        assert(r@ =~= Seq::<u8>::empty());
        r
    }
}

/// The 16-byte address/mask field of a frame.
pub struct Addr(pub [u8; 16]);

impl Addr {
    pub fn new(addr: [u8; 16]) -> (r: Self)
        ensures
            r.0 == addr,
    {
        Self(addr)
    }
}

/// Command codes of the frames this device sends and receives.
#[derive(Clone, Copy, PartialEq, Eq, Structural, Debug)]
pub enum Cmd {
    ApplyCode,
    ApplyCodeResp,
    Control,
    Event,
    Heartbeat,
}

/// The byte that stands for a command code on the wire.
pub open spec fn cmd_code(c: Cmd) -> u8 {
    match c {
        Cmd::ApplyCode => 0x01,
        Cmd::ApplyCodeResp => 0x81,
        Cmd::Event => 0x02,
        Cmd::Control => 0x82,
        Cmd::Heartbeat => 0x06,
    }
}

impl Cmd {
    pub fn as_u8(&self) -> (r: u8)
        ensures
            r == cmd_code(*self),
    {
        match self {
            Cmd::ApplyCode => 0x01,
            Cmd::ApplyCodeResp => 0x81,
            Cmd::Event => 0x02,
            Cmd::Control => 0x82,
            Cmd::Heartbeat => 0x06,
        }
    }
}

/// A frame to send: header, command byte, address, payload of `D` bytes, trailer.
pub struct Stack<const D: usize, T: StackData<D>> {
    pub head: u8,
    pub cmd: u8,
    pub addr: Addr,
    pub data: T,
    pub end: u8,
}

impl<const D: usize, T: StackData<D>> Stack<D, T> {
    pub fn new(cmd: Cmd, data: T, addr: Addr) -> (r: Self)
        ensures
            r.head == FRAME_HEAD,
            r.cmd == cmd_code(cmd),
            r.addr.0 == addr.0,
            r.data == data,
            r.end == FRAME_END,
    {
        Self { head: FRAME_HEAD, cmd: cmd.as_u8(), data, addr, end: FRAME_END }
    }

    /// The bytes that this frame puts on the wire.
    pub open spec fn wire(&self) -> Seq<u8> {
        seq![self.head, self.cmd] + self.addr.0@ + (if D > 0 {
            self.data.spec_bytes()
        } else {
            Seq::empty()
        }) + seq![self.end]
    }

    /// The frame's bytes in a 64-byte frame buffer (a longer frame keeps its
    /// first 64 bytes).
    pub fn to_bytes(&self) -> (r: heapless::Vec<u8, 64>)
        ensures
            frame_items(r) == capped(self.wire(), 64),
    {
        let bytes = self.wire_bytes();
        to_frame(bytes.as_slice())
    }

    /// The whole frame.
    pub fn wire_bytes(&self) -> (r: Vec<u8>)
        ensures
            r@ == self.wire(),
    {
        let mut buf: Vec<u8> = Vec::new();
        buf.push(self.head);
        buf.push(self.cmd);
        let mut i: usize = 0;
        while i < ADDR_LEN
            invariant
                i <= ADDR_LEN,
                buf@ == seq![self.head, self.cmd] + self.addr.0@.subrange(0, i as int),
            decreases ADDR_LEN - i,
        {
            buf.push(self.addr.0[i]);
            i = i + 1;
            assert(buf@ == seq![self.head, self.cmd] + self.addr.0@.subrange(0, i as int));
        }
        assert(self.addr.0@.subrange(0, 16) == self.addr.0@);
        let ghost prefix = buf@;
        if D > 0 {
            let data = self.data.to_bytes();
            let mut j: usize = 0;
            while j < D
                invariant
                    j <= D,
                    data@.len() == D,
                    buf@ == prefix + data@.subrange(0, j as int),
                decreases D - j,
            {
                buf.push(data[j]);
                j = j + 1;
                assert(buf@ == prefix + data@.subrange(0, j as int));
            }
            assert(data@.subrange(0, D as int) == data@);
        } else {
            assert(buf@ == prefix + Seq::<u8>::empty());
        }
        buf.push(self.end);
        buf
    }
}

/// The frame that asks the network for a group code.
pub fn get_apply_code_cmd() -> (r: Stack<0, ()>)
    ensures
        r.wire() == frame_bytes(0x01, Seq::new(16, |i: int| 0u8), Seq::empty()),
{
    let r = Stack::new(Cmd::ApplyCode, (), Addr([0; 16]));
    assert(r.addr.0@ =~= Seq::new(16, |i: int| 0u8));
    assert(r.wire() =~= frame_bytes(0x01, Seq::new(16, |i: int| 0u8), Seq::empty()));
    r
}

/// Periodic status report: light state (`0x01` on, `0x02` off) and brightness.
pub struct Heartbeat {
    pub light: u8,
    pub brightness: u8,
}

impl StackData<2> for Heartbeat {
    open spec fn spec_bytes(&self) -> Seq<u8> {
        seq![self.light, self.brightness]
    }

    fn to_bytes(&self) -> (r: [u8; 2]) {
        let r: [u8; 2] = [self.light, self.brightness];
        assert(r@ =~= seq![self.light, self.brightness]);
        r
    }
}

/// Wraps a heartbeat in an uplink frame with an all-zero address.
pub fn pack_heartbeat(heartbeat: Heartbeat) -> (r: Stack<2, Heartbeat>)
    ensures
        r.wire() == frame_bytes(
            0x06,
            Seq::new(16, |i: int| 0u8),
            seq![heartbeat.light, heartbeat.brightness],
        ),
{
    let ghost hb = seq![heartbeat.light, heartbeat.brightness];
    let r = Stack::new(Cmd::Heartbeat, heartbeat, Addr([0; 16]));
    assert(r.addr.0@ =~= Seq::new(16, |i: int| 0u8));
    assert(r.wire() =~= frame_bytes(0x06, Seq::new(16, |i: int| 0u8), hb));
    r
}

} // verus!
