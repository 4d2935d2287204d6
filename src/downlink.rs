//! Inbound group-control frames: decoding, group-mask gating and their
//! effect on the light controller.

use crate::buffers::frame_items;
use crate::lorawan::LoRaWANPackage;
use crate::proto::{
    frame_bytes, pack_heartbeat, Heartbeat, ADDR_LEN, FRAME_END, FRAME_HEAD, MIN_FRAME_LEN,
};
use vstd::prelude::*;

verus! {

/// A well-formed inbound frame.
pub struct Frame {
    pub cmd: u8,
    pub addr: [u8; 16],
    pub payload: Vec<u8>,
}

/// Whether `s` is a well-formed frame: long enough for header, command,
/// address and trailer, with the header and trailer bytes in place.
pub open spec fn is_frame(s: Seq<u8>) -> bool {
    s.len() >= MIN_FRAME_LEN && s[0] == FRAME_HEAD && s[s.len() - 1] == FRAME_END
}

/// Decodes a frame; `None` when `data` is not a well-formed frame.
pub fn decode_frame(data: &[u8]) -> (r: Option<Frame>)
    ensures
        r.is_some() == is_frame(data@),
        r matches Some(f) ==> data@ == frame_bytes(f.cmd, f.addr@, f.payload@),
{
    let len = data.len();
    if len < MIN_FRAME_LEN || data[0] != FRAME_HEAD || data[len - 1] != FRAME_END {
        return None;
    }
    let mut addr: [u8; 16] = [0; 16];
    let mut i: usize = 0;
    while i < ADDR_LEN
        invariant
            i <= ADDR_LEN,
            len == data@.len(),
            len >= MIN_FRAME_LEN,
            addr@.len() == 16,
            forall|k: int| 0 <= k < i ==> addr@[k] == data@[2 + k],
        decreases ADDR_LEN - i,
    {
        addr[i] = data[2 + i];
        i = i + 1;
    }
    let mut payload: Vec<u8> = Vec::new();
    let mut j: usize = 18;
    while j < len - 1
        invariant
            18 <= j <= len - 1,
            len == data@.len(),
            payload@ == data@.subrange(18, j as int),
        decreases len - 1 - j,
    {
        payload.push(data[j]);
        j = j + 1;
    }
    let f = Frame { cmd: data[1], addr, payload };
    assert(addr@ =~= data@.subrange(2, 18));
    assert(data@ =~= frame_bytes(f.cmd, f.addr@, f.payload@));
    Some(f)
}

/// Group membership: the stored code and the frame's address share a set bit
/// in at least one byte.
pub open spec fn in_group_spec(code: Seq<u8>, addr: Seq<u8>) -> bool {
    exists|i: int| 0 <= i < 16 && #[trigger] (code[i] & addr[i]) != 0
}

/// Whether a frame addressed to `addr` concerns a device holding `code`.
pub fn in_group(code: &[u8; 16], addr: &[u8; 16]) -> (r: bool)
    ensures
        r == in_group_spec(code@, addr@),
{
    let mut i: usize = 0;
    while i < ADDR_LEN
        invariant
            i <= ADDR_LEN,
            code@.len() == 16,
            addr@.len() == 16,
            forall|k: int| 0 <= k < i ==> #[trigger] (code@[k] & addr@[k]) == 0,
        decreases ADDR_LEN - i,
    {
        if code[i] & addr[i] != 0 {
            return true;
        }
        i = i + 1;
    }
    false
}

/// What an inbound frame asks of the device.
#[derive(Clone, Copy, Debug)]
pub enum DownlinkCommand {
    /// Store the frame's address field as the device's group code.
    Provision([u8; 16]),
    /// Switch the light on (`true`) or off.
    Light(bool),
    /// Run the one-shot load-test animation.
    LoadTest,
    /// Set the brightness level.
    Brightness(u8),
    /// Leave the network and join again.
    Rejoin,
    /// Turn the periodic heartbeat uplink on (`true`) or off.
    Heartbeat(bool),
}

/// The non-provisioning command that a frame carries for a device holding
/// `code`, if any: a command is honoured only when the device is in the
/// addressed group, and commands that take an argument read it from the first
/// payload byte. Provisioning (`0x81`) is not covered here; it is honoured
/// whatever the address, see `interpret_spec`.
pub open spec fn command_for(cmd: u8, addr: Seq<u8>, payload: Seq<u8>, code: Seq<u8>) -> Option<
    DownlinkCommand,
> {
    if cmd == 0x81 {
        None
    } else if !in_group_spec(code, addr) {
        None
    } else if cmd == 0x82 {
        if payload.len() >= 1 && payload[0] == 0x01 {
            Some(DownlinkCommand::Light(true))
        } else if payload.len() >= 1 && payload[0] == 0x02 {
            Some(DownlinkCommand::Light(false))
        } else {
            None
        }
    } else if cmd == 0x83 {
        Some(DownlinkCommand::LoadTest)
    } else if cmd == 0x84 {
        if payload.len() >= 1 {
            Some(DownlinkCommand::Brightness(payload[0]))
        } else {
            None
        }
    } else if cmd == 0x85 {
        Some(DownlinkCommand::Rejoin)
    } else if cmd == 0x86 {
        if payload.len() >= 1 && payload[0] == 0x01 {
            Some(DownlinkCommand::Heartbeat(true))
        } else if payload.len() >= 1 && payload[0] == 0x02 {
            Some(DownlinkCommand::Heartbeat(false))
        } else {
            None
        }
    } else {
        None
    }
}

/// `command_for`, with the provisioned code filled in from the address.
pub open spec fn interpret_spec(f: &Frame, code: Seq<u8>) -> Option<DownlinkCommand> {
    if f.cmd == 0x81 {
        Some(DownlinkCommand::Provision(f.addr))
    } else {
        command_for(f.cmd, f.addr@, f.payload@, code)
    }
}

/// The command that a frame carries for a device holding `code`, if any.
pub fn interpret(f: &Frame, code: &[u8; 16]) -> (r: Option<DownlinkCommand>)
    ensures
        r == interpret_spec(f, code@),
{
    if f.cmd == 0x81 {
        return Some(DownlinkCommand::Provision(f.addr));
    }
    if !in_group(code, &f.addr) {
        return None;
    }
    let has_arg = f.payload.len() >= 1;
    if f.cmd == 0x82 {
        if has_arg && f.payload[0] == 0x01 {
            Some(DownlinkCommand::Light(true))
        } else if has_arg && f.payload[0] == 0x02 {
            Some(DownlinkCommand::Light(false))
        } else {
            None
        }
    } else if f.cmd == 0x83 {
        Some(DownlinkCommand::LoadTest)
    } else if f.cmd == 0x84 {
        if has_arg {
            Some(DownlinkCommand::Brightness(f.payload[0]))
        } else {
            None
        }
    } else if f.cmd == 0x85 {
        Some(DownlinkCommand::Rejoin)
    } else if f.cmd == 0x86 {
        if has_arg && f.payload[0] == 0x01 {
            Some(DownlinkCommand::Heartbeat(true))
        } else if has_arg && f.payload[0] == 0x02 {
            Some(DownlinkCommand::Heartbeat(false))
        } else {
            None
        }
    } else {
        None
    }
}

/// A frame that carries `cmd` from a network peer is honoured by a device
/// holding `code` exactly when the command is provisioning or the device is
/// in the addressed group.
pub proof fn lemma_group_gating(f: Frame, code: Seq<u8>)
    ensures
        interpret_spec(&f, code).is_some() ==> (f.cmd == 0x81 || in_group_spec(code, f.addr@)),
        f.cmd == 0x81 ==> interpret_spec(&f, code) == Some(DownlinkCommand::Provision(f.addr)),
        !in_group_spec(code, f.addr@) && f.cmd != 0x81 ==> interpret_spec(&f, code).is_none(),
{
}

/// What the control loop must do outside the controller after a downlink.
#[derive(Clone, Copy, Debug)]
pub enum Effect {
    /// Nothing to do, not even a redraw.
    Nothing,
    /// Redraw the operating screen.
    Refresh,
    /// Persist this group code, then redraw.
    StoreCode([u8; 16]),
    /// Leave the operating screen and ask for a re-join.
    Rejoin,
}

/// State of the light controller that downlinks drive.
pub struct LightState {
    pub rssi: Option<i8>,
    pub snr: Option<i8>,
    pub light: bool,
    pub load: bool,
    pub brightness: u8,
    pub send_heartbeat: bool,
}

/// Brightness level before any downlink sets one.
pub const DEFAULT_BRIGHTNESS: u8 = 0x5F;

impl LightState {
    pub fn new() -> (r: LightState)
        ensures
            r.rssi.is_none(),
            r.snr.is_none(),
            !r.light,
            !r.load,
            r.brightness == DEFAULT_BRIGHTNESS,
            !r.send_heartbeat,
    {
        LightState {
            rssi: None,
            snr: None,
            light: false,
            load: false,
            brightness: DEFAULT_BRIGHTNESS,
            send_heartbeat: false,
        }
    }

    /// Handles one downlink buffer (payload plus SNR and RSSI) for a device
    /// holding `code`. The signal readings are always recorded; a buffer that
    /// is not a frame, or a frame not meant for this device, only redraws.
    pub fn handle_downlink(&mut self, buf: &[u8], code: &[u8; 16]) -> (r: Effect)
        ensures
            buf@.len() >= 2 ==> final(self).snr == Some(#[verifier::truncate] (buf@[buf@.len() - 2] as i8))
                && final(self).rssi == Some(#[verifier::truncate] (buf@[buf@.len() - 1] as i8)),
            buf@.len() < 2 ==> final(self).snr == Some(0i8) && final(self).rssi == Some(0i8),
            ({
                let payload = if buf@.len() >= 2 {
                    buf@.subrange(0, buf@.len() - 2)
                } else {
                    buf@
                };
                if !is_frame(payload) {
                    r == Effect::Refresh && final(self).light == old(self).light
                        && final(self).load == old(self).load && final(self).brightness == old(
                        self,
                    ).brightness && final(self).send_heartbeat == old(self).send_heartbeat
                } else {
                    let cmd = payload[1];
                    let addr = payload.subrange(2, 18);
                    let arg = payload.subrange(18, payload.len() - 1);
                    controller_step(*old(self), cmd, addr, arg, code@, r, *final(self))
                }
            }),
    {
        let pkg = LoRaWANPackage::decode(buf);
        self.rssi = Some(pkg.rssi);
        self.snr = Some(pkg.snr);
        let frame = match decode_frame(pkg.data) {
            Some(f) => f,
            None => {
                return Effect::Refresh;
            },
        };
        proof {
            assert(frame.addr@ =~= pkg.data@.subrange(2, 18));
            assert(frame.payload@ =~= pkg.data@.subrange(18, pkg.data@.len() - 1));
        }
        match interpret(&frame, code) {
            Some(DownlinkCommand::Provision(c)) => Effect::StoreCode(c),
            Some(DownlinkCommand::Light(on)) => {
                self.light = on;
                Effect::Refresh
            },
            Some(DownlinkCommand::LoadTest) => {
                if self.load {
                    Effect::Nothing
                } else {
                    self.load = true;
                    Effect::Refresh
                }
            },
            Some(DownlinkCommand::Brightness(level)) => {
                self.brightness = level;
                Effect::Refresh
            },
            Some(DownlinkCommand::Rejoin) => Effect::Rejoin,
            Some(DownlinkCommand::Heartbeat(on)) => {
                self.send_heartbeat = on;
                Effect::Nothing
            },
            None => Effect::Refresh,
        }
    }

    /// Marks the load-test animation as finished.
    pub fn finish_load(&mut self)
        ensures
            !final(self).load,
            final(self).light == old(self).light,
            final(self).brightness == old(self).brightness,
            final(self).send_heartbeat == old(self).send_heartbeat,
    {
        self.load = false;
    }

    /// The heartbeat uplink to send now, if heartbeats are on: light state
    /// (`0x01` on, `0x02` off) and brightness.
    pub fn heartbeat_frame(&self) -> (r: Option<heapless::Vec<u8, 64>>)
        ensures
            r.is_some() == self.send_heartbeat,
            r matches Some(b) ==> frame_items(b) == frame_bytes(
                0x06,
                Seq::new(16, |i: int| 0u8),
                seq![if self.light { 0x01u8 } else { 0x02u8 }, self.brightness],
            ),
    {
        if self.send_heartbeat {
            let pack = pack_heartbeat(
                Heartbeat { light: if self.light { 0x01 } else { 0x02 }, brightness: self.brightness },
            );
            Some(pack.to_bytes())
        } else {
            None
        }
    }
}

/// How a well-formed frame (command byte, address, payload) changes the
/// controller from `before` to `after`, and the effect it reports.
pub open spec fn controller_step(
    before: LightState,
    cmd: u8,
    addr: Seq<u8>,
    arg: Seq<u8>,
    code: Seq<u8>,
    effect: Effect,
    after: LightState,
) -> bool {
    let unchanged_but = |light: bool, load: bool, brightness: u8, hb: bool|
        after.light == light && after.load == load && after.brightness == brightness
            && after.send_heartbeat == hb;
    if cmd == 0x81 {
        (effect matches Effect::StoreCode(c) && c@ == addr) && unchanged_but(
            before.light,
            before.load,
            before.brightness,
            before.send_heartbeat,
        )
    } else {
        match command_for(cmd, addr, arg, code) {
            Some(DownlinkCommand::Light(on)) => effect == Effect::Refresh && unchanged_but(
                on,
                before.load,
                before.brightness,
                before.send_heartbeat,
            ),
            Some(DownlinkCommand::LoadTest) => if before.load {
                effect == Effect::Nothing && unchanged_but(
                    before.light,
                    true,
                    before.brightness,
                    before.send_heartbeat,
                )
            } else {
                effect == Effect::Refresh && unchanged_but(
                    before.light,
                    true,
                    before.brightness,
                    before.send_heartbeat,
                )
            },
            Some(DownlinkCommand::Brightness(level)) => effect == Effect::Refresh && unchanged_but(
                before.light,
                before.load,
                level,
                before.send_heartbeat,
            ),
            Some(DownlinkCommand::Rejoin) => effect == Effect::Rejoin && unchanged_but(
                before.light,
                before.load,
                before.brightness,
                before.send_heartbeat,
            ),
            Some(DownlinkCommand::Heartbeat(on)) => effect == Effect::Nothing && unchanged_but(
                before.light,
                before.load,
                before.brightness,
                on,
            ),
            _ => effect == Effect::Refresh && unchanged_but(
                before.light,
                before.load,
                before.brightness,
                before.send_heartbeat,
            ),
        }
    }
}

} // verus!
