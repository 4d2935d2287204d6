//! Device identity, join progress and the radio module's downlink envelope.

use crate::reply::{GetAppEuiResult, GetDevAddrResult, GetDevEuiResult, GetVerResult};
use vstd::prelude::*;

verus! {

/// Level of a radio-module status pin, as last sampled.
#[derive(Clone, Copy, PartialEq, Eq, Structural, Debug)]
pub enum PinState {
    Unknown,
    High,
    Low,
}

impl PinState {
    pub fn as_str(&self) -> (r: &'static str)
        ensures
            r@ == match self {
                PinState::Unknown => "-"@,
                PinState::High => "H"@,
                PinState::Low => "L"@,
            },
    {
        match self {
            PinState::Unknown => "-",
            PinState::High => "H",
            PinState::Low => "L",
        }
    }
}

/// LoRaWAN device class.
#[derive(Clone, Copy, PartialEq, Eq, Structural, Debug)]
pub enum Class {
    A,
    B,
    C,
}

impl Class {
    pub fn as_str(&self) -> (r: &'static str)
        ensures
            r@ == match self {
                Class::A => "a"@,
                Class::B => "b"@,
                Class::C => "c"@,
            },
    {
        match self {
            Class::A => "a",
            Class::B => "b",
            Class::C => "c",
        }
    }
}

/// How the device joins the network.
#[derive(Clone, Copy, PartialEq, Eq, Structural, Debug)]
pub enum JoinType {
    Otaa,
    Abp,
}

impl JoinType {
    pub fn as_str(&self) -> (r: &'static str)
        ensures
            r@ == match self {
                JoinType::Otaa => "otaa"@,
                JoinType::Abp => "abp"@,
            },
    {
        match self {
            JoinType::Otaa => "otaa",
            JoinType::Abp => "abp",
        }
    }
}

/// Coarse join state of the identity record.
#[derive(Clone, Copy, PartialEq, Eq, Structural, Debug)]
pub enum State {
    Join,
    Joined,
}

impl State {
    pub fn as_str(&self) -> (r: &'static str)
        ensures
            r@ == match self {
                State::Join => "join"@,
                State::Joined => "joined"@,
            },
    {
        match self {
            State::Join => "join",
            State::Joined => "joined",
        }
    }
}

/// Link state shown while the device operates.
#[derive(Clone, Copy, PartialEq, Eq, Structural, Debug)]
pub enum LoRaWANState {
    Ready,
    Joining,
    Online,
    Offline,
}

impl LoRaWANState {
    pub fn to_str(&self) -> (r: &'static str)
        ensures
            r@ == match self {
                LoRaWANState::Ready => "ready"@,
                LoRaWANState::Joining => "joining"@,
                LoRaWANState::Online => "online"@,
                LoRaWANState::Offline => "offline"@,
            },
    {
        match self {
            LoRaWANState::Ready => "ready",
            LoRaWANState::Joining => "joining",
            LoRaWANState::Online => "online",
            LoRaWANState::Offline => "offline",
        }
    }
}

/// The identity and settings of the device, as read from the radio module.
pub struct LoRaWAN {
    pub deveui: Option<Vec<u8>>,
    pub appeui: Option<Vec<u8>>,
    pub appkey: Option<Vec<u8>>,
    pub devaddr: Option<Vec<u8>>,
    pub nwkskey: Option<Vec<u8>>,
    pub appskey: Option<Vec<u8>>,
    pub version: Option<Vec<u8>>,
    pub class: Class,
    pub join_type: JoinType,
    pub state: State,
}

/// The device address recorded when the module does not report one.
pub open spec fn placeholder_dev_addr() -> Seq<u8> {
    Seq::new(8, |i: int| 48u8)
}

impl LoRaWAN {
    /// Builds the identity record from the boot-time query replies. The
    /// application key is the DevEUI written twice; a missing device address
    /// becomes `00000000`; session keys stay unset until provisioning.
    pub fn from_replies(
        dev_eui: GetDevEuiResult,
        dev_addr: Option<GetDevAddrResult>,
        app_eui: GetAppEuiResult,
        ver: GetVerResult,
    ) -> (r: LoRaWAN)
        ensures
            r.deveui matches Some(e) && e@ == dev_eui.0@,
            r.appeui matches Some(a) && a@ == app_eui.0@,
            r.appkey matches Some(k) && k@ == dev_eui.0@ + dev_eui.0@,
            r.devaddr matches Some(d) && d@ == match dev_addr {
                Some(a) => a.0@,
                None => placeholder_dev_addr(),
            },
            r.version matches Some(v) && v@ == ver.0@,
            r.nwkskey.is_none(),
            r.appskey.is_none(),
            r.class == Class::C,
            r.join_type == JoinType::Otaa,
            r.state == State::Join,
    {
        let GetDevEuiResult(deveui) = dev_eui;
        let mut appkey: Vec<u8> = Vec::new();
        crate::bytes::append_bytes(&mut appkey, deveui.as_slice());
        crate::bytes::append_bytes(&mut appkey, deveui.as_slice());
        let devaddr = match dev_addr {
            Some(a) => a.0,
            None => {
                let mut zeros: Vec<u8> = Vec::new();
                let mut i: usize = 0;
                while i < 8
                    invariant
                        i <= 8,
                        zeros@ == Seq::new(i as nat, |k: int| 48u8),
                    decreases 8 - i,
                {
                    zeros.push(48);
                    i = i + 1;
                    assert(zeros@ =~= Seq::new(i as nat, |k: int| 48u8));
                }
                zeros
            },
        };
        LoRaWAN {
            deveui: Some(deveui),
            appeui: Some(app_eui.0),
            appkey: Some(appkey),
            devaddr: Some(devaddr),
            nwkskey: None,
            appskey: None,
            version: Some(ver.0),
            class: Class::C,
            join_type: JoinType::Otaa,
            state: State::Join,
        }
    }
}

/// A downlink as delivered by the radio module: the LoRaWAN payload followed
/// by two metadata bytes, SNR then RSSI.
pub struct LoRaWANPackage<'a> {
    pub rssi: i8,
    pub snr: i8,
    pub data: &'a [u8],
}

impl<'a> LoRaWANPackage<'a> {
    /// Splits the SNR and RSSI bytes off the end of a receive buffer. A buffer
    /// of fewer than two bytes is taken whole, with both readings zero.
    pub fn decode(data: &'a [u8]) -> (r: LoRaWANPackage<'a>)
        ensures
            data@.len() >= 2 ==> r.snr == #[verifier::truncate] (data@[data@.len() - 2] as i8)
                && r.rssi == #[verifier::truncate] (data@[data@.len() - 1] as i8) && r.data@ == data@.subrange(
                0,
                data@.len() - 2,
            ),
            data@.len() < 2 ==> r.snr == 0 && r.rssi == 0 && r.data@ == data@,
    {
        let len = data.len();
        if len >= 2 {
            let snr = #[verifier::truncate] (data[len - 2] as i8);
            let rssi = #[verifier::truncate] (data[len - 1] as i8);
            LoRaWANPackage { rssi, snr, data: &data[0..len - 2] }
        } else {
            LoRaWANPackage { rssi: 0, snr: 0, data }
        }
    }
}

/// Whether a buffer received while waiting for the network is the module's
/// four-byte notice that the device has joined (top bit of the first byte set).
pub fn is_join_notice(buf: &[u8]) -> (r: bool)
    ensures
        r == (buf@.len() == 4 && buf@[0] >= 0x80),
{
    buf.len() == 4 && buf[0] >= 0x80
}

/// What the join driver and the display know of the join in progress.
#[derive(Clone, Copy, PartialEq, Eq, Structural, Debug)]
pub struct JoinProgress {
    pub busy: PinState,
    pub stat: PinState,
    pub joined: bool,
}

impl JoinProgress {
    /// Nothing sampled, not joined.
    pub open spec fn spec_new() -> JoinProgress {
        JoinProgress { busy: PinState::Unknown, stat: PinState::Unknown, joined: false }
    }

    /// Nothing sampled, not joined.
    pub fn new() -> (r: JoinProgress)
        ensures
            r == JoinProgress::spec_new(),
    {
        JoinProgress { busy: PinState::Unknown, stat: PinState::Unknown, joined: false }
    }
}

/// Samples of the busy/stat pins that one join attempt may take.
pub const JOIN_POLL_TRIES: u8 = 36;

/// Pause before each sample, in milliseconds.
pub const JOIN_POLL_INTERVAL_MS: u64 = 300;

/// Pause after the module is put into join mode, before the first sample.
pub const JOIN_MODE_SETTLE_MS: u64 = 5000;

/// One join attempt's watch of the busy and stat pins: the module has joined
/// once busy and stat both read high; the attempt fails when the samples run out.
pub struct JoinPoll {
    pub tries_left: u8,
    pub progress: JoinProgress,
}

impl JoinPoll {
    pub fn new(progress: JoinProgress) -> (r: JoinPoll)
        ensures
            r.tries_left == JOIN_POLL_TRIES,
            r.progress == progress,
    {
        JoinPoll { tries_left: JOIN_POLL_TRIES, progress }
    }

    /// Whether another sample may be taken; uses one up if so.
    pub fn next_sample(&mut self) -> (r: bool)
        ensures
            r == (old(self).tries_left > 0),
            final(self).tries_left == if r {
                (old(self).tries_left - 1) as u8
            } else {
                0u8
            },
            final(self).progress == old(self).progress,
    {
        if self.tries_left == 0 {
            false
        } else {
            self.tries_left = self.tries_left - 1;
            true
        }
    }

    /// Records a busy-pin sample; returns whether the stat pin is to be read next.
    pub fn on_busy(&mut self, busy_high: bool) -> (r: bool)
        ensures
            r == busy_high,
            final(self).tries_left == old(self).tries_left,
            final(self).progress == (JoinProgress {
                busy: if busy_high { PinState::High } else { PinState::Low },
                ..old(self).progress
            }),
    {
        self.progress.busy = if busy_high { PinState::High } else { PinState::Low };
        busy_high
    }

    /// Records a stat-pin sample; returns whether the device has joined.
    pub fn on_stat(&mut self, stat_high: bool) -> (r: bool)
        ensures
            r == stat_high,
            final(self).tries_left == old(self).tries_left,
            final(self).progress == (JoinProgress {
                stat: if stat_high { PinState::High } else { PinState::Low },
                ..old(self).progress
            }),
    {
        self.progress.stat = if stat_high { PinState::High } else { PinState::Low };
        stat_high
    }
}

} // verus!
