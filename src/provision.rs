//! The factory provisioning script: a fixed, ordered list of AT commands that
//! restores the radio module and configures it for this device class.

use crate::bytes::{append_bytes, decimal, text};
use crate::serial::{command_wire, crlf, literal, Command};
use vstd::prelude::*;

verus! {

/// One step of the script: the command, how long to wait for its
/// acknowledgement, and how long to pause after it (all in ms).
pub struct FactoryStep {
    pub command: Command,
    pub timeout_ms: u64,
    pub pause_ms: u64,
}

/// Number of steps in the script.
pub const FACTORY_STEPS: usize = 14;

/// The group multicast address that the script sets.
pub open spec fn group_addr() -> Seq<u8> {
    text("F8D4A3B1")
}

/// The group application session key that the script sets.
pub open spec fn group_appskey() -> Seq<u8> {
    text("1F2E3D4C5B6A798087D2C3F4A5B6C7D8")
}

/// The group network session key that the script sets.
pub open spec fn group_nwkskey() -> Seq<u8> {
    text("9A8B7C6D5E4F3A2B1C0D9E8F7A6B5C4D")
}

/// The wire bytes of each step, in order, for a module whose DevEUI is `deveui`:
/// factory reset, reset, band 6, channel mask `00FF`, AppEUI = DevEUI,
/// AppKey = DevEUI twice, debug off, class C, RX2 at DR5 / 505.3 MHz, group
/// address and session keys, data rate, status, save, reset.
pub open spec fn factory_wires(deveui: Seq<u8>) -> Seq<Seq<u8>> {
    seq![
        text("at+factory\r\n"),
        text("at+reset\r\n"),
        text("at+band=") + decimal(6) + crlf(),
        text("at+chmask=") + text("00FF") + crlf(),
        text("at+appeui=") + deveui + crlf(),
        text("at+appkey=") + (deveui + deveui) + crlf(),
        text("at+debug=0\r\n"),
        text("at+class=2\r\n"),
        text("at+rx2=") + decimal(5) + text(",") + decimal(505300000) + crlf(),
        text("at+devaddr=") + group_addr() + text(",4,0,") + group_appskey() + text(",")
            + group_nwkskey() + crlf(),
        text("AT+DATARATE=5,3,50,1,23\r\n"),
        text("at+status=2,2\r\n"),
        text("at+save\r\n"),
        text("at+reset\r\n"),
    ]
}

/// Acknowledgement timeout of each step, in ms.
pub open spec fn factory_timeouts() -> Seq<u64> {
    seq![2000, 3000, 1000, 100, 100, 100, 100, 100, 100, 100, 100, 100, 1000, 200]
}

/// Pause after each step, in ms.
pub open spec fn factory_pauses() -> Seq<u64> {
    seq![1500, 300, 0, 0, 0, 0, 0, 0, 0, 0, 0, 0, 0, 0]
}

fn step(command: Command, timeout_ms: u64, pause_ms: u64) -> (r: FactoryStep)
    ensures
        command_wire(&r.command) == command_wire(&command),
        r.timeout_ms == timeout_ms,
        r.pause_ms == pause_ms,
{
    FactoryStep { command, timeout_ms, pause_ms }
}

/// The provisioning script for a module whose DevEUI is `deveui`. Each step
/// is best-effort: a failed step does not stop the ones after it.
pub fn factory_script(deveui: &[u8]) -> (r: Vec<FactoryStep>)
    ensures
        r@.len() == factory_wires(deveui@).len(),
        forall|i: int|
            0 <= i < r@.len() ==> command_wire(&(#[trigger] r@[i]).command) == factory_wires(
                deveui@,
            )[i] && r@[i].timeout_ms == factory_timeouts()[i] && r@[i].pause_ms
                == factory_pauses()[i],
{
    let mut appeui: Vec<u8> = Vec::new();
    append_bytes(&mut appeui, deveui);
    let mut appkey: Vec<u8> = Vec::new();
    append_bytes(&mut appkey, deveui);
    append_bytes(&mut appkey, deveui);
    let mut r: Vec<FactoryStep> = Vec::new();
    r.push(step(Command::Factory, 2000, 1500));
    r.push(step(Command::Reset, 3000, 300));
    r.push(step(Command::SetBand(6), 1000, 0));
    r.push(step(Command::SetChmask(literal("00FF")), 100, 0));
    r.push(step(Command::SetAppEui(appeui), 100, 0));
    r.push(step(Command::SetAppkey(appkey), 100, 0));
    r.push(step(Command::Debug, 100, 0));
    r.push(step(Command::SetClassC, 100, 0));
    r.push(step(Command::SetRx2(5, 505300000), 100, 0));
    r.push(
        step(
            Command::SetGroupDevAddr(
                literal("F8D4A3B1"),
                literal("1F2E3D4C5B6A798087D2C3F4A5B6C7D8"),
                literal("9A8B7C6D5E4F3A2B1C0D9E8F7A6B5C4D"),
            ),
            100,
            0,
        ),
    );
    r.push(step(Command::SetDataRate, 100, 0));
    r.push(step(Command::SetStatus, 100, 0));
    r.push(step(Command::Save, 1000, 0));
    r.push(step(Command::Reset, 200, 0));
    r
}

} // verus!
