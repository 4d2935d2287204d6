//! AT command vocabulary of the radio co-processor and its wire encoding.

use crate::buffers::{capped, line_items, to_line};
use crate::bytes::{append_bytes, append_decimal, append_text, decimal, text};
use vstd::prelude::*;

verus! {

/// A command of the fixed AT vocabulary. Text parameters are ASCII bytes.
pub enum Command {
    GetDevEui,
    GetVer,
    GetDevAddr,
    GetAppEui,
    SetAppkey(Vec<u8>),
    SetAppEui(Vec<u8>),
    SetAppSKey,
    SetNwkSKey,
    Factory,
    SetStatus,
    Save,
    Reset,
    Debug,
    SetClassC,
    SetBand(u8),
    SetChmask(Vec<u8>),
    SetRx2(u8, u32),
    SetDataRate,
    SetGroupDevAddr(Vec<u8>, Vec<u8>, Vec<u8>),
}

/// The line terminator of every command.
pub open spec fn crlf() -> Seq<u8> {
    text("\r\n")
}

/// The exact bytes that a command puts on the wire.
pub open spec fn command_wire(c: &Command) -> Seq<u8> {
    match c {
        Command::Factory => text("at+factory\r\n"),
        Command::GetDevEui => text("at+deveui?\r\n"),
        Command::GetVer => text("at+ver?\r\n"),
        Command::GetDevAddr => text("at+devaddr?\r\n"),
        Command::GetAppEui => text("at+appeui?\r\n"),
        Command::SetAppkey(key) => text("at+appkey=") + key@ + crlf(),
        Command::SetAppEui(eui) => text("at+appeui=") + eui@ + crlf(),
        Command::SetAppSKey => text("at+deveui?\r\n"),
        Command::SetNwkSKey => text("at+deveui?\r\n"),
        Command::Save => text("at+save\r\n"),
        Command::Reset => text("at+reset\r\n"),
        Command::Debug => text("at+debug=0\r\n"),
        Command::SetClassC => text("at+class=2\r\n"),
        Command::SetBand(band) => text("at+band=") + decimal(*band as nat) + crlf(),
        Command::SetChmask(mask) => text("at+chmask=") + mask@ + crlf(),
        Command::SetRx2(dr, freq) => text("at+rx2=") + decimal(*dr as nat) + text(",") + decimal(
            *freq as nat,
        ) + crlf(),
        Command::SetGroupDevAddr(addr, appskey, nwkskey) => text("at+devaddr=") + addr@ + text(
            ",4,0,",
        ) + appskey@ + text(",") + nwkskey@ + crlf(),
        Command::SetStatus => text("at+status=2,2\r\n"),
        Command::SetDataRate => text("AT+DATARATE=5,3,50,1,23\r\n"),
    }
}

pub(crate) fn literal(s: &str) -> (r: Vec<u8>)
    ensures
        r@ == text(s),
{
    let mut buf: Vec<u8> = Vec::new();
    append_text(&mut buf, s);
    buf
}

impl Command {
    /// Renders the command as the ASCII line sent to the radio module, in a
    /// 128-byte line buffer (a longer rendering keeps its first 128 bytes).
    pub fn as_bytes(&self) -> (r: heapless::Vec<u8, 128>)
        ensures
            line_items(r) == capped(command_wire(self), 128),
    {
        let bytes = self.wire_bytes();
        to_line(bytes.as_slice())
    }

    /// The whole rendering of the command.
    pub fn wire_bytes(&self) -> (r: Vec<u8>)
        ensures
            r@ == command_wire(self),
    {
        match self {
            Command::Factory => literal("at+factory\r\n"),
            Command::GetDevEui => literal("at+deveui?\r\n"),
            Command::GetVer => literal("at+ver?\r\n"),
            Command::GetDevAddr => literal("at+devaddr?\r\n"),
            Command::GetAppEui => literal("at+appeui?\r\n"),
            Command::SetAppkey(appkey) => {
                let mut buf = literal("at+appkey=");
                append_bytes(&mut buf, appkey.as_slice());
                append_text(&mut buf, "\r\n");
                buf
            },
            Command::SetAppEui(appeui) => {
                let mut buf = literal("at+appeui=");
                append_bytes(&mut buf, appeui.as_slice());
                append_text(&mut buf, "\r\n");
                buf
            },
            Command::SetAppSKey => literal("at+deveui?\r\n"),
            Command::SetNwkSKey => literal("at+deveui?\r\n"),
            Command::Save => literal("at+save\r\n"),
            Command::Reset => literal("at+reset\r\n"),
            Command::Debug => literal("at+debug=0\r\n"),
            Command::SetClassC => literal("at+class=2\r\n"),
            Command::SetBand(band) => {
                let mut buf = literal("at+band=");
                append_decimal(&mut buf, *band as u32);
                append_text(&mut buf, "\r\n");
                buf
            },
            Command::SetChmask(cmask) => {
                let mut buf = literal("at+chmask=");
                append_bytes(&mut buf, cmask.as_slice());
                append_text(&mut buf, "\r\n");
                buf
            },
            Command::SetRx2(dr, freq) => {
                let mut buf = literal("at+rx2=");
                append_decimal(&mut buf, *dr as u32);
                append_text(&mut buf, ",");
                append_decimal(&mut buf, *freq);
                append_text(&mut buf, "\r\n");
                buf
            },
            Command::SetGroupDevAddr(addr, appskey, nwkskey) => {
                let mut buf = literal("at+devaddr=");
                append_bytes(&mut buf, addr.as_slice());
                append_text(&mut buf, ",4,0,");
                append_bytes(&mut buf, appskey.as_slice());
                append_text(&mut buf, ",");
                append_bytes(&mut buf, nwkskey.as_slice());
                append_text(&mut buf, "\r\n");
                buf
            },
            Command::SetStatus => literal("at+status=2,2\r\n"),
            Command::SetDataRate => literal("AT+DATARATE=5,3,50,1,23\r\n"),
        }
    }
}

/// A general-purpose pin of the radio module.
#[derive(Clone, Copy, PartialEq, Eq, Structural, Debug)]
pub enum GPIO {
    P0,
    P1,
    P2,
    P3,
}

impl GPIO {
    /// The pin's number.
    pub fn to_u8(&self) -> (r: u8)
        ensures
            r == match self {
                GPIO::P0 => 0u8,
                GPIO::P1 => 1u8,
                GPIO::P2 => 2u8,
                GPIO::P3 => 3u8,
            },
    {
        match self {
            GPIO::P0 => 0,
            GPIO::P1 => 1,
            GPIO::P2 => 2,
            GPIO::P3 => 3,
        }
    }
}

/// The level of an output pin.
#[derive(Clone, Copy, PartialEq, Eq, Structural, Debug)]
pub enum IOState {
    High,
    Low,
}

impl IOState {
    /// `1` for a high level, `0` for a low one.
    pub fn to_u8(&self) -> (r: u8)
        ensures
            r == (if *self == IOState::High { 1u8 } else { 0u8 }),
    {
        match self {
            IOState::High => 1,
            IOState::Low => 0,
        }
    }
}

/// Whether every byte of `s` is an ASCII character.
pub open spec fn ascii_bytes(s: Seq<u8>) -> bool {
    forall|i: int| 0 <= i < s.len() ==> #[trigger] s[i] < 128
}

/// Whether the text parameters of a command are ASCII.
pub open spec fn params_ascii(c: &Command) -> bool {
    match c {
        Command::SetAppkey(k) => ascii_bytes(k@),
        Command::SetAppEui(e) => ascii_bytes(e@),
        Command::SetChmask(m) => ascii_bytes(m@),
        Command::SetGroupDevAddr(a, s, n) => ascii_bytes(a@) && ascii_bytes(s@) && ascii_bytes(n@),
        _ => true,
    }
}

proof fn lemma_text_ascii(s: &str)
    requires
        vstd::string::is_ascii(s),
    ensures
        ascii_bytes(text(s)),
{
    vstd::string::is_ascii_spec_bytes(s);
}

proof fn lemma_decimal_ascii(n: nat)
    ensures
        ascii_bytes(decimal(n)),
    decreases n,
{
    if n >= 10 {
        lemma_decimal_ascii(n / 10);
    }
}

/// A command whose text parameters are ASCII renders as an ASCII line.
pub proof fn lemma_command_ascii(c: &Command)
    requires
        params_ascii(c),
    ensures
        ascii_bytes(command_wire(c)),
{
    reveal_strlit("at+factory\r\n");
    reveal_strlit("at+deveui?\r\n");
    reveal_strlit("at+ver?\r\n");
    reveal_strlit("at+devaddr?\r\n");
    reveal_strlit("at+appeui?\r\n");
    reveal_strlit("at+appkey=");
    reveal_strlit("at+appeui=");
    reveal_strlit("at+save\r\n");
    reveal_strlit("at+reset\r\n");
    reveal_strlit("at+debug=0\r\n");
    reveal_strlit("at+class=2\r\n");
    reveal_strlit("at+band=");
    reveal_strlit("at+chmask=");
    reveal_strlit("at+rx2=");
    reveal_strlit(",");
    reveal_strlit("at+devaddr=");
    reveal_strlit(",4,0,");
    reveal_strlit("at+status=2,2\r\n");
    reveal_strlit("AT+DATARATE=5,3,50,1,23\r\n");
    reveal_strlit("\r\n");
    lemma_text_ascii("at+factory\r\n");
    lemma_text_ascii("at+deveui?\r\n");
    lemma_text_ascii("at+ver?\r\n");
    lemma_text_ascii("at+devaddr?\r\n");
    lemma_text_ascii("at+appeui?\r\n");
    lemma_text_ascii("at+appkey=");
    lemma_text_ascii("at+appeui=");
    lemma_text_ascii("at+save\r\n");
    lemma_text_ascii("at+reset\r\n");
    lemma_text_ascii("at+debug=0\r\n");
    lemma_text_ascii("at+class=2\r\n");
    lemma_text_ascii("at+band=");
    lemma_text_ascii("at+chmask=");
    lemma_text_ascii("at+rx2=");
    lemma_text_ascii(",");
    lemma_text_ascii("at+devaddr=");
    lemma_text_ascii(",4,0,");
    lemma_text_ascii("at+status=2,2\r\n");
    lemma_text_ascii("AT+DATARATE=5,3,50,1,23\r\n");
    lemma_text_ascii("\r\n");
    match c {
        Command::SetBand(b) => lemma_decimal_ascii(*b as nat),
        Command::SetRx2(dr, freq) => {
            lemma_decimal_ascii(*dr as nat);
            lemma_decimal_ascii(*freq as nat);
        },
        _ => {},
    }
    assert(ascii_bytes(command_wire(c)));
}

} // verus!
