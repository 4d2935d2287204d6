//! Parsers for the replies of the radio module.
//!
//! Each reply is found by a literal marker; a fixed-width field after it is
//! the value. A buffer without the marker, or one that ends too soon after it,
//! does not parse.

use crate::bytes::{find, find_first, text};
use crate::utils::{is_eui_hex, is_hex_digit};
use vstd::prelude::*;

verus! {

/// A reply shape that a raw receive buffer may hold.
pub trait CommandResultTrait: Sized {
    /// Whether `buf` holds a reply of this shape.
    spec fn accepts(buf: Seq<u8>) -> bool;

    /// Whether `self` is the value that `buf` holds.
    spec fn parsed_from(&self, buf: Seq<u8>) -> bool;

    /// Parses a receive buffer.
    fn parse(buf: &[u8]) -> (r: Result<Self, ()>)
        ensures
            r.is_ok() == Self::accepts(buf@),
            r matches Ok(v) ==> v.parsed_from(buf@),
    ;
}

/// `s` without its space characters.
pub open spec fn strip_spaces(s: Seq<u8>) -> Seq<u8>
    decreases s.len(),
{
    if s.len() == 0 {
        s
    } else if s.last() == 32 {
        strip_spaces(s.drop_last())
    } else {
        strip_spaces(s.drop_last()).push(s.last())
    }
}

/// The bytes of `s[start..end]` without spaces.
fn copy_without_spaces(s: &[u8], start: usize, end: usize) -> (r: Vec<u8>)
    requires
        start <= end <= s@.len(),
    ensures
        r@ == strip_spaces(s@.subrange(start as int, end as int)),
{
    let mut out: Vec<u8> = Vec::new();
    let mut i: usize = start;
    while i < end
        invariant
            start <= i <= end <= s@.len(),
            out@ == strip_spaces(s@.subrange(start as int, i as int)),
        decreases end - i,
    {
        let ghost before = s@.subrange(start as int, i as int);
        assert(s@.subrange(start as int, i + 1).drop_last() == before);
        if s[i] != 32 {
            out.push(s[i]);
        }
        i = i + 1;
    }
    out
}

/// The bytes of `s[start..end]`.
fn copy_range(s: &[u8], start: usize, end: usize) -> (r: Vec<u8>)
    requires
        start <= end <= s@.len(),
    ensures
        r@ == s@.subrange(start as int, end as int),
{
    let mut out: Vec<u8> = Vec::new();
    let mut i: usize = start;
    while i < end
        invariant
            start <= i <= end <= s@.len(),
            out@ == s@.subrange(start as int, i as int),
        decreases end - i,
    {
        out.push(s[i]);
        i = i + 1;
    }
    out
}

/// Whether every byte of `s` is a hexadecimal digit.
pub open spec fn all_hex(s: Seq<u8>) -> bool {
    forall|i: int| 0 <= i < s.len() ==> is_hex_digit(#[trigger] s[i])
}

/// Whether every byte of `s` is a hexadecimal digit.
pub fn hex_digits(s: &[u8]) -> (r: bool)
    ensures
        r == all_hex(s@),
{
    let mut i: usize = 0;
    while i < s.len()
        invariant
            i <= s@.len(),
            forall|k: int| 0 <= k < i ==> is_hex_digit(#[trigger] s@[k]),
        decreases s@.len() - i,
    {
        let c = s[i];
        if !((48 <= c && c <= 57) || (97 <= c && c <= 102) || (65 <= c && c <= 70)) {
            return false;
        }
        i = i + 1;
    }
    true
}

/// Length, in characters, of the identifier that an EUI reply carries.
pub const EUI_LEN: usize = 16;

/// Longest firmware version text that a version reply may carry.
pub const VERSION_CAPACITY: usize = 128;

/// The identifier after an EUI marker (`+DEVEUI:` or `+APPEUI:`): the 23
/// characters that follow the marker and one separator, without spaces. The
/// buffer must go on for at least one byte after them, and the identifier
/// must be exactly 16 hexadecimal digits.
pub open spec fn eui_field(buf: Seq<u8>, marker: Seq<u8>) -> Option<Seq<u8>> {
    match find_first(buf, marker) {
        Some(m) => if m + 32 < buf.len() && is_eui_hex(strip_spaces(buf.subrange(m + 9, m + 32))) {
            Some(strip_spaces(buf.subrange(m + 9, m + 32)))
        } else {
            None
        },
        None => None,
    }
}

/// The address after `+DEVADDR:`: the 8 characters that follow the marker and
/// one separator, with at least one byte after them; they must all be
/// hexadecimal digits.
pub open spec fn dev_addr_field(buf: Seq<u8>) -> Option<Seq<u8>> {
    match find_first(buf, text("+DEVADDR:")) {
        Some(m) => if m + 18 < buf.len() && all_hex(buf.subrange(m + 10, m + 18)) {
            Some(buf.subrange(m + 10, m + 18))
        } else {
            None
        },
        None => None,
    }
}

/// The version text after `+VER:`: everything up to the last six bytes of the
/// buffer, at most 128 bytes.
pub open spec fn version_field(buf: Seq<u8>) -> Option<Seq<u8>> {
    match find_first(buf, text("+VER:")) {
        Some(m) => if m + 5 + 6 <= buf.len() && buf.len() - 6 - (m + 5) <= VERSION_CAPACITY {
            Some(buf.subrange(m + 5, buf.len() - 6))
        } else {
            None
        },
        None => None,
    }
}

fn parse_eui(buf: &[u8], marker: &str) -> (r: Option<Vec<u8>>)
    ensures
        match r {
            Some(v) => eui_field(buf@, text(marker)) == Some(v@),
            None => eui_field(buf@, text(marker)).is_none(),
        },
{
    match find(buf, marker.as_bytes()) {
        Some(m) => {
            if m < buf.len() && buf.len() - m > 32 {
                let value = copy_without_spaces(buf, m + 9, m + 32);
                if value.len() == EUI_LEN && hex_digits(value.as_slice()) {
                    Some(value)
                } else {
                    None
                }
            } else {
                None
            }
        },
        None => None,
    }
}

/// Reply to the device EUI query, e.g. `+DEVEUI: 00 95 69 06 00 01 28 9C`.
pub struct GetDevEuiResult(pub Vec<u8>);

impl CommandResultTrait for GetDevEuiResult {
    open spec fn accepts(buf: Seq<u8>) -> bool {
        eui_field(buf, text("+DEVEUI:")).is_some()
    }

    open spec fn parsed_from(&self, buf: Seq<u8>) -> bool {
        eui_field(buf, text("+DEVEUI:")) == Some(self.0@)
    }

    fn parse(buf: &[u8]) -> (r: Result<GetDevEuiResult, ()>) {
        match parse_eui(buf, "+DEVEUI:") {
            Some(v) => Ok(GetDevEuiResult(v)),
            None => Err(()),
        }
    }
}

/// Reply to the device address query, e.g. `+DEVADDR: BE75D8B7`.
pub struct GetDevAddrResult(pub Vec<u8>);

impl CommandResultTrait for GetDevAddrResult {
    open spec fn accepts(buf: Seq<u8>) -> bool {
        dev_addr_field(buf).is_some()
    }

    open spec fn parsed_from(&self, buf: Seq<u8>) -> bool {
        dev_addr_field(buf) == Some(self.0@)
    }

    fn parse(buf: &[u8]) -> (r: Result<GetDevAddrResult, ()>) {
        match find(buf, "+DEVADDR:".as_bytes()) {
            Some(m) => {
                if m < buf.len() && buf.len() - m > 18 {
                    let value = copy_range(buf, m + 10, m + 18);
                    if hex_digits(value.as_slice()) {
                        Ok(GetDevAddrResult(value))
                    } else {
                        Err(())
                    }
                } else {
                    Err(())
                }
            },
            None => Err(()),
        }
    }
}

/// Reply to the application EUI query, e.g. `+APPEUI: 00 95 69 06 00 01 28 9C`.
pub struct GetAppEuiResult(pub Vec<u8>);

impl CommandResultTrait for GetAppEuiResult {
    open spec fn accepts(buf: Seq<u8>) -> bool {
        eui_field(buf, text("+APPEUI:")).is_some()
    }

    open spec fn parsed_from(&self, buf: Seq<u8>) -> bool {
        eui_field(buf, text("+APPEUI:")) == Some(self.0@)
    }

    fn parse(buf: &[u8]) -> (r: Result<GetAppEuiResult, ()>) {
        match parse_eui(buf, "+APPEUI:") {
            Some(v) => Ok(GetAppEuiResult(v)),
            None => Err(()),
        }
    }
}

/// Reply to the firmware version query: free text after `+VER:`.
pub struct GetVerResult(pub Vec<u8>);

impl CommandResultTrait for GetVerResult {
    open spec fn accepts(buf: Seq<u8>) -> bool {
        version_field(buf).is_some()
    }

    open spec fn parsed_from(&self, buf: Seq<u8>) -> bool {
        version_field(buf) == Some(self.0@)
    }

    fn parse(buf: &[u8]) -> (r: Result<GetVerResult, ()>) {
        match find(buf, "+VER:".as_bytes()) {
            Some(m) => {
                let len = buf.len();
                if m <= len && len - m >= 11 && len - 6 - (m + 5) <= VERSION_CAPACITY {
                    Ok(GetVerResult(copy_range(buf, m + 5, len - 6)))
                } else {
                    Err(())
                }
            },
            None => Err(()),
        }
    }
}

/// Acknowledgement of a command whose reply carries nothing: any buffer will do.
pub struct VoidResult();

impl CommandResultTrait for VoidResult {
    open spec fn accepts(buf: Seq<u8>) -> bool {
        true
    }

    open spec fn parsed_from(&self, buf: Seq<u8>) -> bool {
        true
    }

    fn parse(_buf: &[u8]) -> (r: Result<VoidResult, ()>) {
        Ok(VoidResult())
    }
}

/// No parser with a marker accepts a buffer that lacks its marker, or one
/// that ends too soon after the marker for the field it carries.
pub proof fn lemma_reply_needs_marker(buf: Seq<u8>)
    ensures
        find_first(buf, text("+DEVEUI:")).is_none() ==> !GetDevEuiResult::accepts(buf),
        find_first(buf, text("+APPEUI:")).is_none() ==> !GetAppEuiResult::accepts(buf),
        find_first(buf, text("+DEVADDR:")).is_none() ==> !GetDevAddrResult::accepts(buf),
        find_first(buf, text("+VER:")).is_none() ==> !GetVerResult::accepts(buf),
        (find_first(buf, text("+APPEUI:")) matches Some(m) && m + 32 >= buf.len())
            ==> !GetAppEuiResult::accepts(buf),
        (find_first(buf, text("+DEVADDR:")) matches Some(m) && m + 18 >= buf.len())
            ==> !GetDevAddrResult::accepts(buf),
        (find_first(buf, text("+VER:")) matches Some(m) && m + 11 > buf.len())
            ==> !GetVerResult::accepts(buf),
{
}

/// A buffer that starts with `+DEVEUI:`, a separator and a 23-byte field,
/// and goes on for at least one more byte, parses to the field without
/// spaces when that is exactly 16 hexadecimal digits; otherwise it does not parse. A buffer without the marker, or
/// one that ends within 32 bytes of it, does not parse.
pub proof fn lemma_dev_eui_reply(buf: Seq<u8>, field: Seq<u8>, tail: Seq<u8>)
    ensures
        find_first(buf, text("+DEVEUI:")).is_none() ==> !GetDevEuiResult::accepts(buf),
        (find_first(buf, text("+DEVEUI:")) matches Some(m) && m + 32 >= buf.len())
            ==> !GetDevEuiResult::accepts(buf),
        buf == text("+DEVEUI:") + seq![32u8] + field + tail && field.len() == 23 && tail.len() >= 1
            && is_eui_hex(strip_spaces(field)) ==> GetDevEuiResult::accepts(buf) && eui_field(
            buf,
            text("+DEVEUI:"),
        ) == Some(strip_spaces(field)),
        buf == text("+DEVEUI:") + seq![32u8] + field + tail && field.len() == 23 && tail.len() >= 1
            && !is_eui_hex(strip_spaces(field)) ==> !GetDevEuiResult::accepts(buf),
{
    let marker = text("+DEVEUI:");
    if buf == marker + seq![32u8] + field + tail && field.len() == 23 && tail.len() >= 1 {
        reveal_strlit("+DEVEUI:");
        assert(vstd::string::is_ascii("+DEVEUI:"));
        vstd::string::is_ascii_spec_bytes("+DEVEUI:");
        assert(marker.len() == 8);
        assert(buf.subrange(0, 8) =~= marker);
        assert(buf.subrange(9, 32) =~= field);
    }
}

} // verus!
