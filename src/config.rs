//! The persistent configuration record: the device group code and the join
//! delay ceiling, as laid out in its flash page.

use crate::buffers::{record_items, to_record};
use vstd::prelude::*;

verus! {

/// Bytes written to the flash page: the 17-byte record, zero-padded.
pub const PAGE_WRITE_LEN: usize = 32;

/// Join delay ceiling, in seconds, when the page holds none.
pub const DEFAULT_JOIN_DELAY_MAX: u8 = 30;

/// Byte value of erased flash, meaning "unset".
pub const UNSET: u8 = 0xFF;

/// The device configuration.
#[derive(Clone, Copy, Debug)]
pub struct Config {
    /// Group code: address/mask that downlinks are filtered with.
    pub code: [u8; 16],
    /// Ceiling of the initial join delay, in seconds.
    pub join_delay_max: u8,
}

/// The record's serialized bytes: the code, then the ceiling.
pub open spec fn record_bytes(c: Config) -> Seq<u8> {
    c.code@.push(c.join_delay_max)
}

/// The bytes written to the page: the record followed by zeros.
pub open spec fn page_bytes(c: Config) -> Seq<u8> {
    record_bytes(c) + Seq::new((PAGE_WRITE_LEN - 17) as nat, |i: int| 0u8)
}

/// The ceiling that a stored byte stands for: the default when it is unset.
pub open spec fn stored_delay(b: u8) -> u8 {
    if b == UNSET {
        DEFAULT_JOIN_DELAY_MAX
    } else {
        b
    }
}

impl Config {
    /// The serialized record: 16 code bytes and the ceiling.
    pub fn to_bytes(&self) -> (r: heapless::Vec<u8, 17>)
        ensures
            record_items(r) == record_bytes(*self),
    {
        let bytes = self.record_vec();
        to_record(bytes.as_slice())
    }

    fn record_vec(&self) -> (r: Vec<u8>)
        ensures
            r@ == record_bytes(*self),
    {
        let mut buf: Vec<u8> = Vec::new();
        let mut i: usize = 0;
        while i < 16
            invariant
                i <= 16,
                buf@ == self.code@.subrange(0, i as int),
            decreases 16 - i,
        {
            buf.push(self.code[i]);
            i = i + 1;
        }
        assert(self.code@.subrange(0, 16) == self.code@);
        buf.push(self.join_delay_max);
        buf
    }

    /// The page image to write after erasing: the record, zero-padded to the
    /// write granularity.
    pub fn to_page(&self) -> (r: [u8; 32])
        ensures
            r@ == page_bytes(*self),
    {
        let mut page: [u8; 32] = [0; 32];
        let mut i: usize = 0;
        while i < 16
            invariant
                i <= 16,
                page@.len() == 32,
                forall|k: int| 0 <= k < i ==> page@[k] == self.code@[k],
                forall|k: int| 16 <= k < 32 ==> page@[k] == 0,
            decreases 16 - i,
        {
            page[i] = self.code[i];
            i = i + 1;
        }
        page[16] = self.join_delay_max;
        assert(page@ =~= page_bytes(*self));
        page
    }

    /// Reads the record back from a page: the first 16 bytes are the code,
    /// the next one the ceiling, unless it is unset.
    pub fn from_page(page: &[u8; 32]) -> (r: Config)
        ensures
            r.code@ == page@.subrange(0, 16),
            r.join_delay_max == stored_delay(page@[16]),
    {
        let mut code: [u8; 16] = [0; 16];
        let mut i: usize = 0;
        while i < 16
            invariant
                i <= 16,
                code@.len() == 16,
                page@.len() == 32,
                forall|k: int| 0 <= k < i ==> code@[k] == page@[k],
            decreases 16 - i,
        {
            code[i] = page[i];
            i = i + 1;
        }
        assert(code@ =~= page@.subrange(0, 16));
        let stored = page[16];
        Config { code, join_delay_max: if stored == UNSET { DEFAULT_JOIN_DELAY_MAX } else { stored } }
    }

    /// Whether the group code is still the erased default (all `0xFF`), so the
    /// device has to ask the network for one.
    pub fn is_unprovisioned(&self) -> (r: bool)
        ensures
            r == (forall|i: int| 0 <= i < 16 ==> #[trigger] self.code@[i] == UNSET),
    {
        let mut i: usize = 0;
        while i < 16
            invariant
                i <= 16,
                forall|k: int| 0 <= k < i ==> #[trigger] self.code@[k] == UNSET,
            decreases 16 - i,
        {
            if self.code[i] != UNSET {
                return false;
            }
            i = i + 1;
        }
        true
    }
}

/// Writing a configuration and reading the page back gives the same code
/// bytes, and the same ceiling unless the ceiling was the unset value.
pub proof fn lemma_config_round_trip(c: Config)
    ensures
        page_bytes(c).len() == PAGE_WRITE_LEN,
        page_bytes(c).subrange(0, 16) == c.code@,
        stored_delay(page_bytes(c)[16]) == stored_delay(c.join_delay_max),
        c.join_delay_max != UNSET ==> stored_delay(page_bytes(c)[16]) == c.join_delay_max,
{
    assert(page_bytes(c).subrange(0, 16) =~= c.code@);
}

/// The in-memory copy of the configuration, which is authoritative once read.
pub struct ConfigCache {
    pub current: Option<Config>,
}

impl ConfigCache {
    pub fn new() -> (r: ConfigCache)
        ensures
            r.current.is_none(),
    {
        ConfigCache { current: None }
    }

    /// Records the outcome of a flash write of `conf`: the cache takes the new
    /// configuration only when the write succeeded; after a failure the
    /// previous one stays.
    pub fn commit(&mut self, conf: Config, written: bool)
        ensures
            written ==> final(self).current == Some(conf),
            !written ==> final(self).current == old(self).current,
    {
        if written {
            self.current = Some(conf);
        }
    }
}

} // verus!
