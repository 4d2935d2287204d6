//! Fixed-capacity byte buffers (heapless vectors) that hold what the library
//! puts on the wire or in flash. A push beyond the capacity is refused, so a
//! buffer keeps the first `N` bytes of what is pushed into it.

use vstd::prelude::*;

verus! {

#[verifier::external_type_specification]
#[verifier::external_body]
#[verifier::reject_recursive_types(T)]
pub struct ExHeaplessVec<T, const N: usize>(heapless::Vec<T, N>);

/// The first `n` bytes of `s`, or all of `s` when it is shorter.
pub open spec fn capped(s: Seq<u8>, n: nat) -> Seq<u8> {
    if s.len() <= n {
        s
    } else {
        s.subrange(0, n as int)
    }
}

/// The bytes held by a command-line buffer.
pub uninterp spec fn line_items(v: heapless::Vec<u8, 128>) -> Seq<u8>;

/// The bytes held by a frame buffer.
pub uninterp spec fn frame_items(v: heapless::Vec<u8, 64>) -> Seq<u8>;

/// The bytes held by a configuration-record buffer.
pub uninterp spec fn record_items(v: heapless::Vec<u8, 17>) -> Seq<u8>;

/// Relies on heapless::Vec::new: the new vector holds nothing.
#[verifier::external_body]
fn line_new() -> (r: heapless::Vec<u8, 128>)
    ensures
        line_items(r) == Seq::<u8>::empty(),
{
    heapless::Vec::new()
}

/// Relies on heapless::Vec::push: the byte is appended when fewer than 128
/// are held (the capacity); otherwise the push fails and nothing changes.
#[verifier::external_body]
fn line_push(v: &mut heapless::Vec<u8, 128>, b: u8) -> (ok: bool)
    ensures
        ok == (line_items(*old(v)).len() < 128),
        ok ==> line_items(*final(v)) == line_items(*old(v)).push(b),
        !ok ==> line_items(*final(v)) == line_items(*old(v)),
{
    v.push(b).is_ok()
}

/// Relies on heapless::Vec::new: the new vector holds nothing.
#[verifier::external_body]
fn frame_new() -> (r: heapless::Vec<u8, 64>)
    ensures
        frame_items(r) == Seq::<u8>::empty(),
{
    heapless::Vec::new()
}

/// Relies on heapless::Vec::push: the byte is appended when fewer than 64
/// are held (the capacity); otherwise the push fails and nothing changes.
#[verifier::external_body]
fn frame_push(v: &mut heapless::Vec<u8, 64>, b: u8) -> (ok: bool)
    ensures
        ok == (frame_items(*old(v)).len() < 64),
        ok ==> frame_items(*final(v)) == frame_items(*old(v)).push(b),
        !ok ==> frame_items(*final(v)) == frame_items(*old(v)),
{
    v.push(b).is_ok()
}

/// Relies on heapless::Vec::new: the new vector holds nothing.
#[verifier::external_body]
fn record_new() -> (r: heapless::Vec<u8, 17>)
    ensures
        record_items(r) == Seq::<u8>::empty(),
{
    heapless::Vec::new()
}

/// Relies on heapless::Vec::push: the byte is appended when fewer than 17
/// are held (the capacity); otherwise the push fails and nothing changes.
#[verifier::external_body]
fn record_push(v: &mut heapless::Vec<u8, 17>, b: u8) -> (ok: bool)
    ensures
        ok == (record_items(*old(v)).len() < 17),
        ok ==> record_items(*final(v)) == record_items(*old(v)).push(b),
        !ok ==> record_items(*final(v)) == record_items(*old(v)),
{
    v.push(b).is_ok()
}

/// A command-line buffer holding the first 128 bytes of `s`.
pub fn to_line(s: &[u8]) -> (r: heapless::Vec<u8, 128>)
    ensures
        line_items(r) == capped(s@, 128),
{
    let mut v = line_new();
    let mut i: usize = 0;
    while i < s.len()
        invariant
            i <= s@.len(),
            line_items(v) == capped(s@.subrange(0, i as int), 128),
        decreases s@.len() - i,
    {
        let _ = line_push(&mut v, s[i]);
        i = i + 1;
        assert(capped(s@.subrange(0, i as int), 128) =~= if i <= 128 {
            s@.subrange(0, i - 1).push(s@[i - 1])
        } else {
            s@.subrange(0, 128)
        });
    }
    assert(s@.subrange(0, s@.len() as int) == s@);
    v
}

/// A frame buffer holding the first 64 bytes of `s`.
pub fn to_frame(s: &[u8]) -> (r: heapless::Vec<u8, 64>)
    ensures
        frame_items(r) == capped(s@, 64),
{
    let mut v = frame_new();
    let mut i: usize = 0;
    while i < s.len()
        invariant
            i <= s@.len(),
            frame_items(v) == capped(s@.subrange(0, i as int), 64),
        decreases s@.len() - i,
    {
        let _ = frame_push(&mut v, s[i]);
        i = i + 1;
        assert(capped(s@.subrange(0, i as int), 64) =~= if i <= 64 {
            s@.subrange(0, i - 1).push(s@[i - 1])
        } else {
            s@.subrange(0, 64)
        });
    }
    assert(s@.subrange(0, s@.len() as int) == s@);
    v
}

/// A record buffer holding the first 17 bytes of `s`.
pub fn to_record(s: &[u8]) -> (r: heapless::Vec<u8, 17>)
    ensures
        record_items(r) == capped(s@, 17),
{
    let mut v = record_new();
    let mut i: usize = 0;
    while i < s.len()
        invariant
            i <= s@.len(),
            record_items(v) == capped(s@.subrange(0, i as int), 17),
        decreases s@.len() - i,
    {
        let _ = record_push(&mut v, s[i]);
        i = i + 1;
        assert(capped(s@.subrange(0, i as int), 17) =~= if i <= 17 {
            s@.subrange(0, i - 1).push(s@[i - 1])
        } else {
            s@.subrange(0, 17)
        });
    }
    assert(s@.subrange(0, s@.len() as int) == s@);
    v
}

} // verus!
