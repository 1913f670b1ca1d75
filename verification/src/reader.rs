//! Incremental reading of log files.

use vstd::prelude::*;
use vstd::slice::slice_subrange;

use crate::ansi::{decode_lossy, keeps_valid, lossy_decoded};

verus! {

/// What a log holds from a position on. Behind its end it holds nothing.
pub open spec fn tail_at(log: Seq<u8>, pos: nat) -> Seq<u8> {
    if pos <= log.len() {
        log.skip(pos as int)
    } else {
        Seq::empty()
    }
}

/// The position after a read from `pos`. A position behind the end of the log stays where it is.
pub open spec fn pos_after(log: Seq<u8>, pos: nat) -> nat {
    pos + tail_at(log, pos).len()
}

/// Takes what a log file holds from `pos` on. Returns its text and the position after it.
pub fn read_tail(tail: &[u8], pos: u64) -> (r: (String, u64))
    requires
        pos + tail@.len() <= u64::MAX,
    ensures
        r.0@ == lossy_decoded(tail@),
        r.0@.len() == 0 <== tail@.len() == 0,
        r.1 == pos + tail@.len(),
        keeps_valid(tail@),
{
    let text = decode_lossy(tail);
    (text, pos + tail.len() as u64)
}

/// Reads on in a log from a position. Returns the text of what it holds from there on, and the
/// position after it.
pub fn read_from_position(log: &[u8], pos: u64) -> (r: (String, u64))
    ensures
        r.0@ == lossy_decoded(tail_at(log@, pos as nat)),
        r.0@.len() == 0 <== pos >= log@.len(),
        r.1 == pos_after(log@, pos as nat),
        keeps_valid(tail_at(log@, pos as nat)),
{
    if pos >= log.len() as u64 {
        let text = decode_lossy(slice_subrange(log, 0, 0));
        assert(log@.subrange(0, 0) =~= tail_at(log@, pos as nat));
        return (text, pos);
    }
    let tail = slice_subrange(log, pos as usize, log.len());
    read_tail(tail, pos)
}

/// Reading is incremental: a read returns only what came since the last one. While the log grows
/// from `log` to `log + more`, two reads return what one read at the end would have returned,
/// each byte once, and end at the same position.
pub proof fn law_reads_are_incremental(log: Seq<u8>, more: Seq<u8>, pos: nat)
    requires
        pos <= log.len(),
    ensures
        tail_at(log, pos) + tail_at(log + more, pos_after(log, pos)) == tail_at(log + more, pos),
        tail_at(log + more, pos_after(log, pos)) == more,
        pos_after(log + more, pos_after(log, pos)) == pos_after(log + more, pos),
        pos_after(log, pos) == log.len(),
{
}

/// A read at the end of the log returns nothing and stays there.
pub proof fn law_nothing_is_read_twice(log: Seq<u8>, pos: nat)
    ensures
        tail_at(log, pos_after(log, pos)) == Seq::<u8>::empty(),
        pos_after(log, pos_after(log, pos)) == pos_after(log, pos),
{
}

/// A read from behind the end finds nothing and stays where it is; one from within finds what
/// stands behind its position.
pub proof fn law_read_finds_what_stands_behind(read: Seq<u8>, rest: Seq<u8>, pos: nat)
    requires
        pos > read.len(),
    ensures
        tail_at(read + rest, read.len()) == rest,
        pos_after(read + rest, read.len()) == read.len() + rest.len(),
        tail_at(read, pos) == Seq::<u8>::empty(),
        pos_after(read, pos) == pos,
{
    assert((read + rest).skip(read.len() as int) =~= rest);
}

} // verus!
