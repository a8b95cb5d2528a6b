use vstd::prelude::*;

use crate::config::{admissible, transfer_length, Config};
use crate::engine::{ReadOutcome, ReadStep, Transfer, WriteOutcome};
use crate::validator::{sanity_check, validation, DestinationInfo, ValidationError};

verus! {

/// `dst` with `data` written over it from position `at` on, growing where
/// `data` runs past its end.
pub open spec fn overwrite(dst: Seq<u8>, at: int, data: Seq<u8>) -> Seq<u8> {
    let len = if dst.len() < at + data.len() {
        at + data.len()
    } else {
        dst.len() as int
    };
    Seq::new(len as nat, |i: int| if at <= i < at + data.len() { data[i - at] } else { dst[i] })
}

/// The bytes of `source` that `cfg` selects.
pub open spec fn selected(cfg: Config, source: Seq<u8>) -> Seq<u8> {
    source.subrange(
        cfg.source_offset as int,
        cfg.source_offset + transfer_length(cfg, source.len() as u64),
    )
}

/// The destination after a run of `cfg`: the selected source bytes written
/// over it at the destination offset.
pub open spec fn copy_outcome(cfg: Config, source: Seq<u8>, dest: Seq<u8>) -> Seq<u8> {
    overwrite(dest, cfg.destination_offset as int, selected(cfg, source))
}

/// Two writes end to end are one write of both.
proof fn lemma_overwrite_append(dst: Seq<u8>, at: int, a: Seq<u8>, b: Seq<u8>)
    requires
        0 <= at <= dst.len(),
    ensures
        overwrite(overwrite(dst, at, a), at + a.len(), b) == overwrite(dst, at, a + b),
{
    assert(overwrite(overwrite(dst, at, a), at + a.len(), b) =~= overwrite(dst, at, a + b));
}

/// Replaces the contents of `buf` by the `n` bytes of `source` from `start`.
fn fill(buf: &mut Vec<u8>, source: &Vec<u8>, start: usize, n: usize)
    requires
        start + n <= source@.len(),
    ensures
        final(buf)@ == source@.subrange(start as int, start + n),
{
    buf.clear();
    let slen = source.len();
    let mut j: usize = 0;
    while j < n
        invariant
            slen == source@.len(),
            start + n <= source@.len(),
            j <= n,
            buf@ == source@.subrange(start as int, start + j),
        decreases n - j,
    {
        buf.push(source[start + j]);
        j = j + 1;
        assert(buf@ =~= source@.subrange(start as int, start + j));
    }
}

/// Writes the first `n` bytes of `chunk` into `dest` from position `at`.
fn write_at(dest: &mut Vec<u8>, at: usize, chunk: &Vec<u8>, n: usize)
    requires
        at <= old(dest)@.len(),
        n <= chunk@.len(),
    ensures
        final(dest)@ == overwrite(old(dest)@, at as int, chunk@.subrange(0, n as int)),
{
    let ghost d0 = dest@;
    let mut i: usize = 0;
    while i < n
        invariant
            at <= d0.len(),
            i <= n <= chunk@.len(),
            dest@ == overwrite(d0, at as int, chunk@.subrange(0, i as int)),
        decreases n - i,
    {
        let len = dest.len();
        assert(at + i <= len);
        let p = at + i;
        if p < len {
            dest.set(p, chunk[i]);
        } else {
            dest.push(chunk[i]);
        }
        i = i + 1;
        assert(dest@ =~= overwrite(d0, at as int, chunk@.subrange(0, i as int)));
    }
}

/// Copies between two byte buffers that stand for the source file and an
/// existing destination file: checks `cfg` as `sanity_check` does, then runs
/// the transfer a chunk at a time.  On success returns the number of bytes
/// moved; on a refusal leaves `destination` as it was.
pub fn copy_bytes(cfg: &Config, source: &Vec<u8>, destination: &mut Vec<u8>) -> (r: Result<
    u64,
    ValidationError,
>)
    ensures
        r is Ok <==> validation(
            *cfg,
            Some(source@.len() as u64),
            DestinationInfo::File { length: old(destination)@.len() as u64 },
        ) is Ok,
        r is Err ==> {
            &&& r == validation(
                *cfg,
                Some(source@.len() as u64),
                DestinationInfo::File { length: old(destination)@.len() as u64 },
            )
            &&& final(destination)@ == old(destination)@
        },
        r is Ok ==> {
            &&& r->Ok_0 == transfer_length(*cfg, source@.len() as u64)
            &&& final(destination)@ == copy_outcome(*cfg, source@, old(destination)@)
        },
{
    let slen = source.len();
    let source_length = slen as u64;
    let checked = sanity_check(
        cfg,
        Some(source_length),
        DestinationInfo::File { length: destination.len() as u64 },
    );
    if let Err(e) = checked {
        return Err(e);
    }
    let ghost d0 = destination@;
    let so = cfg.source_offset as usize;
    let doff = cfg.destination_offset as usize;
    let mut t = Transfer::new(cfg, source_length);
    let mut buf: Vec<u8> = Vec::new();
    while !t.is_complete()
        invariant
            admissible(*cfg, source_length),
            source_length == source@.len(),
            slen == source@.len(),
            so == cfg.source_offset,
            doff == cfg.destination_offset,
            doff <= d0.len(),
            t.wf(),
            t.total == transfer_length(*cfg, source_length),
            t.buffer_size == cfg.buffer_size,
            so + t.total <= source@.len(),
            destination@ == overwrite(d0, doff as int, source@.subrange(so as int, so + t.done)),
        decreases t.total - t.done,
    {
        let n = t.read_size();
        assert(t.done <= source@.len());
        let done = t.done as usize;
        let start = so + done;
        fill(&mut buf, source, start, n);
        let step = t.on_read(ReadOutcome::Data(n));
        if let ReadStep::Write(k) = step {
            let ghost written = source@.subrange(so as int, so + t.done);
            let dlen = destination.len();
            assert(doff + done <= dlen);
            write_at(destination, doff + done, &buf, k);
            proof {
                lemma_overwrite_append(d0, doff as int, written, buf@.subrange(0, k as int));
                assert(written + buf@.subrange(0, k as int) =~= source@.subrange(
                    so as int,
                    so + t.done + k,
                ));
            }
            let _ = t.on_write(k, WriteOutcome::Written);
        }
    }
    assert(selected(*cfg, source@) == source@.subrange(so as int, so + t.done));
    Ok(t.transferred())
}

} // verus!
