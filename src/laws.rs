use vstd::prelude::*;

use crate::config::{transfer_length, Config};
use crate::memory::{copy_outcome, selected};
use crate::validator::{destination_accepts, validation, DestinationInfo, ValidationError};

verus! {

/// The validation of a copy between an in-memory source and an existing
/// in-memory destination.
pub open spec fn accepted_between(cfg: Config, source: Seq<u8>, dest: Seq<u8>) -> bool {
    &&& source.len() <= u64::MAX
    &&& dest.len() <= u64::MAX
    &&& validation(
        cfg,
        Some(source.len() as u64),
        DestinationInfo::File { length: dest.len() as u64 },
    ) is Ok
}

/// For every accepted configuration the run moves `count` bytes, or all of
/// the source from the source offset when no count is given, and the
/// destination holds exactly those source bytes from the destination offset.
pub proof fn lemma_copy_places_selected_bytes(cfg: Config, source: Seq<u8>, dest: Seq<u8>)
    requires
        accepted_between(cfg, source, dest),
    ensures
        transfer_length(cfg, source.len() as u64) == match cfg.count {
            Some(c) => c as int,
            None => source.len() - cfg.source_offset,
        },
        copy_outcome(cfg, source, dest).len() >= cfg.destination_offset + transfer_length(
            cfg,
            source.len() as u64,
        ),
        copy_outcome(cfg, source, dest).subrange(
            cfg.destination_offset as int,
            cfg.destination_offset + transfer_length(cfg, source.len() as u64),
        ) == source.subrange(
            cfg.source_offset as int,
            cfg.source_offset + transfer_length(cfg, source.len() as u64),
        ),
{
    let tl = transfer_length(cfg, source.len() as u64);
    let d = cfg.destination_offset as int;
    assert(copy_outcome(cfg, source, dest).subrange(d, d + tl) =~= selected(cfg, source));
}

/// For every accepted configuration the destination bytes outside the
/// written range keep their old values, and the destination grows only as far
/// as the written range reaches.
pub proof fn lemma_copy_preserves_rest(cfg: Config, source: Seq<u8>, dest: Seq<u8>)
    requires
        accepted_between(cfg, source, dest),
    ensures
        copy_outcome(cfg, source, dest).len() == if dest.len() < cfg.destination_offset
            + transfer_length(cfg, source.len() as u64) {
            cfg.destination_offset + transfer_length(cfg, source.len() as u64)
        } else {
            dest.len() as int
        },
        forall|i: int|
            0 <= i < dest.len() && !(cfg.destination_offset <= i < cfg.destination_offset
                + transfer_length(cfg, source.len() as u64)) ==> #[trigger] copy_outcome(
                cfg,
                source,
                dest,
            )[i] == dest[i],
{
}

/// A source offset equal to the source length is refused, whatever the
/// destination.
pub proof fn lemma_offset_at_source_end_rejected(
    cfg: Config,
    source_length: u64,
    dest: DestinationInfo,
)
    requires
        cfg.source_offset == source_length,
    ensures
        validation(cfg, Some(source_length), dest) == Err::<u64, ValidationError>(
            ValidationError::OffsetBeyondSource,
        ),
{
}

/// A source offset at the last byte of the source, with no count, is
/// accepted wherever the destination and buffer are, and moves one byte.
pub proof fn lemma_last_source_byte_accepted(
    cfg: Config,
    source_length: u64,
    dest: DestinationInfo,
)
    requires
        source_length > 0,
        cfg.source_offset == source_length - 1,
        cfg.count is None,
        destination_accepts(cfg, dest),
        cfg.buffer_size > 0,
    ensures
        validation(cfg, Some(source_length), dest) == Ok::<u64, ValidationError>(source_length),
        transfer_length(cfg, source_length) == 1,
{
}

/// A count that ends exactly at the end of the source is accepted wherever
/// the destination and buffer are, as long as the offset lies within the
/// source.
pub proof fn lemma_count_to_source_end_accepted(
    cfg: Config,
    source_length: u64,
    dest: DestinationInfo,
)
    requires
        cfg.count is Some,
        cfg.source_offset + cfg.count->0 == source_length,
        cfg.source_offset < source_length,
        destination_accepts(cfg, dest),
        cfg.buffer_size > 0,
    ensures
        validation(cfg, Some(source_length), dest) == Ok::<u64, ValidationError>(source_length),
        transfer_length(cfg, source_length) == cfg.count->0,
{
}

/// A nonzero destination offset on a missing destination is refused,
/// whatever the source.
pub proof fn lemma_offset_on_missing_destination_rejected(
    cfg: Config,
    source_length: Option<u64>,
)
    requires
        cfg.destination_offset > 0,
    ensures
        validation(cfg, source_length, DestinationInfo::Missing) is Err,
{
}

/// Two configurations that differ at most in buffer size are accepted alike,
/// move the same number of bytes and leave the same destination.
pub proof fn lemma_buffer_size_irrelevant(a: Config, b: Config, source: Seq<u8>, dest: Seq<u8>)
    requires
        a.source_offset == b.source_offset,
        a.destination_offset == b.destination_offset,
        a.count == b.count,
        a.buffer_size > 0,
        b.buffer_size > 0,
    ensures
        accepted_between(a, source, dest) == accepted_between(b, source, dest),
        transfer_length(a, source.len() as u64) == transfer_length(b, source.len() as u64),
        copy_outcome(a, source, dest) == copy_outcome(b, source, dest),
{
    assert(copy_outcome(a, source, dest) =~= copy_outcome(b, source, dest));
}

} // verus!
