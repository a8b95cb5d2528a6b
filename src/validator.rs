use vstd::prelude::*;

use crate::config::{admissible, Config};

verus! {

/// What is known of the destination before the copy.
#[derive(Clone, Copy, Debug, PartialEq, Eq, Structural)]
pub enum DestinationInfo {
    /// Nothing exists at the destination path.
    Missing,
    /// The destination path names a directory.
    Directory,
    /// The destination is a file of the given length in bytes.
    File { length: u64 },
    /// The destination exists but its metadata could not be read.
    Unreadable,
}

/// Why a configuration is refused before any byte moves.
#[derive(Clone, Copy, Debug, PartialEq, Eq, Structural)]
pub enum ValidationError {
    /// The source's metadata could not be obtained.
    SourceUnreadable,
    /// The source offset is not before the end of the source.
    OffsetBeyondSource,
    /// The source offset plus the count runs past the end of the source.
    CountExceedsSource,
    /// The destination is a directory.
    DestinationIsDirectory,
    /// The destination exists but its metadata could not be obtained.
    DestinationUnreadable,
    /// The destination offset lies past the end of the destination.
    DestinationOffsetBeyondDestination,
    /// A nonzero destination offset was asked of a destination that does
    /// not exist.
    OffsetOnMissingDestination,
    /// The buffer size is zero.
    EmptyBuffer,
}

/// Whether the destination can take a write at the configured offset: an
/// existing file no shorter than the offset, or a missing file and offset 0.
pub open spec fn destination_accepts(cfg: Config, dest: DestinationInfo) -> bool {
    match dest {
        DestinationInfo::File { length } => cfg.destination_offset <= length,
        DestinationInfo::Missing => cfg.destination_offset == 0,
        _ => false,
    }
}

/// The verdict on a configuration, checks taken in order: the source, the
/// source offset, the count, the destination, the buffer size.  On success,
/// the source length.
pub open spec fn validation(
    cfg: Config,
    source_length: Option<u64>,
    dest: DestinationInfo,
) -> Result<u64, ValidationError> {
    match source_length {
        None => Err(ValidationError::SourceUnreadable),
        Some(len) => if cfg.source_offset >= len {
            Err(ValidationError::OffsetBeyondSource)
        } else if cfg.count is Some && cfg.source_offset + cfg.count->0 > len {
            Err(ValidationError::CountExceedsSource)
        } else {
            match dest {
                DestinationInfo::Directory => Err(ValidationError::DestinationIsDirectory),
                DestinationInfo::Unreadable => Err(ValidationError::DestinationUnreadable),
                DestinationInfo::File { length } => if cfg.destination_offset > length {
                    Err(ValidationError::DestinationOffsetBeyondDestination)
                } else if cfg.buffer_size == 0 {
                    Err(ValidationError::EmptyBuffer)
                } else {
                    Ok(len)
                },
                DestinationInfo::Missing => if cfg.destination_offset > 0 {
                    Err(ValidationError::OffsetOnMissingDestination)
                } else if cfg.buffer_size == 0 {
                    Err(ValidationError::EmptyBuffer)
                } else {
                    Ok(len)
                },
            }
        },
    }
}

/// Checks a configuration against the source's length (`None` when its
/// metadata could not be read) and what is known of the destination.
/// Returns the source length when the copy may go ahead.
pub fn sanity_check(
    cfg: &Config,
    source_length: Option<u64>,
    dest: DestinationInfo,
) -> (r: Result<u64, ValidationError>)
    ensures
        r == validation(*cfg, source_length, dest),
        r is Ok <==> (source_length is Some && admissible(*cfg, source_length->0)
            && destination_accepts(*cfg, dest)),
        r is Ok ==> r->Ok_0 == source_length->0,
{
    let len = match source_length {
        None => return Err(ValidationError::SourceUnreadable),
        Some(len) => len,
    };
    if len <= cfg.source_offset {
        return Err(ValidationError::OffsetBeyondSource);
    }
    if let Some(c) = cfg.count {
        if c > len - cfg.source_offset {
            return Err(ValidationError::CountExceedsSource);
        }
    }
    match dest {
        DestinationInfo::Directory => {
            return Err(ValidationError::DestinationIsDirectory);
        },
        DestinationInfo::Unreadable => {
            return Err(ValidationError::DestinationUnreadable);
        },
        DestinationInfo::File { length } => {
            if length < cfg.destination_offset {
                return Err(ValidationError::DestinationOffsetBeyondDestination);
            }
        },
        DestinationInfo::Missing => {
            if cfg.destination_offset > 0 {
                return Err(ValidationError::OffsetOnMissingDestination);
            }
        },
    }
    if cfg.buffer_size == 0 {
        return Err(ValidationError::EmptyBuffer);
    }
    Ok(len)
}

} // verus!
