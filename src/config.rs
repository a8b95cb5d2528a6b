use vstd::prelude::*;

verus! {

/// Chunk size used when none is given: one mebibyte.
pub const DEFAULT_BUFFER_SIZE: usize = 1048576;

/// What one run copies, and from where to where.
pub struct Config {
    /// The file read from.
    pub source_path: String,
    /// The file written to; created when absent.
    pub destination_path: String,
    /// Byte position in the source at which reading starts.
    pub source_offset: u64,
    /// Byte position in the destination at which writing starts.
    pub destination_offset: u64,
    /// Number of bytes to copy; `None` copies through the end of the source.
    pub count: Option<u64>,
    /// Size of the chunk moved by each read and write.
    pub buffer_size: usize,
    /// Whether progress is reported.
    pub verbose: bool,
}

/// The number of bytes a run moves: `count`, or everything from the source
/// offset to the end of the source.
pub open spec fn transfer_length(cfg: Config, source_length: u64) -> int {
    match cfg.count {
        Some(c) => c as int,
        None => source_length - cfg.source_offset,
    }
}

/// The conditions on the source side and on the buffer under which a copy
/// may start: at least one byte lies past the source offset, the requested
/// range ends within the source, and the buffer is not empty.
pub open spec fn admissible(cfg: Config, source_length: u64) -> bool {
    &&& cfg.source_offset < source_length
    &&& match cfg.count {
        Some(c) => cfg.source_offset + c <= source_length,
        None => true,
    }
    &&& cfg.buffer_size > 0
}

impl Config {
    /// A configuration with the default settings: both offsets 0, no count,
    /// a one-mebibyte buffer, no progress.
    pub fn new(source_path: String, destination_path: String) -> (r: Config)
        ensures
            r.source_path == source_path,
            r.destination_path == destination_path,
            r.source_offset == 0,
            r.destination_offset == 0,
            r.count is None,
            r.buffer_size == DEFAULT_BUFFER_SIZE,
            !r.verbose,
    {
        Config {
            source_path,
            destination_path,
            source_offset: 0,
            destination_offset: 0,
            count: None,
            buffer_size: DEFAULT_BUFFER_SIZE,
            verbose: false,
        }
    }

    /// The number of bytes this configuration moves out of a source of the
    /// given length.
    pub fn transfer_length(&self, source_length: u64) -> (r: u64)
        requires
            admissible(*self, source_length),
        ensures
            r == transfer_length(*self, source_length),
    {
        match self.count {
            Some(c) => c,
            None => source_length - self.source_offset,
        }
    }
}

} // verus!
