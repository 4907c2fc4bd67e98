//! Configuration of the rotating JSON-lines log sink. The sink itself is
//! file I/O and lives with the embedding application.

use vstd::prelude::*;

verus! {

#[derive(Debug, Clone, PartialEq, Eq)]
pub struct LogSinkConfig {
    pub dir: String,
    pub max_file_bytes: u64,
    pub max_files: usize,
}

impl LogSinkConfig {
    /// The default sink bounds: 8 MiB per file, fourteen files kept.
    pub fn new(dir: String) -> (r: Self)
        ensures
            r.dir@ == dir@,
            r.max_file_bytes == 8388608u64,
            r.max_files == 14,
    {
        LogSinkConfig { dir, max_file_bytes: 8 * 1024 * 1024, max_files: 14 }
    }
}

} // verus!
