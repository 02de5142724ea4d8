//! A log record: one leveled message with optional source-location metadata,
//! alive only for the duration of a single log call.

use vstd::prelude::*;
use crate::level::Level;

verus! {

/// One structured log record handed to the sink.
pub struct Record {
    /// The record's level.
    pub level: Level,
    /// The source file that emitted the record, when known.
    pub file: Option<String>,
    /// The source line that emitted the record, when known.
    pub line: Option<u32>,
    /// The already-rendered message text.
    pub message: String,
}

impl Record {
    /// The rendered line built from this record can be re-encoded as a
    /// nul-terminated wide string: the file name holds no nul character and
    /// the message holds none before its final character. A record outside
    /// this set makes the sink's encoding step abort, by design.
    pub open spec fn encodable(&self) -> bool {
        &&& (self.file matches Some(f) ==> !f@.contains('\0'))
        &&& (forall|i: int| 0 <= i < self.message@.len() - 1 ==> self.message@[i] != '\0')
    }

    /// Builds a record.
    pub fn new(level: Level, file: Option<String>, line: Option<u32>, message: String) -> (r:
        Record)
        ensures
            r.level == level,
            r.file == file,
            r.line == line,
            r.message == message,
    {
        Record { level, file, line, message }
    }
}

} // verus!
