//! Download priorities for files and pieces.

use vstd::prelude::*;

verus! {

/// The accepted download priorities of a file or piece. Priorities are
/// carried as the numeric codes 0 (do not download), 1 (lowest), 4 (default)
/// and 7 (highest).
#[allow(non_camel_case_types)]
#[derive(Clone, Copy, Debug, PartialEq, Eq, Structural)]
pub enum DownloadPriority {
    /// Do not download the file or piece. Partial pieces may still be
    /// downloaded when setting file priorities.
    dont_download,
    /// The lowest priority for files and pieces.
    low_priority,
    /// The default priority for files and pieces.
    default_priority,
    /// The highest priority for files and pieces.
    top_priority,
}

/// True for the numeric codes that stand for an accepted priority.
pub open spec fn valid_priority_code(v: u8) -> bool {
    v == 0 || v == 1 || v == 4 || v == 7
}

impl DownloadPriority {
    /// The numeric code of this priority.
    pub open spec fn code_spec(self) -> u8 {
        match self {
            DownloadPriority::dont_download => 0,
            DownloadPriority::low_priority => 1,
            DownloadPriority::default_priority => 4,
            DownloadPriority::top_priority => 7,
        }
    }

    /// Returns the numeric code of this priority; always an accepted code.
    pub fn code(self) -> (r: u8)
        ensures
            r == self.code_spec(),
            valid_priority_code(r),
    {
        match self {
            DownloadPriority::dont_download => 0,
            DownloadPriority::low_priority => 1,
            DownloadPriority::default_priority => 4,
            DownloadPriority::top_priority => 7,
        }
    }

    /// Reads a priority back from its numeric code; `None` exactly on the
    /// codes that stand for no accepted priority.
    pub fn from_code(v: u8) -> (r: Option<DownloadPriority>)
        ensures
            match r {
                Some(p) => valid_priority_code(v) && p.code_spec() == v,
                None => !valid_priority_code(v),
            },
    {
        if v == 0 {
            Some(DownloadPriority::dont_download)
        } else if v == 1 {
            Some(DownloadPriority::low_priority)
        } else if v == 4 {
            Some(DownloadPriority::default_priority)
        } else if v == 7 {
            Some(DownloadPriority::top_priority)
        } else {
            None
        }
    }
}

} // verus!
