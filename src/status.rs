use vstd::prelude::*;

verus! {

/// The outcome of checking one listed file.
///
/// `UNKNOWN` is the state of an entry that has not been checked yet; every
/// check resolves it to one of the four others.
#[allow(non_camel_case_types)]
#[derive(Clone, Copy, Debug, PartialEq, Eq, Structural)]
pub enum FileStatus {
    UNKNOWN,
    OK,
    REMOVED,
    MISMATCH,
    FAILED,
}

/// The text shown for each status.
pub open spec fn label_of(s: FileStatus) -> Seq<char> {
    match s {
        FileStatus::OK => "OK"@,
        FileStatus::MISMATCH => "MISMATCH"@,
        FileStatus::REMOVED => "REMOVED"@,
        FileStatus::FAILED => "FAILED open or read"@,
        FileStatus::UNKNOWN => "UNKNOWN"@,
    }
}

impl FileStatus {
    /// Whether a check has settled this status.
    pub open spec fn is_resolved(self) -> bool {
        self != FileStatus::UNKNOWN
    }

    /// The label shown after a file's path.
    pub fn label(&self) -> (r: &'static str)
        ensures
            r@ == label_of(*self),
    {
        match self {
            FileStatus::OK => "OK",
            FileStatus::MISMATCH => "MISMATCH",
            FileStatus::REMOVED => "REMOVED",
            FileStatus::FAILED => "FAILED open or read",
            FileStatus::UNKNOWN => "UNKNOWN",
        }
    }
}

} // verus!
