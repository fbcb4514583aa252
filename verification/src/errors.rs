//! The error values this crate surfaces. Errors are values, never used for
//! ordinary control flow, and none is silently swallowed.

use vstd::prelude::*;

verus! {

#[derive(Debug, Clone, Copy, PartialEq, Eq)]
pub enum Error {
    /// A name or magic value matched no supported chip family.
    UnrecognizedChip,
    /// A byte buffer was too short to hold the header being read.
    TruncatedHeader,
    /// A segment required flash placement, but its address lies outside the
    /// family's flash-mapped window.
    AddrNotFlash { addr: u32 },
    /// A segment's payload exceeds the family's segment size limit.
    SegmentTooLarge { length: usize, limit: u32 },
}

impl Error {
    /// A short description of the error, for callers that report it.
    pub fn describe(&self) -> (r: &'static str)
        ensures
            r@.len() > 0,
            (self matches Error::UnrecognizedChip) ==> r@ == "unrecognized chip"@,
            (self matches Error::TruncatedHeader) ==> r@ == "truncated header"@,
            (self matches Error::AddrNotFlash { .. }) ==> r@ == "address is not flash-mapped"@,
            (self matches Error::SegmentTooLarge { .. }) ==> r@
                == "segment exceeds the family size limit"@,
    {
        let s = match self {
            Error::UnrecognizedChip => "unrecognized chip",
            Error::TruncatedHeader => "truncated header",
            Error::AddrNotFlash { .. } => "address is not flash-mapped",
            Error::SegmentTooLarge { .. } => "segment exceeds the family size limit",
        };
        proof {
            reveal_strlit("unrecognized chip");
            reveal_strlit("truncated header");
            reveal_strlit("address is not flash-mapped");
            reveal_strlit("segment exceeds the family size limit");
        }
        s
    }
}

} // verus!
