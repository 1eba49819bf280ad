use vstd::prelude::*;

verus! {

/// A failure while parsing one packet's headers. Every such failure is
/// converted to the abort disposition at the invocation boundary: the
/// packet path never unwinds.
#[derive(Clone, Copy, Debug, PartialEq, Eq, Structural)]
pub enum ParseError {
    /// Too few bytes remain for a requested field.
    OutOfBounds,
    /// The transport protocol is neither TCP nor UDP; raised only by the
    /// protocol-aware policy, which must read a transport header.
    UnsupportedProtocol,
}

/// The blocklist table is full on insert. This can arise only on the
/// management path, before packet traffic begins; it never affects an
/// in-flight packet decision.
#[derive(Clone, Copy, Debug, PartialEq, Eq, Structural)]
pub struct CapacityExceeded;

} // verus!
