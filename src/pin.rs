//! The digital output capability that the driver is written against.

use vstd::prelude::*;

verus! {

/// A push-pull digital output line whose writes can fail.
///
/// The line is modelled by the levels it has been driven to by writes that
/// succeeded, oldest first, `true` standing for high. A write that fails
/// drives nothing, so it leaves that record as it was.
pub trait OutputPin {
    /// What a failed write reports.
    type Error;

    /// Levels this line has been driven to, oldest first (`true` is high).
    ///
    /// The default stands for a line that keeps no record; an implementation
    /// verified against the contracts below has to give its own.
    closed spec fn driven(&self) -> Seq<bool> {
        Seq::empty()
    }

    /// Drives the line low.
    fn set_low(&mut self) -> (r: Result<(), Self::Error>)
        ensures
            r is Ok ==> final(self).driven() == old(self).driven().push(false),
            r is Err ==> final(self).driven() == old(self).driven(),
    ;

    /// Drives the line high.
    fn set_high(&mut self) -> (r: Result<(), Self::Error>)
        ensures
            r is Ok ==> final(self).driven() == old(self).driven().push(true),
            r is Err ==> final(self).driven() == old(self).driven(),
    ;
}

/// Drives `pin` high when `high` is `true`, low otherwise.
pub fn drive<Q: OutputPin>(pin: &mut Q, high: bool) -> (r: Result<(), Q::Error>)
    ensures
        r is Ok ==> final(pin).driven() == old(pin).driven().push(high),
        r is Err ==> final(pin).driven() == old(pin).driven(),
{
    if high {
        pin.set_high()
    } else {
        pin.set_low()
    }
}

} // verus!
