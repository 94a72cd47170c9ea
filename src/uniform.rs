//! The handle for the common wiring in which the four select pins share one
//! type, as pins of a hardware abstraction layer do once their port and
//! number are erased.

use vstd::prelude::*;

use crate::channel::CHANNELS;
use crate::mux::{
    drove_enable_line, drove_select_lines, is_disabled, is_enabled, lines_of, select_stopped,
    selected_channel, DisabledState, EnabledState, Error, CD74HC4067,
};
use crate::pin::OutputPin;

verus! {

/// A CD74HC4067 whose four select pins are of one type `P`, with its
/// enable pin of type `E`, in the lifecycle state `State`.
#[derive(Debug)]
pub struct Cd74hc4067<P, E, State> {
    mux: CD74HC4067<P, P, P, P, E, State>,
}

impl<P: OutputPin, E: OutputPin, State> Cd74hc4067<P, E, State> {
    /// The write records of the handle's lines: select lines 0 to 3, then
    /// the enable line.
    pub closed spec fn lines(&self) -> Seq<Seq<bool>> {
        self.mux.lines()
    }

    /// The pins the handle holds: select lines 0 to 3, then the enable line.
    pub closed spec fn pins(&self) -> (P, P, P, P, E) {
        self.mux.pins()
    }
}

impl<P: OutputPin, E: OutputPin> Cd74hc4067<P, E, DisabledState> {
    /// Every line has been driven and the enable line is high.
    pub open spec fn wf(&self) -> bool {
        is_disabled(self.lines())
    }

    /// Takes the five pins and drives them to a known start: first the enable
    /// line high, so that no channel is connected, then select lines 0 to 3
    /// low, selecting channel 0.
    ///
    /// The first write that fails ends the construction; its error comes back
    /// with all five pins.
    pub fn new(pin_0: P, pin_1: P, pin_2: P, pin_3: P, pin_enable: E) -> (r: Result<
        Self,
        (Error<P, E>, (P, P, P, P, E)),
    >)
        ensures
            r matches Ok(h) ==> h.wf() && drove_select_lines(
                lines_of(pin_0, pin_1, pin_2, pin_3, pin_enable).update(4, pin_enable.driven().push(true)),
                h.lines(),
                0,
                4,
            ) && selected_channel(h.lines()) == 0,
            r matches Err((e, pins)) ==> ({
                let given = lines_of(pin_0, pin_1, pin_2, pin_3, pin_enable);
                let returned = lines_of(pins.0, pins.1, pins.2, pins.3, pins.4);
                ||| e is EnablePinError && returned == given
                ||| e is SelectPinError && select_stopped(given.update(4, pin_enable.driven().push(true)), returned, 0)
            }),
    {
        match CD74HC4067::new(pin_0, pin_1, pin_2, pin_3, pin_enable) {
            Ok(mux) => Ok(Cd74hc4067 { mux }),
            Err(failed) => Err(failed),
        }
    }

    /// Releases the five pins, in their current state, without writing any.
    pub fn release(self) -> (r: (P, P, P, P, E))
        ensures
            r == self.pins(),
            lines_of(r.0, r.1, r.2, r.3, r.4) == self.lines(),
    {
        self.mux.release()
    }

    /// Enables the multiplexer by pulling the enable line low.
    ///
    /// If that write fails, the handle comes back unchanged with the error.
    pub fn enable(self) -> (r: Result<
        Cd74hc4067<P, E, EnabledState>,
        (Error<P, E>, Cd74hc4067<P, E, DisabledState>),
    >)
        requires
            self.wf(),
        ensures
            r matches Ok(h) ==> h.wf() && drove_enable_line(self.lines(), h.lines(), false),
            r matches Err((e, h)) ==> e is EnablePinError && h.wf() && h.lines() == self.lines(),
    {
        match self.mux.enable() {
            Ok(mux) => Ok(Cd74hc4067 { mux }),
            Err((e, mux)) => Err((e, Cd74hc4067 { mux })),
        }
    }

    /// Selects channel `n` by driving select lines 0 to 3, in that order, to
    /// the bits of `n`, line 0 taking the least significant one.
    ///
    /// If a write fails, the lines after it are left as they were and the
    /// error is returned; the handle stays usable and a later call drives all
    /// four lines again.
    pub fn set_channel_active(&mut self, n: u8) -> (r: Result<(), Error<P, E>>)
        requires
            old(self).wf(),
            n < CHANNELS,
        ensures
            final(self).wf(),
            r is Ok ==> drove_select_lines(old(self).lines(), final(self).lines(), n as int, 4)
                && selected_channel(final(self).lines()) == n,
            r matches Err(e) ==> e is SelectPinError && select_stopped(
                old(self).lines(),
                final(self).lines(),
                n as int,
            ),
    {
        self.mux.set_output_active(n)
    }
}

impl<P: OutputPin, E: OutputPin> Cd74hc4067<P, E, EnabledState> {
    /// Every line has been driven and the enable line is low.
    pub open spec fn wf(&self) -> bool {
        is_enabled(self.lines())
    }

    /// Disables the multiplexer by pulling the enable line high.
    ///
    /// If that write fails, the handle comes back unchanged with the error.
    pub fn disable(self) -> (r: Result<
        Cd74hc4067<P, E, DisabledState>,
        (Error<P, E>, Cd74hc4067<P, E, EnabledState>),
    >)
        requires
            self.wf(),
        ensures
            r matches Ok(h) ==> h.wf() && drove_enable_line(self.lines(), h.lines(), true),
            r matches Err((e, h)) ==> e is EnablePinError && h.wf() && h.lines() == self.lines(),
    {
        match self.mux.disable() {
            Ok(mux) => Ok(Cd74hc4067 { mux }),
            Err((e, mux)) => Err((e, Cd74hc4067 { mux })),
        }
    }
}

} // verus!
