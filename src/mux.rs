//! The multiplexer handle and its lifecycle.
//!
//! A handle is seen through the write records of its five lines (see
//! [`OutputPin::driven`]): entries 0 to 3 are the select lines, least
//! significant first, and entry 4 is the enable line.

use core::marker::PhantomData;
use vstd::prelude::*;

use crate::channel::{channel_bit, channel_of_levels, is_bit_set, lemma_channel_bits, CHANNELS};
use crate::pin::{drive, OutputPin};

verus! {

/// Errors of the driver, each carrying the failure of the pin write behind it.
#[derive(Debug)]
pub enum Error<P: OutputPin, E: OutputPin> {
    /// Writing one of the four select lines failed.
    SelectPinError(P::Error),
    /// Writing the enable line failed.
    EnablePinError(E::Error),
}

/// Tag of a handle whose enable line is low: the selected channel is connected.
#[derive(Debug)]
pub struct EnabledState;

/// Tag of a handle whose enable line is high: no channel is connected.
#[derive(Debug)]
pub struct DisabledState;

/// The write records of five lines: select lines 0 to 3, then the enable line.
pub open spec fn lines_of<A: OutputPin, B: OutputPin, C: OutputPin, D: OutputPin, E: OutputPin>(
    pin_0: A,
    pin_1: B,
    pin_2: C,
    pin_3: D,
    pin_enable: E,
) -> Seq<Seq<bool>> {
    seq![pin_0.driven(), pin_1.driven(), pin_2.driven(), pin_3.driven(), pin_enable.driven()]
}

/// The level a line was last driven to (`true` is high).
pub open spec fn level(line: Seq<bool>) -> bool {
    line.last()
}

/// Each of the five lines has been driven at least once.
pub open spec fn all_driven(lines: Seq<Seq<bool>>) -> bool {
    &&& lines.len() == 5
    &&& forall|line: int| 0 <= line < 5 ==> #[trigger] lines[line].len() > 0
}

/// The lines are all driven and the enable line is high: no channel is connected.
pub open spec fn is_disabled(lines: Seq<Seq<bool>>) -> bool {
    all_driven(lines) && level(lines[4])
}

/// The lines are all driven and the enable line is low: the selected channel is connected.
pub open spec fn is_enabled(lines: Seq<Seq<bool>>) -> bool {
    all_driven(lines) && !level(lines[4])
}

/// The channel that the select lines encode.
pub open spec fn selected_channel(lines: Seq<Seq<bool>>) -> int {
    channel_of_levels(level(lines[0]), level(lines[1]), level(lines[2]), level(lines[3]))
}

/// `after` is `before` once the enable line has taken exactly one write, to
/// `high`, and the select lines none.
pub open spec fn drove_enable_line(before: Seq<Seq<bool>>, after: Seq<Seq<bool>>, high: bool) -> bool {
    after == before.update(4, before[4].push(high))
}

/// `after` is `before` once select lines 0 to `k - 1` have each taken
/// exactly one write, to their bit of `channel`, and the other lines none.
pub open spec fn drove_select_lines(
    before: Seq<Seq<bool>>,
    after: Seq<Seq<bool>>,
    channel: int,
    k: int,
) -> bool {
    &&& before.len() == 5
    &&& after.len() == 5
    &&& forall|line: int| 0 <= line < k ==> #[trigger] after[line] == before[line].push(channel_bit(channel, line))
    &&& forall|line: int| k <= line < 5 ==> #[trigger] after[line] == before[line]
}

/// A selection of `channel` that stopped at a select line whose write
/// failed: the lines before it took their bit, the others kept their record.
pub open spec fn select_stopped(before: Seq<Seq<bool>>, after: Seq<Seq<bool>>, channel: int) -> bool {
    exists|k: int| 0 <= k < 4 && #[trigger] drove_select_lines(before, after, channel, k)
}

/// After all four select lines took their bit of `channel`, the lines that
/// were driven are still driven and the select lines encode `channel`.
proof fn lemma_select_lines_encode(before: Seq<Seq<bool>>, after: Seq<Seq<bool>>, channel: int)
    requires
        0 <= channel < CHANNELS,
        drove_select_lines(before, after, channel, 4),
    ensures
        all_driven(before) ==> all_driven(after),
        after[4] == before[4],
        selected_channel(after) == channel,
{
    assert(after[0] == before[0].push(channel_bit(channel, 0)));
    assert(after[1] == before[1].push(channel_bit(channel, 1)));
    assert(after[2] == before[2].push(channel_bit(channel, 2)));
    assert(after[3] == before[3].push(channel_bit(channel, 3)));
    assert(after[4] == before[4]);
    lemma_channel_bits(channel);
}

/// A selection that stopped part way leaves the enable line as it was and
/// every line that had been driven still driven.
proof fn lemma_stopped_select_keeps_lines(before: Seq<Seq<bool>>, after: Seq<Seq<bool>>, channel: int)
    requires
        select_stopped(before, after, channel),
    ensures
        all_driven(before) ==> all_driven(after),
        after[4] == before[4],
{
    let k = choose|k: int| 0 <= k < 4 && drove_select_lines(before, after, channel, k);
    assert(after[4] == before[4]);
    assert forall|line: int| 0 <= line < 5 implies after[line].len() >= before[line].len() by {
        if line < k {
            assert(after[line] == before[line].push(channel_bit(channel, line)));
        } else {
            assert(after[line] == before[line]);
        }
    }
}

/// A CD74HC4067 driven through four select pins and an active-low enable pin,
/// each of its own type, in the lifecycle state `State`.
#[derive(Debug)]
pub struct CD74HC4067<A, B, C, D, E, State> {
    pin_0: A,
    pin_1: B,
    pin_2: C,
    pin_3: D,
    pin_enable: E,
    state: PhantomData<State>,
}

impl<A, B, C, D, E, State> CD74HC4067<A, B, C, D, E, State> {
    /// The pins the handle holds: select lines 0 to 3, then the enable line.
    pub closed spec fn pins(&self) -> (A, B, C, D, E) {
        (self.pin_0, self.pin_1, self.pin_2, self.pin_3, self.pin_enable)
    }
}

impl<A: OutputPin, B: OutputPin, C: OutputPin, D: OutputPin, E: OutputPin, State> CD74HC4067<
    A,
    B,
    C,
    D,
    E,
    State,
> {
    /// The write records of the handle's lines.
    pub open spec fn lines(&self) -> Seq<Seq<bool>> {
        lines_of(self.pins().0, self.pins().1, self.pins().2, self.pins().3, self.pins().4)
    }
}

impl<
    A: OutputPin,
    B: OutputPin<Error = A::Error>,
    C: OutputPin<Error = A::Error>,
    D: OutputPin<Error = A::Error>,
    E: OutputPin,
    State,
> CD74HC4067<A, B, C, D, E, State> {
    /// Drives select lines 0 to 3, in that order, to the bits of `channel`,
    /// stopping at the first write that fails.
    fn drive_select_lines(&mut self, channel: u8) -> (r: Result<(), Error<A, E>>)
        requires
            channel < CHANNELS,
        ensures
            r is Ok ==> drove_select_lines(old(self).lines(), final(self).lines(), channel as int, 4),
            r matches Err(e) ==> e is SelectPinError && select_stopped(
                old(self).lines(),
                final(self).lines(),
                channel as int,
            ),
    {
        let ghost before = self.lines();
        if let Err(e) = drive(&mut self.pin_0, is_bit_set(channel, 0)) {
            assert(drove_select_lines(before, self.lines(), channel as int, 0));
            return Err(Error::SelectPinError(e));
        }
        if let Err(e) = drive(&mut self.pin_1, is_bit_set(channel, 1)) {
            assert(drove_select_lines(before, self.lines(), channel as int, 1));
            return Err(Error::SelectPinError(e));
        }
        if let Err(e) = drive(&mut self.pin_2, is_bit_set(channel, 2)) {
            assert(drove_select_lines(before, self.lines(), channel as int, 2));
            return Err(Error::SelectPinError(e));
        }
        if let Err(e) = drive(&mut self.pin_3, is_bit_set(channel, 3)) {
            assert(drove_select_lines(before, self.lines(), channel as int, 3));
            return Err(Error::SelectPinError(e));
        }
        Ok(())
    }
}

impl<
    A: OutputPin,
    B: OutputPin<Error = A::Error>,
    C: OutputPin<Error = A::Error>,
    D: OutputPin<Error = A::Error>,
    E: OutputPin,
> CD74HC4067<A, B, C, D, E, DisabledState> {
    /// Every line has been driven and the enable line is high.
    pub open spec fn wf(&self) -> bool {
        is_disabled(self.lines())
    }

    /// Takes the five pins and drives them to a known start: first the enable
    /// line high, so that no channel is connected, then select lines 0 to 3
    /// low, selecting channel 0.
    ///
    /// The first write that fails ends the construction; its error comes back
    /// with all five pins.
    pub fn new(pin_0: A, pin_1: B, pin_2: C, pin_3: D, pin_enable: E) -> (r: Result<
        Self,
        (Error<A, E>, (A, B, C, D, E)),
    >)
        ensures
            r matches Ok(h) ==> h.wf() && drove_select_lines(
                lines_of(pin_0, pin_1, pin_2, pin_3, pin_enable).update(4, pin_enable.driven().push(true)),
                h.lines(),
                0,
                4,
            ) && selected_channel(h.lines()) == 0,
            r matches Err((e, pins)) ==> ({
                let given = lines_of(pin_0, pin_1, pin_2, pin_3, pin_enable);
                let returned = lines_of(pins.0, pins.1, pins.2, pins.3, pins.4);
                ||| e is EnablePinError && returned == given
                ||| e is SelectPinError && select_stopped(given.update(4, pin_enable.driven().push(true)), returned, 0)
            }),
    {
        let ghost given = lines_of(pin_0, pin_1, pin_2, pin_3, pin_enable);
        let mut pin_enable = pin_enable;
        if let Err(e) = pin_enable.set_high() {
            assert(lines_of(pin_0, pin_1, pin_2, pin_3, pin_enable) =~= given);
            return Err((Error::EnablePinError(e), (pin_0, pin_1, pin_2, pin_3, pin_enable)));
        }
        let mut handle = CD74HC4067 { pin_0, pin_1, pin_2, pin_3, pin_enable, state: PhantomData };
        assert(handle.lines() =~= given.update(4, given[4].push(true)));
        match handle.drive_select_lines(0) {
            Ok(()) => {
                proof {
                    assert forall|line: int| 0 <= line < 5 implies #[trigger] handle.lines()[line].len() > 0 by {
                        if line < 4 {
                            assert(handle.lines()[line] == given[line].push(channel_bit(0, line)));
                        }
                    }
                    lemma_select_lines_encode(given.update(4, given[4].push(true)), handle.lines(), 0);
                }
                Ok(handle)
            },
            Err(e) => Err((e, handle.release())),
        }
    }

    /// Releases the five pins, in their current state, without writing any.
    pub fn release(self) -> (r: (A, B, C, D, E))
        ensures
            r == self.pins(),
            lines_of(r.0, r.1, r.2, r.3, r.4) == self.lines(),
    {
        (self.pin_0, self.pin_1, self.pin_2, self.pin_3, self.pin_enable)
    }

    /// Enables the multiplexer by pulling the enable line low.
    ///
    /// If that write fails, the handle comes back unchanged with the error.
    pub fn enable(self) -> (r: Result<
        CD74HC4067<A, B, C, D, E, EnabledState>,
        (Error<A, E>, CD74HC4067<A, B, C, D, E, DisabledState>),
    >)
        requires
            self.wf(),
        ensures
            r matches Ok(h) ==> h.wf() && drove_enable_line(self.lines(), h.lines(), false),
            r matches Err((e, h)) ==> e is EnablePinError && h.wf() && h.lines() == self.lines(),
    {
        let mut handle = self;
        if let Err(e) = handle.pin_enable.set_low() {
            assert(handle.lines() =~= self.lines());
            return Err((Error::EnablePinError(e), handle));
        }
        let enabled = CD74HC4067 {
            pin_0: handle.pin_0,
            pin_1: handle.pin_1,
            pin_2: handle.pin_2,
            pin_3: handle.pin_3,
            pin_enable: handle.pin_enable,
            state: PhantomData,
        };
        assert(enabled.lines() =~= self.lines().update(4, self.lines()[4].push(false)));
        assert(enabled.lines()[4] == self.lines()[4].push(false));
        Ok(enabled)
    }

    /// Selects channel `n` by driving select lines 0 to 3, in that order, to
    /// the bits of `n`, line 0 taking the least significant one.
    ///
    /// If a write fails, the lines after it are left as they were and the
    /// error is returned; the handle stays usable and a later call drives all
    /// four lines again.
    pub fn set_output_active(&mut self, n: u8) -> (r: Result<(), Error<A, E>>)
        requires
            old(self).wf(),
            n < CHANNELS,
        ensures
            final(self).wf(),
            r is Ok ==> drove_select_lines(old(self).lines(), final(self).lines(), n as int, 4)
                && selected_channel(final(self).lines()) == n,
            r matches Err(e) ==> e is SelectPinError && select_stopped(
                old(self).lines(),
                final(self).lines(),
                n as int,
            ),
    {
        let ghost before = self.lines();
        let r = self.drive_select_lines(n);
        proof {
            if r is Ok {
                lemma_select_lines_encode(before, self.lines(), n as int);
            } else {
                lemma_stopped_select_keeps_lines(before, self.lines(), n as int);
            }
        }
        r
    }
}

impl<
    A: OutputPin,
    B: OutputPin<Error = A::Error>,
    C: OutputPin<Error = A::Error>,
    D: OutputPin<Error = A::Error>,
    E: OutputPin,
> CD74HC4067<A, B, C, D, E, EnabledState> {
    /// Every line has been driven and the enable line is low.
    pub open spec fn wf(&self) -> bool {
        is_enabled(self.lines())
    }

    /// Disables the multiplexer by pulling the enable line high.
    ///
    /// If that write fails, the handle comes back unchanged with the error.
    pub fn disable(self) -> (r: Result<
        CD74HC4067<A, B, C, D, E, DisabledState>,
        (Error<A, E>, CD74HC4067<A, B, C, D, E, EnabledState>),
    >)
        requires
            self.wf(),
        ensures
            r matches Ok(h) ==> h.wf() && drove_enable_line(self.lines(), h.lines(), true),
            r matches Err((e, h)) ==> e is EnablePinError && h.wf() && h.lines() == self.lines(),
    {
        let mut handle = self;
        if let Err(e) = handle.pin_enable.set_high() {
            assert(handle.lines() =~= self.lines());
            return Err((Error::EnablePinError(e), handle));
        }
        let disabled = CD74HC4067 {
            pin_0: handle.pin_0,
            pin_1: handle.pin_1,
            pin_2: handle.pin_2,
            pin_3: handle.pin_3,
            pin_enable: handle.pin_enable,
            state: PhantomData,
        };
        assert(disabled.lines() =~= self.lines().update(4, self.lines()[4].push(true)));
        assert(disabled.lines()[4] == self.lines()[4].push(true));
        Ok(disabled)
    }
}

/// Enabling a disabled multiplexer and then disabling it again leaves every
/// line at the level it had: the enable line took exactly two writes, low
/// then high, the select lines none, so the same channel is selected.
pub proof fn lemma_enable_then_disable(
    start: Seq<Seq<bool>>,
    enabled: Seq<Seq<bool>>,
    back: Seq<Seq<bool>>,
)
    requires
        is_disabled(start),
        drove_enable_line(start, enabled, false),
        drove_enable_line(enabled, back, true),
    ensures
        is_enabled(enabled),
        is_disabled(back),
        back == start.update(4, start[4].push(false).push(true)),
        forall|line: int| 0 <= line < 4 ==> #[trigger] back[line] == start[line],
        forall|line: int| 0 <= line < 5 ==> level(#[trigger] back[line]) == level(start[line]),
        selected_channel(back) == selected_channel(start),
{
    assert forall|line: int| 0 <= line < 5 implies #[trigger] enabled[line].len() > 0 by {
        if line < 4 {
            assert(enabled[line] == start[line]);
        }
    }
    assert forall|line: int| 0 <= line < 5 implies #[trigger] back[line].len() > 0 by {
        if line < 4 {
            assert(back[line] == enabled[line]);
        }
    }
}

/// Selecting a channel a second time leaves every line at the level the
/// first selection gave it: each selection drives all four select lines anew.
pub proof fn lemma_select_twice(
    start: Seq<Seq<bool>>,
    once: Seq<Seq<bool>>,
    twice: Seq<Seq<bool>>,
    channel: int,
)
    requires
        0 <= channel < CHANNELS,
        drove_select_lines(start, once, channel, 4),
        drove_select_lines(once, twice, channel, 4),
    ensures
        forall|line: int| 0 <= line < 5 ==> level(#[trigger] twice[line]) == level(once[line]),
        selected_channel(twice) == selected_channel(once),
        selected_channel(twice) == channel,
{
    lemma_select_lines_encode(start, once, channel);
    lemma_select_lines_encode(once, twice, channel);
    assert forall|line: int| 0 <= line < 5 implies level(#[trigger] twice[line]) == level(once[line]) by {
        if line < 4 {
            assert(twice[line] == once[line].push(channel_bit(channel, line)));
            assert(once[line] == start[line].push(channel_bit(channel, line)));
        }
    }
}

} // verus!
