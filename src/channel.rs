//! How a channel number is spread over the four select lines.

use vstd::prelude::*;

verus! {

/// Number of channels the multiplexer routes.
pub const CHANNELS: u8 = 16;

/// Weight of select line `line` (0 to 3) in a channel number.
pub open spec fn line_weight(line: int) -> int {
    if line == 0 {
        1
    } else if line == 1 {
        2
    } else if line == 2 {
        4
    } else {
        8
    }
}

/// Whether select line `line` is high when `channel` is selected: bit
/// `line` of `channel`.
pub open spec fn channel_bit(channel: int, line: int) -> bool {
    (channel / line_weight(line)) % 2 == 1
}

/// The channel that select lines at levels `l0` to `l3` (`true` is high)
/// encode, line 0 being the least significant bit.
pub open spec fn channel_of_levels(l0: bool, l1: bool, l2: bool, l3: bool) -> int {
    (if l0 { 1int } else { 0 }) + (if l1 { 2int } else { 0 }) + (if l2 { 4int } else { 0 }) + (
    if l3 {
        8int
    } else {
        0
    })
}

/// Setting each select line to its bit of a channel below 16 encodes exactly
/// that channel.
pub proof fn lemma_channel_bits(channel: int)
    requires
        0 <= channel < CHANNELS,
    ensures
        channel_of_levels(
            channel_bit(channel, 0),
            channel_bit(channel, 1),
            channel_bit(channel, 2),
            channel_bit(channel, 3),
        ) == channel,
{
    assert(0 <= channel < 16);
    assert(channel == 0 || channel == 1 || channel == 2 || channel == 3 || channel == 4 || channel
        == 5 || channel == 6 || channel == 7 || channel == 8 || channel == 9 || channel == 10
        || channel == 11 || channel == 12 || channel == 13 || channel == 14 || channel == 15);
}

/// Whether bit `line` of `channel` is set.
pub fn is_bit_set(channel: u8, line: u8) -> (r: bool)
    requires
        line < 4,
    ensures
        r == channel_bit(channel as int, line as int),
{
    proof {
        if line == 0 {
            assert((channel & (1u8 << 0u8) != 0) == (channel % 2 == 1)) by (bit_vector);
        } else if line == 1 {
            assert((channel & (1u8 << 1u8) != 0) == ((channel / 2) % 2 == 1)) by (bit_vector);
        } else if line == 2 {
            assert((channel & (1u8 << 2u8) != 0) == ((channel / 4) % 2 == 1)) by (bit_vector);
        } else {
            assert((channel & (1u8 << 3u8) != 0) == ((channel / 8) % 2 == 1)) by (bit_vector);
        }
    }
    channel & (1u8 << line) != 0
}

} // verus!
