use vstd::prelude::*;

verus! {

/// MIDI carries channels zero-based on the wire; this library numbers them
/// 1 to 16 as players do. Every message-building path goes through this one
/// translation.
pub open spec fn wire_channel(channel: u8) -> u8
    recommends
        1 <= channel <= 16,
{
    (channel - 1) as u8
}

/// One Control Change wire event: status 0xB0 plus the channel nibble, then
/// the controller number and the value.
pub open spec fn cc_event(wire: u8, controller: u8, value: u8) -> Seq<u8>
    recommends
        wire < 16,
{
    seq![(0xB0 + wire) as u8, controller, value]
}

/// One Program Change wire event: status 0xC0 plus the channel nibble, then
/// the program number.
pub open spec fn pc_event(wire: u8, program: u8) -> Seq<u8>
    recommends
        wire < 16,
{
    seq![(0xC0 + wire) as u8, program]
}

/// The bank-and-program buffer for one channel: Bank Select MSB (controller
/// 0), Bank Select LSB (controller 32), then the Program Change that
/// consumes the pending bank selection. The order is mandatory: a receiver
/// treats the bank-select pair as state consumed by the next Program Change.
pub open spec fn bank_program_bytes(program: u8, msb: u8, lsb: u8, channel: u8) -> Seq<u8> {
    cc_event(wire_channel(channel), 0, msb) + cc_event(wire_channel(channel), 32, lsb) + pc_event(
        wire_channel(channel),
        program,
    )
}

/// The pitch-bend-range reset buffer for one channel: eight Control Change
/// events, two vendor-specific bend parameters, then the Pitch Bend Range
/// RPN set to 12 semitones and the RPN deselected again.
pub open spec fn bend_reset_bytes(channel: u8) -> Seq<u8> {
    cc_event(wire_channel(channel), 0x31, 12) + cc_event(wire_channel(channel), 0x32, 12)
        + cc_event(wire_channel(channel), 0x65, 0) + cc_event(wire_channel(channel), 0x64, 0)
        + cc_event(wire_channel(channel), 0x26, 0) + cc_event(wire_channel(channel), 0x06, 12)
        + cc_event(wire_channel(channel), 0x64, 0x7F) + cc_event(wire_channel(channel), 0x65, 0x7F)
}

/// Appends one Control Change event to the buffer.
fn push_cc(buf: &mut Vec<u8>, wire: u8, controller: u8, value: u8)
    requires
        wire < 16,
    ensures
        final(buf)@ == old(buf)@ + cc_event(wire, controller, value),
{
    buf.push(0xB0 + wire);
    buf.push(controller);
    buf.push(value);
    proof {
        assert(buf@ =~= old(buf)@ + cc_event(wire, controller, value));
    }
}

/// Appends one Program Change event to the buffer.
fn push_pc(buf: &mut Vec<u8>, wire: u8, program: u8)
    requires
        wire < 16,
    ensures
        final(buf)@ == old(buf)@ + pc_event(wire, program),
{
    buf.push(0xC0 + wire);
    buf.push(program);
    proof {
        assert(buf@ =~= old(buf)@ + pc_event(wire, program));
    }
}

/// Builds the bank-and-program buffer for one channel: exactly three wire
/// events, Bank Select MSB, Bank Select LSB, then Program Change, all on
/// the wire channel one below the given channel number.
pub fn choose_patch(program: u8, value_msb: u8, value_lsb: u8, channel: u8) -> (r: Vec<u8>)
    requires
        program <= 127,
        value_msb <= 127,
        value_lsb <= 127,
        1 <= channel <= 16,
    ensures
        r@ == bank_program_bytes(program, value_msb, value_lsb, channel),
{
    let wire: u8 = channel - 1;
    let mut buf: Vec<u8> = Vec::new();
    push_cc(&mut buf, wire, 0, value_msb);
    push_cc(&mut buf, wire, 32, value_lsb);
    push_pc(&mut buf, wire, program);
    proof {
        assert(buf@ =~= bank_program_bytes(program, value_msb, value_lsb, channel));
    }
    buf
}

/// Builds the pitch-bend-range reset buffer for one channel: exactly eight
/// Control Change events, in the fixed controller order 0x31, 0x32, 0x65,
/// 0x64, 0x26, 0x06, 0x64, 0x65 with values 12, 12, 0, 0, 0, 12, 0x7F,
/// 0x7F, all on the wire channel one below the given channel number.
pub fn bend_params(channel: u8) -> (r: Vec<u8>)
    requires
        1 <= channel <= 16,
    ensures
        r@ == bend_reset_bytes(channel),
{
    let wire: u8 = channel - 1;
    let mut buf: Vec<u8> = Vec::new();
    push_cc(&mut buf, wire, 0x31, 12);
    push_cc(&mut buf, wire, 0x32, 12);
    push_cc(&mut buf, wire, 0x65, 0);
    push_cc(&mut buf, wire, 0x64, 0);
    push_cc(&mut buf, wire, 0x26, 0);
    push_cc(&mut buf, wire, 0x06, 12);
    push_cc(&mut buf, wire, 0x64, 0x7F);
    push_cc(&mut buf, wire, 0x65, 0x7F);
    proof {
        assert(buf@ =~= bend_reset_bytes(channel));
    }
    buf
}

} // verus!
