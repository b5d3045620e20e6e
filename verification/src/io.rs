//! The byte-level I/O port surface.
//!
//! Only COM1 is wired, and it is modeled inside the machine as two byte
//! queues: `IN` takes the front of the input queue, `OUT` appends to the
//! output queue. The embedding program feeds the input queue from its
//! byte source and drains the output queue to its sink; every other port
//! reads 0 and swallows writes.

use vstd::prelude::*;

use crate::emulator::Emulator;
use crate::semantics::{MachineView, COM1_PORT};

verus! {

/// One byte in from a port. On COM1, `None` when the input queue is
/// empty — the caller reports that a byte is wanted and retries — else
/// the front of the queue. On any other port, 0.
pub fn io_in8(emu: &mut Emulator, address: u16) -> (r: Option<u8>)
    requires
        old(emu)@.wf(),
    ensures
        final(emu).instructions@ == old(emu).instructions@,
        address == COM1_PORT && old(emu)@.input.len() == 0 ==> r is None && final(emu)@ == old(
            emu,
        )@,
        address == COM1_PORT && old(emu)@.input.len() > 0 ==> r == Some(old(emu)@.input[0])
            && final(emu)@ == (MachineView { input: old(emu)@.input.drop_first(), ..old(emu)@ }),
        address != COM1_PORT ==> r == Some(0u8) && final(emu)@ == old(emu)@,
{
    if address == COM1_PORT {
        if emu.com1_input.len() == 0 {
            None
        } else {
            let b: u8 = emu.com1_input.remove(0);
            proof {
                assert(old(emu)@.input.remove(0) =~= old(emu)@.input.drop_first());
            }
            Some(b)
        }
    } else {
        Some(0)
    }
}

/// One byte out to a port: appended to the output queue on COM1, dropped
/// anywhere else.
pub fn io_out8(emu: &mut Emulator, address: u16, value: u8)
    requires
        old(emu)@.wf(),
    ensures
        final(emu).instructions@ == old(emu).instructions@,
        address == COM1_PORT ==> final(emu)@ == (MachineView {
            output: old(emu)@.output.push(value),
            ..old(emu)@
        }),
        address != COM1_PORT ==> final(emu)@ == old(emu)@,
{
    if address == COM1_PORT {
        emu.com1_output.push(value);
    }
}

} // verus!
