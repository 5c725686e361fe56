//! The commands of the on-screen display.
//!
//! The overlay has nine lines, numbered 0 to 8. A line is written with
//! `OsdIoWriteLine`; `OsdEnable` and `OsdDisable` show and hide the overlay.

use super::bus::{
    spec_byte_writes, BusWrite, CommandBus, Frame, FrameView, IntoLowLevelSpiCommand,
    SpiCommand, SpiFeatureSet,
};
use vstd::prelude::*;

verus! {

/// The number of the last line of the overlay.
pub const OSD_LAST_LINE: u8 = 8;

/// The commands of the on-screen display, by opcode.
#[derive(Clone, Copy, Debug, PartialEq, Eq, Structural)]
pub enum OsdCommands {
    /// Writes a line of the overlay.
    WriteLine(u8),
    /// Hides the overlay.
    Disable,
    /// Shows the overlay.
    Enable,
}

impl IntoLowLevelSpiCommand for OsdCommands {
    open spec fn spec_ll_spi_command(self) -> (SpiFeatureSet, u16) {
        (
            SpiFeatureSet::Osd,
            match self {
                OsdCommands::WriteLine(a) => (0x20 + a) as u16,
                OsdCommands::Disable => 0x40u16,
                OsdCommands::Enable => 0x41u16,
            },
        )
    }

    fn into_ll_spi_command(self) -> (r: (SpiFeatureSet, u16)) {
        (
            SpiFeatureSet::Osd,
            match self {
                OsdCommands::WriteLine(a) => 0x20 + a as u16,
                OsdCommands::Disable => 0x40,
                OsdCommands::Enable => 0x41,
            },
        )
    }
}

fn command(c: OsdCommands) -> (r: Frame)
    ensures
        r@ == (FrameView {
            feature: c.spec_ll_spi_command().0,
            opcode: c.spec_ll_spi_command().1,
            payload: Seq::<BusWrite>::empty(),
        }),
{
    let (feature, opcode) = c.into_ll_spi_command();
    Frame::new(feature, opcode)
}

/// Writes one line of the overlay: the number of the line, and its bytes.
pub struct OsdIoWriteLine<'a>(pub u8, pub &'a [u8]);

impl SpiCommand for OsdIoWriteLine<'_> {
    open spec fn spec_frame(&self) -> FrameView {
        FrameView {
            feature: SpiFeatureSet::Osd,
            opcode: (0x20 + self.0) as u16,
            payload: spec_byte_writes(self.1@),
        }
    }

    open spec fn spec_valid(&self) -> bool {
        self.0 <= OSD_LAST_LINE
    }

    open spec fn spec_name(&self) -> Seq<char> {
        "OsdIoWriteLine"@
    }

    fn name(&self) -> (r: &'static str) {
        "OsdIoWriteLine"
    }

    fn frame(&self) -> (r: Frame) {
        let mut f = command(OsdCommands::WriteLine(self.0));
        f.write_buffer_b(self.1);
        assert(f@.payload =~= self.spec_frame().payload);
        f
    }
}

/// Shows the overlay.
#[derive(Debug)]
pub struct OsdEnable;

impl SpiCommand for OsdEnable {
    open spec fn spec_frame(&self) -> FrameView {
        FrameView { feature: SpiFeatureSet::Osd, opcode: 0x41, payload: Seq::<BusWrite>::empty() }
    }

    open spec fn spec_valid(&self) -> bool {
        true
    }

    open spec fn spec_name(&self) -> Seq<char> {
        "OsdEnable"@
    }

    fn name(&self) -> (r: &'static str) {
        "OsdEnable"
    }

    fn frame(&self) -> (r: Frame) {
        command(OsdCommands::Enable)
    }
}

/// Hides the overlay.
#[derive(Debug)]
pub struct OsdDisable;

impl SpiCommand for OsdDisable {
    open spec fn spec_frame(&self) -> FrameView {
        FrameView { feature: SpiFeatureSet::Osd, opcode: 0x40, payload: Seq::<BusWrite>::empty() }
    }

    open spec fn spec_valid(&self) -> bool {
        true
    }

    open spec fn spec_name(&self) -> Seq<char> {
        "OsdDisable"@
    }

    fn name(&self) -> (r: &'static str) {
        "OsdDisable"
    }

    fn frame(&self) -> (r: Frame) {
        command(OsdCommands::Disable)
    }
}

/// Why a line of the overlay was not written.
#[derive(Clone, Copy, Debug, PartialEq, Eq, Structural)]
pub enum OsdError {
    /// The number of the line is above 8.
    LineOutOfRange,
}

/// Writes one line of the overlay. The number of the line is at most 8.
pub fn write_line(bus: &mut CommandBus, line_index: u8, bytes: &[u8])
    requires
        line_index <= OSD_LAST_LINE,
    ensures
        final(bus)@ == old(bus)@.spec_transmit((OsdIoWriteLine(line_index, bytes)).spec_frame()),
{
    bus.execute(&OsdIoWriteLine(line_index, bytes));
}

/// Writes one line of the overlay where the number of the line is at most 8,
/// and refuses the line, leaving the bus as it was, where it is not.
pub fn try_write_line(bus: &mut CommandBus, line_index: u8, bytes: &[u8]) -> (r: Result<
    (),
    OsdError,
>)
    ensures
        line_index <= OSD_LAST_LINE ==> r.is_ok() && final(bus)@ == old(bus)@.spec_transmit(
            (OsdIoWriteLine(line_index, bytes)).spec_frame(),
        ),
        line_index > OSD_LAST_LINE ==> r == Err::<(), OsdError>(OsdError::LineOutOfRange)
            && final(bus)@ == old(bus)@,
{
    if line_index <= OSD_LAST_LINE {
        write_line(bus, line_index, bytes);
        Ok(())
    } else {
        Err(OsdError::LineOutOfRange)
    }
}

/// Shows the overlay.
pub fn enable(bus: &mut CommandBus)
    ensures
        final(bus)@ == old(bus)@.spec_transmit(OsdEnable.spec_frame()),
{
    bus.execute(&OsdEnable);
}

/// Hides the overlay.
pub fn disable(bus: &mut CommandBus)
    ensures
        final(bus)@ == old(bus)@.spec_transmit(OsdDisable.spec_frame()),
{
    bus.execute(&OsdDisable);
}

/// No two commands of the overlay share an opcode: the nine lines take 0x20
/// to 0x28, which are neither 0x40 nor 0x41.
pub proof fn law_osd_opcodes_distinct(a: OsdCommands, b: OsdCommands)
    requires
        a matches OsdCommands::WriteLine(n) ==> n <= OSD_LAST_LINE,
        b matches OsdCommands::WriteLine(n) ==> n <= OSD_LAST_LINE,
        a != b,
    ensures
        a.spec_ll_spi_command().0 == SpiFeatureSet::Osd,
        a.spec_ll_spi_command().1 != b.spec_ll_spi_command().1,
{
}

} // verus!
