//! The commands of a file transfer.
//!
//! A transfer is opened with `FileTxEnabled`, carries its data in
//! `FileTxData8Bits` or `FileTxData16Bits` commands, and is closed with
//! `FileTxDisabled`. The bus refuses data while no transfer is open.

use super::bus::{
    spec_byte_writes, spec_word_writes, BusWrite, Frame, FrameView, IntoLowLevelSpiCommand,
    SpiCommand, SpiFeatureSet, FILE_TX_DISABLE, FILE_TX_ENABLE,
};
use vstd::prelude::*;
use vstd::string::StringSliceAdditionalSpecFns;

verus! {

/// The commands of a file transfer, by opcode.
#[derive(Clone, Copy, Debug, PartialEq, Eq, Structural)]
pub enum Commands {
    /// Opens or closes a transfer.
    FileTx,
    /// Carries data.
    FileTxDat,
    /// Names the index of the file.
    FileIndex,
    /// Names the extension of the file.
    FileInfo,
}

impl IntoLowLevelSpiCommand for Commands {
    open spec fn spec_ll_spi_command(self) -> (SpiFeatureSet, u16) {
        (
            SpiFeatureSet::Fpga,
            match self {
                Commands::FileTx => 0x53u16,
                Commands::FileTxDat => 0x54u16,
                Commands::FileIndex => 0x55u16,
                Commands::FileInfo => 0x56u16,
            },
        )
    }

    fn into_ll_spi_command(self) -> (r: (SpiFeatureSet, u16)) {
        (
            SpiFeatureSet::Fpga,
            match self {
                Commands::FileTx => 0x53,
                Commands::FileTxDat => 0x54,
                Commands::FileIndex => 0x55,
                Commands::FileInfo => 0x56,
            },
        )
    }
}

fn command(c: Commands) -> (r: Frame)
    ensures
        r@ == (FrameView {
            feature: c.spec_ll_spi_command().0,
            opcode: c.spec_ll_spi_command().1,
            payload: Seq::<BusWrite>::empty(),
        }),
{
    let (feature, opcode) = c.into_ll_spi_command();
    Frame::new(feature, opcode)
}

/// Sends the index of the file.
#[derive(Debug)]
pub struct FileIndex(u8);

impl FileIndex {
    /// The index that is sent.
    pub closed spec fn spec_index(&self) -> u8 {
        self.0
    }

    /// The command that sends `index`.
    pub fn new(index: u8) -> (r: FileIndex)
        ensures
            r.spec_index() == index,
    {
        FileIndex(index)
    }
}

impl From<u8> for FileIndex {
    fn from(value: u8) -> (r: FileIndex)
        ensures
            r.spec_index() == value,
    {
        FileIndex::new(value)
    }
}

impl vstd::std_specs::convert::FromSpecImpl<u8> for FileIndex {
    closed spec fn obeys_from_spec() -> bool {
        true
    }

    closed spec fn from_spec(value: u8) -> FileIndex {
        FileIndex(value)
    }
}

impl SpiCommand for FileIndex {
    open spec fn spec_frame(&self) -> FrameView {
        FrameView {
            feature: SpiFeatureSet::Fpga,
            opcode: 0x55,
            payload: seq![BusWrite::Byte(self.spec_index())],
        }
    }

    open spec fn spec_valid(&self) -> bool {
        true
    }

    open spec fn spec_name(&self) -> Seq<char> {
        "FileIndex"@
    }

    fn name(&self) -> (r: &'static str) {
        "FileIndex"
    }

    fn frame(&self) -> (r: Frame) {
        let mut f = command(Commands::FileIndex);
        f.write_b(self.0);
        assert(f@.payload =~= seq![BusWrite::Byte(self.spec_index())]);
        f
    }
}

/// A byte of an extension, or zero past its end.
pub open spec fn spec_ext_byte(ext: Seq<u8>, i: int) -> u8 {
    if i < ext.len() {
        ext[i]
    } else {
        0
    }
}

/// Two bytes as one word, the first in the high half.
pub open spec fn spec_word_of(high: u8, low: u8) -> u16 {
    (high as int * 256 + low as int) as u16
}

/// Sends the extension of the file: a dot and the first three bytes of the
/// extension, padded with zeros, as two words.
#[derive(Debug)]
pub struct FileExtension<'a>(pub &'a str);

impl SpiCommand for FileExtension<'_> {
    open spec fn spec_frame(&self) -> FrameView {
        let ext = self.0.spec_bytes();
        FrameView {
            feature: SpiFeatureSet::Fpga,
            opcode: 0x56,
            payload: seq![
                BusWrite::Word(spec_word_of(0x2E, spec_ext_byte(ext, 0))),
                BusWrite::Word(spec_word_of(spec_ext_byte(ext, 1), spec_ext_byte(ext, 2))),
            ],
        }
    }

    open spec fn spec_valid(&self) -> bool {
        true
    }

    open spec fn spec_name(&self) -> Seq<char> {
        "FileExtension"@
    }

    fn name(&self) -> (r: &'static str) {
        "FileExtension"
    }

    fn frame(&self) -> (r: Frame) {
        let ext_bytes = self.0.as_bytes();
        let e1: u8 = if ext_bytes.len() > 0 {
            ext_bytes[0]
        } else {
            0
        };
        let e2: u8 = if ext_bytes.len() > 1 {
            ext_bytes[1]
        } else {
            0
        };
        let e3: u8 = if ext_bytes.len() > 2 {
            ext_bytes[2]
        } else {
            0
        };
        let mut f = command(Commands::FileInfo);
        f.write((0x2E as u16) * 256 + e1 as u16);
        f.write((e2 as u16) * 256 + e3 as u16);
        assert(f@.payload =~= self.spec_frame().payload);
        f
    }
}

/// Opens a file transfer, with the size of the file where it is known: the
/// low half of the size first, then the high half.
#[derive(Debug)]
pub struct FileTxEnabled(pub Option<u32>);

impl SpiCommand for FileTxEnabled {
    open spec fn spec_frame(&self) -> FrameView {
        FrameView {
            feature: SpiFeatureSet::Fpga,
            opcode: 0x53,
            payload: match self.0 {
                Some(size) => seq![
                    BusWrite::Byte(FILE_TX_ENABLE),
                    BusWrite::Word((size % 0x10000) as u16),
                    BusWrite::Word((size / 0x10000) as u16),
                ],
                None => seq![BusWrite::Byte(FILE_TX_ENABLE)],
            },
        }
    }

    open spec fn spec_valid(&self) -> bool {
        true
    }

    open spec fn spec_name(&self) -> Seq<char> {
        "FileTxEnabled"@
    }

    fn name(&self) -> (r: &'static str) {
        "FileTxEnabled"
    }

    fn frame(&self) -> (r: Frame) {
        let mut f = command(Commands::FileTx);
        f.write_b(FILE_TX_ENABLE);
        if let Some(size) = self.0 {
            f.write((size % 0x10000) as u16);
            f.write((size / 0x10000) as u16);
        }
        assert(f@.payload =~= self.spec_frame().payload);
        f
    }
}

/// Closes a file transfer.
#[derive(Debug)]
pub struct FileTxDisabled;

impl SpiCommand for FileTxDisabled {
    open spec fn spec_frame(&self) -> FrameView {
        FrameView {
            feature: SpiFeatureSet::Fpga,
            opcode: 0x53,
            payload: seq![BusWrite::Byte(FILE_TX_DISABLE)],
        }
    }

    open spec fn spec_valid(&self) -> bool {
        true
    }

    open spec fn spec_name(&self) -> Seq<char> {
        "FileTxDisabled"@
    }

    fn name(&self) -> (r: &'static str) {
        "FileTxDisabled"
    }

    fn frame(&self) -> (r: Frame) {
        let mut f = command(Commands::FileTx);
        f.write_b(FILE_TX_DISABLE);
        assert(f@.payload =~= self.spec_frame().payload);
        f
    }
}

/// Carries data of a file transfer, byte by byte.
#[derive(Debug)]
pub struct FileTxData8Bits<'a>(pub &'a [u8]);

impl SpiCommand for FileTxData8Bits<'_> {
    open spec fn spec_frame(&self) -> FrameView {
        FrameView {
            feature: SpiFeatureSet::Fpga,
            opcode: 0x54,
            payload: spec_byte_writes(self.0@),
        }
    }

    open spec fn spec_valid(&self) -> bool {
        true
    }

    open spec fn spec_name(&self) -> Seq<char> {
        "FileTxData8Bits"@
    }

    fn name(&self) -> (r: &'static str) {
        "FileTxData8Bits"
    }

    fn frame(&self) -> (r: Frame) {
        let mut f = command(Commands::FileTxDat);
        f.write_buffer_b(self.0);
        assert(f@.payload =~= self.spec_frame().payload);
        f
    }
}

/// Carries data of a file transfer, word by word.
pub struct FileTxData16Bits<'a>(pub &'a [u16]);

impl SpiCommand for FileTxData16Bits<'_> {
    open spec fn spec_frame(&self) -> FrameView {
        FrameView {
            feature: SpiFeatureSet::Fpga,
            opcode: 0x54,
            payload: spec_word_writes(self.0@),
        }
    }

    open spec fn spec_valid(&self) -> bool {
        true
    }

    open spec fn spec_name(&self) -> Seq<char> {
        "FileTxData16Bits"@
    }

    fn name(&self) -> (r: &'static str) {
        "FileTxData16Bits"
    }

    fn frame(&self) -> (r: Frame) {
        let mut f = command(Commands::FileTxDat);
        f.write_buffer_w(self.0);
        assert(f@.payload =~= self.spec_frame().payload);
        f
    }
}

/// The payload of every command of a file transfer is of one kind, bytes
/// or words, but for the command that opens a transfer with the size of the
/// file: its payload is the byte that opens, followed by two words.
pub proof fn law_file_payloads(
    index: FileIndex,
    extension: FileExtension,
    enabled: FileTxEnabled,
    disabled: FileTxDisabled,
    bytes: FileTxData8Bits,
    words: FileTxData16Bits,
)
    ensures
        index.spec_frame().spec_uniform(),
        extension.spec_frame().spec_uniform(),
        disabled.spec_frame().spec_uniform(),
        bytes.spec_frame().spec_uniform(),
        words.spec_frame().spec_uniform(),
        enabled.0.is_none() ==> enabled.spec_frame().spec_uniform(),
        enabled.0.is_some() ==> enabled.spec_frame().payload.len() == 3
            && enabled.spec_frame().payload[0] is Byte && enabled.spec_frame().payload[1] is Word
            && enabled.spec_frame().payload[2] is Word,
        enabled.spec_frame().spec_is_file_tx_enable(),
        disabled.spec_frame().spec_is_file_tx_disable(),
        bytes.spec_frame().spec_is_file_tx_data(),
        words.spec_frame().spec_is_file_tx_data(),
{
}

/// Data of a file transfer is taken by the bus after the transfer has been
/// opened and until it is closed, whatever other commands go in between that
/// neither open nor close a transfer.
pub proof fn law_file_transfer_order(
    bus: super::bus::CommandBusView,
    enabled: FileTxEnabled,
    disabled: FileTxDisabled,
    data: FileTxData8Bits,
    other: FrameView,
)
    requires
        !other.spec_is_file_tx_enable(),
        !other.spec_is_file_tx_disable(),
    ensures
        bus.spec_transmit(enabled.spec_frame()).spec_accepts(data.spec_frame()),
        bus.spec_transmit(enabled.spec_frame()).spec_transmit(other).spec_accepts(
            data.spec_frame(),
        ),
        bus.spec_transmit(enabled.spec_frame()).spec_transmit(data.spec_frame()).spec_accepts(
            data.spec_frame(),
        ),
        !bus.spec_transmit(disabled.spec_frame()).spec_accepts(data.spec_frame()),
        !bus.spec_transmit(disabled.spec_frame()).spec_transmit(other).spec_accepts(
            data.spec_frame(),
        ),
{
}

} // verus!
