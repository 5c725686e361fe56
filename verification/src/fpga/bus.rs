//! The command bus: how a command is laid out for the transport, and the
//! state that the bus keeps between commands.
//!
//! The bus does no I/O. A command becomes a frame; transmitting a frame puts
//! it in line for the transport, which takes the frames in order and performs
//! the operations of each. The bus has one owner, who issues one command at a
//! time.

use vstd::prelude::*;

verus! {

/// The feature domains of the FPGA that a command may address.
#[derive(Clone, Copy, Debug, PartialEq, Eq, Structural)]
pub enum SpiFeatureSet {
    /// The core itself.
    Fpga,
    /// The on-screen display.
    Osd,
    /// The input and output of the core.
    Io,
}

/// One write of a payload: a byte or a 16-bit word.
#[derive(Clone, Copy, Debug, PartialEq, Eq, Structural)]
pub enum BusWrite {
    /// A byte.
    Byte(u8),
    /// A 16-bit word.
    Word(u16),
}

/// One operation of the transport.
#[derive(Clone, Copy, Debug, PartialEq, Eq, Structural)]
pub enum BusOp {
    /// Address a feature domain.
    Select(SpiFeatureSet),
    /// Send the opcode of a command.
    Opcode(u16),
    /// Send one write of the payload.
    Write(BusWrite),
    /// Release the feature domain.
    Deselect,
}

/// A command as it travels over the bus: its address and its payload.
#[derive(Debug)]
pub struct Frame {
    /// The feature domain that the command addresses.
    pub feature: SpiFeatureSet,
    /// The opcode of the command.
    pub opcode: u16,
    /// The payload, in the order in which it is sent.
    pub payload: Vec<BusWrite>,
}

/// What a frame holds.
pub struct FrameView {
    /// The feature domain that the command addresses.
    pub feature: SpiFeatureSet,
    /// The opcode of the command.
    pub opcode: u16,
    /// The payload, in the order in which it is sent.
    pub payload: Seq<BusWrite>,
}

impl View for Frame {
    type V = FrameView;

    open spec fn view(&self) -> FrameView {
        FrameView { feature: self.feature, opcode: self.opcode, payload: self.payload@ }
    }
}

/// Opcode of the command that opens and closes a file transfer.
pub const OPCODE_FILE_TX: u16 = 0x53;

/// Opcode of the command that carries the data of a file transfer.
pub const OPCODE_FILE_TX_DAT: u16 = 0x54;

/// The byte that opens a file transfer.
pub const FILE_TX_ENABLE: u8 = 0xff;

/// The byte that closes a file transfer.
pub const FILE_TX_DISABLE: u8 = 0x00;

/// Bytes as writes of a payload.
pub open spec fn spec_byte_writes(bytes: Seq<u8>) -> Seq<BusWrite> {
    Seq::new(bytes.len(), |i: int| BusWrite::Byte(bytes[i]))
}

/// Words as writes of a payload.
pub open spec fn spec_word_writes(words: Seq<u16>) -> Seq<BusWrite> {
    Seq::new(words.len(), |i: int| BusWrite::Word(words[i]))
}

impl FrameView {
    /// The operations that the transport performs for the frame: it
    /// addresses the feature domain, sends the opcode, sends the payload in
    /// order, and releases the feature domain.
    pub open spec fn spec_ops(self) -> Seq<BusOp> {
        seq![BusOp::Select(self.feature), BusOp::Opcode(self.opcode)] + Seq::new(
            self.payload.len(),
            |i: int| BusOp::Write(self.payload[i]),
        ) + seq![BusOp::Deselect]
    }

    /// Whether the payload is of one kind: bytes only, or words only.
    pub open spec fn spec_uniform(self) -> bool {
        (forall|i: int| 0 <= i < self.payload.len() ==> #[trigger] self.payload[i] is Byte) || (
        forall|i: int| 0 <= i < self.payload.len() ==> #[trigger] self.payload[i] is Word)
    }

    /// Whether the frame opens a file transfer.
    pub open spec fn spec_is_file_tx_enable(self) -> bool {
        self.feature == SpiFeatureSet::Fpga && self.opcode == OPCODE_FILE_TX && self.payload.len()
            > 0 && self.payload[0] == BusWrite::Byte(FILE_TX_ENABLE)
    }

    /// Whether the frame closes a file transfer.
    pub open spec fn spec_is_file_tx_disable(self) -> bool {
        self.feature == SpiFeatureSet::Fpga && self.opcode == OPCODE_FILE_TX && !(
        self.payload.len() > 0 && self.payload[0] == BusWrite::Byte(FILE_TX_ENABLE))
    }

    /// Whether the frame carries data of a file transfer.
    pub open spec fn spec_is_file_tx_data(self) -> bool {
        self.feature == SpiFeatureSet::Fpga && self.opcode == OPCODE_FILE_TX_DAT
    }
}

impl Frame {
    /// A frame without payload.
    pub fn new(feature: SpiFeatureSet, opcode: u16) -> (r: Frame)
        ensures
            r@ == (FrameView { feature, opcode, payload: Seq::<BusWrite>::empty() }),
    {
        Frame { feature, opcode, payload: Vec::new() }
    }

    /// Appends a byte to the payload.
    pub fn write_b(&mut self, byte: u8)
        ensures
            final(self)@ == (FrameView {
                payload: old(self)@.payload.push(BusWrite::Byte(byte)),
                ..old(self)@
            }),
    {
        self.payload.push(BusWrite::Byte(byte));
    }

    /// Appends a word to the payload.
    pub fn write(&mut self, word: u16)
        ensures
            final(self)@ == (FrameView {
                payload: old(self)@.payload.push(BusWrite::Word(word)),
                ..old(self)@
            }),
    {
        self.payload.push(BusWrite::Word(word));
    }

    /// Appends bytes to the payload.
    pub fn write_buffer_b(&mut self, buffer: &[u8])
        ensures
            final(self)@ == (FrameView {
                payload: old(self)@.payload + spec_byte_writes(buffer@),
                ..old(self)@
            }),
    {
        let mut i: usize = 0;
        while i < buffer.len()
            invariant
                i <= buffer@.len(),
                self.feature == old(self).feature,
                self.opcode == old(self).opcode,
                self.payload@ == old(self)@.payload + spec_byte_writes(buffer@.take(i as int)),
            decreases buffer.len() - i,
        {
            self.payload.push(BusWrite::Byte(buffer[i]));
            i = i + 1;
            assert(spec_byte_writes(buffer@.take(i as int)) =~= spec_byte_writes(
                buffer@.take(i as int - 1),
            ).push(BusWrite::Byte(buffer@[i as int - 1])));
        }
        assert(buffer@.take(buffer@.len() as int) =~= buffer@);
    }

    /// Appends words to the payload.
    pub fn write_buffer_w(&mut self, buffer: &[u16])
        ensures
            final(self)@ == (FrameView {
                payload: old(self)@.payload + spec_word_writes(buffer@),
                ..old(self)@
            }),
    {
        let mut i: usize = 0;
        while i < buffer.len()
            invariant
                i <= buffer@.len(),
                self.feature == old(self).feature,
                self.opcode == old(self).opcode,
                self.payload@ == old(self)@.payload + spec_word_writes(buffer@.take(i as int)),
            decreases buffer.len() - i,
        {
            self.payload.push(BusWrite::Word(buffer[i]));
            i = i + 1;
            assert(spec_word_writes(buffer@.take(i as int)) =~= spec_word_writes(
                buffer@.take(i as int - 1),
            ).push(BusWrite::Word(buffer@[i as int - 1])));
        }
        assert(buffer@.take(buffer@.len() as int) =~= buffer@);
    }

    /// The operations that the transport performs for the frame, in order.
    pub fn ops(&self) -> (r: Vec<BusOp>)
        ensures
            r@ == self@.spec_ops(),
    {
        let mut r: Vec<BusOp> = Vec::new();
        r.push(BusOp::Select(self.feature));
        r.push(BusOp::Opcode(self.opcode));
        let mut i: usize = 0;
        while i < self.payload.len()
            invariant
                i <= self.payload@.len(),
                r@ == seq![BusOp::Select(self.feature), BusOp::Opcode(self.opcode)] + Seq::new(
                    i as nat,
                    |j: int| BusOp::Write(self.payload@[j]),
                ),
            decreases self.payload.len() - i,
        {
            r.push(BusOp::Write(self.payload[i]));
            i = i + 1;
            assert(r@ =~= seq![BusOp::Select(self.feature), BusOp::Opcode(self.opcode)] + Seq::new(
                i as nat,
                |j: int| BusOp::Write(self.payload@[j]),
            ));
        }
        r.push(BusOp::Deselect);
        assert(r@ =~= self@.spec_ops());
        r
    }

    /// A copy of the frame.
    pub fn duplicate(&self) -> (r: Frame)
        ensures
            r@ == self@,
    {
        Frame { feature: self.feature, opcode: self.opcode, payload: self.payload.clone() }
    }
}

/// A command by its address on the bus.
pub trait IntoLowLevelSpiCommand: Sized {
    /// The feature domain and the opcode of the command.
    spec fn spec_ll_spi_command(self) -> (SpiFeatureSet, u16);

    /// The feature domain and the opcode of the command.
    fn into_ll_spi_command(self) -> (r: (SpiFeatureSet, u16))
        ensures
            r == self.spec_ll_spi_command(),
    ;
}

/// A command that can be sent over the bus.
pub trait SpiCommand {
    /// The frame of the command.
    spec fn spec_frame(&self) -> FrameView;

    /// Whether the command can be laid out as a frame.
    spec fn spec_valid(&self) -> bool;

    /// The name of the command.
    spec fn spec_name(&self) -> Seq<char>;

    /// The name of the command.
    fn name(&self) -> (r: &'static str)
        ensures
            r@ == self.spec_name(),
    ;

    /// Lays the command out as a frame.
    fn frame(&self) -> (r: Frame)
        requires
            self.spec_valid(),
        ensures
            r@ == self.spec_frame(),
    ;
}

/// A failure of the transport, with what the transport said of it.
#[derive(Debug)]
pub struct TransportError {
    /// What the transport said.
    pub message: String,
}

/// A frame that the bus refuses because the caller broke the order of the
/// protocol.
#[derive(Clone, Copy, Debug, PartialEq, Eq, Structural)]
pub enum ProtocolPrecondition {
    /// Data of a file transfer while no transfer is open.
    FileTxNotEnabled,
}

/// What the transport reports of a frame, as the error of this layer: a
/// failure is handed on with its message, never dropped.
pub fn surface(outcome: Result<(), String>) -> (r: Result<(), TransportError>)
    ensures
        match outcome {
            Ok(_) => r.is_ok(),
            Err(message) => r.is_err() && r.unwrap_err().message == message,
        },
{
    match outcome {
        Ok(_) => Ok(()),
        Err(message) => Err(TransportError { message }),
    }
}

/// The state of the bus: the feature domain addressed last, whether a file
/// transfer is open, and the frames in line for the transport.
#[derive(Debug)]
pub struct CommandBus {
    selected: Option<SpiFeatureSet>,
    file_tx: bool,
    pending: Vec<Frame>,
}

/// What the bus holds.
pub struct CommandBusView {
    /// The feature domain addressed last.
    pub selected: Option<SpiFeatureSet>,
    /// Whether a file transfer is open.
    pub file_tx: bool,
    /// The frames in line for the transport, oldest first.
    pub pending: Seq<FrameView>,
}

impl CommandBusView {
    /// Whether the bus takes the frame: data of a file transfer only while a
    /// transfer is open.
    pub open spec fn spec_accepts(self, frame: FrameView) -> bool {
        frame.spec_is_file_tx_data() ==> self.file_tx
    }

    /// The bus after it has taken the frame.
    pub open spec fn spec_transmit(self, frame: FrameView) -> CommandBusView {
        CommandBusView {
            selected: Some(frame.feature),
            file_tx: if frame.spec_is_file_tx_enable() {
                true
            } else if frame.spec_is_file_tx_disable() {
                false
            } else {
                self.file_tx
            },
            pending: self.pending.push(frame),
        }
    }
}

impl View for CommandBus {
    type V = CommandBusView;

    closed spec fn view(&self) -> CommandBusView {
        CommandBusView {
            selected: self.selected,
            file_tx: self.file_tx,
            pending: Seq::new(self.pending@.len(), |i: int| self.pending@[i]@),
        }
    }
}

impl CommandBus {
    /// A bus on which nothing has been sent.
    pub fn new() -> (r: CommandBus)
        ensures
            r@ == (CommandBusView {
                selected: None,
                file_tx: false,
                pending: Seq::<FrameView>::empty(),
            }),
    {
        let r = CommandBus { selected: None, file_tx: false, pending: Vec::new() };
        assert(r@.pending =~= Seq::<FrameView>::empty());
        r
    }

    /// The feature domain addressed last.
    pub fn selected(&self) -> (r: Option<SpiFeatureSet>)
        ensures
            r == self@.selected,
    {
        self.selected
    }

    /// Whether a file transfer is open.
    pub fn file_tx_enabled(&self) -> (r: bool)
        ensures
            r == self@.file_tx,
    {
        self.file_tx
    }

    /// Number of frames in line for the transport.
    pub fn pending_len(&self) -> (r: usize)
        ensures
            r == self@.pending.len(),
    {
        self.pending.len()
    }

    /// Whether the bus takes the frame.
    pub fn accepts(&self, frame: &Frame) -> (r: bool)
        ensures
            r == self@.spec_accepts(frame@),
    {
        !(frame.feature == SpiFeatureSet::Fpga && frame.opcode == OPCODE_FILE_TX_DAT)
            || self.file_tx
    }

    /// Transmits a frame: the bus addresses the feature domain of the frame
    /// and puts the frame in line for the transport. Data of a file transfer
    /// may be transmitted only while a transfer is open.
    pub fn transmit(&mut self, frame: Frame)
        requires
            old(self)@.spec_accepts(frame@),
        ensures
            final(self)@ == old(self)@.spec_transmit(frame@),
    {
        let enable = frame.feature == SpiFeatureSet::Fpga && frame.opcode == OPCODE_FILE_TX
            && frame.payload.len() > 0 && is_enable_byte(frame.payload[0]);
        let disable = frame.feature == SpiFeatureSet::Fpga && frame.opcode == OPCODE_FILE_TX
            && !enable;
        self.selected = Some(frame.feature);
        if enable {
            self.file_tx = true;
        } else if disable {
            self.file_tx = false;
        }
        self.pending.push(frame);
        assert(self@.pending =~= old(self)@.pending.push(frame@));
    }

    /// Transmits a frame where the bus takes it, and refuses it where it
    /// does not, leaving the bus as it was.
    pub fn try_transmit(&mut self, frame: Frame) -> (r: Result<(), ProtocolPrecondition>)
        ensures
            old(self)@.spec_accepts(frame@) ==> r.is_ok() && final(self)@ == old(
                self,
            )@.spec_transmit(frame@),
            !old(self)@.spec_accepts(frame@) ==> r == Err::<(), ProtocolPrecondition>(
                ProtocolPrecondition::FileTxNotEnabled,
            ) && final(self)@ == old(self)@,
    {
        if self.accepts(&frame) {
            self.transmit(frame);
            Ok(())
        } else {
            Err(ProtocolPrecondition::FileTxNotEnabled)
        }
    }

    /// Lays a command out as a frame and transmits it.
    pub fn execute<C: SpiCommand>(&mut self, command: &C)
        requires
            command.spec_valid(),
            old(self)@.spec_accepts(command.spec_frame()),
        ensures
            final(self)@ == old(self)@.spec_transmit(command.spec_frame()),
    {
        let frame = command.frame();
        self.transmit(frame);
    }

    /// Hands the frames in line to the transport, oldest first, and leaves
    /// none in line.
    pub fn take_pending(&mut self) -> (frames: Vec<Frame>)
        ensures
            Seq::new(frames@.len(), |i: int| frames@[i]@) == old(self)@.pending,
            final(self)@ == (CommandBusView { pending: Seq::<FrameView>::empty(), ..old(self)@ }),
    {
        let mut frames: Vec<Frame> = Vec::new();
        frames.append(&mut self.pending);
        assert(Seq::new(frames@.len(), |i: int| frames@[i]@) =~= old(self)@.pending);
        assert(self@.pending =~= Seq::<FrameView>::empty());
        frames
    }
}

fn is_enable_byte(w: BusWrite) -> (r: bool)
    ensures
        r == (w == BusWrite::Byte(FILE_TX_ENABLE)),
{
    match w {
        BusWrite::Byte(b) => b == FILE_TX_ENABLE,
        BusWrite::Word(_) => false,
    }
}

/// The transport is told which feature domain to address before anything
/// else of a frame is sent, and it releases the feature domain last.
pub proof fn law_ops_select_first(frame: FrameView)
    ensures
        frame.spec_ops().len() == frame.payload.len() + 3,
        frame.spec_ops()[0] == BusOp::Select(frame.feature),
        frame.spec_ops()[1] == BusOp::Opcode(frame.opcode),
        frame.spec_ops().last() == BusOp::Deselect,
        forall|i: int|
            0 <= i < frame.payload.len() ==> #[trigger] frame.spec_ops()[i + 2] == BusOp::Write(
                frame.payload[i],
            ),
{
}

} // verus!
