//! The commands that set up the input and output of the core.

use super::bus::{BusWrite, Frame, FrameView, SpiCommand, SpiFeatureSet};
use crate::video::mode::CustomVideoMode;
use vstd::prelude::*;

verus! {

/// Opcode of the command that sets the video mode.
pub const OPCODE_SET_VIDEO: u16 = 0x20;

/// Words of 32 bits as writes of a payload: each word as two words of 16
/// bits, the low half first.
pub open spec fn spec_word_halves(words: Seq<u32>) -> Seq<BusWrite> {
    Seq::new(
        2 * words.len(),
        |i: int|
            if i % 2 == 0 {
                BusWrite::Word((words[i / 2] % 0x10000) as u16)
            } else {
                BusWrite::Word((words[i / 2] / 0x10000) as u16)
            },
    )
}

/// Sets the video mode: the fields of the descriptor in their wire order,
/// each as two words of 16 bits, the low half first.
pub struct SetVideoMode<'a>(pub &'a CustomVideoMode);

impl SpiCommand for SetVideoMode<'_> {
    open spec fn spec_frame(&self) -> FrameView {
        FrameView {
            feature: SpiFeatureSet::Io,
            opcode: 0x20,
            payload: spec_word_halves(self.0.param.spec_wire_words()),
        }
    }

    open spec fn spec_valid(&self) -> bool {
        true
    }

    open spec fn spec_name(&self) -> Seq<char> {
        "SetVideoMode"@
    }

    fn name(&self) -> (r: &'static str) {
        "SetVideoMode"
    }

    fn frame(&self) -> (r: Frame) {
        let words = self.0.param.wire_words();
        let mut f = Frame::new(SpiFeatureSet::Io, OPCODE_SET_VIDEO);
        let mut i: usize = 0;
        while i < words.len()
            invariant
                i <= words@.len(),
                words@ == self.0.param.spec_wire_words(),
                f@.feature == SpiFeatureSet::Io,
                f@.opcode == 0x20,
                f@.payload == spec_word_halves(words@.take(i as int)),
            decreases words.len() - i,
        {
            let w = words[i];
            let ghost before = f@.payload;
            f.write((w % 0x10000) as u16);
            f.write((w / 0x10000) as u16);
            i = i + 1;
            assert(f@.payload =~= spec_word_halves(words@.take(i as int))) by {
                let t = spec_word_halves(words@.take(i as int));
                assert(f@.payload.len() == t.len());
                assert forall|j: int| 0 <= j < t.len() implies f@.payload[j] == t[j] by {
                    if j < 2 * (i - 1) {
                        assert(f@.payload[j] == before[j]);
                        assert(words@.take(i as int)[j / 2] == words@.take(i as int - 1)[j / 2]);
                    }
                }
            }
        }
        assert(words@.take(words@.len() as int) =~= words@);
        f
    }
}

/// The frame that sets the video mode holds words only, two for each of the
/// 26 fields of the descriptor, and is no part of a file transfer.
pub proof fn law_set_video_mode_frame(command: SetVideoMode)
    ensures
        command.spec_frame().spec_uniform(),
        command.spec_frame().payload.len() == 52,
        !command.spec_frame().spec_is_file_tx_data(),
        !command.spec_frame().spec_is_file_tx_enable(),
        !command.spec_frame().spec_is_file_tx_disable(),
{
}

} // verus!
