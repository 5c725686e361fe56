use mister_fpga::fpga::bus::{
    surface, BusOp, BusWrite, CommandBus, Frame, IntoLowLevelSpiCommand, ProtocolPrecondition,
    SpiCommand, SpiFeatureSet,
};
use mister_fpga::fpga::file_io::{
    Commands, FileExtension, FileIndex, FileTxData16Bits, FileTxData8Bits, FileTxDisabled,
    FileTxEnabled,
};
use mister_fpga::fpga::osd_io::{
    disable, enable, try_write_line, write_line, OsdCommands, OsdDisable, OsdEnable, OsdError,
    OsdIoWriteLine,
};
use mister_fpga::fpga::user_io::SetVideoMode;
use mister_fpga::video::mode::{CustomVideoMode, DefaultVideoMode};

#[test]
fn opcode_table() {
    assert_eq!(Commands::FileTx.into_ll_spi_command(), (SpiFeatureSet::Fpga, 0x53));
    assert_eq!(Commands::FileTxDat.into_ll_spi_command(), (SpiFeatureSet::Fpga, 0x54));
    assert_eq!(Commands::FileIndex.into_ll_spi_command(), (SpiFeatureSet::Fpga, 0x55));
    assert_eq!(Commands::FileInfo.into_ll_spi_command(), (SpiFeatureSet::Fpga, 0x56));
    for n in 0u8..=8 {
        assert_eq!(
            OsdCommands::WriteLine(n).into_ll_spi_command(),
            (SpiFeatureSet::Osd, 0x20 + n as u16)
        );
    }
    assert_eq!(OsdCommands::Disable.into_ll_spi_command(), (SpiFeatureSet::Osd, 0x40));
    assert_eq!(OsdCommands::Enable.into_ll_spi_command(), (SpiFeatureSet::Osd, 0x41));
}

#[test]
fn file_index_frame() {
    let f = FileIndex::new(3).frame();
    assert_eq!(f.feature, SpiFeatureSet::Fpga);
    assert_eq!(f.opcode, 0x55);
    assert_eq!(f.payload, vec![BusWrite::Byte(3)]);
    let g = FileIndex::from(200u8).frame();
    assert_eq!(g.payload, vec![BusWrite::Byte(200)]);
    assert_eq!(FileIndex::new(0).name(), "FileIndex");
}

#[test]
fn file_extension_frame_is_dot_prefixed_and_null_padded() {
    let f = FileExtension("rom").frame();
    assert_eq!(f.feature, SpiFeatureSet::Fpga);
    assert_eq!(f.opcode, 0x56);
    assert_eq!(f.payload, vec![BusWrite::Word(0x2e72), BusWrite::Word(0x6f6d)]);
    let f = FileExtension("a").frame();
    assert_eq!(f.payload, vec![BusWrite::Word(0x2e61), BusWrite::Word(0x0000)]);
    let f = FileExtension("").frame();
    assert_eq!(f.payload, vec![BusWrite::Word(0x2e00), BusWrite::Word(0x0000)]);
    let f = FileExtension("sfcx").frame();
    assert_eq!(f.payload, vec![BusWrite::Word(0x2e73), BusWrite::Word(0x6663)]);
    assert_eq!(FileExtension("x").name(), "FileExtension");
}

#[test]
fn file_tx_frames() {
    let f = FileTxEnabled(None).frame();
    assert_eq!((f.feature, f.opcode), (SpiFeatureSet::Fpga, 0x53));
    assert_eq!(f.payload, vec![BusWrite::Byte(0xff)]);
    let f = FileTxEnabled(Some(0x1234_5678)).frame();
    assert_eq!(
        f.payload,
        vec![BusWrite::Byte(0xff), BusWrite::Word(0x5678), BusWrite::Word(0x1234)]
    );
    let f = FileTxDisabled.frame();
    assert_eq!((f.feature, f.opcode), (SpiFeatureSet::Fpga, 0x53));
    assert_eq!(f.payload, vec![BusWrite::Byte(0)]);
    let f = FileTxData8Bits(&[1, 2, 3]).frame();
    assert_eq!((f.feature, f.opcode), (SpiFeatureSet::Fpga, 0x54));
    assert_eq!(f.payload, vec![BusWrite::Byte(1), BusWrite::Byte(2), BusWrite::Byte(3)]);
    let f = FileTxData16Bits(&[0xabcd, 7]).frame();
    assert_eq!((f.feature, f.opcode), (SpiFeatureSet::Fpga, 0x54));
    assert_eq!(f.payload, vec![BusWrite::Word(0xabcd), BusWrite::Word(7)]);
    let f = FileTxData8Bits(&[]).frame();
    assert!(f.payload.is_empty());
}

#[test]
fn osd_frames() {
    let f = OsdIoWriteLine(8, &[9, 8]).frame();
    assert_eq!((f.feature, f.opcode), (SpiFeatureSet::Osd, 0x28));
    assert_eq!(f.payload, vec![BusWrite::Byte(9), BusWrite::Byte(8)]);
    let f = OsdIoWriteLine(0, &[]).frame();
    assert_eq!((f.feature, f.opcode), (SpiFeatureSet::Osd, 0x20));
    let f = OsdEnable.frame();
    assert_eq!((f.feature, f.opcode), (SpiFeatureSet::Osd, 0x41));
    assert!(f.payload.is_empty());
    let f = OsdDisable.frame();
    assert_eq!((f.feature, f.opcode), (SpiFeatureSet::Osd, 0x40));
    assert!(f.payload.is_empty());
}

#[test]
fn ops_select_first_and_deselect_last() {
    let f = FileTxEnabled(Some(0x0001_0002)).frame();
    assert_eq!(
        f.ops(),
        vec![
            BusOp::Select(SpiFeatureSet::Fpga),
            BusOp::Opcode(0x53),
            BusOp::Write(BusWrite::Byte(0xff)),
            BusOp::Write(BusWrite::Word(2)),
            BusOp::Write(BusWrite::Word(1)),
            BusOp::Deselect,
        ]
    );
    assert_eq!(
        OsdEnable.frame().ops(),
        vec![BusOp::Select(SpiFeatureSet::Osd), BusOp::Opcode(0x41), BusOp::Deselect]
    );
}

#[test]
fn frame_is_built_write_by_write() {
    let mut f = Frame::new(SpiFeatureSet::Io, 0x20);
    f.write_b(1);
    f.write(0x0203);
    f.write_buffer_b(&[4, 5]);
    f.write_buffer_w(&[6]);
    assert_eq!(
        f.payload,
        vec![
            BusWrite::Byte(1),
            BusWrite::Word(0x0203),
            BusWrite::Byte(4),
            BusWrite::Byte(5),
            BusWrite::Word(6),
        ]
    );
    let g = f.duplicate();
    assert_eq!(g.payload, f.payload);
    assert_eq!((g.feature, g.opcode), (SpiFeatureSet::Io, 0x20));
}

#[test]
fn bus_queues_frames_in_order() {
    let mut bus = CommandBus::new();
    assert_eq!(bus.selected(), None);
    assert_eq!(bus.pending_len(), 0);
    bus.execute(&OsdEnable);
    assert_eq!(bus.selected(), Some(SpiFeatureSet::Osd));
    bus.execute(&FileIndex::new(1));
    assert_eq!(bus.selected(), Some(SpiFeatureSet::Fpga));
    assert_eq!(bus.pending_len(), 2);
    let frames = bus.take_pending();
    assert_eq!(frames.len(), 2);
    assert_eq!(frames[0].opcode, 0x41);
    assert_eq!(frames[1].opcode, 0x55);
    assert_eq!(bus.pending_len(), 0);
    assert_eq!(bus.selected(), Some(SpiFeatureSet::Fpga));
}

#[test]
fn file_data_needs_an_open_transfer() {
    let mut bus = CommandBus::new();
    assert!(!bus.file_tx_enabled());
    let data = FileTxData8Bits(&[1]).frame();
    assert!(!bus.accepts(&data));
    assert_eq!(bus.try_transmit(data), Err(ProtocolPrecondition::FileTxNotEnabled));
    assert_eq!(bus.pending_len(), 0);
    assert_eq!(bus.selected(), None);

    assert_eq!(bus.try_transmit(FileTxEnabled(Some(2)).frame()), Ok(()));
    assert!(bus.file_tx_enabled());
    assert_eq!(bus.try_transmit(FileTxData8Bits(&[1, 2]).frame()), Ok(()));
    assert_eq!(bus.try_transmit(FileTxData16Bits(&[3]).frame()), Ok(()));
    assert!(bus.file_tx_enabled());
    assert_eq!(bus.try_transmit(FileTxDisabled.frame()), Ok(()));
    assert!(!bus.file_tx_enabled());
    assert_eq!(
        bus.try_transmit(FileTxData8Bits(&[1]).frame()),
        Err(ProtocolPrecondition::FileTxNotEnabled)
    );
    assert_eq!(bus.pending_len(), 4);
}

#[test]
fn other_commands_leave_a_transfer_open() {
    let mut bus = CommandBus::new();
    bus.transmit(FileTxEnabled(None).frame());
    bus.execute(&OsdEnable);
    bus.execute(&FileIndex::new(0));
    bus.execute(&FileExtension("bin"));
    assert!(bus.file_tx_enabled());
    assert!(bus.accepts(&FileTxData8Bits(&[0]).frame()));
}

#[test]
fn transport_failures_are_surfaced() {
    assert!(surface(Ok(())).is_ok());
    let e = surface(Err("spi write failed".to_string())).unwrap_err();
    assert_eq!(e.message, "spi write failed");
}

#[test]
fn osd_lines_zero_to_eight_are_written() {
    let mut bus = CommandBus::new();
    for line in 0u8..=8 {
        assert_eq!(try_write_line(&mut bus, line, &[line, 1]), Ok(()));
    }
    write_line(&mut bus, 4, &[7]);
    let frames = bus.take_pending();
    assert_eq!(frames.len(), 10);
    for line in 0u8..=8 {
        let f = &frames[line as usize];
        assert_eq!((f.feature, f.opcode), (SpiFeatureSet::Osd, 0x20 + line as u16));
        assert_eq!(f.payload, vec![BusWrite::Byte(line), BusWrite::Byte(1)]);
    }
    assert_eq!(frames[9].opcode, 0x24);
}

#[test]
fn osd_line_nine_is_rejected() {
    let mut bus = CommandBus::new();
    assert_eq!(try_write_line(&mut bus, 9, &[1, 2, 3]), Err(OsdError::LineOutOfRange));
    assert_eq!(try_write_line(&mut bus, 255, &[]), Err(OsdError::LineOutOfRange));
    assert_eq!(bus.pending_len(), 0);
    assert_eq!(bus.selected(), None);
}

#[test]
fn osd_enable_and_disable() {
    let mut bus = CommandBus::new();
    enable(&mut bus);
    disable(&mut bus);
    let frames = bus.take_pending();
    assert_eq!(frames.len(), 2);
    assert_eq!(frames[0].opcode, 0x41);
    assert_eq!(frames[1].opcode, 0x40);
    assert_eq!(frames[0].feature, SpiFeatureSet::Osd);
}

#[test]
fn video_mode_frame_holds_the_fields_as_halves() {
    let mut v = CustomVideoMode::from(DefaultVideoMode::V1920x1080r60);
    v.param.pll[11] = 0xf5c2_8f5c;
    v.param.vic = 0x0001_0002;
    let f = SetVideoMode(&v).frame();
    assert_eq!((f.feature, f.opcode), (SpiFeatureSet::Io, 0x20));
    assert_eq!(f.payload.len(), 52);
    let words = v.param.wire_words();
    for (i, w) in words.iter().enumerate() {
        assert_eq!(f.payload[2 * i], BusWrite::Word(*w as u16));
        assert_eq!(f.payload[2 * i + 1], BusWrite::Word((*w >> 16) as u16));
    }
    assert_eq!(f.payload[0], BusWrite::Word(8));
    assert_eq!(f.payload[2], BusWrite::Word(1920));
    assert_eq!(f.payload[40], BusWrite::Word(0x8f5c));
    assert_eq!(f.payload[41], BusWrite::Word(0xf5c2));
    assert_eq!(f.payload[46], BusWrite::Word(2));
    assert_eq!(f.payload[47], BusWrite::Word(1));
    assert_eq!(SetVideoMode(&v).name(), "SetVideoMode");
    let mut bus = CommandBus::new();
    bus.execute(&SetVideoMode(&v));
    assert_eq!(bus.selected(), Some(SpiFeatureSet::Io));
    assert!(!bus.file_tx_enabled());
}
