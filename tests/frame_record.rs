use backtrace_dbghelp::{AddrMode, Address64, Frame, FrameKind};

#[test]
fn zeroed_records_have_their_shape_and_no_addresses() {
    let ex = Frame::zeroed(FrameKind::Extended);
    let old = Frame::zeroed(FrameKind::Legacy);
    assert_eq!(ex.kind(), FrameKind::Extended);
    assert_eq!(old.kind(), FrameKind::Legacy);
    assert!(matches!(ex, Frame::New(_)));
    assert!(matches!(old, Frame::Old(_)));
    for f in [ex, old] {
        assert_eq!(f.ip(), 0);
        assert_eq!(f.sp(), 0);
        assert_eq!(*f.addr_frame(), Address64::zero());
        assert_eq!(f.addr_pc().mode, AddrMode::Mode1616);
    }
}

#[test]
fn mutable_accessors_write_the_matching_field() {
    for kind in [FrameKind::Extended, FrameKind::Legacy] {
        let mut f = Frame::zeroed(kind);
        f.addr_pc_mut().offset = 0x1000;
        f.addr_stack_mut().offset = 0x2000;
        f.addr_frame_mut().offset = 0x3000;
        f.addr_stack_mut().mode = AddrMode::Flat;
        assert_eq!(f.ip(), 0x1000);
        assert_eq!(f.symbol_address(), 0x1000);
        assert_eq!(f.sp(), 0x2000);
        assert_eq!(f.addr_frame().offset, 0x3000);
        assert_eq!(f.addr_stack().mode, AddrMode::Flat);
        assert_eq!(f.addr_pc().mode, AddrMode::Mode1616);
        assert_eq!(f.kind(), kind);
    }
}

#[test]
fn writes_leave_the_other_fields_alone() {
    let mut f = Frame::zeroed(FrameKind::Extended);
    if let Frame::New(r) = &mut f {
        r.inline_frame_context = 7;
        r.addr_return.offset = 0x55;
    }
    f.addr_pc_mut().offset = 0xabc;
    match f {
        Frame::New(r) => {
            assert_eq!(r.inline_frame_context, 7);
            assert_eq!(r.addr_return.offset, 0x55);
            assert_eq!(r.addr_pc.offset, 0xabc);
        }
        Frame::Old(_) => panic!("shape changed"),
    }
}
