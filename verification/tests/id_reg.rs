use can_frame::id::{EXTENDED_ID_MAX, STANDARD_ID_MAX};
use can_frame::{ExtendedId, Id, IdReg, StandardId};
use std::cmp::Ordering;

fn standard(raw: u16) -> IdReg {
    IdReg::new_standard(StandardId::new(raw).unwrap())
}

fn extended(raw: u32) -> IdReg {
    IdReg::new_extended(ExtendedId::new(raw).unwrap())
}

#[test]
fn standard_id_checks_its_width() {
    assert_eq!(StandardId::new(0).unwrap().as_raw(), 0);
    assert_eq!(StandardId::new(0x7FF).unwrap().as_raw(), 0x7FF);
    assert_eq!(StandardId::new(0x800), None);
    assert_eq!(StandardId::new(u16::MAX), None);
    assert_eq!(STANDARD_ID_MAX, 0x7FF);
}

#[test]
fn extended_id_checks_its_width() {
    assert_eq!(ExtendedId::new(0).unwrap().as_raw(), 0);
    assert_eq!(ExtendedId::new(0x1FFF_FFFF).unwrap().as_raw(), 0x1FFF_FFFF);
    assert_eq!(ExtendedId::new(0x2000_0000), None);
    assert_eq!(ExtendedId::new(u32::MAX), None);
    assert_eq!(EXTENDED_ID_MAX, 0x1FFF_FFFF);
}

#[test]
fn base_of_an_extended_id_is_its_top_eleven_bits() {
    let id = ExtendedId::new(0x1234_5678).unwrap();
    assert_eq!(id.standard_id().as_raw(), 0x48D);
    assert_eq!(ExtendedId::new(0x1FFF_FFFF).unwrap().standard_id().as_raw(), 0x7FF);
    assert_eq!(ExtendedId::new(0x3_FFFF).unwrap().standard_id().as_raw(), 0);
    assert_eq!(ExtendedId::new(0x4_0000).unwrap().standard_id().as_raw(), 1);
}

#[test]
fn standard_register_layout() {
    assert_eq!(standard(0).as_raw(), 0x0000_0004);
    assert_eq!(standard(1).as_raw(), 0x0020_0004);
    assert_eq!(standard(0x123).as_raw(), 0x2460_0004);
    assert_eq!(standard(0x7FF).as_raw(), 0xFFE0_0004);
}

#[test]
fn extended_register_layout() {
    assert_eq!(extended(0).as_raw(), 0x0000_0000);
    assert_eq!(extended(1).as_raw(), 0x0000_0008);
    assert_eq!(extended(0x1234_5678).as_raw(), 0x91A2_B3C0);
    assert_eq!(extended(0x1FFF_FFFF).as_raw(), 0xFFFF_FFF8);
}

#[test]
fn new_registers_belong_to_data_frames() {
    assert!(!standard(0x55).rtr());
    assert!(!extended(0x55).rtr());
}

#[test]
fn format_flags_follow_the_constructor() {
    assert!(standard(0x55).is_standard());
    assert!(!standard(0x55).is_extended());
    assert!(extended(0x55).is_extended());
    assert!(!extended(0x55).is_standard());
    assert!(extended(0).is_extended());
    assert!(standard(0).is_standard());
}

#[test]
fn with_rtr_replaces_only_the_rtr_bit() {
    let reg = standard(0x123);
    let remote = reg.with_rtr(true);
    assert_eq!(remote.as_raw(), 0x2460_0006);
    assert!(remote.rtr());
    assert!(remote.is_standard());
    assert_eq!(remote.to_id(), reg.to_id());
    assert_eq!(remote.with_rtr(true), remote);
    assert_eq!(remote.with_rtr(false), reg);
    assert_eq!(reg.with_rtr(false), reg);

    let ext = extended(0x1FFF_FFFF);
    assert_eq!(ext.with_rtr(true).as_raw(), 0xFFFF_FFFA);
    assert!(ext.with_rtr(true).is_extended());
    assert_eq!(ext.with_rtr(true).with_rtr(false).as_raw(), 0xFFFF_FFF8);
}

#[test]
fn to_id_reads_the_identifier_back() {
    for raw in [0u16, 1, 0x123, 0x400, 0x7FF] {
        let id = StandardId::new(raw).unwrap();
        assert_eq!(IdReg::new_standard(id).to_id(), Id::Standard(id));
        assert_eq!(IdReg::new_standard(id).with_rtr(true).to_id(), Id::Standard(id));
    }
    for raw in [0u32, 1, 0x123, 0x3_FFFF, 0x4_0000, 0x1234_5678, 0x1FFF_FFFF] {
        let id = ExtendedId::new(raw).unwrap();
        assert_eq!(IdReg::new_extended(id).to_id(), Id::Extended(id));
        assert_eq!(IdReg::new_extended(id).with_rtr(true).to_id(), Id::Extended(id));
    }
}

#[test]
fn smaller_standard_id_has_higher_priority() {
    assert!(standard(0) < standard(1));
    assert!(standard(0x123) < standard(0x124));
    assert!(standard(0x3FF) < standard(0x400));
    assert!(standard(0) < standard(0x7FF));
    assert!(!(standard(5) < standard(5)));
    assert!(standard(6) > standard(5));
    for raw in 0..0x7FFu16 {
        assert!(standard(raw) < standard(raw + 1));
    }
}

#[test]
fn smaller_extended_id_has_higher_priority() {
    assert!(extended(0) < extended(1));
    assert!(extended(0x3_FFFF) < extended(0x4_0000));
    assert!(extended(0x1234_5678) < extended(0x1234_5679));
    assert!(extended(0) < extended(0x1FFF_FFFF));
    assert!(extended(0x1FFF_FFFE) < extended(0x1FFF_FFFF));
    assert!(extended(9) > extended(8));
}

#[test]
fn extended_wins_against_standard_with_equal_identifier_field() {
    // The extension bits are all zero: the identifier fields are equal and
    // the IDE bit decides.
    for raw in [0u16, 1, 0x123, 0x7FF] {
        let wide = (raw as u32) << 18;
        assert!(extended(wide) < standard(raw));
        assert_eq!(extended(wide).cmp(&standard(raw)), Ordering::Less);
    }
}

#[test]
fn extension_bits_rank_above_the_format_bit() {
    // With any extension bit set the identifier field of the extended frame
    // is the larger one, and the standard frame wins.
    assert!(standard(0) < extended(1));
    assert!(standard(0x123) < extended((0x123 << 18) | 1));
    assert!(standard(0x7FF) < extended(0x1FFF_FFFF));
    assert!(extended(0x3_FFFF) < standard(1));
}

#[test]
fn data_frame_outranks_remote_frame() {
    for reg in [standard(0), standard(0x123), standard(0x7FF), extended(0), extended(0x1FFF_FFFF)] {
        assert!(reg.with_rtr(false) < reg.with_rtr(true));
        assert_eq!(reg.with_rtr(true).as_raw(), reg.with_rtr(false).as_raw() + 2);
    }
}

#[test]
fn format_bit_ranks_above_the_frame_type() {
    // Equal identifier fields: an extended remote frame still wins against
    // a standard data frame.
    assert!(extended(0x123 << 18).with_rtr(true) < standard(0x123));
}

#[test]
fn comparison_is_the_order_of_the_raw_registers() {
    let regs = [
        standard(0),
        standard(0x7FF),
        extended(0),
        extended(1),
        extended(0x1FFF_FFFF),
        standard(0x123).with_rtr(true),
        extended(0x123 << 18).with_rtr(true),
    ];
    for a in regs {
        for b in regs {
            let expected = a.as_raw().cmp(&b.as_raw());
            assert_eq!(a.cmp(&b), expected);
            assert_eq!(a.partial_cmp(&b), Some(expected));
            assert_eq!(Ord::cmp(&a, &b), expected);
            assert_eq!(a == b, expected == Ordering::Equal);
            assert_eq!(a < b, expected == Ordering::Less);
        }
    }
}

#[test]
fn sorting_registers_gives_ascending_raw_values() {
    let mut regs = vec![standard(0x7FF), extended(0x1FFF_FFFF), standard(0x000)];
    regs.sort();
    let raw: Vec<u32> = regs.iter().map(|reg| reg.as_raw()).collect();
    assert_eq!(raw, vec![0x0000_0004, 0xFFE0_0004, 0xFFFF_FFF8]);
    assert_eq!(regs[0], standard(0x000));
    assert_eq!(regs[1], standard(0x7FF));
    assert_eq!(regs[2], extended(0x1FFF_FFFF));
}
