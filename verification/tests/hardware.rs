use stm_common::usb::hardware::{
    bd_control, chep_bd_len, chep_bd_ptr, chep_bd_tx, chep_block, emit, Action, CheprR,
    CheprReader, CheprW, CheprWriter, BD, CTRL_RX_BUF, CTRL_RX_OFFSET, CTRL_TX_BUF,
    CTRL_TX_OFFSET, STAT_DISABLED, STAT_NAK, STAT_STALL, STAT_VALID, USB_SRAM_BASE,
};

fn reg(statrx: u8, stattx: u8, dtogrx: bool, dtogtx: bool) -> CheprR {
    CheprR {
        ea: 3,
        stattx,
        dtogtx,
        vttx: true,
        utype: 2,
        setup: true,
        statrx,
        dtogrx,
        vtrx: true,
    }
}

#[test]
fn status_writes_reach_their_target_from_every_state() {
    for from in 0..4u8 {
        for to in 0..4u8 {
            let c = reg(from, 3 - from, false, true);
            let mut w = CheprW::new();
            w.endpoint(3, 2).stat_rx(&c, to);
            let after = c.after_write(&w);
            assert_eq!(after.statrx, to);
            assert_eq!(after.stattx, 3 - from);
            assert!(after.dtogtx);
            assert!(!after.dtogrx);
            assert!(after.vtrx && after.vttx);

            let mut w = CheprW::new();
            w.endpoint(3, 2).stat_tx(&c, to);
            let after = c.after_write(&w);
            assert_eq!(after.stattx, to);
            assert_eq!(after.statrx, from);
        }
    }
}

#[test]
fn status_write_is_the_difference() {
    let c = reg(STAT_NAK, STAT_STALL, false, false);
    let mut w = CheprW::new();
    w.stat_rx(&c, STAT_VALID).stat_tx(&c, STAT_VALID);
    assert_eq!(w.statrx, 1);
    assert_eq!(w.stattx, 2);
    // Only the two low bits of the target count.
    let mut w = CheprW::new();
    w.stat_rx(&c, 0xff);
    assert_eq!(w.statrx, 1);
}

#[test]
fn toggle_writes_reach_their_target_from_every_state() {
    for from in [false, true] {
        for to in [false, true] {
            let c = reg(1, 2, from, !from);
            let mut w = CheprW::new();
            w.endpoint(3, 2).dtogrx(&c, to).dtogtx(&c, to);
            assert_eq!(w.dtogrx, from != to);
            assert_eq!(w.dtogtx, from == to);
            let after = c.after_write(&w);
            assert_eq!(after.dtogrx, to);
            assert_eq!(after.dtogtx, to);
            assert_eq!(after.statrx, 1);
            assert_eq!(after.stattx, 2);
        }
    }
}

#[test]
fn shorthand_writes() {
    let c = reg(STAT_STALL, STAT_VALID, true, true);
    let mut w = CheprW::new();
    w.control();
    assert_eq!(
        w,
        CheprW {
            ea: 0,
            stattx: 0,
            dtogtx: false,
            vttx: true,
            utype: 1,
            statrx: 0,
            dtogrx: false,
            vtrx: true
        }
    );
    let after = c.after_write(&w);
    assert_eq!(after, CheprR { ea: 0, utype: 1, ..c });

    let mut w = CheprW::new();
    w.control().init(&c);
    let after = c.after_write(&w);
    assert_eq!(after.statrx, STAT_DISABLED);
    assert_eq!(after.stattx, STAT_DISABLED);
    assert!(!after.dtogrx && !after.dtogtx);

    let mut w = CheprW::new();
    w.control().rx_valid(&c).tx_nak(&c);
    let after = c.after_write(&w);
    assert_eq!(after.statrx, STAT_VALID);
    assert_eq!(after.stattx, STAT_NAK);

    let mut w = CheprW::new();
    w.control().tx_valid(&c).clear_vtrx();
    let after = c.after_write(&w);
    assert_eq!(after.stattx, STAT_VALID);
    assert!(!after.vtrx);
    assert!(after.vttx);
    assert!(after.setup);

    let mut w = CheprW::new();
    w.control().clear_vttx();
    let after = c.after_write(&w);
    assert!(after.vtrx);
    assert!(!after.vttx);
}

#[test]
fn a_completion_flag_is_never_set_by_a_write() {
    let c = CheprR { vtrx: false, vttx: false, ..reg(0, 0, false, false) };
    let mut w = CheprW::new();
    w.control();
    let after = c.after_write(&w);
    assert!(!after.vtrx && !after.vttx);
}

#[test]
fn reader_shorthands() {
    let c = reg(STAT_NAK, STAT_VALID, false, false);
    assert_eq!(c.stat_rx(), STAT_NAK);
    assert_eq!(c.stat_tx(), STAT_VALID);
    assert!(c.rx_nakking());
    assert!(!c.rx_disabled());
    assert!(c.tx_active());
    assert!(!c.tx_nakking());
    let c = reg(STAT_DISABLED, STAT_NAK, false, false);
    assert!(c.rx_disabled());
    assert!(!c.rx_nakking());
    assert!(c.tx_nakking());
    assert!(!c.tx_active());
}

#[test]
fn tx_descriptor_values() {
    assert_eq!(chep_bd_tx(0x80, 0), 0x80);
    assert_eq!(chep_bd_tx(0x80, 18), 0x0012_0080);
    assert_eq!(chep_bd_tx(CTRL_TX_OFFSET, 64), 0x0040_0080);
    assert_eq!(chep_bd_tx(0xffff, 0xffff), 0xffff_ffff);
    assert_eq!(chep_bd_len(0x0012_0080), 18);
    assert_eq!(chep_bd_len(0x03ff_0000), 1023);
    // The count is ten bits wide: what is above them is the size code.
    assert_eq!(chep_bd_len(0x8408_00c0), 8);
    assert_eq!(chep_bd_ptr(0x0012_0080), USB_SRAM_BASE + 0x80);
    assert_eq!(chep_bd_ptr(0xffff_0000), USB_SRAM_BASE);
    assert_eq!(CTRL_RX_BUF, 0x4001_64c0);
    assert_eq!(CTRL_TX_BUF, 0x4001_6480);
}

#[test]
fn rx_descriptor_values() {
    assert_eq!(chep_block::<64>(CTRL_RX_OFFSET), 0x8400_00c0);
    assert_eq!(chep_block::<32>(0), 0x8000_0000);
    assert_eq!(chep_block::<1024>(1024), 0xfc00_0400);
    assert_eq!(chep_block::<1023>(0x100), 0xfc00_0100);
    assert_eq!(chep_block::<62>(2), 0x7c00_0002);
    assert_eq!(chep_block::<2>(2046), 0x0400_07fe);
    assert_eq!(chep_block::<0>(2048), 0x0000_0800);
    assert_eq!(chep_block::<96>(0), 0x8800_0000);
    assert_eq!(chep_bd_ptr(chep_block::<64>(CTRL_RX_OFFSET)), CTRL_RX_BUF);
}

#[test]
fn descriptor_pair() {
    let mut bd = BD { tx: 1, rx: 2 };
    bd.tx_set(CTRL_TX_BUF, 18);
    assert_eq!(bd, BD { tx: 0x0012_0080, rx: 2 });
    bd.rx_set::<64>(CTRL_RX_BUF);
    assert_eq!(bd, BD { tx: 0x0012_0080, rx: 0x8400_00c0 });
    assert_eq!(chep_bd_len(bd.tx), 18);
    assert_eq!(chep_bd_ptr(bd.tx), CTRL_TX_BUF);

    let mut table = [BD { tx: 0, rx: 0 }; 8];
    table[0] = bd;
    table[1] = BD { tx: 9, rx: 9 };
    assert_eq!(*bd_control(&table), bd);
}

#[test]
fn emit_appends() {
    let mut actions = vec![Action::EnableController];
    emit(&mut actions, Action::SetAddress(3));
    assert_eq!(actions.len(), 2);
    assert!(matches!(actions[0], Action::EnableController));
    assert!(matches!(actions[1], Action::SetAddress(3)));
}
