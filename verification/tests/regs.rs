use rnfc::fm175xx::regs as fm;
use rnfc::st25r39::regs as st;

#[test]
fn command_field_is_written_and_read_back() {
    let mut w = fm::Command(0);
    w.set_command(fm::CommandVal::transceive());
    w.set_rcvoff(true);
    assert_eq!(w.0, 0x2c);
    assert!(w.command() == fm::CommandVal(0x0c));
    assert!(w.rcvoff());
    assert!(!w.powerdown());
}

#[test]
fn writing_a_field_leaves_the_others() {
    let mut w = fm::Bitframing(0xff);
    w.set_rxalign(2);
    assert_eq!(w.0, 0xaf);
    assert_eq!((w.txlastbits(), w.rxalign(), w.startsend()), (7, 2, true));
    w.set_startsend(false);
    assert_eq!(w.0, 0x2f);
    w.set_txlastbits(0);
    assert_eq!(w.0, 0x28);

    let mut w = st::WupTimerControl(0);
    w.set_wut(5);
    w.set_wam(true);
    assert_eq!(w.0, 0x54);
    w.set_wur(true);
    w.set_wut(0);
    assert_eq!(w.0, 0x84);
    assert!(w.wam() && w.wur() && !w.wph() && !w.wcap());
}

#[test]
fn value_wider_than_its_field_is_cut() {
    let mut w = fm::Rxtreshold(0);
    w.set_collevel(0xff);
    assert_eq!(w.0, 0x07);
    assert_eq!(w.collevel(), 7);
    let mut w = st::TxDriver(0);
    w.set_am_mod(st::TxDriverAmMod(0xf7));
    assert_eq!(w.0, 0x70);
    assert!(w.am_mod() == st::TxDriverAmMod::_12percent());
    assert!(w.d_res() == st::TxDriverDRes::_1_00());
}

#[test]
fn register_values_have_their_codes() {
    assert_eq!(fm::CommandVal::idle().0, 0);
    assert_eq!(fm::CommandVal::softreset().0, 0x0f);
    assert_eq!(fm::Speed::_848kbps().0, 3);
    assert_eq!(fm::Framing::iso14443b().0, 3);
    assert_eq!(fm::LpcdT3clkdivk::div16().0, 2);
    assert_eq!(st::ModeOm::ini_iso14443a().0, 1);
    assert_eq!(st::BitRateE::_848().0, 3);
    assert_eq!(st::TxDriverDRes::_high_z().0, 15);
    assert_eq!(st::OpControlEnFd::auto_efd().0, 3);
    assert!(fm::Demod::default() == fm::Demod(0));
    assert!(st::Aux::default() == st::Aux(0));
}

#[test]
fn register_addresses() {
    assert_eq!(fm::COMMAND, 0x01);
    assert_eq!(fm::FIFOLEVEL, 0x0a);
    assert_eq!(fm::BITFRAMING, 0x0d);
    assert_eq!(fm::COLL, 0x0e);
    assert_eq!(fm::TMODE, 0x2a);
    assert!(fm::LPCD_CTRL1 >= 0x40);
    assert_eq!(st::OP_CONTROL, 0x02);
    assert_eq!(st::IRQ_MASK, 22);
    assert_eq!(st::IRQ_MAIN, 26);
    assert_eq!(st::FIFO_STATUS1, 30);
    assert_eq!(st::IC_IDENTITY, 63);
    assert_eq!(st::AUX_MOD, 104);
    assert_eq!(st::TEST_UNK, 132);
}

#[test]
fn every_error_flag_has_a_bit_of_its_own() {
    let mut w = fm::Error(0);
    w.set_wrerr(true);
    assert_eq!(w.0, 0x80);
    assert!(w.wrerr());
    assert!(!w.temperr() && !w.rferr() && !w.bufferovfl() && !w.collerr() && !w.crcerr() && !w.parityerr() && !w.proterr());
    w.set_temperr(true);
    assert_eq!(w.0, 0xc0);
    w.set_wrerr(false);
    assert_eq!(w.0, 0x40);
    assert!(w.temperr() && !w.wrerr());
}

#[test]
fn gain_and_attenuation_hold_all_their_values() {
    for val in [
        fm::LpcdGain::x1_0(),
        fm::LpcdGain::x1_2(),
        fm::LpcdGain::x1_45(),
        fm::LpcdGain::x2_0(),
        fm::LpcdGain::x2_28(),
        fm::LpcdGain::x2_6(),
        fm::LpcdGain::x3_2(),
        fm::LpcdGain::x4_0(),
    ] {
        let mut w = fm::LpcdCtrl4(0x03);
        w.set_gain(val);
        assert!(w.gain() == val);
        assert!(w.attenuation() == fm::LpcdAttenuation::x1());
    }
    for val in [fm::LpcdAttenuation::x2div5(), fm::LpcdAttenuation::x2div3(), fm::LpcdAttenuation::x1div2(), fm::LpcdAttenuation::x1()]
    {
        let mut w = fm::LpcdCtrl4(0x1c);
        w.set_attenuation(val);
        assert!(w.attenuation() == val);
        assert!(w.gain() == fm::LpcdGain::x4_0());
    }
}
