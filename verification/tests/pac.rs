use uintr_kernel::pac::generic::{read_bit, write_bit};
use uintr_kernel::pac::uart::ier;
use uintr_kernel::pac::uart::lsr;
use uintr_kernel::pac::uart::mcr;
use uintr_kernel::pac::uart::msr;

#[test]
fn single_bits_of_a_word() {
    assert!(read_bit(0b100, 2));
    assert!(!read_bit(0b100, 1));
    assert!(read_bit(0x8000_0000, 31));
    assert_eq!(write_bit(0, 4, true), 16);
    assert_eq!(write_bit(0xff, 0, false), 0xfe);
    assert_eq!(write_bit(0xff, 3, true), 0xff);
    assert_eq!(write_bit(0, 31, true), 0x8000_0000);
    for offset in 0..32 {
        for value in [false, true] {
            let word = write_bit(0x5a5a_a5a5, offset, value);
            for other in 0..32 {
                let expected = if other == offset { value } else { read_bit(0x5a5a_a5a5, other) };
                assert_eq!(read_bit(word, other), expected);
            }
        }
    }
}

#[test]
fn modem_control_fields_read() {
    let r = mcr::R::new(0b1_0010);
    assert_eq!(r.bits(), 0b1_0010);
    assert_eq!(r.dtr().variant(), mcr::DTR_A::DEASSERTED);
    assert!(r.dtr().is_deasserted());
    assert!(!r.dtr().is_asserted());
    assert_eq!(r.rts().variant(), mcr::RTS_A::ASSERTED);
    assert!(r.rts().is_asserted());
    assert!(!r.rts().is_deasserted());
    assert_eq!(r.loop_().variant(), mcr::LOOP_A::LOOP_BACK);
    assert!(r.loop_().is_loop_back());
    assert!(!r.loop_().is_normal());
    assert!(mcr::R::new(0).loop_().is_normal());
    assert!(r.rts().bit());
    assert!(r.rts().bit_is_set());
    assert!(r.dtr().bit_is_clear());
    assert_eq!(mcr::MCR_SPEC::reset_value(), 0);
}

#[test]
fn modem_control_fields_written() {
    let mut w = mcr::W::new();
    assert_eq!(w.value(), 0);
    w.dtr().asserted();
    assert_eq!(w.value(), 0b1);
    w.rts().asserted().loop_().loop_back();
    assert_eq!(w.value(), 0b1_0011);
    w.dtr().deasserted();
    assert_eq!(w.value(), 0b1_0010);
    w.loop_().normal().rts().deasserted();
    assert_eq!(w.value(), 0);
    w.rts().bit(true);
    assert_eq!(w.value(), 0b10);
    w.rts().variant(mcr::RTS_A::DEASSERTED).dtr().set_bit();
    assert_eq!(w.value(), 0b1);
    w.dtr().clear_bit();
    assert_eq!(w.value(), 0);
    assert!(mcr::DTR_A::ASSERTED.bit());
    assert!(!mcr::LOOP_A::NORMAL.bit());
}

#[test]
fn interrupt_enable_fields() {
    let r = ier::R::new(0b0101);
    assert_eq!(r.erbfi().variant(), ier::ERBFI_A::ENABLE);
    assert!(r.erbfi().is_enable());
    assert!(!r.erbfi().is_disable());
    assert_eq!(r.etbei().variant(), ier::ETBEI_A::DISABLE);
    assert!(r.etbei().is_disable());
    assert!(!r.etbei().is_enable());
    assert_eq!(r.elsi().variant(), ier::ELSI_A::ENABLE);
    assert!(r.elsi().is_enable());
    assert!(!r.elsi().is_disable());
    assert_eq!(r.edssi().variant(), ier::EDSSI_A::DISABLE);
    assert!(r.edssi().is_disable());
    assert!(!r.edssi().is_enable());
    let mut w = ier::W::new();
    w.erbfi().enable().etbei().enable().elsi().enable().edssi().enable();
    assert_eq!(w.value(), 0b1111);
    w.etbei().disable();
    assert_eq!(w.value(), 0b1101);
    w.erbfi().disable().elsi().disable().edssi().disable();
    assert_eq!(w.value(), 0);
    assert_eq!(ier::IER_SPEC::reset_value(), 0);
}

#[test]
fn line_status_fields() {
    let r = lsr::R::new(0b0110_0001);
    assert_eq!(r.dr().variant(), Some(lsr::DR_A::READY));
    assert!(r.dr().is_ready());
    assert_eq!(r.oe().variant(), None);
    assert!(!r.oe().is_error());
    assert_eq!(r.pe().variant(), None);
    assert!(!r.pe().is_error());
    assert_eq!(r.fe().variant(), None);
    assert!(!r.fe().is_error());
    assert!(!r.bi().bit());
    assert_eq!(r.thre().variant(), Some(lsr::THRE_A::EMPTY));
    assert!(r.thre().is_empty());
    assert_eq!(r.temt().variant(), Some(lsr::TEMT_A::EMPTY));
    assert!(r.temt().is_empty());
    assert_eq!(r.fifoerr().variant(), None);
    assert!(!r.fifoerr().is_error());
    let all = lsr::R::new(0xff);
    assert!(all.oe().is_error() && all.pe().is_error() && all.fe().is_error() && all.fifoerr().is_error());
    assert!(all.bi().bit_is_set());
    assert_eq!(all.oe().variant(), Some(lsr::OE_A::ERROR));
    assert_eq!(all.pe().variant(), Some(lsr::PE_A::ERROR));
    assert_eq!(all.fe().variant(), Some(lsr::FE_A::ERROR));
    assert_eq!(all.fifoerr().variant(), Some(lsr::FIFOERR_A::ERROR));
    assert!(!lsr::R::new(0).dr().is_ready());
    assert!(!lsr::R::new(0).thre().is_empty());
    let mut w = lsr::W::new();
    w.dr().ready().oe().error().pe().error().fe().error();
    assert_eq!(w.value(), 0b1111);
    w.bi().set_bit().thre().empty().temt().empty().fifoerr().error();
    assert_eq!(w.value(), 0xff);
    w.bi().clear_bit();
    assert_eq!(w.value(), 0xef);
    assert_eq!(lsr::LSR_SPEC::reset_value(), 0);
}

#[test]
fn modem_status_fields() {
    let r = msr::R::new(0b1001_0110);
    assert_eq!(r.dcts().variant(), msr::DCTS_A::NO_CHANGE);
    assert!(r.dcts().is_no_change());
    assert!(!r.dcts().is_change());
    assert_eq!(r.ddsr().variant(), msr::DDSR_A::CHANGE);
    assert!(r.ddsr().is_change());
    assert!(!r.ddsr().is_no_change());
    assert_eq!(r.teri().variant(), msr::TERI_A::CHANGE);
    assert!(r.teri().is_change());
    assert!(!r.teri().is_no_change());
    assert_eq!(r.ddcd().variant(), msr::DDCD_A::NO_CHANGE);
    assert!(r.ddcd().is_no_change());
    assert!(!r.ddcd().is_change());
    assert_eq!(r.cts().variant(), msr::CTS_A::ASSERTED);
    assert!(r.cts().is_asserted());
    assert!(!r.cts().is_deasserted());
    assert_eq!(r.dsr().variant(), msr::DSR_A::DEASSERTED);
    assert!(r.dsr().is_deasserted());
    assert!(!r.dsr().is_asserted());
    assert_eq!(r.ri().variant(), msr::RI_A::DEASSERTED);
    assert!(r.ri().is_deasserted());
    assert!(!r.ri().is_asserted());
    assert_eq!(r.dcd().variant(), msr::DCD_A::ASSERTED);
    assert!(r.dcd().is_asserted());
    assert!(!r.dcd().is_deasserted());
    let mut w = msr::W::new();
    w.dcts().change().ddsr().change().teri().change().ddcd().change();
    assert_eq!(w.value(), 0x0f);
    w.cts().asserted().dsr().asserted().ri().asserted().dcd().asserted();
    assert_eq!(w.value(), 0xff);
    w.dcts().no_change().ddsr().no_change().teri().no_change().ddcd().no_change();
    assert_eq!(w.value(), 0xf0);
    w.cts().deasserted().dsr().deasserted().ri().deasserted().dcd().deasserted();
    assert_eq!(w.value(), 0);
    assert_eq!(msr::MSR_SPEC::reset_value(), 0);
}
