use std::collections::HashMap;

use rnfc::fm175xx::iso14443a::{classify_errors, count_anticoll_bits, framing, Error, Iso14443a};
use rnfc::fm175xx::lpcd::{adc_scale, gain_code, recalibrate_after_ms, window, Phase, WakeupConfig};
use rnfc::fm175xx::regs;
use rnfc::fm175xx::{binary_search, timer_settings, Fm175xx, Interface};
use rnfc::search::Search;
use rnfc::traits::iso14443a_ll::{Error as _, ErrorKind, Frame};

/// What the card does with a frame.
#[derive(Clone)]
enum Answer {
    /// It answers with these bytes, as the chip stores them.
    Bytes(Vec<u8>),
    /// It stays silent.
    Silence,
}

#[derive(Clone, Debug, PartialEq)]
enum Did {
    Read(usize, u8),
    Write(usize, u8),
    ReadFifo(Vec<u8>),
    WriteFifo(Vec<u8>),
}

/// A chip that sends what is in its FIFO and then receives the scripted answer.
struct Chip {
    regs: HashMap<usize, u8>,
    fifo: Vec<u8>,
    log: Vec<Did>,
    sending: bool,
    sent: Vec<u8>,
    answer: Answer,
    /// Error flags and collision register to show with the answer.
    error: u8,
    coll: u8,
    rx_last_bits: u8,
    /// The level that the FIFO claims to have above what it holds.
    busy_levels: Vec<u8>,
    /// Whether the chip reports a frame sent of which it has had no byte.
    eager: bool,
    adc: Option<Box<dyn Fn(u8, u8) -> u8>>,
}

impl Chip {
    fn new(answer: Answer) -> Self {
        Chip {
            regs: HashMap::new(),
            fifo: Vec::new(),
            log: Vec::new(),
            sending: false,
            sent: Vec::new(),
            answer,
            error: 0,
            coll: 0,
            rx_last_bits: 0,
            busy_levels: Vec::new(),
            eager: false,
            adc: None,
        }
    }

    fn reg(&self, reg: usize) -> u8 {
        *self.regs.get(&reg).unwrap_or(&0)
    }
}

const TIMERI: u8 = 0x01;
const ERRI: u8 = 0x02;
const RXI: u8 = 0x20;
const TXI: u8 = 0x40;

impl Interface for Chip {
    fn read_reg(&mut self, reg: usize) -> u8 {
        let val = if reg == regs::FIFOLEVEL {
            self.busy_levels.pop().unwrap_or(self.fifo.len() as u8)
        } else if reg == regs::COMMIRQ {
            if self.sending {
                if !self.fifo.is_empty() {
                    self.sent.append(&mut self.fifo);
                } else if self.sent.is_empty() && !self.eager {
                    // Nothing to send yet.
                } else {
                    self.sending = false;
                    let irqs = self.reg(regs::COMMIRQ);
                    match self.answer.clone() {
                        Answer::Bytes(bytes) => {
                            self.fifo = bytes;
                            let err = if self.error != 0 { ERRI } else { 0 };
                            self.regs.insert(regs::COMMIRQ, irqs | TXI | RXI | err);
                        }
                        Answer::Silence => {
                            self.regs.insert(regs::COMMIRQ, irqs | TXI | TIMERI);
                        }
                    }
                }
            }
            self.reg(regs::COMMIRQ)
        } else if reg == regs::ERROR {
            self.error
        } else if reg == regs::COLL {
            self.coll
        } else if reg == regs::CONTROL {
            (self.reg(regs::CONTROL) & !0x07) | self.rx_last_bits
        } else if reg == regs::LPCD_IRQ {
            0x04
        } else if reg == regs::LPCD_ADC_RESULT_H || reg == regs::LPCD_ADC_RESULT_L {
            let gain = self.reg(regs::LPCD_CTRL4);
            let reference = self.reg(regs::LPCD_ADC_REFERECE) | ((self.reg(regs::LPCD_BIAS_CURRENT) >> 5) & 1) << 6;
            let reading = (self.adc.as_ref().unwrap())(gain, reference);
            if reg == regs::LPCD_ADC_RESULT_H {
                // The bits above the two that count are not the reading's.
                0xa4 | (reading >> 6)
            } else {
                0x40 | (reading & 0x3f)
            }
        } else {
            self.reg(reg)
        };
        self.log.push(Did::Read(reg, val));
        val
    }

    fn write_reg(&mut self, reg: usize, val: u8) {
        self.log.push(Did::Write(reg, val));
        if reg == regs::FIFOLEVEL {
            if val & 0x80 != 0 {
                self.fifo.clear();
            }
        } else if reg == regs::COMMIRQ {
            // With the set bit clear, the bits written as one are cleared.
            let now = self.reg(reg);
            self.regs.insert(reg, if val & 0x80 != 0 { now | (val & 0x7f) } else { now & !val });
        } else if reg == regs::BITFRAMING {
            self.regs.insert(reg, val);
            if val & 0x80 != 0 && self.reg(regs::COMMAND) & 0x0f == 0x0c {
                self.sending = true;
            }
        } else {
            self.regs.insert(reg, val);
        }
    }

    fn read_fifo(&mut self, data: &mut [u8]) {
        let n = data.len();
        data.copy_from_slice(&self.fifo[..n]);
        self.fifo.drain(..n);
        self.log.push(Did::ReadFifo(data.to_vec()));
    }

    fn write_fifo(&mut self, data: &[u8]) {
        assert!(self.fifo.len() + data.len() <= 64, "FIFO overrun");
        self.fifo.extend_from_slice(data);
        self.log.push(Did::WriteFifo(data.to_vec()));
    }
}

/// Runs one exchange to its end.
fn transceive(chip: &mut Fm175xx<Chip>, tx: &[u8], rx: &mut [u8], opts: Frame) -> Result<usize, Error> {
    let mut reader = Iso14443a { inner: chip };
    let mut t = reader.begin(tx, &opts);
    for _ in 0..100 {
        if reader.poll(&mut t, tx, rx, &opts)? {
            return reader.finish(t, tx, rx, &opts);
        }
    }
    panic!("the exchange does not end");
}

#[test]
fn fm175xx_standard_frame_is_exchanged() {
    let mut chip = Fm175xx::new(Chip::new(Answer::Bytes(vec![0xde, 0xad, 0xbe, 0xef])));
    let mut rx = [0u8; 8];
    let n = transceive(&mut chip, &[0x30, 0x04], &mut rx, Frame::Standard { timeout_1fc: 1_000_000 });
    assert_eq!(n, Ok(32));
    assert_eq!(&rx[..4], &[0xde, 0xad, 0xbe, 0xef]);
    assert_eq!(chip.iface.sent, vec![0x30, 0x04]);
    // CRC on in both directions, whole last byte, no alignment.
    assert_eq!(chip.iface.reg(regs::TXMODE) & 0x80, 0x80);
    assert_eq!(chip.iface.reg(regs::RXMODE) & 0x80, 0x80);
    assert_eq!(chip.iface.reg(regs::BITFRAMING), 0x80);
    assert_eq!(chip.iface.reg(regs::COLL) & 0x80, 0x80);
}

#[test]
fn exchange_starts_with_abort_flush_and_clear() {
    let mut chip = Fm175xx::new(Chip::new(Answer::Bytes(vec![0x00])));
    chip.iface.fifo = vec![1, 2, 3];
    chip.iface.regs.insert(regs::COMMIRQ, 0x7f);
    let mut rx = [0u8; 8];
    let n = transceive(&mut chip, &[0x30, 0x04], &mut rx, Frame::Standard { timeout_1fc: 1_000_000 });
    assert_eq!(n, Ok(8));
    assert_eq!(chip.iface.sent, vec![0x30, 0x04]);
    let log = &chip.iface.log;
    let first_fifo = log.iter().position(|d| matches!(d, Did::WriteFifo(_) | Did::ReadFifo(_))).unwrap();
    let idle = log.iter().position(|d| *d == Did::Write(regs::COMMAND, 0x00)).unwrap();
    let flush = log.iter().position(|d| *d == Did::Write(regs::FIFOLEVEL, 0x80)).unwrap();
    let clear = log.iter().position(|d| *d == Did::Write(regs::COMMIRQ, 0x7f)).unwrap();
    let clear_div = log.iter().position(|d| *d == Did::Write(regs::DIVIRQ, 0x7f)).unwrap();
    assert!(idle < flush && flush < first_fifo && clear < first_fifo && clear_div < first_fifo);
    // The level that the driver read before it fed the FIFO was zero.
    assert_eq!(log[first_fifo - 1], Did::Read(regs::FIFOLEVEL, 0));
}

#[test]
fn wupa_sends_seven_bits_of_0x52() {
    let mut chip = Fm175xx::new(Chip::new(Answer::Bytes(vec![0x04, 0x00])));
    let mut rx = [0u8; 2];
    assert_eq!(transceive(&mut chip, &[], &mut rx, Frame::WupA), Ok(16));
    assert_eq!(rx, [0x04, 0x00]);
    assert_eq!(chip.iface.sent, vec![0x52]);
    assert_eq!(chip.iface.reg(regs::BITFRAMING), 0x87);
    assert_eq!(chip.iface.reg(regs::TXMODE) & 0x80, 0);
    assert_eq!(chip.iface.reg(regs::RXMODE) & 0x80, 0);
}

#[test]
fn reqa_sends_seven_bits_of_0x26() {
    let mut chip = Fm175xx::new(Chip::new(Answer::Bytes(vec![0x44, 0x00])));
    let mut rx = [0u8; 2];
    assert_eq!(transceive(&mut chip, &[], &mut rx, Frame::ReqA), Ok(16));
    assert_eq!(rx, [0x44, 0x00]);
    assert_eq!(chip.iface.sent, vec![0x26]);
}

#[test]
fn fm175xx_anticollision_answer_follows_the_request() {
    let mut chip = Fm175xx::new(Chip::new(Answer::Bytes(vec![0xaa, 0xbb, 0xcc, 0xdd, 0x00])));
    let mut rx = [0xffu8; 8];
    let n = transceive(&mut chip, &[0x93, 0x20, 0, 0, 0, 0], &mut rx, Frame::Anticoll { bits: 16 });
    assert_eq!(n, Ok(56));
    assert_eq!(rx, [0x93, 0x20, 0xaa, 0xbb, 0xcc, 0xdd, 0x00, 0x00]);
    assert_eq!(chip.iface.sent, vec![0x93, 0x20]);
    assert_eq!(chip.iface.reg(regs::BITFRAMING), 0x80);
    assert_eq!(chip.iface.reg(regs::COLL) & 0x80, 0);
}

#[test]
fn anticollision_answer_is_merged_into_the_split_byte() {
    // Twelve bits of the identifier are known; the card goes on at bit 4 of the fourth byte.
    let mut chip = Fm175xx::new(Chip::new(Answer::Bytes(vec![0x30, 0x56, 0x78, 0x00])));
    let mut rx = [0u8; 8];
    let tx = [0x93, 0x34, 0x12, 0x0c, 0, 0];
    let n = transceive(&mut chip, &tx, &mut rx, Frame::Anticoll { bits: 28 });
    assert_eq!(n, Ok(24 + 32));
    assert_eq!(rx, [0x93, 0x34, 0x12, 0x3c, 0x56, 0x78, 0x00, 0x00]);
    assert_eq!(chip.iface.sent, vec![0x93, 0x34, 0x12, 0x0c]);
    // Four bits of the last byte are sent and the answer is stored from bit 4 on.
    assert_eq!(chip.iface.reg(regs::BITFRAMING), 0x80 | (4 << 4) | 4);
}

#[test]
fn anticollision_keeps_the_request_bits_whatever_the_chip_stores() {
    // The chip fills the low bits of the split byte with ones: they are not the card's.
    let mut chip = Fm175xx::new(Chip::new(Answer::Bytes(vec![0x3f, 0x56])));
    let mut rx = [0u8; 8];
    let tx = [0x93, 0x34, 0x12, 0xfc, 0, 0];
    let n = transceive(&mut chip, &tx, &mut rx, Frame::Anticoll { bits: 28 });
    assert_eq!(n, Ok(24 + 16));
    assert_eq!(&rx[..5], &[0x93, 0x34, 0x12, 0x3c, 0x56]);
}

#[test]
fn collision_gives_the_bits_before_it() {
    let mut chip = Fm175xx::new(Chip::new(Answer::Bytes(vec![0x12, 0x04])));
    chip.iface.error = 0x08 | 0x02; // collision, and the parity error that comes with it
    chip.iface.coll = 12;
    let mut rx = [0u8; 8];
    let n = transceive(&mut chip, &[0x93, 0x20, 0, 0, 0, 0], &mut rx, Frame::Anticoll { bits: 16 });
    assert_eq!(n, Ok(16 + 12 - 1));
    assert_eq!(&rx[..4], &[0x93, 0x20, 0x12, 0x04]);
}

#[test]
fn collision_place_zero_means_the_thirty_second_bit() {
    let mut chip = Fm175xx::new(Chip::new(Answer::Bytes(vec![0x01, 0x02, 0x03, 0x04])));
    chip.iface.error = 0x08;
    chip.iface.coll = 0;
    let mut rx = [0u8; 8];
    let n = transceive(&mut chip, &[0x93, 0x20, 0, 0, 0, 0], &mut rx, Frame::Anticoll { bits: 16 });
    assert_eq!(n, Ok(16 + 31));
}

#[test]
fn collision_without_a_place_is_a_protocol_error() {
    let mut chip = Fm175xx::new(Chip::new(Answer::Bytes(vec![0x01])));
    chip.iface.error = 0x08;
    chip.iface.coll = 0x20;
    let mut rx = [0u8; 8];
    let n = transceive(&mut chip, &[0x93, 0x20, 0, 0, 0, 0], &mut rx, Frame::Anticoll { bits: 16 });
    assert_eq!(n, Err(Error::Protocol));
}

#[test]
fn collision_in_a_standard_frame_is_an_error() {
    let mut chip = Fm175xx::new(Chip::new(Answer::Bytes(vec![0x01])));
    chip.iface.error = 0x08;
    let mut rx = [0u8; 8];
    let n = transceive(&mut chip, &[0x30, 0x04], &mut rx, Frame::Standard { timeout_1fc: 1000 });
    assert_eq!(n, Err(Error::Collision));
}

#[test]
fn silence_is_a_timeout() {
    let mut chip = Fm175xx::new(Chip::new(Answer::Silence));
    let mut rx = [0u8; 8];
    let n = transceive(&mut chip, &[0x30, 0x04], &mut rx, Frame::Standard { timeout_1fc: 1000 });
    assert_eq!(n, Err(Error::Timeout));
    assert_eq!(Error::Timeout.kind(), ErrorKind::Timeout);
}

#[test]
fn error_flags_are_mapped() {
    for (flags, want) in [
        (0x01u8, Error::Protocol),
        (0x02, Error::Crc),
        (0x04, Error::Crc),
        (0x10, Error::Other),
        (0x20, Error::Protocol),
        (0x40, Error::Other),
        (0x80, Error::Other),
        (0x10 | 0x04 | 0x01, Error::Other),
        (0x04 | 0x01, Error::Crc),
    ] {
        let mut chip = Fm175xx::new(Chip::new(Answer::Bytes(vec![0x01])));
        chip.iface.error = flags;
        let mut rx = [0u8; 8];
        let n = transceive(&mut chip, &[0x30, 0x04], &mut rx, Frame::Standard { timeout_1fc: 1000 });
        assert_eq!(n, Err(want), "flags {:02x}", flags);
        assert_eq!(classify_errors(regs::Error(flags), false), Some(want));
    }
    assert_eq!(classify_errors(regs::Error(0x02), true), None);
    assert_eq!(classify_errors(regs::Error(0x08), true), None);
    assert_eq!(classify_errors(regs::Error(0), false), None);
    assert_eq!(Error::Crc.kind(), ErrorKind::Corruption);
    assert_eq!(Error::Protocol.kind(), ErrorKind::Corruption);
    assert_eq!(Error::Collision.kind(), ErrorKind::Corruption);
    assert_eq!(Error::Other.kind(), ErrorKind::Other);
}

#[test]
fn incomplete_last_byte_of_a_standard_frame_is_an_error() {
    let mut chip = Fm175xx::new(Chip::new(Answer::Bytes(vec![0x01, 0x02])));
    chip.iface.rx_last_bits = 3;
    let mut rx = [0u8; 8];
    let n = transceive(&mut chip, &[0x30, 0x04], &mut rx, Frame::Standard { timeout_1fc: 1000 });
    assert_eq!(n, Err(Error::Protocol));
}

#[test]
fn fm175xx_answer_larger_than_the_buffer_is_an_error() {
    let mut chip = Fm175xx::new(Chip::new(Answer::Bytes(vec![1, 2, 3, 4, 5])));
    let mut rx = [0u8; 4];
    let n = transceive(&mut chip, &[0x30, 0x04], &mut rx, Frame::Standard { timeout_1fc: 1000 });
    assert_eq!(n, Err(Error::Other));
    let mut chip = Fm175xx::new(Chip::new(Answer::Bytes(vec![1, 2, 3, 4, 5])));
    let mut rx = [0u8; 6];
    let n = transceive(&mut chip, &[0x93, 0x20, 0, 0, 0, 0], &mut rx, Frame::Anticoll { bits: 16 });
    assert_eq!(n, Err(Error::Other));
}

#[test]
fn long_frame_is_fed_in_pieces() {
    let tx: Vec<u8> = (0..150).map(|i| i as u8).collect();
    let mut chip = Fm175xx::new(Chip::new(Answer::Bytes(vec![0x0a])));
    let mut rx = [0u8; 4];
    let n = transceive(&mut chip, &tx, &mut rx, Frame::Standard { timeout_1fc: 1000 });
    assert_eq!(n, Ok(8));
    assert_eq!(chip.iface.sent, tx);
    let pieces: Vec<usize> =
        chip.iface.log.iter().filter_map(|d| if let Did::WriteFifo(p) = d { Some(p.len()) } else { None }).collect();
    assert_eq!(pieces, vec![64, 64, 22]);
}

#[test]
fn full_fifo_is_not_fed() {
    let mut chip = Fm175xx::new(Chip::new(Answer::Bytes(vec![0x0a])));
    // The level reads above the size once; popped from the back.
    chip.iface.busy_levels = vec![60, 100];
    let mut reader = Iso14443a { inner: &mut chip };
    let tx = [1u8, 2, 3, 4, 5, 6];
    let opts = Frame::Standard { timeout_1fc: 1000 };
    let mut t = reader.begin(&tx, &opts);
    assert_eq!(t.tx_pos, 0);
    let mut rx = [0u8; 4];
    assert_eq!(reader.poll(&mut t, &tx, &mut rx, &opts), Ok(false));
    assert_eq!(t.tx_pos, 4);
}

#[test]
fn frame_that_ends_before_it_was_fed_is_an_error() {
    let mut chip = Fm175xx::new(Chip::new(Answer::Bytes(vec![0x0a])));
    chip.iface.busy_levels = vec![64];
    chip.iface.eager = true;
    let mut reader = Iso14443a { inner: &mut chip };
    let tx = [1u8, 2, 3];
    let opts = Frame::Standard { timeout_1fc: 1000 };
    let mut t = reader.begin(&tx, &opts);
    assert_eq!(t.tx_pos, 0);
    let mut rx = [0u8; 4];
    // The chip finds its FIFO empty and reports the frame sent.
    assert_eq!(reader.poll(&mut t, &tx, &mut rx, &opts), Ok(true));
    assert_eq!(reader.finish(t, &tx, &mut rx, &opts), Err(Error::Other));
}

#[test]
fn framing_of_each_kind_of_frame() {
    let f = framing(&Frame::Anticoll { bits: 28 }, &[0x93, 0x34, 0x12, 0x0c]);
    assert_eq!((f.crc, f.timeout_1fc, f.last_bits, f.rx_align, f.tx_len), (false, 65536, 4, 4, 4));
    let f = framing(&Frame::Anticoll { bits: 16 }, &[0x93, 0x20]);
    assert_eq!((f.crc, f.timeout_1fc, f.last_bits, f.rx_align, f.tx_len), (false, 65536, 0, 0, 2));
    let f = framing(&Frame::ReqA, &[]);
    assert_eq!((f.crc, f.timeout_1fc, f.last_bits, f.rx_align, f.tx_len), (false, 16384, 7, 0, 1));
    let f = framing(&Frame::WupA, &[]);
    assert_eq!((f.crc, f.timeout_1fc, f.last_bits, f.rx_align, f.tx_len), (false, 16384, 7, 0, 1));
    let f = framing(&Frame::Standard { timeout_1fc: 77 }, &[1, 2, 3]);
    assert_eq!((f.crc, f.timeout_1fc, f.last_bits, f.rx_align, f.tx_len), (true, 77, 0, 0, 3));
}

#[test]
fn anticollision_bits_are_counted() {
    assert_eq!(count_anticoll_bits(16, 5, false, regs::Coll(0)), Ok(56));
    assert_eq!(count_anticoll_bits(28, 4, false, regs::Coll(0)), Ok(56));
    assert_eq!(count_anticoll_bits(16, 2, true, regs::Coll(12)), Ok(27));
    assert_eq!(count_anticoll_bits(20, 2, true, regs::Coll(1)), Ok(20));
    assert_eq!(count_anticoll_bits(16, 2, true, regs::Coll(0)), Ok(47));
    assert_eq!(count_anticoll_bits(16, 2, true, regs::Coll(0x20)), Err(Error::Protocol));
}

#[test]
fn timer_settings_for_given_times() {
    // 65536 carrier periods are 888 ticks.
    assert_eq!(timer_settings(65536), (0, 887));
    assert_eq!(timer_settings(16384), (0, 221));
    // Less than one tick.
    assert_eq!(timer_settings(0), (0, 0));
    assert_eq!(timer_settings(73), (0, 0));
    assert_eq!(timer_settings(74), (0, 0));
    assert_eq!(timer_settings(148), (0, 1));
    // The last time that needs no prescaler, and the first that needs one.
    assert_eq!(timer_settings(4_833_038), (0, 65534));
    assert_eq!(timer_settings(4_833_039), (0, 65535));
    assert_eq!(timer_settings(4_833_112), (0, 65535));
    assert_eq!(timer_settings(4_833_113), (1, 21845));
    // The longest frame waiting time with the largest multiplier.
    assert_eq!(timer_settings(67108864 * 63), (437, 65519));
    assert_eq!(timer_settings(u32::MAX), (444, 65511));
}

#[test]
fn timer_is_programmed() {
    let mut chip = Fm175xx::new(Chip::new(Answer::Silence));
    chip.set_timer(67108864 * 63);
    assert_eq!(
        chip.iface.log,
        vec![
            Did::Write(regs::TMODE, 0x80 | 0x01),
            Did::Write(regs::TPRESCALER, 0xb5),
            Did::Write(regs::TRELOADHI, 0xff),
            Did::Write(regs::TRELOADLO, 0xef),
        ]
    );
}

#[test]
fn reset_and_field() {
    let mut chip = Fm175xx::new(Chip::new(Answer::Silence));
    chip.soft_reset();
    assert_eq!(chip.iface.log, vec![Did::Write(regs::COMMAND, 0x0f)]);
    assert!(!chip.reset_done());
    chip.iface.regs.insert(regs::COMMAND, 0x20);
    assert!(chip.reset_done());
    chip.iface.log.clear();
    chip.raw().field_on();
    assert_eq!(chip.iface.log, vec![Did::Write(regs::COMMAND, 0x00), Did::Write(regs::TXCONTROL, 0x83)]);
    chip.iface.log.clear();
    let _ = chip.start_iso14443a();
    assert_eq!(
        chip.iface.log,
        vec![
            Did::Write(regs::TXMODE, 0x00),
            Did::Write(regs::RXMODE, 0x00),
            Did::Write(regs::MODWIDTH, 0x26),
            Did::Write(regs::CONTROL, 0x10),
            Did::Write(regs::RFCFG, 0x40),
            Did::Write(regs::RXTRESHOLD, 0x84),
            Did::Write(regs::TXAUTO, 0x40),
            Did::Write(regs::TXCONTROL, 0x83),
        ]
    );
}

#[test]
fn fm175xx_register_handles_with_closures() {
    let mut chip = Fm175xx::new(Chip::new(Answer::Silence));
    chip.regs().txmode().write(|w| {
        w.set_crcen(true);
        w.set_speed(regs::Speed::_212kbps());
    });
    assert_eq!(chip.iface.log, vec![Did::Write(regs::TXMODE, 0x90)]);
    let was = chip.regs().txmode().modify(|w| {
        let was = w.speed();
        w.set_speed(regs::Speed::_106kbps());
        was
    });
    assert!(was == regs::Speed::_212kbps());
    assert_eq!(chip.iface.reg(regs::TXMODE), 0x80);
    assert!(chip.regs().txmode().read().crcen());
}

#[test]
fn lpcd_binary_search_of_monotone_adc() {
    // The reading falls by three with each gain level; the centre is 64.
    let adc = |gain_idx: i32| (128 - 3 * gain_idx).max(0);
    assert_eq!(binary_search(0, 32, |i| adc(i) < 64), Some(22));
    assert_eq!(binary_search(0, 32, |_| false), None);
    assert_eq!(binary_search(0, 32, |_| true), Some(0));
    assert_eq!(binary_search(0, 32, |i| i >= 31), Some(31));
    assert_eq!(binary_search(5, 5, |_| true), None);
    assert_eq!(binary_search(-8, -2, |i| i >= -5), Some(-5));
    for first in 0..=40 {
        let want = if first < 40 { Some(first) } else { None };
        assert_eq!(binary_search(0, 40, |i| i >= first), want);
    }
}

#[test]
fn search_steps() {
    let mut s = Search::new(0, 32);
    let mut probes = Vec::new();
    while let Some(m) = s.probe() {
        probes.push(m);
        s.advance(m >= 22);
    }
    assert_eq!(probes, vec![15, 23, 19, 21, 22]);
    assert_eq!(s.result(), Some(22));
}

fn config(measure_time: u8) -> WakeupConfig {
    WakeupConfig {
        sleep_time: 3,
        prepare_time: 5,
        measure_time,
        threshold: 16,
        n_drive: 1,
        p_drive: 4,
        recalibrate_interval_ms: None,
    }
}

/// Calibrates against a converter that reads `adc(gain level, reference)`.
fn calibrate(adc: impl Fn(u8, u8) -> u8 + 'static, measure_time: u8) -> (rnfc::fm175xx::lpcd::Calibration, Fm175xx<Chip>) {
    let mut chip = Fm175xx::new(Chip::new(Answer::Silence));
    let level_of = |code: u8| (0..32).find(|&l| gain_code(l) == code).unwrap() as u8;
    chip.iface.adc = Some(Box::new(move |code, reference| adc(level_of(code), reference)));
    let mut cal = chip.lpcd_setup(&config(measure_time));
    for _ in 0..100 {
        chip.lpcd_probe(&cal);
        assert!(chip.lpcd_adc_done());
        let reading = chip.lpcd_adc_take();
        if chip.lpcd_advance(&mut cal, reading) {
            return (cal, chip);
        }
    }
    panic!("the calibration does not end");
}

#[test]
fn lpcd_calibration_of_monotone_adc() {
    // Measure time 17 gives the range 128 and the centre 64.
    assert_eq!(adc_scale(17).1, 128);
    let (cal, chip) = calibrate(|level, reference| (128 - 3 * level as i32 - (reference as i32 - 127)).clamp(0, 255) as u8, 17);
    assert_eq!(cal.phase, Phase::Armed);
    assert!(!cal.failed);
    assert_eq!(cal.level, 22);
    // At level 22 the reading is 62 at the highest reference and rises by one with each step down.
    assert_eq!(cal.reference, 126);
    // The reading at calibration is 63, and the window reaches 128 * 16 / 256 = 8 to each side.
    assert_eq!((cal.min, cal.max), (55, 71));
    assert_eq!(chip.iface.reg(regs::LPCD_CTRL4), gain_code(22));
    assert_eq!(chip.iface.reg(regs::LPCD_ADC_REFERECE), 126 & 0x3f);
    assert_eq!(chip.iface.reg(regs::LPCD_BIAS_CURRENT), 0x20);
    assert_eq!(chip.iface.reg(regs::LPCD_THRESHOLD_MIN_L), 55);
    assert_eq!(chip.iface.reg(regs::LPCD_THRESHOLD_MIN_H), 0);
    assert_eq!(chip.iface.reg(regs::LPCD_THRESHOLD_MAX_L), 71 & 0x3f);
    assert_eq!(chip.iface.reg(regs::LPCD_THRESHOLD_MAX_H), 1);
    assert_eq!(recalibrate_after_ms(cal.failed, &config(17)), 3 * 60 * 60 * 1000);
}

#[test]
fn lpcd_calibration_fails_where_no_setting_fits() {
    let (cal, chip) = calibrate(|_, _| 200, 17);
    assert!(cal.failed);
    assert_eq!(cal.level, 31);
    assert_eq!(cal.reference, 0x7f);
    assert_eq!((cal.min, cal.max), (192, 208));
    assert_eq!(chip.iface.reg(regs::LPCD_CTRL4), 31);
    assert_eq!(recalibrate_after_ms(cal.failed, &config(17)), 10_000);
    let mut c = config(17);
    c.recalibrate_interval_ms = Some(1234);
    assert_eq!(recalibrate_after_ms(false, &c), 1234);
    assert_eq!(recalibrate_after_ms(true, &c), 10_000);
}

#[test]
fn lpcd_setup_writes_the_configuration() {
    let mut chip = Fm175xx::new(Chip::new(Answer::Silence));
    let cal = chip.lpcd_setup(&config(17));
    assert_eq!(cal.phase, Phase::Gain);
    assert_eq!((cal.range, cal.threshold), (128, 16));
    assert_eq!(
        chip.iface.log,
        vec![
            Did::Write(regs::COMMIEN, 0x80),
            Did::Write(regs::DIVIEN, 0x80),
            Did::Write(regs::LPCD_CTRL1, 0x06),
            Did::Write(regs::LPCD_CTRL1, 0x3b),
            Did::Write(regs::LPCD_CTRL2, 0x1c),
            Did::Write(regs::LPCD_CTRL3, 0x00),
            Did::Write(regs::LPCD_T1CFG, 0x23),
            Did::Write(regs::LPCD_T2CFG, 0x05),
            Did::Write(regs::LPCD_T3CFG, 0x11),
            Did::Write(regs::LPCD_VMID_BD_CFG, 0x08),
            Did::Write(regs::LPCD_AUTO_WUP_CFG, 0x00),
            Did::Write(regs::LPCD_MISC, 0x01),
            Did::Write(regs::LPCD_ADC_REFERECE, 0x3f),
            Did::Write(regs::LPCD_BIAS_CURRENT, 0x20),
        ]
    );
}

#[test]
fn lpcd_scale_and_window() {
    assert!(adc_scale(2) == (regs::LpcdT3clkdivk::div4(), 32));
    assert!(adc_scale(7) == (regs::LpcdT3clkdivk::div4(), 192));
    assert!(adc_scale(8) == (regs::LpcdT3clkdivk::div8(), 112));
    assert!(adc_scale(15) == (regs::LpcdT3clkdivk::div8(), 224));
    assert!(adc_scale(16) == (regs::LpcdT3clkdivk::div16(), 120));
    assert!(adc_scale(31) == (regs::LpcdT3clkdivk::div16(), 240));
    assert_eq!(window(100, 128, 16), (92, 108));
    assert_eq!(window(3, 128, 16), (0, 11));
    assert_eq!(window(250, 240, 255), (11, 255));
    assert_eq!(window(100, 0, 255), (100, 100));
    assert!(config(17).is_valid());
    assert!(!config(1).is_valid());
    assert!(!config(32).is_valid());
    let mut c = config(17);
    c.sleep_time = 0;
    assert!(!c.is_valid());
}

#[test]
fn gain_codes_are_a_permutation() {
    let mut seen = [false; 32];
    for level in 0..32 {
        let code = gain_code(level) as usize;
        assert!(!seen[code]);
        seen[code] = true;
    }
}
