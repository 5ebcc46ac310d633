use std::collections::{HashMap, VecDeque};

use rnfc::st25r39::aat::{cost, neighbour, AatConfig, Tuning};
use rnfc::st25r39::interface::{read_header, write_header};
use rnfc::st25r39::iso14443a::{classify_fifo, Error, Iso14443a, Stage};
use rnfc::st25r39::regs;
use rnfc::st25r39::wakeup::{conf_bits, timer_control, wake_irqs};
use rnfc::st25r39::{
    CapCalibration, Command, Error as ChipError, FieldOnError, InitError, Interface, Interrupt, Measurement, Mode, St25r39,
    WakeupConfig, WakeupMethodConfig, WakeupPeriod, WakeupReference,
};
use rnfc::traits::iso14443a_ll::{Error as _, ErrorKind, Frame};

#[derive(Clone, Debug, PartialEq)]
enum Did {
    Command(u8),
    Read(u8, u8),
    Write(u8, u8),
    ReadFifo(Vec<u8>),
    WriteFifo(Vec<u8>),
}

/// A chip that plays back scripted interrupt requests and FIFO contents.
struct Chip {
    regs: HashMap<u8, u8>,
    fifo: Vec<u8>,
    log: Vec<Did>,
    /// What the four status registers hold at each round of reads.
    irqs: VecDeque<u32>,
    now: u32,
    /// What the answer leaves in the FIFO when the frame is commanded.
    answer: Vec<u8>,
    /// The number of the transfer that fails, counted from zero.
    fail_at: Option<usize>,
    count: usize,
}

impl Chip {
    fn new() -> Self {
        Chip {
            regs: HashMap::new(),
            fifo: Vec::new(),
            log: Vec::new(),
            irqs: VecDeque::new(),
            now: 0,
            answer: Vec::new(),
            fail_at: None,
            count: 0,
        }
    }

    fn with_irqs(mut self, rounds: &[&[Interrupt]]) -> Self {
        self.irqs = rounds.iter().map(|r| r.iter().fold(0, |w, i| w | 1 << i.bit())).collect();
        self
    }

    fn answering(mut self, answer: &[u8]) -> Self {
        self.answer = answer.to_vec();
        self
    }

    fn set(mut self, reg: u8, val: u8) -> Self {
        self.regs.insert(reg, val);
        self
    }

    fn reg(&self, reg: u8) -> u8 {
        *self.regs.get(&reg).unwrap_or(&0)
    }

    fn step(&mut self) -> Result<(), &'static str> {
        self.count += 1;
        if self.fail_at == Some(self.count - 1) {
            Err("bus")
        } else {
            Ok(())
        }
    }
}

impl Interface for Chip {
    type Error = &'static str;

    fn do_command(&mut self, cmd: u8) -> Result<(), Self::Error> {
        self.step()?;
        self.log.push(Did::Command(cmd));
        if cmd == Command::Stop.code() {
            self.fifo.clear();
        }
        if [Command::TransmitWithCrc, Command::TransmitWithoutCrc, Command::TransmitReqa, Command::TransmitWupa]
            .iter()
            .any(|c| c.code() == cmd)
        {
            self.fifo = self.answer.clone();
        }
        Ok(())
    }

    fn read_reg(&mut self, reg: u8) -> Result<u8, Self::Error> {
        assert!(reg < 0xc0);
        self.step()?;
        let val = if (regs::IRQ_MAIN..regs::IRQ_MAIN + 4).contains(&reg) {
            if reg == regs::IRQ_MAIN {
                self.now = self.irqs.pop_front().unwrap_or(0);
            }
            (self.now >> ((reg - regs::IRQ_MAIN) * 8)) as u8
        } else if reg == regs::FIFO_STATUS1 {
            self.fifo.len() as u8
        } else if reg == regs::FIFO_STATUS2 {
            self.reg(reg) | ((self.fifo.len() >> 8) as u8) << 6
        } else {
            self.reg(reg)
        };
        self.log.push(Did::Read(reg, val));
        Ok(val)
    }

    fn write_reg(&mut self, reg: u8, val: u8) -> Result<(), Self::Error> {
        assert!(reg < 0xc0);
        self.step()?;
        self.log.push(Did::Write(reg, val));
        self.regs.insert(reg, val);
        Ok(())
    }

    fn read_fifo(&mut self, data: &mut [u8]) -> Result<(), Self::Error> {
        self.step()?;
        let n = data.len();
        data.copy_from_slice(&self.fifo[..n]);
        self.fifo.drain(..n);
        self.log.push(Did::ReadFifo(data.to_vec()));
        Ok(())
    }

    fn write_fifo(&mut self, data: &[u8]) -> Result<(), Self::Error> {
        assert!(data.len() <= 512);
        self.step()?;
        self.fifo.extend_from_slice(data);
        self.log.push(Did::WriteFifo(data.to_vec()));
        Ok(())
    }
}

/// Runs one exchange to its end; a stage that does not end is a timeout.
fn transceive(chip: &mut St25r39<Chip>, tx: &[u8], rx: &mut [u8], opts: Frame) -> Result<usize, Error<&'static str>> {
    let mut reader = Iso14443a { inner: chip };
    let mut t = reader.begin(tx, &opts)?;
    for _ in 0..20 {
        if reader.poll(&mut t, &opts)? == Stage::Received {
            return reader.finish(tx, rx, &opts);
        }
    }
    Err(Error::Timeout)
}

const SENT: &[Interrupt] = &[Interrupt::Txe];
const STARTED: &[Interrupt] = &[Interrupt::Rxs];
const ENDED: &[Interrupt] = &[Interrupt::Rxe];

#[test]
fn st25r39_standard_frame_is_exchanged() {
    let chip = Chip::new().with_irqs(&[&[], SENT, &[], STARTED, ENDED]).answering(&[0xde, 0xad, 0xbe, 0xef, 0x12, 0x34]);
    let mut chip = St25r39::new(chip);
    let mut rx = [0u8; 8];
    let n = transceive(&mut chip, &[0x30, 0x04], &mut rx, Frame::Standard { timeout_1fc: 1000 });
    assert_eq!(n, Ok(32));
    assert_eq!(&rx[..4], &[0xde, 0xad, 0xbe, 0xef]);
    assert_eq!(
        &chip.iface.log[..10],
        &[
            Did::Command(0xc2),
            Did::Command(0xd5),
            Did::Write(regs::NUM_TX_BYTES2, 16),
            Did::Write(regs::NUM_TX_BYTES1, 0),
            Did::WriteFifo(vec![0x30, 0x04]),
            Did::Write(regs::CORR_CONF1, 0x53),
            Did::Write(regs::ISO14443A_NFC, 0x00),
            Did::Write(regs::AUX, 0x00),
            Did::Write(regs::RX_CONF2, 0x2d),
            Did::Command(0xc4),
        ]
    );
    assert_eq!(
        &chip.iface.log[chip.iface.log.len() - 3..],
        &[Did::Read(regs::FIFO_STATUS2, 0), Did::Read(regs::FIFO_STATUS1, 6), Did::ReadFifo(vec![0xde, 0xad, 0xbe, 0xef])]
    );
}

#[test]
fn stages_follow_the_requests() {
    let chip = Chip::new().with_irqs(&[&[], SENT, &[], STARTED, &[], ENDED]).answering(&[0x0a, 0, 0]);
    let mut chip = St25r39::new(chip);
    let opts = Frame::Standard { timeout_1fc: 4321 };
    let mut reader = Iso14443a { inner: &mut chip };
    let mut t = reader.begin(&[1], &opts).unwrap();
    assert_eq!((t.stage, t.timeout_1fc), (Stage::Sending, 4321));
    let mut seen = Vec::new();
    for _ in 0..8 {
        seen.push(reader.poll(&mut t, &opts).unwrap());
    }
    assert_eq!(
        seen,
        vec![
            Stage::Sending,
            Stage::Waiting,
            Stage::Waiting,
            Stage::Receiving,
            Stage::Receiving,
            Stage::Receiving,
            Stage::Received,
            Stage::Received
        ]
    );
}

#[test]
fn short_frames_are_made_by_the_chip() {
    for (opts, cmd) in [(Frame::WupA, 0xc7), (Frame::ReqA, 0xc6)] {
        let chip = Chip::new().with_irqs(&[SENT, STARTED, ENDED]).answering(&[0x04, 0x00]);
        let mut chip = St25r39::new(chip);
        let mut rx = [0u8; 2];
        assert_eq!(transceive(&mut chip, &[], &mut rx, opts), Ok(16));
        assert_eq!(rx, [0x04, 0x00]);
        assert_eq!(
            &chip.iface.log[..7],
            &[
                Did::Command(0xc2),
                Did::Command(0xd5),
                Did::Write(regs::CORR_CONF1, 0x53),
                Did::Write(regs::ISO14443A_NFC, 0x00),
                Did::Write(regs::AUX, 0x80),
                Did::Write(regs::RX_CONF2, 0x2d),
                Did::Command(cmd),
            ]
        );
    }
}

#[test]
fn st25r39_anticollision_answer_follows_the_request() {
    let chip = Chip::new().with_irqs(&[SENT, STARTED, ENDED]).answering(&[0x30, 0x56, 0x78, 0x00]);
    let mut chip = St25r39::new(chip);
    let mut rx = [0u8; 8];
    let tx = [0x93, 0x34, 0x12, 0x0c, 0, 0];
    let n = transceive(&mut chip, &tx, &mut rx, Frame::Anticoll { bits: 28 });
    assert_eq!(n, Ok(24 + 32));
    assert_eq!(rx, [0x93, 0x34, 0x12, 0x3c, 0x56, 0x78, 0x00, 0x00]);
    assert_eq!(
        &chip.iface.log[..10],
        &[
            Did::Command(0xc2),
            Did::Command(0xd5),
            Did::Write(regs::NUM_TX_BYTES2, 28),
            Did::Write(regs::NUM_TX_BYTES1, 0),
            Did::WriteFifo(vec![0x93, 0x34, 0x12, 0x0c]),
            Did::Write(regs::CORR_CONF1, 0x13),
            Did::Write(regs::ISO14443A_NFC, 0x01),
            Did::Write(regs::AUX, 0x80),
            Did::Write(regs::RX_CONF2, 0x25),
            Did::Command(0xc5),
        ]
    );
}

#[test]
fn collision_is_counted_by_the_chip() {
    let chip = Chip::new()
        .with_irqs(&[SENT, STARTED, &[Interrupt::Rxe, Interrupt::Col]])
        .answering(&[0x12, 0x04])
        .set(regs::COLLISION_STATUS, 3 << 4 | 3 << 1);
    let mut chip = St25r39::new(chip);
    let mut rx = [0u8; 8];
    let n = transceive(&mut chip, &[0x93, 0x20, 0, 0, 0, 0], &mut rx, Frame::Anticoll { bits: 16 });
    assert_eq!(n, Ok(3 * 8 + 3));
    assert_eq!(&rx[..4], &[0x93, 0x20, 0x12, 0x04]);
}

#[test]
fn receive_errors_are_mapped() {
    for (irq, want, kind) in [
        (Interrupt::Err1, Error::Framing, ErrorKind::Corruption),
        (Interrupt::Par, Error::Parity, ErrorKind::Corruption),
        (Interrupt::Crc, Error::Crc, ErrorKind::Corruption),
        (Interrupt::Col, Error::Collision, ErrorKind::Corruption),
    ] {
        let chip = Chip::new().with_irqs(&[SENT, STARTED, &[irq, Interrupt::Rxe]]).answering(&[1, 2, 3]);
        let mut chip = St25r39::new(chip);
        let mut rx = [0u8; 8];
        let n = transceive(&mut chip, &[0x30], &mut rx, Frame::Standard { timeout_1fc: 1000 });
        assert_eq!(n, Err(want));
        assert_eq!(want.kind(), kind);
    }
    assert_eq!(Error::<()>::Timeout.kind(), ErrorKind::Timeout);
    assert_eq!(Error::<()>::ResponseTooShort.kind(), ErrorKind::Corruption);
    assert_eq!(Error::<()>::FramingLastByteMissingParity.kind(), ErrorKind::Corruption);
    assert_eq!(Error::<()>::ResponseTooLong.kind(), ErrorKind::Other);
    assert_eq!(Error::<()>::FifoOverflow.kind(), ErrorKind::Other);
    assert_eq!(Error::<()>::FifoUnderflow.kind(), ErrorKind::Other);
    assert_eq!(Error::Interface(()).kind(), ErrorKind::Other);
}

#[test]
fn framing_error_comes_before_the_others() {
    let chip = Chip::new()
        .with_irqs(&[SENT, STARTED, &[Interrupt::Crc, Interrupt::Par, Interrupt::Err1, Interrupt::Rxe]])
        .answering(&[1, 2, 3]);
    let mut chip = St25r39::new(chip);
    let mut rx = [0u8; 8];
    let n = transceive(&mut chip, &[0x30], &mut rx, Frame::Standard { timeout_1fc: 1000 });
    assert_eq!(n, Err(Error::Framing));
}

#[test]
fn silence_is_a_timeout_of_the_caller() {
    let chip = Chip::new().with_irqs(&[SENT]);
    let mut chip = St25r39::new(chip);
    let mut rx = [0u8; 8];
    let n = transceive(&mut chip, &[0x30], &mut rx, Frame::Standard { timeout_1fc: 1000 });
    assert_eq!(n, Err(Error::Timeout));
}

#[test]
fn fifo_status_is_checked() {
    for (status, want) in [
        (0x10u8, Error::FifoOverflow),
        (0x20, Error::FifoUnderflow),
        (0x01, Error::FramingLastByteMissingParity),
        (0x06, Error::Framing),
        (0x31, Error::FifoOverflow),
    ] {
        let chip = Chip::new().with_irqs(&[SENT, STARTED, ENDED]).answering(&[1, 2, 3]).set(regs::FIFO_STATUS2, status);
        let mut chip = St25r39::new(chip);
        let mut rx = [0u8; 8];
        let n = transceive(&mut chip, &[0x30], &mut rx, Frame::Standard { timeout_1fc: 1000 });
        assert_eq!(n, Err(want), "status {:02x}", status);
        assert_eq!(classify_fifo::<&'static str>(regs::FifoStatus2(status), true), Some(want));
    }
    // An answer to an anticollision frame may end in the middle of a byte.
    assert_eq!(classify_fifo::<()>(regs::FifoStatus2(0x06), false), None);
    assert_eq!(classify_fifo::<()>(regs::FifoStatus2(0xc0), true), None);
}

#[test]
fn answer_shorter_than_its_crc_is_an_error() {
    let chip = Chip::new().with_irqs(&[SENT, STARTED, ENDED]).answering(&[1]);
    let mut chip = St25r39::new(chip);
    let mut rx = [0u8; 8];
    let n = transceive(&mut chip, &[0x30], &mut rx, Frame::Standard { timeout_1fc: 1000 });
    assert_eq!(n, Err(Error::ResponseTooShort));
}

#[test]
fn st25r39_answer_larger_than_the_buffer_is_an_error() {
    let chip = Chip::new().with_irqs(&[SENT, STARTED, ENDED]).answering(&[1, 2, 3, 4, 5]);
    let mut chip = St25r39::new(chip);
    let mut rx = [0u8; 2];
    let n = transceive(&mut chip, &[0x30], &mut rx, Frame::Standard { timeout_1fc: 1000 });
    assert_eq!(n, Err(Error::ResponseTooLong));
    let chip = Chip::new().with_irqs(&[SENT, STARTED, ENDED]).answering(&[1, 2, 3, 4, 5]);
    let mut chip = St25r39::new(chip);
    let mut rx = [0u8; 6];
    let n = transceive(&mut chip, &[0x93, 0x20, 0, 0, 0, 0], &mut rx, Frame::Anticoll { bits: 16 });
    assert_eq!(n, Err(Error::ResponseTooLong));
}

#[test]
fn long_answer_is_counted_over_both_status_registers() {
    let answer: Vec<u8> = (0..300).map(|i| i as u8).collect();
    let chip = Chip::new().with_irqs(&[SENT, STARTED, ENDED]).answering(&answer);
    let mut chip = St25r39::new(chip);
    let mut rx = [0u8; 512];
    let n = transceive(&mut chip, &[0x30], &mut rx, Frame::Standard { timeout_1fc: 1000 });
    assert_eq!(n, Ok(298 * 8));
    assert_eq!(&rx[..298], &answer[..298]);
}

#[test]
fn frame_longer_than_the_fifo_is_refused() {
    let mut chip = St25r39::new(Chip::new());
    let mut rx = [0u8; 8];
    let tx = [0u8; 513];
    let n = transceive(&mut chip, &tx, &mut rx, Frame::Standard { timeout_1fc: 1000 });
    assert_eq!(n, Err(Error::FifoOverflow));
    let chip = Chip::new().with_irqs(&[SENT, STARTED, ENDED]).answering(&[9, 0, 0]);
    let mut chip = St25r39::new(chip);
    let tx = [7u8; 512];
    let n = transceive(&mut chip, &tx, &mut rx, Frame::Standard { timeout_1fc: 1000 });
    assert_eq!(n, Ok(8));
    // 4096 bits: the count goes over both registers.
    assert_eq!(chip.iface.log[2], Did::Write(regs::NUM_TX_BYTES2, 0));
    assert_eq!(chip.iface.log[3], Did::Write(regs::NUM_TX_BYTES1, 16));
}

#[test]
fn bus_failure_is_handed_on() {
    for at in 0..14 {
        let mut chip = Chip::new().with_irqs(&[SENT, STARTED, ENDED]).answering(&[1, 2, 3]);
        chip.fail_at = Some(at);
        let mut chip = St25r39::new(chip);
        let mut rx = [0u8; 8];
        let n = transceive(&mut chip, &[0x30], &mut rx, Frame::Standard { timeout_1fc: 1000 });
        assert_eq!(n, Err(Error::Interface("bus")), "failure at {}", at);
    }
}

#[test]
fn interrupt_requests_are_kept_until_cleared() {
    let chip = Chip::new().with_irqs(&[&[Interrupt::Txe], &[Interrupt::Rxs, Interrupt::Ppon2], &[], &[Interrupt::Osc]]);
    let mut chip = St25r39::new(chip);
    assert!(!chip.irq(Interrupt::Txe));
    chip.irq_update().unwrap();
    assert!(chip.irq(Interrupt::Txe));
    assert_eq!(chip.irqs, 1 << 3);
    assert_eq!(chip.irq_poll(Interrupt::Rxs), Ok(true));
    assert_eq!(chip.irqs, 1 << 3 | 1 << 5 | 1 << 31);
    assert_eq!(chip.irq_poll(Interrupt::Osc), Ok(false));
    assert!(chip.irq(Interrupt::Txe) && chip.irq(Interrupt::Ppon2));
    chip.irq_clear().unwrap();
    assert_eq!(chip.irqs, 0);
    assert_eq!(
        &chip.iface.log[12..],
        &[
            Did::Read(regs::IRQ_MAIN, 0x80),
            Did::Read(regs::IRQ_MAIN + 1, 0),
            Did::Read(regs::IRQ_MAIN + 2, 0),
            Did::Read(regs::IRQ_MAIN + 3, 0)
        ]
    );
    chip.iface.log.clear();
    chip.irq_set_mask(!(1 << 18 | 1 << 3)).unwrap();
    assert_eq!(
        chip.iface.log,
        vec![
            Did::Write(regs::IRQ_MASK, 0xf7),
            Did::Write(regs::IRQ_MASK + 1, 0xff),
            Did::Write(regs::IRQ_MASK + 2, 0xfb),
            Did::Write(regs::IRQ_MASK + 3, 0xff)
        ]
    );
    for (i, irq) in [Interrupt::Rfu, Interrupt::Osc, Interrupt::Nfct, Interrupt::Dct, Interrupt::Wcap, Interrupt::Crc, Interrupt::WuA, Interrupt::Ppon2]
        .iter()
        .enumerate()
    {
        assert_eq!(irq.bit() as usize, [0, 7, 8, 15, 16, 23, 24, 31][i]);
    }
}

#[test]
fn set_up_follows_the_supply_voltage() {
    for (reading, mv, conf2) in [(150u8, 3510u32, 0x80u8), (153, 3580, 0x80), (154, 3604, 0x00), (200, 4680, 0x00), (0, 0, 0x80), (255, 5967, 0x00)] {
        let chip = Chip::new().set(regs::AD_RESULT, reading).set(regs::IC_IDENTITY, 0x2a).set(regs::OP_CONTROL, 0x80);
        let mut chip = St25r39::new(chip);
        let id = chip.init_begin().unwrap();
        assert_eq!(id.0, 0x2a);
        assert_eq!(
            chip.iface.log,
            vec![
                Did::Command(0xc1),
                Did::Write(regs::TEST_UNK, 0x10),
                Did::Read(regs::IC_IDENTITY, 0x2a),
                Did::Write(regs::OP_CONTROL, 0x80)
            ]
        );
        assert_eq!(chip.osc_ready(), Ok(false));
        chip.iface.regs.insert(regs::AUX_DISPLAY, 0x10);
        assert_eq!(chip.osc_ready(), Ok(true));
        chip.iface.log.clear();
        chip.measure_vdd_start().unwrap();
        assert_eq!(chip.iface.log.first(), Some(&Did::Write(regs::REGULATOR_CONTROL, 0x00)));
        assert_eq!(chip.iface.log.last(), Some(&Did::Command(0xdf)));
        assert_eq!(chip.measure_vdd_read(), Ok(mv));
        chip.iface.log.clear();
        chip.init_supply(mv).unwrap();
        assert_eq!(
            chip.iface.log,
            vec![
                Did::Write(regs::IO_CONF2, conf2),
                Did::Write(regs::IO_CONF1, 0x07),
                Did::Read(regs::OP_CONTROL, 0x80),
                Did::Write(regs::OP_CONTROL, 0x83),
                Did::Write(regs::REGULATOR_CONTROL, 0x00),
                Did::Write(regs::REGULATOR_CONTROL, 0x80),
                Did::Read(regs::IRQ_MAIN, 0),
                Did::Read(regs::IRQ_MAIN + 1, 0),
                Did::Read(regs::IRQ_MAIN + 2, 0),
                Did::Read(regs::IRQ_MAIN + 3, 0),
                Did::Command(0xd6),
            ]
        );
        chip.iface.regs.insert(regs::REGULATOR_RESULT, 0x54);
        assert_eq!(chip.init_end().unwrap().0, 0x54);
    }
}

#[test]
fn modes() {
    let mut chip = St25r39::new(Chip::new().set(regs::OP_CONTROL, 0x80));
    assert_eq!(chip.mode, Mode::On);
    chip.mode_off().unwrap();
    assert_eq!(chip.mode, Mode::Off);
    assert_eq!(chip.iface.log, vec![Did::Command(0xc2), Did::Write(regs::OP_CONTROL, 0)]);
    chip.iface.log.clear();
    chip.mode_on_start().unwrap();
    assert_eq!(chip.mode, Mode::On);
    chip.mode_on_finish().unwrap();
    assert_eq!(
        chip.iface.log,
        vec![
            Did::Write(regs::OP_CONTROL, 0x80),
            Did::Read(regs::OP_CONTROL, 0x80),
            Did::Write(regs::OP_CONTROL, 0x83),
            Did::Write(regs::TX_DRIVER, 0x03)
        ]
    );
    chip.iface.log.clear();
    chip.raw().driver_hi_z().unwrap();
    assert_eq!(
        chip.iface.log,
        vec![Did::Command(0xc2), Did::Write(regs::OP_CONTROL, 0), Did::Write(regs::TX_DRIVER, 0x0f)]
    );
    chip.iface.log.clear();
    chip.raw().field_off().unwrap();
    assert_eq!(chip.iface.log, vec![Did::Command(0xc2), Did::Write(regs::OP_CONTROL, 0)]);
}

#[test]
fn field_on_waits_or_finds_another_field() {
    let mut chip = St25r39::new(Chip::new().with_irqs(&[&[], &[], &[Interrupt::Apon]]).set(regs::OP_CONTROL, 0x83));
    chip.field_on_start().unwrap();
    assert_eq!(
        chip.iface.log,
        vec![
            Did::Write(regs::MODE, 0x08),
            Did::Write(regs::TX_DRIVER, 0x70),
            Did::Write(regs::AUX_MOD, 0x10),
            Did::Write(regs::OVERSHOOT_CONF1, 0x40),
            Did::Write(regs::OVERSHOOT_CONF2, 0x03),
            Did::Write(regs::UNDERSHOOT_CONF1, 0x40),
            Did::Write(regs::UNDERSHOOT_CONF2, 0x03),
            Did::Write(regs::AUX, 0x00),
            Did::Write(regs::BIT_RATE, 0x00),
            Did::Write(regs::ISO14443A_NFC, 0x00),
            Did::Write(regs::FIELD_ON_GT, 0x00),
            Did::Read(regs::IRQ_MAIN, 0),
            Did::Read(regs::IRQ_MAIN + 1, 0),
            Did::Read(regs::IRQ_MAIN + 2, 0),
            Did::Read(regs::IRQ_MAIN + 3, 0),
            Did::Command(0xc8),
        ]
    );
    assert_eq!(chip.field_on_poll(), Ok(false));
    assert_eq!(chip.field_on_poll(), Ok(false));
    assert_eq!(chip.field_on_poll(), Ok(true));
    chip.iface.log.clear();
    chip.field_on_finish().unwrap();
    assert_eq!(chip.iface.log, vec![Did::Read(regs::OP_CONTROL, 0x83), Did::Write(regs::OP_CONTROL, 0xcb)]);

    let mut chip = St25r39::new(Chip::new().with_irqs(&[&[], &[Interrupt::Cac, Interrupt::Apon]]));
    chip.field_on_start().unwrap();
    assert_eq!(chip.field_on_poll(), Ok(false));
    assert_eq!(chip.field_on_poll(), Err(FieldOnError::FieldCollision));
    assert_eq!(FieldOnError::from(ChipError::Interface(7)), FieldOnError::Interface(7));
    assert_eq!(FieldOnError::<u8>::from(ChipError::Timeout), FieldOnError::Timeout);
}

#[test]
fn measurements() {
    for (what, cmd) in [(Measurement::Amplitude, 0xd3), (Measurement::Phase, 0xd9), (Measurement::Capacitance, 0xde)] {
        let mut chip = St25r39::new(Chip::new().with_irqs(&[&[Interrupt::Osc], &[], &[Interrupt::Dct]]).set(regs::AD_RESULT, 99));
        chip.irqs = 0xffff;
        chip.measure_start(what).unwrap();
        assert_eq!(chip.irqs, 0);
        assert_eq!(chip.iface.log.last(), Some(&Did::Command(cmd)));
        assert_eq!(chip.irq_poll(Interrupt::Dct), Ok(false));
        assert_eq!(chip.irq_poll(Interrupt::Dct), Ok(true));
        assert_eq!(chip.measure_read(), Ok(99));
    }
}

#[test]
fn capacitive_sensor_calibration() {
    let mut chip = St25r39::new(Chip::new());
    chip.calibrate_capacitance_start().unwrap();
    assert_eq!(chip.iface.log, vec![Did::Write(regs::CAP_SENSOR_CONTROL, 0x01), Did::Command(0xdd)]);
    assert_eq!(chip.calibrate_capacitance_poll(), Ok(CapCalibration::Busy));
    chip.iface.regs.insert(regs::CAP_SENSOR_RESULT, 0x04 | 21 << 3);
    assert_eq!(chip.calibrate_capacitance_poll(), Ok(CapCalibration::Done(21)));
    chip.iface.regs.insert(regs::CAP_SENSOR_RESULT, 0x06);
    assert_eq!(chip.calibrate_capacitance_poll(), Ok(CapCalibration::Failed));
}

fn method(delta: u8, reference: WakeupReference) -> Option<WakeupMethodConfig> {
    Some(WakeupMethodConfig { delta, reference })
}

#[test]
fn wake_up_configuration() {
    let config = WakeupConfig {
        period: WakeupPeriod::Ms300,
        inductive_amplitude: method(3, WakeupReference::Automatic),
        inductive_phase: None,
        capacitive: method(5, WakeupReference::AutoAverage { include_irq_measurement: true, weight: 2 }),
    };
    // 100 ms steps (no 10 ms range bit), three of them, amplitude and capacitance.
    assert_eq!(timer_control(&config).0, 0x20 | 0x04 | 0x01);
    assert_eq!(wake_irqs(&config), 1 << 18 | 1 << 16);
    let fast = WakeupConfig { period: WakeupPeriod::Ms80, inductive_phase: method(1, WakeupReference::Manual(9)), ..config };
    assert_eq!(timer_control(&fast).0, 0x80 | 0x70 | 0x07);
    assert_eq!(wake_irqs(&fast), 1 << 18 | 1 << 17 | 1 << 16);
    assert_eq!(WakeupPeriod::Ms10.code(), 0x00);
    assert_eq!(WakeupPeriod::Ms800.code(), 0x17);

    assert_eq!(conf_bits(Measurement::Amplitude, &config.inductive_amplitude.unwrap()), 0x30);
    assert_eq!(conf_bits(Measurement::Capacitance, &config.capacitive.unwrap()), 0x50 | 0x08 | 2 << 1 | 1);
    assert_eq!(conf_bits(Measurement::Phase, &fast.inductive_phase.unwrap()), 0x10);
    assert!(!WakeupReference::Manual(9).is_measured());
    assert!(WakeupReference::Automatic.is_measured());
    assert_eq!(WakeupReference::Manual(9).value(77), 9);
    assert_eq!(WakeupReference::Automatic.value(77), 77);

    let mut chip = St25r39::new(Chip::new());
    chip.wakeup_begin().unwrap();
    assert_eq!(chip.mode, Mode::Wakeup);
    chip.wakeup_set_method(Measurement::Amplitude, &config.inductive_amplitude.unwrap(), 120).unwrap();
    chip.wakeup_set_method(Measurement::Phase, &fast.inductive_phase.unwrap(), 120).unwrap();
    chip.wakeup_arm(&config).unwrap();
    assert_eq!(
        chip.iface.log,
        vec![
            Did::Command(0xc2),
            Did::Write(regs::OP_CONTROL, 0),
            Did::Write(regs::MODE, 0x08),
            Did::Write(regs::AMPLITUDE_MEASURE_REF, 120),
            Did::Write(regs::AMPLITUDE_MEASURE_CONF, 0x30),
            Did::Write(regs::PHASE_MEASURE_REF, 9),
            Did::Write(regs::PHASE_MEASURE_CONF, 0x10),
            Did::Read(regs::IRQ_MAIN, 0),
            Did::Read(regs::IRQ_MAIN + 1, 0),
            Did::Read(regs::IRQ_MAIN + 2, 0),
            Did::Read(regs::IRQ_MAIN + 3, 0),
            Did::Write(regs::WUP_TIMER_CONTROL, 0x25),
            Did::Write(regs::OP_CONTROL, 0x04),
            Did::Write(regs::IRQ_MASK, 0xff),
            Did::Write(regs::IRQ_MASK + 1, 0xff),
            Did::Write(regs::IRQ_MASK + 2, 0xfa),
            Did::Write(regs::IRQ_MASK + 3, 0xff),
        ]
    );
}

#[test]
fn register_prefixes() {
    assert_eq!(read_header(0x02), ([0x42, 0], 1));
    assert_eq!(write_header(0x02), ([0x02, 0], 1));
    assert_eq!(read_header(0x3f), ([0x7f, 0], 1));
    assert_eq!(read_header(0x40), ([0xfb, 0x40], 2));
    assert_eq!(write_header(0x45), ([0xfb, 0x05], 2));
    assert_eq!(read_header(0x68), ([0xfb, 0x68], 2));
    assert_eq!(read_header(0x84), ([0xfc, 0x44], 2));
    assert_eq!(write_header(0x84), ([0xfc, 0x04], 2));
    assert_eq!(write_header(0xbf), ([0xfc, 0x3f], 2));
}

#[test]
fn st25r39_register_handles_with_closures() {
    let mut chip = St25r39::new(Chip::new().set(regs::OP_CONTROL, 0x80));
    chip.regs().op_control().modify(|w| w.set_wu(true)).unwrap();
    assert_eq!(chip.iface.log, vec![Did::Read(regs::OP_CONTROL, 0x80), Did::Write(regs::OP_CONTROL, 0x84)]);
    chip.regs().tx_driver().write(|w| w.set_am_mod(regs::TxDriverAmMod::_12percent())).unwrap();
    assert_eq!(chip.iface.reg(regs::TX_DRIVER), 0x70);
    chip.iface.fail_at = Some(chip.iface.count);
    assert_eq!(chip.regs().mode().read().err(), Some(ChipError::Interface("bus")));
}

fn tuning() -> AatConfig {
    AatConfig {
        a_min: 10,
        a_max: 200,
        a_start: 100,
        a_step: 30,
        b_min: 0,
        b_max: 255,
        b_start: 250,
        b_step: 10,
        pha_target: 128,
        pha_weight: 2,
        amp_target: 196,
        amp_weight: 1,
    }
}

#[test]
fn tuning_cost_and_neighbours() {
    let conf = tuning();
    assert_eq!(cost(196, 128, &conf), 0);
    assert_eq!(cost(200, 120, &conf), 4 + 16);
    assert_eq!(cost(0, 255, &conf), 196 + 254);
    assert_eq!(neighbour(100, 250, &conf, 0), (130, 250));
    assert_eq!(neighbour(100, 250, &conf, 1), (70, 250));
    assert_eq!(neighbour(100, 250, &conf, 2), (100, 255));
    assert_eq!(neighbour(100, 250, &conf, 3), (100, 240));
    assert_eq!(neighbour(190, 5, &conf, 0), (200, 5));
    assert_eq!(neighbour(20, 5, &conf, 1), (10, 5));
    assert_eq!(neighbour(20, 5, &conf, 3), (20, 0));
    assert_eq!(neighbour(250, 5, &conf, 0), (200, 5));
}

#[test]
fn tuning_walks_downhill_and_ends() {
    let conf = tuning();
    // A bowl with its bottom at (160, 220).
    let measured = |a: u8, b: u8| (a as i32 - 160).unsigned_abs() + 2 * (b as i32 - 220).unsigned_abs();
    let mut t = Tuning::new(&conf, measured(conf.a_start, conf.b_start));
    let mut costs = vec![t.cost];
    for _ in 0..200 {
        let (a, b) = t.probe(&conf);
        if t.advance(&conf, measured(a, b)) {
            break;
        }
        if t.next == 0 {
            costs.push(t.cost);
        }
    }
    assert!(t.done);
    assert!(costs.windows(2).all(|w| w[1] < w[0]));
    assert_eq!((t.a, t.b), (160, 220));
    assert_eq!(t.cost, 0);
}

#[test]
fn chip_of_another_type_is_refused() {
    // Type 4 in the five high bits of the identity.
    let mut chip = St25r39::new(Chip::new().set(regs::IC_IDENTITY, 4 << 3 | 2));
    assert!(chip.init_begin().err() == Some(InitError::UnknownChip(0x22)));
    // The oscillator is left off.
    assert_eq!(
        chip.iface.log,
        vec![Did::Command(0xc1), Did::Write(regs::TEST_UNK, 0x10), Did::Read(regs::IC_IDENTITY, 0x22)]
    );
    let mut chip = St25r39::new(Chip::new().set(regs::IC_IDENTITY, 5 << 3 | 7));
    assert!(chip.init_begin().ok() == Some(regs::IcIdentity(0x2f)));
    let mut bus = Chip::new();
    bus.fail_at = Some(2);
    let mut chip = St25r39::new(bus);
    assert!(chip.init_begin().err() == Some(InitError::Interface("bus")));
    assert_eq!(InitError::<u8>::from(ChipError::Timeout), InitError::Timeout);
}
