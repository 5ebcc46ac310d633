use rnfc::iso14443a::{
    after_level, build_anticoll, build_cascade_block, build_select, holds, note, part_of, prefer_one, read_anticoll,
    same_bytes, search_goes_on, Error, LevelStep, Poller,
};
use rnfc::traits::iso14443a::Reader;
use rnfc::traits::iso14443a_ll::{ErrorKind, Frame, Reader as LLReader};

/// A reader that plays back a fixed dialogue and checks what it is sent.
struct Script {
    rounds: Vec<(Vec<u8>, usize, Result<(Vec<u8>, usize), ErrorKind>)>,
    pos: usize,
}

impl Script {
    fn new() -> Self {
        Script { rounds: Vec::new(), pos: 0 }
    }

    /// Expects the first `tx_bits` bits of `tx`; answers with `rx`, of which `rx_bits` are valid.
    fn then(mut self, tx: &[u8], tx_bits: usize, rx: &[u8], rx_bits: usize) -> Self {
        self.rounds.push((tx.to_vec(), tx_bits, Ok((rx.to_vec(), rx_bits))));
        self
    }

    fn then_fail(mut self, tx: &[u8], tx_bits: usize, e: ErrorKind) -> Self {
        self.rounds.push((tx.to_vec(), tx_bits, Err(e)));
        self
    }
}

impl LLReader for Script {
    type Error = ErrorKind;

    fn transceive(&mut self, tx: &[u8], rx: &mut [u8], opts: Frame) -> Result<usize, ErrorKind> {
        let (sent, sent_bits): (Vec<u8>, usize) = match opts {
            Frame::WupA => (vec![0x52], 7),
            Frame::ReqA => (vec![0x26], 7),
            Frame::Anticoll { bits } => (tx[..(bits + 7) / 8].to_vec(), bits),
            Frame::Standard { .. } => (tx.to_vec(), tx.len() * 8),
        };
        assert!(self.pos < self.rounds.len(), "unexpected frame {:02x?}", sent);
        let (want, want_bits, answer) = self.rounds[self.pos].clone();
        assert_eq!((&sent, sent_bits), (&want, want_bits), "round {}", self.pos);
        self.pos += 1;
        let (data, bits) = answer?;
        if let Frame::Anticoll { bits: k } = opts {
            // The answer continues the request: bytes of the request first.
            let whole = k / 8;
            rx[..whole].copy_from_slice(&tx[..whole]);
            rx[whole..whole + data.len()].copy_from_slice(&data);
            if k % 8 != 0 {
                let mask = (1u8 << (k % 8)) - 1;
                rx[whole] = (rx[whole] & !mask) | (tx[whole] & mask);
            }
        } else {
            rx[..data.len()].copy_from_slice(&data);
        }
        Ok(bits)
    }
}

#[test]
fn single_cascade_uid_selection() {
    let script = Script::new()
        .then(&[0x52], 7, &[0x04, 0x00], 16)
        .then(&[0x93, 0x20], 16, &[0xaa, 0xbb, 0xcc, 0xdd, 0xaa ^ 0xbb ^ 0xcc ^ 0xdd], 56)
        .then(&[0x93, 0x70, 0xaa, 0xbb, 0xcc, 0xdd, 0xaa ^ 0xbb ^ 0xcc ^ 0xdd], 56, &[0x20], 8);
    let mut poller = Poller::new(script);
    let card = poller.select_any().ok().unwrap();
    assert_eq!(card.uid(), &[0xaa, 0xbb, 0xcc, 0xdd]);
    assert_eq!(card.atqa(), [0x04, 0x00]);
    assert_eq!(card.sak(), 0x20);
}

#[test]
fn double_cascade_uid_selection() {
    let bcc = 0x44 ^ 0x55 ^ 0x66 ^ 0x77;
    let script = Script::new()
        .then(&[0x52], 7, &[0x44, 0x00], 16)
        .then(&[0x93, 0x20], 16, &[0x88, 0x11, 0x22, 0x33, 0x88], 56)
        .then(&[0x93, 0x70, 0x88, 0x11, 0x22, 0x33, 0x88], 56, &[0x24], 8)
        .then(&[0x95, 0x20], 16, &[0x44, 0x55, 0x66, 0x77, bcc], 56)
        .then(&[0x95, 0x70, 0x44, 0x55, 0x66, 0x77, bcc], 56, &[0x00], 8);
    let mut poller = Poller::new(script);
    let card = poller.select_any().ok().unwrap();
    assert_eq!(card.uid(), &[0x11, 0x22, 0x33, 0x44, 0x55, 0x66, 0x77]);
    assert_eq!(card.atqa(), [0x44, 0x00]);
    assert_eq!(card.sak(), 0x00);
}

#[test]
fn triple_cascade_uid_selection() {
    let script = Script::new()
        .then(&[0x52], 7, &[0x84, 0x00], 16)
        .then(&[0x93, 0x20], 16, &[0x88, 0x01, 0x02, 0x03, 0x88], 56)
        .then(&[0x93, 0x70, 0x88, 0x01, 0x02, 0x03, 0x88], 56, &[0x04], 8)
        .then(&[0x95, 0x20], 16, &[0x88, 0x04, 0x05, 0x06, 0x8f], 56)
        .then(&[0x95, 0x70, 0x88, 0x04, 0x05, 0x06, 0x8f], 56, &[0x04], 8)
        .then(&[0x97, 0x20], 16, &[0x07, 0x08, 0x09, 0x0a, 0x0c], 56)
        .then(&[0x97, 0x70, 0x07, 0x08, 0x09, 0x0a, 0x0c], 56, &[0x00], 8);
    let mut poller = Poller::new(script);
    let card = poller.select_any().ok().unwrap();
    assert_eq!(card.uid(), &[0x01, 0x02, 0x03, 0x04, 0x05, 0x06, 0x07, 0x08, 0x09, 0x0a]);
}

#[test]
fn fourth_cascade_level_is_a_protocol_error() {
    let script = Script::new()
        .then(&[0x52], 7, &[0x84, 0x00], 16)
        .then(&[0x93, 0x20], 16, &[0x88, 0x01, 0x02, 0x03, 0x88], 56)
        .then(&[0x93, 0x70, 0x88, 0x01, 0x02, 0x03, 0x88], 56, &[0x04], 8)
        .then(&[0x95, 0x20], 16, &[0x88, 0x04, 0x05, 0x06, 0x8f], 56)
        .then(&[0x95, 0x70, 0x88, 0x04, 0x05, 0x06, 0x8f], 56, &[0x04], 8)
        .then(&[0x97, 0x20], 16, &[0x88, 0x08, 0x09, 0x0a, 0x83], 56)
        .then(&[0x97, 0x70, 0x88, 0x08, 0x09, 0x0a, 0x83], 56, &[0x04], 8);
    let mut poller = Poller::new(script);
    assert!(matches!(poller.select_any(), Err(Error::Protocol)));
}

#[test]
fn collision_is_resolved_towards_one() {
    // Two cards, 12 34 56 78 and 12 3c 56 78: they differ at bit 11.
    let script = Script::new()
        .then(&[0x52], 7, &[0x04, 0x00], 16)
        .then(&[0x93, 0x20], 16, &[0x12, 0x04], 16 + 11)
        // Bit 11 is set, and 12 bits are sent: 0x34 | 0x08 = 0x3c, low nibble 0xc.
        .then(&[0x93, 0x34, 0x12, 0x0c], 16 + 12, &[0x30, 0x56, 0x78, 0x12 ^ 0x3c ^ 0x56 ^ 0x78], 16 + 40)
        .then(&[0x93, 0x70, 0x12, 0x3c, 0x56, 0x78, 0x12 ^ 0x3c ^ 0x56 ^ 0x78], 56, &[0x08], 8);
    let mut poller = Poller::new(script);
    let card = poller.select_any().ok().unwrap();
    assert_eq!(card.uid(), &[0x12, 0x3c, 0x56, 0x78]);
    assert_eq!(card.sak(), 0x08);
}

#[test]
fn collision_at_the_last_bit_asks_for_the_check_byte() {
    // 01 02 03 04 and 01 02 03 84 differ at bit 31 only.
    let bcc = 0x01 ^ 0x02 ^ 0x03 ^ 0x84;
    let script = Script::new()
        .then(&[0x52], 7, &[0x04, 0x00], 16)
        .then(&[0x93, 0x20], 16, &[0x01, 0x02, 0x03, 0x04], 16 + 31)
        .then(&[0x93, 0x60, 0x01, 0x02, 0x03, 0x84], 48, &[bcc], 56)
        .then(&[0x93, 0x70, 0x01, 0x02, 0x03, 0x84, bcc], 56, &[0x08], 8);
    let mut poller = Poller::new(script);
    // The scripted reader puts the answer behind six whole bytes.
    let card = poller.select_any().ok().unwrap();
    assert_eq!(card.uid(), &[0x01, 0x02, 0x03, 0x84]);
}

#[test]
fn answer_without_a_new_bit_is_a_protocol_error() {
    let script = Script::new()
        .then(&[0x52], 7, &[0x04, 0x00], 16)
        .then(&[0x93, 0x20], 16, &[], 16)
        .then(&[0x93, 0x20], 16, &[], 16)
        .then(&[0x93, 0x20], 16, &[], 16)
        .then(&[0x93, 0x20], 16, &[], 16);
    let mut poller = Poller::new(script);
    assert!(matches!(poller.select_any(), Err(Error::Protocol)));
}

#[test]
fn wrong_check_byte_is_a_protocol_error() {
    let mut script = Script::new().then(&[0x52], 7, &[0x04, 0x00], 16);
    for _ in 0..4 {
        script = script.then(&[0x93, 0x20], 16, &[0xaa, 0xbb, 0xcc, 0xdd, 0xe4], 56);
    }
    let mut poller = Poller::new(script);
    assert!(matches!(poller.select_any(), Err(Error::Protocol)));
}

#[test]
fn collision_in_the_check_byte_is_a_protocol_error() {
    let mut script = Script::new().then(&[0x52], 7, &[0x04, 0x00], 16);
    for _ in 0..4 {
        script = script.then(&[0x93, 0x20], 16, &[0xaa, 0xbb, 0xcc, 0xdd, 0x00], 16 + 35);
    }
    let mut poller = Poller::new(script);
    assert!(matches!(poller.select_any(), Err(Error::Protocol)));
}

#[test]
fn wupa_is_tried_four_times() {
    let script = Script::new()
        .then_fail(&[0x52], 7, ErrorKind::Timeout)
        .then_fail(&[0x52], 7, ErrorKind::Timeout)
        .then_fail(&[0x52], 7, ErrorKind::Timeout)
        .then_fail(&[0x52], 7, ErrorKind::Corruption);
    let mut poller = Poller::new(script);
    assert!(matches!(poller.select_any(), Err(Error::Lower(ErrorKind::Corruption))));
    assert_eq!(poller.reader.pos, 4);
}

#[test]
fn wupa_succeeds_on_a_later_try() {
    let script = Script::new()
        .then_fail(&[0x52], 7, ErrorKind::Timeout)
        .then(&[0x52], 7, &[0x04], 8)
        .then(&[0x52], 7, &[0x04, 0x00], 16)
        .then(&[0x93, 0x20], 16, &[0x01, 0x02, 0x03, 0x04, 0x04], 56)
        .then(&[0x93, 0x70, 0x01, 0x02, 0x03, 0x04, 0x04], 56, &[0x08], 8);
    let mut poller = Poller::new(script);
    let card = poller.select_any().ok().unwrap();
    assert_eq!(card.uid(), &[0x01, 0x02, 0x03, 0x04]);
}

#[test]
fn select_by_id_sends_the_cascade_blocks() {
    let script = Script::new()
        .then(&[0x52], 7, &[0x44, 0x00], 16)
        .then(&[0x93, 0x70, 0x88, 0x11, 0x22, 0x33, 0x88], 56, &[0x24], 8)
        .then(&[0x95, 0x70, 0x44, 0x55, 0x66, 0x77, 0x44 ^ 0x55 ^ 0x66 ^ 0x77], 56, &[0x00], 8);
    let mut poller = Poller::new(script);
    let card = poller.select_by_id(&[0x11, 0x22, 0x33, 0x44, 0x55, 0x66, 0x77]).ok().unwrap();
    assert_eq!(card.uid(), &[0x11, 0x22, 0x33, 0x44, 0x55, 0x66, 0x77]);
    assert_eq!(card.atqa(), [0x44, 0x00]);
    assert_eq!(card.sak(), 0x00);
}

#[test]
fn select_by_id_refuses_other_lengths() {
    for len in [0usize, 1, 3, 5, 6, 8, 9, 11] {
        let script = Script::new().then(&[0x52], 7, &[0x04, 0x00], 16);
        let mut poller = Poller::new(script);
        let uid = vec![0x11u8; len];
        assert!(matches!(poller.select_by_id(&uid), Err(Error::Protocol)));
    }
}

#[test]
fn card_exchanges_whole_bytes() {
    let script = Script::new()
        .then(&[0x52], 7, &[0x04, 0x00], 16)
        .then(&[0x93, 0x70, 0x01, 0x02, 0x03, 0x04, 0x04], 56, &[0x08], 8)
        .then(&[0x30, 0x04], 16, &[0xde, 0xad, 0xbe, 0xef], 32)
        .then_fail(&[0x30, 0x05], 16, ErrorKind::Timeout);
    let mut poller = Poller::new(script);
    let mut card = poller.select_by_id(&[0x01, 0x02, 0x03, 0x04]).ok().unwrap();
    let mut rx = [0u8; 8];
    assert_eq!(card.transceive(&[0x30, 0x04], &mut rx, 1000), Ok(4));
    assert_eq!(&rx[..4], &[0xde, 0xad, 0xbe, 0xef]);
    assert_eq!(card.transceive(&[0x30, 0x05], &mut rx, 1000), Err(ErrorKind::Timeout));
}

/// A field of single-size cards that answer as the standard says.
struct Field {
    cards: Vec<[u8; 4]>,
    halted: Vec<bool>,
    selected: Option<usize>,
}

impl Field {
    fn new(cards: &[[u8; 4]]) -> Self {
        Field { cards: cards.to_vec(), halted: vec![false; cards.len()], selected: None }
    }

    fn bit(block: &[u8], i: usize) -> bool {
        (block[i / 8] >> (i % 8)) & 1 == 1
    }

    fn answering(&self) -> Vec<usize> {
        (0..self.cards.len()).filter(|&i| !self.halted[i]).collect()
    }
}

impl LLReader for Field {
    type Error = ErrorKind;

    fn transceive(&mut self, tx: &[u8], rx: &mut [u8], opts: Frame) -> Result<usize, ErrorKind> {
        match opts {
            Frame::WupA => {
                self.halted.iter_mut().for_each(|h| *h = false);
                self.selected = None;
                if self.cards.is_empty() {
                    return Err(ErrorKind::Timeout);
                }
                rx[..2].copy_from_slice(&[0x04, 0x00]);
                Ok(16)
            }
            Frame::ReqA => {
                self.selected = None;
                if self.answering().is_empty() {
                    return Err(ErrorKind::Timeout);
                }
                rx[..2].copy_from_slice(&[0x04, 0x00]);
                Ok(16)
            }
            Frame::Anticoll { bits } => {
                assert_eq!(tx[0], 0x93);
                assert_eq!(tx[1] as usize, ((bits / 8) << 4) | (bits % 8));
                let known = bits - 16;
                let matching: Vec<usize> = self
                    .answering()
                    .into_iter()
                    .filter(|&c| (0..known).all(|i| Self::bit(&self.cards[c], i) == Self::bit(&tx[2..], i)))
                    .collect();
                if matching.is_empty() {
                    return Err(ErrorKind::Timeout);
                }
                let mut full = [0u8; 7];
                full[..2].copy_from_slice(&tx[..2]);
                let first = self.cards[matching[0]];
                full[2..6].copy_from_slice(&first);
                full[6] = first[0] ^ first[1] ^ first[2] ^ first[3];
                for i in known..32 {
                    if matching.iter().any(|&c| Self::bit(&self.cards[c], i) != Self::bit(&first, i)) {
                        // Bits from the collision on are not valid: clear them.
                        for j in i..40 {
                            full[2 + j / 8] &= !(1 << (j % 8));
                        }
                        rx[..7].copy_from_slice(&full);
                        return Ok(16 + i);
                    }
                }
                rx[..7].copy_from_slice(&full);
                Ok(56)
            }
            Frame::Standard { .. } => {
                if tx == [0x50, 0x00] {
                    if let Some(c) = self.selected.take() {
                        self.halted[c] = true;
                    }
                    return Err(ErrorKind::Timeout);
                }
                assert_eq!(&tx[..2], &[0x93, 0x70]);
                assert_eq!(tx[6], tx[2] ^ tx[3] ^ tx[4] ^ tx[5]);
                match self.answering().into_iter().find(|&c| self.cards[c] == tx[2..6]) {
                    Some(c) => {
                        self.selected = Some(c);
                        rx[0] = 0x08;
                        Ok(8)
                    }
                    None => Err(ErrorKind::Timeout),
                }
            }
        }
    }
}

#[test]
fn select_any_takes_the_card_with_ones_at_collisions() {
    let mut poller = Poller::new(Field::new(&[[0x12, 0x34, 0x56, 0x78], [0x12, 0x3c, 0x56, 0x78], [0x10, 0x00, 0x00, 0x01]]));
    let card = poller.select_any().ok().unwrap();
    assert_eq!(card.uid(), &[0x12, 0x3c, 0x56, 0x78]);
}

#[test]
fn search_lists_every_card_once() {
    let cards = [[0x12, 0x34, 0x56, 0x78], [0x12, 0x3c, 0x56, 0x78], [0x12, 0x34, 0x56, 0xf8], [0x10, 0x00, 0x00, 0x01]];
    let mut poller = Poller::new(Field::new(&cards));
    let found = poller.search::<8>().ok().unwrap();
    let mut found: Vec<Vec<u8>> = found.iter().map(|u| u.to_vec()).collect();
    found.sort();
    let mut want: Vec<Vec<u8>> = cards.iter().map(|c| c.to_vec()).collect();
    want.sort();
    assert_eq!(found, want);
}

#[test]
fn collision_at_the_first_bit_ends_the_search() {
    // The first bit of the answer collides: no new bit is learned.
    let cards = [[0x12, 0x34, 0x56, 0x78], [0x13, 0x34, 0x56, 0x78]];
    let mut poller = Poller::new(Field::new(&cards));
    assert_eq!(poller.search::<4>().ok().unwrap().len(), 0);
    let mut poller = Poller::new(Field::new(&cards));
    assert!(matches!(poller.select_any(), Err(Error::Protocol)));
}

#[test]
fn search_stops_at_its_limit() {
    let cards = [[0x12, 0x34, 0x56, 0x78], [0x12, 0x3c, 0x56, 0x78], [0x10, 0x00, 0x00, 0x01]];
    let mut poller = Poller::new(Field::new(&cards));
    let found = poller.search::<2>().ok().unwrap();
    assert_eq!(found.len(), 2);
    assert_ne!(found[0], found[1]);
    let mut poller = Poller::new(Field::new(&cards));
    assert_eq!(poller.search::<0>().ok().unwrap().len(), 0);
}

#[test]
fn search_of_an_empty_field_finds_nothing() {
    let mut poller = Poller::new(Field::new(&[]));
    assert_eq!(poller.search::<4>().ok().unwrap().len(), 0);
}

#[test]
fn search_hands_on_hard_errors() {
    let script = Script::new()
        .then_fail(&[0x26], 7, ErrorKind::Other)
        .then_fail(&[0x26], 7, ErrorKind::Other)
        .then_fail(&[0x26], 7, ErrorKind::Other)
        .then_fail(&[0x26], 7, ErrorKind::Other);
    let mut poller = Poller::new(script);
    assert!(matches!(poller.search::<4>(), Err(Error::Lower(ErrorKind::Other))));
}

#[test]
fn frames_are_built_bit_exact() {
    assert_eq!(build_anticoll(0, &[0, 0, 0, 0], 0), [0x93, 0x20, 0, 0, 0, 0]);
    assert_eq!(build_anticoll(1, &[0x12, 0x0c, 0, 0], 12), [0x95, 0x34, 0x12, 0x0c, 0, 0]);
    assert_eq!(build_anticoll(2, &[1, 2, 3, 4], 32), [0x97, 0x60, 1, 2, 3, 4]);
    assert_eq!(build_select(0, &[0xaa, 0xbb, 0xcc, 0xdd]), [0x93, 0x70, 0xaa, 0xbb, 0xcc, 0xdd, 0x00]);
    assert_eq!(build_select(1, &[0x12, 0x3c, 0x56, 0x78]), [0x95, 0x70, 0x12, 0x3c, 0x56, 0x78, 0x00]);
    assert_eq!(build_select(0, &[0x88, 0x11, 0x22, 0x33]), [0x93, 0x70, 0x88, 0x11, 0x22, 0x33, 0x88]);
    assert_eq!(build_select(2, &[1, 2, 3, 4])[0], 0x97);
    let uid = [1u8, 2, 3, 4, 5, 6, 7, 8, 9, 10];
    assert_eq!(build_cascade_block(&uid, 0, 3), [0x88, 1, 2, 3]);
    assert_eq!(build_cascade_block(&uid, 1, 3), [0x88, 4, 5, 6]);
    assert_eq!(build_cascade_block(&uid, 2, 3), [7, 8, 9, 10]);
    assert_eq!(build_cascade_block(&uid[..4], 0, 1), [1, 2, 3, 4]);
}

#[test]
fn anticollision_answers_are_classified() {
    let rx = [0x93, 0x20, 0xaa, 0xbb, 0xcc, 0xdd, 0xaa ^ 0xbb ^ 0xcc ^ 0xdd, 0];
    assert_eq!(read_anticoll(16, 56, &rx), Ok(32));
    assert_eq!(read_anticoll(16, 27, &rx), Ok(11));
    assert_eq!(read_anticoll(16, 16, &rx), Err(()));
    assert_eq!(read_anticoll(20, 18, &rx), Err(()));
    assert_eq!(read_anticoll(16, 48, &rx), Err(()));
    assert_eq!(read_anticoll(16, 55, &rx), Err(()));
    assert_eq!(read_anticoll(16, 64, &rx), Err(()));
    let bad = [0x93, 0x20, 0xaa, 0xbb, 0xcc, 0xdd, 0xe4, 0];
    assert_eq!(read_anticoll(16, 56, &bad), Err(()));
}

#[test]
fn prefer_one_sets_the_bit() {
    let mut block = [0x12, 0x04, 0, 0];
    prefer_one(&mut block, 11);
    assert_eq!(block, [0x12, 0x0c, 0, 0]);
    prefer_one(&mut block, 31);
    assert_eq!(block, [0x12, 0x0c, 0, 0x80]);
    assert!(same_bytes(&block, &[0x12, 0x0c, 0, 0x80]));
    assert!(!same_bytes(&block, &[0x12, 0x0c, 0]));
}

#[test]
fn soft_errors() {
    assert!(Error::Lower(ErrorKind::Timeout).is_soft());
    assert!(Error::<ErrorKind>::Protocol.is_soft());
    assert!(!Error::Lower(ErrorKind::Other).is_soft());
    assert!(!Error::Lower(ErrorKind::Corruption).is_soft());
}

#[test]
fn levels_are_followed_as_their_first_byte_says() {
    assert_eq!(after_level(0, &[0x01, 0x02, 0x03, 0x04]), LevelStep::Done);
    assert_eq!(after_level(2, &[0x01, 0x88, 0x03, 0x04]), LevelStep::Done);
    assert_eq!(after_level(0, &[0x88, 0x02, 0x03, 0x04]), LevelStep::Next);
    assert_eq!(after_level(1, &[0x88, 0x02, 0x03, 0x04]), LevelStep::Next);
    assert_eq!(after_level(2, &[0x88, 0x02, 0x03, 0x04]), LevelStep::TooDeep);
    assert_eq!(part_of(&[0x01, 0x02, 0x03, 0x04]), &[0x01, 0x02, 0x03, 0x04]);
    assert_eq!(part_of(&[0x88, 0x02, 0x03, 0x04]), &[0x02, 0x03, 0x04]);
    assert_eq!(part_of(&[0x01, 0x88, 0x03, 0x04]), &[0x01, 0x88, 0x03, 0x04]);
}

#[test]
fn search_goes_on_until_full_or_worn_out() {
    assert!(search_goes_on(0, 0, 1));
    assert!(search_goes_on(3, 0, 1));
    assert!(!search_goes_on(4, 0, 1));
    assert!(!search_goes_on(1, 1, 1));
    assert!(search_goes_on(7, 1, 2));
    assert!(!search_goes_on(8, 1, 2));
    assert!(!search_goes_on(0, 0, 0));
}

#[test]
fn identifiers_are_noted_once() {
    let a = heapless::Vec::<u8, 10>::from_slice(&[1, 2, 3, 4]).unwrap();
    let b = heapless::Vec::<u8, 10>::from_slice(&[1, 2, 3, 4, 5, 6, 7]).unwrap();
    let mut found = Vec::new();
    assert!(!holds(&found, &a));
    note(&mut found, a.clone());
    assert!(holds(&found, &a));
    assert!(!holds(&found, &b));
    note(&mut found, a.clone());
    assert_eq!(found.len(), 1);
    note(&mut found, b.clone());
    note(&mut found, b.clone());
    assert_eq!(found, vec![a, b]);
}

#[test]
fn search_halts_each_card_it_lists() {
    let script = Script::new()
        .then(&[0x26], 7, &[0x04, 0x00], 16)
        .then(&[0x93, 0x20], 16, &[0x01, 0x02, 0x03, 0x04, 0x04], 56)
        .then(&[0x93, 0x70, 0x01, 0x02, 0x03, 0x04, 0x04], 56, &[0x08], 8)
        .then_fail(&[0x50, 0x00], 16, ErrorKind::Timeout)
        .then_fail(&[0x26], 7, ErrorKind::Timeout)
        .then_fail(&[0x26], 7, ErrorKind::Timeout)
        .then_fail(&[0x26], 7, ErrorKind::Timeout)
        .then_fail(&[0x26], 7, ErrorKind::Timeout);
    let mut poller = Poller::new(script);
    let found = poller.search::<4>().ok().unwrap();
    assert_eq!(found.len(), 1);
    assert_eq!(&found[0][..], &[0x01, 0x02, 0x03, 0x04]);
    assert_eq!(poller.reader.pos, 8);
}

#[test]
fn search_makes_four_rounds_for_each_place() {
    // One card that does not obey HLTA is found again and again.
    let mut script = Script::new();
    for _ in 0..4 {
        script = script
            .then(&[0x26], 7, &[0x04, 0x00], 16)
            .then(&[0x93, 0x20], 16, &[0x01, 0x02, 0x03, 0x04, 0x04], 56)
            .then(&[0x93, 0x70, 0x01, 0x02, 0x03, 0x04, 0x04], 56, &[0x08], 8)
            .then(&[0x50, 0x00], 16, &[], 0);
    }
    let mut poller = Poller::new(script);
    let found = poller.search::<1>().ok().unwrap();
    assert_eq!(found.len(), 1);
    assert_eq!(poller.reader.pos, 4);
    let mut script = Script::new();
    for _ in 0..8 {
        script = script
            .then(&[0x26], 7, &[0x04, 0x00], 16)
            .then(&[0x93, 0x20], 16, &[0x01, 0x02, 0x03, 0x04, 0x04], 56)
            .then(&[0x93, 0x70, 0x01, 0x02, 0x03, 0x04, 0x04], 56, &[0x08], 8)
            .then(&[0x50, 0x00], 16, &[], 0);
    }
    let mut poller = Poller::new(script);
    let found = poller.search::<2>().ok().unwrap();
    assert_eq!(found.len(), 1);
    assert_eq!(poller.reader.pos, 32);
}

#[test]
fn search_without_room_sends_nothing() {
    let mut poller = Poller::new(Script::new());
    assert_eq!(poller.search::<0>().ok().unwrap().len(), 0);
    assert_eq!(poller.reader.pos, 0);
}

#[test]
fn search_ends_with_protocol_at_a_fourth_level() {
    let script = Script::new()
        .then(&[0x26], 7, &[0x84, 0x00], 16)
        .then(&[0x93, 0x20], 16, &[0x88, 0x01, 0x02, 0x03, 0x88], 56)
        .then(&[0x93, 0x70, 0x88, 0x01, 0x02, 0x03, 0x88], 56, &[0x04], 8)
        .then(&[0x95, 0x20], 16, &[0x88, 0x04, 0x05, 0x06, 0x8f], 56)
        .then(&[0x95, 0x70, 0x88, 0x04, 0x05, 0x06, 0x8f], 56, &[0x04], 8)
        .then(&[0x97, 0x20], 16, &[0x88, 0x08, 0x09, 0x0a, 0x83], 56)
        .then(&[0x97, 0x70, 0x88, 0x08, 0x09, 0x0a, 0x83], 56, &[0x04], 8);
    let mut poller = Poller::new(script);
    assert!(matches!(poller.search::<4>(), Err(Error::Protocol)));
}

#[test]
fn select_by_id_gives_up_after_four_tries() {
    let script = Script::new()
        .then(&[0x52], 7, &[0x04, 0x00], 16)
        .then_fail(&[0x93, 0x70, 0x01, 0x02, 0x03, 0x04, 0x04], 56, ErrorKind::Corruption)
        .then_fail(&[0x93, 0x70, 0x01, 0x02, 0x03, 0x04, 0x04], 56, ErrorKind::Corruption)
        .then_fail(&[0x93, 0x70, 0x01, 0x02, 0x03, 0x04, 0x04], 56, ErrorKind::Corruption)
        .then_fail(&[0x93, 0x70, 0x01, 0x02, 0x03, 0x04, 0x04], 56, ErrorKind::Timeout);
    let mut poller = Poller::new(script);
    assert!(matches!(poller.select_by_id(&[0x01, 0x02, 0x03, 0x04]), Err(Error::Lower(ErrorKind::Timeout))));
    assert_eq!(poller.reader.pos, 5);
}

#[test]
fn wrong_check_byte_is_asked_for_four_times() {
    let script = Script::new()
        .then(&[0x52], 7, &[0x04, 0x00], 16)
        .then(&[0x93, 0x20], 16, &[0x01, 0x02, 0x03, 0x04, 0x05], 56)
        .then(&[0x93, 0x20], 16, &[0x01, 0x02, 0x03, 0x04, 0x05], 56)
        .then(&[0x93, 0x20], 16, &[0x01, 0x02, 0x03, 0x04, 0x05], 56)
        .then(&[0x93, 0x20], 16, &[0x01, 0x02, 0x03, 0x04, 0x05], 56);
    let mut poller = Poller::new(script);
    assert!(matches!(poller.select_any(), Err(Error::Protocol)));
    assert_eq!(poller.reader.pos, 5);
}
