use rnfc::iso_dep::{
    frame_size, frame_size_code, parse_ats, rats, waiting_time_1fc, Error, Exchange, IsoDepA, Send,
};
use rnfc::traits::iso14443a::Reader;
use rnfc::traits::iso14443a_ll::ErrorKind;

struct MockReader {
    expected: Vec<Round>,
    pos: usize,
}

type Round = (&'static [u8], Result<&'static [u8], ErrorKind>);

fn ok(tx: &'static [u8], rx: &'static [u8]) -> Round {
    (tx, Ok(rx))
}

fn timeout(tx: &'static [u8]) -> Round {
    (tx, Err(ErrorKind::Timeout))
}

fn mock(expected: Vec<Round>) -> MockReader {
    MockReader { expected, pos: 0 }
}

impl Reader for MockReader {
    type Error = ErrorKind;

    fn transceive(&mut self, tx: &[u8], rx: &mut [u8], _: u32) -> Result<usize, Self::Error> {
        if self.pos >= self.expected.len() {
            panic!("unexpected transceive!\n         got: {:02x?}", tx);
        }

        let (expected_tx, expected_rx) = self.expected[self.pos];
        if tx != expected_tx {
            panic!("unexpected tx!\n    expected: {:02x?}\n         got: {:02x?}", expected_tx, tx);
        }

        self.pos += 1;
        match expected_rx {
            Ok(expected_rx) => {
                rx[..expected_rx.len()].copy_from_slice(expected_rx);
                Ok(expected_rx.len())
            }
            Err(e) => Err(e),
        }
    }

    fn atqa(&self) -> [u8; 2] {
        unreachable!()
    }

    fn sak(&self) -> u8 {
        unreachable!()
    }

    fn uid(&self) -> &[u8] {
        unreachable!()
    }
}

/// Runs one exchange to its end, round by round.
fn transceive(x: &mut IsoDepA<MockReader>, tx: &[u8], rx: &mut [u8]) -> Result<usize, Error<ErrorKind>> {
    let mut ex: Exchange = x.begin();
    loop {
        if let Some(n) = x.step(&mut ex, tx, rx)? {
            return Ok(n);
        }
    }
}

fn trx(x: &mut IsoDepA<MockReader>, tx: &[u8], expected_rx: &[u8]) {
    let mut buf = [0u8; 256];
    let n = transceive(x, tx, &mut buf).unwrap();
    let rx = &buf[..n];
    if rx != expected_rx {
        panic!("unexpected rx!\n    expected: {:02x?}\n         got: {:02x?}", expected_rx, rx);
    }
}

fn trx_err(x: &mut IsoDepA<MockReader>, tx: &[u8], err: Error<ErrorKind>) {
    let mut buf = [0u8; 256];
    let res = transceive(x, tx, &mut buf);
    assert_eq!(res, Err(err));
}

#[test]
fn test_init() {
    // Nothing present.
    let m = mock(vec![
        ok(&[0xe0, 0x80], &[0x01]),
    ]);
    let x = IsoDepA::new(m).unwrap();
    assert_eq!(x.fsc, 32);
    assert_eq!(x.sfgt_1fc, 256 * 16);
    assert_eq!(x.fwt_1fc, 256 * 16 * 16);

    // T0 present, nothing else.
    let m = mock(vec![
        ok(&[0xe0, 0x80], &[0x02, 0x05]),
    ]);
    let x = IsoDepA::new(m).unwrap();
    assert_eq!(x.fsc, 64);
    assert_eq!(x.sfgt_1fc, 256 * 16);
    assert_eq!(x.fwt_1fc, 256 * 16 * 16);

    // TA not present, TB present
    let m = mock(vec![
        ok(&[0xe0, 0x80], &[0x05, 0x67, 0x81, 0x02, 0x80]),
    ]);
    let x = IsoDepA::new(m).unwrap();
    assert_eq!(x.fsc, 128);
    assert_eq!(x.sfgt_1fc, 8192);
    assert_eq!(x.fwt_1fc, 1048576);

    // TA present, TB present
    let m = mock(vec![
        ok(&[0xe0, 0x80], &[0x06, 0x77, 0x77, 0x81, 0x02, 0x80]),
    ]);
    let x = IsoDepA::new(m).unwrap();
    assert_eq!(x.fsc, 128);
    assert_eq!(x.sfgt_1fc, 8192);
    assert_eq!(x.fwt_1fc, 1048576);
}

#[test]
fn test_exchange_iblocks() {
    let m = mock(vec![
        ok(&[0xe0, 0x80], &[0x06, 0x77, 0x77, 0x81, 0x02, 0x80]),
        ok(&[0x02, 0x12, 0x34], &[0x02, 0x56, 0x78]),
        ok(&[0x03, 0xaa, 0xbb], &[0x03, 0xcc, 0xdd]),
    ]);
    let x = &mut IsoDepA::new(m).unwrap();
    trx(x, &[0x12, 0x34], &[0x56, 0x78]);
    trx(x, &[0xaa, 0xbb], &[0xcc, 0xdd]);
}

#[test]
fn test_request_wtx() {
    let m = mock(vec![
        ok(&[0xe0, 0x80], &[0x06, 0x77, 0x77, 0x81, 0x02, 0x80]),
        ok(&[0x02, 0x12, 0x34], &[0xf2, 0xc1]),
        ok(&[0xf2, 0x01], &[0xf2, 0xc1]),
        ok(&[0xf2, 0x01], &[0x02, 0x56, 0x78]),
        ok(&[0x03, 0xaa, 0xbb], &[0x03, 0xcc, 0xdd]),
    ]);
    let x = &mut IsoDepA::new(m).unwrap();
    trx(x, &[0x12, 0x34], &[0x56, 0x78]);
    trx(x, &[0xaa, 0xbb], &[0xcc, 0xdd]);
}

#[test]
fn test_pcd_chaining() {
    let m = mock(vec![
        ok(&[0xe0, 0x80], &[0x06, 0x77, 0x77, 0x81, 0x02, 0x80]),
        ok(&[0x12, 0x00, 0x11, 0x22, 0x33, 0x44, 0x55, 0x66], &[0xa2]),
        ok(&[0x13, 0x77, 0x88, 0x99, 0xaa, 0xbb, 0xcc, 0xdd], &[0xa3]),
        ok(&[0x02, 0xee, 0xff], &[0x02, 0xcc, 0xdd]),
        ok(&[0x03, 0xaa, 0xbb], &[0x03, 0xcc, 0xdd]),
    ]);
    let x = &mut IsoDepA::new(m).unwrap();
    x.fsc = 10;
    trx(x, &[0x00, 0x11, 0x22, 0x33, 0x44, 0x55, 0x66, 0x77, 0x88, 0x99, 0xaa, 0xbb, 0xcc, 0xdd, 0xee, 0xff], &[0xcc, 0xdd]);
    trx(x, &[0xaa, 0xbb], &[0xcc, 0xdd]);
}

#[test]
fn test_picc_chaining() {
    let m = mock(vec![
        ok(&[0xe0, 0x80], &[0x06, 0x77, 0x77, 0x81, 0x02, 0x80]),
        ok(&[0x02, 0x12, 0x34], &[0x12, 0x00, 0x11, 0x22, 0x33, 0x44, 0x55, 0x66]),
        ok(&[0xa3], &[0x13, 0x77, 0x88, 0x99, 0xaa, 0xbb, 0xcc, 0xdd]),
        ok(&[0xa2], &[0x02, 0xee, 0xff]),
        ok(&[0x03, 0xaa, 0xbb], &[0x03, 0xcc, 0xdd]),
    ]);
    let x = &mut IsoDepA::new(m).unwrap();
    x.fsc = 10;
    trx(x, &[0x12, 0x34], &[0x00, 0x11, 0x22, 0x33, 0x44, 0x55, 0x66, 0x77, 0x88, 0x99, 0xaa, 0xbb, 0xcc, 0xdd, 0xee, 0xff]);
    trx(x, &[0xaa, 0xbb], &[0xcc, 0xdd]);
}

#[test]
fn test_error_iblock_start() {
    let m = mock(vec![
        ok(&[0xe0, 0x80], &[0x06, 0x77, 0x77, 0x81, 0x02, 0x80]),
        timeout(&[0x02, 0x11, 0x22]),
        ok(&[0xb2], &[0xa3]),
        ok(&[0x02, 0x11, 0x22], &[0x02, 0x33, 0x44]),
        ok(&[0x03, 0x55, 0x66], &[0x03, 0x77, 0x88]),
        ok(&[0x02, 0x99, 0xaa], &[0x02, 0xbb, 0xcc]),
    ]);
    let x = &mut IsoDepA::new(m).unwrap();
    trx(x, &[0x11, 0x22], &[0x33, 0x44]);
    trx(x, &[0x55, 0x66], &[0x77, 0x88]);
    trx(x, &[0x99, 0xaa], &[0xbb, 0xcc]);
}

#[test]
fn test_error_iblock() {
    let m = mock(vec![
        ok(&[0xe0, 0x80], &[0x06, 0x77, 0x77, 0x81, 0x02, 0x80]),
        ok(&[0x02, 0x11, 0x22], &[0x02, 0x33, 0x44]),
        timeout(&[0x03, 0x55, 0x66]),
        ok(&[0xb3], &[0xa2]),
        ok(&[0x03, 0x55, 0x66], &[0x03, 0x77, 0x88]),
        ok(&[0x02, 0x99, 0xaa], &[0x02, 0xbb, 0xcc]),
    ]);
    let x = &mut IsoDepA::new(m).unwrap();
    trx(x, &[0x11, 0x22], &[0x33, 0x44]);
    trx(x, &[0x55, 0x66], &[0x77, 0x88]);
    trx(x, &[0x99, 0xaa], &[0xbb, 0xcc]);
}

#[test]
fn test_error_iblock_2() {
    let m = mock(vec![
        ok(&[0xe0, 0x80], &[0x06, 0x77, 0x77, 0x81, 0x02, 0x80]),
        timeout(&[0x02, 0x11, 0x22]),
        ok(&[0xb2], &[0x02, 0x33, 0x44]),
        ok(&[0x03, 0x55, 0x66], &[0x03, 0x77, 0x88]),
    ]);
    let x = &mut IsoDepA::new(m).unwrap();
    trx(x, &[0x11, 0x22], &[0x33, 0x44]);
    trx(x, &[0x55, 0x66], &[0x77, 0x88]);
}

#[test]
fn test_error_iblock_3() {
    let m = mock(vec![
        ok(&[0xe0, 0x80], &[0x06, 0x77, 0x77, 0x81, 0x02, 0x80]),
        timeout(&[0x02, 0x11, 0x22]),
        timeout(&[0xb2]),
        ok(&[0xb2], &[0x02, 0x33, 0x44]),
        ok(&[0x03, 0x55, 0x66], &[0x03, 0x77, 0x88]),
    ]);
    let x = &mut IsoDepA::new(m).unwrap();
    trx(x, &[0x11, 0x22], &[0x33, 0x44]);
    trx(x, &[0x55, 0x66], &[0x77, 0x88]);
}

#[test]
fn test_error_wtx_1() {
    let m = mock(vec![
        ok(&[0xe0, 0x80], &[0x06, 0x77, 0x77, 0x81, 0x02, 0x80]),
        timeout(&[0x02, 0x11, 0x22]),
        ok(&[0xb2], &[0xf2, 0xc1]),
        ok(&[0xf2, 0x01], &[0x02, 0x33, 0x44]),
        ok(&[0x03, 0x55, 0x66], &[0x03, 0x77, 0x88]),
    ]);
    let x = &mut IsoDepA::new(m).unwrap();
    trx(x, &[0x11, 0x22], &[0x33, 0x44]);
    trx(x, &[0x55, 0x66], &[0x77, 0x88]);
}

#[test]
fn test_error_wtx_2() {
    let m = mock(vec![
        ok(&[0xe0, 0x80], &[0x06, 0x77, 0x77, 0x81, 0x02, 0x80]),
        timeout(&[0x02, 0x11, 0x22]),
        timeout(&[0xb2]),
        ok(&[0xb2], &[0xf2, 0xc1]),
        ok(&[0xf2, 0x01], &[0x02, 0x33, 0x44]),
        ok(&[0x03, 0x55, 0x66], &[0x03, 0x77, 0x88]),
    ]);
    let x = &mut IsoDepA::new(m).unwrap();
    trx(x, &[0x11, 0x22], &[0x33, 0x44]);
    trx(x, &[0x55, 0x66], &[0x77, 0x88]);
}

#[test]
fn test_error_wtx_3() {
    let m = mock(vec![
        ok(&[0xe0, 0x80], &[0x06, 0x77, 0x77, 0x81, 0x02, 0x80]),
        ok(&[0x02, 0x11, 0x22], &[0xf2, 0xc1]),
        timeout(&[0xf2, 0x01]),
        ok(&[0xb2], &[0xf2, 0xc1]),
        ok(&[0xf2, 0x01], &[0x02, 0x33, 0x44]),
        ok(&[0x03, 0x55, 0x66], &[0x03, 0x77, 0x88]),
    ]);
    let x = &mut IsoDepA::new(m).unwrap();
    trx(x, &[0x11, 0x22], &[0x33, 0x44]);
    trx(x, &[0x55, 0x66], &[0x77, 0x88]);
}

#[test]
fn test_error_wtx_4() {
    let m = mock(vec![
        ok(&[0xe0, 0x80], &[0x06, 0x77, 0x77, 0x81, 0x02, 0x80]),
        ok(&[0x02, 0x11, 0x22], &[0xf2, 0xc1]),
        timeout(&[0xf2, 0x01]),
        ok(&[0xb2], &[0x02, 0x33, 0x44]),
        ok(&[0x03, 0x55, 0x66], &[0x03, 0x77, 0x88]),
    ]);
    let x = &mut IsoDepA::new(m).unwrap();
    trx(x, &[0x11, 0x22], &[0x33, 0x44]);
    trx(x, &[0x55, 0x66], &[0x77, 0x88]);
}

#[test]
fn test_error_wtx_5() {
    let m = mock(vec![
        ok(&[0xe0, 0x80], &[0x06, 0x77, 0x77, 0x81, 0x02, 0x80]),
        ok(&[0x02, 0x11, 0x22], &[0xf2, 0xc1]),
        timeout(&[0xf2, 0x01]),
        timeout(&[0xb2]),
        ok(&[0xb2], &[0x02, 0x33, 0x44]),
        ok(&[0x03, 0x55, 0x66], &[0x03, 0x77, 0x88]),
    ]);
    let x = &mut IsoDepA::new(m).unwrap();
    trx(x, &[0x11, 0x22], &[0x33, 0x44]);
    trx(x, &[0x55, 0x66], &[0x77, 0x88]);
}

#[test]
fn test_error_pcd_chaining_1() {
    let m = mock(vec![
        ok(&[0xe0, 0x80], &[0x06, 0x77, 0x77, 0x81, 0x02, 0x80]),
        timeout(&[0x12, 0x00, 0x11, 0x22, 0x33, 0x44, 0x55, 0x66]),
        ok(&[0xb2], &[0xa2]),
        ok(&[0x13, 0x77, 0x88, 0x99, 0xaa, 0xbb, 0xcc, 0xdd], &[0xa3]),
        ok(&[0x02, 0xee, 0xff], &[0x02, 0xcc, 0xdd]),
        ok(&[0x03, 0xaa, 0xbb], &[0x03, 0xcc, 0xdd]),
    ]);
    let x = &mut IsoDepA::new(m).unwrap();
    x.fsc = 10;
    trx(x, &[0x00, 0x11, 0x22, 0x33, 0x44, 0x55, 0x66, 0x77, 0x88, 0x99, 0xaa, 0xbb, 0xcc, 0xdd, 0xee, 0xff], &[0xcc, 0xdd]);
    trx(x, &[0xaa, 0xbb], &[0xcc, 0xdd]);
}

#[test]
fn test_error_pcd_chaining_2() {
    let m = mock(vec![
        ok(&[0xe0, 0x80], &[0x06, 0x77, 0x77, 0x81, 0x02, 0x80]),
        ok(&[0x12, 0x00, 0x11, 0x22, 0x33, 0x44, 0x55, 0x66], &[0xa2]),
        timeout(&[0x13, 0x77, 0x88, 0x99, 0xaa, 0xbb, 0xcc, 0xdd]),
        ok(&[0xb3], &[0xa2]),
        ok(&[0x13, 0x77, 0x88, 0x99, 0xaa, 0xbb, 0xcc, 0xdd], &[0xa3]),
        ok(&[0x02, 0xee, 0xff], &[0x02, 0xcc, 0xdd]),
        ok(&[0x03, 0xaa, 0xbb], &[0x03, 0xcc, 0xdd]),
    ]);
    let x = &mut IsoDepA::new(m).unwrap();
    x.fsc = 10;
    trx(x, &[0x00, 0x11, 0x22, 0x33, 0x44, 0x55, 0x66, 0x77, 0x88, 0x99, 0xaa, 0xbb, 0xcc, 0xdd, 0xee, 0xff], &[0xcc, 0xdd]);
    trx(x, &[0xaa, 0xbb], &[0xcc, 0xdd]);
}

#[test]
fn test_error_pcd_chaining_3() {
    let m = mock(vec![
        ok(&[0xe0, 0x80], &[0x06, 0x77, 0x77, 0x81, 0x02, 0x80]),
        timeout(&[0x12, 0x00, 0x11, 0x22, 0x33, 0x44, 0x55, 0x66]),
        timeout(&[0xb2]),
        ok(&[0xb2], &[0xa2]),
        ok(&[0x13, 0x77, 0x88, 0x99, 0xaa, 0xbb, 0xcc, 0xdd], &[0xa3]),
        ok(&[0x02, 0xee, 0xff], &[0x02, 0xcc, 0xdd]),
        ok(&[0x03, 0xaa, 0xbb], &[0x03, 0xcc, 0xdd]),
    ]);
    let x = &mut IsoDepA::new(m).unwrap();
    x.fsc = 10;
    trx(x, &[0x00, 0x11, 0x22, 0x33, 0x44, 0x55, 0x66, 0x77, 0x88, 0x99, 0xaa, 0xbb, 0xcc, 0xdd, 0xee, 0xff], &[0xcc, 0xdd]);
    trx(x, &[0xaa, 0xbb], &[0xcc, 0xdd]);
}

#[test]
fn test_error_picc_chaining_1() {
    let m = mock(vec![
        ok(&[0xe0, 0x80], &[0x06, 0x77, 0x77, 0x81, 0x02, 0x80]),
        ok(&[0x02, 0x12, 0x34], &[0x12, 0x00, 0x11, 0x22, 0x33, 0x44, 0x55, 0x66]),
        timeout(&[0xa3]),
        ok(&[0xa3], &[0x13, 0x77, 0x88, 0x99, 0xaa, 0xbb, 0xcc, 0xdd]),
        ok(&[0xa2], &[0x02, 0xee, 0xff]),
        ok(&[0x03, 0xaa, 0xbb], &[0x03, 0xcc, 0xdd]),
    ]);
    let x = &mut IsoDepA::new(m).unwrap();
    x.fsc = 10;
    trx(x, &[0x12, 0x34], &[0x00, 0x11, 0x22, 0x33, 0x44, 0x55, 0x66, 0x77, 0x88, 0x99, 0xaa, 0xbb, 0xcc, 0xdd, 0xee, 0xff]);
    trx(x, &[0xaa, 0xbb], &[0xcc, 0xdd]);
}

#[test]
fn test_error_retries() {
    let m = mock(vec![
        ok(&[0xe0, 0x80], &[0x06, 0x77, 0x77, 0x81, 0x02, 0x80]),
        timeout(&[0x02, 0x12, 0x34]),
        timeout(&[0xb2]),
        timeout(&[0xb2]),
        timeout(&[0xb2]),
        timeout(&[0xb2]),
        timeout(&[0xb2]),
        timeout(&[0xb2]),
        timeout(&[0xb2]),
        timeout(&[0xb2]),
        timeout(&[0xb2]),
        timeout(&[0xb2]),
        timeout(&[0xb2]),
        timeout(&[0xb2]),
        timeout(&[0xb2]),
        timeout(&[0xb2]),
        timeout(&[0xb2]),
        timeout(&[0xb2]),
        timeout(&[0xb2]),
        timeout(&[0xb2]),
    ]);
    let x = &mut IsoDepA::new(m).unwrap();
    x.fsc = 10;
    trx_err(x, &[0x12, 0x34], Error::Communication);
}

#[test]
fn ats_with_frame_size_code_above_8_is_refused() {
    let m = mock(vec![ok(&[0xe0, 0x80], &[0x02, 0x09])]);
    assert!(matches!(IsoDepA::new(m), Err(Error::Protocol)));
}

#[test]
fn ats_with_waiting_time_exponent_15_is_refused() {
    let m = mock(vec![ok(&[0xe0, 0x80], &[0x03, 0x22, 0xf0])]);
    assert!(matches!(IsoDepA::new(m), Err(Error::Protocol)));
}

#[test]
fn rats_failure_is_handed_on() {
    let m = mock(vec![timeout(&[0xe0, 0x80])]);
    assert!(matches!(IsoDepA::new(m), Err(Error::Iso14443a(ErrorKind::Timeout))));
}

#[test]
fn block_number_toggles_once_per_plain_exchange() {
    let m = mock(vec![
        ok(&[0xe0, 0x80], &[0x06, 0x77, 0x77, 0x81, 0x02, 0x80]),
        ok(&[0x02, 0x12, 0x34], &[0x02, 0x56, 0x78]),
    ]);
    let x = &mut IsoDepA::new(m).unwrap();
    assert_eq!(x.block_num, 0);
    trx(x, &[0x12, 0x34], &[0x56, 0x78]);
    assert_eq!(x.block_num, 1);
}

#[test]
fn block_number_after_pcd_chaining() {
    let m = mock(vec![
        ok(&[0xe0, 0x80], &[0x06, 0x77, 0x77, 0x81, 0x02, 0x80]),
        ok(&[0x12, 0x00, 0x11, 0x22, 0x33, 0x44, 0x55, 0x66], &[0xa2]),
        ok(&[0x13, 0x77, 0x88, 0x99, 0xaa, 0xbb, 0xcc, 0xdd], &[0xa3]),
        ok(&[0x02, 0xee, 0xff], &[0x02, 0xcc, 0xdd]),
    ]);
    let x = &mut IsoDepA::new(m).unwrap();
    x.fsc = 10;
    trx(
        x,
        &[0x00, 0x11, 0x22, 0x33, 0x44, 0x55, 0x66, 0x77, 0x88, 0x99, 0xaa, 0xbb, 0xcc, 0xdd, 0xee, 0xff],
        &[0xcc, 0xdd],
    );
    assert_eq!(x.block_num, 1);
}

#[test]
fn timeout_keeps_block_number() {
    let m = mock(vec![
        ok(&[0xe0, 0x80], &[0x06, 0x77, 0x77, 0x81, 0x02, 0x80]),
        timeout(&[0x02, 0x11, 0x22]),
    ]);
    let x = &mut IsoDepA::new(m).unwrap();
    let mut ex = x.begin();
    let mut buf = [0u8; 16];
    assert_eq!(x.step(&mut ex, &[0x11, 0x22], &mut buf), Ok(None));
    assert_eq!(x.block_num, 0);
    assert_eq!(ex.retries, 1);
    assert_eq!(ex.send, Send::Nak);
}

#[test]
fn answer_larger_than_buffer_is_refused() {
    let m = mock(vec![
        ok(&[0xe0, 0x80], &[0x06, 0x77, 0x77, 0x81, 0x02, 0x80]),
        ok(&[0x02, 0x12, 0x34], &[0x02, 0x56, 0x78, 0x9a]),
    ]);
    let x = &mut IsoDepA::new(m).unwrap();
    let mut buf = [0u8; 2];
    assert_eq!(transceive(x, &[0x12, 0x34], &mut buf), Err(Error::RxFrameTooBig));
    assert_eq!(x.block_num, 0);
}

#[test]
fn other_reader_error_is_handed_on() {
    let m = mock(vec![
        ok(&[0xe0, 0x80], &[0x06, 0x77, 0x77, 0x81, 0x02, 0x80]),
        (&[0x02, 0x12, 0x34], Err(ErrorKind::Other)),
    ]);
    let x = &mut IsoDepA::new(m).unwrap();
    trx_err(x, &[0x12, 0x34], Error::Iso14443a(ErrorKind::Other));
}

#[test]
fn unknown_block_is_a_protocol_error() {
    let m = mock(vec![
        ok(&[0xe0, 0x80], &[0x06, 0x77, 0x77, 0x81, 0x02, 0x80]),
        ok(&[0x02, 0x12, 0x34], &[0x42]),
    ]);
    let x = &mut IsoDepA::new(m).unwrap();
    trx_err(x, &[0x12, 0x34], Error::Protocol);
}

#[test]
fn empty_answer_is_a_protocol_error() {
    let m = mock(vec![
        ok(&[0xe0, 0x80], &[0x06, 0x77, 0x77, 0x81, 0x02, 0x80]),
        ok(&[0x02, 0x12, 0x34], &[]),
    ]);
    let x = &mut IsoDepA::new(m).unwrap();
    trx_err(x, &[0x12, 0x34], Error::Protocol);
}

#[test]
fn ack_for_the_last_block_is_a_protocol_error() {
    let m = mock(vec![
        ok(&[0xe0, 0x80], &[0x06, 0x77, 0x77, 0x81, 0x02, 0x80]),
        ok(&[0x02, 0x12, 0x34], &[0xa2]),
    ]);
    let x = &mut IsoDepA::new(m).unwrap();
    trx_err(x, &[0x12, 0x34], Error::Protocol);
}

#[test]
fn wtx_multiplies_the_waiting_time() {
    let m = mock(vec![ok(&[0xe0, 0x80], &[0x06, 0x77, 0x77, 0x81, 0x02, 0x80])]);
    let x = IsoDepA::new(m).unwrap();
    let ex = Exchange { send: Send::Wtx(3), ..x.begin() };
    let mut buf = [0u8; 254];
    let (len, fwt) = x.frame(&ex, &[], &mut buf);
    assert_eq!(&buf[..len], &[0xf2, 0x03]);
    assert_eq!(fwt, 3 * 1048576);
}

#[test]
fn deselect_expects_its_echo() {
    let m = mock(vec![
        ok(&[0xe0, 0x80], &[0x06, 0x77, 0x77, 0x81, 0x02, 0x80]),
        ok(&[0xc2], &[0xc2]),
        ok(&[0xc2], &[0xc3]),
    ]);
    let x = &mut IsoDepA::new(m).unwrap();
    assert_eq!(x.deselect(), Ok(()));
    assert_eq!(x.deselect(), Err(Error::Protocol));
}

#[test]
fn frame_size_table_round_trip() {
    for fsc in [16usize, 24, 32, 40, 48, 64, 96, 128, 256] {
        let fsci = frame_size_code(fsc).unwrap();
        assert_eq!(frame_size(fsci as usize), Some(fsc));
    }
    assert_eq!(frame_size(9), None);
    assert_eq!(frame_size_code(20), None);
    assert_eq!(frame_size(8), Some(256));
    assert_eq!(rats(), [0xe0, 0x80]);
}

#[test]
fn wtx_request_is_granted_once() {
    let m = mock(vec![
        ok(&[0xe0, 0x80], &[0x06, 0x77, 0x77, 0x81, 0x02, 0x80]),
        ok(&[0x02, 0x12, 0x34], &[0xf2, 0xc1]),
        ok(&[0xf2, 0x01], &[0x02, 0x56, 0x78]),
    ]);
    let x = &mut IsoDepA::new(m).unwrap();
    trx(x, &[0x12, 0x34], &[0x56, 0x78]);
    assert_eq!(x.block_num, 1);
    assert_eq!(x.card.pos, 3);
}

#[test]
fn timeout_is_answered_with_nak() {
    let m = mock(vec![
        ok(&[0xe0, 0x80], &[0x06, 0x77, 0x77, 0x81, 0x02, 0x80]),
        timeout(&[0x02, 0x11, 0x22]),
        ok(&[0xb2], &[0x02, 0x33, 0x44]),
    ]);
    let x = &mut IsoDepA::new(m).unwrap();
    trx(x, &[0x11, 0x22], &[0x33, 0x44]);
    assert_eq!(x.block_num, 1);
}

#[test]
fn corruption_is_retried_like_a_timeout() {
    let m = mock(vec![
        ok(&[0xe0, 0x80], &[0x06, 0x77, 0x77, 0x81, 0x02, 0x80]),
        (&[0x02, 0x11, 0x22], Err(ErrorKind::Corruption)),
        ok(&[0xb2], &[0x02, 0x33, 0x44]),
    ]);
    let x = &mut IsoDepA::new(m).unwrap();
    trx(x, &[0x11, 0x22], &[0x33, 0x44]);
}

#[test]
fn a_success_resets_the_retry_count() {
    // Nine failures, a request for more time, and nine failures again do not end the exchange.
    let mut rounds = vec![ok(&[0xe0, 0x80], &[0x06, 0x77, 0x77, 0x81, 0x02, 0x80]), timeout(&[0x02, 0x11, 0x22])];
    for _ in 0..8 {
        rounds.push(timeout(&[0xb2]));
    }
    rounds.push(ok(&[0xb2], &[0xf2, 0x01]));
    rounds.push(timeout(&[0xf2, 0x01]));
    for _ in 0..8 {
        rounds.push(timeout(&[0xb2]));
    }
    rounds.push(ok(&[0xb2], &[0x02, 0x33, 0x44]));
    let x = &mut IsoDepA::new(mock(rounds)).unwrap();
    trx(x, &[0x11, 0x22], &[0x33, 0x44]);
}

#[test]
fn chained_answer_is_put_together_in_the_buffer() {
    let m = mock(vec![
        ok(&[0xe0, 0x80], &[0x06, 0x77, 0x77, 0x81, 0x02, 0x80]),
        ok(&[0x02, 0x12, 0x34], &[0x12, 0x00, 0x11]),
        ok(&[0xa3], &[0x13]),
        ok(&[0xa2], &[0x02, 0x22, 0x33, 0x44]),
    ]);
    let x = &mut IsoDepA::new(m).unwrap();
    let mut buf = [0xeeu8; 8];
    assert_eq!(transceive(x, &[0x12, 0x34], &mut buf), Ok(5));
    assert_eq!(buf, [0x00, 0x11, 0x22, 0x33, 0x44, 0xee, 0xee, 0xee]);
    assert_eq!(x.block_num, 1);
}

#[test]
fn ats_parameters() {
    let p = parse_ats(&[0x06, 0x77, 0x77, 0x81, 0x02, 0x80]);
    assert_eq!((p.fsci, p.sfgi, p.fwi), (7, 1, 8));
    let p = parse_ats(&[]);
    assert_eq!((p.fsci, p.sfgi, p.fwi), (2, 0, 4));
    // TB is announced but the ATS ends before it.
    let p = parse_ats(&[0x03, 0x35, 0x00]);
    assert_eq!((p.fsci, p.sfgi, p.fwi), (5, 0, 4));
    let p = parse_ats(&[0x04, 0x35, 0x00, 0x9a]);
    assert_eq!((p.fsci, p.sfgi, p.fwi), (5, 10, 9));
    assert_eq!(waiting_time_1fc(0), 4096);
    assert_eq!(waiting_time_1fc(4), 65536);
    assert_eq!(waiting_time_1fc(14), 67108864);
    assert_eq!(waiting_time_1fc(15), 134217728);
}
