use rnfc::acr122u::{build_command, build_exchange, parse_exchange, parse_response, parse_target, Error, Target};

/// The reader's answer that carries `payload` as the answer to `code`.
fn answer(code: u8, payload: &[u8]) -> Vec<u8> {
    let len = 2 + payload.len() + 2;
    let mut res = vec![0x80, len as u8, (len >> 8) as u8, 0, 0, 0, 0, 0, 0x81, 0];
    res.push(0xd5);
    res.push(code + 1);
    res.extend_from_slice(payload);
    res.extend_from_slice(&[0x90, 0x00]);
    res
}

#[test]
fn command_is_wrapped_three_times() {
    assert_eq!(
        build_command(0x4a, &[0x01, 0x00]),
        vec![0x6f, 9, 0, 0, 0, 0, 0, 0, 0, 0, 0xff, 0x00, 0x00, 0x00, 0x04, 0xd4, 0x4a, 0x01, 0x00]
    );
    assert_eq!(build_command(0x02, &[]), vec![0x6f, 7, 0, 0, 0, 0, 0, 0, 0, 0, 0xff, 0x00, 0x00, 0x00, 0x02, 0xd4, 0x02]);
    let long = build_command(0x40, &[0xab; 255]);
    assert_eq!(long.len(), 17 + 255);
    assert_eq!(&long[1..5], &[6, 1, 0, 0]);
    // The length of the pseudo-APDU has one byte.
    assert_eq!(long[14], 1);
    assert_eq!(&long[15..19], &[0xd4, 0x40, 0xab, 0xab]);
}

#[test]
fn answer_is_unwrapped() {
    let res = answer(0x4a, &[1, 2, 3]);
    let (from, to) = parse_response(0x4a, &res).unwrap();
    assert_eq!(&res[from..to], &[1, 2, 3]);
    let res = answer(0x02, &[]);
    let (from, to) = parse_response(0x02, &res).unwrap();
    assert_eq!(from, to);
    // What follows the message that the header announces is left alone.
    let mut res = answer(0x40, &[9, 8]);
    res.extend_from_slice(&[0xaa, 0xbb]);
    let (from, to) = parse_response(0x40, &res).unwrap();
    assert_eq!(&res[from..to], &[9, 8]);
}

#[test]
fn faulty_answers_are_refused() {
    let good = answer(0x4a, &[1, 2, 3]);
    assert_eq!(parse_response(0x4a, &good[..9]), Err(Error::CcidLength(9)));
    assert_eq!(parse_response(0x4a, &[]), Err(Error::CcidLength(0)));

    let mut res = good.clone();
    res[0] = 0x81;
    assert_eq!(parse_response(0x4a, &res), Err(Error::CcidType(0x81)));

    let mut res = good.clone();
    res[8] = 0x40;
    assert_eq!(parse_response(0x4a, &res), Err(Error::CcidStatus(0x40)));

    assert_eq!(parse_response(0x4a, &good[..good.len() - 1]), Err(Error::CcidTooShort { said: 7, got: 16 }));
    let mut res = good.clone();
    res[4] = 0x01;
    assert_eq!(parse_response(0x4a, &res), Err(Error::CcidTooShort { said: 0x0100_0007, got: 17 }));

    let mut res = good.clone();
    res[1] = 1;
    assert_eq!(parse_response(0x4a, &res), Err(Error::ApduTooShort(1)));

    let mut res = good.clone();
    res[15] = 0x63;
    assert_eq!(parse_response(0x4a, &res), Err(Error::ApduStatus(0x63, 0x00)));
    let mut res = good.clone();
    res[16] = 0x01;
    assert_eq!(parse_response(0x4a, &res), Err(Error::ApduStatus(0x90, 0x01)));

    let short = vec![0x80, 3, 0, 0, 0, 0, 0, 0, 0x81, 0, 0xd5, 0x90, 0x00];
    assert_eq!(parse_response(0x4a, &short), Err(Error::Pn53xTooShort(1)));
    let empty = vec![0x80, 2, 0, 0, 0, 0, 0, 0, 0x81, 0, 0x90, 0x00];
    assert_eq!(parse_response(0x4a, &empty), Err(Error::Pn53xTooShort(0)));

    let mut res = good.clone();
    res[10] = 0xd4;
    assert_eq!(parse_response(0x4a, &res), Err(Error::Pn53xType(0xd4)));

    assert_eq!(parse_response(0x40, &good), Err(Error::Pn53xCommand { want: 0x41, found: 0x4b }));
}

#[test]
fn target_is_read_from_the_list() {
    let list = [0x01, 0x01, 0x04, 0x00, 0x20, 0x04, 0xaa, 0xbb, 0xcc, 0xdd, 0x05, 0x75, 0x77, 0x81, 0x02];
    let t = parse_target(&list).unwrap();
    assert_eq!(t, Target { atqa0: 0x04, atqa1: 0x00, sak: 0x20, uid_at: 6, uid_len: 4, ats_at: 10, ats_len: 5 });
    assert_eq!(&list[t.uid_at..][..t.uid_len], &[0xaa, 0xbb, 0xcc, 0xdd]);
    assert_eq!(&list[t.ats_at..][..t.ats_len], &[0x05, 0x75, 0x77, 0x81, 0x02]);

    assert_eq!(parse_target(&[0x00]), Err(Error::NoCard));
    assert_eq!(parse_target(&[]), Err(Error::NoCard));
    assert_eq!(parse_target(&[0x02, 0x01, 0x04, 0x00, 0x20, 0x00, 0x00]), Err(Error::NoCard));
    assert_eq!(parse_target(&[0x01, 0x02, 0x04, 0x00, 0x20, 0x00, 0x00]), Err(Error::Targets));
    assert_eq!(parse_target(&[0x01, 0x01, 0x04, 0x00, 0x20]), Err(Error::Targets));
    assert_eq!(parse_target(&list[..9]), Err(Error::Targets));
    assert_eq!(parse_target(&list[..10]), Err(Error::Targets));
    assert_eq!(parse_target(&list[..14]), Err(Error::Targets));
    // A list whose ATS has only its length byte.
    let t = parse_target(&[0x01, 0x01, 0x44, 0x00, 0x00, 0x00, 0x01]).unwrap();
    assert_eq!((t.uid_len, t.ats_at, t.ats_len), (0, 6, 1));
}

#[test]
fn data_is_exchanged_with_the_first_target() {
    assert_eq!(build_exchange(&[0x30, 0x04]), vec![0x01, 0x30, 0x04]);
    assert_eq!(build_exchange(&[]), vec![0x01]);

    let mut rx = [0xeeu8; 4];
    assert_eq!(parse_exchange(&[0x00, 1, 2, 3], &mut rx), Ok(3));
    assert_eq!(rx, [1, 2, 3, 0xee]);
    assert_eq!(parse_exchange(&[0x00], &mut rx), Ok(0));
    assert_eq!(rx, [1, 2, 3, 0xee]);
    assert_eq!(parse_exchange(&[0x01, 9, 9], &mut rx), Err(Error::Exchange(0x01)));
    assert_eq!(parse_exchange(&[], &mut rx), Err(Error::Exchange(0xff)));
    assert_eq!(parse_exchange(&[0x00, 1, 2, 3, 4, 5], &mut rx), Err(Error::TooLong(5)));
    assert_eq!(rx, [1, 2, 3, 0xee]);
}
