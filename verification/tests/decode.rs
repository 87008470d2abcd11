use bytes::BytesMut;
use jekuthiel::codec::BNetPCodec;
use jekuthiel::codec::DecodeState;
use jekuthiel::error::DecodeError;
use jekuthiel::error::FramingError;
use jekuthiel::error::PayloadDecodeError;
use jekuthiel::packets::c2s;
use jekuthiel::packets::s2c::AuthAccountLogon;
use jekuthiel::packets::s2c::AuthAccountLogonProof;
use jekuthiel::packets::s2c::AuthCheck;
use jekuthiel::packets::s2c::ChatEvent;
use jekuthiel::packets::s2c::ChatEventID;
use jekuthiel::packets::s2c::EnterChat;
use jekuthiel::packets::s2c::GetAdvListExStatus;
use jekuthiel::packets::s2c::PacketReader;
use jekuthiel::packets::s2c::Ping;
use jekuthiel::packets::s2c::StartAdvEx3;
use jekuthiel::packets::s2c::StartAdvEx3Status;
use jekuthiel::packets::BNetIncomingPacket;
use jekuthiel::packets::BNetOutgoingPacket;
use jekuthiel::packets::PacketID;
use jekuthiel::reader;

fn framed(code: u8, payload: &[u8]) -> Vec<u8> {
    let total = payload.len() + 4;
    let mut bytes = vec![0xFF, code, (total % 256) as u8, (total / 256) as u8];
    bytes.extend_from_slice(payload);
    bytes
}

fn decode_whole(bytes: &[u8]) -> (Vec<BNetIncomingPacket>, Option<DecodeError>) {
    let mut codec = BNetPCodec::new();
    let mut src = BytesMut::from(bytes);
    codec.decode_all(&mut src)
}

fn game(name: &[u8], port: u16) -> Vec<u8> {
    let mut bytes = vec![];
    bytes.extend_from_slice(&[1, 0, 0, 0]);
    bytes.extend_from_slice(&[2, 0, 0, 0]);
    bytes.extend_from_slice(&[2, 0]);
    bytes.extend_from_slice(&[(port % 256) as u8, (port / 256) as u8]);
    bytes.extend_from_slice(&[10, 0, 0, 1]);
    bytes.extend_from_slice(&[0; 8]);
    bytes.extend_from_slice(&[4, 0, 0, 0]);
    bytes.extend_from_slice(&[5, 0, 0, 0]);
    bytes.extend_from_slice(name);
    bytes.push(0);
    bytes.extend_from_slice(b"pw\0");
    bytes.extend_from_slice(b"stat\0");
    bytes
}

fn auth_info_response(server_token: u32, signature: &[u8; 128]) -> Vec<u8> {
    let mut payload = vec![];
    payload.extend_from_slice(&[2, 0, 0, 0]);
    payload.extend_from_slice(&server_token.to_le_bytes());
    payload.extend_from_slice(&[7, 0, 0, 0]);
    payload.extend_from_slice(&0x0102030405060708u64.to_le_bytes());
    payload.extend_from_slice(b"ver-IX86-1.mpq\0");
    payload.extend_from_slice(b"A=1 B=2\0");
    payload.extend_from_slice(signature);
    framed(0x50, &payload)
}

#[test]
fn read_u16_takes_two_bytes() {
    let mut buf = BytesMut::from(&[0x34, 0x12, 9][..]);
    assert_eq!(reader::read_u16(&mut buf), Ok(0x1234));
    assert_eq!(&buf[..], &[9][..]);
    assert_eq!(reader::read_u16(&mut buf), Err(PayloadDecodeError::ShortField));
    assert_eq!(&buf[..], &[9][..]);
}

#[test]
fn read_u32_takes_four_bytes() {
    let mut buf = BytesMut::from(&[0xA1, 0xA0, 0x09, 0x08, 1, 2, 3][..]);
    assert_eq!(reader::read_u32(&mut buf), Ok(0x0809A0A1));
    assert_eq!(&buf[..], &[1, 2, 3][..]);
    assert_eq!(reader::read_u32(&mut buf), Err(PayloadDecodeError::ShortField));
}

#[test]
fn read_u64_takes_eight_bytes() {
    let mut buf = BytesMut::from(&[8, 7, 6, 5, 4, 3, 2, 1, 0xEE][..]);
    assert_eq!(reader::read_u64(&mut buf), Ok(0x0102030405060708));
    assert_eq!(&buf[..], &[0xEE][..]);
    assert_eq!(reader::read_u64(&mut buf), Err(PayloadDecodeError::ShortField));
}

#[test]
fn read_array_takes_the_block() {
    let mut buf = BytesMut::from(&[1, 2, 3, 4, 5][..]);
    assert_eq!(reader::read_array::<3>(&mut buf), Ok([1, 2, 3]));
    assert_eq!(&buf[..], &[4, 5][..]);
    assert_eq!(reader::read_array::<3>(&mut buf), Err(PayloadDecodeError::ShortField));
    assert_eq!(reader::read_array::<0>(&mut buf), Ok([]));
}

#[test]
fn skip_bytes_passes_over() {
    let mut buf = BytesMut::from(&[1, 2, 3, 4, 5][..]);
    assert_eq!(reader::skip_bytes(&mut buf, 2), Ok(()));
    assert_eq!(&buf[..], &[3, 4, 5][..]);
    assert_eq!(reader::skip_bytes(&mut buf, 4), Err(PayloadDecodeError::ShortField));
    assert_eq!(&buf[..], &[3, 4, 5][..]);
}

#[test]
fn find_zero_finds_the_first() {
    assert_eq!(reader::find_zero(b"ab\0cd\0"), Some(2));
    assert_eq!(reader::find_zero(b"\0"), Some(0));
    assert_eq!(reader::find_zero(b"abc"), None);
    assert_eq!(reader::find_zero(b""), None);
}

#[test]
fn read_cstring_stops_at_the_first_zero() {
    let mut buf = BytesMut::from(&b"name\0\0rest"[..]);
    assert_eq!(BNetPCodec::read_cstring(&mut buf), Ok(b"name".to_vec()));
    assert_eq!(&buf[..], &b"\0rest"[..]);
    assert_eq!(BNetPCodec::read_cstring(&mut buf), Ok(vec![]));
    assert_eq!(&buf[..], &b"rest"[..]);
}

#[test]
fn cstring_without_terminator_is_refused() {
    let mut buf = BytesMut::from(&b"rest"[..]);
    assert_eq!(BNetPCodec::read_cstring(&mut buf), Err(PayloadDecodeError::MissingTerminator));
    assert_eq!(&buf[..], &b"rest"[..]);

    let (packets, error) = decode_whole(&framed(0x51, &[0, 0, 0, 0, b'n', b'o']));
    assert!(packets.is_empty());
    assert_eq!(error, Some(DecodeError::Payload(PayloadDecodeError::MissingTerminator)));
}

#[test]
fn read_header_gives_kind_and_length() {
    let codec = BNetPCodec::new();
    let buf = BytesMut::from(&[0xFF, 0x25, 8, 0, 1, 2, 3, 4][..]);
    assert_eq!(codec.read_header(&buf), Ok((PacketID::PING, 8)));
    assert_eq!(buf.len(), 8);
    let long = BytesMut::from(&[0xFF, 0x0F, 0x34, 0x12][..]);
    assert_eq!(codec.read_header(&long), Ok((PacketID::CHATEVENT, 0x1234)));
}

#[test]
fn read_header_refuses_a_wrong_marker() {
    let codec = BNetPCodec::new();
    let buf = BytesMut::from(&[0xFE, 0x25, 8, 0][..]);
    assert_eq!(codec.read_header(&buf), Err(FramingError::BadMarker));
}

#[test]
fn ping_round_trip() {
    for value in [0u32, 1, 0x0809A0A1, u32::MAX] {
        let (packets, error) = decode_whole(&c2s::ping(value));
        assert_eq!(error, None);
        assert_eq!(packets, vec![BNetIncomingPacket::Ping(Ping { value })]);
    }
}

#[test]
fn null_round_trip() {
    let (packets, error) = decode_whole(&c2s::null());
    assert_eq!(error, None);
    assert_eq!(packets, vec![BNetIncomingPacket::Null]);
}

#[test]
fn kinds_without_a_layout_keep_their_payload() {
    let data = BNetOutgoingPacket::ChatCommand { message: b"hi".to_vec() }.encode();
    let (packets, error) = decode_whole(&data);
    assert_eq!(error, None);
    assert_eq!(
        packets,
        vec![BNetIncomingPacket::Raw { id: PacketID::CHATCOMMAND, payload: b"hi\0".to_vec() }]
    );
    assert_eq!(packets[0].id(), PacketID::CHATCOMMAND);
}

#[test]
fn unknown_code_decodes_to_unknown() {
    let (packets, error) = decode_whole(&framed(200, &[1, 2, 3]));
    assert_eq!(error, None);
    assert_eq!(
        packets,
        vec![BNetIncomingPacket::Raw { id: PacketID::UNKNOWN, payload: vec![1, 2, 3] }]
    );
    assert_eq!(packets[0].id(), PacketID::UNKNOWN);
}

#[test]
fn unknown_code_does_not_stop_the_stream() {
    let mut stream = framed(200, &[]);
    stream.extend_from_slice(&c2s::ping(5));
    let (packets, error) = decode_whole(&stream);
    assert_eq!(error, None);
    assert_eq!(packets.len(), 2);
    assert_eq!(packets[1], BNetIncomingPacket::Ping(Ping { value: 5 }));
}

#[test]
fn declared_length_below_header_is_a_framing_error() {
    let mut codec = BNetPCodec::new();
    let mut src = BytesMut::from(&[0xFF, 0x25, 3, 0, 9, 9][..]);
    assert_eq!(
        codec.decode(&mut src),
        Err(DecodeError::Framing(FramingError::LengthBelowHeader))
    );
    assert_eq!(codec.decode_state(), DecodeState::Header);
    assert_eq!(&src[..], &[0xFF, 0x25, 3, 0, 9, 9][..]);
    for length in 0..4u8 {
        let (packets, error) = decode_whole(&[0xFF, 0x00, length, 0]);
        assert!(packets.is_empty());
        assert_eq!(error, Some(DecodeError::Framing(FramingError::LengthBelowHeader)));
    }
}

#[test]
fn wrong_marker_is_a_framing_error() {
    let (packets, error) = decode_whole(&[0x00, 0x25, 8, 0, 1, 2, 3, 4]);
    assert!(packets.is_empty());
    assert_eq!(error, Some(DecodeError::Framing(FramingError::BadMarker)));
}

#[test]
fn short_field_is_a_payload_error() {
    let (packets, error) = decode_whole(&framed(0x25, &[1, 2, 3]));
    assert!(packets.is_empty());
    assert_eq!(error, Some(DecodeError::Payload(PayloadDecodeError::ShortField)));

    let mut payload = vec![0, 0, 0, 0];
    payload.extend_from_slice(&[1; 32]);
    payload.extend_from_slice(&[2; 31]);
    let (packets, error) = decode_whole(&framed(0x53, &payload));
    assert!(packets.is_empty());
    assert_eq!(error, Some(DecodeError::Payload(PayloadDecodeError::ShortField)));
}

#[test]
fn bytes_left_over_are_a_payload_error() {
    let (packets, error) = decode_whole(&framed(0x25, &[1, 2, 3, 4, 5]));
    assert!(packets.is_empty());
    assert_eq!(error, Some(DecodeError::Payload(PayloadDecodeError::LengthMismatch)));
    let (packets, error) = decode_whole(&framed(0x00, &[0]));
    assert!(packets.is_empty());
    assert_eq!(error, Some(DecodeError::Payload(PayloadDecodeError::LengthMismatch)));
}

#[test]
fn packets_before_a_failure_stand() {
    let mut stream = c2s::ping(1).to_vec();
    stream.extend_from_slice(&framed(0x25, &[1, 2, 3]));
    stream.extend_from_slice(&c2s::ping(2));
    let mut codec = BNetPCodec::new();
    let mut src = BytesMut::from(&stream[..]);
    let (packets, error) = codec.decode_all(&mut src);
    assert_eq!(packets, vec![BNetIncomingPacket::Ping(Ping { value: 1 })]);
    assert_eq!(error, Some(DecodeError::Payload(PayloadDecodeError::ShortField)));
    assert_eq!(&src[..], &c2s::ping(2)[..]);
}

#[test]
fn decode_waits_for_the_header() {
    let mut codec = BNetPCodec::new();
    let mut src = BytesMut::from(&[0xFF, 0x25, 8][..]);
    assert_eq!(codec.decode(&mut src), Ok(None));
    assert_eq!(codec.decode_state(), DecodeState::Header);
    assert_eq!(src.len(), 3);
    let mut empty = BytesMut::new();
    assert_eq!(codec.decode(&mut empty), Ok(None));
}

#[test]
fn decode_waits_for_the_body() {
    let mut codec = BNetPCodec::new();
    let mut src = BytesMut::from(&[0xFF, 0x25, 8, 0, 1, 2, 3][..]);
    assert_eq!(codec.decode(&mut src), Ok(None));
    assert_eq!(codec.decode_state(), DecodeState::Body(PacketID::PING, 8));
    assert_eq!(src.len(), 7);
    src.extend_from_slice(&[4, 0xFF]);
    assert_eq!(
        codec.decode(&mut src),
        Ok(Some(BNetIncomingPacket::Ping(Ping { value: 0x04030201 })))
    );
    assert_eq!(codec.decode_state(), DecodeState::Header);
    assert_eq!(&src[..], &[0xFF][..]);
}

#[test]
fn fragments_decode_as_the_whole() {
    let signature = [0x5Au8; 128];
    let mut stream = auth_info_response(0xDEADBEEF, &signature);
    stream.extend_from_slice(&c2s::ping(9));
    stream.extend_from_slice(&framed(0x0F, b"\x05\0\0\0\x01\0\0\0\x02\0\0\0123456789012bob\0hello\0"));
    let (whole, error) = decode_whole(&stream);
    assert_eq!(error, None);
    assert_eq!(whole.len(), 3);

    // byte by byte
    let mut codec = BNetPCodec::new();
    let mut src = BytesMut::new();
    let mut found = vec![];
    for byte in stream.iter() {
        src.extend_from_slice(&[*byte]);
        let (packets, error) = codec.decode_all(&mut src);
        assert_eq!(error, None);
        found.extend(packets);
    }
    assert_eq!(found, whole);
    assert!(src.is_empty());

    // in two pieces, at every place
    for cut in 0..=stream.len() {
        let mut codec = BNetPCodec::new();
        let mut src = BytesMut::new();
        src.extend_from_slice(&stream[..cut]);
        let (mut found, error) = codec.decode_all(&mut src);
        assert_eq!(error, None);
        src.extend_from_slice(&stream[cut..]);
        let (packets, error) = codec.decode_all(&mut src);
        assert_eq!(error, None);
        found.extend(packets);
        assert_eq!(found, whole);
    }

    // in three pieces
    for (a, b) in [(1, 2), (3, 5), (4, 150), (10, 160), (155, 156), (0, 170)] {
        let mut codec = BNetPCodec::new();
        let mut src = BytesMut::new();
        let mut found = vec![];
        for piece in [&stream[..a], &stream[a..b], &stream[b..]] {
            src.extend_from_slice(piece);
            let (packets, error) = codec.decode_all(&mut src);
            assert_eq!(error, None);
            found.extend(packets);
        }
        assert_eq!(found, whole);
    }
}

#[test]
fn packets_fed_together_decode_as_one_by_one() {
    let frames = vec![
        c2s::ping(1).to_vec(),
        framed(0x51, b"\0\0\0\0ok\0"),
        c2s::null().to_vec(),
        framed(0x1C, &[1, 0, 0, 0]),
    ];
    let mut one_by_one = vec![];
    let mut codec = BNetPCodec::new();
    let mut src = BytesMut::new();
    for frame in frames.iter() {
        src.extend_from_slice(frame);
        let (packets, error) = codec.decode_all(&mut src);
        assert_eq!(error, None);
        assert_eq!(packets.len(), 1);
        one_by_one.extend(packets);
    }
    let (together, error) = decode_whole(&frames.concat());
    assert_eq!(error, None);
    assert_eq!(together, one_by_one);
    assert_eq!(together[1], BNetIncomingPacket::AuthCheck(AuthCheck { status: 0, info: b"ok".to_vec() }));
    assert_eq!(
        together[3],
        BNetIncomingPacket::StartAdvEx3(StartAdvEx3 { status: StartAdvEx3Status::Failed })
    );
}

#[test]
fn game_list_with_no_games_carries_the_reason() {
    let (packets, error) = decode_whole(&framed(0x09, &[0, 0, 0, 0, 7, 0, 0, 0]));
    assert_eq!(error, None);
    match &packets[0] {
        BNetIncomingPacket::GetAdvListEx(list) => {
            assert_eq!(list.count, 0);
            assert_eq!(list.status, GetAdvListExStatus::EMPTY(7));
        }
        other => panic!("{:?}", other),
    }
}

#[test]
fn game_list_carries_as_many_games_as_it_counts() {
    let mut payload = vec![3, 0, 0, 0];
    payload.extend_from_slice(&game(b"one", 6112));
    payload.extend_from_slice(&game(b"", 6113));
    payload.extend_from_slice(&game(b"three", 0xFFFF));
    let (packets, error) = decode_whole(&framed(0x09, &payload));
    assert_eq!(error, None);
    match &packets[0] {
        BNetIncomingPacket::GetAdvListEx(list) => {
            assert_eq!(list.count, 3);
            match &list.status {
                GetAdvListExStatus::OK(games) => {
                    assert_eq!(games.len(), 3);
                    assert_eq!(games[0].game_name, b"one".to_vec());
                    assert_eq!(games[0].game_settings, 1);
                    assert_eq!(games[0].language_id, 2);
                    assert_eq!(games[0].address_family, 2);
                    assert_eq!(games[0].address_port, 6112);
                    assert_eq!(games[0].host_ip, 0x0100000A);
                    assert_eq!(games[0].game_status, 4);
                    assert_eq!(games[0].elapsed_time, 5);
                    assert_eq!(games[0].game_password, b"pw".to_vec());
                    assert_eq!(games[0].game_statstring, b"stat".to_vec());
                    assert_eq!(games[1].game_name, Vec::<u8>::new());
                    assert_eq!(games[1].address_port, 6113);
                    assert_eq!(games[2].game_name, b"three".to_vec());
                    assert_eq!(games[2].address_port, 0xFFFF);
                }
                other => panic!("{:?}", other),
            }
        }
        other => panic!("{:?}", other),
    }
}

#[test]
fn game_list_that_counts_more_than_it_holds_is_refused() {
    let mut payload = vec![2, 0, 0, 0];
    payload.extend_from_slice(&game(b"one", 6112));
    let (packets, error) = decode_whole(&framed(0x09, &payload));
    assert!(packets.is_empty());
    assert_eq!(error, Some(DecodeError::Payload(PayloadDecodeError::ShortField)));

    let mut payload = vec![1, 0, 0, 0];
    payload.extend_from_slice(&game(b"one", 6112));
    payload.extend_from_slice(&game(b"two", 6112));
    let (packets, error) = decode_whole(&framed(0x09, &payload));
    assert!(packets.is_empty());
    assert_eq!(error, Some(DecodeError::Payload(PayloadDecodeError::LengthMismatch)));
}

#[test]
fn enter_chat_reads_three_names() {
    let (packets, error) = decode_whole(&framed(0x0A, b"uniq\0\0acct\0"));
    assert_eq!(error, None);
    assert_eq!(
        packets,
        vec![BNetIncomingPacket::EnterChat(EnterChat {
            unique_name: b"uniq".to_vec(),
            statstring: vec![],
            account_name: b"acct".to_vec(),
        })]
    );
}

#[test]
fn request_to_enter_chat_is_no_answer() {
    let (packets, error) = decode_whole(&c2s::enter_chat());
    assert!(packets.is_empty());
    assert_eq!(error, Some(DecodeError::Payload(PayloadDecodeError::MissingTerminator)));
}

#[test]
fn chat_event_passes_over_twelve_bytes() {
    let mut payload = vec![];
    payload.extend_from_slice(&[0x05, 0, 0, 0]);
    payload.extend_from_slice(&[0x10, 0, 0, 0]);
    payload.extend_from_slice(&[0x2A, 0, 0, 0]);
    payload.extend_from_slice(&[0xAB; 12]);
    payload.extend_from_slice(b"alice\0hi there\0");
    let (packets, error) = decode_whole(&framed(0x0F, &payload));
    assert_eq!(error, None);
    assert_eq!(
        packets,
        vec![BNetIncomingPacket::ChatEvent(ChatEvent {
            event_id: ChatEventID::Talk,
            user_flags: 0x10,
            ping: 42,
            username: b"alice".to_vec(),
            text: b"hi there".to_vec(),
        })]
    );
}

#[test]
fn chat_event_codes() {
    let known = [
        (0x01, ChatEventID::ShowUser),
        (0x02, ChatEventID::Join),
        (0x03, ChatEventID::Leave),
        (0x04, ChatEventID::Whisper),
        (0x05, ChatEventID::Talk),
        (0x06, ChatEventID::Broadcast),
        (0x07, ChatEventID::Channel),
        (0x09, ChatEventID::Userflags),
        (0x0A, ChatEventID::WhisperSent),
        (0x0D, ChatEventID::ChannelFull),
        (0x0E, ChatEventID::ChannelDoesNotExist),
        (0x0F, ChatEventID::ChannelRestricted),
        (0x12, ChatEventID::Info),
        (0x13, ChatEventID::Error),
        (0x15, ChatEventID::Ignore),
        (0x16, ChatEventID::Accept),
        (0x17, ChatEventID::Emote),
    ];
    for (code, event) in known {
        assert_eq!(ChatEventID::from_id(code), event);
    }
    for code in [0u32, 0x08, 0x0B, 0x0C, 0x10, 0x11, 0x14, 0x18, 0xFF, 0x101, u32::MAX] {
        assert_eq!(ChatEventID::from_id(code), ChatEventID::Invalid);
    }
}

#[test]
fn start_adv_ex3_status_codes() {
    assert_eq!(StartAdvEx3Status::from_id(0), StartAdvEx3Status::OK);
    assert_eq!(StartAdvEx3Status::from_id(1), StartAdvEx3Status::Failed);
    assert_eq!(StartAdvEx3Status::from_id(2), StartAdvEx3Status::Invalid);
    assert_eq!(StartAdvEx3Status::from_id(u32::MAX), StartAdvEx3Status::Invalid);
    let (packets, error) = decode_whole(&framed(0x1C, &[0, 0, 0, 0]));
    assert_eq!(error, None);
    assert_eq!(
        packets,
        vec![BNetIncomingPacket::StartAdvEx3(StartAdvEx3 { status: StartAdvEx3Status::OK })]
    );
}

#[test]
fn account_logon_reads_salt_and_key() {
    let mut payload = vec![0, 0, 0, 0];
    let salt: Vec<u8> = (0..32).collect();
    let key: Vec<u8> = (100..132).collect();
    payload.extend_from_slice(&salt);
    payload.extend_from_slice(&key);
    let (packets, error) = decode_whole(&framed(0x53, &payload));
    assert_eq!(error, None);
    let mut expected = AuthAccountLogon { status: 0, salt: [0; 32], server_key: [0; 32] };
    expected.salt.copy_from_slice(&salt);
    expected.server_key.copy_from_slice(&key);
    assert_eq!(packets, vec![BNetIncomingPacket::AuthAccountLogon(expected)]);
}

#[test]
fn account_logon_proof_reads_proof_and_message() {
    let mut payload = vec![0x0E, 0, 0, 0];
    payload.extend_from_slice(&[0xFF; 20]);
    payload.extend_from_slice(b"register an email\0");
    let (packets, error) = decode_whole(&framed(0x54, &payload));
    assert_eq!(error, None);
    assert_eq!(
        packets,
        vec![BNetIncomingPacket::AuthAccountLogonProof(AuthAccountLogonProof {
            status: 0x0E,
            proof: [0xFF; 20],
            info: b"register an email".to_vec(),
        })]
    );
}

#[test]
fn auth_info_end_to_end() {
    let request = BNetOutgoingPacket::AuthInfo {
        version: 29,
        locale_id: 1033,
        country: b"United States".to_vec(),
        country_abbr: b"USA".to_vec(),
    };
    let mut codec = BNetPCodec::new();
    let mut outgoing = BytesMut::new();
    codec.encode(request, &mut outgoing);
    assert_eq!(&outgoing[4..8], &[0, 0, 0, 0][..]);
    assert_eq!(&outgoing[8..12], b"68XI");
    assert_eq!(&outgoing[12..16], b"PX3W");
    assert_eq!(&outgoing[16..20], &[29, 0, 0, 0][..]);
    assert_eq!(outgoing.len(), outgoing[2] as usize + 256 * outgoing[3] as usize);

    let signature = [0u8; 128];
    let mut incoming = BytesMut::from(&auth_info_response(0x12345678, &signature)[..]);
    match codec.decode(&mut incoming) {
        Ok(Some(BNetIncomingPacket::AuthInfo(info))) => {
            assert_eq!(info.logon_type, 2);
            assert_eq!(info.server_token, 0x12345678);
            assert_eq!(info.udp_value, 7);
            assert_eq!(info.mpq_filetime, 0x0102030405060708);
            assert_eq!(info.mpq_filename, b"ver-IX86-1.mpq".to_vec());
            assert_eq!(info.value_string, b"A=1 B=2".to_vec());
            assert_eq!(info.server_signature, signature);
        }
        other => panic!("{:?}", other),
    }
    assert!(incoming.is_empty());
}

#[test]
fn auth_info_with_a_short_signature_is_refused() {
    let signature = [1u8; 128];
    let mut bytes = auth_info_response(1, &signature);
    bytes.pop();
    let total = bytes.len();
    bytes[2] = (total % 256) as u8;
    bytes[3] = (total / 256) as u8;
    let (packets, error) = decode_whole(&bytes);
    assert!(packets.is_empty());
    assert_eq!(error, Some(DecodeError::Payload(PayloadDecodeError::ShortField)));
}

#[test]
fn encode_appends_to_what_is_there() {
    let mut codec = BNetPCodec::new();
    let mut dst = BytesMut::from(&[1, 2, 3][..]);
    codec.encode(BNetOutgoingPacket::Ping { value: 1 }, &mut dst);
    codec.encode(BNetOutgoingPacket::Null, &mut dst);
    assert_eq!(&dst[..], &[1, 2, 3, 0xFF, 0x25, 8, 0, 1, 0, 0, 0, 0xFF, 0x00, 4, 0][..]);
}

#[test]
fn read_payload_dispatches_by_kind() {
    let payload = BytesMut::from(&[5, 0, 0, 0][..]);
    assert_eq!(
        BNetPCodec::read_payload(PacketID::PING, payload.clone()),
        Ok(BNetIncomingPacket::Ping(Ping { value: 5 }))
    );
    assert_eq!(
        BNetPCodec::read_payload(PacketID::NETGAMEPORT, payload.clone()),
        Ok(BNetIncomingPacket::Raw { id: PacketID::NETGAMEPORT, payload: vec![5, 0, 0, 0] })
    );
    assert_eq!(
        BNetPCodec::read_payload(PacketID::NULL, payload),
        Err(PayloadDecodeError::LengthMismatch)
    );
}

#[test]
fn try_encode_refuses_what_does_not_fit() {
    let mut codec = BNetPCodec::new();
    let mut dst = BytesMut::from(&[7][..]);
    let long = BNetOutgoingPacket::ChatCommand { message: vec![b'a'; 65531] };
    assert_eq!(codec.try_encode(long, &mut dst), Err(jekuthiel::error::EncodeError::TooLong));
    assert_eq!(&dst[..], &[7][..]);
    assert_eq!(codec.try_encode(BNetOutgoingPacket::EnterChat, &mut dst), Ok(()));
    assert_eq!(&dst[..], &[7, 0xFF, 0x0A, 6, 0, 0, 0][..]);
}
