use jekuthiel::packets::c2s;
use jekuthiel::packets::c2s::JoinChannelFlag;
use jekuthiel::packets::c2s::StartAdvEx3GameState;
use jekuthiel::packets::BNetOutgoingPacket;
use jekuthiel::packets::PacketID;

fn length_field(data: &[u8]) -> usize {
    data[2] as usize + 256 * data[3] as usize
}

#[test]
fn from_id_maps_known_codes() {
    assert_eq!(PacketID::from_id(0), PacketID::NULL);
    assert_eq!(PacketID::from_id(2), PacketID::STOPADV);
    assert_eq!(PacketID::from_id(9), PacketID::GETADVLISTEX);
    assert_eq!(PacketID::from_id(10), PacketID::ENTERCHAT);
    assert_eq!(PacketID::from_id(12), PacketID::JOINCHANNEL);
    assert_eq!(PacketID::from_id(14), PacketID::CHATCOMMAND);
    assert_eq!(PacketID::from_id(15), PacketID::CHATEVENT);
    assert_eq!(PacketID::from_id(28), PacketID::STARTADVEX3);
    assert_eq!(PacketID::from_id(37), PacketID::PING);
    assert_eq!(PacketID::from_id(69), PacketID::NETGAMEPORT);
    assert_eq!(PacketID::from_id(80), PacketID::AUTHINFO);
    assert_eq!(PacketID::from_id(81), PacketID::AUTHCHECK);
    assert_eq!(PacketID::from_id(83), PacketID::AUTHACCOUNTLOGON);
    assert_eq!(PacketID::from_id(84), PacketID::AUTHACCOUNTLOGONPROOF);
}

#[test]
fn from_id_maps_every_other_code_to_unknown() {
    assert_eq!(PacketID::from_id(200), PacketID::UNKNOWN);
    assert_eq!(PacketID::from_id(1), PacketID::UNKNOWN);
    assert_eq!(PacketID::from_id(255), PacketID::UNKNOWN);
}

#[test]
fn code_and_from_id_are_inverse_on_every_byte() {
    for code in 0..=255u8 {
        let kind = PacketID::from_id(code);
        if kind != PacketID::UNKNOWN {
            assert_eq!(kind.code(), code);
        }
    }
    assert_eq!(PacketID::UNKNOWN.code(), 0xFF);
}

#[test]
fn new_packet_holds_the_header_alone() {
    let buf = c2s::new_packet(PacketID::PING, 4);
    assert_eq!(&buf[..], &[0xFF, 0x25, 8, 0][..]);
    assert!(buf.capacity() >= 8);
}

#[test]
fn null_is_a_bare_header() {
    assert_eq!(&c2s::null()[..], &[0xFF, 0x00, 4, 0][..]);
}

#[test]
fn stop_adv_is_a_bare_header() {
    assert_eq!(&c2s::stop_adv()[..], &[0xFF, 0x02, 4, 0][..]);
}

#[test]
fn ping_writes_its_value_low_byte_first() {
    assert_eq!(&c2s::ping(0x0809A0A1)[..], &[0xFF, 0x25, 8, 0, 0xA1, 0xA0, 0x09, 0x08][..]);
}

#[test]
fn net_game_port_writes_the_port_low_byte_first() {
    assert_eq!(&c2s::net_game_port(6112)[..], &[0xFF, 0x45, 6, 0, 0xE0, 0x17][..]);
}

#[test]
fn enter_chat_writes_two_zero_bytes() {
    assert_eq!(&c2s::enter_chat()[..], &[0xFF, 0x0A, 6, 0, 0, 0][..]);
}

#[test]
fn get_adv_list_ex_writes_template_and_name() {
    let data = c2s::get_adv_list_ex(b"dota");
    let mut expected = vec![0xFF, 0x09, 24, 0];
    expected.extend_from_slice(&[255, 3, 0, 0, 255, 3, 0, 0, 0, 0, 0, 1, 0, 0, 0]);
    expected.extend_from_slice(b"dota\0");
    assert_eq!(&data[..], &expected[..]);
}

#[test]
fn get_adv_list_ex_with_empty_name() {
    let data = c2s::get_adv_list_ex(b"");
    assert_eq!(data.len(), 20);
    assert_eq!(length_field(&data), 20);
    assert_eq!(data[19], 0);
}

#[test]
fn join_channel_writes_flag_and_name() {
    let data = c2s::join_channel(JoinChannelFlag::ForcedJoin, b"w3");
    assert_eq!(&data[..], &[0xFF, 0x0C, 11, 0, 2, 0, 0, 0, b'w', b'3', 0][..]);
    let first = c2s::join_channel(JoinChannelFlag::FirstJoin, b"");
    assert_eq!(&first[..], &[0xFF, 0x0C, 9, 0, 1, 0, 0, 0, 0][..]);
    let none = c2s::join_channel(JoinChannelFlag::NoCreate, b"");
    assert_eq!(&none[..], &[0xFF, 0x0C, 9, 0, 0, 0, 0, 0, 0][..]);
}

#[test]
fn chat_command_writes_terminated_text() {
    let data = c2s::chat_command(b"/who");
    assert_eq!(&data[..], &[0xFF, 0x0E, 9, 0, b'/', b'w', b'h', b'o', 0][..]);
}

#[test]
fn fold_state_ors_the_bits() {
    assert_eq!(c2s::fold_state(&[]), 0);
    assert_eq!(c2s::fold_state(&[StartAdvEx3GameState::Private]), 0x01);
    assert_eq!(
        c2s::fold_state(&[
            StartAdvEx3GameState::Private,
            StartAdvEx3GameState::Full,
            StartAdvEx3GameState::NotEmpty,
            StartAdvEx3GameState::InProgress,
            StartAdvEx3GameState::Replay,
            StartAdvEx3GameState::Full,
        ]),
        0x8F
    );
}

#[test]
fn start_adv_ex3_writes_every_field_in_order() {
    let data = c2s::start_adv_ex3(
        &[StartAdvEx3GameState::Full, StartAdvEx3GameState::Replay],
        0x01020304,
        0x0506,
        0x0708,
        0x090A0B0C,
        0x0D0E0F10,
        b"g",
        b"",
        b"st",
    );
    let expected: Vec<u8> = vec![
        0xFF, 0x1C, 30, 0, // header
        0x82, 0, 0, 0, // state
        4, 3, 2, 1, // since creation
        6, 5, // game type
        8, 7, // sub game type
        0x0C, 0x0B, 0x0A, 0x09, // version
        0x10, 0x0F, 0x0E, 0x0D, // ladder type
        b'g', 0, 0, b's', b't', 0,
    ];
    assert_eq!(&data[..], &expected[..]);
}

#[test]
fn auth_info_writes_the_fixed_tags() {
    let data = c2s::auth_info(29, 0x0409, b"United States", b"USA");
    let mut expected: Vec<u8> = vec![0xFF, 0x50, 58, 0];
    expected.extend_from_slice(&[0, 0, 0, 0]);
    expected.extend_from_slice(b"68XI");
    expected.extend_from_slice(b"PX3W");
    expected.extend_from_slice(&[29, 0, 0, 0]);
    expected.extend_from_slice(b"SUne");
    expected.extend_from_slice(&[127, 0, 0, 1]);
    expected.extend_from_slice(&[60, 0, 0, 0]);
    expected.extend_from_slice(&[0x09, 0x04, 0, 0]);
    expected.extend_from_slice(&[0x09, 0x04, 0, 0]);
    expected.extend_from_slice(b"USA\0");
    expected.extend_from_slice(b"United States\0");
    assert_eq!(&data[..], &expected[..]);
    assert_eq!(length_field(&data), data.len());
}

#[test]
fn auth_check_writes_keys_without_terminators() {
    let data = c2s::auth_check(1, 2, 3, &[0xAA, 0xBB], &[0xCC], b"exe", b"me");
    let expected: Vec<u8> = vec![
        0xFF, 0x51, 34, 0, 1, 0, 0, 0, 2, 0, 0, 0, 3, 0, 0, 0, 2, 0, 0, 0, 0, 0, 0, 0, 0xAA, 0xBB,
        0xCC, b'e', b'x', b'e', 0, b'm', b'e', 0,
    ];
    assert_eq!(&data[..], &expected[..]);
}

#[test]
fn account_logon_writes_key_and_name() {
    let data = c2s::account_logon(7, b"bob");
    assert_eq!(&data[..], &[0xFF, 0x53, 9, 0, 7, b'b', b'o', b'b', 0][..]);
}

#[test]
fn account_logon_proof_writes_the_proof_as_it_is() {
    let proof = [9u8; 20];
    let data = c2s::account_logon_proof(&proof);
    assert_eq!(data.len(), 24);
    assert_eq!(&data[..4], &[0xFF, 0x54, 24, 0][..]);
    assert_eq!(&data[4..], &proof[..]);
}

#[test]
fn length_field_counts_header_and_payload() {
    let packets = vec![
        BNetOutgoingPacket::Null,
        BNetOutgoingPacket::StopAdv,
        BNetOutgoingPacket::GetAdvListEx { game_name: b"x".to_vec() },
        BNetOutgoingPacket::EnterChat,
        BNetOutgoingPacket::JoinChannel { flag: JoinChannelFlag::FirstJoin, channel: vec![] },
        BNetOutgoingPacket::ChatCommand { message: vec![b'a'; 300] },
        BNetOutgoingPacket::StartAdvEx3 {
            state: vec![StartAdvEx3GameState::Private],
            since_creation: 0,
            game_type: 1,
            sub_game_type: 2,
            version: 3,
            ladder_type: 4,
            game_name: b"game".to_vec(),
            game_password: vec![],
            game_statstring: b"stat".to_vec(),
        },
        BNetOutgoingPacket::Ping { value: 77 },
        BNetOutgoingPacket::NetGamePort { port: 6112 },
        BNetOutgoingPacket::AuthInfo {
            version: 29,
            locale_id: 1033,
            country: b"Germany".to_vec(),
            country_abbr: b"DEU".to_vec(),
        },
        BNetOutgoingPacket::AuthCheck {
            client_token: 1,
            exe_version: 2,
            exe_hash: 3,
            roc_key: vec![1; 36],
            tft_key: vec![2; 36],
            exe_info: b"war3.exe".to_vec(),
            owner_name: b"owner".to_vec(),
        },
        BNetOutgoingPacket::AuthAccountLogon { client_key: 5, username: b"user".to_vec() },
        BNetOutgoingPacket::AuthAccountLogonProof { proof_bytes: vec![3; 20] },
    ];
    for packet in packets.iter() {
        let expected_len = packet.payload_len().unwrap() + 4;
        let data = packet.encode();
        assert_eq!(data.len(), expected_len);
        assert_eq!(data[0], 0xFF);
        assert_eq!(data[1], packet.id().code());
        assert_eq!(length_field(&data), data.len());
    }
}

#[test]
fn encode_gives_what_the_builder_gives() {
    let packet = BNetOutgoingPacket::JoinChannel {
        flag: JoinChannelFlag::ForcedJoin,
        channel: b"w3".to_vec(),
    };
    assert_eq!(packet.encode(), c2s::join_channel(JoinChannelFlag::ForcedJoin, b"w3"));
    assert_eq!(packet.id(), PacketID::JOINCHANNEL);
    assert_eq!(packet.payload_len(), Some(7));
}

#[test]
fn largest_packet_fills_the_length_field() {
    let packet = BNetOutgoingPacket::ChatCommand { message: vec![b'a'; 65530] };
    assert_eq!(packet.payload_len(), Some(65531));
    let data = packet.try_encode().unwrap();
    assert_eq!(data.len(), 65535);
    assert_eq!(&data[..4], &[0xFF, 0x0E, 0xFF, 0xFF][..]);
    assert_eq!(data[65534], 0);
}

#[test]
fn oversized_packet_is_refused() {
    let packet = BNetOutgoingPacket::ChatCommand { message: vec![b'a'; 65531] };
    assert_eq!(packet.payload_len(), None);
    assert_eq!(packet.try_encode(), None);
    let proof = BNetOutgoingPacket::AuthAccountLogonProof { proof_bytes: vec![0; 70000] };
    assert_eq!(proof.try_encode(), None);
}

#[test]
fn recalc_length_rewrites_the_length_field() {
    let mut buf = bytes::BytesMut::with_capacity(300);
    buf.extend_from_slice(&[0xFF, 0x0E, 0, 0]);
    buf.extend_from_slice(&[b'x'; 256]);
    c2s::recalc_length(&mut buf);
    assert_eq!(&buf[..4], &[0xFF, 0x0E, 4, 1][..]);
    assert_eq!(&buf[4..], &[b'x'; 256][..]);
    let mut bare = c2s::new_packet(PacketID::PING, 4);
    c2s::recalc_length(&mut bare);
    assert_eq!(&bare[..], &[0xFF, 0x25, 4, 0][..]);
}
