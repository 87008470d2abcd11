//! Packets sent by the client: one builder per packet, each laying out the
//! header and the payload fields in their fixed order.

use bytes::Bytes;
use bytes::BytesMut;
use vstd::prelude::*;

use crate::buffer::buf_bytes;
use crate::buffer::buf_freeze;
use crate::buffer::buf_len;
use crate::buffer::buf_limit;
use crate::buffer::buf_set;
use crate::buffer::buf_put_u16_le;
use crate::buffer::buf_put_u32_le;
use crate::buffer::buf_put_u8;
use crate::buffer::buf_put_slice;
use crate::buffer::buf_with_capacity;
use crate::buffer::data_bytes;
use crate::packets::PacketID;
use crate::wire::cstr;
use crate::wire::u16_le;
use crate::wire::u32_le;

verus! {

/// The marker byte that opens every packet.
pub const BNET_HEADER: u8 = 0xff;

/// The length of the header: marker, code, and two bytes of total length.
pub const BNET_HEADER_LENGTH: u16 = 4;

/// The largest payload that the two-byte length field leaves room for.
pub const MAX_PAYLOAD_LENGTH: usize = 65531;

/// The header of a packet of `total` bytes, header included.
pub open spec fn header(id: PacketID, total: int) -> Seq<u8> {
    seq![BNET_HEADER, id.spec_code()] + u16_le(total as u16)
}

/// A whole packet: the header, whose length field counts the header's own
/// four bytes and the payload, then the payload.
pub open spec fn frame(id: PacketID, payload: Seq<u8>) -> Seq<u8> {
    header(id, BNET_HEADER_LENGTH + payload.len()) + payload
}

/// Starts a packet: a buffer sized for the header and `length` bytes of
/// payload, holding the header of such a packet.
pub fn new_packet(id: PacketID, length: usize) -> (buf: BytesMut)
    requires
        length <= MAX_PAYLOAD_LENGTH,
    ensures
        buf_bytes(buf) == header(id, BNET_HEADER_LENGTH + length),
        buf_limit(buf) >= BNET_HEADER_LENGTH + length,
{
    let mut buf = buf_with_capacity(BNET_HEADER_LENGTH as usize + length);
    buf_put_u8(&mut buf, BNET_HEADER);
    buf_put_u8(&mut buf, id.code());
    buf_put_u16_le(&mut buf, BNET_HEADER_LENGTH + length as u16);
    buf
}

/// Writes the length that a packet has come to into the length field of
/// its header.
pub fn recalc_length(buf: &mut BytesMut)
    requires
        4 <= buf_bytes(*old(buf)).len() <= 65535,
    ensures
        buf_bytes(*final(buf)) == buf_bytes(*old(buf)).take(2) + u16_le(
            buf_bytes(*old(buf)).len() as u16,
        ) + buf_bytes(*old(buf)).skip(4),
        buf_limit(*final(buf)) == buf_limit(*old(buf)),
{
    let length: u16 = buf_len(buf) as u16;
    buf_set(buf, 2, (length % 256) as u8);
    buf_set(buf, 3, (length / 256) as u8);
    assert(buf_bytes(*buf) =~= buf_bytes(*old(buf)).take(2) + u16_le(length) + buf_bytes(
        *old(buf),
    ).skip(4));
}

/// The packet with no payload that keeps a connection alive.
pub fn null() -> (data: Bytes)
    ensures
        data_bytes(data) == frame(PacketID::NULL, Seq::<u8>::empty()),
{
    buf_freeze(new_packet(PacketID::NULL, 0))
}

/// The packet with no payload that withdraws an advertised game.
pub fn stop_adv() -> (data: Bytes)
    ensures
        data_bytes(data) == frame(PacketID::STOPADV, Seq::<u8>::empty()),
{
    buf_freeze(new_packet(PacketID::STOPADV, 0))
}

/// The payload of a ping: the value to be echoed.
pub open spec fn ping_payload(value: u32) -> Seq<u8> {
    u32_le(value)
}

/// A ping carrying `value`.
pub fn ping(value: u32) -> (data: Bytes)
    ensures
        data_bytes(data) == frame(PacketID::PING, ping_payload(value)),
{
    let mut buf = new_packet(PacketID::PING, 4);
    buf_put_u32_le(&mut buf, value);
    buf_freeze(buf)
}

/// The payload of a port announcement: the port, low byte first.
pub open spec fn net_game_port_payload(port: u16) -> Seq<u8> {
    u16_le(port)
}

/// Announces the port on which the client hosts games.
pub fn net_game_port(port: u16) -> (data: Bytes)
    ensures
        data_bytes(data) == frame(PacketID::NETGAMEPORT, net_game_port_payload(port)),
{
    let mut buf = new_packet(PacketID::NETGAMEPORT, 2);
    buf_put_u16_le(&mut buf, port);
    buf_freeze(buf)
}

/// The payload of the request to enter chat: two reserved zero bytes.
pub open spec fn enter_chat_payload() -> Seq<u8> {
    seq![0u8, 0u8]
}

/// Asks to enter chat.
pub fn enter_chat() -> (data: Bytes)
    ensures
        data_bytes(data) == frame(PacketID::ENTERCHAT, enter_chat_payload()),
{
    let mut buf = new_packet(PacketID::ENTERCHAT, 2);
    buf_put_u8(&mut buf, 0u8);
    buf_put_u8(&mut buf, 0u8);
    buf_freeze(buf)
}

/// The fixed search template that opens a request for the game list.
pub open spec fn get_adv_list_ex_template() -> Seq<u8> {
    seq![255u8, 3u8, 0u8, 0u8, 255u8, 3u8, 0u8, 0u8, 0u8, 0u8, 0u8, 1u8, 0u8, 0u8, 0u8]
}

/// The payload of a request for the game list: the search template, then
/// the game name, zero-terminated.
pub open spec fn get_adv_list_ex_payload(game_name: Seq<u8>) -> Seq<u8> {
    get_adv_list_ex_template() + cstr(game_name)
}

/// Asks for the list of advertised games called `game_name`.
pub fn get_adv_list_ex(game_name: &[u8]) -> (data: Bytes)
    requires
        15 + game_name@.len() + 1 <= MAX_PAYLOAD_LENGTH,
    ensures
        data_bytes(data) == frame(PacketID::GETADVLISTEX, get_adv_list_ex_payload(game_name@)),
{
    let template: [u8; 15] = [255, 3, 0, 0, 255, 3, 0, 0, 0, 0, 0, 1, 0, 0, 0];
    let capacity: usize = 15 + game_name.len() + 1;
    let mut buf = new_packet(PacketID::GETADVLISTEX, capacity);
    assert(template@ =~= get_adv_list_ex_template());
    buf_put_slice(&mut buf, template.as_slice());
    buf_put_slice(&mut buf, game_name);
    buf_put_u8(&mut buf, 0u8);
    assert(buf_bytes(buf) =~= frame(
        PacketID::GETADVLISTEX,
        get_adv_list_ex_payload(game_name@),
    ));
    buf_freeze(buf)
}

/// How a channel is to be joined.
#[derive(Clone, Copy, Debug, PartialEq, Eq, Structural)]
pub enum JoinChannelFlag {
    NoCreate,
    FirstJoin,
    ForcedJoin,
}

impl JoinChannelFlag {
    /// The number that stands for the flag on the wire.
    pub open spec fn spec_code(self) -> u32 {
        match self {
            JoinChannelFlag::NoCreate => 0,
            JoinChannelFlag::FirstJoin => 1,
            JoinChannelFlag::ForcedJoin => 2,
        }
    }

    /// The number that stands for the flag on the wire.
    pub fn code(self) -> (c: u32)
        ensures
            c == self.spec_code(),
    {
        match self {
            JoinChannelFlag::NoCreate => 0,
            JoinChannelFlag::FirstJoin => 1,
            JoinChannelFlag::ForcedJoin => 2,
        }
    }
}

/// The payload of a request to join a channel: the flag, then the
/// channel's name, zero-terminated.
pub open spec fn join_channel_payload(flag: JoinChannelFlag, channel: Seq<u8>) -> Seq<u8> {
    u32_le(flag.spec_code()) + cstr(channel)
}

/// Asks to join `channel`.
pub fn join_channel(flag: JoinChannelFlag, channel: &[u8]) -> (data: Bytes)
    requires
        4 + channel@.len() + 1 <= MAX_PAYLOAD_LENGTH,
    ensures
        data_bytes(data) == frame(PacketID::JOINCHANNEL, join_channel_payload(flag, channel@)),
{
    let mut buf = new_packet(PacketID::JOINCHANNEL, 4 + channel.len() + 1);
    buf_put_u32_le(&mut buf, flag.code());
    buf_put_slice(&mut buf, channel);
    buf_put_u8(&mut buf, 0u8);
    assert(buf_bytes(buf) =~= frame(PacketID::JOINCHANNEL, join_channel_payload(flag, channel@)));
    buf_freeze(buf)
}

/// The payload of a chat command: its text, zero-terminated.
pub open spec fn chat_command_payload(message: Seq<u8>) -> Seq<u8> {
    cstr(message)
}

/// Sends a line of chat or a command.
pub fn chat_command(message: &[u8]) -> (data: Bytes)
    requires
        message@.len() + 1 <= MAX_PAYLOAD_LENGTH,
    ensures
        data_bytes(data) == frame(PacketID::CHATCOMMAND, chat_command_payload(message@)),
{
    let mut buf = new_packet(PacketID::CHATCOMMAND, message.len() + 1);
    buf_put_slice(&mut buf, message);
    buf_put_u8(&mut buf, 0u8);
    assert(buf_bytes(buf) =~= frame(PacketID::CHATCOMMAND, chat_command_payload(message@)));
    buf_freeze(buf)
}

/// One condition of an advertised game. Each stands for one bit of the
/// state field.
#[derive(Clone, Copy, Debug, PartialEq, Eq, Structural)]
pub enum StartAdvEx3GameState {
    Private,
    Full,
    NotEmpty,
    InProgress,
    Replay,
}

impl StartAdvEx3GameState {
    /// The bit of the state field that stands for this condition.
    pub open spec fn spec_bit(self) -> u32 {
        match self {
            StartAdvEx3GameState::Private => 0x01,
            StartAdvEx3GameState::Full => 0x02,
            StartAdvEx3GameState::NotEmpty => 0x04,
            StartAdvEx3GameState::InProgress => 0x08,
            StartAdvEx3GameState::Replay => 0x80,
        }
    }

    /// The bit of the state field that stands for this condition.
    pub fn bit(self) -> (b: u32)
        ensures
            b == self.spec_bit(),
    {
        match self {
            StartAdvEx3GameState::Private => 0x01,
            StartAdvEx3GameState::Full => 0x02,
            StartAdvEx3GameState::NotEmpty => 0x04,
            StartAdvEx3GameState::InProgress => 0x08,
            StartAdvEx3GameState::Replay => 0x80,
        }
    }
}

/// The state field for a list of conditions: the bitwise or of their bits.
pub open spec fn state_mask(state: Seq<StartAdvEx3GameState>) -> u32
    decreases state.len(),
{
    if state.len() == 0 {
        0
    } else {
        state_mask(state.drop_last()) | state.last().spec_bit()
    }
}

/// Folds a list of conditions into the state field.
pub fn fold_state(state: &[StartAdvEx3GameState]) -> (mask: u32)
    ensures
        mask == state_mask(state@),
{
    let mut mask: u32 = 0;
    let mut i: usize = 0;
    while i < state.len()
        invariant
            i <= state@.len(),
            mask == state_mask(state@.take(i as int)),
        decreases state@.len() - i,
    {
        proof {
            assert(state@.take(i + 1).drop_last() =~= state@.take(i as int));
        }
        mask = mask | state[i].bit();
        i = i + 1;
    }
    proof {
        assert(state@.take(i as int) =~= state@);
    }
    mask
}

/// The payload that advertises a game: state field, seconds since creation,
/// game type, sub-type, version, ladder type, then name, password and stat
/// string, each zero-terminated.
pub open spec fn start_adv_ex3_payload(
    state: Seq<StartAdvEx3GameState>,
    since_creation: u32,
    game_type: u16,
    sub_game_type: u16,
    version: u32,
    ladder_type: u32,
    game_name: Seq<u8>,
    game_password: Seq<u8>,
    game_statstring: Seq<u8>,
) -> Seq<u8> {
    u32_le(state_mask(state)) + u32_le(since_creation) + u16_le(game_type) + u16_le(sub_game_type)
        + u32_le(version) + u32_le(ladder_type) + cstr(game_name) + cstr(game_password) + cstr(
        game_statstring,
    )
}

/// Advertises a game.
pub fn start_adv_ex3(
    state: &[StartAdvEx3GameState],
    since_creation: u32,
    game_type: u16,
    sub_game_type: u16,
    version: u32,
    ladder_type: u32,
    game_name: &[u8],
    game_password: &[u8],
    game_statstring: &[u8],
) -> (data: Bytes)
    requires
        20 + game_name@.len() + game_password@.len() + game_statstring@.len() + 3
            <= MAX_PAYLOAD_LENGTH,
    ensures
        data_bytes(data) == frame(
            PacketID::STARTADVEX3,
            start_adv_ex3_payload(
                state@,
                since_creation,
                game_type,
                sub_game_type,
                version,
                ladder_type,
                game_name@,
                game_password@,
                game_statstring@,
            ),
        ),
{
    let mask: u32 = fold_state(state);
    let mut buf = new_packet(
        PacketID::STARTADVEX3,
        4 + 4 + 2 + 2 + 4 + 4 + game_name.len() + game_password.len() + game_statstring.len() + 3,
    );
    buf_put_u32_le(&mut buf, mask);
    buf_put_u32_le(&mut buf, since_creation);
    buf_put_u16_le(&mut buf, game_type);
    buf_put_u16_le(&mut buf, sub_game_type);
    buf_put_u32_le(&mut buf, version);
    buf_put_u32_le(&mut buf, ladder_type);
    buf_put_slice(&mut buf, game_name);
    buf_put_u8(&mut buf, 0u8);
    buf_put_slice(&mut buf, game_password);
    buf_put_u8(&mut buf, 0u8);
    buf_put_slice(&mut buf, game_statstring);
    buf_put_u8(&mut buf, 0u8);
    assert(buf_bytes(buf) =~= frame(
        PacketID::STARTADVEX3,
        start_adv_ex3_payload(
            state@,
            since_creation,
            game_type,
            sub_game_type,
            version,
            ladder_type,
            game_name@,
            game_password@,
            game_statstring@,
        ),
    ));
    buf_freeze(buf)
}

/// The protocol id that opens the handshake.
pub open spec fn protocol_id() -> Seq<u8> {
    seq![0u8, 0u8, 0u8, 0u8]
}

/// The platform tag `IX86`, last letter first.
pub open spec fn platform_id() -> Seq<u8> {
    seq![54u8, 56u8, 88u8, 73u8]
}

/// The product tag `W3XP`, last letter first.
pub open spec fn product_id() -> Seq<u8> {
    seq![80u8, 88u8, 51u8, 87u8]
}

/// The language tag `enUS`, last letter first.
pub open spec fn language_id() -> Seq<u8> {
    seq![83u8, 85u8, 110u8, 101u8]
}

/// The local address that the client reports.
pub open spec fn local_ip() -> Seq<u8> {
    seq![127u8, 0u8, 0u8, 1u8]
}

/// The time zone bias that the client reports, in minutes.
pub open spec fn timezone_bias() -> Seq<u8> {
    seq![60u8, 0u8, 0u8, 0u8]
}

/// The payload that opens the handshake: protocol id, platform, product,
/// the version byte padded to four bytes, language, local address, time
/// zone bias, the locale id twice, then the country's abbreviation and its
/// name, each zero-terminated.
pub open spec fn auth_info_payload(
    version: u8,
    locale_id: u32,
    country: Seq<u8>,
    country_abbr: Seq<u8>,
) -> Seq<u8> {
    protocol_id() + platform_id() + product_id() + seq![version, 0u8, 0u8, 0u8] + language_id()
        + local_ip() + timezone_bias() + u32_le(locale_id) + u32_le(locale_id) + cstr(country_abbr)
        + cstr(country)
}

/// Opens the handshake.
pub fn auth_info(version: u8, locale_id: u32, country: &[u8], country_abbr: &[u8]) -> (data: Bytes)
    requires
        36 + country@.len() + country_abbr@.len() + 2 <= MAX_PAYLOAD_LENGTH,
    ensures
        data_bytes(data) == frame(
            PacketID::AUTHINFO,
            auth_info_payload(version, locale_id, country@, country_abbr@),
        ),
{
    let mut buf = new_packet(PacketID::AUTHINFO, 4 * 9 + country.len() + country_abbr.len() + 2);
    let protocol: [u8; 4] = [0, 0, 0, 0];
    let platform: [u8; 4] = [54, 56, 88, 73];
    let product: [u8; 4] = [80, 88, 51, 87];
    let version: [u8; 4] = [version, 0, 0, 0];
    let language: [u8; 4] = [83, 85, 110, 101];
    let address: [u8; 4] = [127, 0, 0, 1];
    let bias: [u8; 4] = [60, 0, 0, 0];
    assert(protocol@ =~= protocol_id());
    assert(platform@ =~= platform_id());
    assert(product@ =~= product_id());
    assert(version@ =~= seq![version[0], 0u8, 0u8, 0u8]);
    assert(language@ =~= language_id());
    assert(address@ =~= local_ip());
    assert(bias@ =~= timezone_bias());

    buf_put_slice(&mut buf, protocol.as_slice());
    buf_put_slice(&mut buf, platform.as_slice());
    buf_put_slice(&mut buf, product.as_slice());
    buf_put_slice(&mut buf, version.as_slice());
    buf_put_slice(&mut buf, language.as_slice());
    buf_put_slice(&mut buf, address.as_slice());
    buf_put_slice(&mut buf, bias.as_slice());
    buf_put_u32_le(&mut buf, locale_id);
    buf_put_u32_le(&mut buf, locale_id);
    buf_put_slice(&mut buf, country_abbr);
    buf_put_u8(&mut buf, 0u8);
    buf_put_slice(&mut buf, country);
    buf_put_u8(&mut buf, 0u8);
    assert(buf_bytes(buf) =~= frame(
        PacketID::AUTHINFO,
        auth_info_payload(version[0], locale_id, country@, country_abbr@),
    ));
    buf_freeze(buf)
}

/// The payload that proves the client's version and keys: client token,
/// version and hash of the executable, the number of keys (two), the spawn
/// flag (zero), the two key blocks as they are, then the executable's
/// description and the owner's name, each zero-terminated.
pub open spec fn auth_check_payload(
    client_token: u32,
    exe_version: u32,
    exe_hash: u32,
    roc_key: Seq<u8>,
    tft_key: Seq<u8>,
    exe_info: Seq<u8>,
    owner_name: Seq<u8>,
) -> Seq<u8> {
    u32_le(client_token) + u32_le(exe_version) + u32_le(exe_hash) + u32_le(2) + u32_le(0) + roc_key
        + tft_key + cstr(exe_info) + cstr(owner_name)
}

/// Proves the client's version and keys.
pub fn auth_check(
    client_token: u32,
    exe_version: u32,
    exe_hash: u32,
    roc_key: &[u8],
    tft_key: &[u8],
    exe_info: &[u8],
    owner_name: &[u8],
) -> (data: Bytes)
    requires
        20 + roc_key@.len() + tft_key@.len() + exe_info@.len() + owner_name@.len() + 2
            <= MAX_PAYLOAD_LENGTH,
    ensures
        data_bytes(data) == frame(
            PacketID::AUTHCHECK,
            auth_check_payload(
                client_token,
                exe_version,
                exe_hash,
                roc_key@,
                tft_key@,
                exe_info@,
                owner_name@,
            ),
        ),
{
    let mut buf = new_packet(
        PacketID::AUTHCHECK,
        4 * 5 + roc_key.len() + tft_key.len() + exe_info.len() + owner_name.len() + 2,
    );
    buf_put_u32_le(&mut buf, client_token);
    buf_put_u32_le(&mut buf, exe_version);
    buf_put_u32_le(&mut buf, exe_hash);
    buf_put_u32_le(&mut buf, 2u32);
    buf_put_u32_le(&mut buf, 0u32);
    buf_put_slice(&mut buf, roc_key);
    buf_put_slice(&mut buf, tft_key);
    buf_put_slice(&mut buf, exe_info);
    buf_put_u8(&mut buf, 0u8);
    buf_put_slice(&mut buf, owner_name);
    buf_put_u8(&mut buf, 0u8);
    assert(buf_bytes(buf) =~= frame(
        PacketID::AUTHCHECK,
        auth_check_payload(
            client_token,
            exe_version,
            exe_hash,
            roc_key@,
            tft_key@,
            exe_info@,
            owner_name@,
        ),
    ));
    buf_freeze(buf)
}

/// The payload that begins the account logon: the client's key byte, then
/// the user's name, zero-terminated.
pub open spec fn account_logon_payload(client_key: u8, username: Seq<u8>) -> Seq<u8> {
    seq![client_key] + cstr(username)
}

/// Begins the account logon.
pub fn account_logon(client_key: u8, username: &[u8]) -> (data: Bytes)
    requires
        1 + username@.len() + 1 <= MAX_PAYLOAD_LENGTH,
    ensures
        data_bytes(data) == frame(
            PacketID::AUTHACCOUNTLOGON,
            account_logon_payload(client_key, username@),
        ),
{
    let mut buf = new_packet(PacketID::AUTHACCOUNTLOGON, 1 + username.len() + 1);
    buf_put_u8(&mut buf, client_key);
    buf_put_slice(&mut buf, username);
    buf_put_u8(&mut buf, 0u8);
    assert(buf_bytes(buf) =~= frame(
        PacketID::AUTHACCOUNTLOGON,
        account_logon_payload(client_key, username@),
    ));
    buf_freeze(buf)
}

/// The payload that ends the account logon: the client's proof as it is,
/// with no terminator.
pub open spec fn account_logon_proof_payload(proof_bytes: Seq<u8>) -> Seq<u8> {
    proof_bytes
}

/// Ends the account logon with the client's proof.
pub fn account_logon_proof(proof_bytes: &[u8]) -> (data: Bytes)
    requires
        proof_bytes@.len() <= MAX_PAYLOAD_LENGTH,
    ensures
        data_bytes(data) == frame(
            PacketID::AUTHACCOUNTLOGONPROOF,
            account_logon_proof_payload(proof_bytes@),
        ),
{
    let mut buf = new_packet(PacketID::AUTHACCOUNTLOGONPROOF, proof_bytes.len());
    buf_put_slice(&mut buf, proof_bytes);
    buf_freeze(buf)
}

} // verus!
