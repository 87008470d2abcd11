//! Packets sent by the server: what each carries, and the layout by which
//! its payload is read.

use bytes::BytesMut;
use vstd::prelude::*;
use vstd::slice::slice_subrange;
use vstd::slice::slice_to_vec;

use crate::buffer::buf_bytes;
use crate::buffer::buf_as_slice;
use crate::buffer::buf_len;
use crate::buffer::le_read_u16;
use crate::error::FramingError;
use crate::error::PayloadDecodeError;
use crate::packets::c2s::BNET_HEADER;
use crate::packets::c2s::BNET_HEADER_LENGTH;
use crate::packets::BNetIncomingPacket;
use crate::packets::BNetIncomingPacketView;
use crate::packets::PacketID;
use crate::reader::read_array;
use crate::reader::read_u16;
use crate::reader::read_u32;
use crate::reader::read_u64;
use crate::reader::skip_bytes;
use crate::wire::agrees;
use crate::wire::take_bytes;
use crate::wire::take_cstr;
use crate::wire::take_u16;
use crate::wire::take_u32;
use crate::wire::take_u64;
use crate::wire::u16_from_le;
use crate::wire::Taken;

verus! {

/// One advertised game.
#[derive(Clone, Debug, PartialEq, Eq)]
pub struct GetAdvListExItem {
    pub game_settings: u32,
    pub language_id: u32,
    pub address_family: u16,
    pub address_port: u16,
    pub host_ip: u32,
    pub game_status: u32,
    pub elapsed_time: u32,
    pub game_name: Vec<u8>,
    pub game_password: Vec<u8>,
    pub game_statstring: Vec<u8>,
}

/// What a `GetAdvListExItem` holds, as plain values.
pub struct GetAdvListExItemView {
    pub game_settings: u32,
    pub language_id: u32,
    pub address_family: u16,
    pub address_port: u16,
    pub host_ip: u32,
    pub game_status: u32,
    pub elapsed_time: u32,
    pub game_name: Seq<u8>,
    pub game_password: Seq<u8>,
    pub game_statstring: Seq<u8>,
}

impl View for GetAdvListExItem {
    type V = GetAdvListExItemView;

    open spec fn view(&self) -> GetAdvListExItemView {
        GetAdvListExItemView {
            game_settings: self.game_settings,
            language_id: self.language_id,
            address_family: self.address_family,
            address_port: self.address_port,
            host_ip: self.host_ip,
            game_status: self.game_status,
            elapsed_time: self.elapsed_time,
            game_name: self.game_name@,
            game_password: self.game_password@,
            game_statstring: self.game_statstring@,
        }
    }
}

/// The games found, or the reason why there are none.
#[derive(Clone, Debug, PartialEq, Eq)]
pub enum GetAdvListExStatus {
    OK(Vec<GetAdvListExItem>),
    EMPTY(u32),
}

/// What a `GetAdvListExStatus` holds, as plain values.
pub enum GetAdvListExStatusView {
    OK(Seq<GetAdvListExItemView>),
    EMPTY(u32),
}

/// The games of a list, each as plain values.
pub open spec fn items_view(items: Seq<GetAdvListExItem>) -> Seq<GetAdvListExItemView> {
    Seq::new(items.len(), |i: int| items[i]@)
}

impl View for GetAdvListExStatus {
    type V = GetAdvListExStatusView;

    open spec fn view(&self) -> GetAdvListExStatusView {
        match self {
            GetAdvListExStatus::OK(items) => GetAdvListExStatusView::OK(items_view(items@)),
            GetAdvListExStatus::EMPTY(code) => GetAdvListExStatusView::EMPTY(*code),
        }
    }
}

/// The answer to a request for the game list.
#[derive(Clone, Debug, PartialEq, Eq)]
pub struct GetAdvListEx {
    pub count: u32,
    pub status: GetAdvListExStatus,
}

/// What a `GetAdvListEx` holds, as plain values.
pub struct GetAdvListExView {
    pub count: u32,
    pub status: GetAdvListExStatusView,
}

impl View for GetAdvListEx {
    type V = GetAdvListExView;

    open spec fn view(&self) -> GetAdvListExView {
        GetAdvListExView { count: self.count, status: self.status@ }
    }
}

/// The names under which the client has entered chat.
#[derive(Clone, Debug, PartialEq, Eq)]
pub struct EnterChat {
    pub unique_name: Vec<u8>,
    pub statstring: Vec<u8>,
    pub account_name: Vec<u8>,
}

/// What an `EnterChat` holds, as plain values.
pub struct EnterChatView {
    pub unique_name: Seq<u8>,
    pub statstring: Seq<u8>,
    pub account_name: Seq<u8>,
}

impl View for EnterChat {
    type V = EnterChatView;

    open spec fn view(&self) -> EnterChatView {
        EnterChatView {
            unique_name: self.unique_name@,
            statstring: self.statstring@,
            account_name: self.account_name@,
        }
    }
}

/// What happened in chat.
#[derive(Clone, Copy, Debug, PartialEq, Eq, Structural)]
pub enum ChatEventID {
    ShowUser,
    Join,
    Leave,
    Whisper,
    Talk,
    Broadcast,
    Channel,
    Userflags,
    WhisperSent,
    ChannelFull,
    ChannelDoesNotExist,
    ChannelRestricted,
    Info,
    Error,
    Ignore,
    Accept,
    Emote,
    Invalid,
}

impl ChatEventID {
    /// The number that stands for each event on the wire. `Invalid` stands
    /// for every number that no event uses and is given `0xFF`.
    pub open spec fn spec_code(self) -> u32 {
        match self {
            ChatEventID::ShowUser => 0x01,
            ChatEventID::Join => 0x02,
            ChatEventID::Leave => 0x03,
            ChatEventID::Whisper => 0x04,
            ChatEventID::Talk => 0x05,
            ChatEventID::Broadcast => 0x06,
            ChatEventID::Channel => 0x07,
            ChatEventID::Userflags => 0x09,
            ChatEventID::WhisperSent => 0x0A,
            ChatEventID::ChannelFull => 0x0D,
            ChatEventID::ChannelDoesNotExist => 0x0E,
            ChatEventID::ChannelRestricted => 0x0F,
            ChatEventID::Info => 0x12,
            ChatEventID::Error => 0x13,
            ChatEventID::Ignore => 0x15,
            ChatEventID::Accept => 0x16,
            ChatEventID::Emote => 0x17,
            ChatEventID::Invalid => 0xFF,
        }
    }

    /// The event that a number stands for: the one event with that number,
    /// or `Invalid` where there is none.
    pub open spec fn spec_from_id(id: u32) -> ChatEventID {
        if id == 0x01 {
            ChatEventID::ShowUser
        } else if id == 0x02 {
            ChatEventID::Join
        } else if id == 0x03 {
            ChatEventID::Leave
        } else if id == 0x04 {
            ChatEventID::Whisper
        } else if id == 0x05 {
            ChatEventID::Talk
        } else if id == 0x06 {
            ChatEventID::Broadcast
        } else if id == 0x07 {
            ChatEventID::Channel
        } else if id == 0x09 {
            ChatEventID::Userflags
        } else if id == 0x0A {
            ChatEventID::WhisperSent
        } else if id == 0x0D {
            ChatEventID::ChannelFull
        } else if id == 0x0E {
            ChatEventID::ChannelDoesNotExist
        } else if id == 0x0F {
            ChatEventID::ChannelRestricted
        } else if id == 0x12 {
            ChatEventID::Info
        } else if id == 0x13 {
            ChatEventID::Error
        } else if id == 0x15 {
            ChatEventID::Ignore
        } else if id == 0x16 {
            ChatEventID::Accept
        } else if id == 0x17 {
            ChatEventID::Emote
        } else {
            ChatEventID::Invalid
        }
    }

    /// Maps a number to the event it stands for. Total: a number that no
    /// event uses gives `Invalid`.
    pub fn from_id(id: u32) -> (event: ChatEventID)
        ensures
            event == Self::spec_from_id(id),
            event != ChatEventID::Invalid ==> event.spec_code() == id,
    {
        match id {
            0x01 => ChatEventID::ShowUser,
            0x02 => ChatEventID::Join,
            0x03 => ChatEventID::Leave,
            0x04 => ChatEventID::Whisper,
            0x05 => ChatEventID::Talk,
            0x06 => ChatEventID::Broadcast,
            0x07 => ChatEventID::Channel,
            0x09 => ChatEventID::Userflags,
            0x0A => ChatEventID::WhisperSent,
            0x0D => ChatEventID::ChannelFull,
            0x0E => ChatEventID::ChannelDoesNotExist,
            0x0F => ChatEventID::ChannelRestricted,
            0x12 => ChatEventID::Info,
            0x13 => ChatEventID::Error,
            0x15 => ChatEventID::Ignore,
            0x16 => ChatEventID::Accept,
            0x17 => ChatEventID::Emote,
            _ => ChatEventID::Invalid,
        }
    }
}

/// Something that happened in chat.
#[derive(Clone, Debug, PartialEq, Eq)]
pub struct ChatEvent {
    pub event_id: ChatEventID,
    pub user_flags: u32,
    pub ping: u32,
    pub username: Vec<u8>,
    pub text: Vec<u8>,
}

/// What a `ChatEvent` holds, as plain values.
pub struct ChatEventView {
    pub event_id: ChatEventID,
    pub user_flags: u32,
    pub ping: u32,
    pub username: Seq<u8>,
    pub text: Seq<u8>,
}

impl View for ChatEvent {
    type V = ChatEventView;

    open spec fn view(&self) -> ChatEventView {
        ChatEventView {
            event_id: self.event_id,
            user_flags: self.user_flags,
            ping: self.ping,
            username: self.username@,
            text: self.text@,
        }
    }
}

/// Whether a game was advertised.
#[derive(Clone, Copy, Debug, PartialEq, Eq, Structural)]
pub enum StartAdvEx3Status {
    OK,
    Failed,
    Invalid,
}

impl StartAdvEx3Status {
    /// The status that a number stands for: 0 is `OK`, 1 is `Failed`, and
    /// every other number is `Invalid`.
    pub open spec fn spec_from_id(id: u32) -> StartAdvEx3Status {
        if id == 0 {
            StartAdvEx3Status::OK
        } else if id == 1 {
            StartAdvEx3Status::Failed
        } else {
            StartAdvEx3Status::Invalid
        }
    }

    /// Maps a number to the status it stands for.
    pub fn from_id(id: u32) -> (status: StartAdvEx3Status)
        ensures
            status == Self::spec_from_id(id),
    {
        match id {
            0 => StartAdvEx3Status::OK,
            1 => StartAdvEx3Status::Failed,
            _ => StartAdvEx3Status::Invalid,
        }
    }
}

/// The answer to advertising a game.
#[derive(Clone, Copy, Debug, PartialEq, Eq, Structural)]
pub struct StartAdvEx3 {
    pub status: StartAdvEx3Status,
}

/// A ping, whose value the receiver echoes.
#[derive(Clone, Copy, Debug, PartialEq, Eq, Structural)]
pub struct Ping {
    pub value: u32,
}

/// The server's opening of the handshake.
#[derive(Clone, Debug, PartialEq, Eq)]
pub struct AuthInfo {
    pub logon_type: u32,
    pub server_token: u32,
    pub udp_value: u32,
    pub mpq_filetime: u64,
    pub mpq_filename: Vec<u8>,
    pub value_string: Vec<u8>,
    pub server_signature: [u8; 128],
}

/// What an `AuthInfo` holds, as plain values.
pub struct AuthInfoView {
    pub logon_type: u32,
    pub server_token: u32,
    pub udp_value: u32,
    pub mpq_filetime: u64,
    pub mpq_filename: Seq<u8>,
    pub value_string: Seq<u8>,
    pub server_signature: Seq<u8>,
}

impl View for AuthInfo {
    type V = AuthInfoView;

    open spec fn view(&self) -> AuthInfoView {
        AuthInfoView {
            logon_type: self.logon_type,
            server_token: self.server_token,
            udp_value: self.udp_value,
            mpq_filetime: self.mpq_filetime,
            mpq_filename: self.mpq_filename@,
            value_string: self.value_string@,
            server_signature: self.server_signature@,
        }
    }
}

/// The server's verdict on the client's version and keys.
#[derive(Clone, Debug, PartialEq, Eq)]
pub struct AuthCheck {
    pub status: u32,
    pub info: Vec<u8>,
}

/// What an `AuthCheck` holds, as plain values.
pub struct AuthCheckView {
    pub status: u32,
    pub info: Seq<u8>,
}

impl View for AuthCheck {
    type V = AuthCheckView;

    open spec fn view(&self) -> AuthCheckView {
        AuthCheckView { status: self.status, info: self.info@ }
    }
}

/// The server's answer to the beginning of the account logon.
#[derive(Clone, Debug, PartialEq, Eq)]
pub struct AuthAccountLogon {
    pub status: u32,
    pub salt: [u8; 32],
    pub server_key: [u8; 32],
}

/// What an `AuthAccountLogon` holds, as plain values.
pub struct AuthAccountLogonView {
    pub status: u32,
    pub salt: Seq<u8>,
    pub server_key: Seq<u8>,
}

impl View for AuthAccountLogon {
    type V = AuthAccountLogonView;

    open spec fn view(&self) -> AuthAccountLogonView {
        AuthAccountLogonView {
            status: self.status,
            salt: self.salt@,
            server_key: self.server_key@,
        }
    }
}

/// The server's answer to the client's proof.
#[derive(Clone, Debug, PartialEq, Eq)]
pub struct AuthAccountLogonProof {
    pub status: u32,
    pub proof: [u8; 20],
    pub info: Vec<u8>,
}

/// What an `AuthAccountLogonProof` holds, as plain values.
pub struct AuthAccountLogonProofView {
    pub status: u32,
    pub proof: Seq<u8>,
    pub info: Seq<u8>,
}

impl View for AuthAccountLogonProof {
    type V = AuthAccountLogonProofView;

    open spec fn view(&self) -> AuthAccountLogonProofView {
        AuthAccountLogonProofView { status: self.status, proof: self.proof@, info: self.info@ }
    }
}

impl View for Ping {
    type V = Ping;

    open spec fn view(&self) -> Ping {
        *self
    }
}

impl View for StartAdvEx3 {
    type V = StartAdvEx3;

    open spec fn view(&self) -> StartAdvEx3 {
        *self
    }
}

/// The layout of a ping: the value to echo.
pub open spec fn parse_ping(s: Seq<u8>) -> Taken<Ping> {
    match take_u32(s) {
        (Ok(value), rest) => (Ok(Ping { value }), rest),
        (Err(e), rest) => (Err(e), rest),
    }
}

/// The layout of the answer to advertising a game: the status code.
pub open spec fn parse_start_adv_ex3(s: Seq<u8>) -> Taken<StartAdvEx3> {
    match take_u32(s) {
        (Ok(code), rest) => (
            Ok(StartAdvEx3 { status: StartAdvEx3Status::spec_from_id(code) }),
            rest,
        ),
        (Err(e), rest) => (Err(e), rest),
    }
}

/// The layout of the names under which the client has entered chat: unique
/// name, stat string and account name, each zero-terminated.
#[verifier::opaque]
pub open spec fn parse_enter_chat(s: Seq<u8>) -> Taken<EnterChatView> {
    match take_cstr(s) {
        (Err(e), rest) => (Err(e), rest),
        (Ok(unique_name), s1) => match take_cstr(s1) {
            (Err(e), rest) => (Err(e), rest),
            (Ok(statstring), s2) => match take_cstr(s2) {
                (Err(e), rest) => (Err(e), rest),
                (Ok(account_name), rest) => (
                    Ok(EnterChatView { unique_name, statstring, account_name }),
                    rest,
                ),
            },
        },
    }
}

/// The layout of a chat event: event code, user flags, ping, twelve bytes
/// that are passed over, then the user's name and the text, each
/// zero-terminated.
#[verifier::opaque]
pub open spec fn parse_chat_event(s: Seq<u8>) -> Taken<ChatEventView> {
    match take_u32(s) {
        (Err(e), rest) => (Err(e), rest),
        (Ok(code), s1) => match take_u32(s1) {
            (Err(e), rest) => (Err(e), rest),
            (Ok(user_flags), s2) => match take_u32(s2) {
                (Err(e), rest) => (Err(e), rest),
                (Ok(ping), s3) => match take_bytes(s3, 12) {
                    (Err(e), rest) => (Err(e), rest),
                    (Ok(_), s4) => match take_cstr(s4) {
                        (Err(e), rest) => (Err(e), rest),
                        (Ok(username), s5) => match take_cstr(s5) {
                            (Err(e), rest) => (Err(e), rest),
                            (Ok(text), rest) => (
                                Ok(
                                    ChatEventView {
                                        event_id: ChatEventID::spec_from_id(code),
                                        user_flags,
                                        ping,
                                        username,
                                        text,
                                    },
                                ),
                                rest,
                            ),
                        },
                    },
                },
            },
        },
    }
}

/// The layout of the server's opening of the handshake: logon type, server
/// token, UDP value, the file time in 64 bits, file name and value string,
/// each zero-terminated, then the 128 bytes of the server's signature.
#[verifier::opaque]
pub open spec fn parse_auth_info(s: Seq<u8>) -> Taken<AuthInfoView> {
    match take_u32(s) {
        (Err(e), rest) => (Err(e), rest),
        (Ok(logon_type), s1) => match take_u32(s1) {
            (Err(e), rest) => (Err(e), rest),
            (Ok(server_token), s2) => match take_u32(s2) {
                (Err(e), rest) => (Err(e), rest),
                (Ok(udp_value), s3) => match take_u64(s3) {
                    (Err(e), rest) => (Err(e), rest),
                    (Ok(mpq_filetime), s4) => match take_cstr(s4) {
                        (Err(e), rest) => (Err(e), rest),
                        (Ok(mpq_filename), s5) => match take_cstr(s5) {
                            (Err(e), rest) => (Err(e), rest),
                            (Ok(value_string), s6) => match take_bytes(s6, 128) {
                                (Err(e), rest) => (Err(e), rest),
                                (Ok(server_signature), rest) => (
                                    Ok(
                                        AuthInfoView {
                                            logon_type,
                                            server_token,
                                            udp_value,
                                            mpq_filetime,
                                            mpq_filename,
                                            value_string,
                                            server_signature,
                                        },
                                    ),
                                    rest,
                                ),
                            },
                        },
                    },
                },
            },
        },
    }
}

/// The layout of the server's verdict on version and keys: the status, then
/// a message, zero-terminated.
#[verifier::opaque]
pub open spec fn parse_auth_check(s: Seq<u8>) -> Taken<AuthCheckView> {
    match take_u32(s) {
        (Err(e), rest) => (Err(e), rest),
        (Ok(status), s1) => match take_cstr(s1) {
            (Err(e), rest) => (Err(e), rest),
            (Ok(info), rest) => (Ok(AuthCheckView { status, info }), rest),
        },
    }
}

/// The layout of the answer to the beginning of the account logon: the
/// status, 32 bytes of salt and 32 bytes of server key.
#[verifier::opaque]
pub open spec fn parse_auth_account_logon(s: Seq<u8>) -> Taken<AuthAccountLogonView> {
    match take_u32(s) {
        (Err(e), rest) => (Err(e), rest),
        (Ok(status), s1) => match take_bytes(s1, 32) {
            (Err(e), rest) => (Err(e), rest),
            (Ok(salt), s2) => match take_bytes(s2, 32) {
                (Err(e), rest) => (Err(e), rest),
                (Ok(server_key), rest) => (
                    Ok(AuthAccountLogonView { status, salt, server_key }),
                    rest,
                ),
            },
        },
    }
}

/// The layout of the answer to the client's proof: the status, 20 bytes of
/// the server's proof, then a message, zero-terminated.
#[verifier::opaque]
pub open spec fn parse_auth_account_logon_proof(s: Seq<u8>) -> Taken<AuthAccountLogonProofView> {
    match take_u32(s) {
        (Err(e), rest) => (Err(e), rest),
        (Ok(status), s1) => match take_bytes(s1, 20) {
            (Err(e), rest) => (Err(e), rest),
            (Ok(proof), s2) => match take_cstr(s2) {
                (Err(e), rest) => (Err(e), rest),
                (Ok(info), rest) => (Ok(AuthAccountLogonProofView { status, proof, info }), rest),
            },
        },
    }
}

/// The layout of one advertised game: settings, language id, address
/// family, port, host address, eight bytes that are passed over, status,
/// seconds since creation, then name, password and stat string, each
/// zero-terminated.
#[verifier::opaque]
pub open spec fn parse_item(s: Seq<u8>) -> Taken<GetAdvListExItemView> {
    match take_u32(s) {
        (Err(e), rest) => (Err(e), rest),
        (Ok(game_settings), s1) => match take_u32(s1) {
            (Err(e), rest) => (Err(e), rest),
            (Ok(language_id), s2) => match take_u16(s2) {
                (Err(e), rest) => (Err(e), rest),
                (Ok(address_family), s3) => match take_u16(s3) {
                    (Err(e), rest) => (Err(e), rest),
                    (Ok(address_port), s4) => match take_u32(s4) {
                        (Err(e), rest) => (Err(e), rest),
                        (Ok(host_ip), s5) => match take_bytes(s5, 8) {
                            (Err(e), rest) => (Err(e), rest),
                            (Ok(_), s6) => match take_u32(s6) {
                                (Err(e), rest) => (Err(e), rest),
                                (Ok(game_status), s7) => match take_u32(s7) {
                                    (Err(e), rest) => (Err(e), rest),
                                    (Ok(elapsed_time), s8) => parse_item_strings(
                                        s8,
                                        GetAdvListExItemView {
                                            game_settings,
                                            language_id,
                                            address_family,
                                            address_port,
                                            host_ip,
                                            game_status,
                                            elapsed_time,
                                            game_name: Seq::empty(),
                                            game_password: Seq::empty(),
                                            game_statstring: Seq::empty(),
                                        },
                                    ),
                                },
                            },
                        },
                    },
                },
            },
        },
    }
}

/// The three zero-terminated strings that end the layout of an advertised
/// game, read into `fixed`, which holds the fields before them.
pub open spec fn parse_item_strings(s: Seq<u8>, fixed: GetAdvListExItemView) -> Taken<
    GetAdvListExItemView,
> {
    match take_cstr(s) {
        (Err(e), rest) => (Err(e), rest),
        (Ok(game_name), s1) => match take_cstr(s1) {
            (Err(e), rest) => (Err(e), rest),
            (Ok(game_password), s2) => match take_cstr(s2) {
                (Err(e), rest) => (Err(e), rest),
                (Ok(game_statstring), rest) => (
                    Ok(GetAdvListExItemView { game_name, game_password, game_statstring, ..fixed }),
                    rest,
                ),
            },
        },
    }
}

/// `count` advertised games one after the other, added to the games in
/// `found`. The first game that cannot be read ends the reading with its
/// error.
pub open spec fn parse_items(s: Seq<u8>, count: nat, found: Seq<GetAdvListExItemView>) -> Taken<
    Seq<GetAdvListExItemView>,
>
    decreases count,
{
    if count == 0 {
        (Ok(found), s)
    } else {
        match parse_item(s) {
            (Err(e), rest) => (Err(e), rest),
            (Ok(item), rest) => parse_items(rest, (count - 1) as nat, found.push(item)),
        }
    }
}

/// The layout of the answer to a request for the game list: the number of
/// games; then, where it is zero, the reason why there are none, and
/// otherwise that many games.
#[verifier::opaque]
pub open spec fn parse_get_adv_list_ex(s: Seq<u8>) -> Taken<GetAdvListExView> {
    match take_u32(s) {
        (Err(e), rest) => (Err(e), rest),
        (Ok(count), s1) => if count == 0 {
            match take_u32(s1) {
                (Err(e), rest) => (Err(e), rest),
                (Ok(reason), rest) => (
                    Ok(GetAdvListExView { count: 0, status: GetAdvListExStatusView::EMPTY(reason) }),
                    rest,
                ),
            }
        } else {
            match parse_items(s1, count as nat, Seq::empty()) {
                (Err(e), rest) => (Err(e), rest),
                (Ok(items), rest) => (
                    Ok(GetAdvListExView { count, status: GetAdvListExStatusView::OK(items) }),
                    rest,
                ),
            }
        },
    }
}

/// Reading `count` games gives `count` games more than were found before.
pub proof fn lemma_parse_items_len(s: Seq<u8>, count: nat, found: Seq<GetAdvListExItemView>)
    ensures
        parse_items(s, count, found).0 matches Ok(items) ==> items.len() == found.len() + count,
    decreases count,
{
    if count > 0 {
        if let (Ok(item), rest) = parse_item(s) {
            lemma_parse_items_len(rest, (count - 1) as nat, found.push(item));
        }
    }
}

/// What the four bytes of a header say: the kind of the packet and its
/// total length, header included. A header is refused where its first
/// byte is not the marker, or where the length it declares is less than
/// its own.
pub open spec fn parse_header(s: Seq<u8>) -> Result<(PacketID, usize), FramingError>
    recommends
        s.len() >= 4,
{
    if s[0] != BNET_HEADER {
        Err(FramingError::BadMarker)
    } else if u16_from_le(s.skip(2)) < BNET_HEADER_LENGTH {
        Err(FramingError::LengthBelowHeader)
    } else {
        Ok((PacketID::spec_from_id(s[1]), u16_from_le(s.skip(2)) as usize))
    }
}

/// A payload must be read to its last byte: a value with bytes left after
/// it is refused.
pub open spec fn whole<T>(taken: Taken<T>) -> Result<T, PayloadDecodeError> {
    match taken {
        (Ok(value), rest) => if rest.len() == 0 {
            Ok(value)
        } else {
            Err(PayloadDecodeError::LengthMismatch)
        },
        (Err(e), _) => Err(e),
    }
}

/// The kinds of which the server's layout is known. A packet of any other
/// kind is kept as it came.
pub open spec fn has_layout(id: PacketID) -> bool {
    match id {
        PacketID::NULL
        | PacketID::GETADVLISTEX
        | PacketID::ENTERCHAT
        | PacketID::CHATEVENT
        | PacketID::STARTADVEX3
        | PacketID::PING
        | PacketID::AUTHINFO
        | PacketID::AUTHCHECK
        | PacketID::AUTHACCOUNTLOGON
        | PacketID::AUTHACCOUNTLOGONPROOF => true,
        _ => false,
    }
}

/// The packet that a payload of the given kind holds. A kind for which the
/// server's layout is known is read by that layout, to the last byte. A
/// packet of any other kind, `UNKNOWN` among them, is kept as it came.
pub open spec fn parse_payload(id: PacketID, s: Seq<u8>) -> Result<
    BNetIncomingPacketView,
    PayloadDecodeError,
> {
    match id {
        PacketID::NULL => if s.len() == 0 {
            Ok(BNetIncomingPacketView::Null)
        } else {
            Err(PayloadDecodeError::LengthMismatch)
        },
        PacketID::GETADVLISTEX => match whole(parse_get_adv_list_ex(s)) {
            Ok(v) => Ok(BNetIncomingPacketView::GetAdvListEx(v)),
            Err(e) => Err(e),
        },
        PacketID::ENTERCHAT => match whole(parse_enter_chat(s)) {
            Ok(v) => Ok(BNetIncomingPacketView::EnterChat(v)),
            Err(e) => Err(e),
        },
        PacketID::CHATEVENT => match whole(parse_chat_event(s)) {
            Ok(v) => Ok(BNetIncomingPacketView::ChatEvent(v)),
            Err(e) => Err(e),
        },
        PacketID::STARTADVEX3 => match whole(parse_start_adv_ex3(s)) {
            Ok(v) => Ok(BNetIncomingPacketView::StartAdvEx3(v)),
            Err(e) => Err(e),
        },
        PacketID::PING => match whole(parse_ping(s)) {
            Ok(v) => Ok(BNetIncomingPacketView::Ping(v)),
            Err(e) => Err(e),
        },
        PacketID::AUTHINFO => match whole(parse_auth_info(s)) {
            Ok(v) => Ok(BNetIncomingPacketView::AuthInfo(v)),
            Err(e) => Err(e),
        },
        PacketID::AUTHCHECK => match whole(parse_auth_check(s)) {
            Ok(v) => Ok(BNetIncomingPacketView::AuthCheck(v)),
            Err(e) => Err(e),
        },
        PacketID::AUTHACCOUNTLOGON => match whole(parse_auth_account_logon(s)) {
            Ok(v) => Ok(BNetIncomingPacketView::AuthAccountLogon(v)),
            Err(e) => Err(e),
        },
        PacketID::AUTHACCOUNTLOGONPROOF => match whole(parse_auth_account_logon_proof(s)) {
            Ok(v) => Ok(BNetIncomingPacketView::AuthAccountLogonProof(v)),
            Err(e) => Err(e),
        },
        _ => Ok(BNetIncomingPacketView::Raw { id, payload: s }),
    }
}

/// Ends the reading of a payload: the value stands only if no byte is left.
pub fn finish<T>(buf: &BytesMut, r: Result<T, PayloadDecodeError>) -> (done: Result<
    T,
    PayloadDecodeError,
>)
    ensures
        done == whole((r, buf_bytes(*buf))),
{
    match r {
        Ok(value) => if buf_len(buf) == 0 {
            Ok(value)
        } else {
            Err(PayloadDecodeError::LengthMismatch)
        },
        Err(e) => Err(e),
    }
}

/// Reads each kind of payload off the front of a buffer, field by field in
/// the order of its layout. Where a field cannot be read, the reader stops
/// there with the error of that field.
pub trait PacketReader {
    /// Reads the header at the front of `buf` and leaves it there: the kind
    /// of the packet and its total length, header included.
    fn read_header(&self, buf: &BytesMut) -> (r: Result<(PacketID, usize), FramingError>)
        requires
            buf_bytes(*buf).len() >= 4,
        ensures
            r == parse_header(buf_bytes(*buf)),
    {
        let bytes = buf_as_slice(buf);
        if bytes[0] != BNET_HEADER {
            return Err(FramingError::BadMarker);
        }
        let id = PacketID::from_id(bytes[1]);
        let length: u16 = le_read_u16(slice_subrange(bytes, 2, 4));
        proof {
            assert(bytes@.subrange(2, 4)[0] == bytes@.skip(2)[0]);
            assert(bytes@.subrange(2, 4)[1] == bytes@.skip(2)[1]);
        }
        if length < BNET_HEADER_LENGTH {
            return Err(FramingError::LengthBelowHeader);
        }
        Ok((id, length as usize))
    }

    /// Reads the payload of a packet of kind `id`, which must fill
    /// `payload` exactly.
    fn read_payload(id: PacketID, payload: BytesMut) -> (r: Result<
        BNetIncomingPacket,
        PayloadDecodeError,
    >)
        ensures
            agrees(r, parse_payload(id, buf_bytes(payload))),
    {
        let mut buf = payload;
        match id {
            PacketID::NULL => {
                Self::read_null(&mut buf);
                let r = finish(&buf, Ok(BNetIncomingPacket::Null));
                r
            },
            PacketID::GETADVLISTEX => {
                let r = Self::read_get_adv_list_ex(&mut buf);
                match finish(&buf, r) {
                    Ok(v) => Ok(BNetIncomingPacket::GetAdvListEx(v)),
                    Err(e) => Err(e),
                }
            },
            PacketID::ENTERCHAT => {
                let r = Self::read_enter_chat(&mut buf);
                match finish(&buf, r) {
                    Ok(v) => Ok(BNetIncomingPacket::EnterChat(v)),
                    Err(e) => Err(e),
                }
            },
            PacketID::CHATEVENT => {
                let r = Self::read_chat_event(&mut buf);
                match finish(&buf, r) {
                    Ok(v) => Ok(BNetIncomingPacket::ChatEvent(v)),
                    Err(e) => Err(e),
                }
            },
            PacketID::STARTADVEX3 => {
                let r = Self::read_start_adv_ex3(&mut buf);
                match finish(&buf, r) {
                    Ok(v) => Ok(BNetIncomingPacket::StartAdvEx3(v)),
                    Err(e) => Err(e),
                }
            },
            PacketID::PING => {
                let r = Self::read_ping(&mut buf);
                match finish(&buf, r) {
                    Ok(v) => Ok(BNetIncomingPacket::Ping(v)),
                    Err(e) => Err(e),
                }
            },
            PacketID::AUTHINFO => {
                let r = Self::read_auth_info(&mut buf);
                match finish(&buf, r) {
                    Ok(v) => Ok(BNetIncomingPacket::AuthInfo(v)),
                    Err(e) => Err(e),
                }
            },
            PacketID::AUTHCHECK => {
                let r = Self::read_auth_check(&mut buf);
                match finish(&buf, r) {
                    Ok(v) => Ok(BNetIncomingPacket::AuthCheck(v)),
                    Err(e) => Err(e),
                }
            },
            PacketID::AUTHACCOUNTLOGON => {
                let r = Self::read_auth_account_logon(&mut buf);
                match finish(&buf, r) {
                    Ok(v) => Ok(BNetIncomingPacket::AuthAccountLogon(v)),
                    Err(e) => Err(e),
                }
            },
            PacketID::AUTHACCOUNTLOGONPROOF => {
                let r = Self::read_auth_account_logon_proof(&mut buf);
                match finish(&buf, r) {
                    Ok(v) => Ok(BNetIncomingPacket::AuthAccountLogonProof(v)),
                    Err(e) => Err(e),
                }
            },
            _ => {
                let payload = slice_to_vec(buf_as_slice(&buf));
                Ok(BNetIncomingPacket::Raw { id, payload })
            },
        }
    }

    /// Reads a zero-terminated byte string: the bytes before the first zero
    /// byte are the value, and the zero byte is passed over.
    fn read_cstring(buf: &mut BytesMut) -> (r: Result<Vec<u8>, PayloadDecodeError>)
        ensures
            agrees(r, take_cstr(buf_bytes(*old(buf))).0),
            buf_bytes(*final(buf)) == take_cstr(buf_bytes(*old(buf))).1,
    {
        crate::reader::read_cstring(buf)
    }

    /// Reads the payload of the packet that has none: takes nothing.
    fn read_null(buf: &mut BytesMut)
        ensures
            buf_bytes(*final(buf)) == buf_bytes(*old(buf)),
    {
    }

    /// Reads the names under which the client has entered chat.
    fn read_enter_chat(buf: &mut BytesMut) -> (r: Result<EnterChat, PayloadDecodeError>)
        ensures
            agrees(r, parse_enter_chat(buf_bytes(*old(buf))).0),
            buf_bytes(*final(buf)) == parse_enter_chat(buf_bytes(*old(buf))).1,
    {
        proof {
            reveal(parse_enter_chat);
        }
        let unique_name = Self::read_cstring(buf)?;
        let statstring = Self::read_cstring(buf)?;
        let account_name = Self::read_cstring(buf)?;

        Ok(EnterChat { unique_name, statstring, account_name })
    }

    /// Reads a chat event.
    fn read_chat_event(buf: &mut BytesMut) -> (r: Result<ChatEvent, PayloadDecodeError>)
        ensures
            agrees(r, parse_chat_event(buf_bytes(*old(buf))).0),
            buf_bytes(*final(buf)) == parse_chat_event(buf_bytes(*old(buf))).1,
    {
        proof {
            reveal(parse_chat_event);
        }
        let event_id = ChatEventID::from_id(read_u32(buf)?);
        let user_flags: u32 = read_u32(buf)?;
        let ping: u32 = read_u32(buf)?;
        skip_bytes(buf, 12)?;
        let username = Self::read_cstring(buf)?;
        let text = Self::read_cstring(buf)?;

        Ok(ChatEvent { event_id, user_flags, ping, username, text })
    }

    /// Reads the server's opening of the handshake.
    fn read_auth_info(buf: &mut BytesMut) -> (r: Result<AuthInfo, PayloadDecodeError>)
        ensures
            agrees(r, parse_auth_info(buf_bytes(*old(buf))).0),
            buf_bytes(*final(buf)) == parse_auth_info(buf_bytes(*old(buf))).1,
    {
        proof {
            reveal(parse_auth_info);
        }
        let logon_type: u32 = read_u32(buf)?;
        let server_token: u32 = read_u32(buf)?;
        let udp_value: u32 = read_u32(buf)?;
        let mpq_filetime: u64 = read_u64(buf)?;
        let mpq_filename = Self::read_cstring(buf)?;
        let value_string = Self::read_cstring(buf)?;
        let server_signature = read_array::<128>(buf)?;

        Ok(
            AuthInfo {
                logon_type,
                server_token,
                udp_value,
                mpq_filetime,
                mpq_filename,
                value_string,
                server_signature,
            },
        )
    }

    /// Reads the server's verdict on version and keys.
    fn read_auth_check(buf: &mut BytesMut) -> (r: Result<AuthCheck, PayloadDecodeError>)
        ensures
            agrees(r, parse_auth_check(buf_bytes(*old(buf))).0),
            buf_bytes(*final(buf)) == parse_auth_check(buf_bytes(*old(buf))).1,
    {
        proof {
            reveal(parse_auth_check);
        }
        let status: u32 = read_u32(buf)?;
        let info = Self::read_cstring(buf)?;
        Ok(AuthCheck { status, info })
    }

    /// Reads the answer to the beginning of the account logon.
    fn read_auth_account_logon(buf: &mut BytesMut) -> (r: Result<
        AuthAccountLogon,
        PayloadDecodeError,
    >)
        ensures
            agrees(r, parse_auth_account_logon(buf_bytes(*old(buf))).0),
            buf_bytes(*final(buf)) == parse_auth_account_logon(buf_bytes(*old(buf))).1,
    {
        proof {
            reveal(parse_auth_account_logon);
        }
        let status: u32 = read_u32(buf)?;
        let salt = read_array::<32>(buf)?;
        let server_key = read_array::<32>(buf)?;

        Ok(AuthAccountLogon { status, salt, server_key })
    }

    /// Reads the answer to the client's proof.
    fn read_auth_account_logon_proof(buf: &mut BytesMut) -> (r: Result<
        AuthAccountLogonProof,
        PayloadDecodeError,
    >)
        ensures
            agrees(r, parse_auth_account_logon_proof(buf_bytes(*old(buf))).0),
            buf_bytes(*final(buf)) == parse_auth_account_logon_proof(buf_bytes(*old(buf))).1,
    {
        proof {
            reveal(parse_auth_account_logon_proof);
        }
        let status: u32 = read_u32(buf)?;
        let proof = read_array::<20>(buf)?;
        let info = Self::read_cstring(buf)?;

        Ok(AuthAccountLogonProof { status, proof, info })
    }

    /// Reads one advertised game.
    fn read_item(buf: &mut BytesMut) -> (r: Result<GetAdvListExItem, PayloadDecodeError>)
        ensures
            agrees(r, parse_item(buf_bytes(*old(buf))).0),
            buf_bytes(*final(buf)) == parse_item(buf_bytes(*old(buf))).1,
    {
        proof {
            reveal(parse_item);
        }
        let game_settings: u32 = read_u32(buf)?;
        let language_id: u32 = read_u32(buf)?;
        let address_family: u16 = read_u16(buf)?;
        let address_port: u16 = read_u16(buf)?;
        let host_ip: u32 = read_u32(buf)?;
        skip_bytes(buf, 8)?;
        let game_status: u32 = read_u32(buf)?;
        let elapsed_time: u32 = read_u32(buf)?;
        let game_name = Self::read_cstring(buf)?;
        let game_password = Self::read_cstring(buf)?;
        let game_statstring = Self::read_cstring(buf)?;

        Ok(
            GetAdvListExItem {
                game_settings,
                language_id,
                address_family,
                address_port,
                host_ip,
                game_status,
                elapsed_time,
                game_name,
                game_password,
                game_statstring,
            },
        )
    }

    /// Reads the answer to a request for the game list. An answer that
    /// counts no games carries the reason why there are none; any other
    /// carries exactly as many games as it counts.
    fn read_get_adv_list_ex(buf: &mut BytesMut) -> (r: Result<GetAdvListEx, PayloadDecodeError>)
        ensures
            agrees(r, parse_get_adv_list_ex(buf_bytes(*old(buf))).0),
            buf_bytes(*final(buf)) == parse_get_adv_list_ex(buf_bytes(*old(buf))).1,
            r matches Ok(list) ==> match list.status {
                GetAdvListExStatus::OK(games) => list.count > 0 && games@.len() == list.count,
                GetAdvListExStatus::EMPTY(_) => list.count == 0,
            },
    {
        proof {
            reveal(parse_get_adv_list_ex);
        }
        let count: u32 = read_u32(buf)?;

        if count == 0 {
            let reason: u32 = read_u32(buf)?;
            return Ok(GetAdvListEx { count: 0u32, status: GetAdvListExStatus::EMPTY(reason) });
        } else {
            let ghost start = buf_bytes(*buf);
            let mut games: Vec<GetAdvListExItem> = Vec::new();
            let mut i: u32 = 0;
            proof {
                assert(items_view(games@) =~= Seq::empty());
            }
            while i < count
                invariant
                    i <= count,
                    count != 0,
                    games@.len() == i,
                    take_u32(buf_bytes(*old(buf))) == (Ok::<u32, PayloadDecodeError>(count), start),
                    parse_items(start, count as nat, Seq::empty()) == parse_items(
                        buf_bytes(*buf),
                        (count - i) as nat,
                        items_view(games@),
                    ),
                decreases count - i,
            {
                proof {
                    reveal(parse_get_adv_list_ex);
                }
                let ghost before = items_view(games@);
                let game = Self::read_item(buf)?;
                games.push(game);
                proof {
                    assert(items_view(games@) =~= before.push(game@));
                }
                i = i + 1;
            }
            proof {
                lemma_parse_items_len(start, count as nat, Seq::empty());
            }
            return Ok(GetAdvListEx { count: count, status: GetAdvListExStatus::OK(games) });
        }
    }

    /// Reads the payload of a ping.
    fn read_ping(buf: &mut BytesMut) -> (r: Result<Ping, PayloadDecodeError>)
        ensures
            agrees(r, parse_ping(buf_bytes(*old(buf))).0),
            buf_bytes(*final(buf)) == parse_ping(buf_bytes(*old(buf))).1,
    {
        let value: u32 = read_u32(buf)?;
        Ok(Ping { value })
    }

    /// Reads the payload of the answer to advertising a game.
    fn read_start_adv_ex3(buf: &mut BytesMut) -> (r: Result<StartAdvEx3, PayloadDecodeError>)
        ensures
            agrees(r, parse_start_adv_ex3(buf_bytes(*old(buf))).0),
            buf_bytes(*final(buf)) == parse_start_adv_ex3(buf_bytes(*old(buf))).1,
    {
        let code: u32 = read_u32(buf)?;
        Ok(StartAdvEx3 { status: StartAdvEx3Status::from_id(code) })
    }
}

} // verus!
