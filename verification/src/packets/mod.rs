//! Packet identities and the one-byte codes that stand for them on the wire.

pub mod c2s;
pub mod layout;
pub mod s2c;

use bytes::Bytes;
use vstd::prelude::*;

use crate::buffer::data_bytes;
use crate::packets::c2s::account_logon;
use crate::packets::c2s::account_logon_payload;
use crate::packets::c2s::account_logon_proof;
use crate::packets::c2s::account_logon_proof_payload;
use crate::packets::c2s::auth_check;
use crate::packets::c2s::auth_check_payload;
use crate::packets::c2s::auth_info;
use crate::packets::c2s::auth_info_payload;
use crate::packets::c2s::chat_command;
use crate::packets::c2s::chat_command_payload;
use crate::packets::c2s::enter_chat;
use crate::packets::c2s::enter_chat_payload;
use crate::packets::c2s::frame;
use crate::packets::c2s::get_adv_list_ex;
use crate::packets::c2s::get_adv_list_ex_payload;
use crate::packets::c2s::join_channel;
use crate::packets::c2s::join_channel_payload;
use crate::packets::c2s::net_game_port;
use crate::packets::c2s::net_game_port_payload;
use crate::packets::c2s::null;
use crate::packets::c2s::ping;
use crate::packets::c2s::ping_payload;
use crate::packets::c2s::start_adv_ex3;
use crate::packets::c2s::start_adv_ex3_payload;
use crate::packets::c2s::stop_adv;
use crate::packets::c2s::JoinChannelFlag;
use crate::packets::c2s::StartAdvEx3GameState;
use crate::packets::c2s::MAX_PAYLOAD_LENGTH;

use crate::packets::s2c::AuthAccountLogon;
use crate::packets::s2c::AuthAccountLogonProof;
use crate::packets::s2c::AuthAccountLogonProofView;
use crate::packets::s2c::AuthAccountLogonView;
use crate::packets::s2c::AuthCheck;
use crate::packets::s2c::AuthCheckView;
use crate::packets::s2c::AuthInfo;
use crate::packets::s2c::AuthInfoView;
use crate::packets::s2c::ChatEvent;
use crate::packets::s2c::ChatEventView;
use crate::packets::s2c::EnterChat;
use crate::packets::s2c::EnterChatView;
use crate::packets::s2c::GetAdvListEx;
use crate::packets::s2c::GetAdvListExView;
use crate::packets::s2c::Ping;
use crate::packets::s2c::StartAdvEx3;

verus! {

/// The closed set of packet identities.
#[derive(Clone, Copy, Debug, PartialEq, Eq, Structural)]
pub enum PacketID {
    UNKNOWN,
    NULL,
    STOPADV,
    GETADVLISTEX,
    ENTERCHAT,
    JOINCHANNEL,
    CHATCOMMAND,
    CHATEVENT,
    STARTADVEX3,
    PING,
    NETGAMEPORT,
    AUTHINFO,
    AUTHCHECK,
    AUTHACCOUNTLOGON,
    AUTHACCOUNTLOGONPROOF,
}

impl PacketID {
    /// The wire code of each identity. `UNKNOWN` has no code of its own and
    /// is given `0xFF`, which no known identity uses.
    pub open spec fn spec_code(self) -> u8 {
        match self {
            PacketID::UNKNOWN => 0xFF,
            PacketID::NULL => 0x00,
            PacketID::STOPADV => 0x02,
            PacketID::GETADVLISTEX => 0x09,
            PacketID::ENTERCHAT => 0x0A,
            PacketID::JOINCHANNEL => 0x0C,
            PacketID::CHATCOMMAND => 0x0E,
            PacketID::CHATEVENT => 0x0F,
            PacketID::STARTADVEX3 => 0x1C,
            PacketID::PING => 0x25,
            PacketID::NETGAMEPORT => 0x45,
            PacketID::AUTHINFO => 0x50,
            PacketID::AUTHCHECK => 0x51,
            PacketID::AUTHACCOUNTLOGON => 0x53,
            PacketID::AUTHACCOUNTLOGONPROOF => 0x54,
        }
    }

    /// The identity that a wire code stands for: the one known identity with
    /// that code, or `UNKNOWN` where there is none.
    pub open spec fn spec_from_id(id: u8) -> PacketID {
        if id == 0x00 {
            PacketID::NULL
        } else if id == 0x02 {
            PacketID::STOPADV
        } else if id == 0x09 {
            PacketID::GETADVLISTEX
        } else if id == 0x0A {
            PacketID::ENTERCHAT
        } else if id == 0x0C {
            PacketID::JOINCHANNEL
        } else if id == 0x0E {
            PacketID::CHATCOMMAND
        } else if id == 0x0F {
            PacketID::CHATEVENT
        } else if id == 0x1C {
            PacketID::STARTADVEX3
        } else if id == 0x25 {
            PacketID::PING
        } else if id == 0x45 {
            PacketID::NETGAMEPORT
        } else if id == 0x50 {
            PacketID::AUTHINFO
        } else if id == 0x51 {
            PacketID::AUTHCHECK
        } else if id == 0x53 {
            PacketID::AUTHACCOUNTLOGON
        } else if id == 0x54 {
            PacketID::AUTHACCOUNTLOGONPROOF
        } else {
            PacketID::UNKNOWN
        }
    }

    /// Maps a wire code to its identity. Total: a code that no identity
    /// uses gives `UNKNOWN`.
    pub fn from_id(id: u8) -> (kind: PacketID)
        ensures
            kind == Self::spec_from_id(id),
            kind != PacketID::UNKNOWN ==> kind.spec_code() == id,
    {
        match id {
            0 => PacketID::NULL,
            2 => PacketID::STOPADV,
            9 => PacketID::GETADVLISTEX,
            10 => PacketID::ENTERCHAT,
            12 => PacketID::JOINCHANNEL,
            14 => PacketID::CHATCOMMAND,
            15 => PacketID::CHATEVENT,
            28 => PacketID::STARTADVEX3,
            37 => PacketID::PING,
            69 => PacketID::NETGAMEPORT,
            80 => PacketID::AUTHINFO,
            81 => PacketID::AUTHCHECK,
            83 => PacketID::AUTHACCOUNTLOGON,
            84 => PacketID::AUTHACCOUNTLOGONPROOF,
            _ => PacketID::UNKNOWN,
        }
    }

    /// The wire code of this identity.
    pub fn code(self) -> (c: u8)
        ensures
            c == self.spec_code(),
    {
        match self {
            PacketID::UNKNOWN => 0xFF,
            PacketID::NULL => 0x00,
            PacketID::STOPADV => 0x02,
            PacketID::GETADVLISTEX => 0x09,
            PacketID::ENTERCHAT => 0x0A,
            PacketID::JOINCHANNEL => 0x0C,
            PacketID::CHATCOMMAND => 0x0E,
            PacketID::CHATEVENT => 0x0F,
            PacketID::STARTADVEX3 => 0x1C,
            PacketID::PING => 0x25,
            PacketID::NETGAMEPORT => 0x45,
            PacketID::AUTHINFO => 0x50,
            PacketID::AUTHCHECK => 0x51,
            PacketID::AUTHACCOUNTLOGON => 0x53,
            PacketID::AUTHACCOUNTLOGONPROOF => 0x54,
        }
    }
}

/// A packet received from the server. A kind whose layout is known carries
/// its fields; a packet of any other kind is kept with its payload as it
/// came.
#[derive(Clone, Debug, PartialEq, Eq)]
pub enum BNetIncomingPacket {
    Null,
    GetAdvListEx(GetAdvListEx),
    EnterChat(EnterChat),
    ChatEvent(ChatEvent),
    StartAdvEx3(StartAdvEx3),
    Ping(Ping),
    AuthInfo(AuthInfo),
    AuthCheck(AuthCheck),
    AuthAccountLogon(AuthAccountLogon),
    AuthAccountLogonProof(AuthAccountLogonProof),
    Raw { id: PacketID, payload: Vec<u8> },
}

/// What a `BNetIncomingPacket` holds, as plain values.
pub enum BNetIncomingPacketView {
    Null,
    GetAdvListEx(GetAdvListExView),
    EnterChat(EnterChatView),
    ChatEvent(ChatEventView),
    StartAdvEx3(StartAdvEx3),
    Ping(Ping),
    AuthInfo(AuthInfoView),
    AuthCheck(AuthCheckView),
    AuthAccountLogon(AuthAccountLogonView),
    AuthAccountLogonProof(AuthAccountLogonProofView),
    Raw { id: PacketID, payload: Seq<u8> },
}

impl BNetIncomingPacketView {
    /// The kind of the packet.
    pub open spec fn id(self) -> PacketID {
        match self {
            BNetIncomingPacketView::Null => PacketID::NULL,
            BNetIncomingPacketView::GetAdvListEx(_) => PacketID::GETADVLISTEX,
            BNetIncomingPacketView::EnterChat(_) => PacketID::ENTERCHAT,
            BNetIncomingPacketView::ChatEvent(_) => PacketID::CHATEVENT,
            BNetIncomingPacketView::StartAdvEx3(_) => PacketID::STARTADVEX3,
            BNetIncomingPacketView::Ping(_) => PacketID::PING,
            BNetIncomingPacketView::AuthInfo(_) => PacketID::AUTHINFO,
            BNetIncomingPacketView::AuthCheck(_) => PacketID::AUTHCHECK,
            BNetIncomingPacketView::AuthAccountLogon(_) => PacketID::AUTHACCOUNTLOGON,
            BNetIncomingPacketView::AuthAccountLogonProof(_) => PacketID::AUTHACCOUNTLOGONPROOF,
            BNetIncomingPacketView::Raw { id, .. } => id,
        }
    }
}

impl View for BNetIncomingPacket {
    type V = BNetIncomingPacketView;

    open spec fn view(&self) -> BNetIncomingPacketView {
        match self {
            BNetIncomingPacket::Null => BNetIncomingPacketView::Null,
            BNetIncomingPacket::GetAdvListEx(p) => BNetIncomingPacketView::GetAdvListEx(p@),
            BNetIncomingPacket::EnterChat(p) => BNetIncomingPacketView::EnterChat(p@),
            BNetIncomingPacket::ChatEvent(p) => BNetIncomingPacketView::ChatEvent(p@),
            BNetIncomingPacket::StartAdvEx3(p) => BNetIncomingPacketView::StartAdvEx3(*p),
            BNetIncomingPacket::Ping(p) => BNetIncomingPacketView::Ping(*p),
            BNetIncomingPacket::AuthInfo(p) => BNetIncomingPacketView::AuthInfo(p@),
            BNetIncomingPacket::AuthCheck(p) => BNetIncomingPacketView::AuthCheck(p@),
            BNetIncomingPacket::AuthAccountLogon(p) => BNetIncomingPacketView::AuthAccountLogon(p@),
            BNetIncomingPacket::AuthAccountLogonProof(p) => {
                BNetIncomingPacketView::AuthAccountLogonProof(p@)
            },
            BNetIncomingPacket::Raw { id, payload } => BNetIncomingPacketView::Raw {
                id: *id,
                payload: payload@,
            },
        }
    }
}

impl BNetIncomingPacket {
    /// The kind of the packet.
    pub fn id(&self) -> (id: PacketID)
        ensures
            id == self@.id(),
    {
        match self {
            BNetIncomingPacket::Null => PacketID::NULL,
            BNetIncomingPacket::GetAdvListEx(_) => PacketID::GETADVLISTEX,
            BNetIncomingPacket::EnterChat(_) => PacketID::ENTERCHAT,
            BNetIncomingPacket::ChatEvent(_) => PacketID::CHATEVENT,
            BNetIncomingPacket::StartAdvEx3(_) => PacketID::STARTADVEX3,
            BNetIncomingPacket::Ping(_) => PacketID::PING,
            BNetIncomingPacket::AuthInfo(_) => PacketID::AUTHINFO,
            BNetIncomingPacket::AuthCheck(_) => PacketID::AUTHCHECK,
            BNetIncomingPacket::AuthAccountLogon(_) => PacketID::AUTHACCOUNTLOGON,
            BNetIncomingPacket::AuthAccountLogonProof(_) => PacketID::AUTHACCOUNTLOGONPROOF,
            BNetIncomingPacket::Raw { id, .. } => *id,
        }
    }
}

/// A packet to send to the server: its kind and the fields that the layout
/// of that kind asks for.
#[derive(Clone, Debug, PartialEq, Eq)]
pub enum BNetOutgoingPacket {
    Null,
    StopAdv,
    GetAdvListEx { game_name: Vec<u8> },
    EnterChat,
    JoinChannel { flag: JoinChannelFlag, channel: Vec<u8> },
    ChatCommand { message: Vec<u8> },
    StartAdvEx3 {
        state: Vec<StartAdvEx3GameState>,
        since_creation: u32,
        game_type: u16,
        sub_game_type: u16,
        version: u32,
        ladder_type: u32,
        game_name: Vec<u8>,
        game_password: Vec<u8>,
        game_statstring: Vec<u8>,
    },
    Ping { value: u32 },
    NetGamePort { port: u16 },
    AuthInfo { version: u8, locale_id: u32, country: Vec<u8>, country_abbr: Vec<u8> },
    AuthCheck {
        client_token: u32,
        exe_version: u32,
        exe_hash: u32,
        roc_key: Vec<u8>,
        tft_key: Vec<u8>,
        exe_info: Vec<u8>,
        owner_name: Vec<u8>,
    },
    AuthAccountLogon { client_key: u8, username: Vec<u8> },
    AuthAccountLogonProof { proof_bytes: Vec<u8> },
}

impl BNetOutgoingPacket {
    /// The kind of the packet.
    pub open spec fn spec_id(&self) -> PacketID {
        match self {
            BNetOutgoingPacket::Null => PacketID::NULL,
            BNetOutgoingPacket::StopAdv => PacketID::STOPADV,
            BNetOutgoingPacket::GetAdvListEx { .. } => PacketID::GETADVLISTEX,
            BNetOutgoingPacket::EnterChat => PacketID::ENTERCHAT,
            BNetOutgoingPacket::JoinChannel { .. } => PacketID::JOINCHANNEL,
            BNetOutgoingPacket::ChatCommand { .. } => PacketID::CHATCOMMAND,
            BNetOutgoingPacket::StartAdvEx3 { .. } => PacketID::STARTADVEX3,
            BNetOutgoingPacket::Ping { .. } => PacketID::PING,
            BNetOutgoingPacket::NetGamePort { .. } => PacketID::NETGAMEPORT,
            BNetOutgoingPacket::AuthInfo { .. } => PacketID::AUTHINFO,
            BNetOutgoingPacket::AuthCheck { .. } => PacketID::AUTHCHECK,
            BNetOutgoingPacket::AuthAccountLogon { .. } => PacketID::AUTHACCOUNTLOGON,
            BNetOutgoingPacket::AuthAccountLogonProof { .. } => PacketID::AUTHACCOUNTLOGONPROOF,
        }
    }

    /// The payload of the packet: its fields in the order of its layout.
    pub open spec fn payload(&self) -> Seq<u8> {
        match self {
            BNetOutgoingPacket::Null => Seq::empty(),
            BNetOutgoingPacket::StopAdv => Seq::empty(),
            BNetOutgoingPacket::GetAdvListEx { game_name } => get_adv_list_ex_payload(game_name@),
            BNetOutgoingPacket::EnterChat => enter_chat_payload(),
            BNetOutgoingPacket::JoinChannel { flag, channel } => join_channel_payload(
                *flag,
                channel@,
            ),
            BNetOutgoingPacket::ChatCommand { message } => chat_command_payload(message@),
            BNetOutgoingPacket::StartAdvEx3 {
                state,
                since_creation,
                game_type,
                sub_game_type,
                version,
                ladder_type,
                game_name,
                game_password,
                game_statstring,
            } => start_adv_ex3_payload(
                state@,
                *since_creation,
                *game_type,
                *sub_game_type,
                *version,
                *ladder_type,
                game_name@,
                game_password@,
                game_statstring@,
            ),
            BNetOutgoingPacket::Ping { value } => ping_payload(*value),
            BNetOutgoingPacket::NetGamePort { port } => net_game_port_payload(*port),
            BNetOutgoingPacket::AuthInfo {
                version,
                locale_id,
                country,
                country_abbr,
            } => auth_info_payload(*version, *locale_id, country@, country_abbr@),
            BNetOutgoingPacket::AuthCheck {
                client_token,
                exe_version,
                exe_hash,
                roc_key,
                tft_key,
                exe_info,
                owner_name,
            } => auth_check_payload(
                *client_token,
                *exe_version,
                *exe_hash,
                roc_key@,
                tft_key@,
                exe_info@,
                owner_name@,
            ),
            BNetOutgoingPacket::AuthAccountLogon { client_key, username } => account_logon_payload(
                *client_key,
                username@,
            ),
            BNetOutgoingPacket::AuthAccountLogonProof {
                proof_bytes,
            } => account_logon_proof_payload(proof_bytes@),
        }
    }

    /// The packet fits the two-byte length field of the header.
    pub open spec fn wf(&self) -> bool {
        self.payload().len() <= MAX_PAYLOAD_LENGTH
    }

    /// The kind of the packet.
    pub fn id(&self) -> (id: PacketID)
        ensures
            id == self.spec_id(),
    {
        match self {
            BNetOutgoingPacket::Null => PacketID::NULL,
            BNetOutgoingPacket::StopAdv => PacketID::STOPADV,
            BNetOutgoingPacket::GetAdvListEx { .. } => PacketID::GETADVLISTEX,
            BNetOutgoingPacket::EnterChat => PacketID::ENTERCHAT,
            BNetOutgoingPacket::JoinChannel { .. } => PacketID::JOINCHANNEL,
            BNetOutgoingPacket::ChatCommand { .. } => PacketID::CHATCOMMAND,
            BNetOutgoingPacket::StartAdvEx3 { .. } => PacketID::STARTADVEX3,
            BNetOutgoingPacket::Ping { .. } => PacketID::PING,
            BNetOutgoingPacket::NetGamePort { .. } => PacketID::NETGAMEPORT,
            BNetOutgoingPacket::AuthInfo { .. } => PacketID::AUTHINFO,
            BNetOutgoingPacket::AuthCheck { .. } => PacketID::AUTHCHECK,
            BNetOutgoingPacket::AuthAccountLogon { .. } => PacketID::AUTHACCOUNTLOGON,
            BNetOutgoingPacket::AuthAccountLogonProof { .. } => PacketID::AUTHACCOUNTLOGONPROOF,
        }
    }

    /// The number of bytes in the payload of the packet, where it fits the
    /// length field of the header.
    pub fn payload_len(&self) -> (len: Option<usize>)
        ensures
            match len {
                Some(n) => self.wf() && n == self.payload().len(),
                None => !self.wf(),
            },
    {
        let (fixed, a, b, c, d): (usize, usize, usize, usize, usize) = match self {
            BNetOutgoingPacket::Null => (0, 0, 0, 0, 0),
            BNetOutgoingPacket::StopAdv => (0, 0, 0, 0, 0),
            BNetOutgoingPacket::GetAdvListEx { game_name } => (16, game_name.len(), 0, 0, 0),
            BNetOutgoingPacket::EnterChat => (2, 0, 0, 0, 0),
            BNetOutgoingPacket::JoinChannel { channel, .. } => (5, channel.len(), 0, 0, 0),
            BNetOutgoingPacket::ChatCommand { message } => (1, message.len(), 0, 0, 0),
            BNetOutgoingPacket::StartAdvEx3 {
                game_name,
                game_password,
                game_statstring,
                ..
            } => (23, game_name.len(), game_password.len(), game_statstring.len(), 0),
            BNetOutgoingPacket::Ping { .. } => (4, 0, 0, 0, 0),
            BNetOutgoingPacket::NetGamePort { .. } => (2, 0, 0, 0, 0),
            BNetOutgoingPacket::AuthInfo { country, country_abbr, .. } => (
                38,
                country.len(),
                country_abbr.len(),
                0,
                0,
            ),
            BNetOutgoingPacket::AuthCheck { roc_key, tft_key, exe_info, owner_name, .. } => (
                22,
                roc_key.len(),
                tft_key.len(),
                exe_info.len(),
                owner_name.len(),
            ),
            BNetOutgoingPacket::AuthAccountLogon { username, .. } => (2, username.len(), 0, 0, 0),
            BNetOutgoingPacket::AuthAccountLogonProof { proof_bytes } => (
                0,
                proof_bytes.len(),
                0,
                0,
                0,
            ),
        };
        assert(self.payload().len() == fixed + a + b + c + d);
        if a > MAX_PAYLOAD_LENGTH || b > MAX_PAYLOAD_LENGTH || c > MAX_PAYLOAD_LENGTH || d
            > MAX_PAYLOAD_LENGTH {
            return None;
        }
        let total: usize = fixed + a + b + c + d;
        if total > MAX_PAYLOAD_LENGTH {
            None
        } else {
            Some(total)
        }
    }

    /// Lays the packet out for the wire: the header, whose length field
    /// counts every byte of the packet, then the payload.
    pub fn encode(&self) -> (data: Bytes)
        requires
            self.wf(),
        ensures
            data_bytes(data) == frame(self.spec_id(), self.payload()),
    {
        match self {
            BNetOutgoingPacket::Null => null(),
            BNetOutgoingPacket::StopAdv => stop_adv(),
            BNetOutgoingPacket::GetAdvListEx { game_name } => get_adv_list_ex(game_name.as_slice()),
            BNetOutgoingPacket::EnterChat => enter_chat(),
            BNetOutgoingPacket::JoinChannel { flag, channel } => join_channel(
                *flag,
                channel.as_slice(),
            ),
            BNetOutgoingPacket::ChatCommand { message } => chat_command(message.as_slice()),
            BNetOutgoingPacket::StartAdvEx3 {
                state,
                since_creation,
                game_type,
                sub_game_type,
                version,
                ladder_type,
                game_name,
                game_password,
                game_statstring,
            } => start_adv_ex3(
                state.as_slice(),
                *since_creation,
                *game_type,
                *sub_game_type,
                *version,
                *ladder_type,
                game_name.as_slice(),
                game_password.as_slice(),
                game_statstring.as_slice(),
            ),
            BNetOutgoingPacket::Ping { value } => ping(*value),
            BNetOutgoingPacket::NetGamePort { port } => net_game_port(*port),
            BNetOutgoingPacket::AuthInfo { version, locale_id, country, country_abbr } => auth_info(
                *version,
                *locale_id,
                country.as_slice(),
                country_abbr.as_slice(),
            ),
            BNetOutgoingPacket::AuthCheck {
                client_token,
                exe_version,
                exe_hash,
                roc_key,
                tft_key,
                exe_info,
                owner_name,
            } => auth_check(
                *client_token,
                *exe_version,
                *exe_hash,
                roc_key.as_slice(),
                tft_key.as_slice(),
                exe_info.as_slice(),
                owner_name.as_slice(),
            ),
            BNetOutgoingPacket::AuthAccountLogon { client_key, username } => account_logon(
                *client_key,
                username.as_slice(),
            ),
            BNetOutgoingPacket::AuthAccountLogonProof { proof_bytes } => account_logon_proof(
                proof_bytes.as_slice(),
            ),
        }
    }

    /// Lays the packet out for the wire where it fits the length field of
    /// the header, and refuses it where it does not.
    pub fn try_encode(&self) -> (data: Option<Bytes>)
        ensures
            match data {
                Some(d) => self.wf() && data_bytes(d) == frame(self.spec_id(), self.payload()),
                None => !self.wf(),
            },
    {
        match self.payload_len() {
            Some(_) => Some(self.encode()),
            None => None,
        }
    }
}

} // verus!
