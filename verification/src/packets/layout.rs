//! How the server lays out the payload of each packet it sends, and the
//! proof that the readers take out of such a payload exactly what was put
//! into it.
//!
//! Each layout is given with the bytes that follow it, `rest`: a reader
//! stops where the layout ends and leaves those bytes untouched.

use vstd::prelude::*;

use crate::error::PayloadDecodeError;
use crate::packets::s2c::has_layout;
use crate::packets::s2c::parse_auth_account_logon;
use crate::packets::s2c::parse_auth_account_logon_proof;
use crate::packets::s2c::parse_auth_check;
use crate::packets::s2c::parse_auth_info;
use crate::packets::s2c::parse_chat_event;
use crate::packets::s2c::parse_enter_chat;
use crate::packets::s2c::parse_get_adv_list_ex;
use crate::packets::s2c::parse_item;
use crate::packets::s2c::parse_item_strings;
use crate::packets::s2c::parse_items;
use crate::packets::s2c::parse_payload;
use crate::packets::s2c::parse_ping;
use crate::packets::s2c::parse_start_adv_ex3;
use crate::packets::s2c::AuthAccountLogonProofView;
use crate::packets::s2c::AuthAccountLogonView;
use crate::packets::s2c::AuthCheckView;
use crate::packets::s2c::AuthInfoView;
use crate::packets::s2c::ChatEventID;
use crate::packets::s2c::ChatEventView;
use crate::packets::s2c::EnterChatView;
use crate::packets::s2c::GetAdvListExItemView;
use crate::packets::s2c::GetAdvListExStatusView;
use crate::packets::s2c::GetAdvListExView;
use crate::packets::s2c::Ping;
use crate::packets::s2c::StartAdvEx3;
use crate::packets::s2c::StartAdvEx3Status;
use crate::packets::BNetIncomingPacketView;
use crate::wire::cstr;
use crate::wire::lemma_take_bytes;
use crate::wire::lemma_take_cstr_round_trip;
use crate::wire::lemma_take_u16;
use crate::wire::lemma_take_u32;
use crate::wire::lemma_take_u64;
use crate::wire::no_zero;
use crate::wire::u16_le;
use crate::wire::u32_le;
use crate::wire::u64_le;

verus! {

/// `n` zero bytes: what stands in the places that a reader passes over.
pub open spec fn zeros(n: nat) -> Seq<u8> {
    Seq::new(n, |i: int| 0u8)
}

/// The names of a chat entry can be laid out: none holds a zero byte.
pub open spec fn enter_chat_valid(v: EnterChatView) -> bool {
    no_zero(v.unique_name) && no_zero(v.statstring) && no_zero(v.account_name)
}

/// The names of a chat entry, laid out.
pub open spec fn enter_chat_layout(v: EnterChatView, rest: Seq<u8>) -> Seq<u8> {
    cstr(v.unique_name) + (cstr(v.statstring) + (cstr(v.account_name) + rest))
}

/// The names of a chat entry are read back as they were laid out.
pub proof fn lemma_enter_chat_round_trip(v: EnterChatView, rest: Seq<u8>)
    requires
        enter_chat_valid(v),
    ensures
        parse_enter_chat(enter_chat_layout(v, rest)) == (
            Ok::<EnterChatView, PayloadDecodeError>(v),
            rest,
        ),
{
    reveal(parse_enter_chat);
    let r2 = cstr(v.account_name) + rest;
    let r1 = cstr(v.statstring) + r2;
    lemma_take_cstr_round_trip(v.unique_name, r1);
    lemma_take_cstr_round_trip(v.statstring, r2);
    lemma_take_cstr_round_trip(v.account_name, rest);
}

/// A chat event can be laid out: neither string holds a zero byte.
pub open spec fn chat_event_valid(v: ChatEventView) -> bool {
    no_zero(v.username) && no_zero(v.text)
}

/// A chat event, laid out.
pub open spec fn chat_event_layout(v: ChatEventView, rest: Seq<u8>) -> Seq<u8> {
    u32_le(v.event_id.spec_code()) + (u32_le(v.user_flags) + (u32_le(v.ping) + (zeros(12) + (cstr(
        v.username,
    ) + (cstr(v.text) + rest)))))
}

/// Every chat event is found again from the number that stands for it.
pub proof fn lemma_chat_event_code(event: ChatEventID)
    ensures
        ChatEventID::spec_from_id(event.spec_code()) == event,
{
}

/// A chat event is read back as it was laid out.
pub proof fn lemma_chat_event_round_trip(v: ChatEventView, rest: Seq<u8>)
    requires
        chat_event_valid(v),
    ensures
        parse_chat_event(chat_event_layout(v, rest)) == (
            Ok::<ChatEventView, PayloadDecodeError>(v),
            rest,
        ),
{
    reveal(parse_chat_event);
    let r5 = cstr(v.text) + rest;
    let r4 = cstr(v.username) + r5;
    let r3 = zeros(12) + r4;
    let r2 = u32_le(v.ping) + r3;
    let r1 = u32_le(v.user_flags) + r2;
    lemma_chat_event_code(v.event_id);
    lemma_take_u32(v.event_id.spec_code(), r1);
    lemma_take_u32(v.user_flags, r2);
    lemma_take_u32(v.ping, r3);
    lemma_take_bytes(zeros(12), r4);
    lemma_take_cstr_round_trip(v.username, r5);
    lemma_take_cstr_round_trip(v.text, rest);
}

/// The number that stands for a status of advertising a game.
pub open spec fn start_adv_ex3_code(status: StartAdvEx3Status) -> u32 {
    match status {
        StartAdvEx3Status::OK => 0,
        StartAdvEx3Status::Failed => 1,
        StartAdvEx3Status::Invalid => 0xFF,
    }
}

/// The answer to advertising a game is read back as it was laid out.
pub proof fn lemma_start_adv_ex3_round_trip(status: StartAdvEx3Status, rest: Seq<u8>)
    ensures
        parse_start_adv_ex3(u32_le(start_adv_ex3_code(status)) + rest) == (
            Ok::<StartAdvEx3, PayloadDecodeError>(StartAdvEx3 { status }),
            rest,
        ),
{
    lemma_take_u32(start_adv_ex3_code(status), rest);
}

/// A ping is read back as it was laid out.
pub proof fn lemma_ping_round_trip(value: u32, rest: Seq<u8>)
    ensures
        parse_ping(u32_le(value) + rest) == (Ok::<Ping, PayloadDecodeError>(Ping { value }), rest),
{
    lemma_take_u32(value, rest);
}

/// The server's opening of the handshake can be laid out: neither string
/// holds a zero byte, and the signature has its 128 bytes.
pub open spec fn auth_info_valid(v: AuthInfoView) -> bool {
    no_zero(v.mpq_filename) && no_zero(v.value_string) && v.server_signature.len() == 128
}

/// The server's opening of the handshake, laid out.
pub open spec fn auth_info_layout(v: AuthInfoView, rest: Seq<u8>) -> Seq<u8> {
    u32_le(v.logon_type) + (u32_le(v.server_token) + (u32_le(v.udp_value) + (u64_le(
        v.mpq_filetime,
    ) + (cstr(v.mpq_filename) + (cstr(v.value_string) + (v.server_signature + rest))))))
}

/// The server's opening of the handshake is read back as it was laid out.
pub proof fn lemma_auth_info_round_trip(v: AuthInfoView, rest: Seq<u8>)
    requires
        auth_info_valid(v),
    ensures
        parse_auth_info(auth_info_layout(v, rest)) == (
            Ok::<AuthInfoView, PayloadDecodeError>(v),
            rest,
        ),
{
    reveal(parse_auth_info);
    let r6 = v.server_signature + rest;
    let r5 = cstr(v.value_string) + r6;
    let r4 = cstr(v.mpq_filename) + r5;
    let r3 = u64_le(v.mpq_filetime) + r4;
    let r2 = u32_le(v.udp_value) + r3;
    let r1 = u32_le(v.server_token) + r2;
    lemma_take_u32(v.logon_type, r1);
    lemma_take_u32(v.server_token, r2);
    lemma_take_u32(v.udp_value, r3);
    lemma_take_u64(v.mpq_filetime, r4);
    lemma_take_cstr_round_trip(v.mpq_filename, r5);
    lemma_take_cstr_round_trip(v.value_string, r6);
    lemma_take_bytes(v.server_signature, rest);
}

/// The server's verdict on version and keys, laid out.
pub open spec fn auth_check_layout(v: AuthCheckView, rest: Seq<u8>) -> Seq<u8> {
    u32_le(v.status) + (cstr(v.info) + rest)
}

/// The server's verdict on version and keys is read back as it was laid
/// out.
pub proof fn lemma_auth_check_round_trip(v: AuthCheckView, rest: Seq<u8>)
    requires
        no_zero(v.info),
    ensures
        parse_auth_check(auth_check_layout(v, rest)) == (
            Ok::<AuthCheckView, PayloadDecodeError>(v),
            rest,
        ),
{
    reveal(parse_auth_check);
    let r1 = cstr(v.info) + rest;
    lemma_take_u32(v.status, r1);
    lemma_take_cstr_round_trip(v.info, rest);
}

/// The answer to the beginning of the account logon, laid out.
pub open spec fn auth_account_logon_layout(v: AuthAccountLogonView, rest: Seq<u8>) -> Seq<u8> {
    u32_le(v.status) + (v.salt + (v.server_key + rest))
}

/// The answer to the beginning of the account logon is read back as it
/// was laid out.
pub proof fn lemma_auth_account_logon_round_trip(v: AuthAccountLogonView, rest: Seq<u8>)
    requires
        v.salt.len() == 32,
        v.server_key.len() == 32,
    ensures
        parse_auth_account_logon(auth_account_logon_layout(v, rest)) == (
            Ok::<AuthAccountLogonView, PayloadDecodeError>(v),
            rest,
        ),
{
    reveal(parse_auth_account_logon);
    let r2 = v.server_key + rest;
    let r1 = v.salt + r2;
    lemma_take_u32(v.status, r1);
    lemma_take_bytes(v.salt, r2);
    lemma_take_bytes(v.server_key, rest);
}

/// The answer to the client's proof, laid out.
pub open spec fn auth_account_logon_proof_layout(
    v: AuthAccountLogonProofView,
    rest: Seq<u8>,
) -> Seq<u8> {
    u32_le(v.status) + (v.proof + (cstr(v.info) + rest))
}

/// The answer to the client's proof is read back as it was laid out.
pub proof fn lemma_auth_account_logon_proof_round_trip(
    v: AuthAccountLogonProofView,
    rest: Seq<u8>,
)
    requires
        v.proof.len() == 20,
        no_zero(v.info),
    ensures
        parse_auth_account_logon_proof(auth_account_logon_proof_layout(v, rest)) == (
            Ok::<AuthAccountLogonProofView, PayloadDecodeError>(v),
            rest,
        ),
{
    reveal(parse_auth_account_logon_proof);
    let r2 = cstr(v.info) + rest;
    let r1 = v.proof + r2;
    lemma_take_u32(v.status, r1);
    lemma_take_bytes(v.proof, r2);
    lemma_take_cstr_round_trip(v.info, rest);
}

/// An advertised game can be laid out: none of its strings holds a zero
/// byte.
pub open spec fn item_valid(v: GetAdvListExItemView) -> bool {
    no_zero(v.game_name) && no_zero(v.game_password) && no_zero(v.game_statstring)
}

/// An advertised game, laid out.
pub open spec fn item_layout(v: GetAdvListExItemView, rest: Seq<u8>) -> Seq<u8> {
    u32_le(v.game_settings) + (u32_le(v.language_id) + (u16_le(v.address_family) + (u16_le(
        v.address_port,
    ) + (u32_le(v.host_ip) + (zeros(8) + (u32_le(v.game_status) + (u32_le(v.elapsed_time)
        + item_strings_layout(v, rest))))))))
}

/// The three strings that end the layout of an advertised game.
pub open spec fn item_strings_layout(v: GetAdvListExItemView, rest: Seq<u8>) -> Seq<u8> {
    cstr(v.game_name) + (cstr(v.game_password) + (cstr(v.game_statstring) + rest))
}

/// The three strings of an advertised game are read back into the fields
/// that were read before them.
pub proof fn lemma_item_strings_round_trip(
    v: GetAdvListExItemView,
    rest: Seq<u8>,
    fixed: GetAdvListExItemView,
)
    requires
        item_valid(v),
    ensures
        parse_item_strings(item_strings_layout(v, rest), fixed) == (
            Ok::<GetAdvListExItemView, PayloadDecodeError>(
                GetAdvListExItemView {
                    game_name: v.game_name,
                    game_password: v.game_password,
                    game_statstring: v.game_statstring,
                    ..fixed
                },
            ),
            rest,
        ),
{
    let r10 = cstr(v.game_statstring) + rest;
    let r9 = cstr(v.game_password) + r10;
    lemma_take_cstr_round_trip(v.game_name, r9);
    lemma_take_cstr_round_trip(v.game_password, r10);
    lemma_take_cstr_round_trip(v.game_statstring, rest);
}

/// An advertised game is read back as it was laid out.
pub proof fn lemma_item_round_trip(v: GetAdvListExItemView, rest: Seq<u8>)
    requires
        item_valid(v),
    ensures
        parse_item(item_layout(v, rest)) == (
            Ok::<GetAdvListExItemView, PayloadDecodeError>(v),
            rest,
        ),
{
    reveal(parse_item);
    let r8 = item_strings_layout(v, rest);
    let r7 = u32_le(v.elapsed_time) + r8;
    let r6 = u32_le(v.game_status) + r7;
    let r5 = zeros(8) + r6;
    let r4 = u32_le(v.host_ip) + r5;
    let r3 = u16_le(v.address_port) + r4;
    let r2 = u16_le(v.address_family) + r3;
    let r1 = u32_le(v.language_id) + r2;
    lemma_take_u32(v.game_settings, r1);
    lemma_take_u32(v.language_id, r2);
    lemma_take_u16(v.address_family, r3);
    lemma_take_u16(v.address_port, r4);
    lemma_take_u32(v.host_ip, r5);
    lemma_take_bytes(zeros(8), r6);
    lemma_take_u32(v.game_status, r7);
    lemma_take_u32(v.elapsed_time, r8);
    lemma_item_strings_round_trip(
        v,
        rest,
        GetAdvListExItemView {
            game_name: Seq::empty(),
            game_password: Seq::empty(),
            game_statstring: Seq::empty(),
            ..v
        },
    );
}

/// Advertised games, laid out one after the other.
pub open spec fn items_layout(items: Seq<GetAdvListExItemView>, rest: Seq<u8>) -> Seq<u8>
    decreases items.len(),
{
    if items.len() == 0 {
        rest
    } else {
        item_layout(items[0], items_layout(items.skip(1), rest))
    }
}

/// Advertised games are read back, in their order, as they were laid out.
pub proof fn lemma_items_round_trip(
    items: Seq<GetAdvListExItemView>,
    rest: Seq<u8>,
    found: Seq<GetAdvListExItemView>,
)
    requires
        forall|i: int| 0 <= i < items.len() ==> item_valid(#[trigger] items[i]),
    ensures
        parse_items(items_layout(items, rest), items.len(), found) == (
            Ok::<Seq<GetAdvListExItemView>, PayloadDecodeError>(found + items),
            rest,
        ),
    decreases items.len(),
{
    if items.len() == 0 {
        assert(found + items =~= found);
    } else {
        let tail = items.skip(1);
        let after = items_layout(tail, rest);
        lemma_item_round_trip(items[0], after);
        assert forall|i: int| 0 <= i < tail.len() implies item_valid(#[trigger] tail[i]) by {
            assert(tail[i] == items[i + 1]);
        }
        lemma_items_round_trip(tail, rest, found.push(items[0]));
        assert(found.push(items[0]) + tail =~= found + items);
    }
}

/// The answer to a request for the game list can be laid out: it counts
/// the games that it holds, at least one, each fit to be laid out; or it
/// counts none and gives the reason.
pub open spec fn get_adv_list_ex_valid(v: GetAdvListExView) -> bool {
    match v.status {
        GetAdvListExStatusView::EMPTY(_) => v.count == 0,
        GetAdvListExStatusView::OK(items) => {
            &&& v.count > 0
            &&& items.len() == v.count
            &&& forall|i: int| 0 <= i < items.len() ==> item_valid(#[trigger] items[i])
        },
    }
}

/// The answer to a request for the game list, laid out.
pub open spec fn get_adv_list_ex_layout(v: GetAdvListExView, rest: Seq<u8>) -> Seq<u8> {
    match v.status {
        GetAdvListExStatusView::EMPTY(reason) => u32_le(v.count) + (u32_le(reason) + rest),
        GetAdvListExStatusView::OK(items) => u32_le(v.count) + items_layout(items, rest),
    }
}

/// The answer to a request for the game list is read back as it was laid
/// out.
pub proof fn lemma_get_adv_list_ex_round_trip(v: GetAdvListExView, rest: Seq<u8>)
    requires
        get_adv_list_ex_valid(v),
    ensures
        parse_get_adv_list_ex(get_adv_list_ex_layout(v, rest)) == (
            Ok::<GetAdvListExView, PayloadDecodeError>(v),
            rest,
        ),
{
    reveal(parse_get_adv_list_ex);
    match v.status {
        GetAdvListExStatusView::EMPTY(reason) => {
            let r1 = u32_le(reason) + rest;
            lemma_take_u32(v.count, r1);
            lemma_take_u32(reason, rest);
        },
        GetAdvListExStatusView::OK(items) => {
            let r1 = items_layout(items, rest);
            lemma_take_u32(v.count, r1);
            lemma_items_round_trip(items, rest, Seq::empty());
            assert(Seq::<GetAdvListExItemView>::empty() + items =~= items);
        },
    }
}

/// A packet can be laid out by the layout of its kind: its fields are fit
/// to be laid out, and a packet that is kept as it came is of a kind
/// that has no layout of its own.
pub open spec fn incoming_valid(p: BNetIncomingPacketView) -> bool {
    match p {
        BNetIncomingPacketView::Null => true,
        BNetIncomingPacketView::GetAdvListEx(v) => get_adv_list_ex_valid(v),
        BNetIncomingPacketView::EnterChat(v) => enter_chat_valid(v),
        BNetIncomingPacketView::ChatEvent(v) => chat_event_valid(v),
        BNetIncomingPacketView::StartAdvEx3(_) => true,
        BNetIncomingPacketView::Ping(_) => true,
        BNetIncomingPacketView::AuthInfo(v) => auth_info_valid(v),
        BNetIncomingPacketView::AuthCheck(v) => no_zero(v.info),
        BNetIncomingPacketView::AuthAccountLogon(v) => v.salt.len() == 32 && v.server_key.len()
            == 32,
        BNetIncomingPacketView::AuthAccountLogonProof(v) => v.proof.len() == 20 && no_zero(v.info),
        BNetIncomingPacketView::Raw { id, .. } => !has_layout(id),
    }
}

/// The payload of a packet as the server lays it out.
pub open spec fn incoming_layout(p: BNetIncomingPacketView) -> Seq<u8> {
    match p {
        BNetIncomingPacketView::Null => Seq::empty(),
        BNetIncomingPacketView::GetAdvListEx(v) => get_adv_list_ex_layout(v, Seq::empty()),
        BNetIncomingPacketView::EnterChat(v) => enter_chat_layout(v, Seq::empty()),
        BNetIncomingPacketView::ChatEvent(v) => chat_event_layout(v, Seq::empty()),
        BNetIncomingPacketView::StartAdvEx3(v) => u32_le(start_adv_ex3_code(v.status)),
        BNetIncomingPacketView::Ping(v) => u32_le(v.value),
        BNetIncomingPacketView::AuthInfo(v) => auth_info_layout(v, Seq::empty()),
        BNetIncomingPacketView::AuthCheck(v) => auth_check_layout(v, Seq::empty()),
        BNetIncomingPacketView::AuthAccountLogon(v) => auth_account_logon_layout(v, Seq::empty()),
        BNetIncomingPacketView::AuthAccountLogonProof(v) => auth_account_logon_proof_layout(
            v,
            Seq::empty(),
        ),
        BNetIncomingPacketView::Raw { payload, .. } => payload,
    }
}

/// Decoding undoes encoding: the payload that the layout of a packet's
/// kind makes of the packet is read back, to its last byte, as that
/// packet.
pub proof fn lemma_incoming_round_trip(p: BNetIncomingPacketView)
    requires
        incoming_valid(p),
    ensures
        parse_payload(p.id(), incoming_layout(p)) == Ok::<
            BNetIncomingPacketView,
            PayloadDecodeError,
        >(p),
{
    let none = Seq::<u8>::empty();
    match p {
        BNetIncomingPacketView::Null => {},
        BNetIncomingPacketView::GetAdvListEx(v) => {
            lemma_get_adv_list_ex_round_trip(v, none);
        },
        BNetIncomingPacketView::EnterChat(v) => {
            lemma_enter_chat_round_trip(v, none);
        },
        BNetIncomingPacketView::ChatEvent(v) => {
            lemma_chat_event_round_trip(v, none);
        },
        BNetIncomingPacketView::StartAdvEx3(v) => {
            lemma_start_adv_ex3_round_trip(v.status, none);
            assert(incoming_layout(p) + none =~= incoming_layout(p));
        },
        BNetIncomingPacketView::Ping(v) => {
            lemma_ping_round_trip(v.value, none);
            assert(incoming_layout(p) + none =~= incoming_layout(p));
        },
        BNetIncomingPacketView::AuthInfo(v) => {
            lemma_auth_info_round_trip(v, none);
        },
        BNetIncomingPacketView::AuthCheck(v) => {
            lemma_auth_check_round_trip(v, none);
        },
        BNetIncomingPacketView::AuthAccountLogon(v) => {
            lemma_auth_account_logon_round_trip(v, none);
        },
        BNetIncomingPacketView::AuthAccountLogonProof(v) => {
            lemma_auth_account_logon_proof_round_trip(v, none);
        },
        BNetIncomingPacketView::Raw { id, payload } => {},
    }
}

} // verus!
