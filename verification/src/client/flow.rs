//! The decisions of the client loop: which handlers an incoming packet goes to, and what
//! the client does with each output of a handler. The loop itself, which reads and
//! writes the sockets, runs outside the library and performs these decisions.

use vstd::prelude::*;
use vstd::string::StringExecFns;

use crate::bytes::{decimal_chars, decimal_string, encode_hex, hex_chars};
use crate::client::auth::{auth_handlers, AuthProcessor};
use crate::client::chat::{chat_handlers, ChatProcessor};
use crate::client::movement::{embedded_opcode, is_tracked_movement, MovementProcessor};
use crate::client::opcodes::{client_opcode_name, server_opcode_name, Opcode};
use crate::client::handlers::{handled, handler_ready, run_handler};
use crate::client::packet::{
    error_text, is_debug_message, is_error_message, world_frame, HandlerError, world_packet, HandlerKind, HandlerOutput, OutgoingPacket,
    PacketDetails, PacketDetailsView,
};
use crate::client::player::{player_handlers, PlayerProcessor};
use crate::client::realm::{realm_handlers, RealmProcessor};
use crate::client::session::{HandlerInput, Session};
use crate::client::spell::{spell_handlers, SpellProcessor};
use crate::client::warden::{warden_handlers, WardenProcessor};

verus! {

/// The opcode the realm processors after the movement one see.
pub open spec fn routed_opcode(connected_to_realm: bool, data: Seq<u8>, opcode: u16) -> u16 {
    if connected_to_realm && is_tracked_movement(embedded_opcode(data)) {
        embedded_opcode(data)
    } else {
        opcode
    }
}

/// The handlers of an incoming packet: the login processor before the client is on a
/// realm; then the chat, movement, player, realm, spell and warden processors in turn
/// (the movement processor may replace the opcode the later ones see).
pub open spec fn routed_handlers(connected_to_realm: bool, data: Seq<u8>, opcode: u16) -> Seq<
    HandlerKind,
> {
    if !connected_to_realm {
        auth_handlers(opcode)
    } else {
        let moved = is_tracked_movement(embedded_opcode(data));
        let next = routed_opcode(connected_to_realm, data, opcode);
        chat_handlers(opcode) + (if moved {
            seq![HandlerKind::DetectMotion]
        } else {
            Seq::<HandlerKind>::empty()
        }) + player_handlers(next) + realm_handlers(next) + spell_handlers(next)
            + warden_handlers(next)
    }
}

/// The handlers of the login-server exchange.
pub open spec fn is_login_handler(kind: HandlerKind) -> bool {
    ||| kind == HandlerKind::CheckProofCode
    ||| kind == HandlerKind::LoginProof
    ||| kind == HandlerKind::ValidateProof
    ||| kind == HandlerKind::RequestRealmlist
    ||| kind == HandlerKind::GetRealmlist
    ||| kind == HandlerKind::ConnectToRealm
}

/// Before the client is on a realm only login-server handlers run; once it is, none does.
pub proof fn lemma_phases_keep_their_handlers(data: Seq<u8>, opcode: u16)
    ensures
        forall|k: int|
            0 <= k < routed_handlers(false, data, opcode).len() ==> is_login_handler(
                #[trigger] routed_handlers(false, data, opcode)[k],
            ),
        forall|k: int|
            0 <= k < routed_handlers(true, data, opcode).len() ==> !is_login_handler(
                #[trigger] routed_handlers(true, data, opcode)[k],
            ),
{
    let next = routed_opcode(true, data, opcode);
    let moved = if is_tracked_movement(embedded_opcode(data)) {
        seq![HandlerKind::DetectMotion]
    } else {
        Seq::<HandlerKind>::empty()
    };
    let all = chat_handlers(opcode) + moved + player_handlers(next) + realm_handlers(next)
        + spell_handlers(next) + warden_handlers(next);
    assert(routed_handlers(true, data, opcode) == all);
    assert forall|k: int| 0 <= k < all.len() implies !is_login_handler(#[trigger] all[k]) by {
        let a = chat_handlers(opcode);
        let b = a + moved;
        let c = b + player_handlers(next);
        let d = c + realm_handlers(next);
        let e = d + spell_handlers(next);
        if k < a.len() {
        } else if k < b.len() {
        } else if k < c.len() {
        } else if k < d.len() {
        } else if k < e.len() {
        } else {
        }
    }
}

fn append_handlers(all: &mut Vec<HandlerKind>, more: Vec<HandlerKind>)
    ensures
        final(all)@ == old(all)@ + more@,
{
    let mut i: usize = 0;
    while i < more.len()
        invariant
            i <= more@.len(),
            all@ == old(all)@ + more@.take(i as int),
        decreases more@.len() - i,
    {
        all.push(more[i]);
        i = i + 1;
        assert(all@ =~= old(all)@ + more@.take(i as int));
    }
    assert(more@.take(more@.len() as int) =~= more@);
}

/// Routes an incoming packet to its handlers.
pub fn route_packet(connected_to_realm: bool, input: &mut HandlerInput) -> (handlers: Vec<
    HandlerKind,
>)
    requires
        connected_to_realm ==> old(input).data@.len() >= 4,
    ensures
        handlers@ == routed_handlers(connected_to_realm, old(input).data@, old(input).opcode),
        *final(input) == (HandlerInput {
            opcode: routed_opcode(connected_to_realm, old(input).data@, old(input).opcode),
            ..*old(input)
        }),
{
    if !connected_to_realm {
        return AuthProcessor::get_handlers(input);
    }
    let mut handlers = ChatProcessor::get_handlers(input);
    let moved = MovementProcessor::process_input(input);
    append_handlers(&mut handlers, moved);
    let player = PlayerProcessor::get_handlers(input);
    append_handlers(&mut handlers, player);
    let realm = RealmProcessor::process_input(input);
    append_handlers(&mut handlers, realm);
    let spell = SpellProcessor::get_handlers(input);
    append_handlers(&mut handlers, spell);
    let warden = WardenProcessor::get_handlers(input);
    append_handlers(&mut handlers, warden);
    handlers
}

/// What the client shows of a packet no handler takes: its name and its bytes in hex.
pub fn unhandled_packet(opcode: u16, body: &[u8]) -> (output: HandlerOutput)
    ensures
        output matches HandlerOutput::ResponseMessage(m, d) && m@ == server_opcode_name(opcode)
            && (d matches Some(t) && t@ == PacketDetailsView::Hex(hex_chars(body@))),
{
    HandlerOutput::ResponseMessage(
        Opcode::get_server_opcode_name(opcode),
        Some(PacketDetails::Hex(encode_hex(body))),
    )
}

/// What the client shows of one handler: nothing when it is not ready for the input (the
/// input stays as it is); else what the handler did, its outputs when it succeeded and
/// the text of its error when it failed.
pub open spec fn shown_for(
    kind: HandlerKind,
    before: HandlerInput,
    after: HandlerInput,
    shown: Seq<HandlerOutput>,
) -> bool {
    if !handler_ready(kind, before) {
        after == before && shown.len() == 0
    } else {
        exists|r: Result<Vec<HandlerOutput>, HandlerError>|
            #[trigger] handled(kind, before, after, r) && match r {
                Ok(v) => shown == v@,
                Err(e) => shown.len() == 1 && is_error_message(shown[0], error_text(e)),
            }
    }
}

/// The pieces one after the other.
pub open spec fn joined(pieces: Seq<Seq<HandlerOutput>>) -> Seq<HandlerOutput>
    decreases pieces.len(),
{
    if pieces.len() == 0 {
        Seq::empty()
    } else {
        joined(pieces.drop_last()) + pieces.last()
    }
}

/// The handlers ran in order, each on the input the one before it left: `states[k]` is
/// the input of the `k`-th, `pieces[k]` what it gave to show.
pub open spec fn ran_in_order(
    kinds: Seq<HandlerKind>,
    states: Seq<HandlerInput>,
    pieces: Seq<Seq<HandlerOutput>>,
) -> bool {
    &&& states.len() == kinds.len() + 1
    &&& pieces.len() == kinds.len()
    &&& forall|k: int|
        0 <= k < kinds.len() ==> #[trigger] shown_for(kinds[k], states[k], states[k + 1], pieces[k])
}

/// No output asks to wait for the user.
pub open spec fn no_freeze(outputs: Seq<HandlerOutput>) -> bool {
    forall|j: int| 0 <= j < outputs.len() ==> !(#[trigger] outputs[j] is Freeze)
}

/// The first output that asks to wait for the user is at `i`.
pub open spec fn frozen_at(outputs: Seq<HandlerOutput>, i: int) -> bool {
    &&& 0 <= i < outputs.len()
    &&& outputs[i] is Freeze
    &&& no_freeze(outputs.take(i))
}

/// What is left of a packet whose handling waits for the user: the outputs after the
/// `Freeze` of the handler that asked to wait, and the handlers that have not run yet.
#[derive(Debug)]
pub struct Frozen {
    pub outputs: Vec<HandlerOutput>,
    pub kinds: Vec<HandlerKind>,
}

/// The outputs and handlers that wait, as sequences.
pub open spec fn frozen_view(frozen: Option<Frozen>) -> Option<(Seq<HandlerOutput>, Seq<HandlerKind>)> {
    match frozen {
        Some(f) => Some((f.outputs@, f.kinds@)),
        None => None,
    }
}

/// What is shown and what is left once the outputs `pending` and then the handlers `kinds`
/// are worked through, given the outputs the handlers that ran gave (`pieces`): all of them
/// in order when none asks to wait; else what comes before the first `Freeze`, and the
/// handling stops with the handler that gave it (no handler after it ran).
pub open spec fn handled_outputs(
    pending: Seq<HandlerOutput>,
    kinds: Seq<HandlerKind>,
    pieces: Seq<Seq<HandlerOutput>>,
    shown: Seq<HandlerOutput>,
    frozen: Option<(Seq<HandlerOutput>, Seq<HandlerKind>)>,
) -> bool {
    let all = pending + joined(pieces);
    match frozen {
        None => pieces.len() == kinds.len() && no_freeze(all) && shown == all,
        Some((rest, left)) => {
            &&& pieces.len() <= kinds.len()
            &&& left == kinds.skip(pieces.len() as int)
            &&& pieces.len() > 0 ==> no_freeze(pending + joined(pieces.drop_last()))
            &&& exists|i: int|
                #[trigger] frozen_at(all, i) && shown == all.take(i) && rest == all.skip(i + 1)
        },
    }
}

/// The outputs `pending`, then the handlers `kinds` in order, were worked through from the
/// input `before` to the input `after`, showing `shown` and leaving `frozen`.
pub open spec fn worked_through(
    pending: Seq<HandlerOutput>,
    kinds: Seq<HandlerKind>,
    before: HandlerInput,
    after: HandlerInput,
    shown: Seq<HandlerOutput>,
    frozen: Option<(Seq<HandlerOutput>, Seq<HandlerKind>)>,
) -> bool {
    exists|states: Seq<HandlerInput>, pieces: Seq<Seq<HandlerOutput>>|
        #[trigger] ran_in_order(kinds.take(pieces.len() as int), states, pieces) && pieces.len()
            <= kinds.len() && states[0] == before && states.last() == after && handled_outputs(
            pending,
            kinds,
            pieces,
            shown,
            frozen,
        )
}

/// Moves the outputs to `shown` up to the first `Freeze`, and gives back what follows it.
fn move_until_freeze(outputs: Vec<HandlerOutput>, shown: &mut Vec<HandlerOutput>) -> (rest: Option<
    Vec<HandlerOutput>,
>)
    ensures
        rest is None <==> no_freeze(outputs@),
        rest is None ==> final(shown)@ == old(shown)@ + outputs@,
        rest matches Some(r) ==> exists|i: int|
            #[trigger] frozen_at(outputs@, i) && final(shown)@ == old(shown)@ + outputs@.take(i)
                && r@ == outputs@.skip(i + 1),
{
    let ghost all = outputs@;
    let mut queue = outputs;
    let ghost mut k: int = 0;
    assert(all.skip(0) =~= all);
    while queue.len() > 0
        invariant
            all == outputs@,
            0 <= k <= all.len(),
            queue@ == all.skip(k),
            shown@ == old(shown)@ + all.take(k),
            no_freeze(all.take(k)),
        decreases queue@.len(),
    {
        let output = queue.remove(0);
        assert(output == all[k]);
        if let HandlerOutput::Freeze = output {
            assert(all[k] is Freeze);
            assert(!no_freeze(all));
            assert(frozen_at(all, k));
            assert(queue@ =~= all.skip(k + 1));
            assert(frozen_at(all, k) && shown@ == old(shown)@ + all.take(k) && queue@ == all.skip(
                k + 1,
            ));
            return Some(queue);
        }
        shown.push(output);
        proof {
            assert(all.take(k + 1) =~= all.take(k).push(all[k]));
            k = k + 1;
            assert(queue@ =~= all.skip(k));
        }
    }
    assert(all.take(k) =~= all);
    None
}

/// Works through the outputs `pending`, then runs the handlers `kinds` in order on the
/// input, showing what they give, the text of the error of each that fails (the ones after
/// it still run), until an output asks to wait for the user: what follows it is handed back.
pub fn resume_handling(
    pending: Vec<HandlerOutput>,
    kinds: Vec<HandlerKind>,
    input: &mut HandlerInput,
) -> (r: (Vec<HandlerOutput>, Option<Frozen>))
    requires
        old(input).wf(),
    ensures
        final(input).wf(),
        worked_through(pending@, kinds@, *old(input), *final(input), r.0@, frozen_view(r.1)),
{
    let ghost pend = pending@;
    let ghost all_kinds = kinds@;
    let mut shown: Vec<HandlerOutput> = Vec::new();
    let ghost mut states: Seq<HandlerInput> = seq![*input];
    let ghost mut pieces: Seq<Seq<HandlerOutput>> = Seq::empty();
    assert(pend + joined(pieces) =~= pend);
    match move_until_freeze(pending, &mut shown) {
        Some(rest) => {
            assert(shown@ =~= pend.take(shown@.len() as int));
            assert(all_kinds.skip(0) =~= all_kinds);
            let frozen = Frozen { outputs: rest, kinds };
            assert(ran_in_order(all_kinds.take(0), states, pieces));
            assert(handled_outputs(pend, all_kinds, pieces, shown@, frozen_view(Some(frozen))));
            return (shown, Some(frozen));
        },
        None => {},
    }
    assert(shown@ =~= pend);
    let mut queue = kinds;
    let ghost mut k: int = 0;
    assert(all_kinds.skip(0) =~= all_kinds);
    while queue.len() > 0
        invariant
            0 <= k <= all_kinds.len(),
            queue@ == all_kinds.skip(k),
            all_kinds == kinds@,
            pend == pending@,
            input.wf(),
            states.len() == k + 1,
            pieces.len() == k,
            states[0] == *old(input),
            states[k] == *input,
            forall|j: int|
                0 <= j < k ==> #[trigger] shown_for(all_kinds[j], states[j], states[j + 1], pieces[j]),
            shown@ == pend + joined(pieces),
            no_freeze(shown@),
        decreases queue@.len(),
    {
        let ghost before = *input;
        let kind = queue.remove(0);
        assert(kind == all_kinds[k]);
        let result = run_handler(kind, input);
        let piece: Vec<HandlerOutput> = match result {
            None => Vec::new(),
            Some(Ok(outputs)) => outputs,
            Some(Err(e)) => {
                let mut one: Vec<HandlerOutput> = Vec::new();
                one.push(HandlerOutput::ErrorMessage(e.message(), None));
                one
            },
        };
        proof {
            assert(shown_for(kind, before, *input, piece@));
        }
        let ghost old_shown = shown@;
        let ghost old_pieces = pieces;
        proof {
            states = states.push(*input);
            pieces = pieces.push(piece@);
            assert(pieces.drop_last() =~= old_pieces);
            assert(joined(pieces) == joined(old_pieces) + piece@);
            assert forall|j: int| 0 <= j < k + 1 implies #[trigger] shown_for(
                all_kinds[j],
                states[j],
                states[j + 1],
                pieces[j],
            ) by {
                if j < k {
                    assert(states[j] == states.drop_last()[j]);
                }
            }
        }
        let ghost piece_view = piece@;
        match move_until_freeze(piece, &mut shown) {
            Some(rest) => {
                proof {
                    let all = pend + joined(pieces);
                    assert(all =~= old_shown + piece_view);
                    let i = choose|i: int|
                        #[trigger] frozen_at(piece_view, i) && shown@ == old_shown + piece_view.take(i)
                            && rest@ == piece_view.skip(i + 1);
                    let n = old_shown.len() as int;
                    assert(all[n + i] == piece_view[i]);
                    assert(all.take(n + i) =~= old_shown + piece_view.take(i));
                    assert(no_freeze(all.take(n + i))) by {
                        assert forall|j: int| 0 <= j < all.take(n + i).len() implies !(
                        #[trigger] all.take(n + i)[j] is Freeze) by {
                            if j < n {
                                assert(all.take(n + i)[j] == old_shown[j]);
                            } else {
                                assert(all.take(n + i)[j] == piece_view.take(i)[j - n]);
                            }
                        }
                    }
                    assert(frozen_at(all, n + i));
                    assert(shown@ =~= all.take(n + i));
                    assert(rest@ =~= all.skip(n + i + 1));
                    assert(queue@ =~= all_kinds.skip(k + 1));
                    assert(pend + joined(pieces.drop_last()) == old_shown);
                    assert(ran_in_order(all_kinds.take(k + 1), states, pieces));
                }
                let frozen = Frozen { outputs: rest, kinds: queue };
                proof {
                    assert(handled_outputs(pend, all_kinds, pieces, shown@, frozen_view(Some(frozen))));
                    assert(ran_in_order(all_kinds.take(pieces.len() as int), states, pieces));
                    assert(states.last() == *input);
                }
                return (shown, Some(frozen));
            },
            None => {
                proof {
                    assert(shown@ =~= pend + joined(pieces));
                    assert(no_freeze(shown@)) by {
                        assert forall|j: int| 0 <= j < shown@.len() implies !(
                        #[trigger] shown@[j] is Freeze) by {
                            if j < old_shown.len() {
                                assert(shown@[j] == old_shown[j]);
                            } else {
                                assert(shown@[j] == piece_view[j - old_shown.len()]);
                            }
                        }
                    }
                    k = k + 1;
                    assert(queue@ =~= all_kinds.skip(k));
                }
            },
        }
    }
    proof {
        assert(all_kinds.take(k) =~= all_kinds);
        assert(ran_in_order(all_kinds.take(k), states, pieces));
        assert(handled_outputs(pend, all_kinds, pieces, shown@, frozen_view(None)));
    }
    (shown, None)
}

/// What the client shows of one packet: the name and bytes of a packet no handler takes;
/// else what the handlers the packet is routed to show, run in order, until one asks to
/// wait for the user, with what is left of the packet then.
pub fn handle_packet(connected_to_realm: bool, input: &mut HandlerInput) -> (r: (
    Vec<HandlerOutput>,
    Option<Frozen>,
))
    requires
        old(input).wf(),
        connected_to_realm ==> old(input).data@.len() >= 4,
    ensures
        final(input).wf(),
        ({
            let kinds = routed_handlers(connected_to_realm, old(input).data@, old(input).opcode);
            let routed = HandlerInput {
                opcode: routed_opcode(connected_to_realm, old(input).data@, old(input).opcode),
                ..*old(input)
            };
            if kinds.len() == 0 {
                &&& *final(input) == routed
                &&& r.1 is None
                &&& r.0@.len() == 1
                &&& r.0@[0] matches HandlerOutput::ResponseMessage(m, d) && m@ == server_opcode_name(
                    routed.opcode,
                ) && (d matches Some(t) && t@ == PacketDetailsView::Hex(hex_chars(routed.data@)))
            } else {
                worked_through(Seq::empty(), kinds, routed, *final(input), r.0@, frozen_view(r.1))
            }
        }),
{
    let kinds = route_packet(connected_to_realm, input);
    if kinds.len() == 0 {
        let mut shown: Vec<HandlerOutput> = Vec::new();
        shown.push(unhandled_packet(input.opcode, input.data.as_slice()));
        return (shown, None);
    }
    resume_handling(Vec::new(), kinds, input)
}

/// The user's choice of a realm or a character while a packet waits: the choice is kept
/// (as `decide_output` keeps it) and the packet's handling goes on from where it stopped.
/// Any other output leaves everything waiting as it was.
pub fn resume_with_choice(choice: HandlerOutput, frozen: Frozen, input: &mut HandlerInput) -> (r: (
    Vec<HandlerOutput>,
    Option<Frozen>,
))
    requires
        old(input).wf(),
    ensures
        final(input).wf(),
        match choice {
            HandlerOutput::SelectRealm(realm) => worked_through(
                frozen.outputs@,
                frozen.kinds@,
                HandlerInput {
                    session: Session { selected_realm: Some(realm), ..old(input).session },
                    ..*old(input)
                },
                *final(input),
                r.0@,
                frozen_view(r.1),
            ),
            HandlerOutput::SelectCharacter(player) => worked_through(
                frozen.outputs@,
                frozen.kinds@,
                HandlerInput { session: Session { me: Some(player), ..old(input).session }, ..*old(input) },
                *final(input),
                r.0@,
                frozen_view(r.1),
            ),
            _ => *final(input) == *old(input) && r.0@.len() == 0 && frozen_view(r.1) == frozen_view(
                Some(frozen),
            ),
        },
{
    match choice {
        HandlerOutput::SelectRealm(realm) => {
            input.session.selected_realm = Some(realm);
            resume_handling(frozen.outputs, frozen.kinds, input)
        },
        HandlerOutput::SelectCharacter(player) => {
            input.session.me = Some(player);
            resume_handling(frozen.outputs, frozen.kinds, input)
        },
        _ => (Vec::new(), Some(frozen)),
    }
}

/// The text "host:port".
pub open spec fn address_text(host: Seq<char>, port: u16) -> Seq<char> {
    host + ":"@ + decimal_chars(port as nat)
}

/// The message shown once connected to a server.
pub fn connected_message(host: &str, port: u16) -> (output: HandlerOutput)
    ensures
        output matches HandlerOutput::SuccessMessage(m, d) && m@ == "Connected to "@
            + address_text(host@, port) && d is None,
{
    let mut text = String::from_str("Connected to ");
    text.append(host);
    text.append(":");
    let digits = decimal_string(port as u64);
    text.append(digits.as_str());
    HandlerOutput::SuccessMessage(text, None)
}

/// The message shown when the first connection fails: "Cannot connect: " and the error.
pub fn cannot_connect_message(error: &str) -> (output: HandlerOutput)
    ensures
        is_error_message(output, "Cannot connect: "@ + error@),
{
    let mut text = String::from_str("Cannot connect: ");
    text.append(error);
    HandlerOutput::ErrorMessage(text, None)
}

/// What the client shows once it tried to open the world connection, and whether it is
/// now connected to the realm: on success the address, and it is; on failure the error
/// of the attempt, and nothing changes.
pub fn after_connect(
    host: &str,
    port: u16,
    outcome: Result<(), String>,
    connected_to_realm: bool,
) -> (r: (HandlerOutput, bool))
    ensures
        match outcome {
            Ok(_) => {
                &&& r.1
                &&& r.0 matches HandlerOutput::SuccessMessage(m, d) && m@ == "Connected to "@
                    + address_text(host@, port) && d is None
            },
            Err(text) => r.1 == connected_to_realm && is_error_message(r.0, text@),
        },
{
    match outcome {
        Ok(()) => (connected_message(host, port), true),
        Err(text) => (HandlerOutput::ErrorMessage(text, None), connected_to_realm),
    }
}

/// The request shown when the login starts.
pub fn login_request_message(account: &str) -> (output: HandlerOutput)
    ensures
        output matches HandlerOutput::RequestMessage(m, d) && m@ == "LOGIN_CHALLENGE as "@
            + account@ && d is None,
{
    let mut text = String::from_str("LOGIN_CHALLENGE as ");
    text.append(account);
    HandlerOutput::RequestMessage(text, None)
}

/// The request shown once a packet is written: its name and how many bytes were sent,
/// with the bytes of the packet in hexadecimal.
pub fn sent_message(opcode: u32, bytes_sent: u64, data: &[u8]) -> (output: HandlerOutput)
    ensures
        output matches HandlerOutput::RequestMessage(m, d) && m@ == client_opcode_name(opcode)
            + ": "@ + decimal_chars(bytes_sent as nat) + " bytes sent"@ && (d matches Some(t)
            && t@ == hex_chars(data@)),
{
    let mut text = Opcode::get_client_opcode_name(opcode);
    text.append(": ");
    let digits = decimal_string(bytes_sent);
    text.append(digits.as_str());
    text.append(" bytes sent");
    HandlerOutput::RequestMessage(text, Some(encode_hex(data)))
}

/// The logout request (`CMSG_LOGOUT_REQUEST`, empty body).
pub fn logout_packet() -> (packet: OutgoingPacket)
    ensures
        packet.opcode == Opcode::CMSG_LOGOUT_REQUEST,
        packet.data@ == world_frame(Opcode::CMSG_LOGOUT_REQUEST, Seq::empty()),
{
    let body: Vec<u8> = Vec::new();
    world_packet(Opcode::CMSG_LOGOUT_REQUEST, body.as_slice())
}

/// What the client does for an output of a handler or of the user.
#[derive(Debug)]
pub enum OutputAction {
    /// Write the packet to the server.
    Send(OutgoingPacket),
    /// Connect to the world server at this host and port.
    Connect(String, u16),
    /// Stop handling outputs: the connection is given up.
    Stop,
    /// Show the output.
    Broadcast(HandlerOutput),
    /// Wake the reader that waits for a choice of the user.
    Resume,
}

/// Decides what to do with an output: send packets, connect, stop, log out (on a realm by
/// asking the server, before by confirming at once), keep a realm or character the user
/// chose; messages need nothing more.
pub fn decide_output(output: HandlerOutput, connected_to_realm: bool, session: &mut Session) -> (actions: Vec<
    OutputAction,
>)
    ensures
        match output {
            HandlerOutput::Data(p) => actions@.len() == 1 && actions@[0] == OutputAction::Send(p)
                && *final(session) == *old(session),
            HandlerOutput::ConnectionRequest(host, port) => {
                &&& actions@.len() == 1
                &&& actions@[0] matches OutputAction::Connect(h, q) && h@ == host@ && q == port
                &&& *final(session) == *old(session)
            },
            HandlerOutput::Drop => actions@ == seq![OutputAction::Stop] && *final(session)
                == *old(session),
            HandlerOutput::ExitRequest => *final(session) == *old(session) && if connected_to_realm {
                &&& actions@.len() == 2
                &&& actions@[0] matches OutputAction::Broadcast(o) && is_debug_message(
                    o,
                    "Starting logout, please wait..."@,
                    None,
                )
                &&& actions@[1] matches OutputAction::Send(p) && p.opcode
                    == Opcode::CMSG_LOGOUT_REQUEST && p.data@ == world_frame(
                    Opcode::CMSG_LOGOUT_REQUEST,
                    Seq::empty(),
                )
            } else {
                &&& actions@.len() == 1
                &&& actions@[0] matches OutputAction::Broadcast(o) && o is ExitConfirmed
            },
            HandlerOutput::SelectRealm(realm) => actions@ == seq![OutputAction::Resume]
                && *final(session) == (Session { selected_realm: Some(realm), ..*old(session) }),
            HandlerOutput::SelectCharacter(player) => actions@ == seq![OutputAction::Resume]
                && *final(session) == (Session { me: Some(player), ..*old(session) }),
            _ => actions@.len() == 0 && *final(session) == *old(session),
        },
{
    let mut actions: Vec<OutputAction> = Vec::new();
    match output {
        HandlerOutput::Data(packet) => {
            actions.push(OutputAction::Send(packet));
        },
        HandlerOutput::ConnectionRequest(host, port) => {
            actions.push(OutputAction::Connect(host, port));
        },
        HandlerOutput::Drop => {
            actions.push(OutputAction::Stop);
            assert(actions@ =~= seq![OutputAction::Stop]);
        },
        HandlerOutput::ExitRequest => {
            if connected_to_realm {
                actions.push(
                    OutputAction::Broadcast(
                        HandlerOutput::DebugMessage(
                            "Starting logout, please wait...".to_string(),
                            None,
                        ),
                    ),
                );
                actions.push(OutputAction::Send(logout_packet()));
            } else {
                actions.push(OutputAction::Broadcast(HandlerOutput::ExitConfirmed));
            }
        },
        HandlerOutput::SelectRealm(realm) => {
            session.selected_realm = Some(realm);
            actions.push(OutputAction::Resume);
            assert(actions@ =~= seq![OutputAction::Resume]);
        },
        HandlerOutput::SelectCharacter(player) => {
            session.me = Some(player);
            actions.push(OutputAction::Resume);
            assert(actions@ =~= seq![OutputAction::Resume]);
        },
        _ => {},
    }
    actions
}

} // verus!

verus! {

/// The world server's challenge (opcode 492) is answered: once the client is on a realm,
/// a packet with that opcode (and no movement opcode in its header bytes) is routed to the
/// `AuthChallenge` handler; the realm processor gives that handler for this opcode and for
/// no other.
pub proof fn lemma_world_challenge_is_answered(data: Seq<u8>, opcode: u16)
    requires
        data.len() >= 4,
        !is_tracked_movement(embedded_opcode(data)),
    ensures
        routed_handlers(true, data, 492u16).contains(HandlerKind::AuthChallenge),
        realm_handlers(opcode).contains(HandlerKind::AuthChallenge) <==> opcode == 492,
{
    let kinds = routed_handlers(true, data, 492u16);
    let before = chat_handlers(492u16) + Seq::<HandlerKind>::empty() + player_handlers(492u16);
    assert(realm_handlers(492u16)[0] == HandlerKind::AuthChallenge);
    assert(kinds[before.len() as int] == HandlerKind::AuthChallenge);
    if realm_handlers(opcode).contains(HandlerKind::AuthChallenge) {
        let i = choose|i: int|
            0 <= i < realm_handlers(opcode).len() && realm_handlers(opcode)[i]
                == HandlerKind::AuthChallenge;
        assert(realm_handlers(opcode)[i] == HandlerKind::AuthChallenge);
    }
}

} // verus!
