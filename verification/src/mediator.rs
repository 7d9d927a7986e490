//! The mediator's verified decisions: the tool catalogue, routing a
//! tool call to a lobby action and its reply, channel handling over
//! the supervisor, and turning lobby events into push-event payloads.

use crate::engine::{EngineManager, GameStatus};
use crate::ipc::{encode_command, parse_publish_command, spec_parse_command, GameCommand};
use crate::json::{encode_object, spec_enc_obj, JsonField, JsonScalar};
use crate::numfmt::{i32_to_string, i64_to_string, spec_int_str, spec_nat_str, u64_to_string};
use crate::protocol::{hash_password, spec_hash_password, spec_to_wire, LobbyMessage, MessageData, MessageDataV};
use crate::state::{LobbyEvent, LobbyState};
use crate::text::to_owned_string;
use vstd::prelude::*;
use vstd::string::StringExecFns;

verus! {

/// A tool reply in the shape every tool uses: one text block, and
/// whether it reports an error.
#[derive(Debug)]
pub struct ToolReply {
    pub text: String,
    pub is_error: bool,
}

/// What a tool asks the caller to do besides replying.
#[derive(Debug)]
pub enum LobbyAction {
    /// Open a TCP connection to the lobby server.
    Connect { host: String, port: u16 },
    /// Send one line on the lobby connection.
    SendLine(String),
    /// Drop the lobby connection.
    Disconnect,
    /// Nothing.
    Stay,
}

fn reply_err(text: &str) -> (r: ToolReply)
    ensures
        r.text@ == text@,
        r.is_error,
{
    ToolReply { text: to_owned_string(text), is_error: true }
}

/// The wire line for a command word and an already-encoded JSON payload.
fn wire_line(command: &str, payload: String) -> (r: String)
    ensures
        r@ == spec_to_wire(
            crate::protocol::LobbyMessageV {
                command: command@,
                data: MessageDataV::Json(payload@),
            },
        ),
{
    let m = LobbyMessage::new(command, MessageData::Json(payload));
    m.to_wire()
}

// ── Lobby tools ──

/// The fields of a `Login` command, as the server expects them.
pub open spec fn spec_login_fields(name: Seq<char>, hash: Seq<char>) -> Seq<
    crate::json::JsonFieldV,
> {
    seq![
        crate::ipc::fld("Name"@, crate::json::JsonScalarV::Str(name)),
        crate::ipc::fld("PasswordHash"@, crate::json::JsonScalarV::Str(hash)),
        crate::ipc::fld("UserID"@, crate::json::JsonScalarV::Int(0)),
        crate::ipc::fld("InstallID"@, crate::json::JsonScalarV::Int(0)),
        crate::ipc::fld("LobbyVersion"@, crate::json::JsonScalarV::Int(0)),
        crate::ipc::fld("SteamAuthToken"@, crate::json::JsonScalarV::Str(Seq::empty())),
        crate::ipc::fld("Dlc"@, crate::json::JsonScalarV::Str(Seq::empty())),
    ]
}

/// Route `lobby_login`: with both arguments and a connection, hash the
/// password and send the `Login` line; otherwise report what is
/// missing.
pub fn tool_lobby_login(connected: bool, username: Option<&str>, password: Option<&str>) -> (r: (
    ToolReply,
    LobbyAction,
))
    ensures
        match (username, password) {
            (None, _) => r.0.is_error && r.0.text@ == "Missing username"@ && r.1 is Stay,
            (Some(_), None) => r.0.is_error && r.0.text@ == "Missing password"@ && r.1 is Stay,
            (Some(u), Some(p)) => {
                if !connected {
                    r.0.is_error && r.0.text@ == "Not connected to lobby. Call lobby_connect first."@
                        && r.1 is Stay
                } else {
                    &&& !r.0.is_error
                    &&& r.0.text@ == "Login sent for user '"@ + u@
                        + "'. Waiting for server response..."@
                    &&& r.1 matches LobbyAction::SendLine(line) && line@ == spec_to_wire(
                        crate::protocol::LobbyMessageV {
                            command: "Login"@,
                            data: MessageDataV::Json(
                                spec_enc_obj(spec_login_fields(u@, spec_hash_password(p))),
                            ),
                        },
                    )
                }
            },
        },
{
    let u = match username {
        Some(u) => u,
        None => {
            return (reply_err("Missing username"), LobbyAction::Stay);
        },
    };
    let p = match password {
        Some(p) => p,
        None => {
            return (reply_err("Missing password"), LobbyAction::Stay);
        },
    };
    if !connected {
        return (reply_err("Not connected to lobby. Call lobby_connect first."), LobbyAction::Stay);
    }
    let hash = hash_password(p);
    let mut fs: Vec<JsonField> = Vec::new();
    crate::ipc::push_fld(&mut fs, "Name", JsonScalar::Str(to_owned_string(u)));
    crate::ipc::push_fld(&mut fs, "PasswordHash", JsonScalar::Str(hash));
    crate::ipc::push_fld(&mut fs, "UserID", JsonScalar::Int(0));
    crate::ipc::push_fld(&mut fs, "InstallID", JsonScalar::Int(0));
    crate::ipc::push_fld(&mut fs, "LobbyVersion", JsonScalar::Int(0));
    crate::ipc::push_fld(&mut fs, "SteamAuthToken", JsonScalar::Str(String::new()));
    crate::ipc::push_fld(&mut fs, "Dlc", JsonScalar::Str(String::new()));
    proof {
        assert(crate::json::fields_view(fs@) =~= spec_login_fields(u@, spec_hash_password(p)));
    }
    let line = wire_line("Login", encode_object(&fs));
    let mut text = to_owned_string("Login sent for user '");
    text.append(u);
    text.append("'. Waiting for server response...");
    (ToolReply { text, is_error: false }, LobbyAction::SendLine(line))
}

/// The fields of a `Register` command.
pub open spec fn spec_register_fields(
    name: Seq<char>,
    hash: Seq<char>,
    email: Seq<char>,
) -> Seq<crate::json::JsonFieldV> {
    seq![
        crate::ipc::fld("Name"@, crate::json::JsonScalarV::Str(name)),
        crate::ipc::fld("PasswordHash"@, crate::json::JsonScalarV::Str(hash)),
        crate::ipc::fld("Email"@, crate::json::JsonScalarV::Str(email)),
        crate::ipc::fld("UserID"@, crate::json::JsonScalarV::Int(0)),
        crate::ipc::fld("InstallID"@, crate::json::JsonScalarV::Str(Seq::empty())),
        crate::ipc::fld("SteamAuthToken"@, crate::json::JsonScalarV::Str(Seq::empty())),
        crate::ipc::fld("Dlc"@, crate::json::JsonScalarV::Str(Seq::empty())),
    ]
}

/// Route `lobby_register`.
pub fn tool_lobby_register(
    connected: bool,
    username: Option<&str>,
    password: Option<&str>,
    email: Option<&str>,
) -> (r: (ToolReply, LobbyAction))
    ensures
        match (username, password, email) {
            (None, _, _) => r.0.is_error && r.0.text@ == "Missing username"@ && r.1 is Stay,
            (Some(_), None, _) => r.0.is_error && r.0.text@ == "Missing password"@ && r.1 is Stay,
            (Some(_), Some(_), None) => r.0.is_error && r.0.text@ == "Missing email"@
                && r.1 is Stay,
            (Some(u), Some(p), Some(em)) => {
                if !connected {
                    r.0.is_error && r.0.text@ == "Not connected to lobby. Call lobby_connect first."@
                        && r.1 is Stay
                } else {
                    &&& !r.0.is_error
                    &&& r.0.text@ == "Registration sent for user '"@ + u@ + "' with email '"@
                        + em@ + "'. Waiting for server response..."@
                    &&& r.1 matches LobbyAction::SendLine(line) && line@ == spec_to_wire(
                        crate::protocol::LobbyMessageV {
                            command: "Register"@,
                            data: MessageDataV::Json(
                                spec_enc_obj(
                                    spec_register_fields(u@, spec_hash_password(p), em@),
                                ),
                            ),
                        },
                    )
                }
            },
        },
{
    let u = match username {
        Some(u) => u,
        None => {
            return (reply_err("Missing username"), LobbyAction::Stay);
        },
    };
    let p = match password {
        Some(p) => p,
        None => {
            return (reply_err("Missing password"), LobbyAction::Stay);
        },
    };
    let em = match email {
        Some(e) => e,
        None => {
            return (reply_err("Missing email"), LobbyAction::Stay);
        },
    };
    if !connected {
        return (reply_err("Not connected to lobby. Call lobby_connect first."), LobbyAction::Stay);
    }
    let hash = hash_password(p);
    let mut fs: Vec<JsonField> = Vec::new();
    crate::ipc::push_fld(&mut fs, "Name", JsonScalar::Str(to_owned_string(u)));
    crate::ipc::push_fld(&mut fs, "PasswordHash", JsonScalar::Str(hash));
    crate::ipc::push_fld(&mut fs, "Email", JsonScalar::Str(to_owned_string(em)));
    crate::ipc::push_fld(&mut fs, "UserID", JsonScalar::Int(0));
    crate::ipc::push_fld(&mut fs, "InstallID", JsonScalar::Str(String::new()));
    crate::ipc::push_fld(&mut fs, "SteamAuthToken", JsonScalar::Str(String::new()));
    crate::ipc::push_fld(&mut fs, "Dlc", JsonScalar::Str(String::new()));
    proof {
        assert(crate::json::fields_view(fs@) =~= spec_register_fields(
            u@,
            spec_hash_password(p),
            em@,
        ));
    }
    let line = wire_line("Register", encode_object(&fs));
    let mut text = to_owned_string("Registration sent for user '");
    text.append(u);
    text.append("' with email '");
    text.append(em);
    text.append("'. Waiting for server response...");
    (ToolReply { text, is_error: false }, LobbyAction::SendLine(line))
}

/// The fields of a `Say` command.
pub open spec fn spec_say_fields(place: int, target: Seq<char>, text: Seq<char>) -> Seq<
    crate::json::JsonFieldV,
> {
    seq![
        crate::ipc::fld("Place"@, crate::json::JsonScalarV::Int(place)),
        crate::ipc::fld("Target"@, crate::json::JsonScalarV::Str(target)),
        crate::ipc::fld("Text"@, crate::json::JsonScalarV::Str(text)),
        crate::ipc::fld("IsEmote"@, crate::json::JsonScalarV::Bool(false)),
    ]
}

/// Route `lobby_say`.
pub fn tool_lobby_say(connected: bool, target: Option<&str>, text: Option<&str>, place: i32) -> (r:
    (ToolReply, LobbyAction))
    ensures
        match (target, text) {
            (None, _) => r.0.is_error && r.0.text@ == "Missing target"@ && r.1 is Stay,
            (Some(_), None) => r.0.is_error && r.0.text@ == "Missing text"@ && r.1 is Stay,
            (Some(tg), Some(tx)) => {
                if !connected {
                    r.0.is_error && r.0.text@ == "Not connected"@ && r.1 is Stay
                } else {
                    &&& !r.0.is_error
                    &&& r.0.text@ == "Sent to "@ + tg@ + ": "@ + tx@
                    &&& r.1 matches LobbyAction::SendLine(line) && line@ == spec_to_wire(
                        crate::protocol::LobbyMessageV {
                            command: "Say"@,
                            data: MessageDataV::Json(
                                spec_enc_obj(spec_say_fields(place as int, tg@, tx@)),
                            ),
                        },
                    )
                }
            },
        },
{
    let tg = match target {
        Some(t) => t,
        None => {
            return (reply_err("Missing target"), LobbyAction::Stay);
        },
    };
    let tx = match text {
        Some(t) => t,
        None => {
            return (reply_err("Missing text"), LobbyAction::Stay);
        },
    };
    if !connected {
        return (reply_err("Not connected"), LobbyAction::Stay);
    }
    let mut fs: Vec<JsonField> = Vec::new();
    crate::ipc::push_fld(&mut fs, "Place", JsonScalar::Int(place as i64));
    crate::ipc::push_fld(&mut fs, "Target", JsonScalar::Str(to_owned_string(tg)));
    crate::ipc::push_fld(&mut fs, "Text", JsonScalar::Str(to_owned_string(tx)));
    crate::ipc::push_fld(&mut fs, "IsEmote", JsonScalar::Bool(false));
    proof {
        assert(crate::json::fields_view(fs@) =~= spec_say_fields(place as int, tg@, tx@));
    }
    let line = wire_line("Say", encode_object(&fs));
    let mut reply = to_owned_string("Sent to ");
    reply.append(tg);
    reply.append(": ");
    reply.append(tx);
    (ToolReply { text: reply, is_error: false }, LobbyAction::SendLine(line))
}


/// Route `lobby_join_channel`.
pub fn tool_lobby_join_channel(connected: bool, channel: Option<&str>) -> (r: (
    ToolReply,
    LobbyAction,
))
    ensures
        match channel {
            None => r.0.is_error && r.0.text@ == "Missing channel"@ && r.1 is Stay,
            Some(c) => {
                if !connected {
                    r.0.is_error && r.0.text@ == "Not connected"@ && r.1 is Stay
                } else {
                    &&& !r.0.is_error
                    &&& r.0.text@ == "Join request sent for #"@ + c@
                    &&& r.1 matches LobbyAction::SendLine(line) && line@ == spec_to_wire(
                        crate::protocol::LobbyMessageV {
                            command: "JoinChannel"@,
                            data: MessageDataV::Json(
                                spec_enc_obj(
                                    seq![
                                        crate::ipc::fld(
                                            "ChannelName"@,
                                            crate::json::JsonScalarV::Str(c@),
                                        ),
                                        crate::ipc::fld(
                                            "Password"@,
                                            crate::json::JsonScalarV::Str(Seq::empty()),
                                        ),
                                    ],
                                ),
                            ),
                        },
                    )
                }
            },
        },
{
    let c = match channel {
        Some(c) => c,
        None => {
            return (reply_err("Missing channel"), LobbyAction::Stay);
        },
    };
    if !connected {
        return (reply_err("Not connected"), LobbyAction::Stay);
    }
    let mut fs: Vec<JsonField> = Vec::new();
    crate::ipc::push_fld(&mut fs, "ChannelName", JsonScalar::Str(to_owned_string(c)));
    crate::ipc::push_fld(&mut fs, "Password", JsonScalar::Str(String::new()));
    proof {
        assert(crate::json::fields_view(fs@) =~= seq![
            crate::ipc::fld("ChannelName"@, crate::json::JsonScalarV::Str(c@)),
            crate::ipc::fld("Password"@, crate::json::JsonScalarV::Str(Seq::<char>::empty())),
        ]);
    }
    let line = wire_line("JoinChannel", encode_object(&fs));
    let mut text = to_owned_string("Join request sent for #");
    text.append(c);
    (ToolReply { text, is_error: false }, LobbyAction::SendLine(line))
}

/// Route `lobby_leave_channel`: on success the channel also leaves the
/// observed state.
pub fn tool_lobby_leave_channel(
    state: &mut LobbyState,
    connected: bool,
    channel: Option<&str>,
) -> (r: (ToolReply, LobbyAction))
    requires
        old(state).wf(),
    ensures
        final(state).wf(),
        match channel {
            None => r.0.is_error && r.0.text@ == "Missing channel"@ && r.1 is Stay && final(state)@ == old(state)@,
            Some(c) => {
                if !connected {
                    r.0.is_error && r.0.text@ == "Not connected"@ && r.1 is Stay && final(state)@
                        == old(state)@
                } else {
                    &&& !r.0.is_error
                    &&& r.0.text@ == "Left #"@ + c@
                    &&& final(state)@ == (crate::state::LobbyStateV {
                        channels: old(state)@.channels.remove(c@),
                        ..old(state)@
                    })
                    &&& r.1 matches LobbyAction::SendLine(line) && line@ == spec_to_wire(
                        crate::protocol::LobbyMessageV {
                            command: "LeaveChannel"@,
                            data: MessageDataV::Json(
                                spec_enc_obj(
                                    seq![
                                        crate::ipc::fld(
                                            "ChannelName"@,
                                            crate::json::JsonScalarV::Str(c@),
                                        ),
                                    ],
                                ),
                            ),
                        },
                    )
                }
            },
        },
{
    let c = match channel {
        Some(c) => c,
        None => {
            return (reply_err("Missing channel"), LobbyAction::Stay);
        },
    };
    if !connected {
        return (reply_err("Not connected"), LobbyAction::Stay);
    }
    let mut fs: Vec<JsonField> = Vec::new();
    crate::ipc::push_fld(&mut fs, "ChannelName", JsonScalar::Str(to_owned_string(c)));
    proof {
        assert(crate::json::fields_view(fs@) =~= seq![
            crate::ipc::fld("ChannelName"@, crate::json::JsonScalarV::Str(c@)),
        ]);
    }
    let line = wire_line("LeaveChannel", encode_object(&fs));
    state.channels.remove(c);
    proof {
        assert(state@ =~~= (crate::state::LobbyStateV {
            channels: old(state)@.channels.remove(c@),
            ..old(state)@
        }));
    }
    let mut text = to_owned_string("Left #");
    text.append(c);
    (ToolReply { text, is_error: false }, LobbyAction::SendLine(line))
}

/// Route `lobby_join_battle`: on success the battle becomes the one
/// the client sits in.
pub fn tool_lobby_join_battle(
    state: &mut LobbyState,
    connected: bool,
    battle_id: Option<i64>,
    password: &str,
) -> (r: (ToolReply, LobbyAction))
    requires
        old(state).wf(),
    ensures
        final(state).wf(),
        match battle_id {
            None => r.0.is_error && r.0.text@ == "Missing battle_id"@ && r.1 is Stay && final(state)@ == old(state)@,
            Some(id) => {
                if !connected {
                    r.0.is_error && r.0.text@ == "Not connected"@ && r.1 is Stay && final(state)@
                        == old(state)@
                } else {
                    &&& !r.0.is_error
                    &&& r.0.text@ == "Join request sent for battle "@ + spec_int_str(id as int)
                    &&& final(state)@ == (crate::state::LobbyStateV {
                        my_battle: Some(id as int),
                        ..old(state)@
                    })
                    &&& r.1 matches LobbyAction::SendLine(line) && line@ == spec_to_wire(
                        crate::protocol::LobbyMessageV {
                            command: "JoinBattle"@,
                            data: MessageDataV::Json(
                                spec_enc_obj(
                                    seq![
                                        crate::ipc::fld(
                                            "BattleID"@,
                                            crate::json::JsonScalarV::Int(id as int),
                                        ),
                                        crate::ipc::fld(
                                            "Password"@,
                                            crate::json::JsonScalarV::Str(password@),
                                        ),
                                    ],
                                ),
                            ),
                        },
                    )
                }
            },
        },
{
    let id = match battle_id {
        Some(id) => id,
        None => {
            return (reply_err("Missing battle_id"), LobbyAction::Stay);
        },
    };
    if !connected {
        return (reply_err("Not connected"), LobbyAction::Stay);
    }
    let mut fs: Vec<JsonField> = Vec::new();
    crate::ipc::push_fld(&mut fs, "BattleID", JsonScalar::Int(id));
    crate::ipc::push_fld(&mut fs, "Password", JsonScalar::Str(to_owned_string(password)));
    proof {
        assert(crate::json::fields_view(fs@) =~= seq![
            crate::ipc::fld("BattleID"@, crate::json::JsonScalarV::Int(id as int)),
            crate::ipc::fld("Password"@, crate::json::JsonScalarV::Str(password@)),
        ]);
    }
    let line = wire_line("JoinBattle", encode_object(&fs));
    state.my_battle = Some(id);
    proof {
        assert(state@ =~~= (crate::state::LobbyStateV {
            my_battle: Some(id as int),
            ..old(state)@
        }));
    }
    let mut text = to_owned_string("Join request sent for battle ");
    text.append(i64_to_string(id).as_str());
    (ToolReply { text, is_error: false }, LobbyAction::SendLine(line))
}

/// Route `lobby_leave_battle`.
pub fn tool_lobby_leave_battle(state: &mut LobbyState, connected: bool) -> (r: (
    ToolReply,
    LobbyAction,
))
    requires
        old(state).wf(),
    ensures
        final(state).wf(),
        if !connected {
            r.0.is_error && r.0.text@ == "Not connected"@ && r.1 is Stay && final(state)@ == old(state)@
        } else {
            &&& !r.0.is_error
            &&& r.0.text@ == "Left battle"@
            &&& final(state)@ == (crate::state::LobbyStateV { my_battle: None, ..old(state)@ })
            &&& r.1 matches LobbyAction::SendLine(line) && line@ == spec_to_wire(
                crate::protocol::LobbyMessageV {
                    command: "LeaveBattle"@,
                    data: MessageDataV::Json(seq!['{', '}']),
                },
            )
        },
{
    if !connected {
        return (reply_err("Not connected"), LobbyAction::Stay);
    }
    let payload = to_owned_string("{}");
    proof {
        reveal_strlit("{}");
        assert("{}"@ =~= seq!['{', '}']);
    }
    let line = wire_line("LeaveBattle", payload);
    state.my_battle = None;
    proof {
        assert(state@ =~~= (crate::state::LobbyStateV { my_battle: None, ..old(state)@ }));
    }
    (ToolReply { text: to_owned_string("Left battle"), is_error: false }, LobbyAction::SendLine(
        line,
    ))
}

/// Route the three matchmaker tools: join the named queues, leave them
/// all, or answer a ready check.
pub fn tool_matchmaker_queue_request(queues: Vec<String>) -> (r: (ToolReply, LobbyAction))
    ensures
        !r.0.is_error,
        r.1 matches LobbyAction::SendLine(line) && line@ == spec_to_wire(
            crate::protocol::LobbyMessageV {
                command: "MatchMakerQueueRequest"@,
                data: MessageDataV::Json(
                    "{\"Queues\":"@ + crate::json::spec_enc_str_array(
                        queues@.map_values(|u: String| u@),
                    ) + "}"@,
                ),
            },
        ),
{
    let mut payload = to_owned_string("{\"Queues\":");
    payload.append(crate::json::encode_str_array(&queues).as_str());
    payload.append("}");
    let line = wire_line("MatchMakerQueueRequest", payload);
    (
        ToolReply { text: to_owned_string("Queue request sent"), is_error: false },
        LobbyAction::SendLine(line),
    )
}

pub fn tool_matchmaker_accept(ready: bool) -> (r: (ToolReply, LobbyAction))
    ensures
        !r.0.is_error,
        r.1 matches LobbyAction::SendLine(line) && line@ == spec_to_wire(
            crate::protocol::LobbyMessageV {
                command: "AreYouReadyResponse"@,
                data: MessageDataV::Json(
                    spec_enc_obj(
                        seq![crate::ipc::fld("Ready"@, crate::json::JsonScalarV::Bool(ready))],
                    ),
                ),
            },
        ),
{
    let mut fs: Vec<JsonField> = Vec::new();
    crate::ipc::push_fld(&mut fs, "Ready", JsonScalar::Bool(ready));
    proof {
        assert(crate::json::fields_view(fs@) =~= seq![
            crate::ipc::fld("Ready"@, crate::json::JsonScalarV::Bool(ready)),
        ]);
    }
    let line = wire_line("AreYouReadyResponse", encode_object(&fs));
    (
        ToolReply { text: to_owned_string("Ready response sent"), is_error: false },
        LobbyAction::SendLine(line),
    )
}

// ── Channel methods over the supervisor ──

/// `state/rollback` is advertised but not implemented: the reply says
/// so and never raises an error.
pub struct RollbackReply {
    pub success: bool,
    pub checkpoint: String,
    pub reason: String,
}

pub fn handle_state_rollback(checkpoint: Option<&str>) -> (r: RollbackReply)
    ensures
        !r.success,
        r.reason@ == "Rollback not yet implemented \u{2014} requires engine savestate support"@,
        r.checkpoint@ == match checkpoint {
            Some(c) => c@,
            None => Seq::<char>::empty(),
        },
{
    let cp = match checkpoint {
        Some(c) => to_owned_string(c),
        None => String::new(),
    };
    RollbackReply {
        success: false,
        checkpoint: cp,
        reason: to_owned_string(
            "Rollback not yet implemented \u{2014} requires engine savestate support",
        ),
    }
}

/// One row of `channels/list`: every tracked instance, with its map,
/// game, status and whether its plugin is connected.
pub struct ChannelRow {
    pub id: String,
    pub map: String,
    pub game: String,
    pub status: GameStatus,
    pub sai_connected: bool,
}

/// List the channels: exactly the supervisor's instance table, one row
/// per ChannelId, each id exactly once.
pub fn handle_channels_list(engines: &EngineManager) -> (r: Vec<ChannelRow>)
    requires
        engines.inv(),
    ensures
        r@.len() == engines.instances.spec_len(),
        forall|i: int|
            0 <= i < r@.len() ==> engines.instances@.contains_key(#[trigger] r@[i].id@),
        forall|i: int|
            0 <= i < r@.len() ==> {
                let inst = engines.instances@[#[trigger] r@[i].id@];
                r@[i].status@ == inst.status && r@[i].map@ == inst.config.map && r@[i].game@
                    == inst.config.game && r@[i].sai_connected == inst.ipc_connected
            },
        forall|i: int, j: int| 0 <= i < j < r@.len() ==> r@[i].id@ != r@[j].id@,
        forall|k: Seq<char>|
            engines.instances@.contains_key(k) ==> exists|i: int|
                0 <= i < r@.len() && #[trigger] r@[i].id@ == k,
{
    let keys = engines.instances.keys();
    let n = keys.len();
    let mut rows: Vec<ChannelRow> = Vec::new();
    let mut i: usize = 0;
    while i < n
        invariant
            engines.inv(),
            n == keys@.len(),
            i <= n,
            rows@.len() == i,
            forall|j: int| 0 <= j < n ==> engines.instances@.contains_key(#[trigger] keys@[j]@),
            forall|a: int, b: int| 0 <= a < b < n ==> keys@[a]@ != keys@[b]@,
            forall|j: int| 0 <= j < i ==> #[trigger] rows@[j].id@ == keys@[j]@,
            forall|j: int|
                0 <= j < i ==> {
                    let inst = engines.instances@[#[trigger] rows@[j].id@];
                    rows@[j].status@ == inst.status && rows@[j].map@ == inst.config.map
                        && rows@[j].game@ == inst.config.game && rows@[j].sai_connected
                        == inst.ipc_connected
                },
        decreases n - i,
    {
        let key = &keys[i];
        match engines.instances.get(key.as_str()) {
            Some(inst) => {
                let status = match &inst.status {
                    GameStatus::Starting => GameStatus::Starting,
                    GameStatus::Running => GameStatus::Running,
                    GameStatus::Stopped => GameStatus::Stopped,
                    GameStatus::Crashed(m) => GameStatus::Crashed(m.clone()),
                };
                rows.push(ChannelRow {
                    id: key.clone(),
                    map: inst.config.map.clone(),
                    game: inst.config.game.clone(),
                    status,
                    sai_connected: inst.ipc_connected,
                });
            },
            None => {
                proof {
                    assert(false);
                }
            },
        }
        i += 1;
    }
    proof {
        assert forall|k: Seq<char>|
            engines.instances@.contains_key(k) implies exists|j: int|
            0 <= j < rows@.len() && #[trigger] rows@[j].id@ == k by {
            let j = choose|j: int| 0 <= j < keys@.len() && #[trigger] keys@[j]@ == k;
            assert(rows@[j].id@ == k);
        }
    }
    rows
}

/// Route `channels/publish`: the text block must be one IPC command,
/// which then goes to the channel's plugin; the caller reports
/// delivery.
pub fn handle_channels_publish(text: &str) -> (r: Result<(GameCommand, String), String>)
    ensures
        match r {
            Ok((c, line)) => spec_parse_command(crate::text::spec_trim(text@)) == Some(c@)
                && line@ == spec_enc_obj(crate::ipc::cmd_fields(c@)),
            Err(e) => spec_parse_command(crate::text::spec_trim(text@)) is None && e@
                == "invalid command JSON"@,
        },
{
    match parse_publish_command(text) {
        Ok(c) => {
            let line = encode_command(&c);
            Ok((c, line))
        },
        Err(e) => Err(e),
    }
}

// ── Push events ──

/// The push-event identity and text for a lobby event, or nothing for
/// the high-frequency events that are never pushed (user joins and
/// leaves, battle updates, channel membership changes, ConnectSpring).
pub open spec fn spec_event_payload(e: &LobbyEvent) -> Option<(Seq<char>, Seq<char>)> {
    match e {
        LobbyEvent::Connected { engine, game } => Some(
            (
                "lobby.connected"@,
                "Connected to lobby. Engine: "@ + engine@ + ", Game: "@ + game@,
            ),
        ),
        LobbyEvent::Disconnected { reason } => Some(
            ("lobby.disconnected"@, "Disconnected: "@ + reason@),
        ),
        LobbyEvent::LoggedIn { username } => Some(
            ("lobby.logged_in"@, "Logged in as "@ + username@),
        ),
        LobbyEvent::LoginFailed { code, message } => Some(
            (
                "lobby.login_failed"@,
                "Login failed (code "@ + spec_int_str(*code as int) + "): "@ + message@,
            ),
        ),
        LobbyEvent::RegisterSuccess => Some(
            ("lobby.register_success"@, "Account registration successful"@),
        ),
        LobbyEvent::RegisterFailed { code, reason } => Some(
            (
                "lobby.register_failed"@,
                "Registration failed (code "@ + spec_int_str(*code as int) + "): "@ + reason@,
            ),
        ),
        LobbyEvent::ChatMessage { user, text, target, place, .. } => {
            let place_name = if *place == 0 {
                "channel"@
            } else if *place == 1 {
                "battle"@
            } else if *place == 4 {
                "dm"@
            } else {
                "other"@
            };
            Some(
                (
                    "lobby.chat"@,
                    "["@ + place_name + "] ["@ + target@ + "] "@ + user@ + ": "@ + text@,
                ),
            )
        },
        LobbyEvent::BattleOpened(b) => Some(
            (
                "lobby.battle_opened"@,
                "Battle opened: "@ + b.title@ + " by "@ + b.founder@ + " on "@ + b.map@ + " ("@
                    + spec_int_str(b.player_count as int) + "/"@ + spec_int_str(
                    b.max_players as int,
                ) + ")"@,
            ),
        ),
        LobbyEvent::BattleClosed { battle_id } => Some(
            (
                "lobby.battle_closed"@,
                "Battle "@ + spec_int_str(*battle_id as int) + " closed"@,
            ),
        ),
        LobbyEvent::ChannelJoined { channel, users, topic } => Some(
            (
                "lobby.channel_joined"@,
                "Joined #"@ + channel@ + " ("@ + spec_nat_str(users@.len()) + " users). Topic: "@
                    + (match topic {
                    Some(t) => t@,
                    None => "(none)"@,
                }),
            ),
        ),
        LobbyEvent::UserJoined(_) => None,
        LobbyEvent::UserLeft { .. } => None,
        LobbyEvent::BattleUpdated(_) => None,
        LobbyEvent::ChannelUserJoined { .. } => None,
        LobbyEvent::ChannelUserLeft { .. } => None,
        LobbyEvent::ConnectSpring(_) => None,
    }
}

/// Turn a lobby event into its push-event id and text, or nothing for
/// the suppressed events.
pub fn lobby_event_payload(e: &LobbyEvent) -> (r: Option<(String, String)>)
    ensures
        match r {
            Some(p) => spec_event_payload(e) == Some((p.0@, p.1@)),
            None => spec_event_payload(e) is None,
        },
{
    match e {
        LobbyEvent::Connected { engine, game } => {
            let mut t = to_owned_string("Connected to lobby. Engine: ");
            t.append(engine.as_str());
            t.append(", Game: ");
            t.append(game.as_str());
            Some((to_owned_string("lobby.connected"), t))
        },
        LobbyEvent::Disconnected { reason } => {
            let mut t = to_owned_string("Disconnected: ");
            t.append(reason.as_str());
            Some((to_owned_string("lobby.disconnected"), t))
        },
        LobbyEvent::LoggedIn { username } => {
            let mut t = to_owned_string("Logged in as ");
            t.append(username.as_str());
            Some((to_owned_string("lobby.logged_in"), t))
        },
        LobbyEvent::LoginFailed { code, message } => {
            let mut t = to_owned_string("Login failed (code ");
            t.append(i32_to_string(*code).as_str());
            t.append("): ");
            t.append(message.as_str());
            Some((to_owned_string("lobby.login_failed"), t))
        },
        LobbyEvent::RegisterSuccess => {
            Some(
                (
                    to_owned_string("lobby.register_success"),
                    to_owned_string("Account registration successful"),
                ),
            )
        },
        LobbyEvent::RegisterFailed { code, reason } => {
            let mut t = to_owned_string("Registration failed (code ");
            t.append(i32_to_string(*code).as_str());
            t.append("): ");
            t.append(reason.as_str());
            Some((to_owned_string("lobby.register_failed"), t))
        },
        LobbyEvent::ChatMessage { user, text, target, place, .. } => {
            let mut t = to_owned_string("[");
            if *place == 0 {
                t.append("channel");
            } else if *place == 1 {
                t.append("battle");
            } else if *place == 4 {
                t.append("dm");
            } else {
                t.append("other");
            }
            t.append("] [");
            t.append(target.as_str());
            t.append("] ");
            t.append(user.as_str());
            t.append(": ");
            t.append(text.as_str());
            Some((to_owned_string("lobby.chat"), t))
        },
        LobbyEvent::BattleOpened(b) => {
            let mut t = to_owned_string("Battle opened: ");
            t.append(b.title.as_str());
            t.append(" by ");
            t.append(b.founder.as_str());
            t.append(" on ");
            t.append(b.map.as_str());
            t.append(" (");
            t.append(i32_to_string(b.player_count).as_str());
            t.append("/");
            t.append(i32_to_string(b.max_players).as_str());
            t.append(")");
            Some((to_owned_string("lobby.battle_opened"), t))
        },
        LobbyEvent::BattleClosed { battle_id } => {
            let mut t = to_owned_string("Battle ");
            t.append(i64_to_string(*battle_id).as_str());
            t.append(" closed");
            Some((to_owned_string("lobby.battle_closed"), t))
        },
        LobbyEvent::ChannelJoined { channel, users, topic } => {
            let mut t = to_owned_string("Joined #");
            t.append(channel.as_str());
            t.append(" (");
            t.append(u64_to_string(users.len() as u64).as_str());
            t.append(" users). Topic: ");
            match topic {
                Some(tp) => t.append(tp.as_str()),
                None => t.append("(none)"),
            }
            Some((to_owned_string("lobby.channel_joined"), t))
        },
        LobbyEvent::UserJoined(_) => None,
        LobbyEvent::UserLeft { .. } => None,
        LobbyEvent::BattleUpdated(_) => None,
        LobbyEvent::ChannelUserJoined { .. } => None,
        LobbyEvent::ChannelUserLeft { .. } => None,
        LobbyEvent::ConnectSpring(_) => None,
    }
}

// ── The tool catalogue ──

/// One entry of the tool catalogue: its name and the arguments a call
/// must carry.
pub struct ToolSpec {
    pub name: String,
    pub required: Vec<String>,
}

fn tool(name: &str, required: Vec<String>) -> (r: ToolSpec)
    ensures
        r.name@ == name@,
        r.required == required,
{
    ToolSpec { name: to_owned_string(name), required }
}

/// The names of the tools the mediator serves, in catalogue order.
pub open spec fn spec_tool_names() -> Seq<Seq<char>> {
    seq![
        "lobby_connect"@,
        "lobby_login"@,
        "lobby_register"@,
        "lobby_disconnect"@,
        "lobby_say"@,
        "lobby_join_channel"@,
        "lobby_leave_channel"@,
        "lobby_list_battles"@,
        "lobby_list_users"@,
        "lobby_join_battle"@,
        "lobby_leave_battle"@,
        "lobby_matchmaker_join"@,
        "lobby_matchmaker_leave"@,
        "lobby_matchmaker_accept"@,
        "lobby_matchmaker_status"@,
        "lobby_start_game"@,
    ]
}

/// The static tool catalogue `tools/list` serves.
pub fn lobby_tools() -> (r: Vec<ToolSpec>)
    ensures
        r@.map_values(|t: ToolSpec| t.name@) == spec_tool_names(),
{
    let mut v: Vec<ToolSpec> = Vec::new();
    v.push(tool("lobby_connect", Vec::new()));
    let mut req = Vec::new();
    req.push(to_owned_string("username"));
    req.push(to_owned_string("password"));
    v.push(tool("lobby_login", req));
    let mut req = Vec::new();
    req.push(to_owned_string("username"));
    req.push(to_owned_string("password"));
    req.push(to_owned_string("email"));
    v.push(tool("lobby_register", req));
    v.push(tool("lobby_disconnect", Vec::new()));
    let mut req = Vec::new();
    req.push(to_owned_string("target"));
    req.push(to_owned_string("text"));
    v.push(tool("lobby_say", req));
    let mut req = Vec::new();
    req.push(to_owned_string("channel"));
    v.push(tool("lobby_join_channel", req));
    let mut req = Vec::new();
    req.push(to_owned_string("channel"));
    v.push(tool("lobby_leave_channel", req));
    v.push(tool("lobby_list_battles", Vec::new()));
    v.push(tool("lobby_list_users", Vec::new()));
    let mut req = Vec::new();
    req.push(to_owned_string("battle_id"));
    v.push(tool("lobby_join_battle", req));
    v.push(tool("lobby_leave_battle", Vec::new()));
    let mut req = Vec::new();
    req.push(to_owned_string("queues"));
    v.push(tool("lobby_matchmaker_join", req));
    v.push(tool("lobby_matchmaker_leave", Vec::new()));
    let mut req = Vec::new();
    req.push(to_owned_string("ready"));
    v.push(tool("lobby_matchmaker_accept", req));
    v.push(tool("lobby_matchmaker_status", Vec::new()));
    let mut req = Vec::new();
    req.push(to_owned_string("map"));
    v.push(tool("lobby_start_game", req));
    proof {
        assert(v@.map_values(|t: ToolSpec| t.name@) =~= spec_tool_names());
    }
    v
}

} // verus!
