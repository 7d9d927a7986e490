//! The lobby client's observed state and its event-driven updates:
//! one verified transition function from a received line to the next
//! state and the events to surface.

use crate::keymap::{I64Map, StrMap};
use crate::protocol::{
    decode_battle_header, decode_battle_removed, decode_channel_user_added, decode_channel_user_removed,
    decode_connect_spring, decode_join_channel_response, decode_login_response,
    decode_register_response, decode_say, decode_user, decode_user_disconnected, decode_welcome,
    spec_decode_battle_header, spec_decode_channel_user_added, spec_decode_channel_user_removed,
    spec_decode_connect_spring, spec_decode_join_channel_response, spec_decode_login_response,
    spec_decode_register_response, spec_decode_say, spec_decode_user, spec_decode_user_disconnected,
    spec_decode_welcome, str_or_empty, BattleHeader, ConnectSpringData, ConnectSpringDataV,
    LobbyMessage, MessageData, MessageDataV,
};
use crate::text::{str_eq, to_owned_string};
use vstd::prelude::*;
use vstd::string::StringExecFns;

verus! {

#[derive(Debug)]
pub struct UserInfo {
    pub account_id: i64,
    pub name: String,
    pub display_name: String,
    pub clan: String,
    pub country: String,
    pub is_bot: bool,
    pub is_admin: bool,
    pub level: i32,
    pub elo_text: String,
    pub battle_id: Option<i64>,
}

#[verifier::ext_equal]
pub ghost struct UserInfoV {
    pub account_id: int,
    pub name: Seq<char>,
    pub display_name: Seq<char>,
    pub clan: Seq<char>,
    pub country: Seq<char>,
    pub is_bot: bool,
    pub is_admin: bool,
    pub level: int,
    pub elo_text: Seq<char>,
    pub battle_id: Option<int>,
}

impl View for UserInfo {
    type V = UserInfoV;

    open spec fn view(&self) -> UserInfoV {
        UserInfoV {
            account_id: self.account_id as int,
            name: self.name@,
            display_name: self.display_name@,
            clan: self.clan@,
            country: self.country@,
            is_bot: self.is_bot,
            is_admin: self.is_admin,
            level: self.level as int,
            elo_text: self.elo_text@,
            battle_id: match self.battle_id { Some(v) => Some(v as int), None => None },
        }
    }
}

#[derive(Debug)]
pub struct BattleInfo {
    pub battle_id: i64,
    pub title: String,
    pub founder: String,
    pub map: String,
    pub game: String,
    pub engine: String,
    pub max_players: i32,
    pub player_count: i32,
    pub spectator_count: i32,
    pub is_running: bool,
    pub is_password_protected: bool,
    pub mode: Option<String>,
}

#[verifier::ext_equal]
pub ghost struct BattleInfoV {
    pub battle_id: int,
    pub title: Seq<char>,
    pub founder: Seq<char>,
    pub map: Seq<char>,
    pub game: Seq<char>,
    pub engine: Seq<char>,
    pub max_players: int,
    pub player_count: int,
    pub spectator_count: int,
    pub is_running: bool,
    pub is_password_protected: bool,
    pub mode: Option<Seq<char>>,
}

impl View for BattleInfo {
    type V = BattleInfoV;

    open spec fn view(&self) -> BattleInfoV {
        BattleInfoV {
            battle_id: self.battle_id as int,
            title: self.title@,
            founder: self.founder@,
            map: self.map@,
            game: self.game@,
            engine: self.engine@,
            max_players: self.max_players as int,
            player_count: self.player_count as int,
            spectator_count: self.spectator_count as int,
            is_running: self.is_running,
            is_password_protected: self.is_password_protected,
            mode: match self.mode { Some(v) => Some(v@), None => None },
        }
    }
}

#[derive(Debug)]
pub struct ChannelInfo {
    pub name: String,
    pub topic: Option<String>,
    pub users: Vec<String>,
}

#[verifier::ext_equal]
pub ghost struct ChannelInfoV {
    pub name: Seq<char>,
    pub topic: Option<Seq<char>>,
    pub users: Seq<Seq<char>>,
}

impl View for ChannelInfo {
    type V = ChannelInfoV;

    open spec fn view(&self) -> ChannelInfoV {
        ChannelInfoV {
            name: self.name@,
            topic: match self.topic { Some(v) => Some(v@), None => None },
            users: self.users@.map_values(|u: String| u@),
        }
    }
}

/// An event the state machine surfaces after applying one message.
#[derive(Debug)]
pub enum LobbyEvent {
    Connected { engine: String, game: String },
    Disconnected { reason: String },
    LoggedIn { username: String },
    LoginFailed { code: i32, message: String },
    RegisterSuccess,
    RegisterFailed { code: i32, reason: String },
    UserJoined(UserInfo),
    UserLeft { name: String, reason: String },
    ChatMessage { user: String, text: String, target: String, place: i32, is_emote: bool, time: String },
    BattleOpened(BattleInfo),
    BattleUpdated(BattleInfo),
    BattleClosed { battle_id: i64 },
    ChannelJoined { channel: String, users: Vec<String>, topic: Option<String> },
    ChannelUserJoined { channel: String, user: String },
    ChannelUserLeft { channel: String, user: String },
    ConnectSpring(ConnectSpringData),
}

/// The model of an event.
pub ghost enum LobbyEventV {
    Connected { engine: Seq<char>, game: Seq<char> },
    Disconnected { reason: Seq<char> },
    LoggedIn { username: Seq<char> },
    LoginFailed { code: int, message: Seq<char> },
    RegisterSuccess,
    RegisterFailed { code: int, reason: Seq<char> },
    UserJoined(UserInfoV),
    UserLeft { name: Seq<char>, reason: Seq<char> },
    ChatMessage { user: Seq<char>, text: Seq<char>, target: Seq<char>, place: int, is_emote: bool, time: Seq<char> },
    BattleOpened(BattleInfoV),
    BattleUpdated(BattleInfoV),
    BattleClosed { battle_id: int },
    ChannelJoined { channel: Seq<char>, users: Seq<Seq<char>>, topic: Option<Seq<char>> },
    ChannelUserJoined { channel: Seq<char>, user: Seq<char> },
    ChannelUserLeft { channel: Seq<char>, user: Seq<char> },
    ConnectSpring(ConnectSpringDataV),
}

impl View for LobbyEvent {
    type V = LobbyEventV;

    open spec fn view(&self) -> LobbyEventV {
        match self {
            LobbyEvent::Connected { engine, game } => LobbyEventV::Connected {
                engine: engine@,
                game: game@,
            },
            LobbyEvent::Disconnected { reason } => LobbyEventV::Disconnected { reason: reason@ },
            LobbyEvent::LoggedIn { username } => LobbyEventV::LoggedIn { username: username@ },
            LobbyEvent::LoginFailed { code, message } => LobbyEventV::LoginFailed {
                code: *code as int,
                message: message@,
            },
            LobbyEvent::RegisterSuccess => LobbyEventV::RegisterSuccess,
            LobbyEvent::RegisterFailed { code, reason } => LobbyEventV::RegisterFailed {
                code: *code as int,
                reason: reason@,
            },
            LobbyEvent::UserJoined(u) => LobbyEventV::UserJoined(u@),
            LobbyEvent::UserLeft { name, reason } => LobbyEventV::UserLeft {
                name: name@,
                reason: reason@,
            },
            LobbyEvent::ChatMessage { user, text, target, place, is_emote, time } => {
                LobbyEventV::ChatMessage {
                    user: user@,
                    text: text@,
                    target: target@,
                    place: *place as int,
                    is_emote: *is_emote,
                    time: time@,
                }
            },
            LobbyEvent::BattleOpened(b) => LobbyEventV::BattleOpened(b@),
            LobbyEvent::BattleUpdated(b) => LobbyEventV::BattleUpdated(b@),
            LobbyEvent::BattleClosed { battle_id } => LobbyEventV::BattleClosed {
                battle_id: *battle_id as int,
            },
            LobbyEvent::ChannelJoined { channel, users, topic } => LobbyEventV::ChannelJoined {
                channel: channel@,
                users: users@.map_values(|u: String| u@),
                topic: match topic {
                    Some(t) => Some(t@),
                    None => None,
                },
            },
            LobbyEvent::ChannelUserJoined { channel, user } => LobbyEventV::ChannelUserJoined {
                channel: channel@,
                user: user@,
            },
            LobbyEvent::ChannelUserLeft { channel, user } => LobbyEventV::ChannelUserLeft {
                channel: channel@,
                user: user@,
            },
            LobbyEvent::ConnectSpring(d) => LobbyEventV::ConnectSpring(d@),
        }
    }
}

/// The model of an event list.
pub open spec fn events_view(es: Seq<LobbyEvent>) -> Seq<LobbyEventV> {
    es.map_values(|e: LobbyEvent| e@)
}

/// The lobby state the client has observed. Every field is event
/// driven; nothing here is authoritative without a received message.
pub struct LobbyState {
    pub connected: bool,
    pub logged_in: bool,
    pub my_username: Option<String>,
    pub server_engine: String,
    pub server_game: String,
    pub user_count: i32,
    pub users: StrMap<UserInfo>,
    pub battles: I64Map<BattleInfo>,
    pub channels: StrMap<ChannelInfo>,
    pub my_battle: Option<i64>,
}

/// The model of the lobby state.
#[verifier::ext_equal]
pub ghost struct LobbyStateV {
    pub connected: bool,
    pub logged_in: bool,
    pub my_username: Option<Seq<char>>,
    pub server_engine: Seq<char>,
    pub server_game: Seq<char>,
    pub user_count: int,
    pub users: Map<Seq<char>, UserInfoV>,
    pub battles: Map<int, BattleInfoV>,
    pub channels: Map<Seq<char>, ChannelInfoV>,
    pub my_battle: Option<int>,
}

impl View for LobbyState {
    type V = LobbyStateV;

    open spec fn view(&self) -> LobbyStateV {
        LobbyStateV {
            connected: self.connected,
            logged_in: self.logged_in,
            my_username: match &self.my_username {
                Some(v) => Some(v@),
                None => None,
            },
            server_engine: self.server_engine@,
            server_game: self.server_game@,
            user_count: self.user_count as int,
            users: self.users@,
            battles: self.battles@,
            channels: self.channels@,
            my_battle: match self.my_battle {
                Some(v) => Some(v as int),
                None => None,
            },
        }
    }
}

/// Every field's initial default: disconnected, logged out, empty
/// names, zero count, empty tables.
pub open spec fn initial_state() -> LobbyStateV {
    LobbyStateV {
        connected: false,
        logged_in: false,
        my_username: None,
        server_engine: Seq::empty(),
        server_game: Seq::empty(),
        user_count: 0,
        users: Map::empty(),
        battles: Map::empty(),
        channels: Map::empty(),
        my_battle: None,
    }
}

/// A user record as the state keeps it, from a received `User` row.
pub open spec fn spec_user_info(d: crate::protocol::UserDataV) -> UserInfoV {
    UserInfoV {
        account_id: d.account_id,
        name: d.name,
        display_name: d.display_name,
        clan: d.clan,
        country: d.country,
        is_bot: d.is_bot,
        is_admin: d.is_admin,
        level: d.level,
        elo_text: d.elo_text,
        battle_id: d.battle_id,
    }
}

/// A battle record as the state keeps it, from a received header.
pub open spec fn spec_battle_info(h: crate::protocol::BattleHeaderV) -> BattleInfoV {
    BattleInfoV {
        battle_id: h.battle_id,
        title: h.title,
        founder: h.founder,
        map: h.map,
        game: h.game,
        engine: h.engine,
        max_players: h.max_players,
        player_count: h.player_count,
        spectator_count: h.spectator_count,
        is_running: h.is_running,
        is_password_protected: h.is_password_protected,
        mode: h.mode,
    }
}

/// A sequence with every occurrence of `u` removed.
pub open spec fn remove_all(s: Seq<Seq<char>>, u: Seq<char>) -> Seq<Seq<char>>
    decreases s.len(),
{
    if s.len() == 0 {
        Seq::empty()
    } else if s[0] == u {
        remove_all(s.drop_first(), u)
    } else {
        seq![s[0]] + remove_all(s.drop_first(), u)
    }
}

#[verifier::opaque]
pub open spec fn spec_on_welcome(st: LobbyStateV, s: Seq<char>) -> (LobbyStateV, Seq<LobbyEventV>) {

                match spec_decode_welcome(s) {
                    Some(d) => (
                        LobbyStateV {
                            connected: true,
                            server_engine: d.engine,
                            server_game: d.game,
                            user_count: d.user_count,
                            ..st
                        },
                        seq![LobbyEventV::Connected { engine: d.engine, game: d.game }],
                    ),
                    None => (st, Seq::empty()),
                }
            
}

#[verifier::opaque]
pub open spec fn spec_on_login_response(st: LobbyStateV, s: Seq<char>) -> (LobbyStateV, Seq<LobbyEventV>) {

                match spec_decode_login_response(s) {
                    Some(d) => if d.result_code == 0 {
                        (
                            LobbyStateV { logged_in: true, my_username: Some(d.name), ..st },
                            seq![LobbyEventV::LoggedIn { username: d.name }],
                        )
                    } else {
                        (
                            st,
                            seq![
                                LobbyEventV::LoginFailed {
                                    code: d.result_code,
                                    message: d.message,
                                },
                            ],
                        )
                    },
                    None => (st, Seq::empty()),
                }
            
}

#[verifier::opaque]
pub open spec fn spec_on_register_response(st: LobbyStateV, s: Seq<char>) -> (LobbyStateV, Seq<LobbyEventV>) {

                match spec_decode_register_response(s) {
                    Some(d) => if d.result_code == 0 {
                        (st, seq![LobbyEventV::RegisterSuccess])
                    } else {
                        (
                            st,
                            seq![
                                LobbyEventV::RegisterFailed {
                                    code: d.result_code,
                                    reason: str_or_empty(d.ban_reason),
                                },
                            ],
                        )
                    },
                    None => (st, Seq::empty()),
                }
            
}

#[verifier::opaque]
pub open spec fn spec_on_user(st: LobbyStateV, s: Seq<char>) -> (LobbyStateV, Seq<LobbyEventV>) {

                match spec_decode_user(s) {
                    Some(d) => {
                        let info = spec_user_info(d);
                        let st2 = LobbyStateV { users: st.users.insert(d.name, info), ..st };
                        if st.users.contains_key(d.name) {
                            (st2, Seq::empty())
                        } else {
                            (st2, seq![LobbyEventV::UserJoined(info)])
                        }
                    },
                    None => (st, Seq::empty()),
                }
            
}

#[verifier::opaque]
pub open spec fn spec_on_user_disconnected(st: LobbyStateV, s: Seq<char>) -> (LobbyStateV, Seq<LobbyEventV>) {

                match spec_decode_user_disconnected(s) {
                    Some(d) => (
                        LobbyStateV { users: st.users.remove(d.name), ..st },
                        seq![LobbyEventV::UserLeft { name: d.name, reason: d.reason }],
                    ),
                    None => (st, Seq::empty()),
                }
            
}

#[verifier::opaque]
pub open spec fn spec_on_say(st: LobbyStateV, s: Seq<char>) -> (LobbyStateV, Seq<LobbyEventV>) {

                match spec_decode_say(s) {
                    Some(d) => (
                        st,
                        seq![
                            LobbyEventV::ChatMessage {
                                user: d.user,
                                text: d.text,
                                target: d.target,
                                place: d.place,
                                is_emote: d.is_emote,
                                time: d.time,
                            },
                        ],
                    ),
                    None => (st, Seq::empty()),
                }
            
}

#[verifier::opaque]
pub open spec fn spec_on_battle_added(st: LobbyStateV, s: Seq<char>) -> (LobbyStateV, Seq<LobbyEventV>) {

                match spec_decode_battle_header(s) {
                    Some(h) => {
                        let info = spec_battle_info(h);
                        (
                            LobbyStateV { battles: st.battles.insert(h.battle_id, info), ..st },
                            seq![LobbyEventV::BattleOpened(info)],
                        )
                    },
                    None => (st, Seq::empty()),
                }
            
}

#[verifier::opaque]
pub open spec fn spec_on_battle_update(st: LobbyStateV, s: Seq<char>) -> (LobbyStateV, Seq<LobbyEventV>) {

                match spec_decode_battle_header(s) {
                    Some(h) => {
                        let info = spec_battle_info(h);
                        (
                            LobbyStateV { battles: st.battles.insert(h.battle_id, info), ..st },
                            seq![LobbyEventV::BattleUpdated(info)],
                        )
                    },
                    None => (st, Seq::empty()),
                }
            
}

#[verifier::opaque]
pub open spec fn spec_on_battle_removed(st: LobbyStateV, s: Seq<char>) -> (LobbyStateV, Seq<LobbyEventV>) {

                match crate::protocol::spec_decode_battle_removed(s) {
                    Some(d) => (
                        LobbyStateV { battles: st.battles.remove(d.battle_id), ..st },
                        seq![LobbyEventV::BattleClosed { battle_id: d.battle_id }],
                    ),
                    None => (st, Seq::empty()),
                }
            
}

#[verifier::opaque]
pub open spec fn spec_on_join_channel_response(st: LobbyStateV, s: Seq<char>) -> (LobbyStateV, Seq<LobbyEventV>) {

                match spec_decode_join_channel_response(s) {
                    Some(d) => if d.success {
                        let topic = match d.channel {
                            Some(ch) => match ch.topic {
                                Some(t) => Some(t.text),
                                None => None,
                            },
                            None => None,
                        };
                        let users = match d.channel {
                            Some(ch) => ch.users,
                            None => Seq::empty(),
                        };
                        let info = ChannelInfoV { name: d.channel_name, topic, users };
                        (
                            LobbyStateV {
                                channels: st.channels.insert(d.channel_name, info),
                                ..st
                            },
                            seq![
                                LobbyEventV::ChannelJoined {
                                    channel: d.channel_name,
                                    users,
                                    topic,
                                },
                            ],
                        )
                    } else {
                        (st, Seq::empty())
                    },
                    None => (st, Seq::empty()),
                }
            
}

#[verifier::opaque]
pub open spec fn spec_on_channel_user_added(st: LobbyStateV, s: Seq<char>) -> (LobbyStateV, Seq<LobbyEventV>) {

                match spec_decode_channel_user_added(s) {
                    Some(d) => {
                        let st2 = if st.channels.contains_key(d.channel_name) {
                            let ch = st.channels[d.channel_name];
                            let ch2 = ChannelInfoV {
                                users: if ch.users.contains(d.user_name) {
                                    ch.users
                                } else {
                                    ch.users.push(d.user_name)
                                },
                                ..ch
                            };
                            LobbyStateV { channels: st.channels.insert(d.channel_name, ch2), ..st }
                        } else {
                            st
                        };
                        (
                            st2,
                            seq![
                                LobbyEventV::ChannelUserJoined {
                                    channel: d.channel_name,
                                    user: d.user_name,
                                },
                            ],
                        )
                    },
                    None => (st, Seq::empty()),
                }
            
}

#[verifier::opaque]
pub open spec fn spec_on_channel_user_removed(st: LobbyStateV, s: Seq<char>) -> (LobbyStateV, Seq<LobbyEventV>) {

                match spec_decode_channel_user_removed(s) {
                    Some(d) => {
                        let st2 = if st.channels.contains_key(d.channel_name) {
                            let ch = st.channels[d.channel_name];
                            let ch2 = ChannelInfoV {
                                users: remove_all(ch.users, d.user_name),
                                ..ch
                            };
                            LobbyStateV { channels: st.channels.insert(d.channel_name, ch2), ..st }
                        } else {
                            st
                        };
                        (
                            st2,
                            seq![
                                LobbyEventV::ChannelUserLeft {
                                    channel: d.channel_name,
                                    user: d.user_name,
                                },
                            ],
                        )
                    },
                    None => (st, Seq::empty()),
                }
            
}

#[verifier::opaque]
pub open spec fn spec_on_connect_spring(st: LobbyStateV, s: Seq<char>) -> (LobbyStateV, Seq<LobbyEventV>) {

                match spec_decode_connect_spring(s) {
                    Some(d) => (st, seq![LobbyEventV::ConnectSpring(d)]),
                    None => (st, Seq::empty()),
                }
            
}

/// What one recognised message does: the next state and the events to
/// surface, a function of the message and the prior state alone.
pub open spec fn spec_handle(st: LobbyStateV, cmd: Seq<char>, data: MessageDataV) -> (
    LobbyStateV,
    Seq<LobbyEventV>,
) {
    match data {
        MessageDataV::Text(_) => (st, Seq::empty()),
        MessageDataV::Json(s) => {
            if cmd == "Welcome"@ {
                spec_on_welcome(st, s)
            } else if cmd == "LoginResponse"@ {
                spec_on_login_response(st, s)
            } else if cmd == "RegisterResponse"@ {
                spec_on_register_response(st, s)
            } else if cmd == "User"@ {
                spec_on_user(st, s)
            } else if cmd == "UserDisconnected"@ {
                spec_on_user_disconnected(st, s)
            } else if cmd == "Say"@ {
                spec_on_say(st, s)
            } else if cmd == "BattleAdded"@ {
                spec_on_battle_added(st, s)
            } else if cmd == "BattleUpdate"@ {
                spec_on_battle_update(st, s)
            } else if cmd == "BattleRemoved"@ {
                spec_on_battle_removed(st, s)
            } else if cmd == "JoinChannelResponse"@ {
                spec_on_join_channel_response(st, s)
            } else if cmd == "ChannelUserAdded"@ {
                spec_on_channel_user_added(st, s)
            } else if cmd == "ChannelUserRemoved"@ {
                spec_on_channel_user_removed(st, s)
            } else if cmd == "ConnectSpring"@ {
                spec_on_connect_spring(st, s)
            } else {
                (st, Seq::empty())
            }
        },
    }
}

// ── Executable helpers ──

fn one_event(e: LobbyEvent) -> (r: Vec<LobbyEvent>)
    ensures
        events_view(r@) == seq![e@],
{
    let mut v: Vec<LobbyEvent> = Vec::new();
    v.push(e);
    proof {
        assert(events_view(v@) =~= seq![v@[0]@]);
    }
    v
}

fn no_events() -> (r: Vec<LobbyEvent>)
    ensures
        events_view(r@) == Seq::<LobbyEventV>::empty(),
{
    let v: Vec<LobbyEvent> = Vec::new();
    proof {
        assert(events_view(v@) =~= Seq::<LobbyEventV>::empty());
    }
    v
}

fn clone_opt_string(o: &Option<String>) -> (r: Option<String>)
    ensures
        (match r {
            Some(v) => (o matches Some(w) && v@ == w@),
            None => o is None,
        }),
{
    match o {
        Some(t) => Some(t.clone()),
        None => None,
    }
}

fn clone_string_vec(v: &Vec<String>) -> (r: Vec<String>)
    ensures
        r@.map_values(|u: String| u@) == v@.map_values(|u: String| u@),
{
    let n = v.len();
    let mut out: Vec<String> = Vec::new();
    let mut i: usize = 0;
    while i < n
        invariant
            n == v@.len(),
            i <= n,
            out@.len() == i,
            forall|j: int| 0 <= j < i ==> out@[j]@ == v@[j]@,
        decreases n - i,
    {
        out.push(v[i].clone());
        i += 1;
    }
    proof {
        assert(out@.map_values(|u: String| u@) =~= v@.map_values(|u: String| u@));
    }
    out
}

fn vec_contains(v: &Vec<String>, u: &str) -> (r: bool)
    ensures
        r == v@.map_values(|x: String| x@).contains(u@),
{
    let ghost w = v@.map_values(|x: String| x@);
    let n = v.len();
    let mut i: usize = 0;
    while i < n
        invariant
            n == v@.len(),
            w == v@.map_values(|x: String| x@),
            i <= n,
            forall|j: int| 0 <= j < i ==> w[j] != u@,
        decreases n - i,
    {
        if str_eq(v[i].as_str(), u) {
            proof {
                assert(w[i as int] == u@);
            }
            return true;
        }
        i += 1;
    }
    proof {
        assert(!w.contains(u@));
    }
    false
}

fn vec_remove_all(v: Vec<String>, u: &str) -> (r: Vec<String>)
    ensures
        r@.map_values(|x: String| x@) == remove_all(v@.map_values(|x: String| x@), u@),
{
    let ghost w = v@.map_values(|x: String| x@);
    let n = v.len();
    let mut out: Vec<String> = Vec::new();
    let mut i: usize = 0;
    proof {
        assert(w.skip(0) =~= w);
        assert(out@.map_values(|x: String| x@) =~= Seq::<Seq<char>>::empty());
    }
    while i < n
        invariant
            n == v@.len(),
            w == v@.map_values(|x: String| x@),
            i <= n,
            remove_all(w, u@) == out@.map_values(|x: String| x@) + remove_all(
                w.skip(i as int),
                u@,
            ),
        decreases n - i,
    {
        let ghost out0 = out@.map_values(|x: String| x@);
        proof {
            assert(w.skip(i as int)[0] == w[i as int]);
            assert(w.skip(i as int).drop_first() =~= w.skip(i + 1));
        }
        if !str_eq(v[i].as_str(), u) {
            out.push(v[i].clone());
            proof {
                assert(out@.map_values(|x: String| x@) =~= out0 + seq![w[i as int]]);
                assert(out0 + (seq![w[i as int]] + remove_all(w.skip(i + 1), u@)) =~= (out0 + seq![
                    w[i as int],
                ]) + remove_all(w.skip(i + 1), u@));
            }
        }
        i += 1;
    }
    proof {
        assert(w.skip(n as int) =~= Seq::<Seq<char>>::empty());
        assert(remove_all(Seq::<Seq<char>>::empty(), u@) =~= Seq::<Seq<char>>::empty());
        assert(out@.map_values(|x: String| x@) + Seq::<Seq<char>>::empty() =~= out@.map_values(
            |x: String| x@,
        ));
    }
    out
}

/// The state's battle record for a received header.
pub fn battle_info_from_header(h: &BattleHeader) -> (r: BattleInfo)
    ensures
        r@ == spec_battle_info(h@),
{
    BattleInfo {
        battle_id: h.battle_id,
        title: h.title.clone(),
        founder: h.founder.clone(),
        map: h.map.clone(),
        game: h.game.clone(),
        engine: h.engine.clone(),
        max_players: h.max_players,
        player_count: h.player_count,
        spectator_count: h.spectator_count,
        is_running: h.is_running,
        is_password_protected: h.is_password_protected,
        mode: clone_opt_string(&h.mode),
    }
}

impl LobbyState {
    /// Well-formedness of the three tables.
    pub open spec fn wf(&self) -> bool {
        self.users.wf() && self.battles.wf() && self.channels.wf()
    }

    /// A fresh state: every field at its initial default.
    pub fn new() -> (r: LobbyState)
        ensures
            r.wf(),
            r@ == initial_state(),
    {
        let r = LobbyState {
            connected: false,
            logged_in: false,
            my_username: None,
            server_engine: String::new(),
            server_game: String::new(),
            user_count: 0,
            users: StrMap::new(),
            battles: I64Map::new(),
            channels: StrMap::new(),
            my_battle: None,
        };
        proof {
            assert(r@ =~~= initial_state());
        }
        r
    }

    /// A lobby disconnect resets every field to its initial default and
    /// surfaces one `Disconnected` event.
    pub fn on_disconnect(&mut self, reason: String) -> (e: LobbyEvent)
        ensures
            final(self).wf(),
            final(self)@ == initial_state(),
            e@ == (LobbyEventV::Disconnected { reason: reason@ }),
    {
        *self = LobbyState::new();
        LobbyEvent::Disconnected { reason }
    }

    /// Apply one received message: update the state and return the
    /// events to surface, exactly as `spec_handle` says.
    pub fn handle_message(&mut self, msg: &LobbyMessage) -> (events: Vec<LobbyEvent>)
        requires
            old(self).wf(),
        ensures
            final(self).wf(),
            final(self)@ == spec_handle(old(self)@, msg@.command, msg@.data).0,
            events_view(events@) == spec_handle(old(self)@, msg@.command, msg@.data).1,
    {
        let payload: &String = match &msg.data {
            MessageData::Json(s) => s,
            MessageData::Text(_) => {
                return no_events();
            },
        };
        let cmd: &str = msg.command.as_str();
        if str_eq(cmd, "Welcome") {
            proof {
                reveal(spec_on_welcome);
            }
            match decode_welcome(payload.as_str()) {
                Some(d) => {
                    self.connected = true;
                    self.server_engine = d.engine.clone();
                    self.server_game = d.game.clone();
                    self.user_count = d.user_count;
                        return one_event(LobbyEvent::Connected { engine: d.engine, game: d.game })
                },
                None => {
                    return no_events();
                },
            }
        } else if str_eq(cmd, "LoginResponse") {
            proof {
                reveal(spec_on_login_response);
            }
            match decode_login_response(payload.as_str()) {
                Some(d) => {
                    if d.result_code == 0 {
                        self.logged_in = true;
                        self.my_username = Some(d.name.clone());
                            return one_event(LobbyEvent::LoggedIn { username: d.name })
                    } else {
                            return one_event(LobbyEvent::LoginFailed {
                            code: d.result_code,
                            message: d.message,
                        })
                    }
                },
                None => {
                    return no_events();
                },
            }
        } else if str_eq(cmd, "RegisterResponse") {
            proof {
                reveal(spec_on_register_response);
            }
            match decode_register_response(payload.as_str()) {
                Some(d) => {
                    if d.result_code == 0 {
                            return one_event(LobbyEvent::RegisterSuccess)
                    } else {
                        let reason = match d.ban_reason {
                            Some(t) => t,
                            None => String::new(),
                        };
                            return one_event(LobbyEvent::RegisterFailed { code: d.result_code, reason })
                    }
                },
                None => {
                    return no_events();
                },
            }
        } else if str_eq(cmd, "User") {
            proof {
                reveal(spec_on_user);
            }
            match decode_user(payload.as_str()) {
                Some(d) => {
                    let is_new = !self.users.contains_key(d.name.as_str());
                    let key = d.name.clone();
                    let info = UserInfo {
                        account_id: d.account_id,
                        name: d.name,
                        display_name: d.display_name,
                        clan: d.clan,
                        country: d.country,
                        is_bot: d.is_bot,
                        is_admin: d.is_admin,
                        level: d.level,
                        elo_text: d.elo_text,
                        battle_id: d.battle_id,
                    };
                    let info_copy = UserInfo {
                        account_id: info.account_id,
                        name: info.name.clone(),
                        display_name: info.display_name.clone(),
                        clan: info.clan.clone(),
                        country: info.country.clone(),
                        is_bot: info.is_bot,
                        is_admin: info.is_admin,
                        level: info.level,
                        elo_text: info.elo_text.clone(),
                        battle_id: info.battle_id,
                    };
                    self.users.insert(key, info);
                    if is_new {
                            return one_event(LobbyEvent::UserJoined(info_copy))
                    } else {
                        no_events()
                    }
                },
                None => {
                    return no_events();
                },
            }
        } else if str_eq(cmd, "UserDisconnected") {
            proof {
                reveal(spec_on_user_disconnected);
            }
            match decode_user_disconnected(payload.as_str()) {
                Some(d) => {
                    self.users.remove(d.name.as_str());
                        return one_event(LobbyEvent::UserLeft { name: d.name, reason: d.reason })
                },
                None => {
                    return no_events();
                },
            }
        } else if str_eq(cmd, "Say") {
            proof {
                reveal(spec_on_say);
            }
            match decode_say(payload.as_str()) {
                Some(d) => return one_event(LobbyEvent::ChatMessage {
                    user: d.user,
                    text: d.text,
                    target: d.target,
                    place: d.place,
                    is_emote: d.is_emote,
                    time: d.time,
                }),
                None => {
                    return no_events();
                },
            }
        } else if str_eq(cmd, "BattleAdded") {
            proof {
                reveal(spec_on_battle_added);
            }
            match decode_battle_header(payload.as_str()) {
                Some(h) => {
                    let info = battle_info_from_header(&h);
                    let info2 = battle_info_from_header(&h);
                    self.battles.insert(h.battle_id, info);
                        return one_event(LobbyEvent::BattleOpened(info2))
                },
                None => {
                    return no_events();
                },
            }
        } else if str_eq(cmd, "BattleUpdate") {
            proof {
                reveal(spec_on_battle_update);
            }
            match decode_battle_header(payload.as_str()) {
                Some(h) => {
                    let info = battle_info_from_header(&h);
                    let info2 = battle_info_from_header(&h);
                    self.battles.insert(h.battle_id, info);
                        return one_event(LobbyEvent::BattleUpdated(info2))
                },
                None => {
                    return no_events();
                },
            }
        } else if str_eq(cmd, "BattleRemoved") {
            proof {
                reveal(spec_on_battle_removed);
            }
            match decode_battle_removed(payload.as_str()) {
                Some(d) => {
                    self.battles.remove(d.battle_id);
                        return one_event(LobbyEvent::BattleClosed { battle_id: d.battle_id })
                },
                None => {
                    return no_events();
                },
            }
        } else if str_eq(cmd, "JoinChannelResponse") {
            proof {
                reveal(spec_on_join_channel_response);
            }
            match decode_join_channel_response(payload.as_str()) {
                Some(d) => {
                    if d.success {
                        let topic: Option<String> = match &d.channel {
                            Some(ch) => match &ch.topic {
                                Some(t) => Some(t.text.clone()),
                                None => None,
                            },
                            None => None,
                        };
                        let users: Vec<String> = match d.channel {
                            Some(ch) => ch.users,
                            None => Vec::new(),
                        };
                        proof {
                            if spec_decode_join_channel_response(payload@)->Some_0.channel
                                is None {
                                assert(users@.map_values(|u: String| u@)
                                    =~= Seq::<Seq<char>>::empty());
                            }
                        }
                        let info = ChannelInfo {
                            name: d.channel_name.clone(),
                            topic: clone_opt_string(&topic),
                            users: clone_string_vec(&users),
                        };
                        self.channels.insert(d.channel_name.clone(), info);
                            return one_event(LobbyEvent::ChannelJoined { channel: d.channel_name, users, topic })
                    } else {
                        no_events()
                    }
                },
                None => {
                    return no_events();
                },
            }
        } else if str_eq(cmd, "ChannelUserAdded") {
            proof {
                reveal(spec_on_channel_user_added);
            }
            match decode_channel_user_added(payload.as_str()) {
                Some(d) => {
                    let taken = self.channels.remove(d.channel_name.as_str());
                    match taken {
                        Some(mut ch) => {
                            let ghost ch0 = ch@;
                            if !vec_contains(&ch.users, d.user_name.as_str()) {
                                ch.users.push(d.user_name.clone());
                                proof {
                                    assert(ch@.users =~= ch0.users.push(d.user_name@));
                                }
                            }
                            proof {
                                assert(ch@ =~~= (ChannelInfoV {
                                    users: if ch0.users.contains(d.user_name@) {
                                        ch0.users
                                    } else {
                                        ch0.users.push(d.user_name@)
                                    },
                                    ..ch0
                                }));
                            }
                            self.channels.insert(d.channel_name.clone(), ch);
                            proof {
                                assert(self.channels@ =~~= spec_handle(
                                    old(self)@,
                                    msg@.command,
                                    msg@.data,
                                ).0.channels);
                            }
                        },
                        None => {
                            proof {
                                assert(self.channels@ =~= old(self).channels@);
                            }
                        },
                    }
                        return one_event(LobbyEvent::ChannelUserJoined {
                        channel: d.channel_name,
                        user: d.user_name,
                    })
                },
                None => {
                    return no_events();
                },
            }
        } else if str_eq(cmd, "ChannelUserRemoved") {
            proof {
                reveal(spec_on_channel_user_removed);
            }
            match decode_channel_user_removed(payload.as_str()) {
                Some(d) => {
                    let taken = self.channels.remove(d.channel_name.as_str());
                    match taken {
                        Some(mut ch) => {
                            let ghost ch0 = ch@;
                            let pruned = vec_remove_all(ch.users, d.user_name.as_str());
                            ch.users = pruned;
                            proof {
                                assert(ch@ =~~= (ChannelInfoV {
                                    users: remove_all(ch0.users, d.user_name@),
                                    ..ch0
                                }));
                            }
                            self.channels.insert(d.channel_name.clone(), ch);
                            proof {
                                assert(self.channels@ =~~= spec_handle(
                                    old(self)@,
                                    msg@.command,
                                    msg@.data,
                                ).0.channels);
                            }
                        },
                        None => {
                            proof {
                                assert(self.channels@ =~= old(self).channels@);
                            }
                        },
                    }
                        return one_event(LobbyEvent::ChannelUserLeft {
                        channel: d.channel_name,
                        user: d.user_name,
                    })
                },
                None => {
                    return no_events();
                },
            }
        } else if str_eq(cmd, "ConnectSpring") {
            proof {
                reveal(spec_on_connect_spring);
            }
            match decode_connect_spring(payload.as_str()) {
                Some(d) => return one_event(LobbyEvent::ConnectSpring(d)),
                None => {
                    return no_events();
                },
            }
        } else {
            return no_events();
        }
    }

    /// Process one raw line from the lobby socket: a `Ping` is answered
    /// with `Ping {}` in the same step and surfaces no event; any other
    /// line updates the state as `spec_handle` says.
    pub fn process_lobby_line(&mut self, line: &str) -> (r: (Option<LobbyMessage>, Vec<LobbyEvent>))
        requires
            old(self).wf(),
        ensures
            final(self).wf(),
            final(self)@ == spec_line_step(old(self)@, line@).0,
            events_view(r.1@) == spec_line_step(old(self)@, line@).1,
            match crate::protocol::spec_from_line(line@) {
                None => final(self)@ == old(self)@ && r.0 is None && events_view(r.1@)
                    == Seq::<LobbyEventV>::empty(),
                Some(m) => if m.command == "Ping"@ {
                    final(self)@ == old(self)@ && (r.0 matches Some(p) && p@.command == "Ping"@
                        && p@.data == MessageDataV::Json(seq!['{', '}'])) && events_view(r.1@)
                        == Seq::<LobbyEventV>::empty()
                } else {
                    r.0 is None && final(self)@ == spec_handle(old(self)@, m.command, m.data).0
                        && events_view(r.1@) == spec_handle(old(self)@, m.command, m.data).1
                },
            },
    {
        let m = match LobbyMessage::from_line(line) {
            Some(m) => m,
            None => {
                return (None, no_events());
            },
        };
        if str_eq(m.command.as_str(), "Ping") {
            let data = MessageData::Json(to_owned_string("{}"));
            proof {
                reveal_strlit("{}");
                assert("{}"@ =~= seq!['{', '}']);
            }
            let reply = LobbyMessage::new("Ping", data);
            proof {
                reveal_strlit("Ping");
            }
            return (Some(reply), no_events());
        }
        let events = self.handle_message(&m);
        (None, events)
    }
}

/// What one raw line does to the state and emits, as
/// `process_lobby_line` promises it: nothing for an empty line, a
/// silent echo for a `Ping`, the message's transition otherwise.
pub open spec fn spec_line_step(st: LobbyStateV, line: Seq<char>) -> (
    LobbyStateV,
    Seq<LobbyEventV>,
) {
    match crate::protocol::spec_from_line(line) {
        None => (st, Seq::empty()),
        Some(m) => if m.command == "Ping"@ {
            (st, Seq::empty())
        } else {
            spec_handle(st, m.command, m.data)
        },
    }
}

/// What a whole sequence of lines does from a starting state: the
/// final state, and every emitted event in order.
pub open spec fn spec_run_lines(st: LobbyStateV, lines: Seq<Seq<char>>) -> (
    LobbyStateV,
    Seq<LobbyEventV>,
)
    decreases lines.len(),
{
    if lines.len() == 0 {
        (st, Seq::empty())
    } else {
        let step = spec_line_step(st, lines[0]);
        let rest = spec_run_lines(step.0, lines.drop_first());
        (rest.0, step.1 + rest.1)
    }
}

/// For every lobby line, the emitted events are a function of that
/// line and the prior state alone: the same line sequence from equal
/// states - in particular, from a fresh state - produces identical
/// events. `process_lobby_line` realises `spec_line_step` exactly, so
/// the executable loop inherits this.
pub proof fn lemma_events_function_of_lines(
    st1: LobbyStateV,
    st2: LobbyStateV,
    lines1: Seq<Seq<char>>,
    lines2: Seq<Seq<char>>,
)
    requires
        st1 == st2,
        lines1 == lines2,
    ensures
        spec_run_lines(st1, lines1) == spec_run_lines(st2, lines2),
{
}

} // verus!
