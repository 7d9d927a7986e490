//! Lobby wire protocol: `CommandName<SP>JSON\n` lines, the typed
//! command and response records they carry, and password hashing.

use crate::text::to_owned_string;
use base64::Engine;
use md5::Digest;
use vstd::prelude::*;
use vstd::string::StrSliceExecFns;
use vstd::string::StringExecFns;
use vstd::string::StringSliceAdditionalSpecFns;

verus! {

/// The MD5 digest of a byte sequence, as the `md-5` crate computes it.
pub uninterp spec fn md5_of(bytes: Seq<u8>) -> Seq<u8>;

/// The standard base64 encoding of a byte sequence, as the `base64`
/// crate computes it.
pub uninterp spec fn base64_of(bytes: Seq<u8>) -> Seq<char>;

/// Relies on md5::Md5 (the `md-5` crate): the digest is a function of
/// the input bytes alone and is always 16 bytes long.
#[verifier::external_body]
fn md5_digest(input: &[u8]) -> (r: Vec<u8>)
    ensures
        r@ == md5_of(input@),
        r@.len() == 16,
{
    let mut hasher = md5::Md5::new();
    hasher.update(input);
    hasher.finalize().to_vec()
}

/// Relies on base64::engine::general_purpose::STANDARD.encode: the
/// encoding is a function of the input bytes alone.
#[verifier::external_body]
fn base64_encode(input: &Vec<u8>) -> (r: String)
    ensures
        r@ == base64_of(input@),
{
    base64::engine::general_purpose::STANDARD.encode(input)
}

/// What a password hashes to on the wire: base64 of the MD5 digest of
/// its UTF-8 bytes. The lobby protocol fixes this scheme.
pub open spec fn spec_hash_password(password: &str) -> Seq<char> {
    base64_of(md5_of(password.spec_bytes()))
}

/// Create the MD5 password hash for login, as the lobby server expects it.
pub fn hash_password(password: &str) -> (r: String)
    ensures
        r@ == spec_hash_password(password),
{
    let digest = md5_digest(password.as_bytes());
    base64_encode(&digest)
}

// ── The wire line ──

/// Whether a text is one valid JSON document.
pub uninterp spec fn is_json(s: Seq<char>) -> bool;

/// Relies on serde_json::from_str::<serde_json::Value>: whether a text
/// parses as JSON depends on the text alone.
#[verifier::external_body]
fn json_text_valid(s: &str) -> (r: bool)
    ensures
        r == is_json(s@),
{
    serde_json::from_str::<serde_json::Value>(s).is_ok()
}

/// The payload of a lobby line: the JSON text after the command word,
/// or, for a tail that is not valid JSON, that tail kept as a plain
/// string (the protocol's graceful degradation).
#[derive(Debug)]
pub enum MessageData {
    Json(String),
    Text(String),
}

/// The model of a payload.
pub ghost enum MessageDataV {
    Json(Seq<char>),
    Text(Seq<char>),
}

impl View for MessageData {
    type V = MessageDataV;

    open spec fn view(&self) -> MessageDataV {
        match self {
            MessageData::Json(s) => MessageDataV::Json(s@),
            MessageData::Text(s) => MessageDataV::Text(s@),
        }
    }
}

/// A parsed lobby protocol line: `CommandName JSON`.
#[derive(Debug)]
pub struct LobbyMessage {
    pub command: String,
    pub data: MessageData,
}

/// The model of a lobby line.
pub ghost struct LobbyMessageV {
    pub command: Seq<char>,
    pub data: MessageDataV,
}

impl View for LobbyMessage {
    type V = LobbyMessageV;

    open spec fn view(&self) -> LobbyMessageV {
        LobbyMessageV { command: self.command@, data: self.data@ }
    }
}

/// The raw text a payload stands on the wire as.
pub open spec fn spec_data_text(d: MessageDataV) -> Seq<char> {
    match d {
        MessageDataV::Json(s) => s,
        MessageDataV::Text(s) => crate::json::spec_quote(s),
    }
}

/// The wire form of a message: `command<SP>data\n`.
pub open spec fn spec_to_wire(m: LobbyMessageV) -> Seq<char> {
    m.command + seq![' '] + spec_data_text(m.data) + seq!['\n']
}

/// What one received line means: trim it, take the word before the
/// first space as the command, and the tail as the payload — JSON
/// where it parses, a plain string otherwise. A line without a space
/// is a command with an empty-object payload; an empty line is
/// nothing.
pub open spec fn spec_from_line(line: Seq<char>) -> Option<LobbyMessageV> {
    let t = crate::text::spec_trim(line);
    if t.len() == 0 {
        None
    } else {
        match crate::text::spec_find_char(t, ' ', 0) {
            Some(i) => {
                let cmd = t.subrange(0, i);
                let tail = t.subrange(i + 1, t.len() as int);
                let data = if is_json(tail) {
                    MessageDataV::Json(tail)
                } else {
                    MessageDataV::Text(tail)
                };
                Some(LobbyMessageV { command: cmd, data })
            },
            None => Some(LobbyMessageV { command: t, data: MessageDataV::Json(seq!['{', '}']) }),
        }
    }
}

impl LobbyMessage {
    /// Wrap a command word and payload.
    pub fn new(command: &str, data: MessageData) -> (r: Self)
        ensures
            r@ == (LobbyMessageV { command: command@, data: data@ }),
    {
        LobbyMessage { command: to_owned_string(command), data }
    }

    /// Serialize to wire format: `CommandName JSON\n`.
    pub fn to_wire(&self) -> (r: String)
        ensures
            r@ == spec_to_wire(self@),
    {
        let mut out = self.command.clone();
        out.append(" ");
        match &self.data {
            MessageData::Json(s) => out.append(s.as_str()),
            MessageData::Text(s) => out.append(crate::json::quote_string(s.as_str()).as_str()),
        }
        out.append("\n");
        proof {
            reveal_strlit(" ");
            reveal_strlit("\n");
            assert(out@ =~= spec_to_wire(self@));
        }
        out
    }

    /// Parse from a single received line.
    pub fn from_line(line: &str) -> (r: Option<LobbyMessage>)
        ensures
            match r {
                Some(m) => spec_from_line(line@) == Some(m@),
                None => spec_from_line(line@) is None,
            },
    {
        let t = crate::text::trim(line);
        let n = t.unicode_len();
        if n == 0 {
            return None;
        }
        match crate::text::find_char(t, ' ') {
            Some(i) => {
                let command = crate::text::substring_to_string(t, 0, i);
                let tail = crate::text::substring_to_string(t, i + 1, n);
                let ghost tailv = tail@;
                let data = if json_text_valid(tail.as_str()) {
                    MessageData::Json(tail)
                } else {
                    MessageData::Text(tail)
                };
                proof {
                    let tv = crate::text::spec_trim(line@);
                    crate::text::lemma_find_char_props(tv, ' ', 0);
                    assert(crate::text::spec_find_char(tv, ' ', 0) == Some(i as int));
                    assert(command@ == tv.subrange(0, i as int));
                    assert(tailv == tv.subrange(i + 1, tv.len() as int));
                    assert(data@ == if is_json(tailv) {
                        MessageDataV::Json(tailv)
                    } else {
                        MessageDataV::Text(tailv)
                    });
                }
                Some(LobbyMessage { command, data })
            },
            None => {
                let data = MessageData::Json(to_owned_string("{}"));
                proof {
                    reveal_strlit("{}");
                    assert("{}"@ =~= seq!['{', '}']);
                }
                Some(LobbyMessage { command: to_owned_string(t), data })
            },
        }
    }
}

/// A well-formed message survives the wire: writing it and reading the
/// line back gives the same command and payload. Well-formed means the
/// command is nonempty without spaces or other whitespace, and the
/// payload is JSON text that neither starts nor ends with whitespace.
pub proof fn lemma_wire_round_trip(m: LobbyMessageV)
    requires
        m.command.len() > 0,
        forall|i: int| 0 <= i < m.command.len() ==> !crate::text::is_space(#[trigger] m.command[i]),
        m.data matches MessageDataV::Json(s) && s.len() > 0 && !crate::text::is_space(s[0])
            && !crate::text::is_space(s[s.len() - 1]) && is_json(s),
    ensures
        spec_from_line(spec_to_wire(m)) == Some(m),
{
    let s = m.data->Json_0;
    let w = spec_to_wire(m);
    let body = m.command + seq![' '] + s;
    assert(w =~= body + seq!['\n']);
    let t = crate::text::spec_trim(w);
    assert(t =~= body) by {
        assert(crate::text::spec_trim_lo(w, 0) == 0);
        assert(crate::text::spec_trim_hi(w, w.len() as int) == crate::text::spec_trim_hi(
            w,
            w.len() - 1,
        ));
        assert(w[w.len() - 2] == s[s.len() - 1]);
        assert(crate::text::spec_trim_hi(w, w.len() - 1) == w.len() - 1);
    }
    let ci = m.command.len() as int;
    assert(crate::text::spec_find_char(t, ' ', 0) == Some(ci)) by {
        assert(t[ci] == ' ');
        assert(forall|j: int| 0 <= j < ci ==> t[j] == m.command[j]);
        lemma_find_char_first(t, ci);
    }
    assert(t.subrange(0, ci) =~= m.command);
    assert(t.subrange(ci + 1, t.len() as int) =~= s);
}

/// Where position `i` holds a space and nothing before it does, the
/// scan answers `i`.
proof fn lemma_find_char_first(t: Seq<char>, i: int)
    requires
        0 <= i < t.len(),
        t[i] == ' ',
        forall|j: int| 0 <= j < i ==> t[j] != ' ',
    ensures
        crate::text::spec_find_char(t, ' ', 0) == Some(i),
    decreases i,
{
    lemma_find_char_from(t, 0, i);
}

proof fn lemma_find_char_from(t: Seq<char>, from: int, i: int)
    requires
        0 <= from <= i < t.len(),
        t[i] == ' ',
        forall|j: int| from <= j < i ==> t[j] != ' ',
    ensures
        crate::text::spec_find_char(t, ' ', from) == Some(i),
    decreases i - from,
{
    if from < i {
        lemma_find_char_from(t, from + 1, i);
    }
}

// ── Typed messages ──

pub struct WelcomeData {
    pub engine: String,
    pub game: String,
    pub user_count: i32,
    pub version: String,
}

pub ghost struct WelcomeDataV {
    pub engine: Seq<char>,
    pub game: Seq<char>,
    pub user_count: int,
    pub version: Seq<char>,
}

impl View for WelcomeData {
    type V = WelcomeDataV;

    open spec fn view(&self) -> WelcomeDataV {
        WelcomeDataV {
            engine: self.engine@,
            game: self.game@,
            user_count: self.user_count as int,
            version: self.version@,
        }
    }
}

pub struct LoginResponseData {
    pub result_code: i32,
    pub name: String,
    pub message: String,
    pub ban_reason: Option<String>,
    pub session_token: Option<String>,
}

pub ghost struct LoginResponseDataV {
    pub result_code: int,
    pub name: Seq<char>,
    pub message: Seq<char>,
    pub ban_reason: Option<Seq<char>>,
    pub session_token: Option<Seq<char>>,
}

impl View for LoginResponseData {
    type V = LoginResponseDataV;

    open spec fn view(&self) -> LoginResponseDataV {
        LoginResponseDataV {
            result_code: self.result_code as int,
            name: self.name@,
            message: self.message@,
            ban_reason: match self.ban_reason { Some(v) => Some(v@), None => None },
            session_token: match self.session_token { Some(v) => Some(v@), None => None },
        }
    }
}

pub struct RegisterResponseData {
    pub result_code: i32,
    pub ban_reason: Option<String>,
}

pub ghost struct RegisterResponseDataV {
    pub result_code: int,
    pub ban_reason: Option<Seq<char>>,
}

impl View for RegisterResponseData {
    type V = RegisterResponseDataV;

    open spec fn view(&self) -> RegisterResponseDataV {
        RegisterResponseDataV {
            result_code: self.result_code as int,
            ban_reason: match self.ban_reason { Some(v) => Some(v@), None => None },
        }
    }
}

pub struct UserData {
    pub account_id: i64,
    pub name: String,
    pub display_name: String,
    pub clan: String,
    pub country: String,
    pub is_bot: bool,
    pub is_admin: bool,
    pub level: i32,
    pub elo_text: String,
    pub battle_id: Option<i64>,
    pub ban_mute: bool,
}

pub ghost struct UserDataV {
    pub account_id: int,
    pub name: Seq<char>,
    pub display_name: Seq<char>,
    pub clan: Seq<char>,
    pub country: Seq<char>,
    pub is_bot: bool,
    pub is_admin: bool,
    pub level: int,
    pub elo_text: Seq<char>,
    pub battle_id: Option<int>,
    pub ban_mute: bool,
}

impl View for UserData {
    type V = UserDataV;

    open spec fn view(&self) -> UserDataV {
        UserDataV {
            account_id: self.account_id as int,
            name: self.name@,
            display_name: self.display_name@,
            clan: self.clan@,
            country: self.country@,
            is_bot: self.is_bot,
            is_admin: self.is_admin,
            level: self.level as int,
            elo_text: self.elo_text@,
            battle_id: match self.battle_id { Some(v) => Some(v as int), None => None },
            ban_mute: self.ban_mute,
        }
    }
}

pub struct UserDisconnectedData {
    pub name: String,
    pub reason: String,
}

pub ghost struct UserDisconnectedDataV {
    pub name: Seq<char>,
    pub reason: Seq<char>,
}

impl View for UserDisconnectedData {
    type V = UserDisconnectedDataV;

    open spec fn view(&self) -> UserDisconnectedDataV {
        UserDisconnectedDataV {
            name: self.name@,
            reason: self.reason@,
        }
    }
}

pub struct SayData {
    pub user: String,
    pub text: String,
    pub time: String,
    pub target: String,
    pub place: i32,
    pub is_emote: bool,
    pub ring: Option<bool>,
}

pub ghost struct SayDataV {
    pub user: Seq<char>,
    pub text: Seq<char>,
    pub time: Seq<char>,
    pub target: Seq<char>,
    pub place: int,
    pub is_emote: bool,
    pub ring: Option<bool>,
}

impl View for SayData {
    type V = SayDataV;

    open spec fn view(&self) -> SayDataV {
        SayDataV {
            user: self.user@,
            text: self.text@,
            time: self.time@,
            target: self.target@,
            place: self.place as int,
            is_emote: self.is_emote,
            ring: self.ring,
        }
    }
}

pub struct BattleHeader {
    pub battle_id: i64,
    pub title: String,
    pub founder: String,
    pub map: String,
    pub game: String,
    pub engine: String,
    pub max_players: i32,
    pub player_count: i32,
    pub spectator_count: i32,
    pub is_running: bool,
    pub is_password_protected: bool,
    pub mode: Option<String>,
}

pub ghost struct BattleHeaderV {
    pub battle_id: int,
    pub title: Seq<char>,
    pub founder: Seq<char>,
    pub map: Seq<char>,
    pub game: Seq<char>,
    pub engine: Seq<char>,
    pub max_players: int,
    pub player_count: int,
    pub spectator_count: int,
    pub is_running: bool,
    pub is_password_protected: bool,
    pub mode: Option<Seq<char>>,
}

impl View for BattleHeader {
    type V = BattleHeaderV;

    open spec fn view(&self) -> BattleHeaderV {
        BattleHeaderV {
            battle_id: self.battle_id as int,
            title: self.title@,
            founder: self.founder@,
            map: self.map@,
            game: self.game@,
            engine: self.engine@,
            max_players: self.max_players as int,
            player_count: self.player_count as int,
            spectator_count: self.spectator_count as int,
            is_running: self.is_running,
            is_password_protected: self.is_password_protected,
            mode: match self.mode { Some(v) => Some(v@), None => None },
        }
    }
}

pub struct BattleRemovedData {
    pub battle_id: i64,
}

pub ghost struct BattleRemovedDataV {
    pub battle_id: int,
}

impl View for BattleRemovedData {
    type V = BattleRemovedDataV;

    open spec fn view(&self) -> BattleRemovedDataV {
        BattleRemovedDataV {
            battle_id: self.battle_id as int,
        }
    }
}

pub struct TopicData {
    pub text: String,
    pub set_by: String,
}

pub ghost struct TopicDataV {
    pub text: Seq<char>,
    pub set_by: Seq<char>,
}

impl View for TopicData {
    type V = TopicDataV;

    open spec fn view(&self) -> TopicDataV {
        TopicDataV {
            text: self.text@,
            set_by: self.set_by@,
        }
    }
}

pub struct ChannelData {
    pub topic: Option<TopicData>,
    pub users: Vec<String>,
    pub is_deluge: bool,
}

pub ghost struct ChannelDataV {
    pub topic: Option<TopicDataV>,
    pub users: Seq<Seq<char>>,
    pub is_deluge: bool,
}

impl View for ChannelData {
    type V = ChannelDataV;

    open spec fn view(&self) -> ChannelDataV {
        ChannelDataV {
            topic: match self.topic { Some(v) => Some(v@), None => None },
            users: self.users@.map_values(|u: String| u@),
            is_deluge: self.is_deluge,
        }
    }
}

pub struct JoinChannelResponseData {
    pub channel_name: String,
    pub success: bool,
    pub reason: Option<String>,
    pub channel: Option<ChannelData>,
}

pub ghost struct JoinChannelResponseDataV {
    pub channel_name: Seq<char>,
    pub success: bool,
    pub reason: Option<Seq<char>>,
    pub channel: Option<ChannelDataV>,
}

impl View for JoinChannelResponseData {
    type V = JoinChannelResponseDataV;

    open spec fn view(&self) -> JoinChannelResponseDataV {
        JoinChannelResponseDataV {
            channel_name: self.channel_name@,
            success: self.success,
            reason: match self.reason { Some(v) => Some(v@), None => None },
            channel: match self.channel { Some(v) => Some(v@), None => None },
        }
    }
}

pub struct ChannelUserAddedData {
    pub channel_name: String,
    pub user_name: String,
}

pub ghost struct ChannelUserAddedDataV {
    pub channel_name: Seq<char>,
    pub user_name: Seq<char>,
}

impl View for ChannelUserAddedData {
    type V = ChannelUserAddedDataV;

    open spec fn view(&self) -> ChannelUserAddedDataV {
        ChannelUserAddedDataV {
            channel_name: self.channel_name@,
            user_name: self.user_name@,
        }
    }
}

pub struct ChannelUserRemovedData {
    pub channel_name: String,
    pub user_name: String,
}

pub ghost struct ChannelUserRemovedDataV {
    pub channel_name: Seq<char>,
    pub user_name: Seq<char>,
}

impl View for ChannelUserRemovedData {
    type V = ChannelUserRemovedDataV;

    open spec fn view(&self) -> ChannelUserRemovedDataV {
        ChannelUserRemovedDataV {
            channel_name: self.channel_name@,
            user_name: self.user_name@,
        }
    }
}

#[derive(Debug)]
pub struct ConnectSpringData {
    pub engine: String,
    pub game: String,
    pub ip: String,
    pub port: i32,
    pub map: String,
    pub script_password: String,
    pub mode: String,
    pub title: String,
    pub is_spectator: bool,
}

pub ghost struct ConnectSpringDataV {
    pub engine: Seq<char>,
    pub game: Seq<char>,
    pub ip: Seq<char>,
    pub port: int,
    pub map: Seq<char>,
    pub script_password: Seq<char>,
    pub mode: Seq<char>,
    pub title: Seq<char>,
    pub is_spectator: bool,
}

impl View for ConnectSpringData {
    type V = ConnectSpringDataV;

    open spec fn view(&self) -> ConnectSpringDataV {
        ConnectSpringDataV {
            engine: self.engine@,
            game: self.game@,
            ip: self.ip@,
            port: self.port as int,
            map: self.map@,
            script_password: self.script_password@,
            mode: self.mode@,
            title: self.title@,
            is_spectator: self.is_spectator,
        }
    }
}


// ── Reading fields out of a message's JSON payload ──
//
// The payload of a lobby message is arbitrary nested JSON produced by
// the server. Reading one field out of it is delegated to serde_json
// behind the named functions below; everything a decoder decides
// (which fields a message needs, defaults, ranges) is verified code.

/// Whether a text parses as a JSON object.
pub uninterp spec fn json_obj(s: Seq<char>) -> bool;

/// The string at a JSON Pointer path, if the text parses and the path
/// holds a string.
pub uninterp spec fn json_str(s: Seq<char>, path: Seq<char>) -> Option<Seq<char>>;

/// The integer at a path, where it holds one that fits in 64 bits.
pub uninterp spec fn json_int(s: Seq<char>, path: Seq<char>) -> Option<int>;

/// The boolean at a path.
pub uninterp spec fn json_bool(s: Seq<char>, path: Seq<char>) -> Option<bool>;

/// The literal text of the number at a path.
pub uninterp spec fn json_num_text(s: Seq<char>, path: Seq<char>) -> Option<Seq<char>>;

/// The strings of the array at a path, where every element is a string.
pub uninterp spec fn json_str_array(s: Seq<char>, path: Seq<char>) -> Option<Seq<Seq<char>>>;

/// Whether anything sits at a path.
pub uninterp spec fn json_has(s: Seq<char>, path: Seq<char>) -> bool;

/// Relies on serde_json::from_str and Value::is_object.
#[verifier::external_body]
fn json_is_object(s: &str) -> (r: bool)
    ensures
        r == json_obj(s@),
{
    serde_json::from_str::<serde_json::Value>(s).map(|v| v.is_object()).unwrap_or(false)
}

/// Relies on serde_json's Value::pointer and Value::as_str: the field
/// at a JSON Pointer path is a function of text and path alone.
#[verifier::external_body]
fn get_str_at(s: &str, path: &str) -> (r: Option<String>)
    ensures
        match r {
            Some(v) => json_str(s@, path@) == Some(v@),
            None => json_str(s@, path@) is None,
        },
{
    let v: serde_json::Value = serde_json::from_str(s).ok()?;
    Some(v.pointer(path)?.as_str()?.to_string())
}

/// Relies on serde_json's Value::pointer and Value::as_i64.
#[verifier::external_body]
fn get_i64_at(s: &str, path: &str) -> (r: Option<i64>)
    ensures
        match r {
            Some(v) => json_int(s@, path@) == Some(v as int),
            None => json_int(s@, path@) is None,
        },
{
    let v: serde_json::Value = serde_json::from_str(s).ok()?;
    v.pointer(path)?.as_i64()
}

/// Relies on serde_json's Value::pointer and Value::as_bool.
#[verifier::external_body]
fn get_bool_at(s: &str, path: &str) -> (r: Option<bool>)
    ensures
        match r {
            Some(v) => json_bool(s@, path@) == Some(v),
            None => json_bool(s@, path@) is None,
        },
{
    let v: serde_json::Value = serde_json::from_str(s).ok()?;
    v.pointer(path)?.as_bool()
}

/// Relies on serde_json's Value::pointer and Number::to_string: the
/// literal text of a numeric field, a function of text and path alone.
#[verifier::external_body]
fn get_num_text_at(s: &str, path: &str) -> (r: Option<String>)
    ensures
        match r {
            Some(v) => json_num_text(s@, path@) == Some(v@),
            None => json_num_text(s@, path@) is None,
        },
{
    let v: serde_json::Value = serde_json::from_str(s).ok()?;
    match v.pointer(path)? {
        serde_json::Value::Number(n) => Some(n.to_string()),
        _ => None,
    }
}

/// Relies on serde_json's Value::pointer, Value::as_array and
/// Value::as_str: the element strings of an all-string array.
#[verifier::external_body]
fn get_str_array_at(s: &str, path: &str) -> (r: Option<Vec<String>>)
    ensures
        match r {
            Some(v) => json_str_array(s@, path@) == Some(v@.map_values(|u: String| u@)),
            None => json_str_array(s@, path@) is None,
        },
{
    let v: serde_json::Value = serde_json::from_str(s).ok()?;
    let arr = v.pointer(path)?.as_array()?;
    arr.iter().map(|x| x.as_str().map(|t| t.to_string())).collect()
}

/// Relies on serde_json's Value::pointer: whether the path resolves.
#[verifier::external_body]
fn has_at(s: &str, path: &str) -> (r: bool)
    ensures
        r == json_has(s@, path@),
{
    match serde_json::from_str::<serde_json::Value>(s) {
        Ok(v) => v.pointer(path).is_some(),
        Err(_) => false,
    }
}

// ── Field defaults, as the decoders apply them ──

pub open spec fn str_or_empty(o: Option<Seq<char>>) -> Seq<char> {
    match o {
        Some(v) => v,
        None => Seq::empty(),
    }
}

pub open spec fn i32_or_zero(o: Option<int>) -> int {
    match o {
        Some(v) => if crate::ipc::in_i32(v) {
            v
        } else {
            0
        },
        None => 0,
    }
}

pub open spec fn i64_or_zero(o: Option<int>) -> int {
    match o {
        Some(v) => v,
        None => 0,
    }
}

pub open spec fn bool_or_false(o: Option<bool>) -> bool {
    match o {
        Some(v) => v,
        None => false,
    }
}

pub open spec fn num_or_zero(o: Option<Seq<char>>) -> Seq<char> {
    match o {
        Some(v) => v,
        None => seq!['0'],
    }
}

fn get_str_or_empty(s: &str, path: &str) -> (r: String)
    ensures
        r@ == str_or_empty(json_str(s@, path@)),
{
    match get_str_at(s, path) {
        Some(v) => v,
        None => String::new(),
    }
}

fn get_i32_or_zero(s: &str, path: &str) -> (r: i32)
    ensures
        r as int == i32_or_zero(json_int(s@, path@)),
{
    match get_i64_at(s, path) {
        Some(v) => {
            if -2147483648i64 <= v && v <= 2147483647i64 {
                v as i32
            } else {
                0
            }
        },
        None => 0,
    }
}

fn get_i64_or_zero(s: &str, path: &str) -> (r: i64)
    ensures
        r as int == i64_or_zero(json_int(s@, path@)),
{
    match get_i64_at(s, path) {
        Some(v) => v,
        None => 0,
    }
}

fn get_bool_or_false(s: &str, path: &str) -> (r: bool)
    ensures
        r == bool_or_false(json_bool(s@, path@)),
{
    match get_bool_at(s, path) {
        Some(v) => v,
        None => false,
    }
}

fn get_num_or_zero(s: &str, path: &str) -> (r: String)
    ensures
        r@ == num_or_zero(json_num_text(s@, path@)),
{
    match get_num_text_at(s, path) {
        Some(v) => v,
        None => {
            let r = to_owned_string("0");
            proof {
                reveal_strlit("0");
                assert(r@ =~= seq!['0']);
            }
            r
        },
    }
}


/// What a `WelcomeData` payload decodes to, if anything.
pub open spec fn spec_decode_welcome(s: Seq<char>) -> Option<WelcomeDataV> {
    if !json_obj(s) {
        None
    } else {
        Some(WelcomeDataV {
            engine: str_or_empty(json_str(s, "/Engine"@)),
            game: str_or_empty(json_str(s, "/Game"@)),
            user_count: i32_or_zero(json_int(s, "/UserCount"@)),
            version: str_or_empty(json_str(s, "/Version"@)),
        })
    }
}

/// Decode a `WelcomeData` payload.
pub fn decode_welcome(s: &str) -> (r: Option<WelcomeData>)
    ensures
        match r {
            Some(d) => spec_decode_welcome(s@) == Some(d@),
            None => spec_decode_welcome(s@) is None,
        },
{
    if !json_is_object(s) {
        return None;
    }
    Some(WelcomeData {
        engine: get_str_or_empty(s, "/Engine"),
        game: get_str_or_empty(s, "/Game"),
        user_count: get_i32_or_zero(s, "/UserCount"),
        version: get_str_or_empty(s, "/Version"),
    })
}

/// What a `LoginResponseData` payload decodes to, if anything.
pub open spec fn spec_decode_login_response(s: Seq<char>) -> Option<LoginResponseDataV> {
    if !json_obj(s) {
        None
    } else if !(json_int(s, "/ResultCode"@) matches Some(v) && crate::ipc::in_i32(v)) {
        None
    } else {
        Some(LoginResponseDataV {
            result_code: json_int(s, "/ResultCode"@)->Some_0,
            name: str_or_empty(json_str(s, "/Name"@)),
            message: str_or_empty(json_str(s, "/Message"@)),
            ban_reason: json_str(s, "/BanReason"@),
            session_token: json_str(s, "/SessionToken"@),
        })
    }
}

/// Decode a `LoginResponseData` payload.
pub fn decode_login_response(s: &str) -> (r: Option<LoginResponseData>)
    ensures
        match r {
            Some(d) => spec_decode_login_response(s@) == Some(d@),
            None => spec_decode_login_response(s@) is None,
        },
{
    if !json_is_object(s) {
        return None;
    }
    let result_code = match get_i64_at(s, "/ResultCode") {
        Some(v) => v,
        None => { return None; },
    };
    if result_code < -2147483648i64 || result_code > 2147483647i64 {
        return None;
    }
    Some(LoginResponseData {
        result_code: result_code as i32,
        name: get_str_or_empty(s, "/Name"),
        message: get_str_or_empty(s, "/Message"),
        ban_reason: get_str_at(s, "/BanReason"),
        session_token: get_str_at(s, "/SessionToken"),
    })
}

/// What a `RegisterResponseData` payload decodes to, if anything.
pub open spec fn spec_decode_register_response(s: Seq<char>) -> Option<RegisterResponseDataV> {
    if !json_obj(s) {
        None
    } else if !(json_int(s, "/ResultCode"@) matches Some(v) && crate::ipc::in_i32(v)) {
        None
    } else {
        Some(RegisterResponseDataV {
            result_code: json_int(s, "/ResultCode"@)->Some_0,
            ban_reason: json_str(s, "/BanReason"@),
        })
    }
}

/// Decode a `RegisterResponseData` payload.
pub fn decode_register_response(s: &str) -> (r: Option<RegisterResponseData>)
    ensures
        match r {
            Some(d) => spec_decode_register_response(s@) == Some(d@),
            None => spec_decode_register_response(s@) is None,
        },
{
    if !json_is_object(s) {
        return None;
    }
    let result_code = match get_i64_at(s, "/ResultCode") {
        Some(v) => v,
        None => { return None; },
    };
    if result_code < -2147483648i64 || result_code > 2147483647i64 {
        return None;
    }
    Some(RegisterResponseData {
        result_code: result_code as i32,
        ban_reason: get_str_at(s, "/BanReason"),
    })
}

/// What a `UserData` payload decodes to, if anything.
pub open spec fn spec_decode_user(s: Seq<char>) -> Option<UserDataV> {
    if !json_obj(s) {
        None
    } else {
        Some(UserDataV {
            account_id: i64_or_zero(json_int(s, "/AccountID"@)),
            name: str_or_empty(json_str(s, "/Name"@)),
            display_name: str_or_empty(json_str(s, "/DisplayName"@)),
            clan: str_or_empty(json_str(s, "/Clan"@)),
            country: str_or_empty(json_str(s, "/Country"@)),
            is_bot: bool_or_false(json_bool(s, "/IsBot"@)),
            is_admin: bool_or_false(json_bool(s, "/IsAdmin"@)),
            level: i32_or_zero(json_int(s, "/Level"@)),
            elo_text: num_or_zero(json_num_text(s, "/EffectiveElo"@)),
            battle_id: json_int(s, "/BattleID"@),
            ban_mute: bool_or_false(json_bool(s, "/BanMute"@)),
        })
    }
}

/// Decode a `UserData` payload.
pub fn decode_user(s: &str) -> (r: Option<UserData>)
    ensures
        match r {
            Some(d) => spec_decode_user(s@) == Some(d@),
            None => spec_decode_user(s@) is None,
        },
{
    if !json_is_object(s) {
        return None;
    }
    Some(UserData {
        account_id: get_i64_or_zero(s, "/AccountID"),
        name: get_str_or_empty(s, "/Name"),
        display_name: get_str_or_empty(s, "/DisplayName"),
        clan: get_str_or_empty(s, "/Clan"),
        country: get_str_or_empty(s, "/Country"),
        is_bot: get_bool_or_false(s, "/IsBot"),
        is_admin: get_bool_or_false(s, "/IsAdmin"),
        level: get_i32_or_zero(s, "/Level"),
        elo_text: get_num_or_zero(s, "/EffectiveElo"),
        battle_id: get_i64_at(s, "/BattleID"),
        ban_mute: get_bool_or_false(s, "/BanMute"),
    })
}

/// What a `UserDisconnectedData` payload decodes to, if anything.
pub open spec fn spec_decode_user_disconnected(s: Seq<char>) -> Option<UserDisconnectedDataV> {
    if !json_obj(s) {
        None
    } else if json_str(s, "/Name"@) is None {
        None
    } else {
        Some(UserDisconnectedDataV {
            name: json_str(s, "/Name"@)->Some_0,
            reason: str_or_empty(json_str(s, "/Reason"@)),
        })
    }
}

/// Decode a `UserDisconnectedData` payload.
pub fn decode_user_disconnected(s: &str) -> (r: Option<UserDisconnectedData>)
    ensures
        match r {
            Some(d) => spec_decode_user_disconnected(s@) == Some(d@),
            None => spec_decode_user_disconnected(s@) is None,
        },
{
    if !json_is_object(s) {
        return None;
    }
    let name = match get_str_at(s, "/Name") {
        Some(v) => v,
        None => { return None; },
    };
    Some(UserDisconnectedData {
        name,
        reason: get_str_or_empty(s, "/Reason"),
    })
}

/// What a `SayData` payload decodes to, if anything.
pub open spec fn spec_decode_say(s: Seq<char>) -> Option<SayDataV> {
    if !json_obj(s) {
        None
    } else {
        Some(SayDataV {
            user: str_or_empty(json_str(s, "/User"@)),
            text: str_or_empty(json_str(s, "/Text"@)),
            time: str_or_empty(json_str(s, "/Time"@)),
            target: str_or_empty(json_str(s, "/Target"@)),
            place: i32_or_zero(json_int(s, "/Place"@)),
            is_emote: bool_or_false(json_bool(s, "/IsEmote"@)),
            ring: json_bool(s, "/Ring"@),
        })
    }
}

/// Decode a `SayData` payload.
pub fn decode_say(s: &str) -> (r: Option<SayData>)
    ensures
        match r {
            Some(d) => spec_decode_say(s@) == Some(d@),
            None => spec_decode_say(s@) is None,
        },
{
    if !json_is_object(s) {
        return None;
    }
    Some(SayData {
        user: get_str_or_empty(s, "/User"),
        text: get_str_or_empty(s, "/Text"),
        time: get_str_or_empty(s, "/Time"),
        target: get_str_or_empty(s, "/Target"),
        place: get_i32_or_zero(s, "/Place"),
        is_emote: get_bool_or_false(s, "/IsEmote"),
        ring: get_bool_at(s, "/Ring"),
    })
}

/// What a `BattleHeader` payload decodes to, if anything.
pub open spec fn spec_decode_battle_header(s: Seq<char>) -> Option<BattleHeaderV> {
    if !json_obj(s) {
        None
    } else if !json_has(s, "/Header"@) {
        None
    } else {
        Some(BattleHeaderV {
            battle_id: i64_or_zero(json_int(s, "/Header/BattleID"@)),
            title: str_or_empty(json_str(s, "/Header/Title"@)),
            founder: str_or_empty(json_str(s, "/Header/Founder"@)),
            map: str_or_empty(json_str(s, "/Header/Map"@)),
            game: str_or_empty(json_str(s, "/Header/Game"@)),
            engine: str_or_empty(json_str(s, "/Header/Engine"@)),
            max_players: i32_or_zero(json_int(s, "/Header/MaxPlayers"@)),
            player_count: i32_or_zero(json_int(s, "/Header/PlayerCount"@)),
            spectator_count: i32_or_zero(json_int(s, "/Header/SpectatorCount"@)),
            is_running: bool_or_false(json_bool(s, "/Header/IsRunning"@)),
            is_password_protected: bool_or_false(json_bool(s, "/Header/IsPasswordProtected"@)),
            mode: json_str(s, "/Header/Mode"@),
        })
    }
}

/// Decode a `BattleHeader` payload.
pub fn decode_battle_header(s: &str) -> (r: Option<BattleHeader>)
    ensures
        match r {
            Some(d) => spec_decode_battle_header(s@) == Some(d@),
            None => spec_decode_battle_header(s@) is None,
        },
{
    if !json_is_object(s) {
        return None;
    }
    if !has_at(s, "/Header") {
        return None;
    }
    Some(BattleHeader {
        battle_id: get_i64_or_zero(s, "/Header/BattleID"),
        title: get_str_or_empty(s, "/Header/Title"),
        founder: get_str_or_empty(s, "/Header/Founder"),
        map: get_str_or_empty(s, "/Header/Map"),
        game: get_str_or_empty(s, "/Header/Game"),
        engine: get_str_or_empty(s, "/Header/Engine"),
        max_players: get_i32_or_zero(s, "/Header/MaxPlayers"),
        player_count: get_i32_or_zero(s, "/Header/PlayerCount"),
        spectator_count: get_i32_or_zero(s, "/Header/SpectatorCount"),
        is_running: get_bool_or_false(s, "/Header/IsRunning"),
        is_password_protected: get_bool_or_false(s, "/Header/IsPasswordProtected"),
        mode: get_str_at(s, "/Header/Mode"),
    })
}

/// What a `BattleRemovedData` payload decodes to, if anything.
pub open spec fn spec_decode_battle_removed(s: Seq<char>) -> Option<BattleRemovedDataV> {
    if !json_obj(s) {
        None
    } else if json_int(s, "/BattleID"@) is None {
        None
    } else {
        Some(BattleRemovedDataV {
            battle_id: json_int(s, "/BattleID"@)->Some_0,
        })
    }
}

/// Decode a `BattleRemovedData` payload.
pub fn decode_battle_removed(s: &str) -> (r: Option<BattleRemovedData>)
    ensures
        match r {
            Some(d) => spec_decode_battle_removed(s@) == Some(d@),
            None => spec_decode_battle_removed(s@) is None,
        },
{
    if !json_is_object(s) {
        return None;
    }
    let battle_id = match get_i64_at(s, "/BattleID") {
        Some(v) => v,
        None => { return None; },
    };
    Some(BattleRemovedData {
        battle_id,
    })
}

/// What a `ChannelUserAddedData` payload decodes to, if anything.
pub open spec fn spec_decode_channel_user_added(s: Seq<char>) -> Option<ChannelUserAddedDataV> {
    if !json_obj(s) {
        None
    } else if json_str(s, "/ChannelName"@) is None {
        None
    } else if json_str(s, "/UserName"@) is None {
        None
    } else {
        Some(ChannelUserAddedDataV {
            channel_name: json_str(s, "/ChannelName"@)->Some_0,
            user_name: json_str(s, "/UserName"@)->Some_0,
        })
    }
}

/// Decode a `ChannelUserAddedData` payload.
pub fn decode_channel_user_added(s: &str) -> (r: Option<ChannelUserAddedData>)
    ensures
        match r {
            Some(d) => spec_decode_channel_user_added(s@) == Some(d@),
            None => spec_decode_channel_user_added(s@) is None,
        },
{
    if !json_is_object(s) {
        return None;
    }
    let channel_name = match get_str_at(s, "/ChannelName") {
        Some(v) => v,
        None => { return None; },
    };
    let user_name = match get_str_at(s, "/UserName") {
        Some(v) => v,
        None => { return None; },
    };
    Some(ChannelUserAddedData {
        channel_name,
        user_name,
    })
}

/// What a `ChannelUserRemovedData` payload decodes to, if anything.
pub open spec fn spec_decode_channel_user_removed(s: Seq<char>) -> Option<ChannelUserRemovedDataV> {
    if !json_obj(s) {
        None
    } else if json_str(s, "/ChannelName"@) is None {
        None
    } else if json_str(s, "/UserName"@) is None {
        None
    } else {
        Some(ChannelUserRemovedDataV {
            channel_name: json_str(s, "/ChannelName"@)->Some_0,
            user_name: json_str(s, "/UserName"@)->Some_0,
        })
    }
}

/// Decode a `ChannelUserRemovedData` payload.
pub fn decode_channel_user_removed(s: &str) -> (r: Option<ChannelUserRemovedData>)
    ensures
        match r {
            Some(d) => spec_decode_channel_user_removed(s@) == Some(d@),
            None => spec_decode_channel_user_removed(s@) is None,
        },
{
    if !json_is_object(s) {
        return None;
    }
    let channel_name = match get_str_at(s, "/ChannelName") {
        Some(v) => v,
        None => { return None; },
    };
    let user_name = match get_str_at(s, "/UserName") {
        Some(v) => v,
        None => { return None; },
    };
    Some(ChannelUserRemovedData {
        channel_name,
        user_name,
    })
}

/// What a `ConnectSpringData` payload decodes to, if anything.
pub open spec fn spec_decode_connect_spring(s: Seq<char>) -> Option<ConnectSpringDataV> {
    if !json_obj(s) {
        None
    } else {
        Some(ConnectSpringDataV {
            engine: str_or_empty(json_str(s, "/Engine"@)),
            game: str_or_empty(json_str(s, "/Game"@)),
            ip: str_or_empty(json_str(s, "/Ip"@)),
            port: i32_or_zero(json_int(s, "/Port"@)),
            map: str_or_empty(json_str(s, "/Map"@)),
            script_password: str_or_empty(json_str(s, "/ScriptPassword"@)),
            mode: str_or_empty(json_str(s, "/Mode"@)),
            title: str_or_empty(json_str(s, "/Title"@)),
            is_spectator: bool_or_false(json_bool(s, "/IsSpectator"@)),
        })
    }
}

/// Decode a `ConnectSpringData` payload.
pub fn decode_connect_spring(s: &str) -> (r: Option<ConnectSpringData>)
    ensures
        match r {
            Some(d) => spec_decode_connect_spring(s@) == Some(d@),
            None => spec_decode_connect_spring(s@) is None,
        },
{
    if !json_is_object(s) {
        return None;
    }
    Some(ConnectSpringData {
        engine: get_str_or_empty(s, "/Engine"),
        game: get_str_or_empty(s, "/Game"),
        ip: get_str_or_empty(s, "/Ip"),
        port: get_i32_or_zero(s, "/Port"),
        map: get_str_or_empty(s, "/Map"),
        script_password: get_str_or_empty(s, "/ScriptPassword"),
        mode: get_str_or_empty(s, "/Mode"),
        title: get_str_or_empty(s, "/Title"),
        is_spectator: get_bool_or_false(s, "/IsSpectator"),
    })
}


/// What the `Channel` block of a join response decodes to.
pub open spec fn spec_decode_channel(s: Seq<char>) -> Option<ChannelDataV> {
    if !json_has(s, "/Channel"@) {
        None
    } else {
        Some(ChannelDataV {
            topic: if json_has(s, "/Channel/Topic"@) {
                Some(TopicDataV {
                    text: str_or_empty(json_str(s, "/Channel/Topic/Text"@)),
                    set_by: str_or_empty(json_str(s, "/Channel/Topic/SetBy"@)),
                })
            } else {
                None
            },
            users: match json_str_array(s, "/Channel/Users"@) {
                Some(u) => u,
                None => Seq::empty(),
            },
            is_deluge: bool_or_false(json_bool(s, "/Channel/IsDeluge"@)),
        })
    }
}

/// What a `JoinChannelResponseData` payload decodes to, if anything.
pub open spec fn spec_decode_join_channel_response(s: Seq<char>) -> Option<
    JoinChannelResponseDataV,
> {
    if !json_obj(s) {
        None
    } else if json_str(s, "/ChannelName"@) is None {
        None
    } else if json_bool(s, "/Success"@) is None {
        None
    } else {
        Some(JoinChannelResponseDataV {
            channel_name: json_str(s, "/ChannelName"@)->Some_0,
            success: json_bool(s, "/Success"@)->Some_0,
            reason: json_str(s, "/Reason"@),
            channel: spec_decode_channel(s),
        })
    }
}

fn decode_channel(s: &str) -> (r: Option<ChannelData>)
    ensures
        match r {
            Some(d) => spec_decode_channel(s@) == Some(d@),
            None => spec_decode_channel(s@) is None,
        },
{
    if !has_at(s, "/Channel") {
        return None;
    }
    let topic = if has_at(s, "/Channel/Topic") {
        Some(TopicData {
            text: get_str_or_empty(s, "/Channel/Topic/Text"),
            set_by: get_str_or_empty(s, "/Channel/Topic/SetBy"),
        })
    } else {
        None
    };
    let users = match get_str_array_at(s, "/Channel/Users") {
        Some(u) => u,
        None => Vec::new(),
    };
    proof {
        if json_str_array(s@, "/Channel/Users"@) is None {
            assert(users@.map_values(|u: String| u@) =~= Seq::<Seq<char>>::empty());
        }
    }
    Some(ChannelData { topic, users, is_deluge: get_bool_or_false(s, "/Channel/IsDeluge") })
}

/// Decode a `JoinChannelResponseData` payload.
pub fn decode_join_channel_response(s: &str) -> (r: Option<JoinChannelResponseData>)
    ensures
        match r {
            Some(d) => spec_decode_join_channel_response(s@) == Some(d@),
            None => spec_decode_join_channel_response(s@) is None,
        },
{
    if !json_is_object(s) {
        return None;
    }
    let channel_name = match get_str_at(s, "/ChannelName") {
        Some(v) => v,
        None => {
            return None;
        },
    };
    let success = match get_bool_at(s, "/Success") {
        Some(v) => v,
        None => {
            return None;
        },
    };
    Some(JoinChannelResponseData {
        channel_name,
        success,
        reason: get_str_at(s, "/Reason"),
        channel: decode_channel(s),
    })
}

/// Chat places.
pub const PLACE_CHANNEL: i32 = 0;

pub const PLACE_BATTLE: i32 = 1;

pub const PLACE_BATTLE_PRIVATE: i32 = 2;

pub const PLACE_MESSAGE_BOX: i32 = 3;

pub const PLACE_USER: i32 = 4;

pub const PLACE_SERVER: i32 = 5;

/// Registration result code for success.
pub const REGISTER_OK: i32 = 0;

/// Login result codes.
pub const LOGIN_OK: i32 = 0;

pub const LOGIN_INVALID_NAME: i32 = 1;

pub const LOGIN_INVALID_PASSWORD: i32 = 2;

pub const LOGIN_BANNED: i32 = 4;



/// A `BattleAdded` payload: the new battle's header.
pub struct BattleAddedData {
    pub header: BattleHeader,
}

/// A `BattleUpdate` payload: the changed battle's header.
pub struct BattleUpdateData {
    pub header: BattleHeader,
}

/// Decode a `BattleAddedData` payload.
pub fn decode_battle_added(s: &str) -> (r: Option<BattleAddedData>)
    ensures
        match r {
            Some(d) => spec_decode_battle_header(s@) == Some(d.header@),
            None => spec_decode_battle_header(s@) is None,
        },
{
    match decode_battle_header(s) {
        Some(h) => Some(BattleAddedData { header: h }),
        None => None,
    }
}

/// Decode a `BattleUpdateData` payload.
pub fn decode_battle_update(s: &str) -> (r: Option<BattleUpdateData>)
    ensures
        match r {
            Some(d) => spec_decode_battle_header(s@) == Some(d.header@),
            None => spec_decode_battle_header(s@) is None,
        },
{
    match decode_battle_header(s) {
        Some(h) => Some(BattleUpdateData { header: h }),
        None => None,
    }
}

// ── Client-to-server command records ──

/// The `Login` command body.
pub struct LoginCommand {
    pub name: String,
    pub password_hash: String,
    pub user_id: i64,
    pub install_id: i64,
    pub lobby_version: i64,
    pub steam_auth_token: String,
    pub dlc: String,
}

/// The wire fields of a `Login` command, PascalCase as the server
/// expects them.
pub open spec fn spec_login_command_fields(c: &LoginCommand) -> Seq<crate::json::JsonFieldV> {
    seq![
        crate::ipc::fld("Name"@, crate::json::JsonScalarV::Str(c.name@)),
        crate::ipc::fld("PasswordHash"@, crate::json::JsonScalarV::Str(c.password_hash@)),
        crate::ipc::fld("UserID"@, crate::json::JsonScalarV::Int(c.user_id as int)),
        crate::ipc::fld("InstallID"@, crate::json::JsonScalarV::Int(c.install_id as int)),
        crate::ipc::fld("LobbyVersion"@, crate::json::JsonScalarV::Int(c.lobby_version as int)),
        crate::ipc::fld("SteamAuthToken"@, crate::json::JsonScalarV::Str(c.steam_auth_token@)),
        crate::ipc::fld("Dlc"@, crate::json::JsonScalarV::Str(c.dlc@)),
    ]
}

/// Write a `Login` command as its JSON payload.
pub fn encode_login_command(c: &LoginCommand) -> (r: String)
    ensures
        r@ == crate::json::spec_enc_obj(spec_login_command_fields(c)),
{
    let mut fs: Vec<crate::json::JsonField> = Vec::new();
    crate::ipc::push_fld(&mut fs, "Name", crate::json::JsonScalar::Str(c.name.clone()));
    crate::ipc::push_fld(
        &mut fs,
        "PasswordHash",
        crate::json::JsonScalar::Str(c.password_hash.clone()),
    );
    crate::ipc::push_fld(&mut fs, "UserID", crate::json::JsonScalar::Int(c.user_id));
    crate::ipc::push_fld(&mut fs, "InstallID", crate::json::JsonScalar::Int(c.install_id));
    crate::ipc::push_fld(&mut fs, "LobbyVersion", crate::json::JsonScalar::Int(c.lobby_version));
    crate::ipc::push_fld(
        &mut fs,
        "SteamAuthToken",
        crate::json::JsonScalar::Str(c.steam_auth_token.clone()),
    );
    crate::ipc::push_fld(&mut fs, "Dlc", crate::json::JsonScalar::Str(c.dlc.clone()));
    proof {
        assert(crate::json::fields_view(fs@) =~= spec_login_command_fields(c));
    }
    crate::json::encode_object(&fs)
}

/// The `Say` command body.
pub struct SayCommand {
    pub place: i32,
    pub target: String,
    pub text: String,
    pub is_emote: bool,
}

/// The `JoinChannel` command body.
pub struct JoinChannelCommand {
    pub channel_name: String,
    pub password: String,
}

/// The `LeaveChannel` command body.
pub struct LeaveChannelCommand {
    pub channel_name: String,
}

/// The `JoinBattle` command body.
pub struct JoinBattleCommand {
    pub battle_id: i64,
    pub password: String,
}

/// The `LeaveBattle` command body.
pub struct LeaveBattleCommand {
    pub battle_id: Option<i64>,
}

/// The `Register` command body.
pub struct RegisterCommand {
    pub name: String,
    pub password_hash: String,
    pub email: String,
    pub user_id: i64,
    pub install_id: String,
    pub steam_auth_token: String,
    pub dlc: String,
}

// ── Matchmaker records ──

/// One matchmaker queue as the server advertises it.
pub struct QueueInfo {
    pub name: String,
    pub description: String,
    pub maps: Vec<String>,
    pub game: String,
    pub max_party_size: i32,
}

/// Sent on login: the queues a client may join.
pub struct MatchMakerSetupData {
    pub possible_queues: Vec<QueueInfo>,
}

/// Ask to join the named queues; an empty list leaves them all.
pub struct MatchMakerQueueRequestCommand {
    pub queues: Vec<String>,
}

/// A live matchmaker status update.
pub struct MatchMakerStatusData {
    pub joined_queues: Vec<String>,
    pub queue_counts: Vec<(String, i32)>,
    pub current_elo_width: Option<i32>,
    pub joined_time: Option<String>,
    pub banned_seconds: Option<i32>,
    pub instant_start_queues: Vec<String>,
    pub ingame_counts: Vec<(String, i32)>,
    pub user_count: i32,
    pub user_count_discord: i32,
}

/// Accept or decline a found match.
pub struct AreYouReadyResponseCommand {
    pub ready: bool,
}

/// Live readiness while a found match waits for everyone.
pub struct AreYouReadyUpdateData {
    pub ready_accepted: bool,
    pub likely_to_play: bool,
    pub queue_ready_counts: Vec<(String, i32)>,
    pub your_battle_size: Option<i32>,
    pub your_battle_ready: Option<i32>,
}

/// The final verdict of a ready check.
pub struct AreYouReadyResultData {
    pub is_battle_starting: bool,
    pub are_you_banned: bool,
}

/// What can go wrong on the lobby connection.
#[derive(Debug)]
pub enum LobbyError {
    /// An I/O failure, with its description.
    Io(String),
    /// The connection closed.
    Closed,
    /// The server refused the login.
    LoginFailed(String),
}

impl LobbyError {
    /// The error's text, as the connection reports it.
    pub fn describe(&self) -> (r: String)
        ensures
            match self {
                LobbyError::Io(m) => r@ == "IO error: "@ + m@,
                LobbyError::Closed => r@ == "Connection closed"@,
                LobbyError::LoginFailed(m) => r@ == "Login failed: "@ + m@,
            },
    {
        match self {
            LobbyError::Io(m) => {
                let mut t = to_owned_string("IO error: ");
                t.append(m.as_str());
                t
            },
            LobbyError::Closed => to_owned_string("Connection closed"),
            LobbyError::LoginFailed(m) => {
                let mut t = to_owned_string("Login failed: ");
                t.append(m.as_str());
                t
            },
        }
    }
}


} // verus!
