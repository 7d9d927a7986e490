//! The engine IPC command protocol: the typed commands the manager
//! sends to the in-engine plugin, their wire form (one flat JSON
//! object per line, discriminated by a `type` field), and the proof
//! that a written command reads back with identical field values.

use crate::json::{
    encode_object, field_lookup, fields_view, is_num_lit, parse_object, spec_enc_obj,
    spec_parse_object, wf_field, wf_fields, wf_str, JsonField, JsonFieldV, JsonScalar,
    JsonScalarV,
};
use crate::numfmt::spec_int_val;
use crate::text::{str_eq, to_owned_string};
use vstd::prelude::*;

verus! {

/// A JSON number carried by a command: a plain integer, or any other
/// numeric literal kept verbatim as text. Positions and speeds travel
/// this way, so no floating-point value is ever computed here.
#[derive(Debug)]
pub enum Number {
    Int(i64),
    Lit(String),
}

/// The mathematical model of a `Number`.
pub ghost enum NumberV {
    Int(int),
    Lit(Seq<char>),
}

impl View for Number {
    type V = NumberV;

    open spec fn view(&self) -> NumberV {
        match self {
            Number::Int(n) => NumberV::Int(*n as int),
            Number::Lit(t) => NumberV::Lit(t@),
        }
    }
}

pub open spec fn wf_number(n: NumberV) -> bool {
    match n {
        NumberV::Int(v) => i64::MIN <= v <= i64::MAX,
        NumberV::Lit(t) => is_num_lit(t) && spec_int_val(t) is None,
    }
}

/// A command sent from the manager to the plugin.
#[derive(Debug)]
pub enum GameCommand {
    Move { unit_id: i32, x: Number, y: Number, z: Number, queue: bool },
    Stop { unit_id: i32 },
    Attack { unit_id: i32, target_id: i32, queue: bool },
    Build {
        unit_id: i32,
        build_def_id: i32,
        x: Number,
        y: Number,
        z: Number,
        facing: i32,
        queue: bool,
    },
    Patrol { unit_id: i32, x: Number, y: Number, z: Number, queue: bool },
    Fight { unit_id: i32, x: Number, y: Number, z: Number, queue: bool },
    Guard { unit_id: i32, guard_id: i32, queue: bool },
    Repair { unit_id: i32, repair_id: i32, queue: bool },
    SetFireState { unit_id: i32, state: i32 },
    SetMoveState { unit_id: i32, state: i32 },
    SendChat { text: String },
    Pause,
    Unpause,
    SetSpeed { speed: Number },
}

/// The manager-side name for the same wire commands.
pub type SaiCommand = GameCommand;

/// The mathematical model of a command.
pub ghost enum GameCommandV {
    Move { unit_id: int, x: NumberV, y: NumberV, z: NumberV, queue: bool },
    Stop { unit_id: int },
    Attack { unit_id: int, target_id: int, queue: bool },
    Build {
        unit_id: int,
        build_def_id: int,
        x: NumberV,
        y: NumberV,
        z: NumberV,
        facing: int,
        queue: bool,
    },
    Patrol { unit_id: int, x: NumberV, y: NumberV, z: NumberV, queue: bool },
    Fight { unit_id: int, x: NumberV, y: NumberV, z: NumberV, queue: bool },
    Guard { unit_id: int, guard_id: int, queue: bool },
    Repair { unit_id: int, repair_id: int, queue: bool },
    SetFireState { unit_id: int, state: int },
    SetMoveState { unit_id: int, state: int },
    SendChat { text: Seq<char> },
    Pause,
    Unpause,
    SetSpeed { speed: NumberV },
}

impl View for GameCommand {
    type V = GameCommandV;

    open spec fn view(&self) -> GameCommandV {
        match self {
            GameCommand::Move { unit_id, x, y, z, queue } => GameCommandV::Move {
                unit_id: *unit_id as int,
                x: x@,
                y: y@,
                z: z@,
                queue: *queue,
            },
            GameCommand::Stop { unit_id } => GameCommandV::Stop { unit_id: *unit_id as int },
            GameCommand::Attack { unit_id, target_id, queue } => GameCommandV::Attack {
                unit_id: *unit_id as int,
                target_id: *target_id as int,
                queue: *queue,
            },
            GameCommand::Build { unit_id, build_def_id, x, y, z, facing, queue } => {
                GameCommandV::Build {
                    unit_id: *unit_id as int,
                    build_def_id: *build_def_id as int,
                    x: x@,
                    y: y@,
                    z: z@,
                    facing: *facing as int,
                    queue: *queue,
                }
            },
            GameCommand::Patrol { unit_id, x, y, z, queue } => GameCommandV::Patrol {
                unit_id: *unit_id as int,
                x: x@,
                y: y@,
                z: z@,
                queue: *queue,
            },
            GameCommand::Fight { unit_id, x, y, z, queue } => GameCommandV::Fight {
                unit_id: *unit_id as int,
                x: x@,
                y: y@,
                z: z@,
                queue: *queue,
            },
            GameCommand::Guard { unit_id, guard_id, queue } => GameCommandV::Guard {
                unit_id: *unit_id as int,
                guard_id: *guard_id as int,
                queue: *queue,
            },
            GameCommand::Repair { unit_id, repair_id, queue } => GameCommandV::Repair {
                unit_id: *unit_id as int,
                repair_id: *repair_id as int,
                queue: *queue,
            },
            GameCommand::SetFireState { unit_id, state } => GameCommandV::SetFireState {
                unit_id: *unit_id as int,
                state: *state as int,
            },
            GameCommand::SetMoveState { unit_id, state } => GameCommandV::SetMoveState {
                unit_id: *unit_id as int,
                state: *state as int,
            },
            GameCommand::SendChat { text } => GameCommandV::SendChat { text: text@ },
            GameCommand::Pause => GameCommandV::Pause,
            GameCommand::Unpause => GameCommandV::Unpause,
            GameCommand::SetSpeed { speed } => GameCommandV::SetSpeed { speed: speed@ },
        }
    }
}

pub open spec fn in_i32(v: int) -> bool {
    i32::MIN <= v <= i32::MAX
}

/// A command as an executable value holds it: 32-bit integer fields,
/// well-formed numeric literals and strings.
pub open spec fn wf_command(c: GameCommandV) -> bool {
    match c {
        GameCommandV::Move { unit_id, x, y, z, .. } => in_i32(unit_id) && wf_number(x) && wf_number(
            y,
        ) && wf_number(z),
        GameCommandV::Stop { unit_id } => in_i32(unit_id),
        GameCommandV::Attack { unit_id, target_id, .. } => in_i32(unit_id) && in_i32(target_id),
        GameCommandV::Build { unit_id, build_def_id, x, y, z, facing, .. } => in_i32(unit_id)
            && in_i32(build_def_id) && wf_number(x) && wf_number(y) && wf_number(z) && in_i32(
            facing,
        ),
        GameCommandV::Patrol { unit_id, x, y, z, .. } => in_i32(unit_id) && wf_number(x)
            && wf_number(y) && wf_number(z),
        GameCommandV::Fight { unit_id, x, y, z, .. } => in_i32(unit_id) && wf_number(x)
            && wf_number(y) && wf_number(z),
        GameCommandV::Guard { unit_id, guard_id, .. } => in_i32(unit_id) && in_i32(guard_id),
        GameCommandV::Repair { unit_id, repair_id, .. } => in_i32(unit_id) && in_i32(repair_id),
        GameCommandV::SetFireState { unit_id, state } => in_i32(unit_id) && in_i32(state),
        GameCommandV::SetMoveState { unit_id, state } => in_i32(unit_id) && in_i32(state),
        GameCommandV::SendChat { text } => wf_str(text),
        GameCommandV::SetSpeed { speed } => wf_number(speed),
        GameCommandV::Pause => true,
        GameCommandV::Unpause => true,
    }
}

/// The model of any executable command with well-formed numbers and
/// strings is well formed.
pub proof fn lemma_exec_command_wf(c: &GameCommand)
    requires
        match c {
            GameCommand::Move { x, y, z, .. } => wf_number(x@) && wf_number(y@) && wf_number(z@),
            GameCommand::Build { x, y, z, .. } => wf_number(x@) && wf_number(y@) && wf_number(z@),
            GameCommand::Patrol { x, y, z, .. } => wf_number(x@) && wf_number(y@) && wf_number(z@),
            GameCommand::Fight { x, y, z, .. } => wf_number(x@) && wf_number(y@) && wf_number(z@),
            GameCommand::SendChat { text } => wf_str(text@),
            GameCommand::SetSpeed { speed } => wf_number(speed@),
            _ => true,
        },
    ensures
        wf_command(c@),
{
}

// ── The wire form ──

pub open spec fn num_scalar(n: NumberV) -> JsonScalarV {
    match n {
        NumberV::Int(v) => JsonScalarV::Int(v),
        NumberV::Lit(t) => JsonScalarV::Num(t),
    }
}

pub open spec fn fld(key: Seq<char>, value: JsonScalarV) -> JsonFieldV {
    JsonFieldV { key, value }
}

/// The field list a command is written as, tag first, then the fields
/// in their declared order.
pub open spec fn cmd_fields(c: GameCommandV) -> Seq<JsonFieldV> {
    match c {
        GameCommandV::Move { unit_id, x, y, z, queue } => seq![
            fld("type"@, JsonScalarV::Str("move"@)),
            fld("unit_id"@, JsonScalarV::Int(unit_id)),
            fld("x"@, num_scalar(x)),
            fld("y"@, num_scalar(y)),
            fld("z"@, num_scalar(z)),
            fld("queue"@, JsonScalarV::Bool(queue)),
        ],
        GameCommandV::Stop { unit_id } => seq![
            fld("type"@, JsonScalarV::Str("stop"@)),
            fld("unit_id"@, JsonScalarV::Int(unit_id)),
        ],
        GameCommandV::Attack { unit_id, target_id, queue } => seq![
            fld("type"@, JsonScalarV::Str("attack"@)),
            fld("unit_id"@, JsonScalarV::Int(unit_id)),
            fld("target_id"@, JsonScalarV::Int(target_id)),
            fld("queue"@, JsonScalarV::Bool(queue)),
        ],
        GameCommandV::Build { unit_id, build_def_id, x, y, z, facing, queue } => seq![
            fld("type"@, JsonScalarV::Str("build"@)),
            fld("unit_id"@, JsonScalarV::Int(unit_id)),
            fld("build_def_id"@, JsonScalarV::Int(build_def_id)),
            fld("x"@, num_scalar(x)),
            fld("y"@, num_scalar(y)),
            fld("z"@, num_scalar(z)),
            fld("facing"@, JsonScalarV::Int(facing)),
            fld("queue"@, JsonScalarV::Bool(queue)),
        ],
        GameCommandV::Patrol { unit_id, x, y, z, queue } => seq![
            fld("type"@, JsonScalarV::Str("patrol"@)),
            fld("unit_id"@, JsonScalarV::Int(unit_id)),
            fld("x"@, num_scalar(x)),
            fld("y"@, num_scalar(y)),
            fld("z"@, num_scalar(z)),
            fld("queue"@, JsonScalarV::Bool(queue)),
        ],
        GameCommandV::Fight { unit_id, x, y, z, queue } => seq![
            fld("type"@, JsonScalarV::Str("fight"@)),
            fld("unit_id"@, JsonScalarV::Int(unit_id)),
            fld("x"@, num_scalar(x)),
            fld("y"@, num_scalar(y)),
            fld("z"@, num_scalar(z)),
            fld("queue"@, JsonScalarV::Bool(queue)),
        ],
        GameCommandV::Guard { unit_id, guard_id, queue } => seq![
            fld("type"@, JsonScalarV::Str("guard"@)),
            fld("unit_id"@, JsonScalarV::Int(unit_id)),
            fld("guard_id"@, JsonScalarV::Int(guard_id)),
            fld("queue"@, JsonScalarV::Bool(queue)),
        ],
        GameCommandV::Repair { unit_id, repair_id, queue } => seq![
            fld("type"@, JsonScalarV::Str("repair"@)),
            fld("unit_id"@, JsonScalarV::Int(unit_id)),
            fld("repair_id"@, JsonScalarV::Int(repair_id)),
            fld("queue"@, JsonScalarV::Bool(queue)),
        ],
        GameCommandV::SetFireState { unit_id, state } => seq![
            fld("type"@, JsonScalarV::Str("set_fire_state"@)),
            fld("unit_id"@, JsonScalarV::Int(unit_id)),
            fld("state"@, JsonScalarV::Int(state)),
        ],
        GameCommandV::SetMoveState { unit_id, state } => seq![
            fld("type"@, JsonScalarV::Str("set_move_state"@)),
            fld("unit_id"@, JsonScalarV::Int(unit_id)),
            fld("state"@, JsonScalarV::Int(state)),
        ],
        GameCommandV::SendChat { text } => seq![
            fld("type"@, JsonScalarV::Str("send_chat"@)),
            fld("text"@, JsonScalarV::Str(text)),
        ],
        GameCommandV::Pause => seq![fld("type"@, JsonScalarV::Str("pause"@))],
        GameCommandV::Unpause => seq![fld("type"@, JsonScalarV::Str("unpause"@))],
        GameCommandV::SetSpeed { speed } => seq![
            fld("type"@, JsonScalarV::Str("set_speed"@)),
            fld("speed"@, num_scalar(speed)),
        ],
    }
}

// ── Reading a command from parsed fields ──

/// An `i32` field: present, integral, and in range, as the plugin
/// expects its 32-bit fields.
pub open spec fn get_i32(fs: Seq<JsonFieldV>, key: Seq<char>) -> Option<int> {
    match field_lookup(fs, key) {
        Some(JsonScalarV::Int(n)) => if i32::MIN <= n <= i32::MAX {
            Some(n)
        } else {
            None
        },
        _ => None,
    }
}

/// A numeric field: an integer or any other numeric literal.
pub open spec fn get_num(fs: Seq<JsonFieldV>, key: Seq<char>) -> Option<NumberV> {
    match field_lookup(fs, key) {
        Some(JsonScalarV::Int(n)) => Some(NumberV::Int(n)),
        Some(JsonScalarV::Num(t)) => Some(NumberV::Lit(t)),
        _ => None,
    }
}

/// A boolean field, absent meaning false.
pub open spec fn get_queue(fs: Seq<JsonFieldV>, key: Seq<char>) -> Option<bool> {
    match field_lookup(fs, key) {
        Some(JsonScalarV::Bool(b)) => Some(b),
        None => Some(false),
        _ => None,
    }
}

pub open spec fn get_str(fs: Seq<JsonFieldV>, key: Seq<char>) -> Option<Seq<char>> {
    match field_lookup(fs, key) {
        Some(JsonScalarV::Str(t)) => Some(t),
        _ => None,
    }
}

/// Per-tag readers. Each is opaque so that reasoning about one tag
/// does not drag the others' field reads into scope.

#[verifier::opaque]
pub open spec fn move_of_fields(fs: Seq<JsonFieldV>) -> Option<GameCommandV> {
    match (get_i32(fs, "unit_id"@), get_num(fs, "x"@), get_num(fs, "y"@), get_num(fs, "z"@),
    get_queue(fs, "queue"@)) {
        (Some(u), Some(x), Some(y), Some(z), Some(q)) => Some(
            GameCommandV::Move { unit_id: u, x, y, z, queue: q },
        ),
        _ => None,
    }
}

#[verifier::opaque]
pub open spec fn stop_of_fields(fs: Seq<JsonFieldV>) -> Option<GameCommandV> {
    match get_i32(fs, "unit_id"@) {
        Some(u) => Some(GameCommandV::Stop { unit_id: u }),
        _ => None,
    }
}

#[verifier::opaque]
pub open spec fn attack_of_fields(fs: Seq<JsonFieldV>) -> Option<GameCommandV> {
    match (get_i32(fs, "unit_id"@), get_i32(fs, "target_id"@), get_queue(fs, "queue"@)) {
        (Some(u), Some(t), Some(q)) => Some(
            GameCommandV::Attack { unit_id: u, target_id: t, queue: q },
        ),
        _ => None,
    }
}

#[verifier::opaque]
pub open spec fn build_of_fields(fs: Seq<JsonFieldV>) -> Option<GameCommandV> {
    match (get_i32(fs, "unit_id"@), get_i32(fs, "build_def_id"@), get_num(fs, "x"@), get_num(
        fs,
        "y"@,
    ), get_num(fs, "z"@), get_i32(fs, "facing"@), get_queue(fs, "queue"@)) {
        (Some(u), Some(b), Some(x), Some(y), Some(z), Some(fc), Some(q)) => Some(
            GameCommandV::Build { unit_id: u, build_def_id: b, x, y, z, facing: fc, queue: q },
        ),
        _ => None,
    }
}

#[verifier::opaque]
pub open spec fn patrol_of_fields(fs: Seq<JsonFieldV>) -> Option<GameCommandV> {
    match (get_i32(fs, "unit_id"@), get_num(fs, "x"@), get_num(fs, "y"@), get_num(fs, "z"@),
    get_queue(fs, "queue"@)) {
        (Some(u), Some(x), Some(y), Some(z), Some(q)) => Some(
            GameCommandV::Patrol { unit_id: u, x, y, z, queue: q },
        ),
        _ => None,
    }
}

#[verifier::opaque]
pub open spec fn fight_of_fields(fs: Seq<JsonFieldV>) -> Option<GameCommandV> {
    match (get_i32(fs, "unit_id"@), get_num(fs, "x"@), get_num(fs, "y"@), get_num(fs, "z"@),
    get_queue(fs, "queue"@)) {
        (Some(u), Some(x), Some(y), Some(z), Some(q)) => Some(
            GameCommandV::Fight { unit_id: u, x, y, z, queue: q },
        ),
        _ => None,
    }
}

#[verifier::opaque]
pub open spec fn guard_of_fields(fs: Seq<JsonFieldV>) -> Option<GameCommandV> {
    match (get_i32(fs, "unit_id"@), get_i32(fs, "guard_id"@), get_queue(fs, "queue"@)) {
        (Some(u), Some(g), Some(q)) => Some(
            GameCommandV::Guard { unit_id: u, guard_id: g, queue: q },
        ),
        _ => None,
    }
}

#[verifier::opaque]
pub open spec fn repair_of_fields(fs: Seq<JsonFieldV>) -> Option<GameCommandV> {
    match (get_i32(fs, "unit_id"@), get_i32(fs, "repair_id"@), get_queue(fs, "queue"@)) {
        (Some(u), Some(rp), Some(q)) => Some(
            GameCommandV::Repair { unit_id: u, repair_id: rp, queue: q },
        ),
        _ => None,
    }
}

#[verifier::opaque]
pub open spec fn set_fire_state_of_fields(fs: Seq<JsonFieldV>) -> Option<GameCommandV> {
    match (get_i32(fs, "unit_id"@), get_i32(fs, "state"@)) {
        (Some(u), Some(st)) => Some(GameCommandV::SetFireState { unit_id: u, state: st }),
        _ => None,
    }
}

#[verifier::opaque]
pub open spec fn set_move_state_of_fields(fs: Seq<JsonFieldV>) -> Option<GameCommandV> {
    match (get_i32(fs, "unit_id"@), get_i32(fs, "state"@)) {
        (Some(u), Some(st)) => Some(GameCommandV::SetMoveState { unit_id: u, state: st }),
        _ => None,
    }
}

#[verifier::opaque]
pub open spec fn send_chat_of_fields(fs: Seq<JsonFieldV>) -> Option<GameCommandV> {
    match get_str(fs, "text"@) {
        Some(t) => Some(GameCommandV::SendChat { text: t }),
        _ => None,
    }
}

#[verifier::opaque]
pub open spec fn set_speed_of_fields(fs: Seq<JsonFieldV>) -> Option<GameCommandV> {
    match get_num(fs, "speed"@) {
        Some(sp) => Some(GameCommandV::SetSpeed { speed: sp }),
        _ => None,
    }
}

/// The command a field list denotes, if any: dispatch on the `type`
/// tag, then read each field by name, ignoring unknown fields.
pub open spec fn cmd_of_fields(fs: Seq<JsonFieldV>) -> Option<GameCommandV> {
    match get_str(fs, "type"@) {
        None => None,
        Some(tag) => {
            if tag == "move"@ {
                move_of_fields(fs)
            } else if tag == "stop"@ {
                stop_of_fields(fs)
            } else if tag == "attack"@ {
                attack_of_fields(fs)
            } else if tag == "build"@ {
                build_of_fields(fs)
            } else if tag == "patrol"@ {
                patrol_of_fields(fs)
            } else if tag == "fight"@ {
                fight_of_fields(fs)
            } else if tag == "guard"@ {
                guard_of_fields(fs)
            } else if tag == "repair"@ {
                repair_of_fields(fs)
            } else if tag == "set_fire_state"@ {
                set_fire_state_of_fields(fs)
            } else if tag == "set_move_state"@ {
                set_move_state_of_fields(fs)
            } else if tag == "send_chat"@ {
                send_chat_of_fields(fs)
            } else if tag == "pause"@ {
                Some(GameCommandV::Pause)
            } else if tag == "unpause"@ {
                Some(GameCommandV::Unpause)
            } else if tag == "set_speed"@ {
                set_speed_of_fields(fs)
            } else {
                None
            }
        },
    }
}

/// What a whole command line means.
pub open spec fn spec_parse_command(s: Seq<char>) -> Option<GameCommandV> {
    match spec_parse_object(s) {
        Some(fs) => cmd_of_fields(fs),
        None => None,
    }
}

// ── Writing a command ──

pub(crate) fn num_to_scalar(n: &Number) -> (r: JsonScalar)
    ensures
        r@ == num_scalar(n@),
{
    match n {
        Number::Int(v) => JsonScalar::Int(*v),
        Number::Lit(t) => JsonScalar::Num(t.clone()),
    }
}

pub(crate) fn push_fld(fs: &mut Vec<JsonField>, key: &str, value: JsonScalar)
    ensures
        fields_view(final(fs)@) == fields_view(old(fs)@) + seq![fld(key@, value@)],
{
    let ghost v0 = value@;
    fs.push(JsonField { key: to_owned_string(key), value });
    proof {
        assert(fields_view(fs@) =~= fields_view(old(fs)@) + seq![fld(key@, v0)]);
    }
}

/// Write a command as one JSON object, its `type` tag first.
pub fn encode_command(c: &GameCommand) -> (r: String)
    ensures
        r@ == spec_enc_obj(cmd_fields(c@)),
{
    let mut fs: Vec<JsonField> = Vec::new();
    match c {
        GameCommand::Move { unit_id, x, y, z, queue } => {
            push_fld(&mut fs, "type", JsonScalar::Str(to_owned_string("move")));
            push_fld(&mut fs, "unit_id", JsonScalar::Int(*unit_id as i64));
            push_fld(&mut fs, "x", num_to_scalar(x));
            push_fld(&mut fs, "y", num_to_scalar(y));
            push_fld(&mut fs, "z", num_to_scalar(z));
            push_fld(&mut fs, "queue", JsonScalar::Bool(*queue));
        },
        GameCommand::Stop { unit_id } => {
            push_fld(&mut fs, "type", JsonScalar::Str(to_owned_string("stop")));
            push_fld(&mut fs, "unit_id", JsonScalar::Int(*unit_id as i64));
        },
        GameCommand::Attack { unit_id, target_id, queue } => {
            push_fld(&mut fs, "type", JsonScalar::Str(to_owned_string("attack")));
            push_fld(&mut fs, "unit_id", JsonScalar::Int(*unit_id as i64));
            push_fld(&mut fs, "target_id", JsonScalar::Int(*target_id as i64));
            push_fld(&mut fs, "queue", JsonScalar::Bool(*queue));
        },
        GameCommand::Build { unit_id, build_def_id, x, y, z, facing, queue } => {
            push_fld(&mut fs, "type", JsonScalar::Str(to_owned_string("build")));
            push_fld(&mut fs, "unit_id", JsonScalar::Int(*unit_id as i64));
            push_fld(&mut fs, "build_def_id", JsonScalar::Int(*build_def_id as i64));
            push_fld(&mut fs, "x", num_to_scalar(x));
            push_fld(&mut fs, "y", num_to_scalar(y));
            push_fld(&mut fs, "z", num_to_scalar(z));
            push_fld(&mut fs, "facing", JsonScalar::Int(*facing as i64));
            push_fld(&mut fs, "queue", JsonScalar::Bool(*queue));
        },
        GameCommand::Patrol { unit_id, x, y, z, queue } => {
            push_fld(&mut fs, "type", JsonScalar::Str(to_owned_string("patrol")));
            push_fld(&mut fs, "unit_id", JsonScalar::Int(*unit_id as i64));
            push_fld(&mut fs, "x", num_to_scalar(x));
            push_fld(&mut fs, "y", num_to_scalar(y));
            push_fld(&mut fs, "z", num_to_scalar(z));
            push_fld(&mut fs, "queue", JsonScalar::Bool(*queue));
        },
        GameCommand::Fight { unit_id, x, y, z, queue } => {
            push_fld(&mut fs, "type", JsonScalar::Str(to_owned_string("fight")));
            push_fld(&mut fs, "unit_id", JsonScalar::Int(*unit_id as i64));
            push_fld(&mut fs, "x", num_to_scalar(x));
            push_fld(&mut fs, "y", num_to_scalar(y));
            push_fld(&mut fs, "z", num_to_scalar(z));
            push_fld(&mut fs, "queue", JsonScalar::Bool(*queue));
        },
        GameCommand::Guard { unit_id, guard_id, queue } => {
            push_fld(&mut fs, "type", JsonScalar::Str(to_owned_string("guard")));
            push_fld(&mut fs, "unit_id", JsonScalar::Int(*unit_id as i64));
            push_fld(&mut fs, "guard_id", JsonScalar::Int(*guard_id as i64));
            push_fld(&mut fs, "queue", JsonScalar::Bool(*queue));
        },
        GameCommand::Repair { unit_id, repair_id, queue } => {
            push_fld(&mut fs, "type", JsonScalar::Str(to_owned_string("repair")));
            push_fld(&mut fs, "unit_id", JsonScalar::Int(*unit_id as i64));
            push_fld(&mut fs, "repair_id", JsonScalar::Int(*repair_id as i64));
            push_fld(&mut fs, "queue", JsonScalar::Bool(*queue));
        },
        GameCommand::SetFireState { unit_id, state } => {
            push_fld(&mut fs, "type", JsonScalar::Str(to_owned_string("set_fire_state")));
            push_fld(&mut fs, "unit_id", JsonScalar::Int(*unit_id as i64));
            push_fld(&mut fs, "state", JsonScalar::Int(*state as i64));
        },
        GameCommand::SetMoveState { unit_id, state } => {
            push_fld(&mut fs, "type", JsonScalar::Str(to_owned_string("set_move_state")));
            push_fld(&mut fs, "unit_id", JsonScalar::Int(*unit_id as i64));
            push_fld(&mut fs, "state", JsonScalar::Int(*state as i64));
        },
        GameCommand::SendChat { text } => {
            push_fld(&mut fs, "type", JsonScalar::Str(to_owned_string("send_chat")));
            push_fld(&mut fs, "text", JsonScalar::Str(text.clone()));
        },
        GameCommand::Pause => {
            push_fld(&mut fs, "type", JsonScalar::Str(to_owned_string("pause")));
        },
        GameCommand::Unpause => {
            push_fld(&mut fs, "type", JsonScalar::Str(to_owned_string("unpause")));
        },
        GameCommand::SetSpeed { speed } => {
            push_fld(&mut fs, "type", JsonScalar::Str(to_owned_string("set_speed")));
            push_fld(&mut fs, "speed", num_to_scalar(speed));
        },
    }
    proof {
        assert(fields_view(fs@) =~= cmd_fields(c@));
    }
    encode_object(&fs)
}

// ── Reading a command ──

fn scalar_dup(v: &JsonScalar) -> (r: JsonScalar)
    ensures
        r@ == v@,
{
    match v {
        JsonScalar::Int(n) => JsonScalar::Int(*n),
        JsonScalar::Num(t) => JsonScalar::Num(t.clone()),
        JsonScalar::Str(t) => JsonScalar::Str(t.clone()),
        JsonScalar::Bool(b) => JsonScalar::Bool(*b),
    }
}

fn lookup_scalar(fs: &Vec<JsonField>, key: &str) -> (r: Option<JsonScalar>)
    ensures
        match r {
            Some(v) => field_lookup(fields_view(fs@), key@) == Some(v@),
            None => field_lookup(fields_view(fs@), key@) is None,
        },
{
    let ghost fv = fields_view(fs@);
    let n = fs.len();
    let mut i: usize = 0;
    proof {
        assert(fv.skip(0) =~= fv);
    }
    while i < n
        invariant
            n == fs.len(),
            i <= n,
            fv == fields_view(fs@),
            fv.len() == n,
            field_lookup(fv, key@) == field_lookup(fv.skip(i as int), key@),
        decreases n - i,
    {
        if str_eq(fs[i].key.as_str(), key) {
            proof {
                assert(fv.skip(i as int)[0] == fv[i as int]);
            }
            return Some(scalar_dup(&fs[i].value));
        }
        proof {
            assert(fv.skip(i as int)[0] == fv[i as int]);
            assert(fv.skip(i as int).drop_first() =~= fv.skip(i + 1));
        }
        i += 1;
    }
    proof {
        assert(fv.skip(n as int).len() == 0);
    }
    None
}

fn lookup_i32(fs: &Vec<JsonField>, key: &str) -> (r: Option<i32>)
    ensures
        match r {
            Some(v) => get_i32(fields_view(fs@), key@) == Some(v as int),
            None => get_i32(fields_view(fs@), key@) is None,
        },
{
    match lookup_scalar(fs, key) {
        Some(JsonScalar::Int(n)) => {
            if -2147483648i64 <= n && n <= 2147483647i64 {
                Some(n as i32)
            } else {
                None
            }
        },
        _ => None,
    }
}

fn lookup_num(fs: &Vec<JsonField>, key: &str) -> (r: Option<Number>)
    ensures
        match r {
            Some(v) => get_num(fields_view(fs@), key@) == Some(v@),
            None => get_num(fields_view(fs@), key@) is None,
        },
{
    match lookup_scalar(fs, key) {
        Some(JsonScalar::Int(n)) => Some(Number::Int(n)),
        Some(JsonScalar::Num(t)) => Some(Number::Lit(t)),
        _ => None,
    }
}

fn lookup_queue(fs: &Vec<JsonField>, key: &str) -> (r: Option<bool>)
    ensures
        match r {
            Some(v) => get_queue(fields_view(fs@), key@) == Some(v),
            None => get_queue(fields_view(fs@), key@) is None,
        },
{
    match lookup_scalar(fs, key) {
        Some(JsonScalar::Bool(b)) => Some(b),
        Some(_) => None,
        None => Some(false),
    }
}

fn lookup_str(fs: &Vec<JsonField>, key: &str) -> (r: Option<String>)
    ensures
        match r {
            Some(v) => get_str(fields_view(fs@), key@) == Some(v@),
            None => get_str(fields_view(fs@), key@) is None,
        },
{
    match lookup_scalar(fs, key) {
        Some(JsonScalar::Str(t)) => Some(t),
        _ => None,
    }
}

/// Read a command from one line of the wire.
pub fn parse_command(line: &str) -> (r: Option<GameCommand>)
    ensures
        match r {
            Some(c) => spec_parse_command(line@) == Some(c@),
            None => spec_parse_command(line@) is None,
        },
{
    proof {
        reveal(move_of_fields);
        reveal(stop_of_fields);
        reveal(attack_of_fields);
        reveal(build_of_fields);
        reveal(patrol_of_fields);
        reveal(fight_of_fields);
        reveal(guard_of_fields);
        reveal(repair_of_fields);
        reveal(set_fire_state_of_fields);
        reveal(set_move_state_of_fields);
        reveal(send_chat_of_fields);
        reveal(set_speed_of_fields);
    }
    let fs = match parse_object(line) {
        Some(fs) => fs,
        None => {
            return None;
        },
    };
    let tag = match lookup_str(&fs, "type") {
        Some(t) => t,
        None => {
            return None;
        },
    };
    if str_eq(tag.as_str(), "move") {
        let unit_id = match lookup_i32(&fs, "unit_id") {
            Some(v) => v,
            None => {
                return None;
            },
        };
        let x = match lookup_num(&fs, "x") {
            Some(v) => v,
            None => {
                return None;
            },
        };
        let y = match lookup_num(&fs, "y") {
            Some(v) => v,
            None => {
                return None;
            },
        };
        let z = match lookup_num(&fs, "z") {
            Some(v) => v,
            None => {
                return None;
            },
        };
        let queue = match lookup_queue(&fs, "queue") {
            Some(v) => v,
            None => {
                return None;
            },
        };
        Some(GameCommand::Move { unit_id, x, y, z, queue })
    } else if str_eq(tag.as_str(), "stop") {
        let unit_id = match lookup_i32(&fs, "unit_id") {
            Some(v) => v,
            None => {
                return None;
            },
        };
        Some(GameCommand::Stop { unit_id })
    } else if str_eq(tag.as_str(), "attack") {
        let unit_id = match lookup_i32(&fs, "unit_id") {
            Some(v) => v,
            None => {
                return None;
            },
        };
        let target_id = match lookup_i32(&fs, "target_id") {
            Some(v) => v,
            None => {
                return None;
            },
        };
        let queue = match lookup_queue(&fs, "queue") {
            Some(v) => v,
            None => {
                return None;
            },
        };
        Some(GameCommand::Attack { unit_id, target_id, queue })
    } else if str_eq(tag.as_str(), "build") {
        let unit_id = match lookup_i32(&fs, "unit_id") {
            Some(v) => v,
            None => {
                return None;
            },
        };
        let build_def_id = match lookup_i32(&fs, "build_def_id") {
            Some(v) => v,
            None => {
                return None;
            },
        };
        let x = match lookup_num(&fs, "x") {
            Some(v) => v,
            None => {
                return None;
            },
        };
        let y = match lookup_num(&fs, "y") {
            Some(v) => v,
            None => {
                return None;
            },
        };
        let z = match lookup_num(&fs, "z") {
            Some(v) => v,
            None => {
                return None;
            },
        };
        let facing = match lookup_i32(&fs, "facing") {
            Some(v) => v,
            None => {
                return None;
            },
        };
        let queue = match lookup_queue(&fs, "queue") {
            Some(v) => v,
            None => {
                return None;
            },
        };
        Some(GameCommand::Build { unit_id, build_def_id, x, y, z, facing, queue })
    } else if str_eq(tag.as_str(), "patrol") {
        let unit_id = match lookup_i32(&fs, "unit_id") {
            Some(v) => v,
            None => {
                return None;
            },
        };
        let x = match lookup_num(&fs, "x") {
            Some(v) => v,
            None => {
                return None;
            },
        };
        let y = match lookup_num(&fs, "y") {
            Some(v) => v,
            None => {
                return None;
            },
        };
        let z = match lookup_num(&fs, "z") {
            Some(v) => v,
            None => {
                return None;
            },
        };
        let queue = match lookup_queue(&fs, "queue") {
            Some(v) => v,
            None => {
                return None;
            },
        };
        Some(GameCommand::Patrol { unit_id, x, y, z, queue })
    } else if str_eq(tag.as_str(), "fight") {
        let unit_id = match lookup_i32(&fs, "unit_id") {
            Some(v) => v,
            None => {
                return None;
            },
        };
        let x = match lookup_num(&fs, "x") {
            Some(v) => v,
            None => {
                return None;
            },
        };
        let y = match lookup_num(&fs, "y") {
            Some(v) => v,
            None => {
                return None;
            },
        };
        let z = match lookup_num(&fs, "z") {
            Some(v) => v,
            None => {
                return None;
            },
        };
        let queue = match lookup_queue(&fs, "queue") {
            Some(v) => v,
            None => {
                return None;
            },
        };
        Some(GameCommand::Fight { unit_id, x, y, z, queue })
    } else if str_eq(tag.as_str(), "guard") {
        let unit_id = match lookup_i32(&fs, "unit_id") {
            Some(v) => v,
            None => {
                return None;
            },
        };
        let guard_id = match lookup_i32(&fs, "guard_id") {
            Some(v) => v,
            None => {
                return None;
            },
        };
        let queue = match lookup_queue(&fs, "queue") {
            Some(v) => v,
            None => {
                return None;
            },
        };
        Some(GameCommand::Guard { unit_id, guard_id, queue })
    } else if str_eq(tag.as_str(), "repair") {
        let unit_id = match lookup_i32(&fs, "unit_id") {
            Some(v) => v,
            None => {
                return None;
            },
        };
        let repair_id = match lookup_i32(&fs, "repair_id") {
            Some(v) => v,
            None => {
                return None;
            },
        };
        let queue = match lookup_queue(&fs, "queue") {
            Some(v) => v,
            None => {
                return None;
            },
        };
        Some(GameCommand::Repair { unit_id, repair_id, queue })
    } else if str_eq(tag.as_str(), "set_fire_state") {
        let unit_id = match lookup_i32(&fs, "unit_id") {
            Some(v) => v,
            None => {
                return None;
            },
        };
        let state = match lookup_i32(&fs, "state") {
            Some(v) => v,
            None => {
                return None;
            },
        };
        Some(GameCommand::SetFireState { unit_id, state })
    } else if str_eq(tag.as_str(), "set_move_state") {
        let unit_id = match lookup_i32(&fs, "unit_id") {
            Some(v) => v,
            None => {
                return None;
            },
        };
        let state = match lookup_i32(&fs, "state") {
            Some(v) => v,
            None => {
                return None;
            },
        };
        Some(GameCommand::SetMoveState { unit_id, state })
    } else if str_eq(tag.as_str(), "send_chat") {
        let text = match lookup_str(&fs, "text") {
            Some(v) => v,
            None => {
                return None;
            },
        };
        Some(GameCommand::SendChat { text })
    } else if str_eq(tag.as_str(), "pause") {
        Some(GameCommand::Pause)
    } else if str_eq(tag.as_str(), "unpause") {
        Some(GameCommand::Unpause)
    } else if str_eq(tag.as_str(), "set_speed") {
        let speed = match lookup_num(&fs, "speed") {
            Some(v) => v,
            None => {
                return None;
            },
        };
        Some(GameCommand::SetSpeed { speed })
    } else {
        None
    }
}

/// Turn a `channels/publish` text block into a command for the plugin.
pub fn parse_publish_command(text: &str) -> (r: Result<SaiCommand, String>)
    ensures
        match r {
            Ok(c) => spec_parse_command(crate::text::spec_trim(text@)) == Some(c@),
            Err(e) => spec_parse_command(crate::text::spec_trim(text@)) is None && e@
                == "invalid command JSON"@,
        },
{
    let trimmed = crate::text::trim(text);
    match parse_command(trimmed) {
        Some(c) => Ok(c),
        None => Err(to_owned_string("invalid command JSON")),
    }
}

// ── The round trip ──

proof fn lemma_wf_keys()
    ensures
        wf_str("type"@),
        wf_str("unit_id"@),
        wf_str("x"@),
        wf_str("y"@),
        wf_str("z"@),
        wf_str("queue"@),
        wf_str("target_id"@),
        wf_str("build_def_id"@),
        wf_str("facing"@),
        wf_str("guard_id"@),
        wf_str("repair_id"@),
        wf_str("state"@),
        wf_str("text"@),
        wf_str("speed"@),
        wf_str("move"@),
        wf_str("stop"@),
        wf_str("attack"@),
        wf_str("build"@),
        wf_str("patrol"@),
        wf_str("fight"@),
        wf_str("guard"@),
        wf_str("repair"@),
        wf_str("set_fire_state"@),
        wf_str("set_move_state"@),
        wf_str("send_chat"@),
        wf_str("pause"@),
        wf_str("unpause"@),
        wf_str("set_speed"@),
{
    reveal_strlit("type");
    reveal_strlit("unit_id");
    reveal_strlit("x");
    reveal_strlit("y");
    reveal_strlit("z");
    reveal_strlit("queue");
    reveal_strlit("target_id");
    reveal_strlit("build_def_id");
    reveal_strlit("facing");
    reveal_strlit("guard_id");
    reveal_strlit("repair_id");
    reveal_strlit("state");
    reveal_strlit("text");
    reveal_strlit("speed");
    reveal_strlit("move");
    reveal_strlit("stop");
    reveal_strlit("attack");
    reveal_strlit("build");
    reveal_strlit("patrol");
    reveal_strlit("fight");
    reveal_strlit("guard");
    reveal_strlit("repair");
    reveal_strlit("set_fire_state");
    reveal_strlit("set_move_state");
    reveal_strlit("send_chat");
    reveal_strlit("pause");
    reveal_strlit("unpause");
    reveal_strlit("set_speed");
}

/// The member keys are pairwise distinct, and so are the command
/// tags: what a lookup by one key finds is never another's field.
#[verifier::spinoff_prover]
proof fn lemma_names_distinct()
    ensures
        "type"@ != "unit_id"@,
        "type"@ != "x"@,
        "type"@ != "y"@,
        "type"@ != "z"@,
        "type"@ != "queue"@,
        "type"@ != "target_id"@,
        "type"@ != "build_def_id"@,
        "type"@ != "facing"@,
        "type"@ != "guard_id"@,
        "type"@ != "repair_id"@,
        "type"@ != "state"@,
        "type"@ != "text"@,
        "type"@ != "speed"@,
        "unit_id"@ != "x"@,
        "unit_id"@ != "y"@,
        "unit_id"@ != "z"@,
        "unit_id"@ != "queue"@,
        "unit_id"@ != "target_id"@,
        "unit_id"@ != "build_def_id"@,
        "unit_id"@ != "facing"@,
        "unit_id"@ != "guard_id"@,
        "unit_id"@ != "repair_id"@,
        "unit_id"@ != "state"@,
        "unit_id"@ != "text"@,
        "unit_id"@ != "speed"@,
        "x"@ != "y"@,
        "x"@ != "z"@,
        "x"@ != "queue"@,
        "x"@ != "target_id"@,
        "x"@ != "build_def_id"@,
        "x"@ != "facing"@,
        "x"@ != "guard_id"@,
        "x"@ != "repair_id"@,
        "x"@ != "state"@,
        "x"@ != "text"@,
        "x"@ != "speed"@,
        "y"@ != "z"@,
        "y"@ != "queue"@,
        "y"@ != "target_id"@,
        "y"@ != "build_def_id"@,
        "y"@ != "facing"@,
        "y"@ != "guard_id"@,
        "y"@ != "repair_id"@,
        "y"@ != "state"@,
        "y"@ != "text"@,
        "y"@ != "speed"@,
        "z"@ != "queue"@,
        "z"@ != "target_id"@,
        "z"@ != "build_def_id"@,
        "z"@ != "facing"@,
        "z"@ != "guard_id"@,
        "z"@ != "repair_id"@,
        "z"@ != "state"@,
        "z"@ != "text"@,
        "z"@ != "speed"@,
        "queue"@ != "target_id"@,
        "queue"@ != "build_def_id"@,
        "queue"@ != "facing"@,
        "queue"@ != "guard_id"@,
        "queue"@ != "repair_id"@,
        "queue"@ != "state"@,
        "queue"@ != "text"@,
        "queue"@ != "speed"@,
        "target_id"@ != "build_def_id"@,
        "target_id"@ != "facing"@,
        "target_id"@ != "guard_id"@,
        "target_id"@ != "repair_id"@,
        "target_id"@ != "state"@,
        "target_id"@ != "text"@,
        "target_id"@ != "speed"@,
        "build_def_id"@ != "facing"@,
        "build_def_id"@ != "guard_id"@,
        "build_def_id"@ != "repair_id"@,
        "build_def_id"@ != "state"@,
        "build_def_id"@ != "text"@,
        "build_def_id"@ != "speed"@,
        "facing"@ != "guard_id"@,
        "facing"@ != "repair_id"@,
        "facing"@ != "state"@,
        "facing"@ != "text"@,
        "facing"@ != "speed"@,
        "guard_id"@ != "repair_id"@,
        "guard_id"@ != "state"@,
        "guard_id"@ != "text"@,
        "guard_id"@ != "speed"@,
        "repair_id"@ != "state"@,
        "repair_id"@ != "text"@,
        "repair_id"@ != "speed"@,
        "state"@ != "text"@,
        "state"@ != "speed"@,
        "text"@ != "speed"@,
        "move"@ != "stop"@,
        "move"@ != "attack"@,
        "move"@ != "build"@,
        "move"@ != "patrol"@,
        "move"@ != "fight"@,
        "move"@ != "guard"@,
        "move"@ != "repair"@,
        "move"@ != "set_fire_state"@,
        "move"@ != "set_move_state"@,
        "move"@ != "send_chat"@,
        "move"@ != "pause"@,
        "move"@ != "unpause"@,
        "move"@ != "set_speed"@,
        "stop"@ != "attack"@,
        "stop"@ != "build"@,
        "stop"@ != "patrol"@,
        "stop"@ != "fight"@,
        "stop"@ != "guard"@,
        "stop"@ != "repair"@,
        "stop"@ != "set_fire_state"@,
        "stop"@ != "set_move_state"@,
        "stop"@ != "send_chat"@,
        "stop"@ != "pause"@,
        "stop"@ != "unpause"@,
        "stop"@ != "set_speed"@,
        "attack"@ != "build"@,
        "attack"@ != "patrol"@,
        "attack"@ != "fight"@,
        "attack"@ != "guard"@,
        "attack"@ != "repair"@,
        "attack"@ != "set_fire_state"@,
        "attack"@ != "set_move_state"@,
        "attack"@ != "send_chat"@,
        "attack"@ != "pause"@,
        "attack"@ != "unpause"@,
        "attack"@ != "set_speed"@,
        "build"@ != "patrol"@,
        "build"@ != "fight"@,
        "build"@ != "guard"@,
        "build"@ != "repair"@,
        "build"@ != "set_fire_state"@,
        "build"@ != "set_move_state"@,
        "build"@ != "send_chat"@,
        "build"@ != "pause"@,
        "build"@ != "unpause"@,
        "build"@ != "set_speed"@,
        "patrol"@ != "fight"@,
        "patrol"@ != "guard"@,
        "patrol"@ != "repair"@,
        "patrol"@ != "set_fire_state"@,
        "patrol"@ != "set_move_state"@,
        "patrol"@ != "send_chat"@,
        "patrol"@ != "pause"@,
        "patrol"@ != "unpause"@,
        "patrol"@ != "set_speed"@,
        "fight"@ != "guard"@,
        "fight"@ != "repair"@,
        "fight"@ != "set_fire_state"@,
        "fight"@ != "set_move_state"@,
        "fight"@ != "send_chat"@,
        "fight"@ != "pause"@,
        "fight"@ != "unpause"@,
        "fight"@ != "set_speed"@,
        "guard"@ != "repair"@,
        "guard"@ != "set_fire_state"@,
        "guard"@ != "set_move_state"@,
        "guard"@ != "send_chat"@,
        "guard"@ != "pause"@,
        "guard"@ != "unpause"@,
        "guard"@ != "set_speed"@,
        "repair"@ != "set_fire_state"@,
        "repair"@ != "set_move_state"@,
        "repair"@ != "send_chat"@,
        "repair"@ != "pause"@,
        "repair"@ != "unpause"@,
        "repair"@ != "set_speed"@,
        "set_fire_state"@ != "set_move_state"@,
        "set_fire_state"@ != "send_chat"@,
        "set_fire_state"@ != "pause"@,
        "set_fire_state"@ != "unpause"@,
        "set_fire_state"@ != "set_speed"@,
        "set_move_state"@ != "send_chat"@,
        "set_move_state"@ != "pause"@,
        "set_move_state"@ != "unpause"@,
        "set_move_state"@ != "set_speed"@,
        "send_chat"@ != "pause"@,
        "send_chat"@ != "unpause"@,
        "send_chat"@ != "set_speed"@,
        "pause"@ != "unpause"@,
        "pause"@ != "set_speed"@,
        "unpause"@ != "set_speed"@,
{
    reveal_strlit("attack");
    reveal_strlit("build");
    reveal_strlit("build_def_id");
    reveal_strlit("facing");
    reveal_strlit("fight");
    reveal_strlit("guard");
    reveal_strlit("guard_id");
    reveal_strlit("move");
    reveal_strlit("patrol");
    reveal_strlit("pause");
    reveal_strlit("queue");
    reveal_strlit("repair");
    reveal_strlit("repair_id");
    reveal_strlit("send_chat");
    reveal_strlit("set_fire_state");
    reveal_strlit("set_move_state");
    reveal_strlit("set_speed");
    reveal_strlit("speed");
    reveal_strlit("state");
    reveal_strlit("stop");
    reveal_strlit("target_id");
    reveal_strlit("text");
    reveal_strlit("type");
    reveal_strlit("unit_id");
    reveal_strlit("unpause");
    reveal_strlit("x");
    reveal_strlit("y");
    reveal_strlit("z");
    assert("attack"@.len() == 6);
    assert("attack"@[0] == 'a');
    assert("attack"@[1] == 't');
    assert("attack"@[2] == 't');
    assert("attack"@[3] == 'a');
    assert("attack"@[4] == 'c');
    assert("build"@.len() == 5);
    assert("build"@[0] == 'b');
    assert("build"@[1] == 'u');
    assert("build"@[2] == 'i');
    assert("build"@[3] == 'l');
    assert("build"@[4] == 'd');
    assert("build_def_id"@.len() == 12);
    assert("build_def_id"@[0] == 'b');
    assert("build_def_id"@[1] == 'u');
    assert("build_def_id"@[2] == 'i');
    assert("build_def_id"@[3] == 'l');
    assert("build_def_id"@[4] == 'd');
    assert("facing"@.len() == 6);
    assert("facing"@[0] == 'f');
    assert("facing"@[1] == 'a');
    assert("facing"@[2] == 'c');
    assert("facing"@[3] == 'i');
    assert("facing"@[4] == 'n');
    assert("fight"@.len() == 5);
    assert("fight"@[0] == 'f');
    assert("fight"@[1] == 'i');
    assert("fight"@[2] == 'g');
    assert("fight"@[3] == 'h');
    assert("fight"@[4] == 't');
    assert("guard"@.len() == 5);
    assert("guard"@[0] == 'g');
    assert("guard"@[1] == 'u');
    assert("guard"@[2] == 'a');
    assert("guard"@[3] == 'r');
    assert("guard"@[4] == 'd');
    assert("guard_id"@.len() == 8);
    assert("guard_id"@[0] == 'g');
    assert("guard_id"@[1] == 'u');
    assert("guard_id"@[2] == 'a');
    assert("guard_id"@[3] == 'r');
    assert("guard_id"@[4] == 'd');
    assert("move"@.len() == 4);
    assert("move"@[0] == 'm');
    assert("move"@[1] == 'o');
    assert("move"@[2] == 'v');
    assert("move"@[3] == 'e');
    assert("patrol"@.len() == 6);
    assert("patrol"@[0] == 'p');
    assert("patrol"@[1] == 'a');
    assert("patrol"@[2] == 't');
    assert("patrol"@[3] == 'r');
    assert("patrol"@[4] == 'o');
    assert("pause"@.len() == 5);
    assert("pause"@[0] == 'p');
    assert("pause"@[1] == 'a');
    assert("pause"@[2] == 'u');
    assert("pause"@[3] == 's');
    assert("pause"@[4] == 'e');
    assert("queue"@.len() == 5);
    assert("queue"@[0] == 'q');
    assert("queue"@[1] == 'u');
    assert("queue"@[2] == 'e');
    assert("queue"@[3] == 'u');
    assert("queue"@[4] == 'e');
    assert("repair"@.len() == 6);
    assert("repair"@[0] == 'r');
    assert("repair"@[1] == 'e');
    assert("repair"@[2] == 'p');
    assert("repair"@[3] == 'a');
    assert("repair"@[4] == 'i');
    assert("repair_id"@.len() == 9);
    assert("repair_id"@[0] == 'r');
    assert("repair_id"@[1] == 'e');
    assert("repair_id"@[2] == 'p');
    assert("repair_id"@[3] == 'a');
    assert("repair_id"@[4] == 'i');
    assert("send_chat"@.len() == 9);
    assert("send_chat"@[0] == 's');
    assert("send_chat"@[1] == 'e');
    assert("send_chat"@[2] == 'n');
    assert("send_chat"@[3] == 'd');
    assert("send_chat"@[4] == '_');
    assert("set_fire_state"@.len() == 14);
    assert("set_fire_state"@[0] == 's');
    assert("set_fire_state"@[1] == 'e');
    assert("set_fire_state"@[2] == 't');
    assert("set_fire_state"@[3] == '_');
    assert("set_fire_state"@[4] == 'f');
    assert("set_move_state"@.len() == 14);
    assert("set_move_state"@[0] == 's');
    assert("set_move_state"@[1] == 'e');
    assert("set_move_state"@[2] == 't');
    assert("set_move_state"@[3] == '_');
    assert("set_move_state"@[4] == 'm');
    assert("set_speed"@.len() == 9);
    assert("set_speed"@[0] == 's');
    assert("set_speed"@[1] == 'e');
    assert("set_speed"@[2] == 't');
    assert("set_speed"@[3] == '_');
    assert("set_speed"@[4] == 's');
    assert("speed"@.len() == 5);
    assert("speed"@[0] == 's');
    assert("speed"@[1] == 'p');
    assert("speed"@[2] == 'e');
    assert("speed"@[3] == 'e');
    assert("speed"@[4] == 'd');
    assert("state"@.len() == 5);
    assert("state"@[0] == 's');
    assert("state"@[1] == 't');
    assert("state"@[2] == 'a');
    assert("state"@[3] == 't');
    assert("state"@[4] == 'e');
    assert("stop"@.len() == 4);
    assert("stop"@[0] == 's');
    assert("stop"@[1] == 't');
    assert("stop"@[2] == 'o');
    assert("stop"@[3] == 'p');
    assert("target_id"@.len() == 9);
    assert("target_id"@[0] == 't');
    assert("target_id"@[1] == 'a');
    assert("target_id"@[2] == 'r');
    assert("target_id"@[3] == 'g');
    assert("target_id"@[4] == 'e');
    assert("text"@.len() == 4);
    assert("text"@[0] == 't');
    assert("text"@[1] == 'e');
    assert("text"@[2] == 'x');
    assert("text"@[3] == 't');
    assert("type"@.len() == 4);
    assert("type"@[0] == 't');
    assert("type"@[1] == 'y');
    assert("type"@[2] == 'p');
    assert("type"@[3] == 'e');
    assert("unit_id"@.len() == 7);
    assert("unit_id"@[0] == 'u');
    assert("unit_id"@[1] == 'n');
    assert("unit_id"@[2] == 'i');
    assert("unit_id"@[3] == 't');
    assert("unit_id"@[4] == '_');
    assert("unpause"@.len() == 7);
    assert("unpause"@[0] == 'u');
    assert("unpause"@[1] == 'n');
    assert("unpause"@[2] == 'p');
    assert("unpause"@[3] == 'a');
    assert("unpause"@[4] == 'u');
    assert("x"@.len() == 1);
    assert("x"@[0] == 'x');
    assert("y"@.len() == 1);
    assert("y"@[0] == 'y');
    assert("z"@.len() == 1);
    assert("z"@[0] == 'z');
}

/// The fields a well-formed command is written as are well formed.
proof fn lemma_wf_cmd_fields(c: GameCommandV)
    requires
        wf_command(c),
    ensures
        wf_fields(cmd_fields(c)),
{
    lemma_wf_keys();
    let fs = cmd_fields(c);
    assert forall|k: int| 0 <= k < fs.len() implies wf_field(#[trigger] fs[k]) by {
        match c {
            GameCommandV::Move { .. } => {
                assert(wf_field(fs[k]));
            },
            GameCommandV::Stop { .. } => {
                assert(wf_field(fs[k]));
            },
            GameCommandV::Attack { .. } => {
                assert(wf_field(fs[k]));
            },
            GameCommandV::Build { .. } => {
                assert(wf_field(fs[k]));
            },
            GameCommandV::Patrol { .. } => {
                assert(wf_field(fs[k]));
            },
            GameCommandV::Fight { .. } => {
                assert(wf_field(fs[k]));
            },
            GameCommandV::Guard { .. } => {
                assert(wf_field(fs[k]));
            },
            GameCommandV::Repair { .. } => {
                assert(wf_field(fs[k]));
            },
            GameCommandV::SetFireState { .. } => {
                assert(wf_field(fs[k]));
            },
            GameCommandV::SetMoveState { .. } => {
                assert(wf_field(fs[k]));
            },
            GameCommandV::SendChat { .. } => {
                assert(wf_field(fs[k]));
            },
            GameCommandV::Pause => {
                assert(wf_field(fs[k]));
            },
            GameCommandV::Unpause => {
                assert(wf_field(fs[k]));
            },
            GameCommandV::SetSpeed { .. } => {
                assert(wf_field(fs[k]));
            },
        }
    }
}

#[verifier::spinoff_prover]
#[verifier::rlimit(100)]
proof fn lemma_round_move_cmd(c: GameCommandV)
    requires
        wf_command(c),
        c matches GameCommandV::Move { .. },
    ensures
        cmd_of_fields(cmd_fields(c)) == Some(c),
{
    lemma_names_distinct();
    reveal(move_of_fields);
    reveal_with_fuel(crate::json::field_lookup, 10);
    assert(cmd_of_fields(cmd_fields(c)) == Some(c));
}

#[verifier::spinoff_prover]
#[verifier::rlimit(100)]
proof fn lemma_round_stop_cmd(c: GameCommandV)
    requires
        wf_command(c),
        c matches GameCommandV::Stop { .. },
    ensures
        cmd_of_fields(cmd_fields(c)) == Some(c),
{
    lemma_names_distinct();
    reveal(stop_of_fields);
    reveal_with_fuel(crate::json::field_lookup, 10);
    assert(cmd_of_fields(cmd_fields(c)) == Some(c));
}

#[verifier::spinoff_prover]
#[verifier::rlimit(100)]
proof fn lemma_round_attack_cmd(c: GameCommandV)
    requires
        wf_command(c),
        c matches GameCommandV::Attack { .. },
    ensures
        cmd_of_fields(cmd_fields(c)) == Some(c),
{
    lemma_names_distinct();
    reveal(attack_of_fields);
    reveal_with_fuel(crate::json::field_lookup, 10);
    assert(cmd_of_fields(cmd_fields(c)) == Some(c));
}

#[verifier::spinoff_prover]
#[verifier::rlimit(100)]
proof fn lemma_round_build_cmd(c: GameCommandV)
    requires
        wf_command(c),
        c matches GameCommandV::Build { .. },
    ensures
        cmd_of_fields(cmd_fields(c)) == Some(c),
{
    lemma_names_distinct();
    reveal(build_of_fields);
    reveal_with_fuel(crate::json::field_lookup, 10);
    assert(cmd_of_fields(cmd_fields(c)) == Some(c));
}

#[verifier::spinoff_prover]
#[verifier::rlimit(100)]
proof fn lemma_round_patrol_cmd(c: GameCommandV)
    requires
        wf_command(c),
        c matches GameCommandV::Patrol { .. },
    ensures
        cmd_of_fields(cmd_fields(c)) == Some(c),
{
    lemma_names_distinct();
    reveal(patrol_of_fields);
    reveal_with_fuel(crate::json::field_lookup, 10);
    assert(cmd_of_fields(cmd_fields(c)) == Some(c));
}

#[verifier::spinoff_prover]
#[verifier::rlimit(100)]
proof fn lemma_round_fight_cmd(c: GameCommandV)
    requires
        wf_command(c),
        c matches GameCommandV::Fight { .. },
    ensures
        cmd_of_fields(cmd_fields(c)) == Some(c),
{
    lemma_names_distinct();
    reveal(fight_of_fields);
    reveal_with_fuel(crate::json::field_lookup, 10);
    assert(cmd_of_fields(cmd_fields(c)) == Some(c));
}

#[verifier::spinoff_prover]
#[verifier::rlimit(100)]
proof fn lemma_round_guard_cmd(c: GameCommandV)
    requires
        wf_command(c),
        c matches GameCommandV::Guard { .. },
    ensures
        cmd_of_fields(cmd_fields(c)) == Some(c),
{
    lemma_names_distinct();
    reveal(guard_of_fields);
    reveal_with_fuel(crate::json::field_lookup, 10);
    assert(cmd_of_fields(cmd_fields(c)) == Some(c));
}

#[verifier::spinoff_prover]
#[verifier::rlimit(100)]
proof fn lemma_round_repair_cmd(c: GameCommandV)
    requires
        wf_command(c),
        c matches GameCommandV::Repair { .. },
    ensures
        cmd_of_fields(cmd_fields(c)) == Some(c),
{
    lemma_names_distinct();
    reveal(repair_of_fields);
    reveal_with_fuel(crate::json::field_lookup, 10);
    assert(cmd_of_fields(cmd_fields(c)) == Some(c));
}

#[verifier::spinoff_prover]
#[verifier::rlimit(100)]
proof fn lemma_round_set_fire_state_cmd(c: GameCommandV)
    requires
        wf_command(c),
        c matches GameCommandV::SetFireState { .. },
    ensures
        cmd_of_fields(cmd_fields(c)) == Some(c),
{
    lemma_names_distinct();
    reveal(set_fire_state_of_fields);
    reveal_with_fuel(crate::json::field_lookup, 10);
    assert(cmd_of_fields(cmd_fields(c)) == Some(c));
}

#[verifier::spinoff_prover]
#[verifier::rlimit(100)]
proof fn lemma_round_set_move_state_cmd(c: GameCommandV)
    requires
        wf_command(c),
        c matches GameCommandV::SetMoveState { .. },
    ensures
        cmd_of_fields(cmd_fields(c)) == Some(c),
{
    lemma_names_distinct();
    reveal(set_move_state_of_fields);
    reveal_with_fuel(crate::json::field_lookup, 10);
    assert(cmd_of_fields(cmd_fields(c)) == Some(c));
}

#[verifier::spinoff_prover]
#[verifier::rlimit(100)]
proof fn lemma_round_send_chat_cmd(c: GameCommandV)
    requires
        wf_command(c),
        c matches GameCommandV::SendChat { .. },
    ensures
        cmd_of_fields(cmd_fields(c)) == Some(c),
{
    lemma_names_distinct();
    reveal(send_chat_of_fields);
    reveal_with_fuel(crate::json::field_lookup, 10);
    assert(cmd_of_fields(cmd_fields(c)) == Some(c));
}

#[verifier::spinoff_prover]
#[verifier::rlimit(100)]
proof fn lemma_round_pause_cmd(c: GameCommandV)
    requires
        wf_command(c),
        c matches GameCommandV::Pause,
    ensures
        cmd_of_fields(cmd_fields(c)) == Some(c),
{
    lemma_names_distinct();
    reveal_with_fuel(crate::json::field_lookup, 10);
    assert(cmd_of_fields(cmd_fields(c)) == Some(c));
}

#[verifier::spinoff_prover]
#[verifier::rlimit(100)]
proof fn lemma_round_unpause_cmd(c: GameCommandV)
    requires
        wf_command(c),
        c matches GameCommandV::Unpause,
    ensures
        cmd_of_fields(cmd_fields(c)) == Some(c),
{
    lemma_names_distinct();
    reveal_with_fuel(crate::json::field_lookup, 10);
    assert(cmd_of_fields(cmd_fields(c)) == Some(c));
}

#[verifier::spinoff_prover]
#[verifier::rlimit(100)]
proof fn lemma_round_set_speed_cmd(c: GameCommandV)
    requires
        wf_command(c),
        c matches GameCommandV::SetSpeed { .. },
    ensures
        cmd_of_fields(cmd_fields(c)) == Some(c),
{
    lemma_names_distinct();
    reveal(set_speed_of_fields);
    reveal_with_fuel(crate::json::field_lookup, 10);
    assert(cmd_of_fields(cmd_fields(c)) == Some(c));
}

/// Reading a written command gives the original back, field for field.
pub proof fn lemma_command_round_trip(c: GameCommandV)
    requires
        wf_command(c),
    ensures
        spec_parse_command(spec_enc_obj(cmd_fields(c))) == Some(c),
{
    lemma_wf_cmd_fields(c);
    crate::json::lemma_parse_encode_obj(cmd_fields(c));
    match c {
        GameCommandV::Move { .. } => lemma_round_move_cmd(c),
        GameCommandV::Stop { .. } => lemma_round_stop_cmd(c),
        GameCommandV::Attack { .. } => lemma_round_attack_cmd(c),
        GameCommandV::Build { .. } => lemma_round_build_cmd(c),
        GameCommandV::Patrol { .. } => lemma_round_patrol_cmd(c),
        GameCommandV::Fight { .. } => lemma_round_fight_cmd(c),
        GameCommandV::Guard { .. } => lemma_round_guard_cmd(c),
        GameCommandV::Repair { .. } => lemma_round_repair_cmd(c),
        GameCommandV::SetFireState { .. } => lemma_round_set_fire_state_cmd(c),
        GameCommandV::SetMoveState { .. } => lemma_round_set_move_state_cmd(c),
        GameCommandV::SendChat { .. } => lemma_round_send_chat_cmd(c),
        GameCommandV::Pause => lemma_round_pause_cmd(c),
        GameCommandV::Unpause => lemma_round_unpause_cmd(c),
        GameCommandV::SetSpeed { .. } => lemma_round_set_speed_cmd(c),
    }
}

// ── Handing a command to the engine ──

/// The engine command topics the plugin uses (from the engine's AI
/// interface definition).
pub const COMMAND_PAUSE: i32 = 5;

pub const COMMAND_SEND_TEXT_MESSAGE: i32 = 6;

pub const COMMAND_SET_GAME_SPEED: i32 = 7;

pub const COMMAND_UNIT_BUILD: i32 = 35;

pub const COMMAND_UNIT_STOP: i32 = 36;

pub const COMMAND_UNIT_MOVE: i32 = 42;

pub const COMMAND_UNIT_PATROL: i32 = 43;

pub const COMMAND_UNIT_FIGHT: i32 = 44;

pub const COMMAND_UNIT_ATTACK: i32 = 45;

pub const COMMAND_UNIT_GUARD: i32 = 47;

pub const COMMAND_UNIT_REPAIR: i32 = 51;

pub const COMMAND_UNIT_SET_FIRE_STATE: i32 = 52;

pub const COMMAND_UNIT_SET_MOVE_STATE: i32 = 53;

/// The engine's shift-key option flag: with it a command is appended
/// to the unit's queue instead of replacing it.
pub const UNIT_COMMAND_OPTION_SHIFT_KEY: i16 = 32;

/// How a unit command is to be invoked: the engine topic and the fixed
/// header fields the command structs share.
#[derive(Debug)]
pub struct EngineCall {
    pub command_topic: i32,
    pub options: i16,
    pub group_id: i32,
    pub time_out: i32,
}

pub open spec fn spec_options(queue: bool) -> i16 {
    if queue {
        32i16
    } else {
        0i16
    }
}

pub open spec fn spec_call(topic: i32, options: i16) -> EngineCall {
    EngineCall { command_topic: topic, options, group_id: -1i32, time_out: i32::MAX }
}

/// Decide how a command reaches the engine: the topic it goes to and
/// the shift-key option where the command can be queued. Returns
/// nothing for the commands the plugin does not wire to the engine
/// (pause, unpause and speed control travel the wire but have no
/// engine dispatch here).
pub fn dispatch_plan(cmd: &GameCommand) -> (r: Option<EngineCall>)
    ensures
        r == match cmd@ {
            GameCommandV::Move { queue, .. } => Some(spec_call(42i32, spec_options(queue))),
            GameCommandV::Stop { .. } => Some(spec_call(36i32, 0i16)),
            GameCommandV::Attack { queue, .. } => Some(spec_call(45i32, spec_options(queue))),
            GameCommandV::Build { queue, .. } => Some(spec_call(35i32, spec_options(queue))),
            GameCommandV::Patrol { queue, .. } => Some(spec_call(43i32, spec_options(queue))),
            GameCommandV::Fight { queue, .. } => Some(spec_call(44i32, spec_options(queue))),
            GameCommandV::Guard { queue, .. } => Some(spec_call(47i32, spec_options(queue))),
            GameCommandV::Repair { queue, .. } => Some(spec_call(51i32, spec_options(queue))),
            GameCommandV::SetFireState { .. } => Some(spec_call(52i32, 0i16)),
            GameCommandV::SetMoveState { .. } => Some(spec_call(53i32, 0i16)),
            GameCommandV::SendChat { .. } => Some(spec_call(6i32, 0i16)),
            GameCommandV::Pause => None::<EngineCall>,
            GameCommandV::Unpause => None::<EngineCall>,
            GameCommandV::SetSpeed { .. } => None::<EngineCall>,
        },
{
    match cmd {
        GameCommand::Move { queue, .. } => Some(EngineCall {
            command_topic: COMMAND_UNIT_MOVE,
            options: if *queue { UNIT_COMMAND_OPTION_SHIFT_KEY } else { 0 },
            group_id: -1,
            time_out: i32::MAX,
        }),
        GameCommand::Stop { .. } => Some(EngineCall {
            command_topic: COMMAND_UNIT_STOP,
            options: 0,
            group_id: -1,
            time_out: i32::MAX,
        }),
        GameCommand::Attack { queue, .. } => Some(EngineCall {
            command_topic: COMMAND_UNIT_ATTACK,
            options: if *queue { UNIT_COMMAND_OPTION_SHIFT_KEY } else { 0 },
            group_id: -1,
            time_out: i32::MAX,
        }),
        GameCommand::Build { queue, .. } => Some(EngineCall {
            command_topic: COMMAND_UNIT_BUILD,
            options: if *queue { UNIT_COMMAND_OPTION_SHIFT_KEY } else { 0 },
            group_id: -1,
            time_out: i32::MAX,
        }),
        GameCommand::Patrol { queue, .. } => Some(EngineCall {
            command_topic: COMMAND_UNIT_PATROL,
            options: if *queue { UNIT_COMMAND_OPTION_SHIFT_KEY } else { 0 },
            group_id: -1,
            time_out: i32::MAX,
        }),
        GameCommand::Fight { queue, .. } => Some(EngineCall {
            command_topic: COMMAND_UNIT_FIGHT,
            options: if *queue { UNIT_COMMAND_OPTION_SHIFT_KEY } else { 0 },
            group_id: -1,
            time_out: i32::MAX,
        }),
        GameCommand::Guard { queue, .. } => Some(EngineCall {
            command_topic: COMMAND_UNIT_GUARD,
            options: if *queue { UNIT_COMMAND_OPTION_SHIFT_KEY } else { 0 },
            group_id: -1,
            time_out: i32::MAX,
        }),
        GameCommand::Repair { queue, .. } => Some(EngineCall {
            command_topic: COMMAND_UNIT_REPAIR,
            options: if *queue { UNIT_COMMAND_OPTION_SHIFT_KEY } else { 0 },
            group_id: -1,
            time_out: i32::MAX,
        }),
        GameCommand::SetFireState { .. } => Some(EngineCall {
            command_topic: COMMAND_UNIT_SET_FIRE_STATE,
            options: 0,
            group_id: -1,
            time_out: i32::MAX,
        }),
        GameCommand::SetMoveState { .. } => Some(EngineCall {
            command_topic: COMMAND_UNIT_SET_MOVE_STATE,
            options: 0,
            group_id: -1,
            time_out: i32::MAX,
        }),
        GameCommand::SendChat { .. } => Some(EngineCall {
            command_topic: COMMAND_SEND_TEXT_MESSAGE,
            options: 0,
            group_id: -1,
            time_out: i32::MAX,
        }),
        GameCommand::Pause => None,
        GameCommand::Unpause => None,
        GameCommand::SetSpeed { .. } => None,
    }
}

/// Turn the engine's return code into the caller's result: zero means
/// done, anything else is reported with the code.
pub fn dispatch_result(ret: i32) -> (r: Result<(), String>)
    ensures
        ret == 0 <==> r is Ok,
        r matches Err(e) ==> e@ == "Engine_handleCommand returned "@ + crate::numfmt::spec_int_str(
            ret as int,
        ),
{
    if ret == 0 {
        Ok(())
    } else {
        let mut msg = to_owned_string("Engine_handleCommand returned ");
        msg.append(crate::numfmt::i32_to_string(ret).as_str());
        Err(msg)
    }
}

} // verus!


