//! The in-engine plugin's verified core: the events it emits and their
//! wire form, name enrichment, the per-instance slot table with its
//! update throttle, and the bounded outbound buffer. The engine-thread
//! rule shapes all of it: never block, drop telemetry before stalling.

use crate::ipc::{num_scalar, num_to_scalar, push_fld, Number};
use crate::ipc::fld;
use crate::json::{
    encode_object, fields_view, spec_enc_obj, JsonField, JsonFieldV, JsonScalar, JsonScalarV,
};
use crate::text::to_owned_string;
use vstd::prelude::*;

verus! {

/// How many update callbacks pass between two update events on the
/// wire (at 30 frames a second, one event a second).
pub const UPDATE_INTERVAL: u32 = 30;

/// An event the plugin sends to the manager, one JSON object per
/// line on the IPC socket.
#[derive(Debug)]
pub enum GameEvent {
    Init { frame: i32, saved_game: bool },
    Release { reason: i32 },
    Update { frame: i32 },
    Message { player: i32, text: String },
    UnitCreated { unit: i32, unit_name: Option<String>, builder: i32, builder_name: Option<String> },
    UnitFinished { unit: i32, unit_name: Option<String> },
    UnitIdle { unit: i32, unit_name: Option<String> },
    UnitMoveFailed { unit: i32, unit_name: Option<String> },
    UnitDamaged { unit: i32, unit_name: Option<String>, attacker: i32, attacker_name: Option<String>, damage: crate::ipc::Number, weapon_def_id: i32, paralyzer: bool },
    UnitDestroyed { unit: i32, unit_name: Option<String>, attacker: i32, attacker_name: Option<String>, weapon_def_id: i32 },
    UnitGiven { unit: i32, unit_name: Option<String>, old_team: i32, new_team: i32 },
    UnitCaptured { unit: i32, unit_name: Option<String>, old_team: i32, new_team: i32 },
    EnemyEnterLos { enemy: i32, enemy_name: Option<String> },
    EnemyLeaveLos { enemy: i32, enemy_name: Option<String> },
    EnemyEnterRadar { enemy: i32, enemy_name: Option<String> },
    EnemyLeaveRadar { enemy: i32, enemy_name: Option<String> },
    EnemyDamaged { enemy: i32, enemy_name: Option<String>, attacker: i32, attacker_name: Option<String>, damage: crate::ipc::Number, weapon_def_id: i32, paralyzer: bool },
    EnemyDestroyed { enemy: i32, enemy_name: Option<String>, attacker: i32, attacker_name: Option<String> },
    EnemyCreated { enemy: i32, enemy_name: Option<String> },
    EnemyFinished { enemy: i32, enemy_name: Option<String> },
    WeaponFired { unit: i32, unit_name: Option<String>, weapon_def_id: i32 },
    CommandFinished { unit: i32, unit_name: Option<String>, command_id: i32, command_topic: i32 },
    LuaMessage { data: String },
    CommandError { error: String, command: String },
}

/// The field list an event is written as: the `type` tag first,
/// then the fields in order, name fields only where resolved.
pub open spec fn event_fields(e: &GameEvent) -> Seq<JsonFieldV> {
    match e {
        GameEvent::Init { frame, saved_game } => {
            seq![fld("type"@, JsonScalarV::Str("init"@))] + seq![fld("frame"@, JsonScalarV::Int(*frame as int))] + seq![fld("saved_game"@, JsonScalarV::Bool(*saved_game))]
        },
        GameEvent::Release { reason } => {
            seq![fld("type"@, JsonScalarV::Str("release"@))] + seq![fld("reason"@, JsonScalarV::Int(*reason as int))]
        },
        GameEvent::Update { frame } => {
            seq![fld("type"@, JsonScalarV::Str("update"@))] + seq![fld("frame"@, JsonScalarV::Int(*frame as int))]
        },
        GameEvent::Message { player, text } => {
            seq![fld("type"@, JsonScalarV::Str("message"@))] + seq![fld("player"@, JsonScalarV::Int(*player as int))] + seq![fld("text"@, JsonScalarV::Str(text@))]
        },
        GameEvent::UnitCreated { unit, unit_name, builder, builder_name } => {
            seq![fld("type"@, JsonScalarV::Str("unit_created"@))] + seq![fld("unit"@, JsonScalarV::Int(*unit as int))] + (match unit_name { Some(v) => seq![fld("unit_name"@, JsonScalarV::Str(v@))], None => Seq::empty() }) + seq![fld("builder"@, JsonScalarV::Int(*builder as int))] + (match builder_name { Some(v) => seq![fld("builder_name"@, JsonScalarV::Str(v@))], None => Seq::empty() })
        },
        GameEvent::UnitFinished { unit, unit_name } => {
            seq![fld("type"@, JsonScalarV::Str("unit_finished"@))] + seq![fld("unit"@, JsonScalarV::Int(*unit as int))] + (match unit_name { Some(v) => seq![fld("unit_name"@, JsonScalarV::Str(v@))], None => Seq::empty() })
        },
        GameEvent::UnitIdle { unit, unit_name } => {
            seq![fld("type"@, JsonScalarV::Str("unit_idle"@))] + seq![fld("unit"@, JsonScalarV::Int(*unit as int))] + (match unit_name { Some(v) => seq![fld("unit_name"@, JsonScalarV::Str(v@))], None => Seq::empty() })
        },
        GameEvent::UnitMoveFailed { unit, unit_name } => {
            seq![fld("type"@, JsonScalarV::Str("unit_move_failed"@))] + seq![fld("unit"@, JsonScalarV::Int(*unit as int))] + (match unit_name { Some(v) => seq![fld("unit_name"@, JsonScalarV::Str(v@))], None => Seq::empty() })
        },
        GameEvent::UnitDamaged { unit, unit_name, attacker, attacker_name, damage, weapon_def_id, paralyzer } => {
            seq![fld("type"@, JsonScalarV::Str("unit_damaged"@))] + seq![fld("unit"@, JsonScalarV::Int(*unit as int))] + (match unit_name { Some(v) => seq![fld("unit_name"@, JsonScalarV::Str(v@))], None => Seq::empty() }) + seq![fld("attacker"@, JsonScalarV::Int(*attacker as int))] + (match attacker_name { Some(v) => seq![fld("attacker_name"@, JsonScalarV::Str(v@))], None => Seq::empty() }) + seq![fld("damage"@, crate::ipc::num_scalar(damage@))] + seq![fld("weapon_def_id"@, JsonScalarV::Int(*weapon_def_id as int))] + seq![fld("paralyzer"@, JsonScalarV::Bool(*paralyzer))]
        },
        GameEvent::UnitDestroyed { unit, unit_name, attacker, attacker_name, weapon_def_id } => {
            seq![fld("type"@, JsonScalarV::Str("unit_destroyed"@))] + seq![fld("unit"@, JsonScalarV::Int(*unit as int))] + (match unit_name { Some(v) => seq![fld("unit_name"@, JsonScalarV::Str(v@))], None => Seq::empty() }) + seq![fld("attacker"@, JsonScalarV::Int(*attacker as int))] + (match attacker_name { Some(v) => seq![fld("attacker_name"@, JsonScalarV::Str(v@))], None => Seq::empty() }) + seq![fld("weapon_def_id"@, JsonScalarV::Int(*weapon_def_id as int))]
        },
        GameEvent::UnitGiven { unit, unit_name, old_team, new_team } => {
            seq![fld("type"@, JsonScalarV::Str("unit_given"@))] + seq![fld("unit"@, JsonScalarV::Int(*unit as int))] + (match unit_name { Some(v) => seq![fld("unit_name"@, JsonScalarV::Str(v@))], None => Seq::empty() }) + seq![fld("old_team"@, JsonScalarV::Int(*old_team as int))] + seq![fld("new_team"@, JsonScalarV::Int(*new_team as int))]
        },
        GameEvent::UnitCaptured { unit, unit_name, old_team, new_team } => {
            seq![fld("type"@, JsonScalarV::Str("unit_captured"@))] + seq![fld("unit"@, JsonScalarV::Int(*unit as int))] + (match unit_name { Some(v) => seq![fld("unit_name"@, JsonScalarV::Str(v@))], None => Seq::empty() }) + seq![fld("old_team"@, JsonScalarV::Int(*old_team as int))] + seq![fld("new_team"@, JsonScalarV::Int(*new_team as int))]
        },
        GameEvent::EnemyEnterLos { enemy, enemy_name } => {
            seq![fld("type"@, JsonScalarV::Str("enemy_enter_los"@))] + seq![fld("enemy"@, JsonScalarV::Int(*enemy as int))] + (match enemy_name { Some(v) => seq![fld("enemy_name"@, JsonScalarV::Str(v@))], None => Seq::empty() })
        },
        GameEvent::EnemyLeaveLos { enemy, enemy_name } => {
            seq![fld("type"@, JsonScalarV::Str("enemy_leave_los"@))] + seq![fld("enemy"@, JsonScalarV::Int(*enemy as int))] + (match enemy_name { Some(v) => seq![fld("enemy_name"@, JsonScalarV::Str(v@))], None => Seq::empty() })
        },
        GameEvent::EnemyEnterRadar { enemy, enemy_name } => {
            seq![fld("type"@, JsonScalarV::Str("enemy_enter_radar"@))] + seq![fld("enemy"@, JsonScalarV::Int(*enemy as int))] + (match enemy_name { Some(v) => seq![fld("enemy_name"@, JsonScalarV::Str(v@))], None => Seq::empty() })
        },
        GameEvent::EnemyLeaveRadar { enemy, enemy_name } => {
            seq![fld("type"@, JsonScalarV::Str("enemy_leave_radar"@))] + seq![fld("enemy"@, JsonScalarV::Int(*enemy as int))] + (match enemy_name { Some(v) => seq![fld("enemy_name"@, JsonScalarV::Str(v@))], None => Seq::empty() })
        },
        GameEvent::EnemyDamaged { enemy, enemy_name, attacker, attacker_name, damage, weapon_def_id, paralyzer } => {
            seq![fld("type"@, JsonScalarV::Str("enemy_damaged"@))] + seq![fld("enemy"@, JsonScalarV::Int(*enemy as int))] + (match enemy_name { Some(v) => seq![fld("enemy_name"@, JsonScalarV::Str(v@))], None => Seq::empty() }) + seq![fld("attacker"@, JsonScalarV::Int(*attacker as int))] + (match attacker_name { Some(v) => seq![fld("attacker_name"@, JsonScalarV::Str(v@))], None => Seq::empty() }) + seq![fld("damage"@, crate::ipc::num_scalar(damage@))] + seq![fld("weapon_def_id"@, JsonScalarV::Int(*weapon_def_id as int))] + seq![fld("paralyzer"@, JsonScalarV::Bool(*paralyzer))]
        },
        GameEvent::EnemyDestroyed { enemy, enemy_name, attacker, attacker_name } => {
            seq![fld("type"@, JsonScalarV::Str("enemy_destroyed"@))] + seq![fld("enemy"@, JsonScalarV::Int(*enemy as int))] + (match enemy_name { Some(v) => seq![fld("enemy_name"@, JsonScalarV::Str(v@))], None => Seq::empty() }) + seq![fld("attacker"@, JsonScalarV::Int(*attacker as int))] + (match attacker_name { Some(v) => seq![fld("attacker_name"@, JsonScalarV::Str(v@))], None => Seq::empty() })
        },
        GameEvent::EnemyCreated { enemy, enemy_name } => {
            seq![fld("type"@, JsonScalarV::Str("enemy_created"@))] + seq![fld("enemy"@, JsonScalarV::Int(*enemy as int))] + (match enemy_name { Some(v) => seq![fld("enemy_name"@, JsonScalarV::Str(v@))], None => Seq::empty() })
        },
        GameEvent::EnemyFinished { enemy, enemy_name } => {
            seq![fld("type"@, JsonScalarV::Str("enemy_finished"@))] + seq![fld("enemy"@, JsonScalarV::Int(*enemy as int))] + (match enemy_name { Some(v) => seq![fld("enemy_name"@, JsonScalarV::Str(v@))], None => Seq::empty() })
        },
        GameEvent::WeaponFired { unit, unit_name, weapon_def_id } => {
            seq![fld("type"@, JsonScalarV::Str("weapon_fired"@))] + seq![fld("unit"@, JsonScalarV::Int(*unit as int))] + (match unit_name { Some(v) => seq![fld("unit_name"@, JsonScalarV::Str(v@))], None => Seq::empty() }) + seq![fld("weapon_def_id"@, JsonScalarV::Int(*weapon_def_id as int))]
        },
        GameEvent::CommandFinished { unit, unit_name, command_id, command_topic } => {
            seq![fld("type"@, JsonScalarV::Str("command_finished"@))] + seq![fld("unit"@, JsonScalarV::Int(*unit as int))] + (match unit_name { Some(v) => seq![fld("unit_name"@, JsonScalarV::Str(v@))], None => Seq::empty() }) + seq![fld("command_id"@, JsonScalarV::Int(*command_id as int))] + seq![fld("command_topic"@, JsonScalarV::Int(*command_topic as int))]
        },
        GameEvent::LuaMessage { data } => {
            seq![fld("type"@, JsonScalarV::Str("lua_message"@))] + seq![fld("data"@, JsonScalarV::Str(data@))]
        },
        GameEvent::CommandError { error, command } => {
            seq![fld("type"@, JsonScalarV::Str("command_error"@))] + seq![fld("error"@, JsonScalarV::Str(error@))] + seq![fld("command"@, JsonScalarV::Str(command@))]
        },
    }
}

/// Write one event as its wire line.
pub fn encode_event(e: &GameEvent) -> (r: String)
    ensures
        r@ == spec_enc_obj(event_fields(e)),
{
    let mut fs: Vec<JsonField> = Vec::new();
    match e {
        GameEvent::Init { frame, saved_game } => {
            push_fld(&mut fs, "type", JsonScalar::Str(to_owned_string("init")));
            push_fld(&mut fs, "frame", JsonScalar::Int(*frame as i64));
            push_fld(&mut fs, "saved_game", JsonScalar::Bool(*saved_game));
        },
        GameEvent::Release { reason } => {
            push_fld(&mut fs, "type", JsonScalar::Str(to_owned_string("release")));
            push_fld(&mut fs, "reason", JsonScalar::Int(*reason as i64));
        },
        GameEvent::Update { frame } => {
            push_fld(&mut fs, "type", JsonScalar::Str(to_owned_string("update")));
            push_fld(&mut fs, "frame", JsonScalar::Int(*frame as i64));
        },
        GameEvent::Message { player, text } => {
            push_fld(&mut fs, "type", JsonScalar::Str(to_owned_string("message")));
            push_fld(&mut fs, "player", JsonScalar::Int(*player as i64));
            push_fld(&mut fs, "text", JsonScalar::Str(text.clone()));
        },
        GameEvent::UnitCreated { unit, unit_name, builder, builder_name } => {
            push_fld(&mut fs, "type", JsonScalar::Str(to_owned_string("unit_created")));
            push_fld(&mut fs, "unit", JsonScalar::Int(*unit as i64));
            match unit_name {
                Some(v) => push_fld(&mut fs, "unit_name", JsonScalar::Str(v.clone())),
                None => (),
            }
            push_fld(&mut fs, "builder", JsonScalar::Int(*builder as i64));
            match builder_name {
                Some(v) => push_fld(&mut fs, "builder_name", JsonScalar::Str(v.clone())),
                None => (),
            }
        },
        GameEvent::UnitFinished { unit, unit_name } => {
            push_fld(&mut fs, "type", JsonScalar::Str(to_owned_string("unit_finished")));
            push_fld(&mut fs, "unit", JsonScalar::Int(*unit as i64));
            match unit_name {
                Some(v) => push_fld(&mut fs, "unit_name", JsonScalar::Str(v.clone())),
                None => (),
            }
        },
        GameEvent::UnitIdle { unit, unit_name } => {
            push_fld(&mut fs, "type", JsonScalar::Str(to_owned_string("unit_idle")));
            push_fld(&mut fs, "unit", JsonScalar::Int(*unit as i64));
            match unit_name {
                Some(v) => push_fld(&mut fs, "unit_name", JsonScalar::Str(v.clone())),
                None => (),
            }
        },
        GameEvent::UnitMoveFailed { unit, unit_name } => {
            push_fld(&mut fs, "type", JsonScalar::Str(to_owned_string("unit_move_failed")));
            push_fld(&mut fs, "unit", JsonScalar::Int(*unit as i64));
            match unit_name {
                Some(v) => push_fld(&mut fs, "unit_name", JsonScalar::Str(v.clone())),
                None => (),
            }
        },
        GameEvent::UnitDamaged { unit, unit_name, attacker, attacker_name, damage, weapon_def_id, paralyzer } => {
            push_fld(&mut fs, "type", JsonScalar::Str(to_owned_string("unit_damaged")));
            push_fld(&mut fs, "unit", JsonScalar::Int(*unit as i64));
            match unit_name {
                Some(v) => push_fld(&mut fs, "unit_name", JsonScalar::Str(v.clone())),
                None => (),
            }
            push_fld(&mut fs, "attacker", JsonScalar::Int(*attacker as i64));
            match attacker_name {
                Some(v) => push_fld(&mut fs, "attacker_name", JsonScalar::Str(v.clone())),
                None => (),
            }
            push_fld(&mut fs, "damage", num_to_scalar(damage));
            push_fld(&mut fs, "weapon_def_id", JsonScalar::Int(*weapon_def_id as i64));
            push_fld(&mut fs, "paralyzer", JsonScalar::Bool(*paralyzer));
        },
        GameEvent::UnitDestroyed { unit, unit_name, attacker, attacker_name, weapon_def_id } => {
            push_fld(&mut fs, "type", JsonScalar::Str(to_owned_string("unit_destroyed")));
            push_fld(&mut fs, "unit", JsonScalar::Int(*unit as i64));
            match unit_name {
                Some(v) => push_fld(&mut fs, "unit_name", JsonScalar::Str(v.clone())),
                None => (),
            }
            push_fld(&mut fs, "attacker", JsonScalar::Int(*attacker as i64));
            match attacker_name {
                Some(v) => push_fld(&mut fs, "attacker_name", JsonScalar::Str(v.clone())),
                None => (),
            }
            push_fld(&mut fs, "weapon_def_id", JsonScalar::Int(*weapon_def_id as i64));
        },
        GameEvent::UnitGiven { unit, unit_name, old_team, new_team } => {
            push_fld(&mut fs, "type", JsonScalar::Str(to_owned_string("unit_given")));
            push_fld(&mut fs, "unit", JsonScalar::Int(*unit as i64));
            match unit_name {
                Some(v) => push_fld(&mut fs, "unit_name", JsonScalar::Str(v.clone())),
                None => (),
            }
            push_fld(&mut fs, "old_team", JsonScalar::Int(*old_team as i64));
            push_fld(&mut fs, "new_team", JsonScalar::Int(*new_team as i64));
        },
        GameEvent::UnitCaptured { unit, unit_name, old_team, new_team } => {
            push_fld(&mut fs, "type", JsonScalar::Str(to_owned_string("unit_captured")));
            push_fld(&mut fs, "unit", JsonScalar::Int(*unit as i64));
            match unit_name {
                Some(v) => push_fld(&mut fs, "unit_name", JsonScalar::Str(v.clone())),
                None => (),
            }
            push_fld(&mut fs, "old_team", JsonScalar::Int(*old_team as i64));
            push_fld(&mut fs, "new_team", JsonScalar::Int(*new_team as i64));
        },
        GameEvent::EnemyEnterLos { enemy, enemy_name } => {
            push_fld(&mut fs, "type", JsonScalar::Str(to_owned_string("enemy_enter_los")));
            push_fld(&mut fs, "enemy", JsonScalar::Int(*enemy as i64));
            match enemy_name {
                Some(v) => push_fld(&mut fs, "enemy_name", JsonScalar::Str(v.clone())),
                None => (),
            }
        },
        GameEvent::EnemyLeaveLos { enemy, enemy_name } => {
            push_fld(&mut fs, "type", JsonScalar::Str(to_owned_string("enemy_leave_los")));
            push_fld(&mut fs, "enemy", JsonScalar::Int(*enemy as i64));
            match enemy_name {
                Some(v) => push_fld(&mut fs, "enemy_name", JsonScalar::Str(v.clone())),
                None => (),
            }
        },
        GameEvent::EnemyEnterRadar { enemy, enemy_name } => {
            push_fld(&mut fs, "type", JsonScalar::Str(to_owned_string("enemy_enter_radar")));
            push_fld(&mut fs, "enemy", JsonScalar::Int(*enemy as i64));
            match enemy_name {
                Some(v) => push_fld(&mut fs, "enemy_name", JsonScalar::Str(v.clone())),
                None => (),
            }
        },
        GameEvent::EnemyLeaveRadar { enemy, enemy_name } => {
            push_fld(&mut fs, "type", JsonScalar::Str(to_owned_string("enemy_leave_radar")));
            push_fld(&mut fs, "enemy", JsonScalar::Int(*enemy as i64));
            match enemy_name {
                Some(v) => push_fld(&mut fs, "enemy_name", JsonScalar::Str(v.clone())),
                None => (),
            }
        },
        GameEvent::EnemyDamaged { enemy, enemy_name, attacker, attacker_name, damage, weapon_def_id, paralyzer } => {
            push_fld(&mut fs, "type", JsonScalar::Str(to_owned_string("enemy_damaged")));
            push_fld(&mut fs, "enemy", JsonScalar::Int(*enemy as i64));
            match enemy_name {
                Some(v) => push_fld(&mut fs, "enemy_name", JsonScalar::Str(v.clone())),
                None => (),
            }
            push_fld(&mut fs, "attacker", JsonScalar::Int(*attacker as i64));
            match attacker_name {
                Some(v) => push_fld(&mut fs, "attacker_name", JsonScalar::Str(v.clone())),
                None => (),
            }
            push_fld(&mut fs, "damage", num_to_scalar(damage));
            push_fld(&mut fs, "weapon_def_id", JsonScalar::Int(*weapon_def_id as i64));
            push_fld(&mut fs, "paralyzer", JsonScalar::Bool(*paralyzer));
        },
        GameEvent::EnemyDestroyed { enemy, enemy_name, attacker, attacker_name } => {
            push_fld(&mut fs, "type", JsonScalar::Str(to_owned_string("enemy_destroyed")));
            push_fld(&mut fs, "enemy", JsonScalar::Int(*enemy as i64));
            match enemy_name {
                Some(v) => push_fld(&mut fs, "enemy_name", JsonScalar::Str(v.clone())),
                None => (),
            }
            push_fld(&mut fs, "attacker", JsonScalar::Int(*attacker as i64));
            match attacker_name {
                Some(v) => push_fld(&mut fs, "attacker_name", JsonScalar::Str(v.clone())),
                None => (),
            }
        },
        GameEvent::EnemyCreated { enemy, enemy_name } => {
            push_fld(&mut fs, "type", JsonScalar::Str(to_owned_string("enemy_created")));
            push_fld(&mut fs, "enemy", JsonScalar::Int(*enemy as i64));
            match enemy_name {
                Some(v) => push_fld(&mut fs, "enemy_name", JsonScalar::Str(v.clone())),
                None => (),
            }
        },
        GameEvent::EnemyFinished { enemy, enemy_name } => {
            push_fld(&mut fs, "type", JsonScalar::Str(to_owned_string("enemy_finished")));
            push_fld(&mut fs, "enemy", JsonScalar::Int(*enemy as i64));
            match enemy_name {
                Some(v) => push_fld(&mut fs, "enemy_name", JsonScalar::Str(v.clone())),
                None => (),
            }
        },
        GameEvent::WeaponFired { unit, unit_name, weapon_def_id } => {
            push_fld(&mut fs, "type", JsonScalar::Str(to_owned_string("weapon_fired")));
            push_fld(&mut fs, "unit", JsonScalar::Int(*unit as i64));
            match unit_name {
                Some(v) => push_fld(&mut fs, "unit_name", JsonScalar::Str(v.clone())),
                None => (),
            }
            push_fld(&mut fs, "weapon_def_id", JsonScalar::Int(*weapon_def_id as i64));
        },
        GameEvent::CommandFinished { unit, unit_name, command_id, command_topic } => {
            push_fld(&mut fs, "type", JsonScalar::Str(to_owned_string("command_finished")));
            push_fld(&mut fs, "unit", JsonScalar::Int(*unit as i64));
            match unit_name {
                Some(v) => push_fld(&mut fs, "unit_name", JsonScalar::Str(v.clone())),
                None => (),
            }
            push_fld(&mut fs, "command_id", JsonScalar::Int(*command_id as i64));
            push_fld(&mut fs, "command_topic", JsonScalar::Int(*command_topic as i64));
        },
        GameEvent::LuaMessage { data } => {
            push_fld(&mut fs, "type", JsonScalar::Str(to_owned_string("lua_message")));
            push_fld(&mut fs, "data", JsonScalar::Str(data.clone()));
        },
        GameEvent::CommandError { error, command } => {
            push_fld(&mut fs, "type", JsonScalar::Str(to_owned_string("command_error")));
            push_fld(&mut fs, "error", JsonScalar::Str(error.clone()));
            push_fld(&mut fs, "command", JsonScalar::Str(command.clone()));
        },
    }
    proof {
        assert(fields_view(fs@) =~= event_fields(e));
    }
    encode_object(&fs)
}
pub open spec fn spec_enrichment_ids(e: &GameEvent) -> (Option<i32>, Option<i32>) {
    match e {
        GameEvent::UnitCreated { unit, builder, .. } => (Some(*unit), Some(*builder)),
        GameEvent::UnitDamaged { unit, attacker, .. } => (Some(*unit), Some(*attacker)),
        GameEvent::UnitDestroyed { unit, attacker, .. } => (Some(*unit), Some(*attacker)),
        GameEvent::EnemyDamaged { enemy, attacker, .. } => (Some(*enemy), Some(*attacker)),
        GameEvent::EnemyDestroyed { enemy, attacker, .. } => (Some(*enemy), Some(*attacker)),
        GameEvent::UnitFinished { unit, .. } => (Some(*unit), None),
        GameEvent::UnitIdle { unit, .. } => (Some(*unit), None),
        GameEvent::UnitMoveFailed { unit, .. } => (Some(*unit), None),
        GameEvent::UnitGiven { unit, .. } => (Some(*unit), None),
        GameEvent::UnitCaptured { unit, .. } => (Some(*unit), None),
        GameEvent::EnemyEnterLos { enemy, .. } => (Some(*enemy), None),
        GameEvent::EnemyLeaveLos { enemy, .. } => (Some(*enemy), None),
        GameEvent::EnemyEnterRadar { enemy, .. } => (Some(*enemy), None),
        GameEvent::EnemyLeaveRadar { enemy, .. } => (Some(*enemy), None),
        GameEvent::EnemyCreated { enemy, .. } => (Some(*enemy), None),
        GameEvent::EnemyFinished { enemy, .. } => (Some(*enemy), None),
        GameEvent::WeaponFired { unit, .. } => (Some(*unit), None),
        GameEvent::CommandFinished { unit, .. } => (Some(*unit), None),
        GameEvent::Init { .. } => (None, None),
        GameEvent::Release { .. } => (None, None),
        GameEvent::Update { .. } => (None, None),
        GameEvent::Message { .. } => (None, None),
        GameEvent::LuaMessage { .. } => (None, None),
        GameEvent::CommandError { .. } => (None, None),
    }
}

/// The unit ids an event carries that may need a resolved name:
/// the event's own unit or enemy first, then the second id (a
/// builder or an attacker) where the event has one.
pub fn enrichment_ids(e: &GameEvent) -> (r: (Option<i32>, Option<i32>))
    ensures
        r == spec_enrichment_ids(e),
{
    match e {
        GameEvent::UnitCreated { unit, builder, .. } => (Some(*unit), Some(*builder)),
        GameEvent::UnitDamaged { unit, attacker, .. } => (Some(*unit), Some(*attacker)),
        GameEvent::UnitDestroyed { unit, attacker, .. } => (Some(*unit), Some(*attacker)),
        GameEvent::EnemyDamaged { enemy, attacker, .. } => (Some(*enemy), Some(*attacker)),
        GameEvent::EnemyDestroyed { enemy, attacker, .. } => (Some(*enemy), Some(*attacker)),
        GameEvent::UnitFinished { unit, .. } => (Some(*unit), None),
        GameEvent::UnitIdle { unit, .. } => (Some(*unit), None),
        GameEvent::UnitMoveFailed { unit, .. } => (Some(*unit), None),
        GameEvent::UnitGiven { unit, .. } => (Some(*unit), None),
        GameEvent::UnitCaptured { unit, .. } => (Some(*unit), None),
        GameEvent::EnemyEnterLos { enemy, .. } => (Some(*enemy), None),
        GameEvent::EnemyLeaveLos { enemy, .. } => (Some(*enemy), None),
        GameEvent::EnemyEnterRadar { enemy, .. } => (Some(*enemy), None),
        GameEvent::EnemyLeaveRadar { enemy, .. } => (Some(*enemy), None),
        GameEvent::EnemyCreated { enemy, .. } => (Some(*enemy), None),
        GameEvent::EnemyFinished { enemy, .. } => (Some(*enemy), None),
        GameEvent::WeaponFired { unit, .. } => (Some(*unit), None),
        GameEvent::CommandFinished { unit, .. } => (Some(*unit), None),
        GameEvent::Init { .. } => (None, None),
        GameEvent::Release { .. } => (None, None),
        GameEvent::Update { .. } => (None, None),
        GameEvent::Message { .. } => (None, None),
        GameEvent::LuaMessage { .. } => (None, None),
        GameEvent::CommandError { .. } => (None, None),
    }
}

pub open spec fn spec_enrich_event(e: GameEvent, n1: Option<String>, n2: Option<String>) -> GameEvent {
    match e {
        GameEvent::Init { frame, saved_game } => GameEvent::Init { frame, saved_game },
        GameEvent::Release { reason } => GameEvent::Release { reason },
        GameEvent::Update { frame } => GameEvent::Update { frame },
        GameEvent::Message { player, text } => GameEvent::Message { player, text },
        GameEvent::UnitCreated { unit, unit_name, builder, builder_name } => GameEvent::UnitCreated { unit, unit_name: n1, builder, builder_name: n2 },
        GameEvent::UnitFinished { unit, unit_name } => GameEvent::UnitFinished { unit, unit_name: n1 },
        GameEvent::UnitIdle { unit, unit_name } => GameEvent::UnitIdle { unit, unit_name: n1 },
        GameEvent::UnitMoveFailed { unit, unit_name } => GameEvent::UnitMoveFailed { unit, unit_name: n1 },
        GameEvent::UnitDamaged { unit, unit_name, attacker, attacker_name, damage, weapon_def_id, paralyzer } => GameEvent::UnitDamaged { unit, unit_name: n1, attacker, attacker_name: n2, damage, weapon_def_id, paralyzer },
        GameEvent::UnitDestroyed { unit, unit_name, attacker, attacker_name, weapon_def_id } => GameEvent::UnitDestroyed { unit, unit_name: n1, attacker, attacker_name: n2, weapon_def_id },
        GameEvent::UnitGiven { unit, unit_name, old_team, new_team } => GameEvent::UnitGiven { unit, unit_name: n1, old_team, new_team },
        GameEvent::UnitCaptured { unit, unit_name, old_team, new_team } => GameEvent::UnitCaptured { unit, unit_name: n1, old_team, new_team },
        GameEvent::EnemyEnterLos { enemy, enemy_name } => GameEvent::EnemyEnterLos { enemy, enemy_name: n1 },
        GameEvent::EnemyLeaveLos { enemy, enemy_name } => GameEvent::EnemyLeaveLos { enemy, enemy_name: n1 },
        GameEvent::EnemyEnterRadar { enemy, enemy_name } => GameEvent::EnemyEnterRadar { enemy, enemy_name: n1 },
        GameEvent::EnemyLeaveRadar { enemy, enemy_name } => GameEvent::EnemyLeaveRadar { enemy, enemy_name: n1 },
        GameEvent::EnemyDamaged { enemy, enemy_name, attacker, attacker_name, damage, weapon_def_id, paralyzer } => GameEvent::EnemyDamaged { enemy, enemy_name: n1, attacker, attacker_name: n2, damage, weapon_def_id, paralyzer },
        GameEvent::EnemyDestroyed { enemy, enemy_name, attacker, attacker_name } => GameEvent::EnemyDestroyed { enemy, enemy_name: n1, attacker, attacker_name: n2 },
        GameEvent::EnemyCreated { enemy, enemy_name } => GameEvent::EnemyCreated { enemy, enemy_name: n1 },
        GameEvent::EnemyFinished { enemy, enemy_name } => GameEvent::EnemyFinished { enemy, enemy_name: n1 },
        GameEvent::WeaponFired { unit, unit_name, weapon_def_id } => GameEvent::WeaponFired { unit, unit_name: n1, weapon_def_id },
        GameEvent::CommandFinished { unit, unit_name, command_id, command_topic } => GameEvent::CommandFinished { unit, unit_name: n1, command_id, command_topic },
        GameEvent::LuaMessage { data } => GameEvent::LuaMessage { data },
        GameEvent::CommandError { error, command } => GameEvent::CommandError { error, command },
    }
}

/// Attach resolved names to an event: the first name goes to the
/// event's own unit or enemy slot, the second to its builder or
/// attacker slot; events without name slots are unchanged.
pub fn enrich_event(e: &mut GameEvent, n1: Option<String>, n2: Option<String>)
    ensures
        *final(e) == spec_enrich_event(*old(e), n1, n2),
{
    match e {
        GameEvent::UnitCreated { unit_name, builder_name, .. } => {
            *unit_name = n1;
            *builder_name = n2;
        },
        GameEvent::UnitDamaged { unit_name, attacker_name, .. } => {
            *unit_name = n1;
            *attacker_name = n2;
        },
        GameEvent::UnitDestroyed { unit_name, attacker_name, .. } => {
            *unit_name = n1;
            *attacker_name = n2;
        },
        GameEvent::EnemyDamaged { enemy_name, attacker_name, .. } => {
            *enemy_name = n1;
            *attacker_name = n2;
        },
        GameEvent::EnemyDestroyed { enemy_name, attacker_name, .. } => {
            *enemy_name = n1;
            *attacker_name = n2;
        },
        GameEvent::UnitFinished { unit_name, .. } => {
            *unit_name = n1;
        },
        GameEvent::UnitIdle { unit_name, .. } => {
            *unit_name = n1;
        },
        GameEvent::UnitMoveFailed { unit_name, .. } => {
            *unit_name = n1;
        },
        GameEvent::UnitGiven { unit_name, .. } => {
            *unit_name = n1;
        },
        GameEvent::UnitCaptured { unit_name, .. } => {
            *unit_name = n1;
        },
        GameEvent::EnemyEnterLos { enemy_name, .. } => {
            *enemy_name = n1;
        },
        GameEvent::EnemyLeaveLos { enemy_name, .. } => {
            *enemy_name = n1;
        },
        GameEvent::EnemyEnterRadar { enemy_name, .. } => {
            *enemy_name = n1;
        },
        GameEvent::EnemyLeaveRadar { enemy_name, .. } => {
            *enemy_name = n1;
        },
        GameEvent::EnemyCreated { enemy_name, .. } => {
            *enemy_name = n1;
        },
        GameEvent::EnemyFinished { enemy_name, .. } => {
            *enemy_name = n1;
        },
        GameEvent::WeaponFired { unit_name, .. } => {
            *unit_name = n1;
        },
        GameEvent::CommandFinished { unit_name, .. } => {
            *unit_name = n1;
        },
        _ => {},
    }
}


/// The manager-side name for the same wire events.
pub type SaiEvent = GameEvent;

/// The channel content for a forwarded engine event: its wire line.
pub fn event_to_content(e: &GameEvent) -> (r: String)
    ensures
        r@ == spec_enc_obj(event_fields(e)),
{
    encode_event(e)
}

// ── Raw events ──

/// The engine's numeric topic codes.
pub const EVENT_INIT: i32 = 1;

pub const EVENT_RELEASE: i32 = 2;

pub const EVENT_UPDATE: i32 = 3;

pub const EVENT_MESSAGE: i32 = 4;

pub const EVENT_UNIT_CREATED: i32 = 5;

pub const EVENT_UNIT_FINISHED: i32 = 6;

pub const EVENT_UNIT_IDLE: i32 = 7;

pub const EVENT_UNIT_MOVE_FAILED: i32 = 8;

pub const EVENT_UNIT_DAMAGED: i32 = 9;

pub const EVENT_UNIT_DESTROYED: i32 = 10;

pub const EVENT_UNIT_GIVEN: i32 = 11;

pub const EVENT_UNIT_CAPTURED: i32 = 12;

pub const EVENT_ENEMY_ENTER_LOS: i32 = 13;

pub const EVENT_ENEMY_LEAVE_LOS: i32 = 14;

pub const EVENT_ENEMY_ENTER_RADAR: i32 = 15;

pub const EVENT_ENEMY_LEAVE_RADAR: i32 = 16;

pub const EVENT_ENEMY_DAMAGED: i32 = 17;

pub const EVENT_ENEMY_DESTROYED: i32 = 18;

pub const EVENT_WEAPON_FIRED: i32 = 19;

pub const EVENT_COMMAND_FINISHED: i32 = 22;

pub const EVENT_ENEMY_CREATED: i32 = 25;

pub const EVENT_ENEMY_FINISHED: i32 = 26;

pub const EVENT_LUA_MESSAGE: i32 = 27;

/// The plain values read out of one raw engine event, before the topic
/// gives them meaning: the first, second and third integer of the
/// event struct, its flag, its damage value and its text, zero or
/// empty where the struct has none.
pub struct RawEvent {
    pub a: i32,
    pub b: i32,
    pub c: i32,
    pub flag: bool,
    pub damage: Number,
    pub text: String,
}

/// What a topic makes of the raw values: the typed event, with every
/// name slot still empty, or nothing for an unknown topic.
pub open spec fn spec_event_from_raw(topic: int, r: RawEvent) -> Option<GameEvent> {
    if topic == 1 {
        Some(GameEvent::Init { frame: 0, saved_game: r.flag })
    } else if topic == 2 {
        Some(GameEvent::Release { reason: r.a })
    } else if topic == 3 {
        Some(GameEvent::Update { frame: r.a })
    } else if topic == 4 {
        Some(GameEvent::Message { player: r.a, text: r.text })
    } else if topic == 5 {
        Some(
            GameEvent::UnitCreated {
                unit: r.a,
                unit_name: None,
                builder: r.b,
                builder_name: None,
            },
        )
    } else if topic == 6 {
        Some(GameEvent::UnitFinished { unit: r.a, unit_name: None })
    } else if topic == 7 {
        Some(GameEvent::UnitIdle { unit: r.a, unit_name: None })
    } else if topic == 8 {
        Some(GameEvent::UnitMoveFailed { unit: r.a, unit_name: None })
    } else if topic == 9 {
        Some(
            GameEvent::UnitDamaged {
                unit: r.a,
                unit_name: None,
                attacker: r.b,
                attacker_name: None,
                damage: r.damage,
                weapon_def_id: r.c,
                paralyzer: r.flag,
            },
        )
    } else if topic == 10 {
        Some(
            GameEvent::UnitDestroyed {
                unit: r.a,
                unit_name: None,
                attacker: r.b,
                attacker_name: None,
                weapon_def_id: r.c,
            },
        )
    } else if topic == 11 {
        Some(GameEvent::UnitGiven { unit: r.a, unit_name: None, old_team: r.b, new_team: r.c })
    } else if topic == 12 {
        Some(GameEvent::UnitCaptured { unit: r.a, unit_name: None, old_team: r.b, new_team: r.c })
    } else if topic == 13 {
        Some(GameEvent::EnemyEnterLos { enemy: r.a, enemy_name: None })
    } else if topic == 14 {
        Some(GameEvent::EnemyLeaveLos { enemy: r.a, enemy_name: None })
    } else if topic == 15 {
        Some(GameEvent::EnemyEnterRadar { enemy: r.a, enemy_name: None })
    } else if topic == 16 {
        Some(GameEvent::EnemyLeaveRadar { enemy: r.a, enemy_name: None })
    } else if topic == 17 {
        Some(
            GameEvent::EnemyDamaged {
                enemy: r.a,
                enemy_name: None,
                attacker: r.b,
                attacker_name: None,
                damage: r.damage,
                weapon_def_id: r.c,
                paralyzer: r.flag,
            },
        )
    } else if topic == 18 {
        Some(
            GameEvent::EnemyDestroyed {
                enemy: r.a,
                enemy_name: None,
                attacker: r.b,
                attacker_name: None,
            },
        )
    } else if topic == 19 {
        Some(GameEvent::WeaponFired { unit: r.a, unit_name: None, weapon_def_id: r.b })
    } else if topic == 22 {
        Some(
            GameEvent::CommandFinished {
                unit: r.a,
                unit_name: None,
                command_id: r.b,
                command_topic: r.c,
            },
        )
    } else if topic == 25 {
        Some(GameEvent::EnemyCreated { enemy: r.a, enemy_name: None })
    } else if topic == 26 {
        Some(GameEvent::EnemyFinished { enemy: r.a, enemy_name: None })
    } else if topic == 27 {
        Some(GameEvent::LuaMessage { data: r.text })
    } else {
        None
    }
}

/// Turn one raw engine event into the typed event its topic means.
pub fn parse_event(topic: i32, raw: RawEvent) -> (r: Option<GameEvent>)
    ensures
        r == spec_event_from_raw(topic as int, raw),
{
    if topic == EVENT_INIT {
        Some(GameEvent::Init { frame: 0, saved_game: raw.flag })
    } else if topic == EVENT_RELEASE {
        Some(GameEvent::Release { reason: raw.a })
    } else if topic == EVENT_UPDATE {
        Some(GameEvent::Update { frame: raw.a })
    } else if topic == EVENT_MESSAGE {
        Some(GameEvent::Message { player: raw.a, text: raw.text })
    } else if topic == EVENT_UNIT_CREATED {
        Some(
            GameEvent::UnitCreated {
                unit: raw.a,
                unit_name: None,
                builder: raw.b,
                builder_name: None,
            },
        )
    } else if topic == EVENT_UNIT_FINISHED {
        Some(GameEvent::UnitFinished { unit: raw.a, unit_name: None })
    } else if topic == EVENT_UNIT_IDLE {
        Some(GameEvent::UnitIdle { unit: raw.a, unit_name: None })
    } else if topic == EVENT_UNIT_MOVE_FAILED {
        Some(GameEvent::UnitMoveFailed { unit: raw.a, unit_name: None })
    } else if topic == EVENT_UNIT_DAMAGED {
        Some(
            GameEvent::UnitDamaged {
                unit: raw.a,
                unit_name: None,
                attacker: raw.b,
                attacker_name: None,
                damage: raw.damage,
                weapon_def_id: raw.c,
                paralyzer: raw.flag,
            },
        )
    } else if topic == EVENT_UNIT_DESTROYED {
        Some(
            GameEvent::UnitDestroyed {
                unit: raw.a,
                unit_name: None,
                attacker: raw.b,
                attacker_name: None,
                weapon_def_id: raw.c,
            },
        )
    } else if topic == EVENT_UNIT_GIVEN {
        Some(
            GameEvent::UnitGiven { unit: raw.a, unit_name: None, old_team: raw.b, new_team: raw.c },
        )
    } else if topic == EVENT_UNIT_CAPTURED {
        Some(
            GameEvent::UnitCaptured {
                unit: raw.a,
                unit_name: None,
                old_team: raw.b,
                new_team: raw.c,
            },
        )
    } else if topic == EVENT_ENEMY_ENTER_LOS {
        Some(GameEvent::EnemyEnterLos { enemy: raw.a, enemy_name: None })
    } else if topic == EVENT_ENEMY_LEAVE_LOS {
        Some(GameEvent::EnemyLeaveLos { enemy: raw.a, enemy_name: None })
    } else if topic == EVENT_ENEMY_ENTER_RADAR {
        Some(GameEvent::EnemyEnterRadar { enemy: raw.a, enemy_name: None })
    } else if topic == EVENT_ENEMY_LEAVE_RADAR {
        Some(GameEvent::EnemyLeaveRadar { enemy: raw.a, enemy_name: None })
    } else if topic == EVENT_ENEMY_DAMAGED {
        Some(
            GameEvent::EnemyDamaged {
                enemy: raw.a,
                enemy_name: None,
                attacker: raw.b,
                attacker_name: None,
                damage: raw.damage,
                weapon_def_id: raw.c,
                paralyzer: raw.flag,
            },
        )
    } else if topic == EVENT_ENEMY_DESTROYED {
        Some(
            GameEvent::EnemyDestroyed {
                enemy: raw.a,
                enemy_name: None,
                attacker: raw.b,
                attacker_name: None,
            },
        )
    } else if topic == EVENT_WEAPON_FIRED {
        Some(GameEvent::WeaponFired { unit: raw.a, unit_name: None, weapon_def_id: raw.b })
    } else if topic == EVENT_COMMAND_FINISHED {
        Some(
            GameEvent::CommandFinished {
                unit: raw.a,
                unit_name: None,
                command_id: raw.b,
                command_topic: raw.c,
            },
        )
    } else if topic == EVENT_ENEMY_CREATED {
        Some(GameEvent::EnemyCreated { enemy: raw.a, enemy_name: None })
    } else if topic == EVENT_ENEMY_FINISHED {
        Some(GameEvent::EnemyFinished { enemy: raw.a, enemy_name: None })
    } else if topic == EVENT_LUA_MESSAGE {
        Some(GameEvent::LuaMessage { data: raw.text })
    } else {
        None
    }
}

// ── Name enrichment ──

/// Whether a unit id can carry a name at all: non-positive ids (no
/// unit, no attacker) never get one.
pub fn should_resolve(unit_id: i32) -> (r: bool)
    ensures
        r == (unit_id > 0),
{
    unit_id > 0
}

/// The name an id resolves to, given what the engine answered: nothing
/// for a non-positive id, nothing when the definition lookup came back
/// negative, else the definition's name as the engine gave it.
pub open spec fn spec_name_from_lookup(
    unit_id: i32,
    def_id: i32,
    def_name: Option<String>,
) -> Option<String> {
    if unit_id <= 0 || def_id < 0 {
        None
    } else {
        def_name
    }
}

pub fn name_from_lookup(unit_id: i32, def_id: i32, def_name: Option<String>) -> (r: Option<String>)
    ensures
        r == spec_name_from_lookup(unit_id, def_id, def_name),
{
    if unit_id <= 0 || def_id < 0 {
        None
    } else {
        def_name
    }
}

// ── The per-instance slot table ──

/// One AI slot: whether its IPC link is up, and where it stands in the
/// update-throttle cycle (always below `UPDATE_INTERVAL`).
#[derive(Debug)]
pub struct PluginSlot {
    pub connected: bool,
    pub phase: u32,
}

/// The sparse table of AI instances, indexed by the engine's ai-id.
pub struct PluginTable {
    pub slots: Vec<Option<PluginSlot>>,
}

/// The slot under an ai-id, if any.
pub open spec fn spec_slot(t: &PluginTable, ai_id: int) -> Option<PluginSlot> {
    if 0 <= ai_id < t.slots@.len() {
        t.slots@[ai_id]
    } else {
        None
    }
}

/// A slot that may write to the manager: present and connected.
pub open spec fn spec_live(t: &PluginTable, ai_id: int) -> bool {
    spec_slot(t, ai_id) matches Some(s) && s.connected
}

/// What one update callback decides: whether to poll the socket for
/// commands, and whether to emit a throttled update event.
#[derive(Debug)]
pub struct UpdateStep {
    pub poll: bool,
    pub emit: bool,
}

impl PluginTable {
    /// Every stored phase is inside the throttle cycle.
    pub open spec fn wf(&self) -> bool {
        forall|j: int|
            0 <= j < self.slots@.len() ==> (#[trigger] self.slots@[j] matches Some(s) ==> s.phase
                < UPDATE_INTERVAL)
    }

    pub fn new() -> (r: PluginTable)
        ensures
            r.wf(),
            r.slots@.len() == 0,
    {
        PluginTable { slots: Vec::new() }
    }

    /// Install an instance for an ai-id (growing the sparse table as
    /// needed), with its IPC link up or not. The init event goes out
    /// exactly when the link is up.
    pub fn init(&mut self, ai_id: usize, connected: bool) -> (emit: bool)
        requires
            old(self).wf(),
        ensures
            final(self).wf(),
            spec_slot(final(self), ai_id as int) == Some(PluginSlot { connected, phase: 0u32 }),
            forall|j: int|
                0 <= j && j != ai_id ==> spec_slot(final(self), j) == spec_slot(old(self), j),
            emit == connected,
    {
        while self.slots.len() <= ai_id
            invariant
                forall|j: int|
                    0 <= j < self.slots@.len() ==> self.slots@[j] == spec_slot(old(self), j),
                forall|j: int|
                    self.slots@.len() <= j < old(self).slots@.len() ==> spec_slot(old(self), j)
                        == old(self).slots@[j],
                self.slots@.len() >= old(self).slots@.len() || self.slots@ == old(self).slots@,
                self.slots@.len() > old(self).slots@.len() ==> forall|j: int|
                    old(self).slots@.len() <= j < self.slots@.len() ==> self.slots@[j] is None,
                old(self).slots@.len() > ai_id ==> self.slots@ == old(self).slots@,
            decreases ai_id + 1 - self.slots@.len(),
        {
            proof {
                if self.slots@.len() < old(self).slots@.len() {
                    assert(false);
                }
            }
            self.slots.push(None);
        }
        self.slots.set(ai_id, Some(PluginSlot { connected, phase: 0 }));
        proof {
            assert forall|j: int|
                0 <= j < self.slots@.len() implies (#[trigger] self.slots@[j] matches Some(s)
                ==> s.phase < UPDATE_INTERVAL) by {
                if j != ai_id {
                    assert(self.slots@[j] == spec_slot(old(self), j));
                }
            }
        }
        connected
    }

    /// Drop an instance. The release event goes out exactly when the
    /// instance existed with its link up.
    pub fn release(&mut self, ai_id: usize) -> (emit: bool)
        requires
            old(self).wf(),
        ensures
            final(self).wf(),
            spec_slot(final(self), ai_id as int) is None,
            forall|j: int|
                0 <= j && j != ai_id ==> spec_slot(final(self), j) == spec_slot(old(self), j),
            emit == spec_live(old(self), ai_id as int),
    {
        if ai_id < self.slots.len() {
            let emit = match &self.slots[ai_id] {
                Some(s) => s.connected,
                None => false,
            };
            self.slots.set(ai_id, None);
            emit
        } else {
            false
        }
    }

    /// One update callback: advance the instance's throttle phase.
    /// Commands are polled on every callback of a connected instance;
    /// the update event itself goes out once per `UPDATE_INTERVAL`
    /// callbacks.
    pub fn on_update(&mut self, ai_id: usize) -> (r: UpdateStep)
        requires
            old(self).wf(),
        ensures
            final(self).wf(),
            match spec_slot(old(self), ai_id as int) {
                None => *final(self) == *old(self) && !r.poll && !r.emit,
                Some(s) => {
                    &&& spec_slot(final(self), ai_id as int) == Some(
                        PluginSlot {
                            connected: s.connected,
                            phase: (((s.phase + 1) as int) % (UPDATE_INTERVAL as int)) as u32,
                        },
                    )
                    &&& forall|j: int|
                        0 <= j && j != ai_id ==> spec_slot(final(self), j) == spec_slot(
                            old(self),
                            j,
                        )
                    &&& r.poll == s.connected
                    &&& r.emit == (s.connected && ((s.phase + 1) as int) % (
                    UPDATE_INTERVAL as int) == 0)
                },
            },
    {
        if ai_id >= self.slots.len() {
            return UpdateStep { poll: false, emit: false };
        }
        let (connected, phase) = match &self.slots[ai_id] {
            Some(s) => (s.connected, s.phase),
            None => {
                return UpdateStep { poll: false, emit: false };
            },
        };
        assert(phase < UPDATE_INTERVAL);
        let next = if phase + 1 >= UPDATE_INTERVAL {
            0u32
        } else {
            phase + 1
        };
        proof {
            if phase < UPDATE_INTERVAL {
                assert(next as int == ((phase + 1) as int) % (UPDATE_INTERVAL as int));
            }
        }
        self.slots.set(ai_id, Some(PluginSlot { connected, phase: next }));
        UpdateStep { poll: connected, emit: connected && next == 0 }
    }

    /// Whether non-update events of this instance go out at all.
    pub fn is_live(&self, ai_id: usize) -> (r: bool)
        ensures
            r == spec_live(self, ai_id as int),
    {
        if ai_id < self.slots.len() {
            match &self.slots[ai_id] {
                Some(s) => s.connected,
                None => false,
            }
        } else {
            false
        }
    }

    /// A send failure orphans the instance: the link is dropped, never
    /// reconnected, and later events are silently lost.
    pub fn on_send_error(&mut self, ai_id: usize)
        requires
            old(self).wf(),
        ensures
            final(self).wf(),
            !spec_live(final(self), ai_id as int),
            spec_slot(old(self), ai_id as int) matches Some(s) ==> spec_slot(
                final(self),
                ai_id as int,
            ) == Some(PluginSlot { connected: false, phase: s.phase }),
            forall|j: int|
                0 <= j && j != ai_id ==> spec_slot(final(self), j) == spec_slot(old(self), j),
    {
        if ai_id < self.slots.len() {
            let phase = match &self.slots[ai_id] {
                Some(s) => s.phase,
                None => {
                    return ;
                },
            };
            self.slots.set(ai_id, Some(PluginSlot { connected: false, phase }));
        }
    }
}

/// The plugin never writes for an ai-id before `init` or after
/// `release`: a missing slot is not live, and every step above asks
/// for a send only on a live slot.
pub proof fn lemma_no_write_without_slot(t: &PluginTable, ai_id: int)
    requires
        spec_slot(t, ai_id) is None,
    ensures
        !spec_live(t, ai_id),
{
}

/// With the interval at 30, exactly one of any 30 consecutive update
/// callbacks emits: from phase `p` the emission falls on callback
/// `30 - p` and on no other.
pub proof fn lemma_one_emission_per_cycle(p: int)
    requires
        0 <= p < 30,
    ensures
        exists|k: int| 1 <= k <= 30 && #[trigger] ((p + k) % 30) == 0,
        forall|k1: int, k2: int|
            1 <= k1 <= 30 && 1 <= k2 <= 30 && #[trigger] ((p + k1) % 30) == 0 && #[trigger] ((p
                + k2) % 30) == 0 ==> k1 == k2,
{
    assert((p + (30 - p)) % 30 == 0);
    assert(1 <= 30 - p <= 30);
}

// ── The outbound buffer ──

/// Cap an outbound buffer: beyond `WRITE_BUF_CAP` bytes, the oldest
/// bytes are dropped.
pub open spec fn spec_cap(s: Seq<u8>) -> Seq<u8> {
    if s.len() <= crate::WRITE_BUF_CAP {
        s
    } else {
        s.skip(s.len() - crate::WRITE_BUF_CAP)
    }
}

/// The plugin's outbound byte buffer: what could not be written to the
/// manager yet. Writes never block the engine thread; when the peer
/// stalls past the cap, the oldest bytes are dropped first.
pub struct OutBuf {
    data: Vec<u8>,
}

impl OutBuf {
    pub closed spec fn view(&self) -> Seq<u8> {
        self.data@
    }

    pub fn new() -> (r: OutBuf)
        ensures
            r@ == Seq::<u8>::empty(),
    {
        OutBuf { data: Vec::new() }
    }

    pub fn len(&self) -> (r: usize)
        ensures
            r == self@.len(),
    {
        self.data.len()
    }

    /// A borrowed view of the pending bytes, oldest first.
    pub fn pending(&self) -> (r: &[u8])
        ensures
            r@ == self@,
    {
        self.data.as_slice()
    }

    /// Queue one encoded line: append its bytes, then drop the oldest
    /// bytes over the cap.
    pub fn push_bytes(&mut self, line: &[u8])
        ensures
            final(self)@ == spec_cap(old(self)@ + line@),
    {
        let n = line.len();
        let mut i: usize = 0;
        while i < n
            invariant
                n == line@.len(),
                i <= n,
                self.data@ == old(self).data@ + line@.subrange(0, i as int),
            decreases n - i,
        {
            self.data.push(line[i]);
            proof {
                assert(self.data@ =~= old(self).data@ + line@.subrange(0, i + 1 as int));
            }
            i += 1;
        }
        proof {
            assert(line@.subrange(0, n as int) =~= line@);
        }
        let total = self.data.len();
        if total > crate::WRITE_BUF_CAP {
            let start = total - crate::WRITE_BUF_CAP;
            let mut kept: Vec<u8> = Vec::new();
            let mut j = start;
            while j < total
                invariant
                    total == self.data@.len(),
                    start <= j <= total,
                    start == total - crate::WRITE_BUF_CAP,
                    kept@ == self.data@.subrange(start as int, j as int),
                decreases total - j,
            {
                kept.push(self.data[j]);
                proof {
                    assert(self.data@.subrange(start as int, j + 1 as int)
                        =~= self.data@.subrange(start as int, j as int).push(self.data@[j as int]));
                }
                j += 1;
            }
            proof {
                assert(kept@ =~= self.data@.skip(start as int));
            }
            self.data = kept;
        }
    }

    /// Record that the socket accepted the first `n` pending bytes.
    pub fn written(&mut self, n: usize)
        requires
            n <= old(self)@.len(),
        ensures
            final(self)@ == old(self)@.skip(n as int),
    {
        let total = self.data.len();
        let mut kept: Vec<u8> = Vec::new();
        let mut j = n;
        while j < total
            invariant
                total == self.data@.len(),
                n <= j <= total,
                kept@ == self.data@.subrange(n as int, j as int),
            decreases total - j,
        {
            kept.push(self.data[j]);
            proof {
                assert(self.data@.subrange(n as int, j + 1 as int) =~= self.data@.subrange(
                    n as int,
                    j as int,
                ).push(self.data@[j as int]));
            }
            j += 1;
        }
        proof {
            assert(kept@ =~= self.data@.skip(n as int));
        }
        self.data = kept;
    }
}

/// After emitting more than the cap while the peer is stalled, the
/// oldest bytes are dropped and the newest line is retained in full.
pub proof fn lemma_newest_retained(buf: Seq<u8>, line: Seq<u8>)
    requires
        line.len() <= crate::WRITE_BUF_CAP,
    ensures
        spec_cap(buf + line).len() <= crate::WRITE_BUF_CAP,
        spec_cap(buf + line).subrange(
            spec_cap(buf + line).len() - line.len(),
            spec_cap(buf + line).len() as int,
        ) == line,
{
    let all = buf + line;
    if all.len() <= crate::WRITE_BUF_CAP {
        assert(spec_cap(all).subrange(all.len() - line.len(), all.len() as int) =~= line);
    } else {
        let kept = all.skip(all.len() - crate::WRITE_BUF_CAP);
        assert(kept.subrange(kept.len() - line.len(), kept.len() as int) =~= line);
    }
}

} // verus!
