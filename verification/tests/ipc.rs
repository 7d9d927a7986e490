//! Engine IPC tests: the JSON line format, the command round trip, the
//! publish path, event encoding and enrichment.

use game_manager::ipc::{
    dispatch_plan, dispatch_result, encode_command, parse_command, parse_publish_command,
    GameCommand, Number, COMMAND_UNIT_MOVE, UNIT_COMMAND_OPTION_SHIFT_KEY,
};
use game_manager::plugin::{
    enrich_event, encode_event, event_to_content, name_from_lookup, should_resolve, GameEvent,
};

#[test]
fn publish_text_reaches_the_plugin_as_a_move() {
    let text = r#"{"type":"move","unit_id":42,"x":1,"y":0,"z":2,"queue":true}"#;
    let cmd = parse_publish_command(text).unwrap();
    match &cmd {
        GameCommand::Move { unit_id, x, y, z, queue } => {
            assert_eq!(*unit_id, 42);
            assert!(*queue);
            assert!(matches!(x, Number::Int(1)));
            assert!(matches!(y, Number::Int(0)));
            assert!(matches!(z, Number::Int(2)));
        },
        _ => panic!("expected a move command"),
    }
}

#[test]
fn command_round_trip_keeps_field_values() {
    let cmd = GameCommand::Move {
        unit_id: 42,
        x: Number::Lit("1.5".to_string()),
        y: Number::Int(0),
        z: Number::Int(-7),
        queue: true,
    };
    let wire = encode_command(&cmd);
    let back = parse_command(&wire).unwrap();
    match back {
        GameCommand::Move { unit_id, x, y, z, queue } => {
            assert_eq!(unit_id, 42);
            assert!(queue);
            assert!(matches!(x, Number::Lit(ref t) if t == "1.5"));
            assert!(matches!(y, Number::Int(0)));
            assert!(matches!(z, Number::Int(-7)));
        },
        _ => panic!("round trip changed the command"),
    }
}

#[test]
fn chat_round_trip_keeps_escaped_text() {
    let cmd = GameCommand::SendChat { text: "say \"hi\"\nback\\slash".to_string() };
    let wire = encode_command(&cmd);
    let back = parse_command(&wire).unwrap();
    match back {
        GameCommand::SendChat { text } => assert_eq!(text, "say \"hi\"\nback\\slash"),
        _ => panic!("round trip changed the command"),
    }
}

#[test]
fn malformed_publish_text_is_refused() {
    let e = parse_publish_command("this is not json").unwrap_err();
    assert_eq!(e, "invalid command JSON");
    assert!(parse_publish_command(r#"{"type":"move"}"#).is_err());
}

#[test]
fn field_order_does_not_matter_when_reading() {
    let text = r#"{"queue":false,"z":3,"y":2,"x":1,"unit_id":9,"type":"patrol"}"#;
    let cmd = parse_command(text).unwrap();
    match cmd {
        GameCommand::Patrol { unit_id, queue, .. } => {
            assert_eq!(unit_id, 9);
            assert!(!queue);
        },
        _ => panic!("expected a patrol command"),
    }
}

#[test]
fn missing_queue_defaults_to_replacing() {
    let cmd = parse_command(r#"{"type":"stop","unit_id":5}"#).unwrap();
    assert!(matches!(cmd, GameCommand::Stop { unit_id: 5 }));
    let cmd = parse_command(r#"{"type":"attack","unit_id":5,"target_id":6}"#).unwrap();
    match cmd {
        GameCommand::Attack { queue, .. } => assert!(!queue),
        _ => panic!("expected an attack command"),
    }
}

#[test]
fn queue_sets_the_shift_key_option() {
    let queued = GameCommand::Move {
        unit_id: 1,
        x: Number::Int(0),
        y: Number::Int(0),
        z: Number::Int(0),
        queue: true,
    };
    let call = dispatch_plan(&queued).unwrap();
    assert_eq!(call.command_topic, COMMAND_UNIT_MOVE);
    assert_eq!(call.options, UNIT_COMMAND_OPTION_SHIFT_KEY);
    assert_eq!(call.group_id, -1);
    let plain = GameCommand::Stop { unit_id: 1 };
    let call = dispatch_plan(&plain).unwrap();
    assert_eq!(call.options, 0);
    assert!(dispatch_plan(&GameCommand::Pause).is_none());
}

#[test]
fn dispatch_result_reports_the_code() {
    assert!(dispatch_result(0).is_ok());
    let e = dispatch_result(-3).unwrap_err();
    assert_eq!(e, "Engine_handleCommand returned -3");
}

#[test]
fn enrichment_attaches_names_per_the_lookup() {
    // A destroyed unit resolves through its definition; the absent
    // attacker stays unnamed.
    assert!(should_resolve(7));
    assert!(!should_resolve(-1));
    assert!(!should_resolve(0));
    let unit_name = name_from_lookup(7, 5, Some("cloakraid".to_string()));
    assert_eq!(unit_name.as_deref(), Some("cloakraid"));
    assert!(name_from_lookup(7, -1, Some("ghost".to_string())).is_none());
    assert!(name_from_lookup(-1, 5, Some("ghost".to_string())).is_none());

    let mut event = GameEvent::UnitDestroyed {
        unit: 7,
        unit_name: None,
        attacker: -1,
        attacker_name: None,
        weapon_def_id: 3,
    };
    enrich_event(&mut event, unit_name, None);
    let line = encode_event(&event);
    assert!(line.contains(r#""unit_name":"cloakraid""#));
    assert!(!line.contains("attacker_name"));
    assert!(line.contains(r#""weapon_def_id":3"#));
}

#[test]
fn event_lines_carry_the_type_tag_first() {
    let line = event_to_content(&GameEvent::Update { frame: 90 });
    assert_eq!(line, r#"{"type":"update","frame":90}"#);
    let line = encode_event(&GameEvent::Init { frame: 0, saved_game: false });
    assert_eq!(line, r#"{"type":"init","frame":0,"saved_game":false}"#);
}
