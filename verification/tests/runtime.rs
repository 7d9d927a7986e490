//! Supervisor, lobby state machine and plugin runtime tests: channel
//! lifecycle, state resets, determinism, throttling and the write
//! buffer.

use game_manager::engine::{ChildOutcome, EngineManager, GameStatus};
use game_manager::mediator::{
    handle_channels_list, tool_lobby_join_battle, tool_lobby_leave_channel, tool_lobby_login,
    tool_lobby_say, tool_matchmaker_accept, tool_matchmaker_queue_request, LobbyAction,
};
use game_manager::plugin::{OutBuf, PluginTable};
use game_manager::state::{LobbyEvent, LobbyState};
use game_manager::WRITE_BUF_CAP;

fn manager() -> EngineManager {
    EngineManager::new("/opt/engine".to_string(), "/tmp/wd".to_string(), "/tmp".to_string())
}

#[test]
fn local_game_open_then_connect_then_close() {
    let mut m = manager();
    let plan = m.start_local_game("Comet Catcher Redux", "Zero-K v1.12.1.0", None, true);
    assert_eq!(plan.channel_id, "game:local-1");
    assert_eq!(plan.socket_path, "/tmp/sai_1.sock");
    assert!(plan.script_text.contains("Mapname=Comet Catcher Redux;"));
    assert!(plan.script_text.contains("Gametype=Zero-K v1.12.1.0;"));
    assert!(plan.script_text.contains("socket_path=/tmp/sai_1.sock;"));
    assert_eq!(plan.binary, "/opt/engine/spring-headless");

    let rows = handle_channels_list(&m);
    assert_eq!(rows.len(), 1);
    assert_eq!(rows[0].id, "game:local-1");
    assert!(matches!(rows[0].status, GameStatus::Starting));
    assert!(!rows[0].sai_connected);

    // The simulated plugin connects: the channel becomes running.
    assert!(m.on_sai_connected("game:local-1"));
    let rows = handle_channels_list(&m);
    assert!(matches!(rows[0].status, GameStatus::Running));
    assert!(rows[0].sai_connected);

    // Close it: the channel is gone.
    assert!(m.stop_game("game:local-1").is_ok());
    assert!(handle_channels_list(&m).is_empty());
}

#[test]
fn crash_removes_the_instance_from_the_listing() {
    let mut m = manager();
    let plan = m.start_local_game("Comet Catcher Redux", "Zero-K v1.12.1.0", None, true);
    let st = m.on_child_exit(&plan.channel_id, ChildOutcome::ExitCode(139)).unwrap();
    match st {
        GameStatus::Crashed(reason) => assert_eq!(reason, "Exit code: 139"),
        _ => panic!("a non-zero exit must surface as Crashed"),
    }
    assert!(handle_channels_list(&m).is_empty());
}

#[test]
fn double_stop_equals_single_stop() {
    let mut m = manager();
    let plan = m.start_local_game("m", "g", None, true);
    m.start_local_game("m2", "g2", None, true);
    assert!(m.stop_game(&plan.channel_id).is_ok());
    let after_one = handle_channels_list(&m).len();
    let e = m.stop_game(&plan.channel_id).unwrap_err();
    assert_eq!(e, "No game instance: game:local-1");
    assert_eq!(handle_channels_list(&m).len(), after_one);
}

#[test]
fn channel_ids_count_up_per_kind() {
    let mut m = manager();
    assert_eq!(m.start_local_game("m", "g", None, true).channel_id, "game:local-1");
    assert_eq!(m.start_local_game("m", "g", None, true).channel_id, "game:local-2");
    let cs = game_manager::protocol::ConnectSpringData {
        engine: "105.1".to_string(),
        game: "g".to_string(),
        ip: "10.0.0.1".to_string(),
        port: 8452,
        map: "m".to_string(),
        script_password: "pw".to_string(),
        mode: String::new(),
        title: String::new(),
        is_spectator: false,
    };
    let plan = m.start_multiplayer_game(&cs, "loom");
    assert_eq!(plan.channel_id, "game:mp-3");
    assert!(plan.script_text.contains("HostIP=10.0.0.1;"));
    assert!(plan.script_text.contains("HostPort=8452;"));
    assert!(plan.script_text.contains("MyPasswd=pw;"));
    assert!(plan.script_text.contains("IsHost=0;"));
}

#[test]
fn disconnect_resets_every_lobby_field() {
    let mut st = LobbyState::new();
    st.process_lobby_line(r#"Welcome {"Engine":"105.1","Game":"zk","UserCount":3}"#);
    st.process_lobby_line(r#"User {"Name":"alice","Level":7}"#);
    st.process_lobby_line(
        r#"BattleAdded {"Header":{"BattleID":9,"Title":"t","Founder":"f","Map":"m"}}"#,
    );
    assert!(st.connected);
    assert_eq!(st.users.len(), 1);
    assert_eq!(st.battles.len(), 1);
    let e = st.on_disconnect("read error".to_string());
    match e {
        LobbyEvent::Disconnected { reason } => assert_eq!(reason, "read error"),
        _ => panic!("a disconnect surfaces a Disconnected event"),
    }
    assert!(!st.connected);
    assert!(!st.logged_in);
    assert!(st.my_username.is_none());
    assert_eq!(st.server_engine, "");
    assert_eq!(st.server_game, "");
    assert_eq!(st.user_count, 0);
    assert_eq!(st.users.len(), 0);
    assert_eq!(st.battles.len(), 0);
    assert_eq!(st.channels.len(), 0);
    assert!(st.my_battle.is_none());
}

#[test]
fn same_lines_from_fresh_states_give_identical_events() {
    let lines = [
        r#"Welcome {"Engine":"105.1","Game":"zk","UserCount":3}"#,
        r#"LoginResponse {"ResultCode":0,"Name":"bot"}"#,
        r#"User {"Name":"alice","Level":7}"#,
        r#"User {"Name":"alice","Level":8}"#,
        r#"UserDisconnected {"Name":"alice"}"#,
    ];
    let run = |input: &[&str]| -> Vec<String> {
        let mut st = LobbyState::new();
        let mut out = Vec::new();
        for line in input {
            let (_, events) = st.process_lobby_line(line);
            for e in &events {
                out.push(format!("{:?}", event_kind(e)));
            }
        }
        out
    };
    assert_eq!(run(&lines), run(&lines));
    // The second User row for the same name updates without a join event.
    let events = run(&lines);
    assert_eq!(events, vec!["Connected", "LoggedIn", "UserJoined", "UserLeft"]);
}

#[derive(Debug)]
enum Kind {
    Connected,
    LoggedIn,
    UserJoined,
    UserLeft,
    Other,
}

fn event_kind(e: &LobbyEvent) -> Kind {
    match e {
        LobbyEvent::Connected { .. } => Kind::Connected,
        LobbyEvent::LoggedIn { .. } => Kind::LoggedIn,
        LobbyEvent::UserJoined(_) => Kind::UserJoined,
        LobbyEvent::UserLeft { .. } => Kind::UserLeft,
        _ => Kind::Other,
    }
}

#[test]
fn ping_is_answered_in_the_same_step_with_no_event() {
    let mut st = LobbyState::new();
    let (reply, events) = st.process_lobby_line("Ping {}");
    assert!(events.is_empty());
    assert_eq!(reply.unwrap().to_wire(), "Ping {}\n");
    // A bare Ping without payload is answered too.
    let (reply, events) = st.process_lobby_line("Ping");
    assert!(events.is_empty());
    assert!(reply.is_some());
}

#[test]
fn update_throttle_emits_once_per_interval_and_polls_always() {
    let mut t = PluginTable::new();
    assert!(t.init(0, true));
    let mut emits = 0;
    for _ in 0..30 {
        let step = t.on_update(0);
        assert!(step.poll);
        if step.emit {
            emits += 1;
        }
    }
    assert_eq!(emits, 1);
    // Another full interval: exactly one more.
    for _ in 0..30 {
        if t.on_update(0).emit {
            emits += 1;
        }
    }
    assert_eq!(emits, 2);
}

#[test]
fn no_output_before_init_or_after_release() {
    let mut t = PluginTable::new();
    assert!(!t.is_live(3));
    let step = t.on_update(3);
    assert!(!step.poll && !step.emit);
    t.init(3, true);
    assert!(t.is_live(3));
    assert!(t.release(3));
    assert!(!t.is_live(3));
    assert!(!t.release(3));
    // An orphaned instance stops writing but keeps handling events.
    t.init(4, true);
    t.on_send_error(4);
    assert!(!t.is_live(4));
}

#[test]
fn write_buffer_drops_oldest_and_keeps_the_newest_line() {
    let mut buf = OutBuf::new();
    let old = vec![b'x'; WRITE_BUF_CAP];
    buf.push_bytes(&old);
    assert_eq!(buf.len(), WRITE_BUF_CAP);
    let newest = vec![b'y'; 1000];
    buf.push_bytes(&newest);
    assert_eq!(buf.len(), WRITE_BUF_CAP);
    let pending = buf.pending();
    assert!(pending[WRITE_BUF_CAP - 1000..].iter().all(|b| *b == b'y'));
    assert_eq!(pending[0], b'x');
    buf.written(WRITE_BUF_CAP - 1000);
    assert_eq!(buf.len(), 1000);
    assert!(buf.pending().iter().all(|b| *b == b'y'));
}

#[test]
fn tool_routing_validates_arguments() {
    let (reply, action) = tool_lobby_login(true, None, Some("pw"));
    assert!(reply.is_error);
    assert_eq!(reply.text, "Missing username");
    assert!(matches!(action, LobbyAction::Stay));
    let (reply, _) = tool_lobby_login(false, Some("bot"), Some("pw"));
    assert!(reply.is_error);
    assert_eq!(reply.text, "Not connected to lobby. Call lobby_connect first.");
    let (reply, action) = tool_lobby_login(true, Some("bot"), Some("test"));
    assert!(!reply.is_error);
    match action {
        LobbyAction::SendLine(line) => {
            assert!(line.starts_with("Login {"));
            assert!(line.ends_with("\n"));
            assert!(line.contains(r#""PasswordHash":"CY9rzUYh03PK3k6DJie09g==""#));
        },
        _ => panic!("a valid login sends a line"),
    }
    let (reply, action) = tool_lobby_say(true, Some("zk"), Some("hello"), 0);
    assert_eq!(reply.text, "Sent to zk: hello");
    match action {
        LobbyAction::SendLine(line) => assert_eq!(
            line,
            "Say {\"Place\":0,\"Target\":\"zk\",\"Text\":\"hello\",\"IsEmote\":false}\n"
        ),
        _ => panic!("a valid say sends a line"),
    }
}

#[test]
fn rollback_is_advertised_but_not_implemented() {
    let r = game_manager::mediator::handle_state_rollback(Some("cp1"));
    assert!(!r.success);
    assert_eq!(r.checkpoint, "cp1");
    assert!(r.reason.contains("not yet implemented"));
}

#[test]
fn lobby_tools_names() {
    let tools = game_manager::mediator::lobby_tools();
    assert_eq!(tools.len(), 16);
    assert_eq!(tools[0].name, "lobby_connect");
    assert_eq!(tools[15].name, "lobby_start_game");
    assert_eq!(tools[1].required, vec!["username".to_string(), "password".to_string()]);
}

#[test]
fn battle_and_matchmaker_tools_frame_their_lines() {
    let mut st = LobbyState::new();
    st.process_lobby_line(r#"JoinChannelResponse {"ChannelName":"zk","Success":true}"#);
    assert_eq!(st.channels.len(), 1);
    let (reply, action) = tool_lobby_leave_channel(&mut st, true, Some("zk"));
    assert_eq!(reply.text, "Left #zk");
    assert!(matches!(action, LobbyAction::SendLine(ref l) if l == "LeaveChannel {\"ChannelName\":\"zk\"}\n"));
    assert_eq!(st.channels.len(), 0);

    let (reply, action) = tool_lobby_join_battle(&mut st, true, Some(17), "pw");
    assert_eq!(reply.text, "Join request sent for battle 17");
    assert!(matches!(action, LobbyAction::SendLine(ref l)
        if l == "JoinBattle {\"BattleID\":17,\"Password\":\"pw\"}\n"));
    assert_eq!(st.my_battle, Some(17));

    let (_, action) = tool_matchmaker_queue_request(vec!["1v1".to_string(), "Sortie".to_string()]);
    assert!(matches!(action, LobbyAction::SendLine(ref l)
        if l == "MatchMakerQueueRequest {\"Queues\":[\"1v1\",\"Sortie\"]}\n"));
    let (_, action) = tool_matchmaker_accept(true);
    assert!(matches!(action, LobbyAction::SendLine(ref l)
        if l == "AreYouReadyResponse {\"Ready\":true}\n"));
}
