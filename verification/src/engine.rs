//! The engine supervisor's verified core: the instance table, channel
//! identity, status transitions, launch planning and script
//! generation. Process spawning, killing and reaping happen outside;
//! their outcomes come back in as events.

use crate::keymap::StrMap;
use crate::numfmt::{i32_to_string, spec_int_str, spec_nat_str, u64_to_string};
use crate::protocol::{ConnectSpringData, ConnectSpringDataV};
use crate::text::to_owned_string;
use vstd::prelude::*;
use vstd::string::StringExecFns;

verus! {

/// Where an engine instance stands in its life.
#[derive(Debug)]
pub enum GameStatus {
    Starting,
    Running,
    Stopped,
    Crashed(String),
}

/// The model of a status.
pub ghost enum GameStatusV {
    Starting,
    Running,
    Stopped,
    Crashed(Seq<char>),
}

impl View for GameStatus {
    type V = GameStatusV;

    open spec fn view(&self) -> GameStatusV {
        match self {
            GameStatus::Starting => GameStatusV::Starting,
            GameStatus::Running => GameStatusV::Running,
            GameStatus::Stopped => GameStatusV::Stopped,
            GameStatus::Crashed(m) => GameStatusV::Crashed(m@),
        }
    }
}

/// How a reaped child ended.
#[derive(Debug)]
pub enum ChildOutcome {
    CleanExit,
    ExitCode(i32),
    Failure(String),
}

/// Connection settings for a multiplayer client launch.
pub struct MultiplayerConfig {
    pub host_ip: String,
    pub host_port: i32,
    pub player_name: String,
    pub script_password: String,
}

pub ghost struct MultiplayerConfigV {
    pub host_ip: Seq<char>,
    pub host_port: int,
    pub player_name: Seq<char>,
    pub script_password: Seq<char>,
}

impl View for MultiplayerConfig {
    type V = MultiplayerConfigV;

    open spec fn view(&self) -> MultiplayerConfigV {
        MultiplayerConfigV {
            host_ip: self.host_ip@,
            host_port: self.host_port as int,
            player_name: self.player_name@,
            script_password: self.script_password@,
        }
    }
}

/// Everything one engine launch needs.
pub struct GameConfig {
    pub map: String,
    pub game: String,
    pub engine_dir: String,
    pub write_dir: String,
    pub headless: bool,
    pub socket_path: String,
    pub agent_ai: String,
    pub agent_team: i32,
    pub opponent_ai: Option<String>,
    pub opponent_team: i32,
    pub multiplayer: Option<MultiplayerConfig>,
}

pub ghost struct GameConfigV {
    pub map: Seq<char>,
    pub game: Seq<char>,
    pub engine_dir: Seq<char>,
    pub write_dir: Seq<char>,
    pub headless: bool,
    pub socket_path: Seq<char>,
    pub agent_ai: Seq<char>,
    pub agent_team: int,
    pub opponent_ai: Option<Seq<char>>,
    pub opponent_team: int,
    pub multiplayer: Option<MultiplayerConfigV>,
}

impl View for GameConfig {
    type V = GameConfigV;

    open spec fn view(&self) -> GameConfigV {
        GameConfigV {
            map: self.map@,
            game: self.game@,
            engine_dir: self.engine_dir@,
            write_dir: self.write_dir@,
            headless: self.headless,
            socket_path: self.socket_path@,
            agent_ai: self.agent_ai@,
            agent_team: self.agent_team as int,
            opponent_ai: match &self.opponent_ai {
                Some(v) => Some(v@),
                None => None,
            },
            opponent_team: self.opponent_team as int,
            multiplayer: match &self.multiplayer {
                Some(v) => Some(v@),
                None => None,
            },
        }
    }
}

/// One tracked engine instance. The child process itself lives
/// outside; `has_process` says whether one is believed alive, and
/// `ipc_connected` whether its plugin's socket was accepted.
pub struct EngineInstance {
    pub channel_id: String,
    pub has_process: bool,
    pub ipc_connected: bool,
    pub status: GameStatus,
    pub config: GameConfig,
    pub checkpoints: Vec<String>,
}

#[verifier::ext_equal]
pub ghost struct EngineInstanceV {
    pub channel_id: Seq<char>,
    pub has_process: bool,
    pub ipc_connected: bool,
    pub status: GameStatusV,
    pub config: GameConfigV,
    pub checkpoints: Seq<Seq<char>>,
}

impl View for EngineInstance {
    type V = EngineInstanceV;

    open spec fn view(&self) -> EngineInstanceV {
        EngineInstanceV {
            channel_id: self.channel_id@,
            has_process: self.has_process,
            ipc_connected: self.ipc_connected,
            status: self.status@,
            config: self.config@,
            checkpoints: self.checkpoints@.map_values(|u: String| u@),
        }
    }
}

/// The path of the engine binary under an engine directory.
pub open spec fn spec_engine_binary(engine_dir: Seq<char>, headless: bool) -> Seq<char> {
    if headless {
        engine_dir + "/spring-headless"@
    } else {
        engine_dir + "/spring"@
    }
}

/// Resolve the engine binary path from an engine directory.
pub fn resolve_engine_binary(engine_dir: &str, headless: bool) -> (r: String)
    ensures
        r@ == spec_engine_binary(engine_dir@, headless),
{
    let mut r = to_owned_string(engine_dir);
    if headless {
        r.append("/spring-headless");
    } else {
        r.append("/spring");
    }
    r
}

// ── Launch scripts ──

/// The start script for a local skirmish: the manager spectates, the
/// bridge AI sits on one team against an opponent AI on the other.
pub open spec fn spec_local_script(c: GameConfigV) -> Seq<char> {
    let opponent = match c.opponent_ai {
        Some(o) => o,
        None => "CircuitAINovice"@,
    };
    "[GAME]\n{\n    Mapname="@ + c.map + ";\n    Gametype="@ + c.game
        + ";\n    IsHost=1;\n    MyPlayerNum=0;\n    MyPlayerName=GameManager;\n    StartPosType=2;\n    NumPlayers=1;\n    NumUsers=3;\n    NumTeams=2;\n    NumAllyTeams=2;\n\n    [PLAYER0]\n    {\n        Name=GameManager;\n        Team=-1;\n        Spectator=1;\n    }\n\n    [AI0]\n    {\n        Name=AgentBridge;\n        ShortName="@
        + c.agent_ai + ";\n        Version=0.1;\n        Team="@ + spec_int_str(c.agent_team)
        + ";\n        Host=0;\n        [Options]\n        {\n            socket_path="@
        + c.socket_path + ";\n        }\n    }\n\n    [AI1]\n    {\n        Name="@ + opponent
        + ";\n        ShortName="@ + opponent + ";\n        Team="@ + spec_int_str(
        c.opponent_team,
    )
        + ";\n        Host=0;\n    }\n\n    [TEAM0] { TeamLeader=0; AllyTeam=0; }\n    [TEAM1] { TeamLeader=0; AllyTeam=1; }\n    [ALLYTEAM0] { NumAllies=0; }\n    [ALLYTEAM1] { NumAllies=0; }\n}"@
}

/// The start script for joining a remote multiplayer game.
pub open spec fn spec_multiplayer_script(m: MultiplayerConfigV) -> Seq<char> {
    "[GAME]\n{\n    HostIP="@ + m.host_ip + ";\n    HostPort="@ + spec_int_str(m.host_port)
        + ";\n    MyPlayerName="@ + m.player_name + ";\n    MyPasswd="@ + m.script_password
        + ";\n    IsHost=0;\n}"@
}

/// Write the local-skirmish start script.
pub fn generate_local_script(c: &GameConfig) -> (r: String)
    ensures
        r@ == spec_local_script(c@),
{
    let mut s = to_owned_string("[GAME]\n{\n    Mapname=");
    s.append(c.map.as_str());
    s.append(";\n    Gametype=");
    s.append(c.game.as_str());
    s.append(
        ";\n    IsHost=1;\n    MyPlayerNum=0;\n    MyPlayerName=GameManager;\n    StartPosType=2;\n    NumPlayers=1;\n    NumUsers=3;\n    NumTeams=2;\n    NumAllyTeams=2;\n\n    [PLAYER0]\n    {\n        Name=GameManager;\n        Team=-1;\n        Spectator=1;\n    }\n\n    [AI0]\n    {\n        Name=AgentBridge;\n        ShortName=",
    );
    s.append(c.agent_ai.as_str());
    s.append(";\n        Version=0.1;\n        Team=");
    s.append(i32_to_string(c.agent_team).as_str());
    s.append(";\n        Host=0;\n        [Options]\n        {\n            socket_path=");
    s.append(c.socket_path.as_str());
    s.append(";\n        }\n    }\n\n    [AI1]\n    {\n        Name=");
    let opponent = match &c.opponent_ai {
        Some(o) => o.as_str(),
        None => "CircuitAINovice",
    };
    s.append(opponent);
    s.append(";\n        ShortName=");
    s.append(opponent);
    s.append(";\n        Team=");
    s.append(i32_to_string(c.opponent_team).as_str());
    s.append(
        ";\n        Host=0;\n    }\n\n    [TEAM0] { TeamLeader=0; AllyTeam=0; }\n    [TEAM1] { TeamLeader=0; AllyTeam=1; }\n    [ALLYTEAM0] { NumAllies=0; }\n    [ALLYTEAM1] { NumAllies=0; }\n}",
    );
    proof {
        assert(s@ =~= spec_local_script(c@));
    }
    s
}

/// Write the multiplayer-client start script.
pub fn generate_multiplayer_script(m: &MultiplayerConfig) -> (r: String)
    ensures
        r@ == spec_multiplayer_script(m@),
{
    let mut s = to_owned_string("[GAME]\n{\n    HostIP=");
    s.append(m.host_ip.as_str());
    s.append(";\n    HostPort=");
    s.append(i32_to_string(m.host_port).as_str());
    s.append(";\n    MyPlayerName=");
    s.append(m.player_name.as_str());
    s.append(";\n    MyPasswd=");
    s.append(m.script_password.as_str());
    s.append(";\n    IsHost=0;\n}");
    proof {
        assert(s@ =~= spec_multiplayer_script(m@));
    }
    s
}

// ── The manager ──

/// Everything the caller needs to launch one engine child: run the
/// binary with `--write-dir <write_dir> <script>` after writing the
/// script file.
#[derive(Debug)]
pub struct LaunchPlan {
    pub channel_id: String,
    pub binary: String,
    pub write_dir: String,
    pub script_rel_path: String,
    pub script_text: String,
    pub socket_path: String,
}

/// The supervisor's state: the instance table, the channel counter,
/// and the directories launches use.
pub struct EngineManager {
    pub instances: StrMap<EngineInstance>,
    pub next_id: u32,
    pub engine_dir: String,
    pub write_dir: String,
    pub socket_dir: String,
}

impl EngineManager {
    /// The supervisor's invariant: a well-formed table, and no
    /// instance Running unless its plugin connection was accepted.
    pub open spec fn inv(&self) -> bool {
        &&& self.instances.wf()
        &&& forall|k: Seq<char>|
            self.instances@.contains_key(k) ==> ((#[trigger] self.instances@[k]).status
                is Running ==> self.instances@[k].ipc_connected)
    }

    pub fn new(engine_dir: String, write_dir: String, socket_dir: String) -> (r: EngineManager)
        ensures
            r.inv(),
            r.instances@ == Map::<Seq<char>, EngineInstanceV>::empty(),
            r.next_id == 1,
            r.engine_dir@ == engine_dir@,
            r.write_dir@ == write_dir@,
            r.socket_dir@ == socket_dir@,
    {
        EngineManager {
            instances: StrMap::new(),
            next_id: 1,
            engine_dir,
            write_dir,
            socket_dir,
        }
    }

    /// Start a local skirmish: allocate the next local channel id,
    /// compute the socket path and script, and track the instance as
    /// Starting. The caller performs the launch the plan describes.
    pub fn start_local_game(
        &mut self,
        map: &str,
        game: &str,
        opponent: Option<&str>,
        headless: bool,
    ) -> (r: LaunchPlan)
        requires
            old(self).inv(),
            old(self).next_id < u32::MAX,
        ensures
            final(self).inv(),
            final(self).next_id == old(self).next_id + 1,
            r.channel_id@ == "game:local-"@ + spec_nat_str(old(self).next_id as nat),
            r.socket_path@ == old(self).socket_dir@ + "/sai_"@ + spec_nat_str(
                old(self).next_id as nat,
            ) + ".sock"@,
            final(self).instances@ == old(self).instances@.insert(
                r.channel_id@,
                final(self).instances@[r.channel_id@],
            ),
            final(self).instances@.contains_key(r.channel_id@),
            final(self).instances@[r.channel_id@].status == GameStatusV::Starting,
            final(self).instances@[r.channel_id@].ipc_connected == false,
            final(self).instances@[r.channel_id@].has_process == true,
            final(self).instances@[r.channel_id@].config.map == map@,
            final(self).instances@[r.channel_id@].config.game == game@,
            final(self).instances@[r.channel_id@].config.socket_path == r.socket_path@,
            r.script_text@ == spec_local_script(
                final(self).instances@[r.channel_id@].config,
            ),
            r.binary@ == spec_engine_binary(old(self).engine_dir@, headless),
    {
        let id = self.next_id;
        self.next_id = self.next_id + 1;
        let id_str = u64_to_string(id as u64);
        let mut channel_id = to_owned_string("game:local-");
        channel_id.append(id_str.as_str());
        let mut socket_path = self.socket_dir.clone();
        socket_path.append("/sai_");
        socket_path.append(id_str.as_str());
        socket_path.append(".sock");
        let opponent_ai = match opponent {
            Some(o) => to_owned_string(o),
            None => to_owned_string("CircuitAINovice"),
        };
        let config = GameConfig {
            map: to_owned_string(map),
            game: to_owned_string(game),
            engine_dir: self.engine_dir.clone(),
            write_dir: self.write_dir.clone(),
            headless,
            socket_path: socket_path.clone(),
            agent_ai: to_owned_string("AgentBridge"),
            agent_team: 0,
            opponent_ai: Some(opponent_ai),
            opponent_team: 1,
            multiplayer: None,
        };
        let script_text = generate_local_script(&config);
        let binary = resolve_engine_binary(self.engine_dir.as_str(), headless);
        let mut script_rel_path = to_owned_string("temp/gm_script_game_local-");
        script_rel_path.append(id_str.as_str());
        script_rel_path.append(".txt");
        let write_dir = self.write_dir.clone();
        let instance = EngineInstance {
            channel_id: channel_id.clone(),
            has_process: true,
            ipc_connected: false,
            status: GameStatus::Starting,
            config,
            checkpoints: Vec::new(),
        };
        self.instances.insert(channel_id.clone(), instance);
        LaunchPlan {
            channel_id,
            binary,
            write_dir,
            script_rel_path,
            script_text,
            socket_path,
        }
    }

    /// Start a multiplayer client from a `ConnectSpring` lobby event.
    pub fn start_multiplayer_game(&mut self, data: &ConnectSpringData, player_name: &str) -> (r:
        LaunchPlan)
        requires
            old(self).inv(),
            old(self).next_id < u32::MAX,
        ensures
            final(self).inv(),
            final(self).next_id == old(self).next_id + 1,
            r.channel_id@ == "game:mp-"@ + spec_nat_str(old(self).next_id as nat),
            final(self).instances@ == old(self).instances@.insert(
                r.channel_id@,
                final(self).instances@[r.channel_id@],
            ),
            final(self).instances@.contains_key(r.channel_id@),
            final(self).instances@[r.channel_id@].status == GameStatusV::Starting,
            final(self).instances@[r.channel_id@].ipc_connected == false,
            final(self).instances@[r.channel_id@].config.map == data@.map,
            final(self).instances@[r.channel_id@].config.game == data@.game,
            final(self).instances@[r.channel_id@].config.multiplayer matches Some(m)
                && m.host_ip == data@.ip && m.host_port == data@.port && m.player_name
                == player_name@ && m.script_password == data@.script_password,
            r.script_text@ == spec_multiplayer_script(
                final(self).instances@[r.channel_id@].config.multiplayer->Some_0,
            ),
    {
        let id = self.next_id;
        self.next_id = self.next_id + 1;
        let id_str = u64_to_string(id as u64);
        let mut channel_id = to_owned_string("game:mp-");
        channel_id.append(id_str.as_str());
        let mut socket_path = self.socket_dir.clone();
        socket_path.append("/sai_mp_");
        socket_path.append(id_str.as_str());
        socket_path.append(".sock");
        let mp = MultiplayerConfig {
            host_ip: data.ip.clone(),
            host_port: data.port,
            player_name: to_owned_string(player_name),
            script_password: data.script_password.clone(),
        };
        let script_text = generate_multiplayer_script(&mp);
        let config = GameConfig {
            map: data.map.clone(),
            game: data.game.clone(),
            engine_dir: self.engine_dir.clone(),
            write_dir: self.write_dir.clone(),
            headless: true,
            socket_path: socket_path.clone(),
            agent_ai: to_owned_string("AgentBridge"),
            agent_team: 0,
            opponent_ai: None,
            opponent_team: 1,
            multiplayer: Some(mp),
        };
        let binary = resolve_engine_binary(self.engine_dir.as_str(), true);
        let mut script_rel_path = to_owned_string("temp/gm_script_game_mp-");
        script_rel_path.append(id_str.as_str());
        script_rel_path.append(".txt");
        let write_dir = self.write_dir.clone();
        let instance = EngineInstance {
            channel_id: channel_id.clone(),
            has_process: true,
            ipc_connected: false,
            status: GameStatus::Starting,
            config,
            checkpoints: Vec::new(),
        };
        self.instances.insert(channel_id.clone(), instance);
        LaunchPlan {
            channel_id,
            binary,
            write_dir,
            script_rel_path,
            script_text,
            socket_path,
        }
    }

    /// Record that the plugin's socket for a channel was accepted: the
    /// instance, if tracked, becomes Running. This is the only step
    /// that makes an instance Running.
    pub fn on_sai_connected(&mut self, channel_id: &str) -> (found: bool)
        requires
            old(self).inv(),
        ensures
            final(self).inv(),
            found == old(self).instances@.contains_key(channel_id@),
            found ==> final(self).instances@ == old(self).instances@.insert(
                channel_id@,
                EngineInstanceV {
                    status: GameStatusV::Running,
                    ipc_connected: true,
                    ..old(self).instances@[channel_id@]
                },
            ),
            !found ==> final(self).instances@ == old(self).instances@,
    {
        let taken = self.instances.remove(channel_id);
        match taken {
            Some(mut inst) => {
                inst.status = GameStatus::Running;
                inst.ipc_connected = true;
                self.instances.insert(to_owned_string(channel_id), inst);
                proof {
                    assert(self.instances@ =~~= old(self).instances@.insert(
                        channel_id@,
                        EngineInstanceV {
                            status: GameStatusV::Running,
                            ipc_connected: true,
                            ..old(self).instances@[channel_id@]
                        },
                    ));
                }
                true
            },
            None => {
                proof {
                    assert(self.instances@ =~= old(self).instances@);
                }
                false
            },
        }
    }

    /// Record that a child exited: the instance's status becomes
    /// Stopped on a clean exit and Crashed otherwise, and the instance
    /// leaves the table so the channel is no longer listable.
    pub fn on_child_exit(&mut self, channel_id: &str, outcome: ChildOutcome) -> (r: Option<
        GameStatus,
    >)
        requires
            old(self).inv(),
        ensures
            final(self).inv(),
            final(self).instances@ == old(self).instances@.remove(channel_id@),
            r is Some <==> old(self).instances@.contains_key(channel_id@),
            r matches Some(st) ==> st@ == match outcome {
                ChildOutcome::CleanExit => GameStatusV::Stopped,
                ChildOutcome::ExitCode(c) => GameStatusV::Crashed(
                    "Exit code: "@ + spec_int_str(c as int),
                ),
                ChildOutcome::Failure(m) => GameStatusV::Crashed(m@),
            },
    {
        let taken = self.instances.remove(channel_id);
        match taken {
            Some(_) => {
                let st = match outcome {
                    ChildOutcome::CleanExit => GameStatus::Stopped,
                    ChildOutcome::ExitCode(c) => {
                        let mut m = to_owned_string("Exit code: ");
                        m.append(i32_to_string(c).as_str());
                        GameStatus::Crashed(m)
                    },
                    ChildOutcome::Failure(m) => GameStatus::Crashed(m),
                };
                Some(st)
            },
            None => None,
        }
    }

    /// Stop a game: the instance leaves the table; the caller kills
    /// the child and closes the socket. Stopping an unknown channel
    /// reports the error and changes nothing, so stopping twice leaves
    /// the table exactly as one stop does.
    pub fn stop_game(&mut self, channel_id: &str) -> (r: Result<(), String>)
        requires
            old(self).inv(),
        ensures
            final(self).inv(),
            r is Ok <==> old(self).instances@.contains_key(channel_id@),
            final(self).instances@ == old(self).instances@.remove(channel_id@),
            r matches Err(e) ==> e@ == "No game instance: "@ + channel_id@,
    {
        let taken = self.instances.remove(channel_id);
        match taken {
            Some(_) => Ok(()),
            None => {
                let mut e = to_owned_string("No game instance: ");
                e.append(channel_id);
                Err(e)
            },
        }
    }
}

/// No instance is Running until its plugin connection was accepted:
/// under the supervisor's invariant, a Running instance always has
/// `ipc_connected`.
pub proof fn lemma_running_implies_connected(m: &EngineManager, k: Seq<char>)
    requires
        m.inv(),
        m.instances@.contains_key(k),
        m.instances@[k].status is Running,
    ensures
        m.instances@[k].ipc_connected,
{
}

/// Stopping the same channel twice leaves the instance table exactly
/// as a single stop does.
pub proof fn lemma_double_stop<V>(t: Map<Seq<char>, V>, id: Seq<char>)
    ensures
        t.remove(id).remove(id) =~= t.remove(id),
{
}

} // verus!
