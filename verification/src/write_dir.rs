//! Write-directory configuration: where the agent's isolated engine
//! write-dir lives and what gets installed into it. The filesystem
//! work itself happens outside; the contents computed here are exact.

use crate::text::to_owned_string;
use vstd::prelude::*;
use vstd::string::StringExecFns;

verus! {

/// Where the write-dir pieces come from and go to.
pub struct WriteDirConfig {
    pub write_dir: String,
    pub spring_home: String,
    pub sai_bridge_lib: String,
    pub sai_bridge_data: String,
    pub widget_source: String,
    pub agent_name: String,
}

/// The bootstrap configuration written for an agent name: the widget
/// whitelist with the one player mapped to the bridge AI.
pub open spec fn spec_bootstrap_json(agent_name: Seq<char>) -> Seq<char> {
    "{\"players\":{"@ + crate::json::spec_quote(agent_name)
        + ":{\"ai\":\"AgentBridge\",\"version\":\"0.1\"}}}"@
}

/// Write the bootstrap configuration for an agent name.
pub fn bootstrap_config_json(agent_name: &str) -> (r: String)
    ensures
        r@ == spec_bootstrap_json(agent_name@),
{
    let mut s = to_owned_string("{\"players\":{");
    s.append(crate::json::quote_string(agent_name).as_str());
    s.append(":{\"ai\":\"AgentBridge\",\"version\":\"0.1\"}}}");
    proof {
        assert(s@ =~= spec_bootstrap_json(agent_name@));
    }
    s
}

/// The engine settings a headless run starts from.
pub fn headless_settings() -> (r: String)
    ensures
        r@.len() > 0,
{
    let r = to_owned_string(
        "XResolution=1280\nYResolution=720\nWindowState=0\nFullscreen=0\nVSync=0\nROAM=0\nSmoothLines=0\nSmoothPoints=0\nFSAA=0\nFSAALevel=0\nAdvSky=0\nDynamicSky=0\n3DTrees=0\nHighResInfoTexture=0\nGroundDetail=1\nUnitLodDist=0\nGrassDetail=0\nMaxParticles=0\nGroundDecals=0\nUnitIconDist=0\nMaxSounds=0\nsnd_volmaster=0\n",
    );
    proof {
        reveal_strlit(
            "XResolution=1280\nYResolution=720\nWindowState=0\nFullscreen=0\nVSync=0\nROAM=0\nSmoothLines=0\nSmoothPoints=0\nFSAA=0\nFSAALevel=0\nAdvSky=0\nDynamicSky=0\n3DTrees=0\nHighResInfoTexture=0\nGroundDetail=1\nUnitLodDist=0\nGrassDetail=0\nMaxParticles=0\nGroundDecals=0\nUnitIconDist=0\nMaxSounds=0\nsnd_volmaster=0\n",
        );
    }
    r
}

} // verus!
