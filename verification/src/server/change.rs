//! What is done when a server is made, and when its clients come and go.

use crate::error::AppResult;
use crate::net::privilege::{PrivCmd, PrivCmdModel};
use crate::server::manage::{detect_egress_iface, start};
use crate::server::{ServerConfig, ServerModel};
use vstd::prelude::*;

verus! {

/// One thing to do once the server has changed.
#[derive(Debug, Clone)]
pub enum ServerStep {
    /// Save the server.
    Save,
    /// Run a privileged operation.
    Run(PrivCmd),
}

/// One thing to do once the server has changed.
pub enum ServerStepModel {
    Save,
    Run(PrivCmdModel),
}

impl View for ServerStep {
    type V = ServerStepModel;

    open spec fn view(&self) -> ServerStepModel {
        match *self {
            ServerStep::Save => ServerStepModel::Save,
            ServerStep::Run(cmd) => ServerStepModel::Run(cmd@),
        }
    }
}

/// What a row of steps says.
pub open spec fn step_views(v: Seq<ServerStep>) -> Seq<ServerStepModel> {
    v.map_values(|s: ServerStep| s@)
}

/// What is done once the server has changed: it is saved, and where it is up, its configuration is
/// written and applied again.
pub open spec fn change_plan(config: ServerModel, running: bool) -> Seq<ServerStepModel> {
    if running {
        seq![
            ServerStepModel::Save,
            ServerStepModel::Run(
                PrivCmdModel::ServerWriteConf {
                    conf_text: crate::server::conf::server_text(config),
                },
            ),
            ServerStepModel::Run(PrivCmdModel::ServerUp),
        ]
    } else {
        seq![ServerStepModel::Save]
    }
}

/// What is done once the server has changed, in this order and up to the first failure.
pub fn change_steps(config: &ServerConfig, running: bool) -> (r: Vec<ServerStep>)
    ensures
        step_views(r@) == change_plan(config@, running),
{
    let mut steps: Vec<ServerStep> = Vec::new();
    steps.push(ServerStep::Save);
    if running {
        let (write, up) = start(config);
        steps.push(ServerStep::Run(write));
        steps.push(ServerStep::Run(up));
    }
    assert(step_views(steps@) =~= change_plan(config@, running));
    steps
}

/// A new server for `endpoint_host`, with the interface towards the internet that
/// `ip route show default` printed, where it could be run.
pub fn create(endpoint_host: &str, routes: Option<String>) -> (r: AppResult<ServerConfig>)
    ensures
        r matches Ok(c) && crate::server::is_fresh(c@, endpoint_host@) && c@.egress_iface == (
        match routes {
            Some(text) => crate::server::manage::egress(text@),
            None => None,
        }),
{
    let mut config = match ServerConfig::generate_new(endpoint_host) {
        Ok(c) => c,
        Err(e) => {
            return Err(e);
        },
    };
    config.egress_iface = detect_egress_iface(routes);
    Ok(config)
}

} // verus!
