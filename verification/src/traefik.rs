//! The reverse proxy: its bootstrap, and the overlay that gives a slot its
//! routing posture.

use vstd::prelude::*;
use vstd::string::*;
use crate::docker::{create_network, network_exists, spec_create_network, spec_network_exists};
use crate::runtime::{
    Command, CommandView, Dir, DirView, Effect, EffectView, Failure, Flow, Outcome, OutcomeView,
    Task,
};
use crate::text::{push_text, texts};

verus! {

/// The network that the proxy and every routed service share.
pub const NETWORK_NAME: &'static str = "rollploy";

/// The proxy's project, and the name of the scratch directory that holds its
/// definition.
pub const PROXY_PROJECT: &'static str = "rollploy-traefik";

/// The file that holds the proxy's definition.
pub const PROXY_FILE: &'static str = "docker-compose.yml";

/// The proxy's definition.
pub const PROXY_DEFINITION: &'static str = "services:
  traefik:
    image: traefik:v3.0
    container_name: rollploy-traefik
    command:
      - --providers.docker=true
      - --providers.docker.exposedbydefault=false
      - --providers.docker.network=rollploy
      - --entrypoints.web.address=:80
    ports:
      - \"80:80\"
    volumes:
      - /var/run/docker.sock:/var/run/docker.sock:ro
    networks:
      - rollploy
    restart: unless-stopped
networks:
  rollploy:
    external: true
";

/// Where making sure of the shared network stands.
#[derive(Debug, Clone, Copy, PartialEq, Eq, Structural)]
pub enum NetworkStage {
    /// Asking whether the network exists.
    Inspecting,
    /// Creating it.
    Creating,
}

impl View for NetworkStage {
    type V = NetworkStage;

    open spec fn view(&self) -> NetworkStage {
        *self
    }
}

/// The effect that `ensure_network` waits for at `stage`.
pub open spec fn spec_ensure_network_effect(stage: NetworkStage) -> EffectView {
    match stage {
        NetworkStage::Inspecting => EffectView::Run(spec_network_exists(NETWORK_NAME@)),
        NetworkStage::Creating => EffectView::Run(spec_create_network(NETWORK_NAME@)),
    }
}

/// Where making sure of the shared network stands after `outcome`: done,
/// with nothing further to do, where the network exists; creating it where
/// the question was not answered with yes; done when the creation has ended.
pub open spec fn spec_ensure_network(stage: NetworkStage, outcome: OutcomeView) -> Flow<
    NetworkStage,
    (),
> {
    match stage {
        NetworkStage::Inspecting => if outcome.succeeded() {
            Flow::Done(Ok(()))
        } else {
            Flow::Continue(NetworkStage::Creating)
        },
        NetworkStage::Creating => if outcome.succeeded() {
            Flow::Done(Ok(()))
        } else {
            Flow::Done(Err(Failure::Infrastructure(Task::CreateNetwork)))
        },
    }
}

/// The effect that `ensure_network` waits for at `stage`.
pub fn ensure_network_effect(stage: NetworkStage) -> (effect: Effect)
    ensures
        effect@ == spec_ensure_network_effect(stage),
{
    match stage {
        NetworkStage::Inspecting => Effect::Run(network_exists(NETWORK_NAME)),
        NetworkStage::Creating => Effect::Run(create_network(NETWORK_NAME)),
    }
}

/// One step of making sure that the shared network is there. It begins at
/// `NetworkStage::Inspecting`. Where the network exists already, it ends at
/// once and nothing is created.
pub fn ensure_network(stage: NetworkStage, outcome: &Outcome) -> (flow: Flow<NetworkStage, ()>)
    ensures
        flow == spec_ensure_network(stage, outcome@),
        stage == NetworkStage::Inspecting && outcome@.succeeded() ==> flow == Flow::<
            NetworkStage,
            (),
        >::Done(Ok(())),
{
    match stage {
        NetworkStage::Inspecting => {
            if outcome.succeeded() {
                Flow::Done(Ok(()))
            } else {
                Flow::Continue(NetworkStage::Creating)
            }
        },
        NetworkStage::Creating => {
            if outcome.succeeded() {
                Flow::Done(Ok(()))
            } else {
                Flow::Done(Err(Failure::Infrastructure(Task::CreateNetwork)))
            }
        },
    }
}

/// Where the proxy's bootstrap stands.
#[derive(Debug, Clone, Copy, PartialEq, Eq, Structural)]
pub enum ProxyStage {
    /// Making sure of the shared network.
    Network(NetworkStage),
    /// Asking whether the proxy runs.
    Probing,
    /// Writing the proxy's definition.
    Writing,
    /// Bringing the proxy up.
    Launching,
}

impl View for ProxyStage {
    type V = ProxyStage;

    open spec fn view(&self) -> ProxyStage {
        *self
    }
}

/// The command that prints the identifier of the proxy's container where it
/// runs, and nothing where it does not.
pub open spec fn spec_probe_proxy() -> CommandView {
    CommandView {
        program: "docker"@,
        args: seq!["ps"@, "-q"@, "-f"@, "name=rollploy-traefik"@],
        cwd: None,
        capture: true,
    }
}

/// The command that brings the proxy up from its definition.
pub open spec fn spec_launch_proxy() -> CommandView {
    CommandView {
        program: "docker"@,
        args: seq!["compose"@, "-p"@, PROXY_PROJECT@, "-f"@, PROXY_FILE@, "up"@, "-d"@],
        cwd: Some(DirView::Scratch(PROXY_PROJECT@)),
        capture: false,
    }
}

/// The effect that `ensure_traefik` waits for at `stage`.
pub open spec fn spec_ensure_traefik_effect(stage: ProxyStage) -> EffectView {
    match stage {
        ProxyStage::Network(stage) => spec_ensure_network_effect(stage),
        ProxyStage::Probing => EffectView::Run(spec_probe_proxy()),
        ProxyStage::Writing => EffectView::Write {
            dir: DirView::Scratch(PROXY_PROJECT@),
            name: PROXY_FILE@,
            content: PROXY_DEFINITION@,
        },
        ProxyStage::Launching => EffectView::Run(spec_launch_proxy()),
    }
}

/// Where the proxy's bootstrap stands after `outcome`. The network comes
/// first. A proxy that runs already is left alone; one that does not has its
/// definition written and is brought up. The first step that fails ends the
/// bootstrap.
pub open spec fn spec_ensure_traefik(stage: ProxyStage, outcome: OutcomeView) -> Flow<
    ProxyStage,
    (),
> {
    match stage {
        ProxyStage::Network(stage) => match spec_ensure_network(stage, outcome) {
            Flow::Continue(next) => Flow::Continue(ProxyStage::Network(next)),
            Flow::Done(Ok(_)) => Flow::Continue(ProxyStage::Probing),
            Flow::Done(Err(failure)) => Flow::Done(Err(failure)),
        },
        ProxyStage::Probing => match outcome {
            OutcomeView::Exited { success: true, output } => if output.len() > 0 {
                Flow::Done(Ok(()))
            } else {
                Flow::Continue(ProxyStage::Writing)
            },
            _ => Flow::Done(Err(Failure::Infrastructure(Task::ProbeProxy))),
        },
        ProxyStage::Writing => match outcome {
            OutcomeView::Written(true) => Flow::Continue(ProxyStage::Launching),
            _ => Flow::Done(Err(Failure::Infrastructure(Task::WriteProxyDefinition))),
        },
        ProxyStage::Launching => if outcome.succeeded() {
            Flow::Done(Ok(()))
        } else {
            Flow::Done(Err(Failure::Infrastructure(Task::LaunchProxy)))
        },
    }
}

/// The command that asks whether the proxy runs.
pub fn probe_proxy() -> (command: Command)
    ensures
        command@ == spec_probe_proxy(),
{
    let mut args: Vec<String> = Vec::new();
    push_text(&mut args, "ps");
    push_text(&mut args, "-q");
    push_text(&mut args, "-f");
    push_text(&mut args, "name=rollploy-traefik");
    assert(texts(args@) =~= seq!["ps"@, "-q"@, "-f"@, "name=rollploy-traefik"@]);
    Command { program: String::from_str("docker"), args, cwd: None, capture: true }
}

/// The command that brings the proxy up from its definition.
pub fn launch_proxy() -> (command: Command)
    ensures
        command@ == spec_launch_proxy(),
{
    let mut args: Vec<String> = Vec::new();
    push_text(&mut args, "compose");
    push_text(&mut args, "-p");
    push_text(&mut args, PROXY_PROJECT);
    push_text(&mut args, "-f");
    push_text(&mut args, PROXY_FILE);
    push_text(&mut args, "up");
    push_text(&mut args, "-d");
    assert(texts(args@) =~= seq![
        "compose"@,
        "-p"@,
        PROXY_PROJECT@,
        "-f"@,
        PROXY_FILE@,
        "up"@,
        "-d"@,
    ]);
    Command {
        program: String::from_str("docker"),
        args,
        cwd: Some(Dir::Scratch(String::from_str(PROXY_PROJECT))),
        capture: false,
    }
}

/// The effect that `ensure_traefik` waits for at `stage`.
pub fn ensure_traefik_effect(stage: ProxyStage) -> (effect: Effect)
    ensures
        effect@ == spec_ensure_traefik_effect(stage),
{
    match stage {
        ProxyStage::Network(stage) => ensure_network_effect(stage),
        ProxyStage::Probing => Effect::Run(probe_proxy()),
        ProxyStage::Writing => Effect::Write {
            dir: Dir::Scratch(String::from_str(PROXY_PROJECT)),
            name: String::from_str(PROXY_FILE),
            content: String::from_str(PROXY_DEFINITION),
        },
        ProxyStage::Launching => Effect::Run(launch_proxy()),
    }
}

/// One step of the proxy's bootstrap, which begins at
/// `ProxyStage::Network(NetworkStage::Inspecting)`. A proxy that runs already
/// is neither written nor started again.
pub fn ensure_traefik(stage: ProxyStage, outcome: &Outcome) -> (flow: Flow<ProxyStage, ()>)
    ensures
        flow == spec_ensure_traefik(stage, outcome@),
{
    match stage {
        ProxyStage::Network(stage) => match ensure_network(stage, outcome) {
            Flow::Continue(next) => Flow::Continue(ProxyStage::Network(next)),
            Flow::Done(Ok(_)) => Flow::Continue(ProxyStage::Probing),
            Flow::Done(Err(failure)) => Flow::Done(Err(failure)),
        },
        ProxyStage::Probing => match outcome {
            Outcome::Exited { success: true, output } => {
                if output.as_str().is_empty() {
                    Flow::Continue(ProxyStage::Writing)
                } else {
                    Flow::Done(Ok(()))
                }
            },
            _ => Flow::Done(Err(Failure::Infrastructure(Task::ProbeProxy))),
        },
        ProxyStage::Writing => match outcome {
            Outcome::Written(true) => Flow::Continue(ProxyStage::Launching),
            _ => Flow::Done(Err(Failure::Infrastructure(Task::WriteProxyDefinition))),
        },
        ProxyStage::Launching => {
            if outcome.succeeded() {
                Flow::Done(Ok(()))
            } else {
                Flow::Done(Err(Failure::Infrastructure(Task::LaunchProxy)))
            }
        },
    }
}

/// The name of the file that holds the overlay of `project`.
pub open spec fn spec_override_file(project: Seq<char>) -> Seq<char> {
    "docker-compose."@ + project + ".override.yml"@
}

/// What every overlay ends with: the service joins the shared network.
pub open spec fn overlay_tail() -> Seq<char> {
    "    networks:\n      - rollploy\nnetworks:\n  rollploy:\n    external: true\n"@
}

/// The overlay that routes `domain` to `service` of `project`.
pub open spec fn routed_overlay(service: Seq<char>, domain: Seq<char>, project: Seq<char>) -> Seq<
    char,
> {
    "services:\n  "@ + service + ":\n    labels:\n      - \"traefik.enable=true\"\n"@
        + "      - \"traefik.http.routers."@ + project + ".rule=Host(`"@ + domain + "`)\"\n"@
        + "      - \"traefik.http.routers."@ + project + ".entrypoints=web\"\n"@ + overlay_tail()
}

/// The overlay that takes `service` out of routing: it says so outright.
pub open spec fn standby_overlay(service: Seq<char>) -> Seq<char> {
    "services:\n  "@ + service + ":\n    labels:\n      - \"traefik.enable=false\"\n"@
        + overlay_tail()
}

/// The overlay of a slot in the given posture.
pub open spec fn overlay_text(
    service: Seq<char>,
    domain: Seq<char>,
    project: Seq<char>,
    active: bool,
) -> Seq<char> {
    if active {
        routed_overlay(service, domain, project)
    } else {
        standby_overlay(service)
    }
}

/// The effect that writes the overlay of `project` into `dir`.
pub open spec fn spec_generate_override(
    dir: Seq<char>,
    service: Seq<char>,
    domain: Seq<char>,
    project: Seq<char>,
    active: bool,
) -> EffectView {
    EffectView::Write {
        dir: DirView::At(dir),
        name: spec_override_file(project),
        content: overlay_text(service, domain, project, active),
    }
}

/// The name of the file that holds the overlay of `project`.
pub fn override_file(project: &str) -> (name: String)
    ensures
        name@ == spec_override_file(project@),
{
    let mut name = String::from_str("docker-compose.");
    name.append(project);
    name.append(".override.yml");
    name
}

/// The effect that writes the overlay of `project` into `dir`: one that
/// routes `domain` to `service` where `active`, one that takes the service
/// out of routing where not.
pub fn generate_override(
    dir: &str,
    service: &str,
    domain: &str,
    project: &str,
    active: bool,
) -> (effect: Effect)
    ensures
        effect@ == spec_generate_override(dir@, service@, domain@, project@, active),
{
    let mut content = String::from_str("services:\n  ");
    content.append(service);
    if active {
        content.append(":\n    labels:\n      - \"traefik.enable=true\"\n");
        content.append("      - \"traefik.http.routers.");
        content.append(project);
        content.append(".rule=Host(`");
        content.append(domain);
        content.append("`)\"\n");
        content.append("      - \"traefik.http.routers.");
        content.append(project);
        content.append(".entrypoints=web\"\n");
    } else {
        content.append(":\n    labels:\n      - \"traefik.enable=false\"\n");
    }
    content.append("    networks:\n      - rollploy\nnetworks:\n  rollploy:\n    external: true\n");
    Effect::Write { dir: Dir::At(String::from_str(dir)), name: override_file(project), content }
}

/// Two projects never share an overlay file.
pub proof fn lemma_override_files_differ(project: Seq<char>, other: Seq<char>)
    ensures
        spec_override_file(project) == spec_override_file(other) <==> project == other,
{
    if spec_override_file(project) == spec_override_file(other) {
        let head = "docker-compose."@;
        let tail = ".override.yml"@;
        assert(spec_override_file(project).len() == head.len() + project.len() + tail.len());
        assert(spec_override_file(other).len() == head.len() + other.len() + tail.len());
        assert forall|i: int| 0 <= i < project.len() implies project[i] == other[i] by {
            assert(spec_override_file(project)[head.len() + i] == project[i]);
            assert(spec_override_file(other)[head.len() + i] == other[i]);
        }
        assert(project =~= other);
    }
}

/// The two postures never give the same overlay.
pub proof fn lemma_postures_differ(service: Seq<char>, domain: Seq<char>, project: Seq<char>)
    ensures
        routed_overlay(service, domain, project) != standby_overlay(service),
{
    reveal_strlit("services:\n  ");
    reveal_strlit(":\n    labels:\n      - \"traefik.enable=true\"\n");
    reveal_strlit(":\n    labels:\n      - \"traefik.enable=false\"\n");
    let head = "services:\n  "@ + service;
    let routed = routed_overlay(service, domain, project);
    let standby = standby_overlay(service);
    let at = (head.len() + 38) as int;
    assert(":\n    labels:\n      - \"traefik.enable=true\"\n"@[38] == 't');
    assert(":\n    labels:\n      - \"traefik.enable=false\"\n"@[38] == 'f');
    assert(routed[at] == 't');
    assert(standby[at] == 'f');
}

} // verus!
