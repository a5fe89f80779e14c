use rollploy::docker::{
    classify, compose_down, compose_up, create_network, inspect_health, list_containers,
    network_exists, statuses, verdict, ContainerHealth, Verdict,
};
use rollploy::git::{clone_command, get_head, pull_command};
use rollploy::runtime::{Command, Dir, Effect};
use rollploy::traefik::{
    generate_override, launch_proxy, override_file, probe_proxy, NETWORK_NAME, PROXY_DEFINITION,
    PROXY_FILE, PROXY_PROJECT,
};

fn strings(items: &[&str]) -> Vec<String> {
    items.iter().map(|s| s.to_string()).collect()
}

fn cwd_of(command: &Command) -> Option<String> {
    match &command.cwd {
        Some(Dir::At(path)) => Some(path.clone()),
        _ => None,
    }
}

#[test]
fn compose_up_names_project_then_files_then_up() {
    let files = strings(&["docker-compose.yml", "docker-compose.shop-primary.override.yml"]);
    let command = compose_up("/srv/shop", &files, "shop-primary");
    assert_eq!(command.program, "docker");
    assert_eq!(
        command.args,
        strings(&[
            "compose",
            "-p",
            "shop-primary",
            "-f",
            "docker-compose.yml",
            "-f",
            "docker-compose.shop-primary.override.yml",
            "up",
            "-d",
            "--pull",
            "always",
        ])
    );
    assert_eq!(cwd_of(&command), Some("/srv/shop".to_string()));
    assert!(!command.capture);
}

#[test]
fn compose_up_without_files() {
    let command = compose_up("/w", &Vec::new(), "p");
    assert_eq!(command.args, strings(&["compose", "-p", "p", "up", "-d", "--pull", "always"]));
}

#[test]
fn compose_down_names_project_then_files_then_down() {
    let files = strings(&["a.yml", "b.yml"]);
    let command = compose_down("/srv/shop", &files, "shop-secondary");
    assert_eq!(command.program, "docker");
    assert_eq!(
        command.args,
        strings(&["compose", "-p", "shop-secondary", "-f", "a.yml", "-f", "b.yml", "down"])
    );
    assert_eq!(cwd_of(&command), Some("/srv/shop".to_string()));
    assert!(!command.capture);
}

#[test]
fn network_commands() {
    let exists = network_exists("rollploy");
    assert_eq!(exists.program, "docker");
    assert_eq!(exists.args, strings(&["network", "inspect", "rollploy"]));
    assert!(exists.cwd.is_none());
    assert!(exists.capture);
    let create = create_network("rollploy");
    assert_eq!(create.program, "docker");
    assert_eq!(create.args, strings(&["network", "create", "rollploy"]));
    assert!(create.cwd.is_none());
    assert!(!create.capture);
}

#[test]
fn health_commands() {
    let list = list_containers("shop-secondary");
    assert_eq!(list.program, "docker");
    assert_eq!(
        list.args,
        strings(&["ps", "-a", "-q", "--filter", "label=com.docker.compose.project=shop-secondary"])
    );
    assert!(list.capture);
    let inspect = inspect_health(&strings(&["abc", "def"]));
    assert_eq!(inspect.program, "docker");
    assert_eq!(
        inspect.args,
        strings(&[
            "inspect",
            "--format",
            "{{if .State.Health}}{{.State.Health.Status}}{{else}}none{{end}}",
            "abc",
            "def",
        ])
    );
    assert!(inspect.capture);
    assert!(inspect.cwd.is_none());
}

#[test]
fn git_commands() {
    let clone = clone_command("/srv/shop", "https://host/shop.git", "main");
    assert_eq!(clone.program, "git");
    assert_eq!(
        clone.args,
        strings(&["clone", "--branch", "main", "--single-branch", "https://host/shop.git", "/srv/shop"])
    );
    assert!(clone.cwd.is_none());
    assert!(!clone.capture);
    let head = get_head("/srv/shop");
    assert_eq!(head.program, "git");
    assert_eq!(head.args, strings(&["rev-parse", "HEAD"]));
    assert_eq!(cwd_of(&head), Some("/srv/shop".to_string()));
    assert!(head.capture);
    let pull = pull_command("/srv/shop");
    assert_eq!(pull.program, "git");
    assert_eq!(pull.args, strings(&["pull", "--ff-only"]));
    assert_eq!(cwd_of(&pull), Some("/srv/shop".to_string()));
    assert!(!pull.capture);
}

#[test]
fn proxy_commands() {
    let probe = probe_proxy();
    assert_eq!(probe.program, "docker");
    assert_eq!(probe.args, strings(&["ps", "-q", "-f", "name=rollploy-traefik"]));
    assert!(probe.capture);
    let launch = launch_proxy();
    assert_eq!(launch.program, "docker");
    assert_eq!(
        launch.args,
        strings(&["compose", "-p", "rollploy-traefik", "-f", "docker-compose.yml", "up", "-d"])
    );
    assert!(matches!(&launch.cwd, Some(Dir::Scratch(name)) if name == "rollploy-traefik"));
    assert!(!launch.capture);
}

#[test]
fn proxy_constants() {
    assert_eq!(NETWORK_NAME, "rollploy");
    assert_eq!(PROXY_PROJECT, "rollploy-traefik");
    assert_eq!(PROXY_FILE, "docker-compose.yml");
    assert!(PROXY_DEFINITION.starts_with("services:\n  traefik:\n    image: traefik:v3.0\n"));
    assert!(PROXY_DEFINITION.contains("      - --providers.docker.exposedbydefault=false\n"));
    assert!(PROXY_DEFINITION.contains("      - --providers.docker.network=rollploy\n"));
    assert!(PROXY_DEFINITION.ends_with("networks:\n  rollploy:\n    external: true\n"));
}

#[test]
fn override_file_name() {
    assert_eq!(override_file("shop-primary"), "docker-compose.shop-primary.override.yml");
    assert_eq!(override_file(""), "docker-compose..override.yml");
}

#[test]
fn routed_overlay_binds_the_domain() {
    let effect = generate_override("/srv/shop", "web", "shop.example.com", "shop-primary", true);
    match effect {
        Effect::Write { dir, name, content } => {
            assert!(matches!(dir, Dir::At(path) if path == "/srv/shop"));
            assert_eq!(name, "docker-compose.shop-primary.override.yml");
            assert_eq!(
                content,
                "services:\n  web:\n    labels:\n      - \"traefik.enable=true\"\n      - \"traefik.http.routers.shop-primary.rule=Host(`shop.example.com`)\"\n      - \"traefik.http.routers.shop-primary.entrypoints=web\"\n    networks:\n      - rollploy\nnetworks:\n  rollploy:\n    external: true\n"
            );
        }
        other => panic!("not a write: {:?}", other),
    }
}

#[test]
fn standby_overlay_disables_routing_outright() {
    let effect = generate_override("/srv/shop", "web", "shop.example.com", "shop-primary", false);
    match effect {
        Effect::Write { dir, name, content } => {
            assert!(matches!(dir, Dir::At(path) if path == "/srv/shop"));
            assert_eq!(name, "docker-compose.shop-primary.override.yml");
            assert_eq!(
                content,
                "services:\n  web:\n    labels:\n      - \"traefik.enable=false\"\n    networks:\n      - rollploy\nnetworks:\n  rollploy:\n    external: true\n"
            );
        }
        other => panic!("not a write: {:?}", other),
    }
}

#[test]
fn classify_knows_the_four_kinds() {
    assert_eq!(classify("healthy"), ContainerHealth::Healthy);
    assert_eq!(classify("unhealthy"), ContainerHealth::Unhealthy);
    assert_eq!(classify("none"), ContainerHealth::Unchecked);
    assert_eq!(classify("starting"), ContainerHealth::Pending);
    assert_eq!(classify(""), ContainerHealth::Pending);
    assert_eq!(classify("Healthy"), ContainerHealth::Pending);
}

#[test]
fn statuses_of_a_report() {
    assert_eq!(
        statuses("healthy\nstarting\nnone\nunhealthy\n"),
        vec![
            ContainerHealth::Healthy,
            ContainerHealth::Pending,
            ContainerHealth::Unchecked,
            ContainerHealth::Unhealthy,
        ]
    );
    assert_eq!(statuses("\n"), Vec::<ContainerHealth>::new());
}

#[test]
fn verdict_is_healthy_when_all_are_healthy_or_unchecked() {
    assert_eq!(verdict(&vec![ContainerHealth::Healthy]), Verdict::Healthy);
    assert_eq!(verdict(&vec![ContainerHealth::Unchecked]), Verdict::Healthy);
    assert_eq!(
        verdict(&vec![ContainerHealth::Healthy, ContainerHealth::Unchecked, ContainerHealth::Healthy]),
        Verdict::Healthy
    );
}

#[test]
fn verdict_is_unhealthy_when_any_is_unhealthy() {
    assert_eq!(verdict(&vec![ContainerHealth::Unhealthy]), Verdict::Unhealthy);
    assert_eq!(
        verdict(&vec![ContainerHealth::Healthy, ContainerHealth::Unhealthy]),
        Verdict::Unhealthy
    );
    assert_eq!(
        verdict(&vec![ContainerHealth::Pending, ContainerHealth::Healthy, ContainerHealth::Unhealthy]),
        Verdict::Unhealthy
    );
}

#[test]
fn verdict_is_pending_otherwise() {
    assert_eq!(verdict(&Vec::new()), Verdict::Pending);
    assert_eq!(verdict(&vec![ContainerHealth::Pending]), Verdict::Pending);
    assert_eq!(verdict(&vec![ContainerHealth::Healthy, ContainerHealth::Pending]), Verdict::Pending);
}
