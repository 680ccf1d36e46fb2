use rushd::api::{ErrorResponse, ExampleApiType};
use rushd::artefact::{Artefact, BuildScript, RenderError, TemplateSet};
use rushd::build_type::BuildType;
use rushd::cluster::{InfrastructureRepo, K8ClusterManifests, ManifestFile, Minikube};
use rushd::commands::unapply_order;
use rushd::component::ComponentBuildSpec;
use rushd::config::{Config, ConfigInputs};
use rushd::gitignore::{GitIgnore, Pattern};
use rushd::image::{discover_port, expose_args_of, DockerImage, ImageError};
use rushd::ordering::{dependency_matrix, launch_order, priorities};
use rushd::platform::{ArchType, OperatingSystem, Platform};
use rushd::reactor::{image_tag, load_stack, ContainerReactor, ReactorError};
use rushd::runner::{collapse_carriage_returns, command_result, failure_report, is_blank, window};
use rushd::supervisor::{Action, Event, Supervisor};
use rushd::toolchain::{first_which, CompilerTools, HostTools, ToolchainContext};
use rushd::variables::{Variables, VariablesFile};
use rushd::yaml::YamlValue;

fn s(x: &str) -> YamlValue {
    YamlValue::Str(x.to_string())
}

fn map(entries: Vec<(&str, YamlValue)>) -> YamlValue {
    YamlValue::Mapping(entries.into_iter().map(|(k, v)| (s(k), v)).collect())
}

fn config() -> Config {
    let inputs = ConfigInputs {
        kube_context: Some("ctx".to_string()),
        domain_template: Some("example.com".to_string()),
        infrastructure_repository: Some("git@example.com:infra.git".to_string()),
    };
    match Config::new("/work", "p", "dev", "registry.local", inputs) {
        Ok(c) => c,
        Err(_) => panic!("configuration failed"),
    }
}

fn no_vars() -> Variables {
    Variables::new(VariablesFile::empty(), "dev")
}

fn linux() -> Platform {
    Platform { os: OperatingSystem::Linux, arch: ArchType::X86_64 }
}

fn tools() -> HostTools {
    HostTools {
        git: "/usr/bin/git".to_string(),
        docker: "/usr/bin/docker".to_string(),
        trunk: "/usr/bin/trunk".to_string(),
        kubectl: Some("/usr/bin/kubectl".to_string()),
        minikube: None,
    }
}

fn toolchain() -> ToolchainContext {
    let c = |x: &str| x.to_string();
    ToolchainContext::default(
        linux(),
        tools(),
        CompilerTools {
            cc: c("gcc"),
            cxx: c("g++"),
            ar: c("ar"),
            ranlib: c("ranlib"),
            nm: c("nm"),
            strip: c("strip"),
            objdump: c("objdump"),
            objcopy: c("objcopy"),
            ld: c("ld"),
        },
    )
}

fn reactor(stack: YamlValue, dockerfiles: Vec<Option<String>>, tag: &str) -> ContainerReactor {
    let c = config();
    let specs = match load_stack(&c, &stack, &no_vars(), "/work") {
        Ok(s) => s,
        Err(_) => panic!("stack loads"),
    };
    let listings = specs.iter().map(|_| Vec::new()).collect::<Vec<Vec<ManifestFile>>>();
    match ContainerReactor::from_specs(c, toolchain(), specs, &dockerfiles, &listings, tag) {
        Ok(r) => r,
        Err(_) => panic!("reactor builds"),
    }
}

#[test]
fn expose_scan_first_line_wins_and_tolerates_tabs_and_comments() {
    assert_eq!(discover_port("FROM rust\n  EXPOSE\t8080 # web\nEXPOSE 9090\n"), Some(Some(8080)));
    assert_eq!(discover_port("FROM rust\nCMD run\n"), Some(None));
    assert_eq!(discover_port("EXPOSE 80/tcp"), Some(Some(80)));
    assert_eq!(discover_port("EXPOSE $PORT"), None);
    assert_eq!(expose_args_of("EXPOSE 1\nRUN x\nEXPOSE 2 3\n"), vec!["1".to_string(), "2 3".to_string()]);
}

#[test]
fn two_component_build() {
    let tag = match image_tag("deadbeefcafebabe0000", false) {
        Ok(t) => t,
        Err(_) => panic!("tag"),
    };
    assert_eq!(tag, "deadbeef");
    let stack = map(vec![
        ("web", map(vec![("build_type", s("RustBinary")), ("location", s("web")), ("dockerfile", s("web/Dockerfile"))])),
        ("ui", map(vec![("build_type", s("TrunkWasm")), ("location", s("ui")), ("dockerfile", s("ui/Dockerfile"))])),
    ]);
    let r = reactor(stack, vec![Some("FROM rust\nEXPOSE 80\n".to_string()), Some("FROM nginx\n".to_string())], &tag);
    let images = r.images();
    assert_eq!(images[0].tagged_image_name(), "p-web:deadbeef");
    assert_eq!(images[1].tagged_image_name(), "p-ui:deadbeef");
    assert_eq!(images[0].port(), Some(80));
    assert_eq!(images[0].target_port(), Some(80));
    assert_eq!(images[1].port(), None);
    assert_eq!(r.services().len(), 1);
    assert_eq!(r.services()[0].name, "web");
    assert_eq!(images[1].spec.tagged_image_name, Some("p-ui:deadbeef".to_string()));
    match &images[0].spec.services {
        Some(s) => assert_eq!(s.len(), 1),
        None => panic!("services set"),
    }
    match images[0].build_args() {
        Some((dir, args)) => {
            assert_eq!(dir, "web");
            assert_eq!(args, vec!["build", "-t", "p-web:deadbeef", "-f", "Dockerfile", "."]);
        }
        None => panic!("web builds"),
    }
}

#[test]
fn dirty_tree_tags_wip_and_empty_hash_fails() {
    match image_tag("0123456789", true) {
        Ok(t) => assert_eq!(t, "01234567-wip"),
        Err(_) => panic!("tag"),
    }
    assert!(matches!(image_tag("", false), Err(ReactorError::EmptyGitHash)));
}

#[test]
fn port_auto_assignment() {
    let stack = map(vec![
        ("a", map(vec![("build_type", s("K8sOnly"))])),
        ("b", map(vec![("build_type", s("K8sOnly"))])),
        ("c", map(vec![("build_type", s("K8sOnly"))])),
    ]);
    let r = reactor(stack, vec![None, None, None], "t");
    let ports: Vec<Option<u16>> = r.images().iter().map(|i| i.port()).collect();
    assert_eq!(ports, vec![Some(8000), Some(8001), Some(8002)]);
    assert_eq!(r.services().len(), 0);
}

#[test]
fn prebuilt_images_keep_their_name_and_get_no_port() {
    let stack = map(vec![
        ("db", map(vec![("build_type", s("Image")), ("image", s("postgres:16"))])),
        ("x", map(vec![("build_type", s("K8sOnly"))])),
    ]);
    let r = reactor(stack, vec![None, None], "t");
    assert_eq!(r.images()[0].image_name(), "postgres");
    assert_eq!(r.images()[0].tag, Some("16".to_string()));
    assert_eq!(r.images()[0].port(), None);
    assert_eq!(r.images()[1].port(), Some(8000));
    assert_eq!(r.images()[0].identifier(), "postgres:16");
}

#[test]
fn image_errors() {
    let c = config();
    let v = no_vars();
    let load = |entry: YamlValue| match ComponentBuildSpec::from_yaml(&c, &entry, "w", &v, "/work") {
        Ok(s) => s,
        Err(_) => panic!("loads"),
    };
    let web = load(map(vec![("build_type", s("Script")), ("location", s("w")), ("dockerfile", s("Dockerfile"))]));
    assert!(matches!(DockerImage::from_docker_spec(web, None), Err(ImageError::MissingDockerfile(_))));
    let web = load(map(vec![("build_type", s("Script")), ("location", s("w")), ("dockerfile", s("Dockerfile"))]));
    assert!(matches!(DockerImage::from_docker_spec(web, Some("EXPOSE 99999")), Err(ImageError::InvalidExpose(_))));
    let img = load(map(vec![("build_type", s("Image")), ("image", s("a:b:c"))]));
    assert!(matches!(DockerImage::from_docker_spec(img, None), Err(ImageError::InvalidImageName(_))));
}

#[test]
fn dependency_ordering() {
    let names = vec!["p-a".to_string(), "p-b".to_string(), "p-c".to_string()];
    let deps = vec![vec![], vec!["p-a".to_string()], vec!["p-b".to_string()]];
    let adj = dependency_matrix(&names, &deps);
    let prio = priorities(&adj);
    assert_eq!(prio, vec![3, 2, 1]);
    assert_eq!(launch_order(&prio), vec![2, 1, 0]);
    let stack = map(vec![
        ("a", map(vec![("build_type", s("K8sOnly"))])),
        ("b", map(vec![("build_type", s("K8sOnly")), ("depends_on", YamlValue::Sequence(vec![s("a")]))])),
        ("c", map(vec![("build_type", s("K8sOnly")), ("depends_on", YamlValue::Sequence(vec![s("b")]))])),
    ]);
    let r = reactor(stack, vec![None, None, None], "t");
    assert_eq!(r.launch_order(), vec![2, 1, 0]);
    assert_eq!(r.launch_order(), r.launch_order());
}

#[test]
fn self_loop_has_priority_one() {
    let names = vec!["p-a".to_string()];
    let deps = vec![vec!["p-a".to_string()]];
    let adj = dependency_matrix(&names, &deps);
    assert_eq!(priorities(&adj), vec![1]);
    let names = vec!["p-a".to_string(), "p-b".to_string()];
    let deps = vec![vec!["p-b".to_string()], vec!["p-a".to_string()]];
    assert_eq!(priorities(&dependency_matrix(&names, &deps)), vec![2, 2]);
}

#[test]
fn ties_keep_manifest_order() {
    assert_eq!(launch_order(&vec![2, 1, 2, 1]), vec![1, 3, 0, 2]);
}

#[test]
fn plain_template_renders_to_itself() {
    let r = reactor(map(vec![("a", map(vec![("build_type", s("K8sOnly"))]))]), vec![None], "t");
    let ctx = r.images()[0].generate_build_context();
    let text = "apiVersion: v1\nkind: Service\nmetadata:\n  name: web\n".to_string();
    let a = Artefact::new("in.yaml".to_string(), "out.yaml".to_string(), text.clone());
    assert_eq!(a.render(&ctx), Ok(text));
    let t = Artefact::new("i".to_string(), "o".to_string(), "{{ component }}@{{ domain }}".to_string());
    assert_eq!(t.render(&ctx), Ok("a@example.com".to_string()));
    let svc = Artefact::new("i".to_string(), "o".to_string(), "{{ build_type }}".to_string());
    assert_eq!(svc.render(&ctx), Ok("PureKubernetes".to_string()));
}

#[test]
fn build_scripts_come_from_the_template_set() {
    let r = reactor(
        map(vec![("web", map(vec![("build_type", s("RustBinary")), ("location", s("src")), ("dockerfile", s("Dockerfile"))]))]),
        vec![Some("FROM x\n".to_string())],
        "t",
    );
    let img = &r.images()[0];
    let ctx = img.generate_build_context();
    let templates = TemplateSet {
        templates: vec![("build/rust_binary.sh".to_string(), "cargo build --target {{ rust_target }} # {{ location }}".to_string())],
    };
    match img.build_script(&ctx, &templates) {
        Ok(Some(script)) => assert_eq!(script, "cargo build --target x86_64-unknown-linux-gnu # src"),
        _ => panic!("script renders"),
    }
    let none = TemplateSet { templates: Vec::new() };
    assert!(matches!(img.build_script(&ctx, &none), Err(RenderError::MissingTemplate(_))));
    let script = BuildScript::new(BuildType::PureKubernetes);
    assert!(matches!(script.render(&ctx, &none), Ok(s) if s.is_empty()));
}

#[test]
fn unapply_deletes_every_applied_manifest_in_reverse_order() {
    let files = vec!["k8s/100_b/s.yaml".to_string(), "k8s/010_a/d.yaml".to_string(), "k8s/100_b/a.yaml".to_string()];
    let order = unapply_order(&files);
    assert_eq!(order, vec!["k8s/100_b/s.yaml", "k8s/100_b/a.yaml", "k8s/010_a/d.yaml"]);
}

#[test]
fn live_reload_cycle_cleans_between_launches() {
    let mut s = Supervisor::new();
    let mut log: Vec<Action> = Vec::new();
    for e in [
        Event::Start,
        Event::BuildSucceeded,
        Event::Tick,
        Event::FilesChanged,
        Event::JoinTimedOut,
        Event::Joined,
        Event::BuildSucceeded,
        Event::Interrupted,
        Event::Joined,
    ] {
        let (next, acts) = s.step(e);
        s = next;
        log.extend(acts);
    }
    assert!(s.is_stopped());
    assert_eq!(log[0], Action::Clean);
    assert_eq!(log[1], Action::CreateNetwork);
    let launches: Vec<usize> = (0..log.len()).filter(|&i| log[i] == Action::LaunchAll).collect();
    assert_eq!(launches.len(), 2);
    assert!(log[launches[0]..launches[1]].contains(&Action::Clean));
    assert!(log[launches[0]..launches[1]].contains(&Action::BroadcastTerminate));
    assert_eq!(*log.last().unwrap(), Action::DeleteNetwork);
}

#[test]
fn build_failure_waits_for_a_change() {
    let s = Supervisor::new();
    let (s, _) = s.step(Event::Start);
    let (s, acts) = s.step(Event::BuildFailed);
    assert_eq!(acts, vec![Action::ReportBuildError]);
    let (s2, acts) = s.step(Event::FilesChanged);
    assert_eq!(acts, vec![Action::BroadcastTerminate, Action::Build]);
    assert!(!s2.is_stopped());
    let (s3, acts) = s.step(Event::Interrupted);
    assert_eq!(acts, vec![Action::BroadcastTerminate, Action::DeleteNetwork]);
    assert!(s3.is_stopped());
}

#[test]
fn run_arguments() {
    let c = config();
    let v = no_vars();
    let entry = map(vec![
        ("build_type", s("Image")),
        ("image", s("redis")),
        ("entrypoint", s("sh")),
        ("command", s("start")),
        ("port", YamlValue::Int(6379)),
        ("target_port", YamlValue::Int(6380)),
        ("env", map(vec![("A", s("1"))])),
        ("docker_extra_run_args", YamlValue::Sequence(vec![s("--rm")])),
    ]);
    let spec = match ComponentBuildSpec::from_yaml(&c, &entry, "cache", &v, "/work") {
        Ok(s) => s,
        Err(_) => panic!("loads"),
    };
    let mut img = match DockerImage::from_docker_spec(spec, None) {
        Ok(i) => i,
        Err(_) => panic!("image"),
    };
    img.set_network_name("net-p".to_string());
    assert_eq!(
        img.run_args(),
        vec!["run", "--name", "cache", "--network", "net-p", "--entrypoint", "sh", "-p", "6379:6380", "-e", "A=1", "--rm", "redis", "start"]
    );
    assert_eq!(img.kill_args(), vec!["kill", "cache"]);
    assert_eq!(img.clean_args(), vec!["rm", "cache"]);
}

#[test]
fn push_only_for_cluster_components() {
    let r = reactor(
        map(vec![
            ("web", map(vec![("build_type", s("Script")), ("location", s("w")), ("dockerfile", s("w/Dockerfile")), ("k8s", s("w/k8s"))])),
            ("job", map(vec![("build_type", s("Script")), ("location", s("j")), ("dockerfile", s("j/Dockerfile"))])),
        ]),
        vec![Some("EXPOSE 80".to_string()), Some("EXPOSE 81".to_string())],
        "v1",
    );
    match r.images()[0].push_args("reg.io") {
        Some((t, p)) => {
            assert_eq!(t, vec!["tag", "p-web:v1", "reg.io/p-web:v1"]);
            assert_eq!(p, vec!["push", "reg.io/p-web:v1"]);
        }
        None => panic!("web pushes"),
    }
    assert!(r.images()[1].push_args("reg.io").is_none());
    let groups = r.cluster_manifests().components();
    assert_eq!(groups.len(), 1);
    assert_eq!(groups[0].name(), "100_web");
    assert_eq!(groups[0].output_directory(), "./target/k8s/100_web");
}

#[test]
fn reactor_command_lines() {
    let r = reactor(map(vec![("a", map(vec![("build_type", s("K8sOnly"))]))]), vec![None], "t");
    assert_eq!(r.network_create_args(), vec!["network", "create", "-d", "bridge", "net-p"]);
    assert_eq!(r.network_delete_args(), vec!["network", "rm", "net-p"]);
    assert_eq!(r.apply_args(), vec!["apply", "-R", "-f", "./target/k8s"]);
    assert_eq!(r.rollout_message(), "Deploying dev for p");
    assert!(r.get_image("a").is_some());
    assert!(r.get_image("zz").is_none());
}

#[test]
fn manifest_groups_and_installation() {
    let c = config();
    let v = no_vars();
    let entry = map(vec![("build_type", s("K8sInstall")), ("namespace", s("ops")), ("k8s", s("inst"))]);
    let spec = match ComponentBuildSpec::from_yaml(&c, &entry, "inst", &v, "/work") {
        Ok(s) => s,
        Err(_) => panic!("loads"),
    };
    let files = vec![
        ManifestFile { file_name: "a.yaml".to_string(), is_dir: false, contents: "A".to_string() },
        ManifestFile { file_name: "sub".to_string(), is_dir: true, contents: String::new() },
        ManifestFile { file_name: "notes.txt".to_string(), is_dir: false, contents: "N".to_string() },
    ];
    let mut cm = K8ClusterManifests::new("target/k8s");
    cm.add_component("100_inst", spec, "inst", &files);
    let g = &cm.components()[0];
    assert!(g.is_installation());
    assert_eq!(g.namespace(), "ops");
    assert_eq!(g.manifests().len(), 1);
    assert_eq!(g.manifests()[0].input_path, "inst/a.yaml");
    assert_eq!(g.manifests()[0].output_path, "target/k8s/100_inst/a.yaml");
    assert_eq!(g.install_args(), vec![vec!["apply", "-n", "ops", "-f", "inst/a.yaml"]]);
    assert_eq!(g.uninstall_args(), vec![vec!["delete", "-n", "ops", "-f", "inst/a.yaml"]]);
}

#[test]
fn infrastructure_repository_commands() {
    let repo = InfrastructureRepo::new(&config());
    assert_eq!(repo.checkout_args(false), vec![vec!["clone", "git@example.com:infra.git", "/work/.infra"]]);
    let existing = repo.checkout_args(true);
    assert_eq!(existing[0], vec!["-C", "/work/.infra", "reset", "HEAD", "--hard"]);
    assert_eq!(existing[2], vec!["-C", "/work/.infra", "pull"]);
    assert_eq!(repo.target_directory(), "/work/.infra/products/p/dev");
    assert_eq!(repo.commit_and_push_args("m")[1], vec!["-C", "/work/.infra", "commit", "-m", "m"]);
    let m = Minikube::new(&toolchain());
    assert!(m.command("start").is_err());
}

#[test]
fn process_runner_text() {
    assert_eq!(collapse_carriage_returns("10%\r50%\r100% done"), "100% done");
    assert_eq!(collapse_carriage_returns("plain"), "plain");
    assert!(is_blank(" \t"));
    assert!(!is_blank(" x"));
    let lines: Vec<String> = (1..=12).map(|i| i.to_string()).collect();
    assert_eq!(window(&lines, 10).len(), 10);
    assert_eq!(window(&lines, 10)[0], "3");
    assert_eq!(window(&lines[..2].to_vec(), 10).len(), 2);
    let report = failure_report("/w", "sh", &vec!["-c".to_string(), "make".to_string()], &vec!["oops".to_string()]);
    assert_eq!(report, "Working directory: /w\nCommand: sh -c make\n---\noops");
    assert_eq!(command_result(Some(0), report.clone()), Ok(()));
    assert_eq!(command_result(Some(2), report.clone()), Err(report.clone()));
    assert_eq!(command_result(None, report.clone()), Err(report));
}

#[test]
fn platforms_and_toolchains() {
    let p = Platform { os: OperatingSystem::Linux, arch: ArchType::AARCH64 };
    assert_eq!(p.to_rust_target(), "aarch64-unknown-linux-gnu");
    assert_eq!(p.to_docker_target(), "linux/arm64");
    assert_eq!(p.to_string(), "linux-aarch64");
    assert!(Platform::new("windows", "x86_64").is_none());
    assert_eq!(Platform::new("macos", "x86_64"), Some(Platform { os: OperatingSystem::MacOS, arch: ArchType::X86_64 }));
    assert_eq!(first_which(&vec![None, Some("/b".to_string()), Some("/c".to_string())]), Some("/b".to_string()));
    let entries: Vec<(String, String)> = ["x86_64-linux-gcc", "x86_64-linux-g++", "x86_64-linux-ar", "x86_64-linux-ranlib", "x86_64-linux-nm", "x86_64-linux-strip", "x86_64-linux-objdump", "x86_64-linux-objcopy", "x86_64-linux-ld"]
        .iter()
        .map(|n| (n.to_string(), format!("/tc/{}", n)))
        .collect();
    match ToolchainContext::from_path(linux(), tools(), &entries) {
        Some(t) => {
            assert_eq!(t.cc, "/tc/x86_64-linux-gcc");
            assert_eq!(t.cxx, "/tc/x86_64-linux-g++");
            assert_eq!(t.env_assignments()[8], ("LD".to_string(), "/tc/x86_64-linux-ld".to_string()));
        }
        None => panic!("toolchain found"),
    }
    assert!(ToolchainContext::from_path(linux(), tools(), &entries[..3].to_vec()).is_none());
    let mac = Platform { os: OperatingSystem::MacOS, arch: ArchType::AARCH64 };
    match ToolchainContext::cross_toolchain_dir(mac, linux()) {
        Ok(Some(d)) => assert_eq!(d, "/opt/homebrew/Cellar/x86_64-unknown-linux-gnu/7.2.0/bin/"),
        _ => panic!("cross toolchain"),
    }
    assert!(matches!(ToolchainContext::cross_toolchain_dir(linux(), linux()), Ok(None)));
    assert!(ToolchainContext::cross_toolchain_dir(linux(), mac).is_err());
    let guard = DockerImage::create_cross_compile_guard(&BuildType::PureKubernetes, &toolchain());
    assert_eq!(guard.target(), "linux/amd64");
    assert_eq!(guard.assignments()[0], ("CROSS_CONTAINER_OPTS".to_string(), "--platform linux/amd64".to_string()));
}

#[test]
fn api_responses() {
    assert_eq!(ExampleApiType::new("hi").payload, "hi");
    let e = ErrorResponse::unauthorized();
    assert_eq!(e.status, "fail");
    assert_eq!(e.message, "You are not logged in, please provide token");
    assert_eq!(ErrorResponse::insufficient_permissions().message, "Insufficient permissions");
    assert_eq!(ErrorResponse::internal_error().message, "Internal error");
}

#[test]
fn ignore_rules_filter_paths() {
    let p = Pattern::new("target".to_string());
    assert_eq!(p.glob, "**/target");
    assert!(p.matches("/work/target/debug/app"));
    let rules = GitIgnore::new("# build output\n\n  target  \n*.log\n/dist\n");
    assert_eq!(rules.ignore_patterns.len(), 3);
    assert_eq!(rules.ignore_patterns[0].literal, "target");
    assert!(rules.ignores("/work/products/p/target/x"));
    assert!(rules.ignores("/work/products/p/server.log"));
    assert!(!rules.ignores("/work/products/p/src/main.rs"));
    let broken = Pattern::new("a[".to_string());
    assert!(!broken.matches("/x/y"));
}
