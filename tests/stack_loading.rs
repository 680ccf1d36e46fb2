use rushd::component::ComponentBuildSpec;
use rushd::config::{Config, ConfigError, ConfigInputs};
use rushd::fields::SpecError;
use rushd::reactor::load_stack;
use rushd::variables::{SubstitutionError, Variables, VariablesError, VariablesFile};
use rushd::yaml::YamlValue;

fn s(x: &str) -> YamlValue {
    YamlValue::Str(x.to_string())
}

fn map(entries: Vec<(&str, YamlValue)>) -> YamlValue {
    YamlValue::Mapping(entries.into_iter().map(|(k, v)| (s(k), v)).collect())
}

fn config() -> Config {
    let inputs = ConfigInputs {
        kube_context: Some("dev-ctx".to_string()),
        domain_template: Some("{{ product_uri }}.example.com".to_string()),
        infrastructure_repository: Some("git@example.com:infra.git".to_string()),
    };
    match Config::new("/work", "p", "dev", "registry.local", inputs) {
        Ok(c) => c,
        Err(_) => panic!("configuration failed"),
    }
}

fn vars(dev: Vec<(&str, &str)>) -> Variables {
    let file = VariablesFile {
        dev: dev.into_iter().map(|(k, v)| (k.to_string(), v.to_string())).collect(),
        staging: Vec::new(),
        prod: Vec::new(),
    };
    Variables::new(file, "DEV")
}

#[test]
fn config_derives_names_and_renders_domain() {
    let c = config();
    assert_eq!(c.product_uri(), "p");
    assert_eq!(c.network_name(), "net-p");
    assert_eq!(c.product_path(), "./products/p");
    assert_eq!(c.domain(), "p.example.com");
    assert_eq!(c.kube_context(), "dev-ctx");
}

#[test]
fn product_uri_is_slugified_lowercase_and_stable() {
    let uri = rushd::config::product_uri("My Product!! 2");
    assert_eq!(uri, "my-product-2");
    assert_eq!(rushd::config::product_uri(&uri), uri);
}

#[test]
fn config_rejects_unknown_environment() {
    let inputs = ConfigInputs { kube_context: None, domain_template: None, infrastructure_repository: None };
    let r = Config::new("/work", "p", "qa", "reg", inputs);
    assert!(matches!(r, Err(ConfigError::InvalidEnvironment(_))));
}

#[test]
fn config_names_the_missing_variable() {
    let inputs = ConfigInputs {
        kube_context: Some("ctx".to_string()),
        domain_template: None,
        infrastructure_repository: Some("repo".to_string()),
    };
    match Config::new("/work", "p", "prod", "reg", inputs) {
        Err(ConfigError::MissingVariable(v)) => assert_eq!(v, "PROD_DOMAIN"),
        _ => panic!("expected a missing variable"),
    }
}

#[test]
fn config_reports_a_broken_domain_template() {
    let inputs = ConfigInputs {
        kube_context: Some("ctx".to_string()),
        domain_template: Some("{{ unclosed".to_string()),
        infrastructure_repository: Some("repo".to_string()),
    };
    let r = Config::new("/work", "p", "dev", "reg", inputs);
    assert!(matches!(r, Err(ConfigError::DomainTemplate(_))));
}

#[test]
fn variable_substitution_resolves_port() {
    let c = config();
    let v = vars(vec![("web_port", "9000")]);
    let entry = map(vec![("build_type", s("K8sOnly")), ("port", s("{{ web_port }}"))]);
    let spec = match ComponentBuildSpec::from_yaml(&c, &entry, "web", &v, "/work") {
        Ok(spec) => spec,
        Err(_) => panic!("load failed"),
    };
    assert_eq!(spec.port, Some(9000));
    assert_eq!(spec.component_name, "web");
    assert_eq!(spec.color, "blue");
    assert_eq!(spec.priority, 100);
    assert_eq!(spec.artefact_output_dir, "target/rushd");
}

#[test]
fn variable_substitution_missing_key_fails() {
    let c = config();
    let v = vars(vec![]);
    let entry = map(vec![("build_type", s("K8sOnly")), ("port", s("{{ web_port }}"))]);
    match ComponentBuildSpec::from_yaml(&c, &entry, "web", &v, "/work") {
        Err(SpecError::UnknownVariable(name)) => assert_eq!(name, "web_port"),
        _ => panic!("expected an unknown variable"),
    }
}

#[test]
fn strings_that_are_not_whole_references_are_kept() {
    let v = vars(vec![("a", "1")]);
    match v.substitute("x {{ a }}") {
        Ok(t) => assert_eq!(t, "x {{ a }}"),
        Err(_) => panic!("kept verbatim"),
    }
    match v.substitute("{{a}}") {
        Ok(t) => assert_eq!(t, "1"),
        Err(_) => panic!("resolved"),
    }
    assert!(matches!(v.substitute("{{ b }}"), Err(SubstitutionError::UnknownVariable(_))));
}

#[test]
fn port_boundaries() {
    let c = config();
    let v = vars(vec![]);
    for (n, ok) in [(0i128, true), (65535, true), (-1, false), (65536, false)] {
        let entry = map(vec![("build_type", s("K8sOnly")), ("port", YamlValue::Int(n))]);
        let r = ComponentBuildSpec::from_yaml(&c, &entry, "web", &v, "/work");
        if ok {
            match r {
                Ok(spec) => assert_eq!(spec.port, Some(n as u16)),
                Err(_) => panic!("port {} should load", n),
            }
        } else {
            assert!(matches!(r, Err(SpecError::InvalidPort(_))));
        }
    }
}

#[test]
fn empty_variables_file_yields_empty_maps() {
    let file = match VariablesFile::from_yaml(&YamlValue::Null) {
        Ok(f) => f,
        Err(_) => panic!("empty file loads"),
    };
    assert!(file.dev.is_empty() && file.staging.is_empty() && file.prod.is_empty());
    let v = Variables::new(file, "dev");
    assert_eq!(v.get("anything"), None);
    let c = config();
    let entry = map(vec![("build_type", s("K8sOnly")), ("subdomain", s("{{ anything }}"))]);
    assert!(matches!(
        ComponentBuildSpec::from_yaml(&c, &entry, "web", &v, "/work"),
        Err(SpecError::UnknownVariable(_))
    ));
}

#[test]
fn variables_file_requires_each_environment() {
    let doc = map(vec![("dev", map(vec![("a", s("1"))])), ("staging", map(vec![]))]);
    assert!(matches!(VariablesFile::from_yaml(&doc), Err(VariablesError::MissingEnvironment(_))));
    let bad = map(vec![("dev", s("x")), ("staging", map(vec![])), ("prod", map(vec![]))]);
    assert!(matches!(VariablesFile::from_yaml(&bad), Err(VariablesError::NotAStringMap(_))));
    assert!(matches!(VariablesFile::from_yaml(&s("x")), Err(VariablesError::NotAMapping)));
    let good = map(vec![("dev", map(vec![("a", s("1"))])), ("staging", map(vec![])), ("prod", map(vec![]))]);
    match VariablesFile::from_yaml(&good) {
        Ok(f) => {
            let v = Variables::new(f, "Dev");
            assert_eq!(v.get("a"), Some("1".to_string()));
        }
        Err(_) => panic!("loads"),
    }
}

#[test]
fn build_kinds_and_required_fields() {
    let c = config();
    let v = vars(vec![]);
    let missing = map(vec![("build_type", s("RustBinary")), ("location", s("web"))]);
    match ComponentBuildSpec::from_yaml(&c, &missing, "web", &v, "/work") {
        Err(SpecError::MissingField(f)) => assert_eq!(f, "dockerfile"),
        _ => panic!("expected a missing field"),
    }
    let unknown = map(vec![("build_type", s("Rocket"))]);
    assert!(matches!(
        ComponentBuildSpec::from_yaml(&c, &unknown, "web", &v, "/work"),
        Err(SpecError::InvalidBuildType(_))
    ));
    let wrong = map(vec![("build_type", s("K8sOnly")), ("color", YamlValue::Bool(true))]);
    assert!(matches!(
        ComponentBuildSpec::from_yaml(&c, &wrong, "web", &v, "/work"),
        Err(SpecError::WrongType(_))
    ));
    let image = map(vec![("build_type", s("Image")), ("image", s("postgres:16")), ("command", s("serve"))]);
    match ComponentBuildSpec::from_yaml(&c, &image, "db", &v, "/work") {
        Ok(spec) => match spec.build_type {
            rushd::build_type::BuildType::PureDockerImage { image_name_with_tag, command, entrypoint } => {
                assert_eq!(image_name_with_tag, "postgres:16");
                assert_eq!(command, Some("serve".to_string()));
                assert_eq!(entrypoint, None);
            }
            _ => panic!("wrong kind"),
        },
        Err(_) => panic!("loads"),
    }
}

#[test]
fn volumes_are_resolved_against_the_working_directory() {
    let c = config();
    let v = vars(vec![("data", "/var/data")]);
    let entry = map(vec![
        ("build_type", s("K8sOnly")),
        ("volumes", map(vec![("db", s("{{ data }}")), ("/abs", s("/in"))])),
        ("component_name", s("named")),
    ]);
    match ComponentBuildSpec::from_yaml(&c, &entry, "key", &v, "/work") {
        Ok(spec) => {
            assert_eq!(spec.component_name, "named");
            let vols = spec.volumes.unwrap();
            assert_eq!(vols[0], ("/work/db".to_string(), "/var/data".to_string()));
            assert_eq!(vols[1], ("/abs".to_string(), "/in".to_string()));
        }
        Err(_) => panic!("loads"),
    }
}

#[test]
fn stack_names_must_be_unique_and_dependencies_resolve() {
    let c = config();
    let v = vars(vec![]);
    let ok = map(vec![
        ("a", map(vec![("build_type", s("K8sOnly"))])),
        ("b", map(vec![("build_type", s("K8sOnly")), ("depends_on", YamlValue::Sequence(vec![s("a")]))])),
    ]);
    match load_stack(&c, &ok, &v, "/work") {
        Ok(specs) => {
            assert_eq!(specs.len(), 2);
            assert_eq!(specs[1].depends_on, vec!["a".to_string()]);
        }
        Err(_) => panic!("loads"),
    }
    let dup = map(vec![
        ("a", map(vec![("build_type", s("K8sOnly"))])),
        ("b", map(vec![("build_type", s("K8sOnly")), ("component_name", s("a"))])),
    ]);
    assert!(matches!(load_stack(&c, &dup, &v, "/work"), Err(SpecError::DuplicateComponent(_))));
    let dangling = map(vec![(
        "a",
        map(vec![("build_type", s("K8sOnly")), ("depends_on", YamlValue::Sequence(vec![s("zzz")]))]),
    )]);
    assert!(matches!(load_stack(&c, &dangling, &v, "/work"), Err(SpecError::UnknownDependency(_, _))));
    let not_a_body = map(vec![("a", s("x"))]);
    assert!(matches!(load_stack(&c, &not_a_body, &v, "/work"), Err(SpecError::MissingField(_))));
}
