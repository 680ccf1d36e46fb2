//! Component specs: one per entry of a product manifest.
use vstd::prelude::*;
use crate::build_type::BuildType;
use crate::config::Config;
use crate::fields::{
    count_field, has_text, list_field, map_field, opt_pairs_view, port_field, read_count,
    read_list, read_map, read_port, read_required, read_text, strings_view, text_field, SpecError,
};
use crate::service::ServiceSpec;
use crate::text::{clone_opt, clone_strings, copy_str, str_eq};
use crate::variables::{opt_view, Variables};
use crate::yaml::YamlValue;

verus! {

/// Whether the manifest entry `v` names a known kind and has every field
/// that the kind requires.
pub open spec fn build_type_loads(v: YamlValue, vars: Variables) -> bool {
    match text_field(v, "build_type"@, vars) {
        Some(Some(k)) => if k == "TrunkWasm"@ || k == "RustBinary"@ || k == "Script"@ {
            has_text(v, "location"@, vars) && has_text(v, "dockerfile"@, vars) && text_field(
                v,
                "context_dir"@,
                vars,
            ) is Some
        } else if k == "Ingress"@ {
            list_field(v, "components"@, vars) matches Some(Some(_)) && has_text(
                v,
                "dockerfile"@,
                vars,
            ) && text_field(v, "context_dir"@, vars) is Some
        } else if k == "Image"@ {
            has_text(v, "image"@, vars) && text_field(v, "command"@, vars) is Some && text_field(
                v,
                "entrypoint"@,
                vars,
            ) is Some
        } else if k == "K8sOnly"@ {
            true
        } else if k == "K8sInstall"@ {
            has_text(v, "namespace"@, vars)
        } else if k == "ApiDocumentation"@ {
            has_text(v, "component"@, vars) && has_text(v, "open_api"@, vars)
        } else {
            false
        },
        _ => false,
    }
}

/// Whether `bt` is the kind that the manifest entry `v` describes, with its fields.
pub open spec fn build_type_matches(bt: BuildType, v: YamlValue, vars: Variables) -> bool {
    let k = text_field(v, "build_type"@, vars)->0->0;
    let files = |location: String, dockerfile_path: String, context_dir: Option<String>|
        text_field(v, "location"@, vars) == Some(Some(location@)) && text_field(
            v,
            "dockerfile"@,
            vars,
        ) == Some(Some(dockerfile_path@)) && text_field(v, "context_dir"@, vars) == Some(
            opt_view(context_dir),
        );
    match bt {
        BuildType::TrunkWasm { location, dockerfile_path, context_dir } => k == "TrunkWasm"@
            && files(location, dockerfile_path, context_dir),
        BuildType::RustBinary { location, dockerfile_path, context_dir } => k == "RustBinary"@
            && files(location, dockerfile_path, context_dir),
        BuildType::Script { location, dockerfile_path, context_dir } => k == "Script"@ && files(
            location,
            dockerfile_path,
            context_dir,
        ),
        BuildType::Ingress { components, dockerfile_path, context_dir } => k == "Ingress"@
            && list_field(v, "components"@, vars) == Some(Some(strings_view(components@)))
            && text_field(v, "dockerfile"@, vars) == Some(Some(dockerfile_path@)) && text_field(
            v,
            "context_dir"@,
            vars,
        ) == Some(opt_view(context_dir)),
        BuildType::PureDockerImage { image_name_with_tag, command, entrypoint } => k == "Image"@
            && text_field(v, "image"@, vars) == Some(Some(image_name_with_tag@)) && text_field(
            v,
            "command"@,
            vars,
        ) == Some(opt_view(command)) && text_field(v, "entrypoint"@, vars) == Some(
            opt_view(entrypoint),
        ),
        BuildType::PureKubernetes => k == "K8sOnly"@,
        BuildType::KubernetesInstallation { namespace } => k == "K8sInstall"@ && text_field(
            v,
            "namespace"@,
            vars,
        ) == Some(Some(namespace@)),
        BuildType::ApiDocumentation { component, open_api } => k == "ApiDocumentation"@
            && text_field(v, "component"@, vars) == Some(Some(component@)) && text_field(
            v,
            "open_api"@,
            vars,
        ) == Some(Some(open_api@)),
    }
}

fn read_source_kind(v: &YamlValue, vars: &Variables) -> (r: Result<
    (String, String, Option<String>),
    SpecError,
>)
    ensures
        match r {
            Ok((l, d, c)) => text_field(*v, "location"@, *vars) == Some(Some(l@)) && text_field(
                *v,
                "dockerfile"@,
                *vars,
            ) == Some(Some(d@)) && text_field(*v, "context_dir"@, *vars) == Some(opt_view(c)),
            Err(_) => !(has_text(*v, "location"@, *vars) && has_text(*v, "dockerfile"@, *vars)
                && text_field(*v, "context_dir"@, *vars) is Some),
        },
{
    let location = match read_required(v, "location", vars) {
        Ok(s) => s,
        Err(e) => return Err(e),
    };
    let dockerfile = match read_required(v, "dockerfile", vars) {
        Ok(s) => s,
        Err(e) => return Err(e),
    };
    let context_dir = match read_text(v, "context_dir", vars) {
        Ok(o) => o,
        Err(e) => return Err(e),
    };
    Ok((location, dockerfile, context_dir))
}

/// Reads the kind of a component and the fields it requires.
pub fn build_type_from_yaml(v: &YamlValue, vars: &Variables) -> (r: Result<BuildType, SpecError>)
    ensures
        r is Ok <==> build_type_loads(*v, *vars),
        r is Ok ==> build_type_matches(r->Ok_0, *v, *vars),
{
    let kind = match read_required(v, "build_type", vars) {
        Ok(k) => k,
        Err(e) => return Err(e),
    };
    let k = kind.as_str();
    if str_eq(k, "TrunkWasm") {
        let (location, dockerfile_path, context_dir) = read_source_kind(v, vars)?;
        Ok(BuildType::TrunkWasm { location, dockerfile_path, context_dir })
    } else if str_eq(k, "RustBinary") {
        let (location, dockerfile_path, context_dir) = read_source_kind(v, vars)?;
        Ok(BuildType::RustBinary { location, dockerfile_path, context_dir })
    } else if str_eq(k, "Script") {
        let (location, dockerfile_path, context_dir) = read_source_kind(v, vars)?;
        Ok(BuildType::Script { location, dockerfile_path, context_dir })
    } else if str_eq(k, "Ingress") {
        let components = match read_list(v, "components", vars) {
            Ok(Some(l)) => l,
            Ok(None) => return Err(SpecError::MissingField(copy_str("components"))),
            Err(e) => return Err(e),
        };
        let dockerfile_path = read_required(v, "dockerfile", vars)?;
        let context_dir = read_text(v, "context_dir", vars)?;
        Ok(BuildType::Ingress { components, dockerfile_path, context_dir })
    } else if str_eq(k, "Image") {
        let image_name_with_tag = read_required(v, "image", vars)?;
        let command = read_text(v, "command", vars)?;
        let entrypoint = read_text(v, "entrypoint", vars)?;
        Ok(BuildType::PureDockerImage { image_name_with_tag, command, entrypoint })
    } else if str_eq(k, "K8sOnly") {
        Ok(BuildType::PureKubernetes)
    } else if str_eq(k, "K8sInstall") {
        let namespace = read_required(v, "namespace", vars)?;
        Ok(BuildType::KubernetesInstallation { namespace })
    } else if str_eq(k, "ApiDocumentation") {
        let component = read_required(v, "component", vars)?;
        let open_api = read_required(v, "open_api", vars)?;
        Ok(BuildType::ApiDocumentation { component, open_api })
    } else {
        Err(SpecError::InvalidBuildType(kind))
    }
}

/// Equal kinds: the same variant with equal fields.
pub open spec fn same_build_type(a: BuildType, b: BuildType) -> bool {
    match (a, b) {
        (
            BuildType::Ingress { components: c1, dockerfile_path: d1, context_dir: x1 },
            BuildType::Ingress { components: c2, dockerfile_path: d2, context_dir: x2 },
        ) => c1@ == c2@ && d1 == d2 && x1 == x2,
        _ => a == b,
    }
}

pub fn duplicate_build_type(bt: &BuildType) -> (r: BuildType)
    ensures
        same_build_type(r, *bt),
{
    match bt {
        BuildType::TrunkWasm { location, dockerfile_path, context_dir } => BuildType::TrunkWasm {
            location: location.clone(),
            dockerfile_path: dockerfile_path.clone(),
            context_dir: clone_opt(context_dir),
        },
        BuildType::RustBinary { location, dockerfile_path, context_dir } => BuildType::RustBinary {
            location: location.clone(),
            dockerfile_path: dockerfile_path.clone(),
            context_dir: clone_opt(context_dir),
        },
        BuildType::Script { location, dockerfile_path, context_dir } => BuildType::Script {
            location: location.clone(),
            dockerfile_path: dockerfile_path.clone(),
            context_dir: clone_opt(context_dir),
        },
        BuildType::Ingress { components, dockerfile_path, context_dir } => BuildType::Ingress {
            components: clone_strings(components),
            dockerfile_path: dockerfile_path.clone(),
            context_dir: clone_opt(context_dir),
        },
        BuildType::PureDockerImage { image_name_with_tag, command, entrypoint } =>
            BuildType::PureDockerImage {
            image_name_with_tag: image_name_with_tag.clone(),
            command: clone_opt(command),
            entrypoint: clone_opt(entrypoint),
        },
        BuildType::PureKubernetes => BuildType::PureKubernetes,
        BuildType::KubernetesInstallation { namespace } => BuildType::KubernetesInstallation {
            namespace: namespace.clone(),
        },
        BuildType::ApiDocumentation { component, open_api } => BuildType::ApiDocumentation {
            component: component.clone(),
            open_api: open_api.clone(),
        },
    }
}

/// Everything needed to build and run one component.
pub struct ComponentBuildSpec {
    pub build_type: BuildType,
    pub product_name: String,
    pub component_name: String,
    pub color: String,
    pub depends_on: Vec<String>,
    pub build: Option<String>,
    pub watch_path: Option<String>,
    pub mount_point: Option<String>,
    pub subdomain: Option<String>,
    pub artefacts: Option<Vec<(String, String)>>,
    pub artefact_output_dir: String,
    pub docker_extra_run_args: Vec<String>,
    pub env: Option<Vec<(String, String)>>,
    pub volumes: Option<Vec<(String, String)>>,
    pub port: Option<u16>,
    pub target_port: Option<u16>,
    pub k8s: Option<String>,
    pub priority: u64,
    pub config: Config,
    /// Set once the service table is known.
    pub services: Option<Vec<ServiceSpec>>,
    /// Set once the component's image is known.
    pub tagged_image_name: Option<String>,
}

pub open spec fn text_or(o: Option<Option<Seq<char>>>, default: Seq<char>) -> Seq<char> {
    match o {
        Some(Some(s)) => s,
        _ => default,
    }
}

pub open spec fn list_or_empty(o: Option<Option<Seq<Seq<char>>>>) -> Seq<Seq<char>> {
    match o {
        Some(Some(l)) => l,
        _ => Seq::empty(),
    }
}

/// Whether the manifest entry `v` loads: a known kind with its fields, and
/// every other field absent or of the right shape, with no unknown variable.
pub open spec fn component_loads(v: YamlValue, vars: Variables, cwd: Seq<char>) -> bool {
    &&& build_type_loads(v, vars)
    &&& text_field(v, "build"@, vars) is Some
    &&& text_field(v, "watch"@, vars) is Some
    &&& text_field(v, "color"@, vars) is Some
    &&& text_field(v, "component_name"@, vars) is Some
    &&& text_field(v, "mount_point"@, vars) is Some
    &&& text_field(v, "subdomain"@, vars) is Some
    &&& map_field(v, "artefacts"@, vars, None) is Some
    &&& text_field(v, "artefact_output_dir"@, vars) is Some
    &&& list_field(v, "docker_extra_run_args"@, vars) is Some
    &&& list_field(v, "depends_on"@, vars) is Some
    &&& map_field(v, "env"@, vars, None) is Some
    &&& map_field(v, "volumes"@, vars, Some(cwd)) is Some
    &&& port_field(v, "port"@, vars) is Some
    &&& port_field(v, "target_port"@, vars) is Some
    &&& text_field(v, "k8s"@, vars) is Some
    &&& count_field(v, "priority"@) is Some
}

/// The spec that the manifest entry `v`, under the name `entry_name`, loads to.
pub open spec fn component_matches(
    c: ComponentBuildSpec,
    config: Config,
    v: YamlValue,
    entry_name: Seq<char>,
    vars: Variables,
    cwd: Seq<char>,
) -> bool {
    &&& build_type_matches(c.build_type, v, vars)
    &&& c.config == config
    &&& c.product_name@ == config.product_name@
    &&& c.component_name@ == text_or(text_field(v, "component_name"@, vars), entry_name)
    &&& c.color@ == text_or(text_field(v, "color"@, vars), "blue"@)
    &&& Some(opt_view(c.build)) == text_field(v, "build"@, vars)
    &&& Some(opt_view(c.watch_path)) == text_field(v, "watch"@, vars)
    &&& Some(opt_view(c.mount_point)) == text_field(v, "mount_point"@, vars)
    &&& Some(opt_view(c.subdomain)) == text_field(v, "subdomain"@, vars)
    &&& Some(opt_pairs_view(c.artefacts)) == map_field(v, "artefacts"@, vars, None)
    &&& c.artefact_output_dir@ == text_or(
        text_field(v, "artefact_output_dir"@, vars),
        "target/rushd"@,
    )
    &&& strings_view(c.docker_extra_run_args@) == list_or_empty(
        list_field(v, "docker_extra_run_args"@, vars),
    )
    &&& strings_view(c.depends_on@) == list_or_empty(list_field(v, "depends_on"@, vars))
    &&& Some(opt_pairs_view(c.env)) == map_field(v, "env"@, vars, None)
    &&& Some(opt_pairs_view(c.volumes)) == map_field(v, "volumes"@, vars, Some(cwd))
    &&& Some(c.port) == port_field(v, "port"@, vars)
    &&& Some(c.target_port) == port_field(v, "target_port"@, vars)
    &&& Some(opt_view(c.k8s)) == text_field(v, "k8s"@, vars)
    &&& c.priority == match count_field(v, "priority"@) {
        Some(Some(p)) => p,
        _ => 100u64,
    }
    &&& c.services is None
    &&& c.tagged_image_name is None
}

fn text_or_default(o: Option<String>, default: &str) -> (r: String)
    ensures
        r@ == match o {
            Some(s) => s@,
            None => default@,
        },
{
    match o {
        Some(s) => s,
        None => copy_str(default),
    }
}

impl ComponentBuildSpec {
    /// Loads one manifest entry. `entry_name` is the entry's key, the
    /// component's name unless the entry gives `component_name`; volume
    /// host paths are resolved against `cwd`.
    pub fn from_yaml(
        config: &Config,
        yaml_section: &YamlValue,
        entry_name: &str,
        variables: &Variables,
        cwd: &str,
    ) -> (r: Result<ComponentBuildSpec, SpecError>)
        ensures
            r is Ok <==> component_loads(*yaml_section, *variables, cwd@),
            r is Ok ==> component_matches(
                r->Ok_0,
                *config,
                *yaml_section,
                entry_name@,
                *variables,
                cwd@,
            ),
    {
        let v = yaml_section;
        let vars = variables;
        let build_type = build_type_from_yaml(v, vars)?;
        let build = read_text(v, "build", vars)?;
        let watch_path = read_text(v, "watch", vars)?;
        let color = read_text(v, "color", vars)?;
        let component_name = read_text(v, "component_name", vars)?;
        let mount_point = read_text(v, "mount_point", vars)?;
        let subdomain = read_text(v, "subdomain", vars)?;
        let artefacts = read_map(v, "artefacts", vars, None)?;
        let artefact_output_dir = read_text(v, "artefact_output_dir", vars)?;
        let docker_extra_run_args = read_list(v, "docker_extra_run_args", vars)?;
        let depends_on = read_list(v, "depends_on", vars)?;
        let env = read_map(v, "env", vars, None)?;
        let volumes = read_map(v, "volumes", vars, Some(cwd))?;
        let port = read_port(v, "port", vars)?;
        let target_port = read_port(v, "target_port", vars)?;
        let k8s = read_text(v, "k8s", vars)?;
        let priority = read_count(v, "priority")?;
        let depends_on: Vec<String> = match depends_on {
            Some(l) => l,
            None => Vec::new(),
        };
        assert(strings_view(depends_on@) =~= list_or_empty(list_field(*v, "depends_on"@, *vars)));
        let docker_extra_run_args: Vec<String> = match docker_extra_run_args {
            Some(l) => l,
            None => Vec::new(),
        };
        assert(strings_view(docker_extra_run_args@) =~= list_or_empty(
            list_field(*v, "docker_extra_run_args"@, *vars),
        ));
        Ok(ComponentBuildSpec {
            build_type,
            product_name: copy_str(config.product_name()),
            component_name: text_or_default(component_name, entry_name),
            color: text_or_default(color, "blue"),
            depends_on,
            build,
            watch_path,
            mount_point,
            subdomain,
            artefacts,
            artefact_output_dir: text_or_default(artefact_output_dir, "target/rushd"),
            docker_extra_run_args,
            env,
            volumes,
            port,
            target_port,
            k8s,
            priority: match priority {
                Some(p) => p,
                None => 100,
            },
            config: config.duplicate(),
            services: None,
            tagged_image_name: None,
        })
    }

    pub fn set_services(&mut self, services: Vec<ServiceSpec>)
        ensures
            *final(self) == (ComponentBuildSpec { services: Some(services), ..*old(self) }),
    {
        self.services = Some(services);
    }

    pub fn set_tagged_image_name(&mut self, tagged_image_name: String)
        ensures
            *final(self) == (ComponentBuildSpec {
                tagged_image_name: Some(tagged_image_name),
                ..*old(self)
            }),
    {
        self.tagged_image_name = Some(tagged_image_name);
    }

    pub fn config(&self) -> (r: Config)
        ensures
            r == self.config,
    {
        self.config.duplicate()
    }
}

} // verus!
