//! The build context: what templates are rendered against, and its JSON form.
use vstd::prelude::*;
use crate::build_type::BuildType;
use crate::component::ComponentBuildSpec;
use crate::config::{product_uri, product_uri_spec};
use crate::fields::strings_view;
use crate::platform::{ArchType, OperatingSystem, Platform};
use crate::render::{json_number_of, json_object, json_object_of, json_opt_string, json_opt_string_of, json_string, json_string_of, members_view};
use crate::service::ServiceSpec;
use crate::text::{copy_str, decimal, joined, push_char, str_eq};
use crate::toolchain::ToolchainContext;
use crate::variables::opt_view;

verus! {

pub struct BuildContext {
    pub build_type: BuildType,
    pub location: Option<String>,
    pub target: Platform,
    pub host: Platform,
    pub rust_target: String,
    pub toolchain: ToolchainContext,
    pub services: Vec<ServiceSpec>,
    pub environment: String,
    pub domain: String,
    pub product_name: String,
    pub product_uri: String,
    pub component: String,
    pub docker_registry: String,
    pub image_name: String,
}

pub open spec fn json_array(items: Seq<Seq<char>>) -> Seq<char> {
    seq!['['] + joined(items, seq![',']) + seq![']']
}

pub open spec fn os_variant(os: OperatingSystem) -> Seq<char> {
    match os {
        OperatingSystem::Linux => "Linux"@,
        OperatingSystem::MacOS => "MacOS"@,
    }
}

pub open spec fn arch_variant(arch: ArchType) -> Seq<char> {
    match arch {
        ArchType::X86_64 => "X86_64"@,
        ArchType::AARCH64 => "AARCH64"@,
    }
}

pub open spec fn platform_json(p: Platform) -> Seq<char> {
    json_object(
        seq![("os"@, json_string(os_variant(p.os))), ("arch"@, json_string(arch_variant(p.arch)))],
    )
}

pub open spec fn toolchain_json(t: ToolchainContext) -> Seq<char> {
    json_object(
        seq![
            ("host"@, platform_json(t.host)),
            ("target"@, platform_json(t.target)),
            ("git"@, json_string(t.git@)),
            ("docker"@, json_string(t.docker@)),
            ("trunk"@, json_string(t.trunk@)),
            ("kubectl"@, json_opt_string(opt_view(t.kubectl))),
            ("minikube"@, json_opt_string(opt_view(t.minikube))),
            ("cc"@, json_string(t.cc@)),
            ("cxx"@, json_string(t.cxx@)),
            ("ar"@, json_string(t.ar@)),
            ("ranlib"@, json_string(t.ranlib@)),
            ("nm"@, json_string(t.nm@)),
            ("strip"@, json_string(t.strip@)),
            ("objdump"@, json_string(t.objdump@)),
            ("objcopy"@, json_string(t.objcopy@)),
            ("ld"@, json_string(t.ld@)),
        ],
    )
}

pub open spec fn source_json(
    location: Seq<char>,
    dockerfile_path: Seq<char>,
    context_dir: Option<Seq<char>>,
) -> Seq<char> {
    json_object(
        seq![
            ("location"@, json_string(location)),
            ("dockerfile_path"@, json_string(dockerfile_path)),
            ("context_dir"@, json_opt_string(context_dir)),
        ],
    )
}

/// A kind as an externally tagged JSON value: a kind without fields is its
/// name, any other an object of one member, its name, holding its fields.
pub open spec fn build_type_json(bt: BuildType) -> Seq<char> {
    match bt {
        BuildType::TrunkWasm { location, dockerfile_path, context_dir } => json_object(
            seq![("TrunkWasm"@, source_json(location@, dockerfile_path@, opt_view(context_dir)))],
        ),
        BuildType::RustBinary { location, dockerfile_path, context_dir } => json_object(
            seq![("RustBinary"@, source_json(location@, dockerfile_path@, opt_view(context_dir)))],
        ),
        BuildType::Script { location, dockerfile_path, context_dir } => json_object(
            seq![("Script"@, source_json(location@, dockerfile_path@, opt_view(context_dir)))],
        ),
        BuildType::Ingress { components, dockerfile_path, context_dir } => json_object(
            seq![
                (
                    "Ingress"@,
                    json_object(
                        seq![
                            ("components"@, json_array(json_strings(strings_view(components@)))),
                            ("dockerfile_path"@, json_string(dockerfile_path@)),
                            ("context_dir"@, json_opt_string(opt_view(context_dir))),
                        ],
                    ),
                ),
            ],
        ),
        BuildType::PureDockerImage { image_name_with_tag, command, entrypoint } => json_object(
            seq![
                (
                    "PureDockerImage"@,
                    json_object(
                        seq![
                            ("image_name_with_tag"@, json_string(image_name_with_tag@)),
                            ("command"@, json_opt_string(opt_view(command))),
                            ("entrypoint"@, json_opt_string(opt_view(entrypoint))),
                        ],
                    ),
                ),
            ],
        ),
        BuildType::PureKubernetes => json_string("PureKubernetes"@),
        BuildType::KubernetesInstallation { namespace } => json_object(
            seq![
                (
                    "KubernetesInstallation"@,
                    json_object(seq![("namespace"@, json_string(namespace@))]),
                ),
            ],
        ),
        BuildType::ApiDocumentation { component, open_api } => json_object(
            seq![
                (
                    "ApiDocumentation"@,
                    json_object(
                        seq![
                            ("component"@, json_string(component@)),
                            ("open_api"@, json_string(open_api@)),
                        ],
                    ),
                ),
            ],
        ),
    }
}

pub open spec fn service_json(s: ServiceSpec) -> Seq<char> {
    json_object(
        seq![
            ("name"@, json_string(s.name@)),
            ("port"@, decimal(s.port as nat)),
            ("target_port"@, decimal(s.target_port as nat)),
            ("mount_point"@, json_opt_string(opt_view(s.mount_point))),
        ],
    )
}

pub open spec fn service_members(ss: Seq<ServiceSpec>) -> Seq<(Seq<char>, Seq<char>)> {
    Seq::new(ss.len(), |i: int| (ss[i].name@, service_json(ss[i])))
}

/// The service table as an object keyed by component name.
pub open spec fn services_json(ss: Seq<ServiceSpec>) -> Seq<char> {
    json_object(service_members(ss))
}

/// Each string as a JSON string literal.
pub open spec fn json_strings(v: Seq<Seq<char>>) -> Seq<Seq<char>> {
    Seq::new(v.len(), |i: int| json_string(v[i]))
}

/// The render context of a component's templates.
pub open spec fn context_json(c: BuildContext) -> Seq<char> {
    json_object(
        seq![
            ("build_type"@, build_type_json(c.build_type)),
            ("location"@, json_opt_string(opt_view(c.location))),
            ("target"@, platform_json(c.target)),
            ("host"@, platform_json(c.host)),
            ("rust_target"@, json_string(c.rust_target@)),
            ("toolchain"@, toolchain_json(c.toolchain)),
            ("services"@, services_json(c.services@)),
            ("environment"@, json_string(c.environment@)),
            ("domain"@, json_string(c.domain@)),
            ("product_name"@, json_string(c.product_name@)),
            ("product_uri"@, json_string(c.product_uri@)),
            ("component"@, json_string(c.component@)),
            ("docker_registry"@, json_string(c.docker_registry@)),
            ("image_name"@, json_string(c.image_name@)),
        ],
    )
}

fn text_member(key: &str, value: &str) -> (r: (String, String))
    ensures
        r.0@ == key@,
        r.1@ == json_string(value@),
{
    (copy_str(key), json_string_of(value))
}

fn opt_member(key: &str, value: &Option<String>) -> (r: (String, String))
    ensures
        r.0@ == key@,
        r.1@ == json_opt_string(opt_view(*value)),
{
    (copy_str(key), json_opt_string_of(value))
}

pub fn json_array_of(items: &Vec<String>) -> (r: String)
    ensures
        r@ == json_array(strings_view(items@)),
{
    let ghost parts = strings_view(items@);
    let mut r = String::new();
    push_char(&mut r, '[');
    let mut i: usize = 0;
    while i < items.len()
        invariant
            i <= items.len(),
            parts == strings_view(items@),
            r@ == seq!['['] + joined(parts.subrange(0, i as int), seq![',']),
        decreases items.len() - i,
    {
        let ghost before = r@;
        if i > 0 {
            push_char(&mut r, ',');
        }
        r.append(items[i].as_str());
        let ghost next = parts.subrange(0, i + 1);
        assert(next.drop_last() =~= parts.subrange(0, i as int));
        if i == 0 {
            assert(before =~= seq!['[']);
        }
        assert(r@ =~= seq!['['] + joined(next, seq![',']));
        i = i + 1;
    }
    assert(parts.subrange(0, items.len() as int) =~= parts);
    push_char(&mut r, ']');
    r
}

pub fn platform_json_of(p: &Platform) -> (r: String)
    ensures
        r@ == platform_json(*p),
{
    let os = match p.os {
        OperatingSystem::Linux => "Linux",
        OperatingSystem::MacOS => "MacOS",
    };
    let arch = match p.arch {
        ArchType::X86_64 => "X86_64",
        ArchType::AARCH64 => "AARCH64",
    };
    let mut m: Vec<(String, String)> = Vec::new();
    m.push(text_member("os", os));
    m.push(text_member("arch", arch));
    assert(members_view(m@) =~= seq![
        ("os"@, json_string(os_variant(p.os))),
        ("arch"@, json_string(arch_variant(p.arch))),
    ]);
    json_object_of(&m)
}

pub fn toolchain_json_of(t: &ToolchainContext) -> (r: String)
    ensures
        r@ == toolchain_json(*t),
{
    let mut m: Vec<(String, String)> = Vec::new();
    m.push((copy_str("host"), platform_json_of(&t.host)));
    m.push((copy_str("target"), platform_json_of(&t.target)));
    m.push(text_member("git", t.git.as_str()));
    m.push(text_member("docker", t.docker.as_str()));
    m.push(text_member("trunk", t.trunk.as_str()));
    m.push(opt_member("kubectl", &t.kubectl));
    m.push(opt_member("minikube", &t.minikube));
    m.push(text_member("cc", t.cc.as_str()));
    m.push(text_member("cxx", t.cxx.as_str()));
    m.push(text_member("ar", t.ar.as_str()));
    m.push(text_member("ranlib", t.ranlib.as_str()));
    m.push(text_member("nm", t.nm.as_str()));
    m.push(text_member("strip", t.strip.as_str()));
    m.push(text_member("objdump", t.objdump.as_str()));
    m.push(text_member("objcopy", t.objcopy.as_str()));
    m.push(text_member("ld", t.ld.as_str()));
    assert(members_view(m@) =~= seq![
        ("host"@, platform_json(t.host)),
        ("target"@, platform_json(t.target)),
        ("git"@, json_string(t.git@)),
        ("docker"@, json_string(t.docker@)),
        ("trunk"@, json_string(t.trunk@)),
        ("kubectl"@, json_opt_string(opt_view(t.kubectl))),
        ("minikube"@, json_opt_string(opt_view(t.minikube))),
        ("cc"@, json_string(t.cc@)),
        ("cxx"@, json_string(t.cxx@)),
        ("ar"@, json_string(t.ar@)),
        ("ranlib"@, json_string(t.ranlib@)),
        ("nm"@, json_string(t.nm@)),
        ("strip"@, json_string(t.strip@)),
        ("objdump"@, json_string(t.objdump@)),
        ("objcopy"@, json_string(t.objcopy@)),
        ("ld"@, json_string(t.ld@)),
    ]);
    json_object_of(&m)
}

fn source_json_of(location: &str, dockerfile_path: &str, context_dir: &Option<String>) -> (r:
    String)
    ensures
        r@ == source_json(location@, dockerfile_path@, opt_view(*context_dir)),
{
    let mut m: Vec<(String, String)> = Vec::new();
    m.push(text_member("location", location));
    m.push(text_member("dockerfile_path", dockerfile_path));
    m.push(opt_member("context_dir", context_dir));
    assert(members_view(m@) =~= seq![
        ("location"@, json_string(location@)),
        ("dockerfile_path"@, json_string(dockerfile_path@)),
        ("context_dir"@, json_opt_string(opt_view(*context_dir))),
    ]);
    json_object_of(&m)
}

fn tagged(name: &str, body: String) -> (r: String)
    ensures
        r@ == json_object(seq![(name@, body@)]),
{
    let mut m: Vec<(String, String)> = Vec::new();
    m.push((copy_str(name), body));
    assert(members_view(m@) =~= seq![(name@, body@)]);
    json_object_of(&m)
}

pub fn build_type_json_of(bt: &BuildType) -> (r: String)
    ensures
        r@ == build_type_json(*bt),
{
    match bt {
        BuildType::TrunkWasm { location, dockerfile_path, context_dir } => tagged(
            "TrunkWasm",
            source_json_of(location.as_str(), dockerfile_path.as_str(), context_dir),
        ),
        BuildType::RustBinary { location, dockerfile_path, context_dir } => tagged(
            "RustBinary",
            source_json_of(location.as_str(), dockerfile_path.as_str(), context_dir),
        ),
        BuildType::Script { location, dockerfile_path, context_dir } => tagged(
            "Script",
            source_json_of(location.as_str(), dockerfile_path.as_str(), context_dir),
        ),
        BuildType::Ingress { components, dockerfile_path, context_dir } => {
            let mut items: Vec<String> = Vec::new();
            let mut i: usize = 0;
            while i < components.len()
                invariant
                    i <= components.len(),
                    strings_view(items@) =~= json_strings(strings_view(components@)).subrange(
                        0,
                        i as int,
                    ),
                decreases components.len() - i,
            {
                let ghost prev = items@;
                let x = json_string_of(components[i].as_str());
                items.push(x);
                assert(strings_view(items@) =~= strings_view(prev).push(x@));
                assert(json_strings(strings_view(components@)).subrange(0, i + 1) =~= json_strings(
                    strings_view(components@),
                ).subrange(0, i as int).push(x@));
                i = i + 1;
            }
            assert(json_strings(strings_view(components@)).subrange(0, components@.len() as int)
                =~= json_strings(strings_view(components@)));
            let mut m: Vec<(String, String)> = Vec::new();
            m.push((copy_str("components"), json_array_of(&items)));
            m.push(text_member("dockerfile_path", dockerfile_path.as_str()));
            m.push(opt_member("context_dir", context_dir));
            assert(members_view(m@) =~= seq![
                ("components"@, json_array(json_strings(strings_view(components@)))),
                ("dockerfile_path"@, json_string(dockerfile_path@)),
                ("context_dir"@, json_opt_string(opt_view(*context_dir))),
            ]);
            tagged("Ingress", json_object_of(&m))
        },
        BuildType::PureDockerImage { image_name_with_tag, command, entrypoint } => {
            let mut m: Vec<(String, String)> = Vec::new();
            m.push(text_member("image_name_with_tag", image_name_with_tag.as_str()));
            m.push(opt_member("command", command));
            m.push(opt_member("entrypoint", entrypoint));
            assert(members_view(m@) =~= seq![
                ("image_name_with_tag"@, json_string(image_name_with_tag@)),
                ("command"@, json_opt_string(opt_view(*command))),
                ("entrypoint"@, json_opt_string(opt_view(*entrypoint))),
            ]);
            tagged("PureDockerImage", json_object_of(&m))
        },
        BuildType::PureKubernetes => json_string_of("PureKubernetes"),
        BuildType::KubernetesInstallation { namespace } => {
            let mut m: Vec<(String, String)> = Vec::new();
            m.push(text_member("namespace", namespace.as_str()));
            assert(members_view(m@) =~= seq![("namespace"@, json_string(namespace@))]);
            tagged("KubernetesInstallation", json_object_of(&m))
        },
        BuildType::ApiDocumentation { component, open_api } => {
            let mut m: Vec<(String, String)> = Vec::new();
            m.push(text_member("component", component.as_str()));
            m.push(text_member("open_api", open_api.as_str()));
            assert(members_view(m@) =~= seq![
                ("component"@, json_string(component@)),
                ("open_api"@, json_string(open_api@)),
            ]);
            tagged("ApiDocumentation", json_object_of(&m))
        },
    }
}

pub fn service_json_of(s: &ServiceSpec) -> (r: String)
    ensures
        r@ == service_json(*s),
{
    let mut m: Vec<(String, String)> = Vec::new();
    m.push(text_member("name", s.name.as_str()));
    m.push((copy_str("port"), json_number_of(s.port as u64)));
    m.push((copy_str("target_port"), json_number_of(s.target_port as u64)));
    m.push(opt_member("mount_point", &s.mount_point));
    assert(members_view(m@) =~= seq![
        ("name"@, json_string(s.name@)),
        ("port"@, decimal(s.port as nat)),
        ("target_port"@, decimal(s.target_port as nat)),
        ("mount_point"@, json_opt_string(opt_view(s.mount_point))),
    ]);
    json_object_of(&m)
}

pub fn services_json_of(ss: &Vec<ServiceSpec>) -> (r: String)
    ensures
        r@ == services_json(ss@),
{
    let mut m: Vec<(String, String)> = Vec::new();
    let mut i: usize = 0;
    while i < ss.len()
        invariant
            i <= ss.len(),
            members_view(m@) =~= service_members(ss@).subrange(0, i as int),
        decreases ss.len() - i,
    {
        let ghost prev = m@;
        let x = (ss[i].name.clone(), service_json_of(&ss[i]));
        m.push(x);
        assert(members_view(m@) =~= members_view(prev).push((x.0@, x.1@)));
        assert(service_members(ss@).subrange(0, i + 1) =~= service_members(ss@).subrange(
            0,
            i as int,
        ).push((x.0@, x.1@)));
        i = i + 1;
    }
    assert(service_members(ss@).subrange(0, ss@.len() as int) =~= service_members(ss@));
    json_object_of(&m)
}

impl BuildContext {
    /// The JSON render context of this build context.
    pub fn to_json(&self) -> (r: String)
        ensures
            r@ == context_json(*self),
    {
        let mut m: Vec<(String, String)> = Vec::new();
        m.push((copy_str("build_type"), build_type_json_of(&self.build_type)));
        m.push(opt_member("location", &self.location));
        m.push((copy_str("target"), platform_json_of(&self.target)));
        m.push((copy_str("host"), platform_json_of(&self.host)));
        m.push(text_member("rust_target", self.rust_target.as_str()));
        m.push((copy_str("toolchain"), toolchain_json_of(&self.toolchain)));
        m.push((copy_str("services"), services_json_of(&self.services)));
        m.push(text_member("environment", self.environment.as_str()));
        m.push(text_member("domain", self.domain.as_str()));
        m.push(text_member("product_name", self.product_name.as_str()));
        m.push(text_member("product_uri", self.product_uri.as_str()));
        m.push(text_member("component", self.component.as_str()));
        m.push(text_member("docker_registry", self.docker_registry.as_str()));
        m.push(text_member("image_name", self.image_name.as_str()));
        assert(members_view(m@) =~= seq![
            ("build_type"@, build_type_json(self.build_type)),
            ("location"@, json_opt_string(opt_view(self.location))),
            ("target"@, platform_json(self.target)),
            ("host"@, platform_json(self.host)),
            ("rust_target"@, json_string(self.rust_target@)),
            ("toolchain"@, toolchain_json(self.toolchain)),
            ("services"@, services_json(self.services@)),
            ("environment"@, json_string(self.environment@)),
            ("domain"@, json_string(self.domain@)),
            ("product_name"@, json_string(self.product_name@)),
            ("product_uri"@, json_string(self.product_uri@)),
            ("component"@, json_string(self.component@)),
            ("docker_registry"@, json_string(self.docker_registry@)),
            ("image_name"@, json_string(self.image_name@)),
        ]);
        json_object_of(&m)
    }
}

/// The entries of `ss` whose name is among `names`, in order.
pub open spec fn services_named(ss: Seq<ServiceSpec>, names: Seq<Seq<char>>) -> Seq<ServiceSpec>
    decreases ss.len(),
{
    if ss.len() == 0 {
        Seq::empty()
    } else if names.contains(ss.last().name@) {
        services_named(ss.drop_last(), names).push(ss.last())
    } else {
        services_named(ss.drop_last(), names)
    }
}

pub fn contains_string(v: &Vec<String>, s: &str) -> (r: bool)
    ensures
        r == strings_view(v@).contains(s@),
{
    let mut i: usize = 0;
    while i < v.len()
        invariant
            i <= v.len(),
            forall|j: int| 0 <= j < i ==> v@[j]@ != s@,
        decreases v.len() - i,
    {
        if str_eq(v[i].as_str(), s) {
            assert(strings_view(v@)[i as int] == s@);
            return true;
        }
        i = i + 1;
    }
    assert forall|j: int| 0 <= j < strings_view(v@).len() implies strings_view(v@)[j] != s@ by {
        assert(strings_view(v@)[j] == v@[j]@);
    }
    false
}

pub fn select_services(ss: &Vec<ServiceSpec>, names: &Vec<String>) -> (r: Vec<ServiceSpec>)
    ensures
        r@ == services_named(ss@, strings_view(names@)),
{
    let mut r: Vec<ServiceSpec> = Vec::new();
    let mut i: usize = 0;
    while i < ss.len()
        invariant
            i <= ss.len(),
            r@ == services_named(ss@.subrange(0, i as int), strings_view(names@)),
        decreases ss.len() - i,
    {
        let ghost p = ss@.subrange(0, i + 1);
        assert(p.drop_last() =~= ss@.subrange(0, i as int));
        if contains_string(names, ss[i].name.as_str()) {
            r.push(ss[i].duplicate());
        }
        i = i + 1;
    }
    assert(ss@.subrange(0, ss@.len() as int) =~= ss@);
    r
}

/// The services that a component's templates see: an ingress sees those of
/// the components it routes to, any other kind none.
pub open spec fn context_services(bt: BuildType, all: Seq<ServiceSpec>) -> Seq<ServiceSpec> {
    match bt {
        BuildType::Ingress { components, .. } => services_named(all, strings_view(components@)),
        _ => Seq::empty(),
    }
}

impl ComponentBuildSpec {
    /// The build context of this component, for the given toolchain. The
    /// service table must have been set.
    pub fn generate_build_context(&self, toolchain: &ToolchainContext) -> (r: BuildContext)
        requires
            self.services is Some,
        ensures
            crate::component::same_build_type(r.build_type, self.build_type),
            opt_view(r.location) == self.build_type.location_spec(),
            r.target == toolchain.target,
            r.host == toolchain.host,
            r.rust_target@ == crate::platform::arch_name(toolchain.target.arch) + "-unknown-"@
                + crate::platform::os_name(toolchain.target.os) + "-gnu"@,
            r.toolchain == *toolchain,
            r.services@ == context_services(self.build_type, self.services->0@),
            r.environment@ == self.config.environment@,
            r.domain@ == self.config.domain@,
            r.product_name@ == self.product_name@,
            r.product_uri@ == product_uri_spec(self.product_name@),
            r.component@ == self.component_name@,
            r.docker_registry@ == self.config.docker_registry@,
            r.image_name@ == match self.tagged_image_name {
                Some(n) => n@,
                None => Seq::<char>::empty(),
            },
    {
        let all = match &self.services {
            Some(s) => s,
            None => return BuildContext {
                build_type: BuildType::PureKubernetes,
                location: None,
                target: toolchain.target,
                host: toolchain.host,
                rust_target: String::new(),
                toolchain: toolchain.duplicate(),
                services: Vec::new(),
                environment: String::new(),
                domain: String::new(),
                product_name: String::new(),
                product_uri: String::new(),
                component: String::new(),
                docker_registry: String::new(),
                image_name: String::new(),
            },
        };
        let services: Vec<ServiceSpec> = match &self.build_type {
            BuildType::Ingress { components, .. } => select_services(all, components),
            _ => Vec::new(),
        };
        let build_type = crate::component::duplicate_build_type(&self.build_type);
        BuildContext {
            build_type,
            location: self.build_type.location(),
            target: toolchain.target,
            host: toolchain.host,
            rust_target: toolchain.target.to_rust_target(),
            toolchain: toolchain.duplicate(),
            services,
            environment: copy_str(self.config.environment()),
            domain: copy_str(self.config.domain()),
            product_name: self.product_name.clone(),
            product_uri: product_uri(self.product_name.as_str()),
            component: self.component_name.clone(),
            docker_registry: copy_str(self.config.docker_registry()),
            image_name: match &self.tagged_image_name {
                Some(n) => n.clone(),
                None => String::new(),
            },
        }
    }
}

} // verus!
