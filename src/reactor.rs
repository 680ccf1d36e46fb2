//! The reactor's load phase: a product manifest becomes component specs,
//! tagged images with their ports, the service table, and the cluster
//! manifest groups; and the command lines of the reactor's commands.
use vstd::prelude::*;
use crate::cluster::{InfrastructureRepo, K8ClusterManifests, ManifestFile};
use crate::component::{
    component_loads, component_matches, list_or_empty, same_build_type, text_or, ComponentBuildSpec,
};
use crate::config::Config;
use crate::fields::{list_field, strings_view, text_field, SpecError};
use crate::image::{discovered_port, DockerImage, ImageError};
use crate::service::{duplicate_services, ServiceSpec};
use crate::text::{chars_of, clone_opt, clone_pairs, clone_strings, concat2, copy_str, decimal, decimal_string, str_eq, string_of};
use crate::toolchain::ToolchainContext;
use crate::variables::Variables;
use crate::yaml::YamlValue;

verus! {

/// Why the reactor could not be set up.
pub enum ReactorError {
    /// The product tree has no commit to tag images with.
    EmptyGitHash,
    Image(ImageError),
    /// Automatic port assignment ran past 65535.
    PortsExhausted,
}

/// The image tag: the commit's first eight characters, with `-wip` when
/// the tree has uncommitted changes.
pub open spec fn tag_spec(git_hash: Seq<char>, dirty: bool) -> Seq<char> {
    let short = if git_hash.len() > 8 {
        git_hash.subrange(0, 8)
    } else {
        git_hash
    };
    if dirty {
        short + "-wip"@
    } else {
        short
    }
}

pub fn image_tag(git_hash: &str, dirty: bool) -> (r: Result<String, ReactorError>)
    ensures
        git_hash@.len() == 0 <==> r is Err,
        r matches Ok(t) ==> t@ == tag_spec(git_hash@, dirty),
{
    let cs = chars_of(git_hash);
    if cs.len() == 0 {
        return Err(ReactorError::EmptyGitHash);
    }
    let mut short: Vec<char> = Vec::new();
    let mut i: usize = 0;
    while i < cs.len() && i < 8
        invariant
            i <= cs.len(),
            i <= 8,
            cs@ == git_hash@,
            short@ == cs@.subrange(0, i as int),
        decreases cs.len() - i,
    {
        short.push(cs[i]);
        i = i + 1;
    }
    assert(cs@.subrange(0, cs@.len() as int) =~= cs@);
    let s = string_of(&short);
    if dirty {
        Ok(concat2(s.as_str(), "-wip"))
    } else {
        Ok(s)
    }
}

pub open spec fn stack_entries(stack: YamlValue) -> Seq<(YamlValue, YamlValue)> {
    match stack {
        YamlValue::Mapping(entries) => entries@,
        _ => Seq::empty(),
    }
}

/// The name of the component of a manifest entry.
pub open spec fn entry_name(e: (YamlValue, YamlValue), vars: Variables) -> Seq<char> {
    text_or(text_field(e.1, "component_name"@, vars), e.0->Str_0@)
}

pub open spec fn entry_deps(e: (YamlValue, YamlValue), vars: Variables) -> Seq<Seq<char>> {
    list_or_empty(list_field(e.1, "depends_on"@, vars))
}

pub open spec fn names_unique(names: Seq<Seq<char>>) -> bool {
    forall|i: int, j: int| 0 <= i < j < names.len() ==> names[i] != names[j]
}

/// Every dependency of every component names a component.
pub open spec fn deps_resolve(names: Seq<Seq<char>>, deps: Seq<Seq<Seq<char>>>) -> bool {
    forall|i: int, k: int|
        0 <= i < deps.len() && 0 <= k < deps[i].len() ==> names.contains(#[trigger] deps[i][k])
}

pub open spec fn stack_names(es: Seq<(YamlValue, YamlValue)>, vars: Variables) -> Seq<Seq<char>> {
    Seq::new(es.len(), |i: int| entry_name(es[i], vars))
}

pub open spec fn stack_deps(es: Seq<(YamlValue, YamlValue)>, vars: Variables) -> Seq<
    Seq<Seq<char>>,
> {
    Seq::new(es.len(), |i: int| entry_deps(es[i], vars))
}

/// Whether a manifest loads: each entry keyed by a string and loading, the
/// component names unique, and every dependency a component of the stack.
pub open spec fn stack_loads(stack: YamlValue, vars: Variables, cwd: Seq<char>) -> bool {
    let es = stack_entries(stack);
    &&& forall|i: int|
        0 <= i < es.len() ==> (#[trigger] es[i]).0 is Str && component_loads(es[i].1, vars, cwd)
    &&& names_unique(stack_names(es, vars))
    &&& deps_resolve(stack_names(es, vars), stack_deps(es, vars))
}

/// A name that two components share, if any.
pub fn duplicate_name(names: &Vec<String>) -> (r: Option<String>)
    ensures
        r is None <==> names_unique(strings_view(names@)),
        r matches Some(n) ==> exists|a: int, b: int|
            0 <= a < b < names@.len() && names@[a]@ == n@ && names@[b]@ == n@,
{
    let ghost v = strings_view(names@);
    let mut i: usize = 0;
    while i < names.len()
        invariant
            i <= names.len(),
            v == strings_view(names@),
            forall|a: int, b: int| 0 <= a < b < v.len() && a < i ==> v[a] != v[b],
        decreases names.len() - i,
    {
        let mut j: usize = i + 1;
        while j < names.len()
            invariant
                i < j <= names.len(),
                v == strings_view(names@),
                forall|a: int, b: int| 0 <= a < b < v.len() && a < i ==> v[a] != v[b],
                forall|b: int| i < b < j ==> v[i as int] != v[b],
            decreases names.len() - j,
        {
            if str_eq(names[i].as_str(), names[j].as_str()) {
                assert(v[i as int] == v[j as int]);
                return Some(names[i].clone());
            }
            j = j + 1;
        }
        i = i + 1;
    }
    None
}

/// A component, by index, and one of its dependencies, by index, that names
/// no component; `None` when every dependency resolves.
pub fn unresolved_dependency(names: &Vec<String>, deps: &Vec<Vec<String>>) -> (r: Option<
    (usize, usize),
>)
    ensures
        r is None <==> deps_resolve(
            strings_view(names@),
            Seq::new(deps@.len(), |i: int| strings_view(deps@[i]@)),
        ),
        r matches Some((i, k)) ==> i < deps@.len() && k < deps@[i as int]@.len()
            && !strings_view(names@).contains(deps@[i as int]@[k as int]@),
{
    let ghost dv = Seq::new(deps@.len(), |i: int| strings_view(deps@[i]@));
    let mut i: usize = 0;
    while i < deps.len()
        invariant
            i <= deps.len(),
            dv == Seq::new(deps@.len(), |i: int| strings_view(deps@[i]@)),
            forall|a: int, k: int|
                0 <= a < i && 0 <= k < dv[a].len() ==> strings_view(names@).contains(
                    #[trigger] dv[a][k],
                ),
        decreases deps.len() - i,
    {
        let mut k: usize = 0;
        while k < deps[i].len()
            invariant
                i < deps.len(),
                k <= deps@[i as int]@.len(),
                dv == Seq::new(deps@.len(), |i: int| strings_view(deps@[i]@)),
                forall|a: int, k: int|
                    0 <= a < i && 0 <= k < dv[a].len() ==> strings_view(names@).contains(
                        #[trigger] dv[a][k],
                    ),
                forall|c: int| 0 <= c < k ==> strings_view(names@).contains(#[trigger] dv[i as int][c]),
            decreases deps@[i as int]@.len() - k,
        {
            let found = crate::context::contains_string(names, deps[i][k].as_str());
            assert(dv[i as int][k as int] == deps@[i as int]@[k as int]@);
            if !found {
                return Some((i, k));
            }
            k = k + 1;
        }
        i = i + 1;
    }
    None
}

/// Loads the components of a product manifest, in manifest order. Volume
/// host paths are resolved against `cwd`.
pub fn load_stack(config: &Config, stack: &YamlValue, variables: &Variables, cwd: &str) -> (r:
    Result<Vec<ComponentBuildSpec>, SpecError>)
    ensures
        r is Ok <==> stack_loads(*stack, *variables, cwd@),
        r matches Ok(specs) ==> specs@.len() == stack_entries(*stack).len() && forall|i: int|
            0 <= i < specs@.len() ==> component_matches(
                #[trigger] specs@[i],
                *config,
                stack_entries(*stack)[i].1,
                stack_entries(*stack)[i].0->Str_0@,
                *variables,
                cwd@,
            ),
{
    let ghost es = stack_entries(*stack);
    let mut specs: Vec<ComponentBuildSpec> = Vec::new();
    let mut names: Vec<String> = Vec::new();
    let mut deps: Vec<Vec<String>> = Vec::new();
    match stack {
        YamlValue::Mapping(entries) => {
            let mut i: usize = 0;
            while i < entries.len()
                invariant
                    i <= entries.len(),
                    es == entries@,
                    es == stack_entries(*stack),
                    specs@.len() == i,
                    names@.len() == i,
                    deps@.len() == i,
                    forall|j: int|
                        0 <= j < i ==> (#[trigger] es[j]).0 is Str && component_loads(
                            es[j].1,
                            *variables,
                            cwd@,
                        ),
                    forall|j: int|
                        0 <= j < i ==> component_matches(
                            #[trigger] specs@[j],
                            *config,
                            es[j].1,
                            es[j].0->Str_0@,
                            *variables,
                            cwd@,
                        ),
                    forall|j: int| 0 <= j < i ==> (#[trigger] names@[j])@ == entry_name(es[j], *variables),
                    forall|j: int|
                        0 <= j < i ==> strings_view((#[trigger] deps@[j])@) == entry_deps(
                            es[j],
                            *variables,
                        ),
                decreases entries.len() - i,
            {
                let key = match &entries[i].0 {
                    YamlValue::Str(k) => k,
                    _ => {
                        assert(!((es[i as int]).0 is Str && component_loads(
                            es[i as int].1,
                            *variables,
                            cwd@,
                        )));
                        return Err(SpecError::WrongType(copy_str("component name")));
                    },
                };
                let spec = match ComponentBuildSpec::from_yaml(
                    config,
                    &entries[i].1,
                    key.as_str(),
                    variables,
                    cwd,
                ) {
                    Ok(s) => s,
                    Err(e) => {
                        assert(!((es[i as int]).0 is Str && component_loads(
                            es[i as int].1,
                            *variables,
                            cwd@,
                        )));
                        return Err(e);
                    },
                };
                names.push(spec.component_name.clone());
                deps.push(clone_strings(&spec.depends_on));
                specs.push(spec);
                i = i + 1;
            }
        },
        _ => {},
    }
    assert(strings_view(names@) =~= stack_names(es, *variables));
    assert(Seq::new(deps@.len(), |i: int| strings_view(deps@[i]@)) =~= stack_deps(es, *variables));
    match duplicate_name(&names) {
        Some(n) => return Err(SpecError::DuplicateComponent(n)),
        None => {},
    }
    match unresolved_dependency(&names, &deps) {
        Some((c, d)) => {
            return Err(SpecError::UnknownDependency(names[c].clone(), deps[c][d].clone()));
        },
        None => {},
    }
    Ok(specs)
}

/// A kind that builds an image, with no port of its own and no container
/// file to discover one from, is given the next free port.
pub open spec fn gets_auto_port(s: ComponentBuildSpec) -> bool {
    !(s.build_type is PureDockerImage) && s.port is None && s.build_type.dockerfile_spec() is None
}

/// How many of the first `i` specs are given a port automatically.
pub open spec fn auto_ports_before(specs: Seq<ComponentBuildSpec>, i: int) -> nat
    decreases i,
{
    if i <= 0 {
        0
    } else {
        auto_ports_before(specs, i - 1) + if gets_auto_port(specs[i - 1]) {
            1nat
        } else {
            0nat
        }
    }
}

/// The first automatically assigned port.
pub const FIRST_AUTO_PORT: u64 = 8000;

/// The service table: one entry, in image order, for each image with both ports.
pub open spec fn services_of(images: Seq<DockerImage>) -> Seq<ServiceSpec>
    decreases images.len(),
{
    if images.len() == 0 {
        Seq::empty()
    } else {
        let rest = services_of(images.drop_last());
        let img = images.last();
        if img.port is Some && img.target_port is Some {
            rest.push(
                ServiceSpec {
                    name: img.spec.component_name,
                    port: img.port->0,
                    target_port: img.target_port->0,
                    mount_point: img.spec.mount_point,
                },
            )
        } else {
            rest
        }
    }
}

/// The name of a component's manifest group: `<priority>_<component>`.
pub open spec fn group_name(s: ComponentBuildSpec) -> Seq<char> {
    decimal(s.priority as nat) + "_"@ + s.component_name@
}

/// The manifest groups, by name, of the specs that have a cluster directory.
pub open spec fn group_names(specs: Seq<ComponentBuildSpec>) -> Seq<Seq<char>>
    decreases specs.len(),
{
    if specs.len() == 0 {
        Seq::empty()
    } else if specs.last().k8s is Some {
        group_names(specs.drop_last()).push(group_name(specs.last()))
    } else {
        group_names(specs.drop_last())
    }
}

pub struct ContainerReactor {
    pub config: Config,
    pub product_directory: String,
    pub images: Vec<DockerImage>,
    pub toolchain: ToolchainContext,
    pub services: Vec<ServiceSpec>,
    pub cluster_manifests: K8ClusterManifests,
    pub infrastructure_repo: InfrastructureRepo,
}

impl ComponentBuildSpec {
    pub fn duplicate(&self) -> (r: ComponentBuildSpec)
        ensures
            same_build_type(r.build_type, self.build_type),
            r.component_name == self.component_name,
            r.product_name == self.product_name,
            r.priority == self.priority,
            r.k8s == self.k8s,
            r.config == self.config,
            r.port == self.port,
            r.target_port == self.target_port,
            r.mount_point == self.mount_point,
            r.tagged_image_name == self.tagged_image_name,
            r.depends_on@ == self.depends_on@,
            r.services is Some <==> self.services is Some,
            r.services matches Some(s) ==> s@ == self.services->0@,
    {
        ComponentBuildSpec {
            build_type: crate::component::duplicate_build_type(&self.build_type),
            product_name: self.product_name.clone(),
            component_name: self.component_name.clone(),
            color: self.color.clone(),
            depends_on: clone_strings(&self.depends_on),
            build: clone_opt(&self.build),
            watch_path: clone_opt(&self.watch_path),
            mount_point: clone_opt(&self.mount_point),
            subdomain: clone_opt(&self.subdomain),
            artefacts: match &self.artefacts {
                Some(a) => Some(clone_pairs(a)),
                None => None,
            },
            artefact_output_dir: self.artefact_output_dir.clone(),
            docker_extra_run_args: clone_strings(&self.docker_extra_run_args),
            env: match &self.env {
                Some(a) => Some(clone_pairs(a)),
                None => None,
            },
            volumes: match &self.volumes {
                Some(a) => Some(clone_pairs(a)),
                None => None,
            },
            port: self.port,
            target_port: self.target_port,
            k8s: clone_opt(&self.k8s),
            priority: self.priority,
            config: self.config.duplicate(),
            services: match &self.services {
                Some(s) => Some(duplicate_services(s)),
                None => None,
            },
            tagged_image_name: clone_opt(&self.tagged_image_name),
        }
    }
}

/// Whether spec `s` makes an image, with container file text `d`: the
/// container file is there and its first `EXPOSE` is a port, and a prebuilt
/// image's name has at most one colon.
pub open spec fn image_loads(s: ComponentBuildSpec, d: Option<String>) -> bool {
    &&& s.build_type.dockerfile_spec() is Some ==> (d is Some && discovered_port(d->0@) is Some)
    &&& s.build_type is PureDockerImage ==> crate::image::split_image(
        s.build_type->image_name_with_tag@,
    ) is Some
}

/// The image of spec `s` after the load phase, with container file text `d`.
pub open spec fn image_loaded(
    img: DockerImage,
    s: ComponentBuildSpec,
    d: Option<String>,
    tag: Seq<char>,
    auto_port: nat,
) -> bool {
    let found = if s.build_type.dockerfile_spec() is Some {
        discovered_port(d->0@)->0
    } else {
        None
    };
    &&& img.spec.component_name == s.component_name
    &&& img.spec.mount_point == s.mount_point
    &&& img.spec.priority == s.priority
    &&& img.spec.k8s == s.k8s
    &&& same_build_type(img.spec.build_type, s.build_type)
    &&& !(s.build_type is PureDockerImage) ==> (img.image_name@ == s.product_name@ + "-"@
        + s.component_name@ && (img.tag matches Some(t) && t@ == tag))
    &&& img.port == if gets_auto_port(s) {
        Some((FIRST_AUTO_PORT + auto_port) as u16)
    } else if s.port is Some {
        s.port
    } else {
        found
    }
    &&& img.target_port == if s.target_port is Some {
        s.target_port
    } else {
        found
    }
    &&& img.toolchain is Some
    &&& img.network_name is Some
}

impl ContainerReactor {
    /// Sets up the reactor from loaded specs. `dockerfiles[i]` is the text of
    /// spec `i`'s container file, if it has one; `manifest_listings[i]` lists
    /// spec `i`'s cluster-manifest directory, if it has one. Every image but
    /// a prebuilt one is tagged `tag`; a component without a port of its own
    /// or from its container file is given the next port from 8000 on.
    pub fn from_specs(
        config: Config,
        toolchain: ToolchainContext,
        specs: Vec<ComponentBuildSpec>,
        dockerfiles: &Vec<Option<String>>,
        manifest_listings: &Vec<Vec<ManifestFile>>,
        tag: &str,
    ) -> (r: Result<ContainerReactor, ReactorError>)
        requires
            dockerfiles@.len() == specs@.len(),
            manifest_listings@.len() == specs@.len(),
        ensures
            r is Ok <==> (forall|i: int|
                0 <= i < specs@.len() ==> image_loads(#[trigger] specs@[i], dockerfiles@[i]))
                && FIRST_AUTO_PORT + auto_ports_before(specs@, specs@.len() as int) <= 65536,
            r matches Ok(rc) ==> {
                &&& rc.images@.len() == specs@.len()
                &&& forall|i: int|
                    0 <= i < specs@.len() ==> image_loaded(
                        #[trigger] rc.images@[i],
                        specs@[i],
                        dockerfiles@[i],
                        tag@,
                        auto_ports_before(specs@, i),
                    )
                &&& rc.services@ == services_of(rc.images@)
                &&& forall|i: int|
                    0 <= i < rc.images@.len() ==> ((#[trigger] rc.images@[i]).spec.services matches Some(
                        s,
                    ) && s@ == rc.services@)
                &&& rc.config == config
                &&& rc.cluster_manifests.output_directory@ == "./target/k8s"@
                &&& rc.cluster_manifests.components@.len() == group_names(specs@).len()
                &&& forall|k: int|
                    0 <= k < rc.cluster_manifests.components@.len()
                        ==> (#[trigger] rc.cluster_manifests.components@[k]).name@ == group_names(
                        specs@,
                    )[k]
            },
            r matches Err(ReactorError::PortsExhausted) ==> FIRST_AUTO_PORT + auto_ports_before(
                specs@,
                specs@.len() as int,
            ) > 65536,
    {
        let ghost orig = specs@;
        let mut rest = specs;
        let mut images: Vec<DockerImage> = Vec::new();
        let mut next_port: u64 = FIRST_AUTO_PORT;
        let n = rest.len();
        let mut i: usize = 0;
        while i < n
            invariant
                n == orig.len(),
                orig == specs@,
                i <= n,
                rest@ == orig.subrange(i as int, n as int),
                dockerfiles@.len() == n,
                images@.len() == i,
                next_port == FIRST_AUTO_PORT + auto_ports_before(orig, i as int),
                next_port <= 65536,
                forall|j: int| 0 <= j < i ==> image_loads(#[trigger] orig[j], dockerfiles@[j]),
                forall|j: int|
                    0 <= j < i ==> image_loaded(
                        #[trigger] images@[j],
                        orig[j],
                        dockerfiles@[j],
                        tag@,
                        auto_ports_before(orig, j),
                    ),
            decreases n - i,
        {
            let spec = rest.remove(0);
            assert(spec == orig[i as int]);
            let d = match &dockerfiles[i] {
                Some(t) => Some(t.as_str()),
                None => None,
            };
            let auto = spec.build_type.dockerfile().is_none() && spec.port.is_none()
                && !spec.build_type.is_prebuilt();
            let prebuilt = spec.build_type.is_prebuilt();
            let mut image = match DockerImage::from_docker_spec(spec, d) {
                Ok(img) => img,
                Err(e) => {
                    assert(!image_loads(orig[i as int], dockerfiles@[i as int]));
                    return Err(ReactorError::Image(e));
                },
            };
            assert(image_loads(orig[i as int], dockerfiles@[i as int]));
            if !prebuilt {
                image.set_tag(copy_str(tag));
            }
            if auto {
                assert(gets_auto_port(orig[i as int]));
                assert(auto_ports_before(orig, i + 1) == auto_ports_before(orig, i as int) + 1);
                if next_port > 65535 {
                    proof {
                        lemma_auto_ports_monotone(orig, i as int + 1, n as int);
                        assert(FIRST_AUTO_PORT + auto_ports_before(orig, n as int) > 65536);
                        assert(orig.len() == n);
                    }
                    return Err(ReactorError::PortsExhausted);
                }
                image.set_port(next_port as u16);
                next_port = next_port + 1;
            }
            image.set_toolchain(toolchain.duplicate());
            image.set_network_name(copy_str(config.network_name()));
            let tagged = match &image.tag {
                Some(_) => image.tagged_image_name(),
                None => image.image_name.clone(),
            };
            image.spec.set_tagged_image_name(tagged);
            images.push(image);
            i = i + 1;
        }
        let mut services: Vec<ServiceSpec> = Vec::new();
        let mut k: usize = 0;
        while k < images.len()
            invariant
                k <= images.len(),
                services@ == services_of(images@.subrange(0, k as int)),
            decreases images.len() - k,
        {
            let ghost p = images@.subrange(0, k + 1);
            assert(p.drop_last() =~= images@.subrange(0, k as int));
            let img = &images[k];
            match (img.port, img.target_port) {
                (Some(port), Some(target_port)) => {
                    services.push(
                        ServiceSpec {
                            name: img.spec.component_name.clone(),
                            port,
                            target_port,
                            mount_point: clone_opt(&img.spec.mount_point),
                        },
                    );
                },
                _ => {},
            }
            k = k + 1;
        }
        assert(images@.subrange(0, images@.len() as int) =~= images@);
        let ghost loaded = images@;
        let mut finished: Vec<DockerImage> = Vec::new();
        let mut m: usize = 0;
        while m < n
            invariant
                m <= n,
                loaded.len() == n,
                images@ == loaded.subrange(m as int, n as int),
                finished@.len() == m,
                services@ == services_of(loaded),
                forall|j: int|
                    0 <= j < m ==> (#[trigger] finished@[j]) == (DockerImage {
                        spec: finished@[j].spec,
                        ..loaded[j]
                    }),
                forall|j: int|
                    0 <= j < m ==> (#[trigger] finished@[j]).spec == (ComponentBuildSpec {
                        services: finished@[j].spec.services,
                        ..loaded[j].spec
                    }),
                forall|j: int|
                    0 <= j < m ==> ((#[trigger] finished@[j]).spec.services matches Some(s) && s@
                        == services@),
            decreases n - m,
        {
            let mut image = images.remove(0);
            image.spec.set_services(duplicate_services(&services));
            finished.push(image);
            m = m + 1;
        }
        proof {
            lemma_services_of_same(loaded, finished@);
        }
        let mut cluster_manifests = K8ClusterManifests::new("./target/k8s");
        assert forall|j: int| 0 <= j < n implies (#[trigger] finished@[j]).spec.component_name
            == orig[j].component_name && finished@[j].spec.priority == orig[j].priority
            && finished@[j].spec.k8s == orig[j].k8s by {
            assert(image_loaded(
                loaded[j],
                orig[j],
                dockerfiles@[j],
                tag@,
                auto_ports_before(orig, j),
            ));
        }
        let mut c: usize = 0;
        while c < finished.len()
            invariant
                c <= finished.len(),
                finished@.len() == n,
                n == orig.len(),
                manifest_listings@.len() == finished@.len(),
                forall|j: int|
                    0 <= j < n ==> (#[trigger] finished@[j]).spec.component_name
                        == orig[j].component_name && finished@[j].spec.priority == orig[j].priority
                        && finished@[j].spec.k8s == orig[j].k8s,
                cluster_manifests.output_directory@ == "./target/k8s"@,
                cluster_manifests.components@.len() == group_names(orig.subrange(0, c as int)).len(),
                forall|k: int|
                    0 <= k < cluster_manifests.components@.len()
                        ==> (#[trigger] cluster_manifests.components@[k]).name@ == group_names(
                        orig.subrange(0, c as int),
                    )[k],
            decreases finished.len() - c,
        {
            let ghost p = orig.subrange(0, c + 1);
            assert(p.drop_last() =~= orig.subrange(0, c as int));
            assert(p.last() == orig[c as int]);
            let s = &finished[c].spec;
            match &s.k8s {
                Some(dir) => {
                    let mut name = decimal_string(s.priority);
                    name.append("_");
                    name.append(s.component_name.as_str());
                    cluster_manifests.add_component(
                        name.as_str(),
                        s.duplicate(),
                        dir.as_str(),
                        &manifest_listings[c],
                    );
                },
                None => {},
            }
            c = c + 1;
        }
        assert(orig.subrange(0, n as int) =~= orig);
        let infrastructure_repo = InfrastructureRepo::new(&config);
        let product_directory = copy_str(config.product_path());
        Ok(
            ContainerReactor {
                config,
                product_directory,
                images: finished,
                toolchain,
                services,
                cluster_manifests,
                infrastructure_repo,
            },
        )
    }
}

proof fn lemma_auto_ports_monotone(specs: Seq<ComponentBuildSpec>, i: int, j: int)
    requires
        0 <= i <= j,
    ensures
        auto_ports_before(specs, i) <= auto_ports_before(specs, j),
    decreases j - i,
{
    if i < j {
        lemma_auto_ports_monotone(specs, i, j - 1);
    }
}

/// The service table depends only on the images' ports and component names.
proof fn lemma_services_of_same(a: Seq<DockerImage>, b: Seq<DockerImage>)
    requires
        a.len() == b.len(),
        forall|j: int|
            0 <= j < a.len() ==> (#[trigger] b[j]).port == a[j].port && b[j].target_port
                == a[j].target_port && b[j].spec.component_name == a[j].spec.component_name
                && b[j].spec.mount_point == a[j].spec.mount_point,
    ensures
        services_of(a) == services_of(b),
    decreases a.len(),
{
    if a.len() > 0 {
        lemma_services_of_same(a.drop_last(), b.drop_last());
    }
}

} // verus!
