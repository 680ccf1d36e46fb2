//! Container images: identity, ports discovered from container files, and
//! the container engine's command lines for building, pushing and running.
use vstd::prelude::*;
use crate::artefact::{script_template_name, RenderError, TemplateSet};
use crate::render::is_plain_text;
use crate::variables::{pairs_lookup, pairs_view};
use crate::build_type::BuildType;
use crate::component::ComponentBuildSpec;
use crate::context::BuildContext;
use crate::fields::strings_view;
use crate::text::{chars_of, concat2, concat3, copy_str, has_prefix, has_prefix_exec, is_digit, parse_u16, parse_u16_spec, string_of, trim_exec, trim_spec};
use crate::toolchain::ToolchainContext;
use crate::variables::opt_view;

verus! {

/// The lines of a text, split at each `\n`.
pub open spec fn split_lines(s: Seq<char>) -> Seq<Seq<char>>
    decreases s.len(),
{
    if s.len() == 0 {
        seq![Seq::empty()]
    } else {
        let rest = split_lines(s.drop_last());
        if s.last() == '\n' {
            rest.push(Seq::empty())
        } else {
            rest.update(rest.len() - 1, rest.last().push(s.last()))
        }
    }
}

pub open spec fn is_expose(line: Seq<char>) -> bool {
    has_prefix(trim_spec(line), "EXPOSE"@)
}

/// What follows `EXPOSE` on a line, trimmed.
pub open spec fn expose_arg(line: Seq<char>) -> Seq<char> {
    let t = trim_spec(line);
    trim_spec(t.subrange(6, t.len() as int))
}

/// The arguments of the `EXPOSE` lines, in order.
pub open spec fn expose_args(lines: Seq<Seq<char>>) -> Seq<Seq<char>>
    decreases lines.len(),
{
    if lines.len() == 0 {
        Seq::empty()
    } else if is_expose(lines.last()) {
        expose_args(lines.drop_last()).push(expose_arg(lines.last()))
    } else {
        expose_args(lines.drop_last())
    }
}

/// The digits at the start of a string.
pub open spec fn digits_prefix(s: Seq<char>) -> Seq<char>
    decreases s.len(),
{
    if s.len() > 0 && is_digit(s[0]) {
        seq![s[0]] + digits_prefix(s.drop_first())
    } else {
        Seq::empty()
    }
}

/// The port that a container file exposes: the number at the start of the
/// first `EXPOSE` line's argument. `Some(None)` without such a line, `None`
/// when that line starts with no number of 16 bits.
pub open spec fn discovered_port(contents: Seq<char>) -> Option<Option<u16>> {
    let args = expose_args(split_lines(contents));
    if args.len() == 0 {
        Some(None)
    } else {
        match parse_u16_spec(digits_prefix(args[0])) {
            Some(p) => Some(Some(p)),
            None => None,
        }
    }
}

pub open spec fn colon_count(s: Seq<char>) -> nat
    decreases s.len(),
{
    if s.len() == 0 {
        0
    } else {
        colon_count(s.drop_last()) + if s.last() == ':' {
            1nat
        } else {
            0nat
        }
    }
}

/// Name and tag of an image written `name` or `name:tag`.
pub open spec fn split_image(s: Seq<char>) -> Option<(Seq<char>, Option<Seq<char>>)> {
    if colon_count(s) > 1 {
        None
    } else if colon_count(s) == 0 {
        Some((s, None))
    } else {
        let i = choose|i: int| 0 <= i < s.len() && s[i] == ':';
        Some((s.subrange(0, i), Some(s.subrange(i + 1, s.len() as int))))
    }
}

pub open spec fn prefixed_names(product: Seq<char>, deps: Seq<Seq<char>>) -> Seq<Seq<char>> {
    Seq::new(deps.len(), |i: int| product + "-"@ + deps[i])
}

proof fn lemma_split_lines_nonempty(s: Seq<char>)
    ensures
        split_lines(s).len() >= 1,
    decreases s.len(),
{
    if s.len() > 0 {
        lemma_split_lines_nonempty(s.drop_last());
    }
}

/// Splits a text into its lines.
pub fn lines_of(s: &str) -> (r: Vec<Vec<char>>)
    ensures
        r@.map_values(|l: Vec<char>| l@) == split_lines(s@),
{
    let cs = chars_of(s);
    let mut lines: Vec<Vec<char>> = Vec::new();
    let mut cur: Vec<char> = Vec::new();
    let mut i: usize = 0;
    while i < cs.len()
        invariant
            i <= cs.len(),
            cs@ == s@,
            lines@.map_values(|l: Vec<char>| l@).push(cur@) == split_lines(
                s@.subrange(0, i as int),
            ),
        decreases cs.len() - i,
    {
        let ghost p = s@.subrange(0, i + 1);
        assert(p.drop_last() =~= s@.subrange(0, i as int));
        let ghost before = lines@.map_values(|l: Vec<char>| l@);
        proof {
            lemma_split_lines_nonempty(s@.subrange(0, i as int));
        }
        if cs[i] == '\n' {
            lines.push(cur);
            cur = Vec::new();
            assert(lines@.map_values(|l: Vec<char>| l@) =~= before.push(
                lines@[lines@.len() - 1]@,
            ));
            assert(lines@.map_values(|l: Vec<char>| l@).push(cur@) =~= split_lines(p));
        } else {
            cur.push(cs[i]);
            assert(lines@.map_values(|l: Vec<char>| l@) =~= before);
            assert(lines@.map_values(|l: Vec<char>| l@).push(cur@) =~= split_lines(p));
        }
        i = i + 1;
    }
    assert(s@.subrange(0, cs@.len() as int) =~= s@);
    let ghost before = lines@.map_values(|l: Vec<char>| l@);
    lines.push(cur);
    assert(lines@.map_values(|l: Vec<char>| l@) =~= before.push(lines@[lines@.len() - 1]@));
    lines
}

fn subrange_chars(s: &Vec<char>, from: usize) -> (r: Vec<char>)
    requires
        from <= s@.len(),
    ensures
        r@ == s@.subrange(from as int, s@.len() as int),
{
    let mut r: Vec<char> = Vec::new();
    let mut i: usize = from;
    while i < s.len()
        invariant
            from <= i <= s.len(),
            r@ == s@.subrange(from as int, i as int),
        decreases s.len() - i,
    {
        r.push(s[i]);
        i = i + 1;
    }
    r
}

/// The arguments of a container file's `EXPOSE` lines.
pub fn expose_args_of(contents: &str) -> (r: Vec<String>)
    ensures
        strings_view(r@) == expose_args(split_lines(contents@)),
{
    let lines = lines_of(contents);
    let ghost lv = lines@.map_values(|l: Vec<char>| l@);
    let expose: Vec<char> = chars_of("EXPOSE");
    proof {
        reveal_strlit("EXPOSE");
    }
    let mut r: Vec<String> = Vec::new();
    let mut i: usize = 0;
    while i < lines.len()
        invariant
            i <= lines.len(),
            lv == lines@.map_values(|l: Vec<char>| l@),
            expose@ == "EXPOSE"@,
            "EXPOSE"@.len() == 6,
            strings_view(r@) == expose_args(lv.subrange(0, i as int)),
        decreases lines.len() - i,
    {
        let ghost p = lv.subrange(0, i + 1);
        assert(p.drop_last() =~= lv.subrange(0, i as int));
        assert(p.last() == lines@[i as int]@);
        let t = trim_exec(&lines[i]);
        if has_prefix_exec(&t, &expose) {
            let rest = subrange_chars(&t, 6);
            let arg = trim_exec(&rest);
            let ghost before = r@;
            r.push(string_of(&arg));
            assert(strings_view(r@) =~= strings_view(before).push(arg@));
        }
        i = i + 1;
    }
    assert(lv.subrange(0, lines@.len() as int) =~= lv);
    r
}

proof fn lemma_digits_prefix(s: Seq<char>, i: int)
    requires
        0 <= i <= s.len(),
        forall|j: int| 0 <= j < i ==> is_digit(#[trigger] s[j]),
        i == s.len() || !is_digit(s[i]),
    ensures
        digits_prefix(s) == s.subrange(0, i),
    decreases i,
{
    if i == 0 {
        assert(s.subrange(0, 0) =~= Seq::<char>::empty());
    } else {
        lemma_digits_prefix(s.drop_first(), i - 1);
        assert(seq![s[0]] + s.drop_first().subrange(0, i - 1) =~= s.subrange(0, i));
    }
}

/// The port at the start of an `EXPOSE` argument.
pub fn leading_port(arg: &str) -> (r: Option<u16>)
    ensures
        r == parse_u16_spec(digits_prefix(arg@)),
{
    let cs = chars_of(arg);
    let mut i: usize = 0;
    while i < cs.len() && '0' <= cs[i] && cs[i] <= '9'
        invariant
            i <= cs.len(),
            cs@ == arg@,
            forall|j: int| 0 <= j < i ==> is_digit(#[trigger] arg@[j]),
        decreases cs.len() - i,
    {
        i = i + 1;
    }
    proof {
        lemma_digits_prefix(arg@, i as int);
    }
    let mut d: Vec<char> = Vec::new();
    let mut k: usize = 0;
    while k < i
        invariant
            k <= i <= cs.len(),
            d@ == cs@.subrange(0, k as int),
        decreases i - k,
    {
        d.push(cs[k]);
        k = k + 1;
    }
    let ds = string_of(&d);
    parse_u16(ds.as_str())
}

pub fn discover_port(contents: &str) -> (r: Option<Option<u16>>)
    ensures
        r == discovered_port(contents@),
{
    let args = expose_args_of(contents);
    if args.len() == 0 {
        Some(None)
    } else {
        assert(strings_view(args@)[0] == args@[0]@);
        match leading_port(args[0].as_str()) {
            Some(p) => Some(Some(p)),
            None => None,
        }
    }
}

/// Splits `name:tag`; `None` with more than one colon.
pub fn split_image_exec(s: &str) -> (r: Option<(String, Option<String>)>)
    ensures
        match r {
            Some((n, t)) => split_image(s@) == Some((n@, opt_view(t))),
            None => split_image(s@) is None,
        },
{
    let cs = chars_of(s);
    let mut count: usize = 0;
    let mut first: usize = 0;
    let mut i: usize = 0;
    while i < cs.len()
        invariant
            i <= cs.len(),
            cs@ == s@,
            count as nat == colon_count(s@.subrange(0, i as int)),
            count <= i,
            count > 0 ==> first < i && s@[first as int] == ':',
            count > 0 ==> forall|j: int| 0 <= j < first ==> s@[j] != ':',
            count == 0 ==> forall|j: int| 0 <= j < i ==> s@[j] != ':',
        decreases cs.len() - i,
    {
        let ghost p = s@.subrange(0, i + 1);
        assert(p.drop_last() =~= s@.subrange(0, i as int));
        if cs[i] == ':' {
            if count == 0 {
                first = i;
            }
            count = count + 1;
        }
        i = i + 1;
    }
    assert(s@.subrange(0, cs@.len() as int) =~= s@);
    if count > 1 {
        None
    } else if count == 0 {
        Some((copy_str(s), None))
    } else {
        let ghost c = choose|j: int| 0 <= j < s@.len() && s@[j] == ':';
        proof {
            lemma_single_colon(s@, first as int, c);
        }
        let mut name: Vec<char> = Vec::new();
        let mut k: usize = 0;
        while k < first
            invariant
                k <= first < cs.len(),
                name@ == cs@.subrange(0, k as int),
            decreases first - k,
        {
            name.push(cs[k]);
            k = k + 1;
        }
        let tag = subrange_chars(&cs, first + 1);
        Some((string_of(&name), Some(string_of(&tag))))
    }
}

proof fn lemma_colon_count_split(s: Seq<char>, k: int)
    requires
        0 <= k <= s.len(),
    ensures
        colon_count(s) == colon_count(s.subrange(0, k)) + colon_count(s.subrange(k, s.len() as int)),
    decreases s.len() - k,
{
    if k < s.len() {
        lemma_colon_count_split(s.drop_last(), k);
        assert(s.drop_last().subrange(0, k) =~= s.subrange(0, k));
        assert(s.subrange(k, s.len() as int).drop_last() =~= s.drop_last().subrange(
            k,
            s.len() - 1,
        ));
    } else {
        assert(s.subrange(0, s.len() as int) =~= s);
        assert(s.subrange(k, s.len() as int).len() == 0);
    }
}

proof fn lemma_colon_count_pos(s: Seq<char>, i: int)
    requires
        0 <= i < s.len(),
        s[i] == ':',
    ensures
        colon_count(s) >= 1 + colon_count(s.subrange(0, i)),
{
    lemma_colon_count_split(s, i);
    let t = s.subrange(i, s.len() as int);
    lemma_colon_count_split(t, 1);
    assert(t.subrange(0, 1).drop_last() =~= Seq::<char>::empty());
}

proof fn lemma_single_colon(s: Seq<char>, first: int, c: int)
    requires
        colon_count(s) == 1,
        0 <= first < s.len(),
        s[first] == ':',
        0 <= c < s.len(),
        s[c] == ':',
        forall|j: int| 0 <= j < first ==> s[j] != ':',
    ensures
        c == first,
{
    if c > first {
        lemma_colon_count_pos(s, c);
        lemma_colon_count_pos(s.subrange(0, c), first);
        assert(s.subrange(0, c).subrange(0, first) =~= s.subrange(0, first));
    } else if c < first {
    }
}

/// Why an image could not be made from a spec.
pub enum ImageError {
    /// The container file of the spec was not supplied.
    MissingDockerfile(String),
    /// The first `EXPOSE` line does not start with a port number.
    InvalidExpose(String),
    /// A prebuilt image's name has more than one colon.
    InvalidImageName(String),
}

pub struct DockerImage {
    pub image_name: String,
    pub repo: Option<String>,
    pub tag: Option<String>,
    pub depends_on: Vec<String>,
    pub context_dir: Option<String>,
    /// The arguments of the container file's `EXPOSE` lines.
    pub exposes: Vec<String>,
    pub port: Option<u16>,
    pub target_port: Option<u16>,
    pub spec: ComponentBuildSpec,
    pub toolchain: Option<ToolchainContext>,
    pub network_name: Option<String>,
}

/// The container-engine platform that a kind is built and run for: the
/// host's for a prebuilt image, the target's for any other.
pub open spec fn guard_target(bt: BuildType, toolchain: ToolchainContext) -> Seq<char> {
    if bt is PureDockerImage {
        "linux"@ + "/"@ + crate::platform::arch_docker_name(toolchain.host.arch)
    } else {
        "linux"@ + "/"@ + crate::platform::arch_docker_name(toolchain.target.arch)
    }
}

/// The environment a build runs under so that the container engine builds
/// for one platform; the values that were there before are restored after.
pub struct DockerCrossCompileGuard {
    pub target: String,
}

impl DockerCrossCompileGuard {
    pub fn new(target: &str) -> (r: DockerCrossCompileGuard)
        ensures
            r.target@ == target@,
    {
        DockerCrossCompileGuard { target: copy_str(target) }
    }

    pub fn target(&self) -> (r: &str)
        ensures
            r@ == self.target@,
    {
        self.target.as_str()
    }

    /// `CROSS_CONTAINER_OPTS` and `DOCKER_DEFAULT_PLATFORM`, with their values.
    pub fn assignments(&self) -> (r: Vec<(String, String)>)
        ensures
            r@.len() == 2,
            r@[0].0@ == "CROSS_CONTAINER_OPTS"@,
            r@[0].1@ == "--platform "@ + self.target@,
            r@[1].0@ == "DOCKER_DEFAULT_PLATFORM"@,
            r@[1].1@ == self.target@,
    {
        let mut r: Vec<(String, String)> = Vec::new();
        r.push((copy_str("CROSS_CONTAINER_OPTS"), concat2("--platform ", self.target.as_str())));
        r.push((copy_str("DOCKER_DEFAULT_PLATFORM"), self.target.clone()));
        r
    }
}

/// The image's name with its tag.
pub open spec fn tagged_name(image_name: Seq<char>, tag: Seq<char>) -> Seq<char> {
    image_name + ":"@ + tag
}

impl DockerImage {
    /// The image of a component. `dockerfile` is the text of the spec's
    /// container file, for the kinds that have one.
    pub fn from_docker_spec(spec: ComponentBuildSpec, dockerfile: Option<&str>) -> (r: Result<
        DockerImage,
        ImageError,
    >)
        ensures
            r is Ok <==> (spec.build_type.dockerfile_spec() is Some ==> (dockerfile is Some
                && discovered_port(dockerfile->0@) is Some)) && (spec.build_type is PureDockerImage
                ==> split_image(spec.build_type->image_name_with_tag@) is Some),
            r is Ok ==> {
                let img = r->Ok_0;
                let found = if spec.build_type.dockerfile_spec() is Some {
                    discovered_port(dockerfile->0@)->0
                } else {
                    None
                };
                &&& img.spec == spec
                &&& img.port == if spec.port is Some {
                    spec.port
                } else {
                    found
                }
                &&& img.target_port == if spec.target_port is Some {
                    spec.target_port
                } else {
                    found
                }
                &&& spec.build_type.dockerfile_spec() is Some ==> strings_view(img.exposes@)
                    == expose_args(split_lines(dockerfile->0@))
                &&& spec.build_type.dockerfile_spec() is None ==> img.exposes@.len() == 0
                &&& opt_view(img.context_dir) == spec.build_type.context_dir_spec()
                &&& strings_view(img.depends_on@) == prefixed_names(
                    spec.product_name@,
                    strings_view(spec.depends_on@),
                )
                &&& spec.build_type is PureDockerImage ==> split_image(
                    spec.build_type->image_name_with_tag@,
                ) == Some((img.image_name@, opt_view(img.tag)))
                &&& !(spec.build_type is PureDockerImage) ==> img.image_name@ == spec.product_name@
                    + "-"@ + spec.component_name@ && img.tag is None
                &&& img.repo is None
                &&& img.toolchain is None
                &&& img.network_name is None
            },
    {
        let (port, exposes) = match spec.build_type.dockerfile() {
            Some(_) => match dockerfile {
                None => return Err(ImageError::MissingDockerfile(spec.component_name.clone())),
                Some(text) => {
                    let exposes = expose_args_of(text);
                    match discover_port(text) {
                        Some(p) => (p, exposes),
                        None => return Err(ImageError::InvalidExpose(spec.component_name.clone())),
                    }
                },
            },
            None => (None, Vec::new()),
        };
        let port_final = if spec.port.is_some() {
            spec.port
        } else {
            port
        };
        let target_final = if spec.target_port.is_some() {
            spec.target_port
        } else {
            port
        };
        let (image_name, tag) = match &spec.build_type {
            BuildType::PureDockerImage { image_name_with_tag, .. } => match split_image_exec(
                image_name_with_tag.as_str(),
            ) {
                Some(p) => p,
                None => return Err(ImageError::InvalidImageName(image_name_with_tag.clone())),
            },
            _ => (
                concat3(spec.product_name.as_str(), "-", spec.component_name.as_str()),
                None,
            ),
        };
        let mut depends_on: Vec<String> = Vec::new();
        let mut i: usize = 0;
        while i < spec.depends_on.len()
            invariant
                i <= spec.depends_on.len(),
                strings_view(depends_on@) =~= prefixed_names(
                    spec.product_name@,
                    strings_view(spec.depends_on@),
                ).subrange(0, i as int),
            decreases spec.depends_on.len() - i,
        {
            let ghost before = depends_on@;
            let d = concat3(spec.product_name.as_str(), "-", spec.depends_on[i].as_str());
            depends_on.push(d);
            assert(strings_view(depends_on@) =~= strings_view(before).push(d@));
            i = i + 1;
        }
        let context_dir = spec.build_type.context_dir();
        Ok(DockerImage {
            image_name,
            repo: None,
            tag,
            depends_on,
            context_dir,
            exposes,
            port: port_final,
            target_port: target_final,
            spec,
            toolchain: None,
            network_name: None,
        })
    }

    pub fn depends_on(&self) -> (r: &Vec<String>)
        ensures
            r@ == self.depends_on@,
    {
        &self.depends_on
    }

    pub fn image_name(&self) -> (r: &str)
        ensures
            r@ == self.image_name@,
    {
        self.image_name.as_str()
    }

    pub fn set_network_name(&mut self, network_name: String)
        ensures
            *final(self) == (DockerImage { network_name: Some(network_name), ..*old(self) }),
    {
        self.network_name = Some(network_name);
    }

    /// The cross-compile environment under which this kind is built.
    pub fn create_cross_compile_guard(build_type: &BuildType, toolchain: &ToolchainContext) -> (r:
        DockerCrossCompileGuard)
        ensures
            r.target@ == guard_target(*build_type, *toolchain),
    {
        let target = match build_type {
            BuildType::PureDockerImage { .. } => toolchain.host.to_docker_target(),
            _ => toolchain.target.to_docker_target(),
        };
        DockerCrossCompileGuard::new(target.as_str())
    }

    pub fn port(&self) -> (r: Option<u16>)
        ensures
            r == self.port,
    {
        self.port
    }

    pub fn target_port(&self) -> (r: Option<u16>)
        ensures
            r == self.target_port,
    {
        self.target_port
    }

    pub fn set_port(&mut self, port: u16)
        ensures
            *final(self) == (DockerImage { port: Some(port), ..*old(self) }),
    {
        self.port = Some(port);
    }

    pub fn set_tag(&mut self, tag: String)
        ensures
            *final(self) == (DockerImage { tag: Some(tag), ..*old(self) }),
    {
        self.tag = Some(tag);
    }

    /// `name:tag`; an image has a tag once the reactor has given it one.
    pub fn tagged_image_name(&self) -> (r: String)
        requires
            self.tag is Some,
        ensures
            r@ == tagged_name(self.image_name@, self.tag->0@),
    {
        let tag = match &self.tag {
            Some(t) => t.as_str(),
            None => "",
        };
        concat3(self.image_name.as_str(), ":", tag)
    }

    pub fn set_toolchain(&mut self, toolchain: ToolchainContext)
        ensures
            *final(self) == (DockerImage { toolchain: Some(toolchain), ..*old(self) }),
    {
        self.toolchain = Some(toolchain);
    }

    pub fn generate_build_context(&self) -> (r: BuildContext)
        requires
            self.toolchain is Some,
            self.spec.services is Some,
        ensures
            crate::component::same_build_type(r.build_type, self.spec.build_type),
            opt_view(r.location) == self.spec.build_type.location_spec(),
            r.toolchain == self.toolchain->0,
            r.target == self.toolchain->0.target,
            r.host == self.toolchain->0.host,
            r.services@ == crate::context::context_services(
                self.spec.build_type,
                self.spec.services->0@,
            ),
            r.environment@ == self.spec.config.environment@,
            r.domain@ == self.spec.config.domain@,
            r.product_name@ == self.spec.product_name@,
            r.component@ == self.spec.component_name@,
            r.docker_registry@ == self.spec.config.docker_registry@,
            r.image_name@ == match self.spec.tagged_image_name {
                Some(n) => n@,
                None => Seq::<char>::empty(),
            },
    {
        match &self.toolchain {
            Some(t) => self.spec.generate_build_context(t),
            None => self.spec.generate_build_context(&ToolchainContext::default(
                crate::platform::Platform {
                    os: crate::platform::OperatingSystem::Linux,
                    arch: crate::platform::ArchType::X86_64,
                },
                crate::toolchain::HostTools {
                    git: String::new(),
                    docker: String::new(),
                    trunk: String::new(),
                    kubectl: None,
                    minikube: None,
                },
                crate::toolchain::CompilerTools {
                    cc: String::new(),
                    cxx: String::new(),
                    ar: String::new(),
                    ranlib: String::new(),
                    nm: String::new(),
                    strip: String::new(),
                    objdump: String::new(),
                    objcopy: String::new(),
                    ld: String::new(),
                },
            )),
        }
    }

    /// The build script to run, if the spec's is not empty: the spec's own
    /// when it gives one, else its kind's rendered template.
    pub fn build_script(&self, ctx: &BuildContext, templates: &TemplateSet) -> (r: Result<
        Option<String>,
        RenderError,
    >)
        ensures
            r matches Ok(Some(s)) ==> s@.len() > 0,
            match self.spec.build {
                Some(b) => if b@.len() > 0 {
                    r matches Ok(Some(s)) && s@ == b@
                } else {
                    r matches Ok(None)
                },
                None => match script_template_name(self.spec.build_type) {
                    None => r matches Ok(None),
                    Some(name) => match pairs_lookup(pairs_view(templates.templates@), name) {
                        None => r matches Err(RenderError::MissingTemplate(_)),
                        Some(source) => (r is Ok || r matches Err(RenderError::Template(_))) && (
                        is_plain_text(source) && r is Ok && r->Ok_0 is Some ==> r->Ok_0->0@ == source),
                    },
                },
            },
    {
        match self.spec.build_script(ctx, templates) {
            Ok(s) => if s.unicode_len() == 0 {
                Ok(None)
            } else {
                Ok(Some(s))
            },
            Err(e) => Err(e),
        }
    }

    pub fn spec(&self) -> (r: &ComponentBuildSpec)
        ensures
            *r == self.spec,
    {
        &self.spec
    }

    pub fn component_name(&self) -> (r: String)
        ensures
            r@ == self.spec.component_name@,
    {
        self.spec.component_name.clone()
    }

    /// How the image is referred to: under its repository when it has one,
    /// as written in the manifest when prebuilt, else by its tagged name.
    pub fn identifier(&self) -> (r: String)
        requires
            self.tag is Some || self.spec.build_type is PureDockerImage,
        ensures
            self.repo matches Some(repo) ==> self.tag is Some ==> r@ == repo@ + "/"@ + tagged_name(
                self.image_name@,
                self.tag->0@,
            ),
            self.repo is None && self.spec.build_type is PureDockerImage ==> r@
                == self.spec.build_type->image_name_with_tag@,
            self.repo is None && !(self.spec.build_type is PureDockerImage) ==> r@ == tagged_name(
                self.image_name@,
                self.tag->0@,
            ),
    {
        match &self.repo {
            Some(repo) => {
                if self.tag.is_some() {
                    let t = self.tagged_image_name();
                    concat3(repo.as_str(), "/", t.as_str())
                } else {
                    copy_str(repo.as_str())
                }
            },
            None => match &self.spec.build_type {
                BuildType::PureDockerImage { image_name_with_tag, .. } => image_name_with_tag.clone(),
                _ => self.tagged_image_name(),
            },
        }
    }
}

} // verus!
