//! The command lines that the reactor hands to the container engine and the
//! cluster CLI, and the reactor's views of its images.
use vstd::prelude::*;
use crate::build_type::BuildType;
use crate::cluster::K8ClusterManifests;
use crate::fields::{opt_pairs_view, strings_view};
use crate::image::{tagged_name, DockerImage};
use crate::ordering::{
    adj_view, dependency_matrix, depends_matrix, is_launch_order, launch_order, priorities,
    priority_of, well_formed,
};
use crate::reactor::ContainerReactor;
use crate::service::ServiceSpec;
use crate::sort::{lex_le, sort_strings};
use crate::text::{
    chars_of, clone_strings, concat2, concat3, copy_str, decimal, decimal_string, str_eq,
    string_of,
};
use crate::variables::{opt_view, pairs_view};

verus! {

/// How an image is run: by its tagged name, or by its name when untagged.
pub open spec fn image_ref(img: DockerImage) -> Seq<char> {
    match img.tag {
        Some(t) => tagged_name(img.image_name@, t@),
        None => img.image_name@,
    }
}

/// `flag, key<sep>value` for each entry.
pub open spec fn pair_flags(
    entries: Seq<(Seq<char>, Seq<char>)>,
    flag: Seq<char>,
    sep: Seq<char>,
) -> Seq<Seq<char>>
    decreases entries.len(),
{
    if entries.len() == 0 {
        Seq::empty()
    } else {
        pair_flags(entries.drop_last(), flag, sep) + seq![
            flag,
            entries.last().0 + sep + entries.last().1,
        ]
    }
}

pub open spec fn opt_entries(o: Option<Seq<(Seq<char>, Seq<char>)>>) -> Seq<(Seq<char>, Seq<char>)> {
    match o {
        Some(e) => e,
        None => Seq::empty(),
    }
}

/// The container engine's arguments that run a component.
pub open spec fn run_args_spec(img: DockerImage) -> Seq<Seq<char>> {
    let (command, entrypoint) = match img.spec.build_type {
        BuildType::PureDockerImage { command, entrypoint, .. } => (
            opt_view(command),
            opt_view(entrypoint),
        ),
        _ => (None, None),
    };
    seq!["run"@, "--name"@, img.spec.component_name@, "--network"@, img.network_name->0@]
        + match entrypoint {
        Some(e) => seq!["--entrypoint"@, e],
        None => Seq::empty(),
    } + if img.port is Some && img.target_port is Some {
        seq!["-p"@, decimal(img.port->0 as nat) + ":"@ + decimal(img.target_port->0 as nat)]
    } else {
        Seq::empty()
    } + pair_flags(opt_entries(opt_pairs_view(img.spec.env)), "-e"@, "="@) + pair_flags(
        opt_entries(opt_pairs_view(img.spec.volumes)),
        "-v"@,
        ":"@,
    ) + strings_view(img.spec.docker_extra_run_args@) + seq![image_ref(img)] + match command {
        Some(c) => seq![c],
        None => Seq::empty(),
    }
}

fn push_pair_flags(out: &mut Vec<String>, entries: &Option<Vec<(String, String)>>, flag: &str, sep: &str)
    ensures
        strings_view(final(out)@) == strings_view(old(out)@) + pair_flags(
            opt_entries(opt_pairs_view(*entries)),
            flag@,
            sep@,
        ),
{
    match entries {
        None => {
            assert(strings_view(out@) =~= strings_view(out@) + Seq::<Seq<char>>::empty());
        },
        Some(e) => {
            let ghost start = strings_view(out@);
            let ghost ev = pairs_view(e@);
            let mut i: usize = 0;
            while i < e.len()
                invariant
                    i <= e.len(),
                    ev == pairs_view(e@),
                    strings_view(out@) == start + pair_flags(ev.subrange(0, i as int), flag@, sep@),
                decreases e.len() - i,
            {
                let ghost before = strings_view(out@);
                out.push(copy_str(flag));
                let mut v = concat2(e[i].0.as_str(), sep);
                v.append(e[i].1.as_str());
                out.push(v);
                let ghost p = ev.subrange(0, i + 1);
                assert(p.drop_last() =~= ev.subrange(0, i as int));
                assert(strings_view(out@) =~= before + seq![flag@, e@[i as int].0@ + sep@ + e@[i as int].1@]);
                i = i + 1;
            }
            assert(ev.subrange(0, e@.len() as int) =~= ev);
        },
    }
}

fn push_all(out: &mut Vec<String>, items: &Vec<String>)
    ensures
        strings_view(final(out)@) == strings_view(old(out)@) + strings_view(items@),
{
    let ghost start = strings_view(out@);
    let mut i: usize = 0;
    while i < items.len()
        invariant
            i <= items.len(),
            strings_view(out@) =~= start + strings_view(items@).subrange(0, i as int),
        decreases items.len() - i,
    {
        let ghost before = strings_view(out@);
        out.push(items[i].clone());
        assert(strings_view(out@) =~= before.push(items@[i as int]@));
        i = i + 1;
    }
    assert(strings_view(items@).subrange(0, items@.len() as int) =~= strings_view(items@));
}

/// The index of the last `/` of a path, -1 without one.
pub open spec fn last_slash(p: Seq<char>) -> int
    decreases p.len(),
{
    if p.len() == 0 {
        -1
    } else if p.last() == '/' {
        p.len() - 1
    } else {
        last_slash(p.drop_last())
    }
}

/// Everything before the last `/` of a path; `.` without one, `/` for the root.
pub open spec fn parent_dir(p: Seq<char>) -> Seq<char> {
    let k = last_slash(p);
    if k < 0 {
        "."@
    } else if k == 0 {
        "/"@
    } else {
        p.subrange(0, k)
    }
}

/// Everything after the last `/` of a path.
pub open spec fn file_name(p: Seq<char>) -> Seq<char> {
    p.subrange(last_slash(p) + 1, p.len() as int)
}

/// Splits a container-file path into its directory and its file name.
pub fn split_path(p: &str) -> (r: (String, String))
    ensures
        r.0@ == parent_dir(p@),
        r.1@ == file_name(p@),
{
    let cs = chars_of(p);
    let mut k: usize = cs.len();
    while k > 0 && cs[k - 1] != '/'
        invariant
            k <= cs.len(),
            cs@ == p@,
            forall|j: int| k <= j < cs.len() ==> cs@[j] != '/',
        decreases k,
    {
        k = k - 1;
    }
    proof {
        lemma_last_slash_is(p@, k as int - 1);
    }
    let mut name: Vec<char> = Vec::new();
    let mut i: usize = k;
    while i < cs.len()
        invariant
            k <= i <= cs.len(),
            name@ == cs@.subrange(k as int, i as int),
        decreases cs.len() - i,
    {
        name.push(cs[i]);
        i = i + 1;
    }
    let dir = if k == 0 {
        copy_str(".")
    } else if k == 1 {
        copy_str("/")
    } else {
        let mut d: Vec<char> = Vec::new();
        let mut j: usize = 0;
        while j < k - 1
            invariant
                j <= k - 1,
                k <= cs.len(),
                d@ == cs@.subrange(0, j as int),
            decreases k - 1 - j,
        {
            d.push(cs[j]);
            j = j + 1;
        }
        string_of(&d)
    };
    (dir, string_of(&name))
}

proof fn lemma_last_slash_is(p: Seq<char>, k: int)
    requires
        -1 <= k < p.len(),
        k >= 0 ==> p[k] == '/',
        forall|j: int| k < j < p.len() ==> p[j] != '/',
    ensures
        last_slash(p) == k,
    decreases p.len(),
{
    if p.len() > 0 && k < p.len() - 1 {
        lemma_last_slash_is(p.drop_last(), k);
    }
}

impl DockerImage {
    /// The container engine's arguments that run this image's component.
    pub fn run_args(&self) -> (r: Vec<String>)
        requires
            self.network_name is Some,
        ensures
            strings_view(r@) == run_args_spec(*self),
    {
        let mut out: Vec<String> = Vec::new();
        out.push(copy_str("run"));
        out.push(copy_str("--name"));
        out.push(self.spec.component_name.clone());
        out.push(copy_str("--network"));
        let network = match &self.network_name {
            Some(n) => n.clone(),
            None => String::new(),
        };
        out.push(network);
        let ghost base = strings_view(out@);
        assert(base =~= seq![
            "run"@,
            "--name"@,
            self.spec.component_name@,
            "--network"@,
            self.network_name->0@,
        ]);
        let (command, entrypoint) = match &self.spec.build_type {
            BuildType::PureDockerImage { command, entrypoint, .. } => (
                crate::text::clone_opt(command),
                crate::text::clone_opt(entrypoint),
            ),
            _ => (None, None),
        };
        let ghost before = strings_view(out@);
        match &entrypoint {
            Some(e) => {
                out.push(copy_str("--entrypoint"));
                out.push(e.clone());
                assert(strings_view(out@) =~= before + seq!["--entrypoint"@, e@]);
            },
            None => {
                assert(strings_view(out@) =~= before + Seq::<Seq<char>>::empty());
            },
        }
        let ghost before = strings_view(out@);
        match (self.port, self.target_port) {
            (Some(p), Some(t)) => {
                out.push(copy_str("-p"));
                let mut v = decimal_string(p as u64);
                v.append(":");
                let tt = decimal_string(t as u64);
                v.append(tt.as_str());
                out.push(v);
                assert(strings_view(out@) =~= before + seq![
                    "-p"@,
                    decimal(p as nat) + ":"@ + decimal(t as nat),
                ]);
            },
            _ => {
                assert(strings_view(out@) =~= before + Seq::<Seq<char>>::empty());
            },
        }
        push_pair_flags(&mut out, &self.spec.env, "-e", "=");
        push_pair_flags(&mut out, &self.spec.volumes, "-v", ":");
        push_all(&mut out, &self.spec.docker_extra_run_args);
        let ghost before = strings_view(out@);
        let image = match &self.tag {
            Some(t) => concat3(self.image_name.as_str(), ":", t.as_str()),
            None => self.image_name.clone(),
        };
        out.push(image);
        assert(strings_view(out@) =~= before + seq![image_ref(*self)]);
        let ghost before = strings_view(out@);
        match &command {
            Some(c) => {
                out.push(c.clone());
                assert(strings_view(out@) =~= before + seq![c@]);
            },
            None => {
                assert(strings_view(out@) =~= before + Seq::<Seq<char>>::empty());
            },
        }
        out
    }

    /// `kill <component>`.
    pub fn kill_args(&self) -> (r: Vec<String>)
        ensures
            strings_view(r@) == seq!["kill"@, self.spec.component_name@],
    {
        let mut out: Vec<String> = Vec::new();
        out.push(copy_str("kill"));
        out.push(self.spec.component_name.clone());
        assert(strings_view(out@) =~= seq!["kill"@, self.spec.component_name@]);
        out
    }

    /// `rm <component>`: what cleaning removes.
    pub fn clean_args(&self) -> (r: Vec<String>)
        ensures
            strings_view(r@) == seq!["rm"@, self.spec.component_name@],
    {
        let mut out: Vec<String> = Vec::new();
        out.push(copy_str("rm"));
        out.push(self.spec.component_name.clone());
        assert(strings_view(out@) =~= seq!["rm"@, self.spec.component_name@]);
        out
    }

    /// Where the engine builds and with what arguments: the container file's
    /// directory, and `build -t <tag> -f <file> <context>`; `None` for a kind
    /// without a container file.
    pub fn build_args(&self) -> (r: Option<(String, Vec<String>)>)
        requires
            self.tag is Some,
        ensures
            self.spec.build_type.dockerfile_spec() is None <==> r is None,
            r matches Some((dir, args)) ==> {
                let d = self.spec.build_type.dockerfile_spec()->0;
                &&& dir@ == parent_dir(d)
                &&& strings_view(args@) == seq![
                    "build"@,
                    "-t"@,
                    tagged_name(self.image_name@, self.tag->0@),
                    "-f"@,
                    file_name(d),
                    match self.context_dir {
                        Some(c) => c@,
                        None => "."@,
                    },
                ]
            },
    {
        let dockerfile = match self.spec.build_type.dockerfile() {
            Some(d) => d,
            None => return None,
        };
        let (dir, name) = split_path(dockerfile.as_str());
        let mut out: Vec<String> = Vec::new();
        out.push(copy_str("build"));
        out.push(copy_str("-t"));
        out.push(self.tagged_image_name());
        out.push(copy_str("-f"));
        out.push(name);
        out.push(
            match &self.context_dir {
                Some(c) => c.clone(),
                None => copy_str("."),
            },
        );
        assert(strings_view(out@) =~= seq![
            "build"@,
            "-t"@,
            tagged_name(self.image_name@, self.tag->0@),
            "-f"@,
            file_name(dockerfile@),
            match self.context_dir {
                Some(c) => c@,
                None => "."@,
            },
        ]);
        Some((dir, out))
    }

    /// `tag <image> <registry>/<image>` and `push <registry>/<image>`;
    /// `None` for a component without cluster manifests, and for the kinds
    /// that have no image of their own to push.
    pub fn push_args(&self, registry: &str) -> (r: Option<(Vec<String>, Vec<String>)>)
        requires
            self.tag is Some,
        ensures
            r is None <==> (self.spec.k8s is None || self.spec.build_type is PureKubernetes
                || self.spec.build_type is KubernetesInstallation),
            r matches Some((t, p)) ==> {
                let local = tagged_name(self.image_name@, self.tag->0@);
                &&& strings_view(t@) == seq!["tag"@, local, registry@ + "/"@ + local]
                &&& strings_view(p@) == seq!["push"@, registry@ + "/"@ + local]
            },
    {
        if self.spec.k8s.is_none() {
            return None;
        }
        match &self.spec.build_type {
            BuildType::PureKubernetes => return None,
            BuildType::KubernetesInstallation { .. } => return None,
            _ => {},
        }
        let local = self.tagged_image_name();
        let remote = concat3(registry, "/", local.as_str());
        let mut t: Vec<String> = Vec::new();
        t.push(copy_str("tag"));
        t.push(local);
        t.push(remote.clone());
        let mut p: Vec<String> = Vec::new();
        p.push(copy_str("push"));
        p.push(remote);
        assert(strings_view(t@) =~= seq![
            "tag"@,
            tagged_name(self.image_name@, self.tag->0@),
            registry@ + "/"@ + tagged_name(self.image_name@, self.tag->0@),
        ]);
        assert(strings_view(p@) =~= seq![
            "push"@,
            registry@ + "/"@ + tagged_name(self.image_name@, self.tag->0@),
        ]);
        Some((t, p))
    }
}

/// The dependency matrix of images.
pub open spec fn image_adj(images: Seq<DockerImage>) -> Seq<Seq<bool>> {
    depends_matrix(
        Seq::new(images.len(), |i: int| images[i].image_name@),
        Seq::new(images.len(), |i: int| strings_view(images[i].depends_on@)),
    )
}

pub open spec fn image_priorities(images: Seq<DockerImage>) -> Seq<u64> {
    Seq::new(images.len(), |i: int| priority_of(image_adj(images), i) as u64)
}

/// Strings in descending order.
pub open spec fn sorted_desc(v: Seq<Seq<char>>) -> bool {
    forall|a: int, b: int| 0 <= a < b < v.len() ==> lex_le(#[trigger] v[b], #[trigger] v[a])
}

/// What stays applied when the files of `order` are deleted one by one from
/// a cluster where `applied` are.
pub open spec fn remaining_after_delete(applied: Set<Seq<char>>, order: Seq<Seq<char>>) -> Set<
    Seq<char>,
> {
    applied.difference(order.to_set())
}

/// The rendered manifests in the order unapply deletes them: descending.
/// Deleting them after applying them all leaves none applied.
pub fn unapply_order(files: &Vec<String>) -> (r: Vec<String>)
    ensures
        sorted_desc(strings_view(r@)),
        strings_view(r@).to_multiset() == strings_view(files@).to_multiset(),
        remaining_after_delete(strings_view(files@).to_set(), strings_view(r@)) == Set::<
            Seq<char>,
        >::empty(),
{
    let s = sort_strings(files);
    let ghost sv = strings_view(s@);
    let mut r: Vec<String> = Vec::new();
    let mut i: usize = s.len();
    while i > 0
        invariant
            i <= s.len(),
            sv == strings_view(s@),
            strings_view(r@) =~= sv.subrange(i as int, sv.len() as int).reverse(),
        decreases i,
    {
        let ghost before = strings_view(r@);
        r.push(s[i - 1].clone());
        assert(sv.subrange(i - 1, sv.len() as int).reverse() =~= sv.subrange(
            i as int,
            sv.len() as int,
        ).reverse().push(sv[i - 1]));
        assert(strings_view(r@) =~= before.push(sv[i - 1]));
        i = i - 1;
    }
    assert(sv.subrange(0, sv.len() as int) =~= sv);
    proof {
        sv.lemma_reverse_to_multiset();
        assert forall|a: int, b: int|
            0 <= a < b < strings_view(r@).len() implies lex_le(
            #[trigger] strings_view(r@)[b],
            #[trigger] strings_view(r@)[a],
        ) by {
            let n = sv.len();
            assert(strings_view(r@)[a] == sv[n - 1 - a]);
            assert(strings_view(r@)[b] == sv[n - 1 - b]);
        }
        let fv = strings_view(files@);
        let rv = strings_view(r@);
        assert forall|x: Seq<char>| fv.to_set().contains(x) implies rv.to_set().contains(x) by {
            vstd::seq_lib::to_multiset_contains(fv, x);
            vstd::seq_lib::to_multiset_contains(rv, x);
        }
        assert(remaining_after_delete(fv.to_set(), rv) =~= Set::<Seq<char>>::empty());
    }
    r
}

impl ContainerReactor {
    pub fn services(&self) -> (r: &Vec<ServiceSpec>)
        ensures
            r@ == self.services@,
    {
        &self.services
    }

    pub fn product_directory(&self) -> (r: &str)
        ensures
            r@ == self.product_directory@,
    {
        self.product_directory.as_str()
    }

    pub fn images(&self) -> (r: &Vec<DockerImage>)
        ensures
            r@ == self.images@,
    {
        &self.images
    }

    pub fn cluster_manifests(&self) -> (r: &K8ClusterManifests)
        ensures
            *r == self.cluster_manifests,
    {
        &self.cluster_manifests
    }

    /// The first image of the component with this name.
    pub fn get_image(&self, component_name: &str) -> (r: Option<&DockerImage>)
        ensures
            match r {
                Some(img) => exists|i: int|
                    0 <= i < self.images@.len() && self.images@[i] == *img
                        && img.spec.component_name@ == component_name@,
                None => forall|i: int|
                    0 <= i < self.images@.len() ==> (#[trigger] self.images@[i]).spec.component_name@
                        != component_name@,
            },
    {
        let mut i: usize = 0;
        while i < self.images.len()
            invariant
                i <= self.images.len(),
                forall|k: int|
                    0 <= k < i ==> (#[trigger] self.images@[k]).spec.component_name@
                        != component_name@,
            decreases self.images.len() - i,
        {
            if str_eq(self.images[i].spec.component_name.as_str(), component_name) {
                return Some(&self.images[i]);
            }
            i = i + 1;
        }
        None
    }

    /// The order in which the images are launched: by ascending priority,
    /// ties in manifest order.
    pub fn launch_order(&self) -> (r: Vec<usize>)
        requires
            self.images@.len() < 0x8000_0000_0000_0000,
        ensures
            is_launch_order(image_priorities(self.images@), r@),
    {
        let mut names: Vec<String> = Vec::new();
        let mut deps: Vec<Vec<String>> = Vec::new();
        let mut i: usize = 0;
        while i < self.images.len()
            invariant
                i <= self.images.len(),
                names@.len() == i,
                deps@.len() == i,
                forall|k: int| 0 <= k < i ==> (#[trigger] names@[k])@ == self.images@[k].image_name@,
                forall|k: int|
                    0 <= k < i ==> strings_view((#[trigger] deps@[k])@) == strings_view(
                        self.images@[k].depends_on@,
                    ),
            decreases self.images.len() - i,
        {
            names.push(self.images[i].image_name.clone());
            deps.push(clone_strings(&self.images[i].depends_on));
            i = i + 1;
        }
        let adj = dependency_matrix(&names, &deps);
        assert(strings_view(names@) =~= Seq::new(
            self.images@.len(),
            |i: int| self.images@[i].image_name@,
        ));
        assert(Seq::new(deps@.len(), |i: int| strings_view(deps@[i]@)) =~= Seq::new(
            self.images@.len(),
            |i: int| strings_view(self.images@[i].depends_on@),
        ));
        assert(adj_view(adj@) == image_adj(self.images@));
        assert(well_formed(adj_view(adj@)));
        let prio = priorities(&adj);
        assert(prio@ =~= image_priorities(self.images@));
        launch_order(&prio)
    }

    /// `network create -d bridge <network>`.
    pub fn network_create_args(&self) -> (r: Vec<String>)
        ensures
            strings_view(r@) == seq![
                "network"@,
                "create"@,
                "-d"@,
                "bridge"@,
                self.config.network_name@,
            ],
    {
        let mut out: Vec<String> = Vec::new();
        out.push(copy_str("network"));
        out.push(copy_str("create"));
        out.push(copy_str("-d"));
        out.push(copy_str("bridge"));
        out.push(copy_str(self.config.network_name()));
        assert(strings_view(out@) =~= seq![
            "network"@,
            "create"@,
            "-d"@,
            "bridge"@,
            self.config.network_name@,
        ]);
        out
    }

    /// `network rm <network>`.
    pub fn network_delete_args(&self) -> (r: Vec<String>)
        ensures
            strings_view(r@) == seq!["network"@, "rm"@, self.config.network_name@],
    {
        let mut out: Vec<String> = Vec::new();
        out.push(copy_str("network"));
        out.push(copy_str("rm"));
        out.push(copy_str(self.config.network_name()));
        assert(strings_view(out@) =~= seq!["network"@, "rm"@, self.config.network_name@]);
        out
    }

    /// `apply -R -f <output>`, without a trailing `/` on the directory.
    pub fn apply_args(&self) -> (r: Vec<String>)
        ensures
            strings_view(r@).len() == 4,
            strings_view(r@).subrange(0, 3) == seq!["apply"@, "-R"@, "-f"@],
            strings_view(r@)[3] == {
                let d = self.cluster_manifests.output_directory@;
                if d.len() > 0 && d.last() == '/' {
                    d.drop_last()
                } else {
                    d
                }
            },
    {
        let cs = chars_of(self.cluster_manifests.output_directory());
        let dir = if cs.len() > 0 && cs[cs.len() - 1] == '/' {
            let mut d: Vec<char> = Vec::new();
            let mut j: usize = 0;
            while j < cs.len() - 1
                invariant
                    j <= cs.len() - 1,
                    d@ == cs@.subrange(0, j as int),
                decreases cs.len() - 1 - j,
            {
                d.push(cs[j]);
                j = j + 1;
            }
            string_of(&d)
        } else {
            string_of(&cs)
        };
        let mut out: Vec<String> = Vec::new();
        out.push(copy_str("apply"));
        out.push(copy_str("-R"));
        out.push(copy_str("-f"));
        out.push(dir);
        assert(strings_view(out@).subrange(0, 3) =~= seq!["apply"@, "-R"@, "-f"@]);
        assert(cs@.drop_last() =~= cs@.subrange(0, cs@.len() - 1));
        out
    }

    /// `config use-context <context>`: selects the cluster context.
    pub fn select_context_args(&self, context: &str) -> (r: Vec<String>)
        ensures
            strings_view(r@) == seq!["config"@, "use-context"@, context@],
    {
        let mut out: Vec<String> = Vec::new();
        out.push(copy_str("config"));
        out.push(copy_str("use-context"));
        out.push(copy_str(context));
        assert(strings_view(out@) =~= seq!["config"@, "use-context"@, context@]);
        out
    }

    /// The message of a rollout commit: `Deploying <environment> for <product>`.
    pub fn rollout_message(&self) -> (r: String)
        ensures
            r@ == "Deploying "@ + self.config.environment@ + " for "@ + self.config.product_name@,
    {
        let mut m = concat3("Deploying ", self.config.environment(), " for ");
        m.append(self.config.product_name());
        m
    }

    /// The installation components, by index, in the lexical order of their
    /// group names; uninstalling goes through them in reverse.
    pub fn installation_order(&self) -> (r: Vec<usize>)
        ensures
            forall|k: int|
                0 <= k < r@.len() ==> (#[trigger] r@[k]) < self.cluster_manifests.components@.len()
                    && self.cluster_manifests.components@[r@[k] as int].is_installation,
            forall|c: int|
                0 <= c < self.cluster_manifests.components@.len()
                    && (#[trigger] self.cluster_manifests.components@[c]).is_installation
                    ==> r@.contains(c as usize),
            forall|a: int, b: int|
                0 <= a < b < r@.len() ==> lex_le(
                    self.cluster_manifests.components@[#[trigger] r@[a] as int].name@,
                    self.cluster_manifests.components@[#[trigger] r@[b] as int].name@,
                ),
    {
        let comps = &self.cluster_manifests.components;
        let mut order: Vec<usize> = Vec::new();
        let mut i: usize = 0;
        while i < comps.len()
            invariant
                i <= comps.len(),
                *comps == self.cluster_manifests.components,
                forall|k: int|
                    0 <= k < order@.len() ==> (#[trigger] order@[k]) < i && comps@[order@[k] as int].is_installation,
                forall|c: int|
                    0 <= c < i && (#[trigger] comps@[c]).is_installation ==> order@.contains(
                        c as usize,
                    ),
                forall|a: int, b: int|
                    0 <= a < b < order@.len() ==> lex_le(
                        comps@[#[trigger] order@[a] as int].name@,
                        comps@[#[trigger] order@[b] as int].name@,
                    ),
            decreases comps.len() - i,
        {
            if comps[i].is_installation {
                let mut pos: usize = 0;
                while pos < order.len() && crate::sort::lex_le_exec(
                    comps[order[pos]].name.as_str(),
                    comps[i].name.as_str(),
                )
                    invariant
                        pos <= order@.len(),
                        i < comps@.len(),
                        forall|k: int|
                            0 <= k < order@.len() ==> (#[trigger] order@[k]) < i,
                        forall|k: int|
                            0 <= k < pos ==> lex_le(
                                comps@[#[trigger] order@[k] as int].name@,
                                comps@[i as int].name@,
                            ),
                    decreases order@.len() - pos,
                {
                    pos = pos + 1;
                }
                let ghost before = order@;
                let ghost x = comps@[i as int].name@;
                proof {
                    if pos < before.len() {
                        crate::sort::lemma_lex_total(comps@[before[pos as int] as int].name@, x);
                    }
                    assert forall|k: int| pos <= k < before.len() implies lex_le(
                        x,
                        comps@[#[trigger] before[k] as int].name@,
                    ) by {
                        if k > pos {
                            crate::sort::lemma_lex_trans(
                                x,
                                comps@[before[pos as int] as int].name@,
                                comps@[before[k] as int].name@,
                            );
                        }
                    }
                }
                order.insert(pos, i);
                proof {
                    assert forall|a: int, b: int| 0 <= a < b < order@.len() implies lex_le(
                        comps@[#[trigger] order@[a] as int].name@,
                        comps@[#[trigger] order@[b] as int].name@,
                    ) by {
                        if b < pos {
                            assert(order@[a] == before[a] && order@[b] == before[b]);
                        } else if b == pos {
                            assert(order@[a] == before[a]);
                        } else if a == pos {
                            assert(order@[b] == before[b - 1]);
                        } else if a < pos {
                            assert(order@[a] == before[a] && order@[b] == before[b - 1]);
                            crate::sort::lemma_lex_trans(
                                comps@[order@[a] as int].name@,
                                x,
                                comps@[order@[b] as int].name@,
                            );
                        } else {
                            assert(order@[a] == before[a - 1] && order@[b] == before[b - 1]);
                        }
                    }
                    assert forall|c: int|
                        0 <= c < i + 1 && (#[trigger] comps@[c]).is_installation implies order@.contains(
                        c as usize,
                    ) by {
                        if c < i {
                            let w = choose|w: int| 0 <= w < before.len() && before[w] == c as usize;
                            if w < pos {
                                assert(order@[w] == before[w]);
                            } else {
                                assert(order@[w + 1] == before[w]);
                            }
                        } else {
                            assert(order@[pos as int] == i);
                        }
                    }
                    assert forall|k: int| 0 <= k < order@.len() implies (#[trigger] order@[k]) < i + 1
                        && comps@[order@[k] as int].is_installation by {
                        if k < pos {
                            assert(order@[k] == before[k]);
                        } else if k > pos {
                            assert(order@[k] == before[k - 1]);
                        }
                    }
                }
            }
            i = i + 1;
        }
        order
    }
}

} // verus!
