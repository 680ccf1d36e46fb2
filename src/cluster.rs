//! Cluster manifests per component, the infrastructure repository, and the
//! local cluster: what the cluster and git command lines are.
use vstd::prelude::*;
use crate::artefact::Artefact;
use crate::build_type::BuildType;
use crate::component::ComponentBuildSpec;
use crate::config::Config;
use crate::fields::{join_path, join_path_exec, strings_view};
use crate::text::{chars_of, clone_opt, concat3, copy_str, has_suffix};
use crate::toolchain::ToolchainContext;

verus! {

/// One entry of a directory: its file name, whether it is a directory, and
/// for a file its text.
pub struct ManifestFile {
    pub file_name: String,
    pub is_dir: bool,
    pub contents: String,
}

/// A manifest file: not a directory, with the `.yaml` extension.
pub open spec fn is_manifest(f: ManifestFile) -> bool {
    !f.is_dir && f.file_name@.len() > 5 && has_suffix(f.file_name@, ".yaml"@)
}

pub fn is_manifest_exec(f: &ManifestFile) -> (r: bool)
    ensures
        r == is_manifest(*f),
{
    if f.is_dir {
        return false;
    }
    let cs = chars_of(f.file_name.as_str());
    let n = cs.len();
    proof {
        reveal_strlit(".yaml");
    }
    if n <= 5 {
        return false;
    }
    let ok = cs[n - 5] == '.' && cs[n - 4] == 'y' && cs[n - 3] == 'a' && cs[n - 2] == 'm' && cs[n
        - 1] == 'l';
    let ghost sub = f.file_name@.subrange(n - 5, n as int);
    if ok {
        assert(sub =~= ".yaml"@);
    } else {
        assert(sub != ".yaml"@) by {
            if sub == ".yaml"@ {
                assert(sub[0] == '.' && sub[1] == 'y' && sub[2] == 'a' && sub[3] == 'm' && sub[4]
                    == 'l');
            }
        }
    }
    ok
}

/// The manifests of one component.
pub struct K8ComponentManifests {
    pub name: String,
    pub spec: ComponentBuildSpec,
    pub is_installation: bool,
    pub manifests: Vec<Artefact>,
    pub input_directory: String,
    pub output_directory: String,
    pub namespace: String,
}

/// The manifest files of a directory listing, in order.
pub open spec fn manifest_files(entries: Seq<ManifestFile>) -> Seq<ManifestFile>
    decreases entries.len(),
{
    if entries.len() == 0 {
        Seq::empty()
    } else if is_manifest(entries.last()) {
        manifest_files(entries.drop_last()).push(entries.last())
    } else {
        manifest_files(entries.drop_last())
    }
}

impl K8ComponentManifests {
    /// The manifests of a component from the listing of its input
    /// directory: one artefact per `.yaml` file, rendered to the output
    /// directory under the same file name.
    pub fn new(
        name: &str,
        spec: ComponentBuildSpec,
        input_directory: &str,
        output_directory: &str,
        entries: &Vec<ManifestFile>,
    ) -> (r: K8ComponentManifests)
        ensures
            r.name@ == name@,
            r.is_installation == spec.build_type is KubernetesInstallation,
            r.namespace@ == match spec.build_type {
                BuildType::KubernetesInstallation { namespace } => namespace@,
                _ => "default"@,
            },
            r.input_directory@ == input_directory@,
            r.output_directory@ == output_directory@,
            r.manifests@.len() == manifest_files(entries@).len(),
            forall|i: int|
                0 <= i < r.manifests@.len() ==> {
                    let f = #[trigger] manifest_files(entries@)[i];
                    &&& r.manifests@[i].input_path@ == join_path(input_directory@, f.file_name@)
                    &&& r.manifests@[i].output_path@ == join_path(
                        output_directory@,
                        f.file_name@,
                    )
                    &&& r.manifests@[i].template == f.contents
                },
            r.spec == spec,
    {
        let (is_installation, namespace) = match &spec.build_type {
            BuildType::KubernetesInstallation { namespace } => (true, namespace.clone()),
            _ => (false, copy_str("default")),
        };
        let mut manifests: Vec<Artefact> = Vec::new();
        let mut i: usize = 0;
        while i < entries.len()
            invariant
                i <= entries.len(),
                manifests@.len() == manifest_files(entries@.subrange(0, i as int)).len(),
                forall|k: int|
                    0 <= k < manifests@.len() ==> {
                        let f = #[trigger] manifest_files(entries@.subrange(0, i as int))[k];
                        &&& manifests@[k].input_path@ == join_path(input_directory@, f.file_name@)
                        &&& manifests@[k].output_path@ == join_path(
                            output_directory@,
                            f.file_name@,
                        )
                        &&& manifests@[k].template == f.contents
                    },
            decreases entries.len() - i,
        {
            let ghost p = entries@.subrange(0, i + 1);
            assert(p.drop_last() =~= entries@.subrange(0, i as int));
            if is_manifest_exec(&entries[i]) {
                let f = &entries[i];
                manifests.push(
                    Artefact::new(
                        join_path_exec(input_directory, f.file_name.as_str()),
                        join_path_exec(output_directory, f.file_name.as_str()),
                        f.contents.clone(),
                    ),
                );
            }
            i = i + 1;
        }
        assert(entries@.subrange(0, entries@.len() as int) =~= entries@);
        K8ComponentManifests {
            name: copy_str(name),
            spec,
            is_installation,
            manifests,
            input_directory: copy_str(input_directory),
            output_directory: copy_str(output_directory),
            namespace,
        }
    }

    pub fn namespace(&self) -> (r: &str)
        ensures
            r@ == self.namespace@,
    {
        self.namespace.as_str()
    }

    pub fn is_installation(&self) -> (r: bool)
        ensures
            r == self.is_installation,
    {
        self.is_installation
    }

    pub fn spec(&self) -> (r: &ComponentBuildSpec)
        ensures
            *r == self.spec,
    {
        &self.spec
    }

    pub fn input_directory(&self) -> (r: &str)
        ensures
            r@ == self.input_directory@,
    {
        self.input_directory.as_str()
    }

    pub fn output_directory(&self) -> (r: &str)
        ensures
            r@ == self.output_directory@,
    {
        self.output_directory.as_str()
    }

    pub fn manifests(&self) -> (r: &Vec<Artefact>)
        ensures
            r@ == self.manifests@,
    {
        &self.manifests
    }

    pub fn name(&self) -> (r: &str)
        ensures
            r@ == self.name@,
    {
        self.name.as_str()
    }

    pub fn add_manifest(&mut self, manifest: Artefact)
        ensures
            final(self).manifests@ == old(self).manifests@.push(manifest),
            final(self).name == old(self).name,
            final(self).namespace == old(self).namespace,
            final(self).is_installation == old(self).is_installation,
    {
        self.manifests.push(manifest);
    }

    /// The cluster CLI's arguments that install each manifest of an
    /// installation component into its namespace, from the raw input files.
    pub fn install_args(&self) -> (r: Vec<Vec<String>>)
        ensures
            r@.len() == self.manifests@.len(),
            forall|i: int|
                0 <= i < r@.len() ==> strings_view((#[trigger] r@[i])@) == seq![
                    "apply"@,
                    "-n"@,
                    self.namespace@,
                    "-f"@,
                    self.manifests@[i].input_path@,
                ],
    {
        self.namespaced_args("apply")
    }

    /// The arguments that remove each installed manifest again.
    pub fn uninstall_args(&self) -> (r: Vec<Vec<String>>)
        ensures
            r@.len() == self.manifests@.len(),
            forall|i: int|
                0 <= i < r@.len() ==> strings_view((#[trigger] r@[i])@) == seq![
                    "delete"@,
                    "-n"@,
                    self.namespace@,
                    "-f"@,
                    self.manifests@[i].input_path@,
                ],
    {
        self.namespaced_args("delete")
    }

    fn namespaced_args(&self, verb: &str) -> (r: Vec<Vec<String>>)
        ensures
            r@.len() == self.manifests@.len(),
            forall|i: int|
                0 <= i < r@.len() ==> strings_view((#[trigger] r@[i])@) == seq![
                    verb@,
                    "-n"@,
                    self.namespace@,
                    "-f"@,
                    self.manifests@[i].input_path@,
                ],
    {
        let mut r: Vec<Vec<String>> = Vec::new();
        let mut i: usize = 0;
        while i < self.manifests.len()
            invariant
                i <= self.manifests.len(),
                r@.len() == i,
                forall|k: int|
                    0 <= k < i ==> strings_view((#[trigger] r@[k])@) == seq![
                        verb@,
                        "-n"@,
                        self.namespace@,
                        "-f"@,
                        self.manifests@[k].input_path@,
                    ],
            decreases self.manifests.len() - i,
        {
            let mut a: Vec<String> = Vec::new();
            a.push(copy_str(verb));
            a.push(copy_str("-n"));
            a.push(self.namespace.clone());
            a.push(copy_str("-f"));
            a.push(self.manifests[i].input_path.clone());
            assert(strings_view(a@) =~= seq![
                verb@,
                "-n"@,
                self.namespace@,
                "-f"@,
                self.manifests@[i as int].input_path@,
            ]);
            r.push(a);
            i = i + 1;
        }
        r
    }
}

/// The manifests of every component that has a cluster directory.
pub struct K8ClusterManifests {
    pub components: Vec<K8ComponentManifests>,
    pub output_directory: String,
}

impl K8ClusterManifests {
    pub fn new(output_directory: &str) -> (r: K8ClusterManifests)
        ensures
            r.components@.len() == 0,
            r.output_directory@ == output_directory@,
    {
        K8ClusterManifests { components: Vec::new(), output_directory: copy_str(output_directory) }
    }

    /// Adds a component whose manifests render under `<output>/<name>`.
    pub fn add_component(
        &mut self,
        name: &str,
        spec: ComponentBuildSpec,
        input_directory: &str,
        entries: &Vec<ManifestFile>,
    )
        ensures
            final(self).output_directory == old(self).output_directory,
            final(self).components@.len() == old(self).components@.len() + 1,
            forall|i: int|
                0 <= i < old(self).components@.len() ==> final(self).components@[i] == old(
                    self,
                ).components@[i],
            final(self).components@.last().name@ == name@,
            final(self).components@.last().output_directory@ == join_path(
                old(self).output_directory@,
                name@,
            ),
            final(self).components@.last().input_directory@ == input_directory@,
            final(self).components@.last().spec == spec,
    {
        let output_directory = join_path_exec(self.output_directory.as_str(), name);
        let c = K8ComponentManifests::new(
            name,
            spec,
            input_directory,
            output_directory.as_str(),
            entries,
        );
        self.components.push(c);
    }

    pub fn output_directory(&self) -> (r: &str)
        ensures
            r@ == self.output_directory@,
    {
        self.output_directory.as_str()
    }

    pub fn components(&self) -> (r: &Vec<K8ComponentManifests>)
        ensures
            r@ == self.components@,
    {
        &self.components
    }
}

/// The clone of the infrastructure repository that receives rendered manifests.
pub struct InfrastructureRepo {
    pub repository_url: String,
    pub local_path: String,
    pub environment: String,
    pub product_name: String,
}

impl InfrastructureRepo {
    /// The repository of `config`, cloned under `<root>/.infra`.
    pub fn new(config: &Config) -> (r: InfrastructureRepo)
        ensures
            r.repository_url@ == config.infrastructure_repository@,
            r.local_path@ == join_path(config.root_path@, ".infra"@),
            r.environment@ == config.environment@,
            r.product_name@ == config.product_name@,
    {
        InfrastructureRepo {
            repository_url: copy_str(config.infrastructure_repository()),
            local_path: join_path_exec(config.root_path(), ".infra"),
            environment: copy_str(config.environment()),
            product_name: copy_str(config.product_name()),
        }
    }

    /// The git commands that bring the clone up to date: reset, clean and
    /// pull an existing clone, or clone the repository.
    pub fn checkout_args(&self, clone_exists: bool) -> (r: Vec<Vec<String>>)
        ensures
            clone_exists ==> r@.len() == 3 && strings_view(r@[0]@) == seq![
                "-C"@,
                self.local_path@,
                "reset"@,
                "HEAD"@,
                "--hard"@,
            ] && strings_view(r@[1]@) == seq!["-C"@, self.local_path@, "clean"@, "-fd"@]
                && strings_view(r@[2]@) == seq!["-C"@, self.local_path@, "pull"@],
            !clone_exists ==> r@.len() == 1 && strings_view(r@[0]@) == seq![
                "clone"@,
                self.repository_url@,
                self.local_path@,
            ],
    {
        let mut r: Vec<Vec<String>> = Vec::new();
        if clone_exists {
            let mut a: Vec<String> = Vec::new();
            a.push(copy_str("-C"));
            a.push(self.local_path.clone());
            a.push(copy_str("reset"));
            a.push(copy_str("HEAD"));
            a.push(copy_str("--hard"));
            let mut b: Vec<String> = Vec::new();
            b.push(copy_str("-C"));
            b.push(self.local_path.clone());
            b.push(copy_str("clean"));
            b.push(copy_str("-fd"));
            let mut c: Vec<String> = Vec::new();
            c.push(copy_str("-C"));
            c.push(self.local_path.clone());
            c.push(copy_str("pull"));
            assert(strings_view(a@) =~= seq![
                "-C"@,
                self.local_path@,
                "reset"@,
                "HEAD"@,
                "--hard"@,
            ]);
            assert(strings_view(b@) =~= seq!["-C"@, self.local_path@, "clean"@, "-fd"@]);
            assert(strings_view(c@) =~= seq!["-C"@, self.local_path@, "pull"@]);
            r.push(a);
            r.push(b);
            r.push(c);
        } else {
            let mut a: Vec<String> = Vec::new();
            a.push(copy_str("clone"));
            a.push(self.repository_url.clone());
            a.push(self.local_path.clone());
            assert(strings_view(a@) =~= seq!["clone"@, self.repository_url@, self.local_path@]);
            r.push(a);
        }
        r
    }

    /// Where the manifests go in the clone: `<clone>/products/<product>/<environment>`.
    pub fn target_directory(&self) -> (r: String)
        ensures
            r@ == join_path(
                self.local_path@,
                "products/"@ + self.product_name@ + "/"@ + self.environment@,
            ),
    {
        let mut sub = concat3("products/", self.product_name.as_str(), "/");
        sub.append(self.environment.as_str());
        join_path_exec(self.local_path.as_str(), sub.as_str())
    }

    /// The git commands that commit everything in the clone and push it.
    pub fn commit_and_push_args(&self, commit_message: &str) -> (r: Vec<Vec<String>>)
        ensures
            r@.len() == 3,
            strings_view(r@[0]@) == seq!["-C"@, self.local_path@, "add"@, "."@],
            strings_view(r@[1]@) == seq![
                "-C"@,
                self.local_path@,
                "commit"@,
                "-m"@,
                commit_message@,
            ],
            strings_view(r@[2]@) == seq!["-C"@, self.local_path@, "push"@],
    {
        let mut a: Vec<String> = Vec::new();
        a.push(copy_str("-C"));
        a.push(self.local_path.clone());
        a.push(copy_str("add"));
        a.push(copy_str("."));
        let mut b: Vec<String> = Vec::new();
        b.push(copy_str("-C"));
        b.push(self.local_path.clone());
        b.push(copy_str("commit"));
        b.push(copy_str("-m"));
        b.push(copy_str(commit_message));
        let mut c: Vec<String> = Vec::new();
        c.push(copy_str("-C"));
        c.push(self.local_path.clone());
        c.push(copy_str("push"));
        assert(strings_view(a@) =~= seq!["-C"@, self.local_path@, "add"@, "."@]);
        assert(strings_view(b@) =~= seq![
            "-C"@,
            self.local_path@,
            "commit"@,
            "-m"@,
            commit_message@,
        ]);
        assert(strings_view(c@) =~= seq!["-C"@, self.local_path@, "push"@]);
        let mut r: Vec<Vec<String>> = Vec::new();
        r.push(a);
        r.push(b);
        r.push(c);
        r
    }
}

/// The local cluster.
pub struct Minikube {
    pub executable: Option<String>,
}

impl Minikube {
    pub fn new(toolchain: &ToolchainContext) -> (r: Minikube)
        ensures
            r.executable == toolchain.minikube,
    {
        Minikube { executable: clone_opt(&toolchain.minikube) }
    }

    /// The executable and its single argument for `start`, `stop` or
    /// `delete`; an error when the toolchain has no local cluster.
    pub fn command(&self, action: &str) -> (r: Result<(String, String), String>)
        ensures
            self.executable matches Some(e) ==> r matches Ok((x, a)) && x == e && a@ == action@,
            self.executable is None ==> r is Err,
    {
        match &self.executable {
            Some(e) => Ok((e.clone(), copy_str(action))),
            None => Err(copy_str("Minikube executable not found. Please install it.")),
        }
    }
}

} // verus!
