//! The kinds of component, each with what it needs to be built.
use vstd::prelude::*;

verus! {

/// How a component becomes an image, and what it needs for that.
pub enum BuildType {
    TrunkWasm { location: String, dockerfile_path: String, context_dir: Option<String> },
    RustBinary { location: String, dockerfile_path: String, context_dir: Option<String> },
    Script { location: String, dockerfile_path: String, context_dir: Option<String> },
    Ingress { components: Vec<String>, dockerfile_path: String, context_dir: Option<String> },
    PureDockerImage {
        image_name_with_tag: String,
        command: Option<String>,
        entrypoint: Option<String>,
    },
    PureKubernetes,
    KubernetesInstallation { namespace: String },
    ApiDocumentation { component: String, open_api: String },
}

impl BuildType {
    /// The container file of the kinds that build one.
    pub open spec fn dockerfile_spec(&self) -> Option<Seq<char>> {
        match self {
            BuildType::TrunkWasm { dockerfile_path, .. } => Some(dockerfile_path@),
            BuildType::RustBinary { dockerfile_path, .. } => Some(dockerfile_path@),
            BuildType::Script { dockerfile_path, .. } => Some(dockerfile_path@),
            BuildType::Ingress { dockerfile_path, .. } => Some(dockerfile_path@),
            _ => None,
        }
    }

    pub open spec fn context_dir_spec(&self) -> Option<Seq<char>> {
        match self {
            BuildType::TrunkWasm { context_dir, .. } => crate::variables::opt_view(*context_dir),
            BuildType::RustBinary { context_dir, .. } => crate::variables::opt_view(*context_dir),
            BuildType::Script { context_dir, .. } => crate::variables::opt_view(*context_dir),
            BuildType::Ingress { context_dir, .. } => crate::variables::opt_view(*context_dir),
            _ => None,
        }
    }

    /// The source location of the kinds that have one.
    pub open spec fn location_spec(&self) -> Option<Seq<char>> {
        match self {
            BuildType::TrunkWasm { location, .. } => Some(location@),
            BuildType::RustBinary { location, .. } => Some(location@),
            BuildType::Script { location, .. } => Some(location@),
            _ => None,
        }
    }

    pub fn dockerfile(&self) -> (r: Option<&String>)
        ensures
            match r {
                Some(d) => self.dockerfile_spec() == Some(d@),
                None => self.dockerfile_spec() is None,
            },
    {
        match self {
            BuildType::TrunkWasm { dockerfile_path, .. } => Some(dockerfile_path),
            BuildType::RustBinary { dockerfile_path, .. } => Some(dockerfile_path),
            BuildType::Script { dockerfile_path, .. } => Some(dockerfile_path),
            BuildType::Ingress { dockerfile_path, .. } => Some(dockerfile_path),
            _ => None,
        }
    }

    pub fn context_dir(&self) -> (r: Option<String>)
        ensures
            crate::variables::opt_view(r) == self.context_dir_spec(),
    {
        match self {
            BuildType::TrunkWasm { context_dir, .. } => crate::text::clone_opt(context_dir),
            BuildType::RustBinary { context_dir, .. } => crate::text::clone_opt(context_dir),
            BuildType::Script { context_dir, .. } => crate::text::clone_opt(context_dir),
            BuildType::Ingress { context_dir, .. } => crate::text::clone_opt(context_dir),
            _ => None,
        }
    }

    pub fn location(&self) -> (r: Option<String>)
        ensures
            crate::variables::opt_view(r) == self.location_spec(),
    {
        match self {
            BuildType::TrunkWasm { location, .. } => Some(location.clone()),
            BuildType::RustBinary { location, .. } => Some(location.clone()),
            BuildType::Script { location, .. } => Some(location.clone()),
            _ => None,
        }
    }

    pub fn is_prebuilt(&self) -> (r: bool)
        ensures
            r == (*self is PureDockerImage),
    {
        match self {
            BuildType::PureDockerImage { .. } => true,
            _ => false,
        }
    }
}

} // verus!
