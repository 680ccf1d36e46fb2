//! Templated files and build scripts, rendered against a build context.
use vstd::prelude::*;
use crate::build_type::BuildType;
use crate::component::ComponentBuildSpec;
use crate::context::BuildContext;
use crate::render::{is_plain_text, tera_render};
use crate::text::copy_str;
use crate::variables::{opt_view, pairs_lookup, pairs_view};

verus! {

/// A template file and where its rendering goes.
pub struct Artefact {
    pub input_path: String,
    pub output_path: String,
    pub template: String,
}

/// Why rendering failed.
pub enum RenderError {
    /// The template set has no template of this name.
    MissingTemplate(String),
    /// The template engine's message.
    Template(String),
}

impl Artefact {
    /// An artefact whose template source, read from `input_path`, is `template`.
    pub fn new(input_path: String, output_path: String, template: String) -> (r: Artefact)
        ensures
            r.input_path == input_path,
            r.output_path == output_path,
            r.template == template,
    {
        Artefact { input_path, output_path, template }
    }

    /// The template rendered against `context`, encoded by
    /// `BuildContext::to_json`; a template without tags is its own rendering.
    pub fn render(&self, context: &BuildContext) -> (r: Result<String, String>)
        ensures
            r is Ok && is_plain_text(self.template@) ==> r->Ok_0@ == self.template@,
    {
        let json = context.to_json();
        tera_render(self.template.as_str(), json.as_str())
    }
}

/// Templates by logical name, such as `build/rust_binary.sh`.
pub struct TemplateSet {
    pub templates: Vec<(String, String)>,
}

/// The build-script template of each kind that has one.
pub open spec fn script_template_name(bt: BuildType) -> Option<Seq<char>> {
    match bt {
        BuildType::TrunkWasm { .. } => Some("build/wasm_trunk.sh"@),
        BuildType::RustBinary { .. } => Some("build/rust_binary.sh"@),
        _ => None,
    }
}

pub struct BuildScript {
    pub build_type: BuildType,
}

impl BuildScript {
    pub fn new(build_type: BuildType) -> (r: BuildScript)
        ensures
            r.build_type == build_type,
    {
        BuildScript { build_type }
    }

    pub fn template_name(&self) -> (r: Option<String>)
        ensures
            opt_view(r) == script_template_name(self.build_type),
    {
        match &self.build_type {
            BuildType::TrunkWasm { .. } => Some(copy_str("build/wasm_trunk.sh")),
            BuildType::RustBinary { .. } => Some(copy_str("build/rust_binary.sh")),
            _ => None,
        }
    }

    /// The build script: empty for a kind without one, else its template
    /// rendered against `context`.
    pub fn render(&self, context: &BuildContext, templates: &TemplateSet) -> (r: Result<
        String,
        RenderError,
    >)
        ensures
            script_template_name(self.build_type) is None ==> r is Ok && r->Ok_0@.len() == 0,
            script_template_name(self.build_type) matches Some(name) ==> match pairs_lookup(
                pairs_view(templates.templates@),
                name,
            ) {
                None => r matches Err(RenderError::MissingTemplate(_)),
                Some(source) => (r is Ok || r matches Err(RenderError::Template(_))) && (
                r is Ok && is_plain_text(source) ==> r->Ok_0@ == source),
            },
    {
        let name = match self.template_name() {
            None => return Ok(String::new()),
            Some(n) => n,
        };
        let source = match crate::variables::lookup_pairs(&templates.templates, name.as_str()) {
            None => return Err(RenderError::MissingTemplate(name)),
            Some(s) => s,
        };
        let json = context.to_json();
        match tera_render(source.as_str(), json.as_str()) {
            Ok(s) => Ok(s),
            Err(e) => Err(RenderError::Template(e)),
        }
    }
}

impl ComponentBuildSpec {
    /// The build script: the spec's own when it gives one, else its kind's.
    pub fn build_script(&self, ctx: &BuildContext, templates: &TemplateSet) -> (r: Result<
        String,
        RenderError,
    >)
        ensures
            match self.build {
                Some(b) => r matches Ok(s) && s@ == b@,
                None => match script_template_name(self.build_type) {
                    None => r matches Ok(s) && s@.len() == 0,
                    Some(name) => match pairs_lookup(pairs_view(templates.templates@), name) {
                        None => r matches Err(RenderError::MissingTemplate(_)),
                        Some(source) => (r is Ok || r matches Err(RenderError::Template(_))) && (
                        r is Ok && is_plain_text(source) ==> r->Ok_0@ == source),
                    },
                },
            },
    {
        match &self.build {
            Some(b) => Ok(b.clone()),
            None => {
                let script = BuildScript::new(crate::component::duplicate_build_type(&self.build_type));
                proof {
                    assert(script_template_name(script.build_type) == script_template_name(
                        self.build_type,
                    ));
                }
                script.render(ctx, templates)
            },
        }
    }

    /// The artefacts of this spec, given the template source read from each
    /// artefact's input path, in the spec's order.
    pub fn build_artefacts(&self, sources: &Vec<String>) -> (r: Vec<Artefact>)
        requires
            sources@.len() == match self.artefacts {
                Some(a) => a@.len(),
                None => 0,
            },
        ensures
            r@.len() == sources@.len(),
            forall|i: int|
                0 <= i < r@.len() ==> (#[trigger] r@[i]).input_path == self.artefacts->0@[i].0
                    && r@[i].output_path == self.artefacts->0@[i].1 && r@[i].template
                    == sources@[i],
    {
        let mut r: Vec<Artefact> = Vec::new();
        match &self.artefacts {
            None => r,
            Some(a) => {
                let mut i: usize = 0;
                while i < a.len()
                    invariant
                        i <= a.len(),
                        sources@.len() == a@.len(),
                        self.artefacts == Some(*a),
                        r@.len() == i,
                        forall|j: int|
                            0 <= j < i ==> (#[trigger] r@[j]).input_path == a@[j].0
                                && r@[j].output_path == a@[j].1 && r@[j].template == sources@[j],
                    decreases a.len() - i,
                {
                    r.push(
                        Artefact::new(a[i].0.clone(), a[i].1.clone(), sources[i].clone()),
                    );
                    i = i + 1;
                }
                r
            },
        }
    }
}

} // verus!
