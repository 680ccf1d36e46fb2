//! Product-level configuration derived from the selected environment.
use vstd::prelude::*;
use crate::render::{json_object, json_object_of, json_string, json_string_of, members_view, tera_render, is_plain_text};
use crate::text::{concat2, copy_str, lower_ascii, lower_ascii_exec, str_eq};

verus! {

pub open spec fn is_slug_char(c: char) -> bool {
    ('a' <= c && c <= 'z') || ('0' <= c && c <= '9') || c == '-'
}

/// Lower-case ASCII letters, digits and single inner dashes.
pub open spec fn is_slug(s: Seq<char>) -> bool {
    &&& forall|i: int| 0 <= i < s.len() ==> is_slug_char(#[trigger] s[i])
    &&& s.len() > 0 ==> s[0] != '-' && s.last() != '-'
    &&& forall|i: int| 0 <= i < s.len() - 1 ==> !(#[trigger] s[i] == '-' && s[i + 1] == '-')
}

/// What `slug::slugify` returns for a string.
pub uninterp spec fn slug_of(s: Seq<char>) -> Seq<char>;

/// Relies on `slug::slugify`: the result is a slug (its documentation), and
/// slugifying a slug keeps it as it is (each of its characters is kept, and
/// no dash is added or dropped).
#[verifier::external_body]
fn slugify(s: &str) -> (r: String)
    ensures
        r@ == slug_of(s@),
        is_slug(r@),
        slug_of(r@) == r@,
{
    slug::slugify(s)
}

/// The product's URI: its name slugified, in lower case.
pub open spec fn product_uri_spec(product_name: Seq<char>) -> Seq<char> {
    lower_ascii(slug_of(product_name))
}

proof fn lemma_lower_slug(s: Seq<char>)
    requires
        is_slug(s),
    ensures
        lower_ascii(s) == s,
{
    assert forall|i: int| 0 <= i < s.len() implies lower_ascii(s)[i] == s[i] by {
        assert(is_slug_char(s[i]));
    }
    assert(lower_ascii(s) =~= s);
}

/// The URI of a product; deriving the URI of the URI gives it back.
pub fn product_uri(product_name: &str) -> (r: String)
    ensures
        r@ == product_uri_spec(product_name@),
        is_slug(r@),
        product_uri_spec(r@) == r@,
{
    let slug = slugify(product_name);
    proof {
        lemma_lower_slug(slug@);
    }
    lower_ascii_exec(slug.as_str())
}

pub open spec fn is_environment(e: Seq<char>) -> bool {
    e == "dev"@ || e == "staging"@ || e == "prod"@
}

/// The variable holding the cluster context of each environment.
pub open spec fn context_variable_spec(e: Seq<char>) -> Seq<char> {
    if e == "dev"@ {
        "DEV_CTX"@
    } else if e == "prod"@ {
        "PROD_CTX"@
    } else {
        "STAGING_CTX"@
    }
}

/// The variable holding the domain template of each environment.
pub open spec fn domain_variable_spec(e: Seq<char>) -> Seq<char> {
    if e == "dev"@ {
        "DEV_DOMAIN"@
    } else if e == "prod"@ {
        "PROD_DOMAIN"@
    } else {
        "STAGING_DOMAIN"@
    }
}

pub fn is_valid_environment(environment: &str) -> (r: bool)
    ensures
        r == is_environment(environment@),
{
    str_eq(environment, "dev") || str_eq(environment, "staging") || str_eq(environment, "prod")
}

/// Name of the environment variable that holds the cluster context.
pub fn context_variable(environment: &str) -> (r: Option<String>)
    ensures
        match r {
            Some(v) => is_environment(environment@) && v@ == context_variable_spec(environment@),
            None => !is_environment(environment@),
        },
{
    if str_eq(environment, "dev") {
        Some(copy_str("DEV_CTX"))
    } else if str_eq(environment, "prod") {
        Some(copy_str("PROD_CTX"))
    } else if str_eq(environment, "staging") {
        Some(copy_str("STAGING_CTX"))
    } else {
        None
    }
}

/// Name of the environment variable that holds the domain template.
pub fn domain_variable(environment: &str) -> (r: Option<String>)
    ensures
        match r {
            Some(v) => is_environment(environment@) && v@ == domain_variable_spec(environment@),
            None => !is_environment(environment@),
        },
{
    if str_eq(environment, "dev") {
        Some(copy_str("DEV_DOMAIN"))
    } else if str_eq(environment, "prod") {
        Some(copy_str("PROD_DOMAIN"))
    } else if str_eq(environment, "staging") {
        Some(copy_str("STAGING_DOMAIN"))
    } else {
        None
    }
}

/// Why a configuration could not be made.
pub enum ConfigError {
    InvalidEnvironment(String),
    /// A required environment variable, by name, was not set.
    MissingVariable(String),
    /// The domain template did not render.
    DomainTemplate(String),
}

pub struct Config {
    pub product_name: String,
    pub product_uri: String,
    pub product_path: String,
    pub network_name: String,
    pub environment: String,
    pub domain_template: String,
    pub domain: String,
    pub kube_context: String,
    pub infrastructure_repository: String,
    pub docker_registry: String,
    pub root_path: String,
}

/// The settings that configuration reads from the process environment, as
/// values: `None` where a variable is not set.
pub struct ConfigInputs {
    pub kube_context: Option<String>,
    pub domain_template: Option<String>,
    pub infrastructure_repository: Option<String>,
}

/// The render context of the domain template: every field of the
/// configuration, with `domain` in place of its domain.
pub open spec fn config_context(c: Config, domain: Seq<char>) -> Seq<char> {
    json_object(
        seq![
            ("product_name"@, json_string(c.product_name@)),
            ("product_uri"@, json_string(c.product_uri@)),
            ("product_path"@, json_string(c.product_path@)),
            ("network_name"@, json_string(c.network_name@)),
            ("environment"@, json_string(c.environment@)),
            ("domain_template"@, json_string(c.domain_template@)),
            ("domain"@, json_string(domain)),
            ("kube_context"@, json_string(c.kube_context@)),
            ("infrastructure_repository"@, json_string(c.infrastructure_repository@)),
            ("docker_registry"@, json_string(c.docker_registry@)),
            ("root_path"@, json_string(c.root_path@)),
        ],
    )
}

fn member(key: &str, value: &str) -> (r: (String, String))
    ensures
        r.0@ == key@,
        r.1@ == json_string(value@),
{
    (copy_str(key), json_string_of(value))
}

impl Config {
    pub fn product_name(&self) -> (r: &str)
        ensures
            r@ == self.product_name@,
    {
        self.product_name.as_str()
    }

    pub fn product_uri(&self) -> (r: &str)
        ensures
            r@ == self.product_uri@,
    {
        self.product_uri.as_str()
    }

    pub fn product_path(&self) -> (r: &str)
        ensures
            r@ == self.product_path@,
    {
        self.product_path.as_str()
    }

    pub fn network_name(&self) -> (r: &str)
        ensures
            r@ == self.network_name@,
    {
        self.network_name.as_str()
    }

    pub fn environment(&self) -> (r: &str)
        ensures
            r@ == self.environment@,
    {
        self.environment.as_str()
    }

    pub fn domain_template(&self) -> (r: &str)
        ensures
            r@ == self.domain_template@,
    {
        self.domain_template.as_str()
    }

    pub fn kube_context(&self) -> (r: &str)
        ensures
            r@ == self.kube_context@,
    {
        self.kube_context.as_str()
    }

    pub fn infrastructure_repository(&self) -> (r: &str)
        ensures
            r@ == self.infrastructure_repository@,
    {
        self.infrastructure_repository.as_str()
    }

    pub fn docker_registry(&self) -> (r: &str)
        ensures
            r@ == self.docker_registry@,
    {
        self.docker_registry.as_str()
    }

    pub fn domain(&self) -> (r: &str)
        ensures
            r@ == self.domain@,
    {
        self.domain.as_str()
    }

    pub fn root_path(&self) -> (r: &str)
        ensures
            r@ == self.root_path@,
    {
        self.root_path.as_str()
    }

    pub fn duplicate(&self) -> (r: Config)
        ensures
            r == *self,
    {
        Config {
            product_name: self.product_name.clone(),
            product_uri: self.product_uri.clone(),
            product_path: self.product_path.clone(),
            network_name: self.network_name.clone(),
            environment: self.environment.clone(),
            domain_template: self.domain_template.clone(),
            domain: self.domain.clone(),
            kube_context: self.kube_context.clone(),
            infrastructure_repository: self.infrastructure_repository.clone(),
            docker_registry: self.docker_registry.clone(),
            root_path: self.root_path.clone(),
        }
    }

    /// The domain template's render context.
    pub fn template_context(&self) -> (r: String)
        ensures
            r@ == config_context(*self, self.domain@),
    {
        let mut m: Vec<(String, String)> = Vec::new();
        m.push(member("product_name", self.product_name.as_str()));
        m.push(member("product_uri", self.product_uri.as_str()));
        m.push(member("product_path", self.product_path.as_str()));
        m.push(member("network_name", self.network_name.as_str()));
        m.push(member("environment", self.environment.as_str()));
        m.push(member("domain_template", self.domain_template.as_str()));
        m.push(member("domain", self.domain.as_str()));
        m.push(member("kube_context", self.kube_context.as_str()));
        m.push(member("infrastructure_repository", self.infrastructure_repository.as_str()));
        m.push(member("docker_registry", self.docker_registry.as_str()));
        m.push(member("root_path", self.root_path.as_str()));
        assert(members_view(m@) =~= seq![
            ("product_name"@, json_string(self.product_name@)),
            ("product_uri"@, json_string(self.product_uri@)),
            ("product_path"@, json_string(self.product_path@)),
            ("network_name"@, json_string(self.network_name@)),
            ("environment"@, json_string(self.environment@)),
            ("domain_template"@, json_string(self.domain_template@)),
            ("domain"@, json_string(self.domain@)),
            ("kube_context"@, json_string(self.kube_context@)),
            ("infrastructure_repository"@, json_string(self.infrastructure_repository@)),
            ("docker_registry"@, json_string(self.docker_registry@)),
            ("root_path"@, json_string(self.root_path@)),
        ]);
        json_object_of(&m)
    }

    /// The configuration of a product in one environment. The environment must
    /// be `dev`, `staging` or `prod`; the cluster context, the domain template
    /// and the infrastructure repository must be given; the domain is the
    /// domain template rendered against the configuration itself, encoded by
    /// `template_context` with the domain still empty.
    pub fn new(
        root_path: &str,
        product_name: &str,
        environment: &str,
        docker_registry: &str,
        inputs: ConfigInputs,
    ) -> (r: Result<Config, ConfigError>)
        ensures
            !is_environment(environment@) <==> r matches Err(ConfigError::InvalidEnvironment(_)),
            is_environment(environment@) && inputs.kube_context is None ==> (r matches Err(
                ConfigError::MissingVariable(v)) && v@ == context_variable_spec(environment@)),
            is_environment(environment@) && inputs.kube_context is Some
                && inputs.domain_template is None ==> (r matches Err(
                ConfigError::MissingVariable(v)) && v@ == domain_variable_spec(environment@)),
            is_environment(environment@) && inputs.kube_context is Some
                && inputs.domain_template is Some && inputs.infrastructure_repository is None ==> (r
                matches Err(ConfigError::MissingVariable(v)) && v@ == "INFRASTRUCTURE_REPOSITORY"@),
            r is Ok ==> {
                let c = r->Ok_0;
                &&& c.product_name@ == product_name@
                &&& c.product_uri@ == product_uri_spec(product_name@)
                &&& c.product_path@ == "./products/"@ + product_name@
                &&& c.network_name@ == "net-"@ + product_uri_spec(product_name@)
                &&& c.environment@ == environment@
                &&& c.domain_template@ == inputs.domain_template->0@
                &&& c.kube_context@ == inputs.kube_context->0@
                &&& c.infrastructure_repository@ == inputs.infrastructure_repository->0@
                &&& c.docker_registry@ == docker_registry@
                &&& c.root_path@ == root_path@
                &&& is_plain_text(c.domain_template@) ==> c.domain@ == c.domain_template@
            },
            is_environment(environment@) && inputs.kube_context is Some
                && inputs.domain_template is Some && inputs.infrastructure_repository is Some ==> (r is Ok
                || r matches Err(ConfigError::DomainTemplate(_))),
            r matches Err(ConfigError::DomainTemplate(_)) ==> is_environment(environment@)
                && inputs.kube_context is Some && inputs.domain_template is Some
                && inputs.infrastructure_repository is Some,
    {
        if !is_valid_environment(environment) {
            return Err(ConfigError::InvalidEnvironment(copy_str(environment)));
        }
        let kube_context = match inputs.kube_context {
            Some(v) => v,
            None => {
                let name = context_variable(environment);
                return Err(ConfigError::MissingVariable(name.unwrap()));
            },
        };
        let domain_template = match inputs.domain_template {
            Some(v) => v,
            None => {
                let name = domain_variable(environment);
                return Err(ConfigError::MissingVariable(name.unwrap()));
            },
        };
        let infrastructure_repository = match inputs.infrastructure_repository {
            Some(v) => v,
            None => {
                return Err(ConfigError::MissingVariable(copy_str("INFRASTRUCTURE_REPOSITORY")));
            },
        };
        let uri = product_uri(product_name);
        let mut ret = Config {
            root_path: copy_str(root_path),
            product_name: copy_str(product_name),
            product_path: concat2("./products/", product_name),
            network_name: concat2("net-", uri.as_str()),
            product_uri: uri,
            environment: copy_str(environment),
            domain_template,
            domain: String::new(),
            kube_context,
            infrastructure_repository,
            docker_registry: copy_str(docker_registry),
        };
        let context = ret.template_context();
        assert(ret.domain@ == Seq::<char>::empty());
        match tera_render(ret.domain_template.as_str(), context.as_str()) {
            Ok(d) => {
                ret.domain = d;
                Ok(ret)
            },
            Err(e) => Err(ConfigError::DomainTemplate(e)),
        }
    }
}

} // verus!
