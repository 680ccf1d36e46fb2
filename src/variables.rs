//! The environment-scoped variable store and `{{ name }}` substitution.
use vstd::prelude::*;
use crate::text::{
    chars_of, copy_str, is_space, lower_ascii, lower_ascii_exec, str_eq, string_of, trim_exec, trim_spec,
};
use crate::yaml::YamlValue;

verus! {

/// A string map as its entries in document order.
pub open spec fn pairs_view(v: Seq<(String, String)>) -> Seq<(Seq<char>, Seq<char>)> {
    v.map_values(|p: (String, String)| (p.0@, p.1@))
}

/// The value of the first entry with key `key`.
pub open spec fn pairs_lookup(entries: Seq<(Seq<char>, Seq<char>)>, key: Seq<char>) -> Option<
    Seq<char>,
>
    decreases entries.len(),
{
    if entries.len() == 0 {
        None
    } else if entries[0].0 == key {
        Some(entries[0].1)
    } else {
        pairs_lookup(entries.drop_first(), key)
    }
}

pub open spec fn opt_view(o: Option<String>) -> Option<Seq<char>> {
    match o {
        Some(s) => Some(s@),
        None => None,
    }
}

/// Looks `key` up among `entries`.
pub fn lookup_pairs(entries: &Vec<(String, String)>, key: &str) -> (r: Option<String>)
    ensures
        opt_view(r) == pairs_lookup(pairs_view(entries@), key@),
{
    let ghost all = pairs_view(entries@);
    assert(all.subrange(0, all.len() as int) =~= all);
    let mut i: usize = 0;
    while i < entries.len()
        invariant
            i <= entries.len(),
            all == pairs_view(entries@),
            pairs_lookup(all, key@) == pairs_lookup(all.subrange(i as int, all.len() as int), key@),
        decreases entries.len() - i,
    {
        let ghost rest = all.subrange(i as int, all.len() as int);
        assert(rest.drop_first() =~= all.subrange(i + 1, all.len() as int));
        if str_eq(entries[i].0.as_str(), key) {
            return Some(entries[i].1.clone());
        }
        i = i + 1;
    }
    None
}

/// The contents of a variables file: one string map per environment.
pub struct VariablesFile {
    pub dev: Vec<(String, String)>,
    pub staging: Vec<(String, String)>,
    pub prod: Vec<(String, String)>,
}

/// Why a variables file could not be read.
pub enum VariablesError {
    /// The top level is neither empty nor a mapping.
    NotAMapping,
    /// One of `dev`, `staging`, `prod` is missing.
    MissingEnvironment(String),
    /// An environment's section is not a map from strings to strings.
    NotAStringMap(String),
}

/// The string map that `v` holds, if every key and value is a string.
pub open spec fn string_map_of(v: YamlValue) -> Option<Seq<(Seq<char>, Seq<char>)>> {
    match v {
        YamlValue::Mapping(entries) => if forall|i: int|
            0 <= i < entries@.len() ==> (#[trigger] entries@[i]).0 is Str && entries@[i].1 is Str {
            Some(
                entries@.map_values(
                    |e: (YamlValue, YamlValue)| (e.0->Str_0@, e.1->Str_0@),
                ),
            )
        } else {
            None
        },
        _ => None,
    }
}

/// Reads a YAML string map.
pub fn string_map_from_yaml(v: &YamlValue) -> (r: Option<Vec<(String, String)>>)
    ensures
        match r {
            Some(m) => string_map_of(*v) == Some(pairs_view(m@)),
            None => string_map_of(*v) is None,
        },
{
    match v {
        YamlValue::Mapping(entries) => {
            let mut out: Vec<(String, String)> = Vec::new();
            let mut i: usize = 0;
            while i < entries.len()
                invariant
                    i <= entries.len(),
                    *v == YamlValue::Mapping(*entries),
                    out.len() == i,
                    forall|j: int|
                        0 <= j < i ==> (#[trigger] entries@[j]).0 is Str && entries@[j].1 is Str,
                    forall|j: int|
                        0 <= j < i ==> (#[trigger] out@[j]).0@ == entries@[j].0->Str_0@
                            && out@[j].1@ == entries@[j].1->Str_0@,
                decreases entries.len() - i,
            {
                match (&entries[i].0, &entries[i].1) {
                    (YamlValue::Str(k), YamlValue::Str(val)) => {
                        out.push((k.clone(), val.clone()));
                    },
                    _ => {
                        assert(!((entries@[i as int]).0 is Str && entries@[i as int].1 is Str));
                        return None;
                    },
                }
                i = i + 1;
            }
            assert(pairs_view(out@) =~= entries@.map_values(
                |e: (YamlValue, YamlValue)| (e.0->Str_0@, e.1->Str_0@),
            ));
            Some(out)
        },
        _ => None,
    }
}

impl VariablesFile {
    pub fn empty() -> (r: VariablesFile)
        ensures
            r.dev@.len() == 0,
            r.staging@.len() == 0,
            r.prod@.len() == 0,
    {
        VariablesFile { dev: Vec::new(), staging: Vec::new(), prod: Vec::new() }
    }

    /// Reads one environment's section of a variables document.
    fn section(doc: &YamlValue, name: &str) -> (r: Result<Vec<(String, String)>, VariablesError>)
        ensures
            match r {
                Ok(m) => doc.field(name@) is Some && string_map_of(doc.field(name@)->0) == Some(
                    pairs_view(m@),
                ),
                Err(_) => doc.field(name@) is None || string_map_of(doc.field(name@)->0) is None,
            },
    {
        match doc.get(name) {
            None => Err(VariablesError::MissingEnvironment(copy_str(name))),
            Some(section) => match string_map_from_yaml(section) {
                Some(m) => Ok(m),
                None => Err(VariablesError::NotAStringMap(copy_str(name))),
            },
        }
    }

    /// Reads a variables document. An empty document holds no variables.
    pub fn from_yaml(doc: &YamlValue) -> (r: Result<VariablesFile, VariablesError>)
        ensures
            *doc is Null ==> r is Ok && r->Ok_0.dev@.len() == 0 && r->Ok_0.staging@.len() == 0
                && r->Ok_0.prod@.len() == 0,
            r is Ok ==> *doc is Null || (string_map_of(doc.field("dev"@)->0) == Some(
                pairs_view(r->Ok_0.dev@),
            ) && string_map_of(doc.field("staging"@)->0) == Some(pairs_view(r->Ok_0.staging@))
                && string_map_of(doc.field("prod"@)->0) == Some(pairs_view(r->Ok_0.prod@))),
            r is Err <==> !(*doc is Null) && (!(*doc is Mapping) || doc.field("dev"@) is None
                || string_map_of(doc.field("dev"@)->0) is None || doc.field("staging"@) is None
                || string_map_of(doc.field("staging"@)->0) is None || doc.field("prod"@) is None
                || string_map_of(doc.field("prod"@)->0) is None),
    {
        match doc {
            YamlValue::Null => Ok(VariablesFile::empty()),
            YamlValue::Mapping(_) => {
                let dev = match VariablesFile::section(doc, "dev") {
                    Ok(m) => m,
                    Err(e) => return Err(e),
                };
                let staging = match VariablesFile::section(doc, "staging") {
                    Ok(m) => m,
                    Err(e) => return Err(e),
                };
                let prod = match VariablesFile::section(doc, "prod") {
                    Ok(m) => m,
                    Err(e) => return Err(e),
                };
                Ok(VariablesFile { dev, staging, prod })
            },
            _ => Err(VariablesError::NotAMapping),
        }
    }
}

/// Variables of one environment, selected from a variables file.
pub struct Variables {
    pub values: VariablesFile,
    pub env: String,
}

/// The name that a string refers to when it is exactly `{{ name }}`,
/// with whitespace allowed inside the braces.
pub open spec fn var_ref_name(s: Seq<char>) -> Option<Seq<char>> {
    if s.len() >= 4 && s[0] == '{' && s[1] == '{' && s[s.len() - 2] == '}' && s[s.len() - 1]
        == '}' {
        let name = trim_spec(s.subrange(2, s.len() - 2));
        if name.len() > 0 && forall|i: int|
            0 <= i < name.len() ==> !is_space(#[trigger] name[i]) && name[i] != '{' && name[i]
                != '}' {
            Some(name)
        } else {
            None
        }
    } else {
        None
    }
}

/// Recognises a variable reference.
pub fn var_ref(s: &str) -> (r: Option<String>)
    ensures
        opt_view(r) == var_ref_name(s@),
{
    let cs = chars_of(s);
    let n = cs.len();
    if n < 4 || cs[0] != '{' || cs[1] != '{' || cs[n - 2] != '}' || cs[n - 1] != '}' {
        return None;
    }
    let mut inner: Vec<char> = Vec::new();
    let mut i: usize = 2;
    while i < n - 2
        invariant
            cs@ == s@,
            n == cs.len(),
            n >= 4,
            2 <= i <= n - 2,
            inner@ == s@.subrange(2, i as int),
        decreases n - 2 - i,
    {
        inner.push(cs[i]);
        i = i + 1;
    }
    let name = trim_exec(&inner);
    if name.len() == 0 {
        return None;
    }
    let mut j: usize = 0;
    assert(inner@ == s@.subrange(2, s@.len() - 2));
    assert(s@.len() >= 4 && s@[0] == '{' && s@[1] == '{' && s@[s@.len() - 2] == '}' && s@[s@.len() - 1] == '}');
    while j < name.len()
        invariant
            j <= name.len(),
            name@ == trim_spec(s@.subrange(2, s@.len() - 2)),
            s@.len() >= 4 && s@[0] == '{' && s@[1] == '{' && s@[s@.len() - 2] == '}' && s@[s@.len() - 1] == '}',
            forall|k: int|
                0 <= k < j ==> !is_space(#[trigger] name@[k]) && name@[k] != '{' && name@[k]
                    != '}',
        decreases name.len() - j,
    {
        let c = name[j];
        if c == ' ' || c == '\t' || c == '\n' || c == '\r' || c == '\x0b' || c == '\x0c' || c
            == '{' || c == '}' {
            assert(is_space(name@[j as int]) || name@[j as int] == '{' || name@[j as int]
                == '}');
            return None;
        }
        j = j + 1;
    }
    Some(string_of(&name))
}

/// Why a manifest string could not be substituted.
pub enum SubstitutionError {
    /// The string refers to a variable that the active environment lacks.
    UnknownVariable(String),
}

impl Variables {
    /// The variables of the environment `env`, compared in lower case.
    pub fn new(values: VariablesFile, env: &str) -> (r: Variables)
        ensures
            r.env@ == lower_ascii(env@),
            r.values == values,
    {
        Variables { values, env: lower_ascii_exec(env) }
    }

    /// The entries of the active environment; none for an unknown one.
    pub open spec fn active(&self) -> Seq<(Seq<char>, Seq<char>)> {
        if self.env@ == "dev"@ {
            pairs_view(self.values.dev@)
        } else if self.env@ == "staging"@ {
            pairs_view(self.values.staging@)
        } else if self.env@ == "prod"@ {
            pairs_view(self.values.prod@)
        } else {
            Seq::empty()
        }
    }

    pub open spec fn lookup(&self, key: Seq<char>) -> Option<Seq<char>> {
        pairs_lookup(self.active(), key)
    }

    /// What a manifest string becomes: a variable reference is replaced by the
    /// variable's value, any other string is kept; `None` for an unknown variable.
    pub open spec fn substituted(&self, s: Seq<char>) -> Option<Seq<char>> {
        match var_ref_name(s) {
            Some(name) => self.lookup(name),
            None => Some(s),
        }
    }

    pub fn get(&self, key: &str) -> (r: Option<String>)
        ensures
            opt_view(r) == self.lookup(key@),
    {
        if str_eq(self.env.as_str(), "dev") {
            lookup_pairs(&self.values.dev, key)
        } else if str_eq(self.env.as_str(), "staging") {
            lookup_pairs(&self.values.staging, key)
        } else if str_eq(self.env.as_str(), "prod") {
            lookup_pairs(&self.values.prod, key)
        } else {
            proof {
                assert(self.active().len() == 0);
            }
            None
        }
    }

    /// Applies substitution to one manifest string.
    pub fn substitute(&self, s: &str) -> (r: Result<String, SubstitutionError>)
        ensures
            match r {
                Ok(v) => self.substituted(s@) == Some(v@),
                Err(SubstitutionError::UnknownVariable(name)) => var_ref_name(s@) == Some(name@)
                    && self.substituted(s@) is None,
            },
    {
        match var_ref(s) {
            None => Ok(copy_str(s)),
            Some(name) => match self.get(name.as_str()) {
                Some(v) => Ok(v),
                None => Err(SubstitutionError::UnknownVariable(name)),
            },
        }
    }
}

} // verus!
