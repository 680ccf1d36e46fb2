//! Reading the fields of a component's manifest entry, with variable
//! substitution applied to every string value.
use vstd::prelude::*;
use crate::text::{concat2, concat3, copy_str, parse_u16, parse_u16_spec};
use crate::variables::{opt_view, SubstitutionError, Variables};
use crate::yaml::YamlValue;

verus! {

/// Why a manifest could not be loaded.
pub enum SpecError {
    /// A required field, by name, is missing.
    MissingField(String),
    /// A field, by name, has a value of the wrong shape.
    WrongType(String),
    /// A string refers to a variable that the environment does not define.
    UnknownVariable(String),
    /// `build_type` names no known kind.
    InvalidBuildType(String),
    /// A port field, by name, is not a number from 0 to 65535.
    InvalidPort(String),
    /// Two components have this name.
    DuplicateComponent(String),
    /// A component, first, depends on a name, second, that no component has.
    UnknownDependency(String, String),
}

/// A string field after substitution: `Some(None)` when absent, `None` when
/// it is not a string or refers to an unknown variable.
pub open spec fn text_field(v: YamlValue, key: Seq<char>, vars: Variables) -> Option<
    Option<Seq<char>>,
> {
    match v.field(key) {
        None => Some(None),
        Some(YamlValue::Str(s)) => match vars.substituted(s@) {
            Some(t) => Some(Some(t)),
            None => None,
        },
        Some(_) => None,
    }
}

pub open spec fn has_text(v: YamlValue, key: Seq<char>, vars: Variables) -> bool {
    text_field(v, key, vars) matches Some(Some(_))
}

pub open spec fn list_items_ok(items: Seq<YamlValue>, vars: Variables) -> bool {
    forall|i: int|
        0 <= i < items.len() ==> (#[trigger] items[i]) is Str && vars.substituted(
            items[i]->Str_0@,
        ) is Some
}

pub open spec fn list_items(items: Seq<YamlValue>, vars: Variables) -> Seq<Seq<char>> {
    items.map_values(|y: YamlValue| vars.substituted(y->Str_0@)->0)
}

/// A list of strings after substitution, as `text_field` has it for one string.
pub open spec fn list_field(v: YamlValue, key: Seq<char>, vars: Variables) -> Option<
    Option<Seq<Seq<char>>>,
> {
    match v.field(key) {
        None => Some(None),
        Some(YamlValue::Sequence(items)) => if list_items_ok(items@, vars) {
            Some(Some(list_items(items@, vars)))
        } else {
            None
        },
        Some(_) => None,
    }
}

/// `Path::join`: a relative path is placed under `base`; an absolute one is kept.
pub open spec fn join_path(base: Seq<char>, path: Seq<char>) -> Seq<char> {
    if path.len() > 0 && path[0] == '/' {
        path
    } else if base.len() == 0 {
        path
    } else if base.last() == '/' {
        base + path
    } else {
        base + "/"@ + path
    }
}

pub open spec fn resolve_key(base: Option<Seq<char>>, key: Seq<char>) -> Seq<char> {
    match base {
        Some(b) => join_path(b, key),
        None => key,
    }
}

pub open spec fn map_entries_ok(entries: Seq<(YamlValue, YamlValue)>, vars: Variables) -> bool {
    forall|i: int|
        0 <= i < entries.len() ==> (#[trigger] entries[i]).0 is Str && entries[i].1 is Str
            && vars.substituted(entries[i].1->Str_0@) is Some
}

pub open spec fn map_entries(
    entries: Seq<(YamlValue, YamlValue)>,
    vars: Variables,
    base: Option<Seq<char>>,
) -> Seq<(Seq<char>, Seq<char>)> {
    entries.map_values(
        |e: (YamlValue, YamlValue)|
            (resolve_key(base, e.0->Str_0@), vars.substituted(e.1->Str_0@)->0),
    )
}

/// A map of strings with its values substituted and, under `base`, its keys
/// resolved as paths.
pub open spec fn map_field(
    v: YamlValue,
    key: Seq<char>,
    vars: Variables,
    base: Option<Seq<char>>,
) -> Option<Option<Seq<(Seq<char>, Seq<char>)>>> {
    match v.field(key) {
        None => Some(None),
        Some(YamlValue::Mapping(entries)) => if map_entries_ok(entries@, vars) {
            Some(Some(map_entries(entries@, vars, base)))
        } else {
            None
        },
        Some(_) => None,
    }
}

/// A port: a number from 0 to 65535, or a string that substitutes to one.
pub open spec fn port_field(v: YamlValue, key: Seq<char>, vars: Variables) -> Option<
    Option<u16>,
> {
    match v.field(key) {
        None => Some(None),
        Some(YamlValue::Int(n)) => if 0 <= n <= 65535 {
            Some(Some(n as u16))
        } else {
            None
        },
        Some(YamlValue::Str(s)) => match vars.substituted(s@) {
            Some(t) => match parse_u16_spec(t) {
                Some(p) => Some(Some(p)),
                None => None,
            },
            None => None,
        },
        Some(_) => None,
    }
}

/// A non-negative integer that fits in 64 bits.
pub open spec fn count_field(v: YamlValue, key: Seq<char>) -> Option<Option<u64>> {
    match v.field(key) {
        None => Some(None),
        Some(YamlValue::Int(n)) => if 0 <= n <= u64::MAX {
            Some(Some(n as u64))
        } else {
            None
        },
        Some(_) => None,
    }
}

pub open spec fn strings_view(v: Seq<String>) -> Seq<Seq<char>> {
    v.map_values(|s: String| s@)
}

pub open spec fn opt_strings_view(v: Option<Vec<String>>) -> Option<Seq<Seq<char>>> {
    match v {
        Some(l) => Some(strings_view(l@)),
        None => None,
    }
}

pub open spec fn opt_pairs_view(v: Option<Vec<(String, String)>>) -> Option<
    Seq<(Seq<char>, Seq<char>)>,
> {
    match v {
        Some(l) => Some(crate::variables::pairs_view(l@)),
        None => None,
    }
}

fn substitution_error(e: SubstitutionError) -> (r: SpecError)
    ensures
        r is UnknownVariable,
{
    match e {
        SubstitutionError::UnknownVariable(name) => SpecError::UnknownVariable(name),
    }
}

pub fn read_text(v: &YamlValue, key: &str, vars: &Variables) -> (r: Result<Option<String>, SpecError>)
    ensures
        match r {
            Ok(o) => text_field(*v, key@, *vars) == Some(opt_view(o)),
            Err(_) => text_field(*v, key@, *vars) is None,
        },
{
    match v.get(key) {
        None => Ok(None),
        Some(YamlValue::Str(s)) => match vars.substitute(s.as_str()) {
            Ok(t) => Ok(Some(t)),
            Err(e) => Err(substitution_error(e)),
        },
        Some(_) => Err(SpecError::WrongType(copy_str(key))),
    }
}

pub fn read_required(v: &YamlValue, key: &str, vars: &Variables) -> (r: Result<String, SpecError>)
    ensures
        match r {
            Ok(s) => text_field(*v, key@, *vars) == Some(Some(s@)),
            Err(_) => !has_text(*v, key@, *vars),
        },
{
    match read_text(v, key, vars) {
        Ok(Some(s)) => Ok(s),
        Ok(None) => Err(SpecError::MissingField(copy_str(key))),
        Err(e) => Err(e),
    }
}

pub fn read_list(v: &YamlValue, key: &str, vars: &Variables) -> (r: Result<Option<Vec<String>>, SpecError>)
    ensures
        match r {
            Ok(o) => list_field(*v, key@, *vars) == Some(opt_strings_view(o)),
            Err(_) => list_field(*v, key@, *vars) is None,
        },
{
    match v.get(key) {
        None => Ok(None),
        Some(YamlValue::Sequence(items)) => {
            let mut out: Vec<String> = Vec::new();
            let mut i: usize = 0;
            while i < items.len()
                invariant
                    i <= items.len(),
                    v.field(key@) == Some(YamlValue::Sequence(*items)),
                    out.len() == i,
                    forall|j: int|
                        0 <= j < i ==> (#[trigger] items@[j]) is Str && vars.substituted(
                            items@[j]->Str_0@,
                        ) == Some(out@[j]@),
                decreases items.len() - i,
            {
                match &items[i] {
                    YamlValue::Str(s) => match vars.substitute(s.as_str()) {
                        Ok(t) => out.push(t),
                        Err(e) => return Err(substitution_error(e)),
                    },
                    _ => return Err(SpecError::WrongType(copy_str(key))),
                }
                i = i + 1;
            }
            assert(strings_view(out@) =~= list_items(items@, *vars));
            Ok(Some(out))
        },
        Some(_) => Err(SpecError::WrongType(copy_str(key))),
    }
}

/// `join_path` on strings.
pub fn join_path_exec(base: &str, path: &str) -> (r: String)
    ensures
        r@ == join_path(base@, path@),
{
    let p = crate::text::chars_of(path);
    let b = crate::text::chars_of(base);
    if p.len() > 0 && p[0] == '/' {
        copy_str(path)
    } else if b.len() == 0 {
        copy_str(path)
    } else if b[b.len() - 1] == '/' {
        concat2(base, path)
    } else {
        concat3(base, "/", path)
    }
}

pub fn read_map(v: &YamlValue, key: &str, vars: &Variables, base: Option<&str>) -> (r: Result<
    Option<Vec<(String, String)>>,
    SpecError,
>)
    ensures
        match r {
            Ok(o) => map_field(
                *v,
                key@,
                *vars,
                match base {
                    Some(b) => Some(b@),
                    None => None,
                },
            ) == Some(opt_pairs_view(o)),
            Err(_) => map_field(
                *v,
                key@,
                *vars,
                match base {
                    Some(b) => Some(b@),
                    None => None,
                },
            ) is None,
        },
{
    let ghost gb = match base {
        Some(b) => Some(b@),
        None => None::<Seq<char>>,
    };
    match v.get(key) {
        None => Ok(None),
        Some(YamlValue::Mapping(entries)) => {
            let mut out: Vec<(String, String)> = Vec::new();
            let mut i: usize = 0;
            while i < entries.len()
                invariant
                    i <= entries.len(),
                    v.field(key@) == Some(YamlValue::Mapping(*entries)),
                    gb == match base {
                        Some(b) => Some(b@),
                        None => None::<Seq<char>>,
                    },
                    out.len() == i,
                    forall|j: int|
                        0 <= j < i ==> (#[trigger] entries@[j]).0 is Str && entries@[j].1 is Str
                            && vars.substituted(entries@[j].1->Str_0@) == Some(out@[j].1@)
                            && out@[j].0@ == resolve_key(gb, entries@[j].0->Str_0@),
                decreases entries.len() - i,
            {
                match (&entries[i].0, &entries[i].1) {
                    (YamlValue::Str(k), YamlValue::Str(s)) => {
                        let t = match vars.substitute(s.as_str()) {
                            Ok(t) => t,
                            Err(e) => return Err(substitution_error(e)),
                        };
                        let k2 = match base {
                            Some(b) => join_path_exec(b, k.as_str()),
                            None => k.clone(),
                        };
                        out.push((k2, t));
                    },
                    _ => {
                        assert(!((entries@[i as int]).0 is Str && entries@[i as int].1 is Str));
                        return Err(SpecError::WrongType(copy_str(key)));
                    },
                }
                i = i + 1;
            }
            assert(crate::variables::pairs_view(out@) =~= map_entries(entries@, *vars, gb));
            Ok(Some(out))
        },
        Some(_) => Err(SpecError::WrongType(copy_str(key))),
    }
}

pub fn read_port(v: &YamlValue, key: &str, vars: &Variables) -> (r: Result<Option<u16>, SpecError>)
    ensures
        match r {
            Ok(o) => port_field(*v, key@, *vars) == Some(o),
            Err(_) => port_field(*v, key@, *vars) is None,
        },
{
    match v.get(key) {
        None => Ok(None),
        Some(YamlValue::Int(n)) => {
            if 0 <= *n && *n <= 65535 {
                Ok(Some(*n as u16))
            } else {
                Err(SpecError::InvalidPort(copy_str(key)))
            }
        },
        Some(YamlValue::Str(s)) => match vars.substitute(s.as_str()) {
            Ok(t) => match parse_u16(t.as_str()) {
                Some(p) => Ok(Some(p)),
                None => Err(SpecError::InvalidPort(copy_str(key))),
            },
            Err(e) => Err(substitution_error(e)),
        },
        Some(_) => Err(SpecError::InvalidPort(copy_str(key))),
    }
}

pub fn read_count(v: &YamlValue, key: &str) -> (r: Result<Option<u64>, SpecError>)
    ensures
        match r {
            Ok(o) => count_field(*v, key@) == Some(o),
            Err(_) => count_field(*v, key@) is None,
        },
{
    match v.get(key) {
        None => Ok(None),
        Some(YamlValue::Int(n)) => {
            if 0 <= *n && *n <= 0xffff_ffff_ffff_ffff {
                Ok(Some(*n as u64))
            } else {
                Err(SpecError::WrongType(copy_str(key)))
            }
        },
        Some(_) => Err(SpecError::WrongType(copy_str(key))),
    }
}

} // verus!
