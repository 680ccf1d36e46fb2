//! A YAML document as plain values: what the manifest loader reads.
use vstd::prelude::*;
use crate::text::{str_eq};

verus! {

/// One node of a parsed YAML document.
pub enum YamlValue {
    Null,
    Bool(bool),
    /// An integer, signed or not.
    Int(i128),
    /// A number with a fraction or an exponent, as written.
    Decimal(String),
    Str(String),
    Sequence(Vec<YamlValue>),
    /// Entries in document order.
    Mapping(Vec<(YamlValue, YamlValue)>),
}

/// The value of the first entry whose key is the string `key`.
pub open spec fn entry_lookup(entries: Seq<(YamlValue, YamlValue)>, key: Seq<char>) -> Option<
    YamlValue,
>
    decreases entries.len(),
{
    if entries.len() == 0 {
        None
    } else if entries[0].0 is Str && entries[0].0->Str_0@ == key {
        Some(entries[0].1)
    } else {
        entry_lookup(entries.drop_first(), key)
    }
}

impl YamlValue {
    /// The value under `key` when this node is a mapping.
    pub open spec fn field(&self, key: Seq<char>) -> Option<YamlValue> {
        match self {
            YamlValue::Mapping(entries) => entry_lookup(entries@, key),
            _ => None,
        }
    }

    pub fn get(&self, key: &str) -> (r: Option<&YamlValue>)
        ensures
            match r {
                Some(v) => self.field(key@) == Some(*v),
                None => self.field(key@) is None,
            },
    {
        match self {
            YamlValue::Mapping(entries) => {
                let mut i: usize = 0;
                assert(entries@.subrange(0, entries@.len() as int) =~= entries@);
                while i < entries.len()
                    invariant
                        i <= entries.len(),
                        self.field(key@) == entry_lookup(entries@, key@),
                        entry_lookup(entries@, key@) == entry_lookup(
                            entries@.subrange(i as int, entries@.len() as int),
                            key@,
                        ),
                    decreases entries.len() - i,
                {
                    let ghost rest = entries@.subrange(i as int, entries@.len() as int);
                    assert(rest.drop_first() =~= entries@.subrange(i + 1, entries@.len() as int));
                    match &entries[i].0 {
                        YamlValue::Str(k) => {
                            assert(rest[0] == entries@[i as int]);
                            if str_eq(k.as_str(), key) {
                                assert(entry_lookup(rest, key@) == Some(entries@[i as int].1));
                                return Some(&entries[i].1);
                            }
                        },
                        _ => {},
                    }
                    i = i + 1;
                }
                None
            },
            _ => None,
        }
    }
}

} // verus!
