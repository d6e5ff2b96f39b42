//! The attribute policy: which attributes this provider supplies, and the
//! value that each of them resolves to.

use vstd::prelude::*;
use crate::codec::{lemma_names_view, names_view};
use crate::error::ConfigError;

verus! {

broadcast use lemma_names_view;

/// Process-wide configuration, read-only once loaded.
pub struct Config {
    /// The public base URL of this provider, without a trailing slash.
    pub server_url: String,
    /// Whether results carry a URL for session activity reports.
    pub with_session: bool,
    /// The supported attributes, each with the value it resolves to; where a
    /// name occurs twice the first entry counts.
    pub attributes: Vec<(String, String)>,
}

/// The value that `name` resolves to in `table`, if the table has it.
pub open spec fn lookup(table: Seq<(String, String)>, name: Seq<char>) -> Option<Seq<char>>
    decreases table.len(),
{
    if table.len() == 0 {
        None
    } else if table[0].0@ == name {
        Some(table[0].1@)
    } else {
        lookup(table.drop_first(), name)
    }
}

/// Every requested name is one that the table has.
pub open spec fn all_supported(table: Seq<(String, String)>, names: Seq<Seq<char>>) -> bool {
    forall|i: int| 0 <= i < names.len() ==> (#[trigger] lookup(table, names[i])) is Some
}

/// `name` is the first requested name that the table lacks.
pub open spec fn is_first_unknown(
    table: Seq<(String, String)>,
    names: Seq<Seq<char>>,
    name: Seq<char>,
) -> bool {
    exists|k: int|
        0 <= k < names.len() && names[k] == name && lookup(table, name) is None && forall|j: int|
            0 <= j < k ==> (#[trigger] lookup(table, names[j])) is Some
}

/// `resolved` pairs each requested name, in order, with its value.
pub open spec fn resolves_to(
    table: Seq<(String, String)>,
    names: Seq<Seq<char>>,
    resolved: Seq<(String, String)>,
) -> bool {
    &&& resolved.len() == names.len()
    &&& forall|i: int|
        0 <= i < names.len() ==> #[trigger] resolved[i].0@ == names[i] && lookup(
            table,
            names[i],
        ) == Some(resolved[i].1@)
}

proof fn lemma_lookup_suffix(table: Seq<(String, String)>, i: int, name: Seq<char>)
    requires
        0 <= i < table.len(),
    ensures
        table.subrange(i, table.len() as int)[0] == table[i],
        table.subrange(i, table.len() as int).drop_first() =~= table.subrange(
            i + 1,
            table.len() as int,
        ),
{
}

impl Config {
    /// The value that `name` resolves to, if this provider supports it.
    pub fn lookup(&self, name: &String) -> (r: Option<String>)
        ensures
            match r {
                Some(v) => lookup(self.attributes@, name@) == Some(v@),
                None => lookup(self.attributes@, name@) is None,
            },
    {
        let n = self.attributes.len();
        let mut i: usize = 0;
        proof {
            assert(self.attributes@.subrange(0, n as int) =~= self.attributes@);
        }
        while i < n
            invariant
                n == self.attributes@.len(),
                0 <= i <= n,
                lookup(self.attributes@, name@) == lookup(
                    self.attributes@.subrange(i as int, n as int),
                    name@,
                ),
            decreases n - i,
        {
            proof {
                lemma_lookup_suffix(self.attributes@, i as int, name@);
            }
            if self.attributes[i].0 == *name {
                return Some(self.attributes[i].1.clone());
            }
            i = i + 1;
        }
        None
    }

    /// Checks that every requested attribute is supported; otherwise names the
    /// first one that is not.
    pub fn verify_attributes(&self, names: &Vec<String>) -> (r: Result<(), ConfigError>)
        ensures
            r is Ok <==> all_supported(self.attributes@, names_view(names@)),
            match r {
                Ok(_) => true,
                Err(ConfigError::UnknownAttribute(n)) => is_first_unknown(
                    self.attributes@,
                    names_view(names@),
                    n@,
                ),
            },
    {
        let mut i: usize = 0;
        while i < names.len()
            invariant
                0 <= i <= names@.len(),
                forall|j: int| 0 <= j < i ==> (#[trigger] lookup(self.attributes@, names_view(names@)[j])) is Some,
            decreases names@.len() - i,
        {
            if self.lookup(&names[i]).is_none() {
                assert(names_view(names@)[i as int] == names@[i as int]@);
                return Err(ConfigError::UnknownAttribute(names[i].clone()));
            }
            i = i + 1;
        }
        Ok(())
    }

    /// Resolves every requested attribute, in order; fails as
    /// `verify_attributes` does.
    pub fn map_attributes(&self, names: &Vec<String>) -> (r: Result<
        Vec<(String, String)>,
        ConfigError,
    >)
        ensures
            r is Ok <==> all_supported(self.attributes@, names_view(names@)),
            match r {
                Ok(v) => resolves_to(self.attributes@, names_view(names@), v@),
                Err(ConfigError::UnknownAttribute(n)) => is_first_unknown(
                    self.attributes@,
                    names_view(names@),
                    n@,
                ),
            },
    {
        let mut resolved: Vec<(String, String)> = Vec::new();
        let mut i: usize = 0;
        while i < names.len()
            invariant
                0 <= i <= names@.len(),
                resolves_to(self.attributes@, names_view(names@.subrange(0, i as int)), resolved@),
                forall|j: int| 0 <= j < i ==> (#[trigger] lookup(self.attributes@, names_view(names@)[j])) is Some,
            decreases names@.len() - i,
        {
            match self.lookup(&names[i]) {
                Some(v) => {
                    assert(names_view(names@)[i as int] == names@[i as int]@);
                    resolved.push((names[i].clone(), v));
                },
                None => {
                    assert(names_view(names@)[i as int] == names@[i as int]@);
                    assert(is_first_unknown(self.attributes@, names_view(names@), names@[i as int]@));
                    return Err(ConfigError::UnknownAttribute(names[i].clone()));
                },
            }
            i = i + 1;
            assert(forall|j: int|
                0 <= j < i - 1 ==> names@.subrange(0, i as int)[j] == names@.subrange(
                    0,
                    i - 1,
                )[j]);
            assert(forall|j: int|
                0 <= j < i ==> names_view(names@.subrange(0, i as int))[j] == names@[j]@);
        }
        assert(names@.subrange(0, names@.len() as int) =~= names@);
        assert(forall|j: int|
            0 <= j < names@.len() ==> names_view(names@)[j] == names@[j]@);
        Ok(resolved)
    }
}

} // verus!
