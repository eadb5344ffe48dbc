//! The mapping from source types to GraphQL custom scalars.
use vstd::prelude::*;

verus! {

/// A source type that a custom scalar stands for: a global type name, or a
/// name exported by a module.
#[derive(Debug)]
pub enum CustomType {
    Name(String),
    Path { name: String, path: String },
}

impl Clone for CustomType {
    fn clone(&self) -> (r: Self)
        ensures
            r == *self,
    {
        match self {
            CustomType::Name(n) => CustomType::Name(n.clone()),
            CustomType::Path { name, path } => CustomType::Path { name: name.clone(), path: path.clone() },
        }
    }
}

/// Two custom types denote the same source type.
pub open spec fn custom_type_matches(a: CustomType, b: CustomType) -> bool {
    match (a, b) {
        (CustomType::Name(x), CustomType::Name(y)) => x@ == y@,
        (CustomType::Path { name: n1, path: p1 }, CustomType::Path { name: n2, path: p2 }) => n1@
            == n2@ && p1@ == p2@,
        _ => false,
    }
}

fn custom_types_match(a: &CustomType, b: &CustomType) -> (r: bool)
    ensures
        r == custom_type_matches(*a, *b),
{
    match (a, b) {
        (CustomType::Name(x), CustomType::Name(y)) => *x == *y,
        (CustomType::Path { name: n1, path: p1 }, CustomType::Path { name: n2, path: p2 }) => *n1
            == *n2 && *p1 == *p2,
        _ => false,
    }
}

/// The scalar of the last entry whose source type matches `key`.
pub open spec fn last_scalar(entries: Seq<(CustomType, String)>, key: CustomType) -> Option<String>
    decreases entries.len(),
{
    if entries.len() == 0 {
        None
    } else if custom_type_matches(entries.last().0, key) {
        Some(entries.last().1)
    } else {
        last_scalar(entries.drop_last(), key)
    }
}

/// Source types mapped to the names of GraphQL scalars. Where a source type
/// occurs twice, the later entry holds.
#[derive(Debug)]
pub struct CustomScalarMap {
    pub entries: Vec<(CustomType, String)>,
}

impl CustomScalarMap {
    pub open spec fn spec_get(&self, key: CustomType) -> Option<String> {
        last_scalar(self.entries@, key)
    }

    pub fn new() -> (r: CustomScalarMap)
        ensures
            r.entries@.len() == 0,
    {
        CustomScalarMap { entries: Vec::new() }
    }

    /// The entries of the map that inverts `custom_scalar_types`.
    pub open spec fn invert_spec(custom_scalar_types: Seq<(String, CustomType)>) -> Seq<(CustomType, String)> {
        custom_scalar_types.map_values(|e: (String, CustomType)| (e.1, e.0))
    }

    /// Turns a map from scalar names to source types around.
    pub fn invert(custom_scalar_types: &Vec<(String, CustomType)>) -> (r: CustomScalarMap)
        ensures
            r.entries@ == Self::invert_spec(custom_scalar_types@),
    {
        let mut entries: Vec<(CustomType, String)> = Vec::new();
        let mut i: usize = 0;
        while i < custom_scalar_types.len()
            invariant
                i <= custom_scalar_types@.len(),
                entries@.len() == i,
                forall|j: int|
                    0 <= j < i ==> #[trigger] entries@[j] == (
                        custom_scalar_types@[j].1,
                        custom_scalar_types@[j].0,
                    ),
            decreases custom_scalar_types@.len() - i,
        {
            let entry = &custom_scalar_types[i];
            entries.push((entry.1.clone(), entry.0.clone()));
            i = i + 1;
        }
        assert(entries@ =~= Self::invert_spec(custom_scalar_types@));
        CustomScalarMap { entries }
    }

    pub fn get(&self, key: &CustomType) -> (r: Option<&String>)
        ensures
            crate::resolution::deref_option(r) == self.spec_get(*key),
    {
        let mut i: usize = self.entries.len();
        assert(self.entries@.take(i as int) =~= self.entries@);
        while i > 0
            invariant
                i <= self.entries@.len(),
                self.spec_get(*key) == last_scalar(self.entries@.take(i as int), *key),
            decreases i,
        {
            proof {
                assert(self.entries@.take(i as int).drop_last() =~= self.entries@.take(i - 1));
            }
            if custom_types_match(&self.entries[i - 1].0, key) {
                return Some(&self.entries[i - 1].1);
            }
            i = i - 1;
        }
        None
    }
}

} // verus!
