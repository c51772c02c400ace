use vstd::prelude::*;
use crate::text::str_eq;

verus! {

/// One configured collection: the backing table, its id and geometry
/// columns, and the property columns the API exposes, in order. Names are
/// trusted, pre-validated SQL identifiers.
#[derive(Clone, Debug)]
pub struct CollectionConfig {
    pub table: String,
    pub id_column: String,
    pub geometry_column: String,
    pub properties: Vec<String>,
}

/// The process-wide configuration: service metadata and the mapping from
/// collection name to its configuration, loaded once at startup and shared
/// read-only afterwards. Entry order carries no meaning; a name designates
/// the first entry bearing it.
#[derive(Debug)]
pub struct AppConfig {
    pub title: String,
    pub description: String,
    pub url_base: String,
    pub collections: Vec<(String, CollectionConfig)>,
}

/// The configuration a collection name designates, if any.
pub open spec fn spec_lookup(
    entries: Seq<(String, CollectionConfig)>,
    id: Seq<char>,
) -> Option<CollectionConfig>
    decreases entries.len(),
{
    if entries.len() == 0 {
        None
    } else if entries[0].0@ == id {
        Some(entries[0].1)
    } else {
        spec_lookup(entries.drop_first(), id)
    }
}

impl AppConfig {
    /// Well-formed configuration: collection names are unique, as loading
    /// them from a name-keyed mapping gives. Lookup then finds the only
    /// entry bearing a name, and the collections listing repeats no name.
    pub open spec fn wf(&self) -> bool {
        forall|i: int, j: int|
            0 <= i < j < self.collections@.len() ==> (#[trigger] self.collections@[i]).0@ != (
            #[trigger] self.collections@[j]).0@
    }

    /// Finds the configuration of a named collection.
    pub fn get_collection(&self, id: &str) -> (r: Option<&CollectionConfig>)
        ensures
            match r {
                Some(c) => spec_lookup(self.collections@, id@) == Some(*c),
                None => spec_lookup(self.collections@, id@) is None,
            },
    {
        let n = self.collections.len();
        let mut i: usize = 0;
        proof {
            assert(self.collections@.skip(0) =~= self.collections@);
        }
        while i < n
            invariant
                0 <= i <= n,
                n == self.collections@.len(),
                spec_lookup(self.collections@, id@) == spec_lookup(
                    self.collections@.skip(i as int),
                    id@,
                ),
            decreases n - i,
        {
            if str_eq(self.collections[i].0.as_str(), id) {
                proof {
                    assert(self.collections@.skip(i as int)[0] == self.collections@[i as int]);
                }
                return Some(&self.collections[i].1);
            }
            proof {
                assert(self.collections@.skip(i as int).drop_first() =~= self.collections@.skip(
                    i + 1,
                ));
            }
            i += 1;
        }
        proof {
            assert(self.collections@.skip(n as int) =~= Seq::<(
                String,
                CollectionConfig,
            )>::empty());
        }
        None
    }

    /// Whether a collection of the given name is configured.
    pub fn contains_collection(&self, id: &str) -> (r: bool)
        ensures
            r == (spec_lookup(self.collections@, id@) is Some),
    {
        self.get_collection(id).is_some()
    }
}

} // verus!
