//! The resolved semantic manifest: named models, each backed by a physical
//! table reference and a set of columns.  The manifest is immutable once
//! analyzed and shared across rewrites; the rule only looks models up.

use vstd::prelude::*;
use vstd::string::StringExecFns;

verus! {

/// A semantic model: a named logical relation backed by a physical table.
#[derive(Debug)]
pub struct Model {
    /// The model's name, unique within the manifest.
    pub name: String,
    /// Where the backing table physically lives.
    pub table_reference: String,
    /// The names of the columns the backing table exposes.
    pub columns: Vec<String>,
}

impl Model {
    /// The model's name.
    pub fn name(&self) -> (r: &String)
        ensures
            r@ == self.name@,
    {
        &self.name
    }
}

/// The semantic manifest: the models the metadata store can resolve.
#[derive(Debug)]
pub struct WrenMDL {
    /// All models of the manifest, in declaration order.
    pub models: Vec<Model>,
}

/// The first model of `models` named `name`, if any.
pub open spec fn lookup_model(models: Seq<Model>, name: Seq<char>) -> Option<Model>
    decreases models.len(),
{
    if models.len() == 0 {
        None
    } else if models[0].name@ == name {
        Some(models[0])
    } else {
        lookup_model(models.drop_first(), name)
    }
}

impl WrenMDL {
    /// Resolves a model name to its model, or nothing when the manifest does
    /// not know the name.
    pub fn get_model(&self, name: &String) -> (r: Option<&Model>)
        ensures
            match r {
                Some(m) => lookup_model(self.models@, name@) == Some(*m),
                None => lookup_model(self.models@, name@) is None,
            },
    {
        let mut i: usize = 0;
        proof {
            assert(self.models@.skip(0) =~= self.models@);
        }
        while i < self.models.len()
            invariant
                0 <= i <= self.models.len(),
                lookup_model(self.models@.skip(i as int), name@) == lookup_model(
                    self.models@,
                    name@,
                ),
            decreases self.models.len() - i,
        {
            proof {
                assert(self.models@.skip(i as int)[0] == self.models@[i as int]);
            }
            if self.models[i].name.eq(name) {
                return Some(&self.models[i]);
            }
            proof {
                assert(self.models@.skip(i as int).drop_first() =~= self.models@.skip(i + 1));
            }
            i = i + 1;
        }
        proof {
            assert(self.models@.skip(i as int).len() == 0);
        }
        None
    }
}

/// The analyzed manifest handed to every rewrite of one metadata snapshot.
#[derive(Debug)]
pub struct AnalyzedWrenMDL {
    /// The manifest itself.
    pub wren_mdl: WrenMDL,
}

impl AnalyzedWrenMDL {
    /// The manifest.
    pub fn wren_mdl(&self) -> (r: &WrenMDL)
        ensures
            r == &self.wren_mdl,
    {
        &self.wren_mdl
    }
}

/// The columns a remote table source exposes for scanning a model's backing
/// table: the model's own column set.
pub fn create_remote_table_source(model: &Model) -> (r: Vec<String>)
    ensures
        r@ == model.columns@,
{
    crate::builder::clone_names(&model.columns)
}

/// `s` wrapped in double quotes, as models and calculations are named when
/// they stand for a relation.
pub open spec fn quoted_view(s: Seq<char>) -> Seq<char> {
    "\""@ + s + "\""@
}

/// Wraps a name in double quotes.
pub fn quoted(s: &String) -> (r: String)
    ensures
        r@ == quoted_view(s@),
{
    let mut r = String::from_str("\"");
    r.append(s.as_str());
    r.append("\"");
    r
}

} // verus!
