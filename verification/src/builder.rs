//! Validating constructors for the primitive operators.  Each one checks the
//! operator's internal invariant against the schema its input advertises and
//! caches the schema the operator produces, as the engine's builders do.

use vstd::prelude::*;

use crate::expr::{exprs_refs_ok, name_views, names_of, output_names, Expr};
use crate::plan::{
    aggregate_ok, distinct_on_ok, projection_ok, schema_of, window_ok, Error, Plan,
};

verus! {

/// A copy of a list of column names.
pub fn clone_names(v: &Vec<String>) -> (r: Vec<String>)
    ensures
        r@ == v@,
{
    let mut r: Vec<String> = Vec::new();
    let mut i: usize = 0;
    while i < v.len()
        invariant
            0 <= i <= v.len(),
            r@.len() == i,
            forall|k: int| 0 <= k < i ==> r@[k] == v@[k],
        decreases v.len() - i,
    {
        r.push(v[i].clone());
        i = i + 1;
    }
    proof {
        assert(r@ =~= v@);
    }
    r
}

/// The column names a plan advertises, as executable data.
pub fn output_schema(p: &Plan) -> (r: Vec<String>)
    ensures
        name_views(r@) == schema_of(*p),
    decreases *p,
{
    match p {
        Plan::Projection { schema, .. } => clone_names(schema),
        Plan::SubqueryAlias { schema, .. } => clone_names(schema),
        Plan::Aggregate { schema, .. } => clone_names(schema),
        Plan::DistinctOn { schema, .. } => clone_names(schema),
        Plan::Window { schema, .. } => clone_names(schema),
        Plan::Filter { input, .. } => output_schema(input),
        Plan::TableScan { source_columns, .. } => clone_names(source_columns),
        Plan::EmptyRelation { schema } => clone_names(schema),
        Plan::Extension { node } => match node {
            crate::plan::ExtensionNode::Model(mn) => output_names(&mn.required_exprs),
            crate::plan::ExtensionNode::ModelSource(ms) => output_names(&ms.required_exprs),
            crate::plan::ExtensionNode::Calculation(c) => {
                let mut s = output_names(&c.dimensions);
                let mut t = output_names(&c.measures);
                s.append(&mut t);
                proof {
                    assert(name_views(s@) =~= names_of(c.dimensions@) + names_of(c.measures@));
                }
                s
            },
            crate::plan::ExtensionNode::PartialModel(pm) => clone_names(&pm.required_schema),
            crate::plan::ExtensionNode::Unrecognized { name: _, schema } => clone_names(schema),
        },
    }
}

/// Builds a projection of `input` to `exprs`, re-validating that every
/// expression reads a column the input exposes.
pub fn try_projection(exprs: Vec<Expr>, input: Box<Plan>) -> (r: Result<Plan, Error>)
    ensures
        r is Ok <==> projection_ok(exprs@, schema_of(*input)),
        !projection_ok(exprs@, schema_of(*input)) ==> r == Err::<Plan, Error>(
            Error::ColumnNotFound,
        ),
        r matches Ok(p) ==> (p matches Plan::Projection { exprs: e2, input: i2, schema: s2 }
            && e2 == exprs && i2 == input && name_views(s2@) == names_of(exprs@)),
{
    let schema_in = output_schema(&input);
    if exprs_refs_ok(&exprs, &schema_in) {
        let schema = output_names(&exprs);
        Ok(Plan::Projection { exprs, input, schema })
    } else {
        Err(Error::ColumnNotFound)
    }
}

/// Names `input` as a relation called `alias`.
pub fn alias_plan(input: Box<Plan>, alias: String) -> (r: Plan)
    ensures
        r matches Plan::SubqueryAlias { input: i2, alias: a2, schema: s2 } ==> (i2 == input && a2
            == alias && name_views(s2@) == schema_of(*input)),
        r is SubqueryAlias,
{
    let schema = output_schema(&input);
    Plan::SubqueryAlias { input, alias, schema }
}

/// Builds an aggregation of `input` grouped by `group_exprs`, re-validating
/// the expression sets.
pub fn try_aggregate(input: Box<Plan>, group_exprs: Vec<Expr>, aggr_exprs: Vec<Expr>) -> (r: Result<
    Plan,
    Error,
>)
    ensures
        r is Ok <==> aggregate_ok(group_exprs@, aggr_exprs@, schema_of(*input)),
        group_exprs@.len() == 0 && aggr_exprs@.len() == 0 ==> r == Err::<Plan, Error>(
            Error::EmptyAggregate,
        ),
        (group_exprs@.len() > 0 || aggr_exprs@.len() > 0) && !aggregate_ok(
            group_exprs@,
            aggr_exprs@,
            schema_of(*input),
        ) ==> r == Err::<Plan, Error>(Error::ColumnNotFound),
        r matches Ok(p) ==> (p matches Plan::Aggregate {
            input: i2,
            group_exprs: g2,
            aggr_exprs: a2,
            schema: s2,
        } && i2 == input && g2 == group_exprs && a2 == aggr_exprs && name_views(s2@) == names_of(
            group_exprs@,
        ) + names_of(aggr_exprs@)),
{
    if group_exprs.len() == 0 && aggr_exprs.len() == 0 {
        return Err(Error::EmptyAggregate);
    }
    let schema_in = output_schema(&input);
    if !exprs_refs_ok(&group_exprs, &schema_in) || !exprs_refs_ok(&aggr_exprs, &schema_in) {
        return Err(Error::ColumnNotFound);
    }
    let mut schema = output_names(&group_exprs);
    let mut tail = output_names(&aggr_exprs);
    schema.append(&mut tail);
    proof {
        assert(name_views(schema@) =~= names_of(group_exprs@) + names_of(aggr_exprs@));
    }
    Ok(Plan::Aggregate { input, group_exprs, aggr_exprs, schema })
}

/// Builds a distinct-on over `input`, re-validating the expression sets.
pub fn try_distinct_on(
    on_exprs: Vec<Expr>,
    select_exprs: Vec<Expr>,
    sort_exprs: Vec<Expr>,
    input: Box<Plan>,
) -> (r: Result<Plan, Error>)
    ensures
        r is Ok <==> distinct_on_ok(on_exprs@, select_exprs@, schema_of(*input)),
        on_exprs@.len() == 0 ==> r == Err::<Plan, Error>(Error::EmptyDistinctOn),
        on_exprs@.len() > 0 && !distinct_on_ok(on_exprs@, select_exprs@, schema_of(*input)) ==> r
            == Err::<Plan, Error>(Error::ColumnNotFound),
        r matches Ok(p) ==> (p matches Plan::DistinctOn {
            on_exprs: o2,
            select_exprs: se2,
            sort_exprs: so2,
            input: i2,
            schema: s2,
        } && o2 == on_exprs && se2 == select_exprs && so2 == sort_exprs && i2 == input
            && name_views(s2@) == names_of(select_exprs@)),
{
    if on_exprs.len() == 0 {
        return Err(Error::EmptyDistinctOn);
    }
    let schema_in = output_schema(&input);
    if !exprs_refs_ok(&on_exprs, &schema_in) || !exprs_refs_ok(&select_exprs, &schema_in) {
        return Err(Error::ColumnNotFound);
    }
    let schema = output_names(&select_exprs);
    Ok(Plan::DistinctOn { on_exprs, select_exprs, sort_exprs, input, schema })
}

/// Builds a window over `input`, re-validating the window expressions.
pub fn try_window(window_exprs: Vec<Expr>, input: Box<Plan>) -> (r: Result<Plan, Error>)
    ensures
        r is Ok <==> window_ok(window_exprs@, schema_of(*input)),
        !window_ok(window_exprs@, schema_of(*input)) ==> r == Err::<Plan, Error>(
            Error::ColumnNotFound,
        ),
        r matches Ok(p) ==> (p matches Plan::Window { input: i2, window_exprs: w2, schema: s2 }
            && i2 == input && w2 == window_exprs && name_views(s2@) == schema_of(*input)
            + names_of(window_exprs@)),
{
    let schema_in = output_schema(&input);
    if !exprs_refs_ok(&window_exprs, &schema_in) {
        return Err(Error::ColumnNotFound);
    }
    let mut schema = schema_in;
    let mut tail = output_names(&window_exprs);
    schema.append(&mut tail);
    proof {
        assert(name_views(schema@) =~= schema_of(*input) + names_of(window_exprs@));
    }
    Ok(Plan::Window { input, window_exprs, schema })
}

} // verus!
