//! The model-generation rule: expands each semantic extension node into
//! primitive relational operators, re-validates primitive operators it meets,
//! and passes every other node through unchanged.
//!
//! The spec functions `gen_outcome`, `gen_schema`, `up_outcome` and
//! `up_schema` say, for the rule applied to one node and for the bottom-up
//! traversal over a whole tree, exactly when the rewrite succeeds, with which
//! error it fails, and which columns the result exposes.

use std::sync::Arc;

use vstd::prelude::*;

use crate::builder::{alias_plan, try_aggregate, try_distinct_on, try_projection, try_window};
use crate::expr::{
    base_ref, expr_output_name, expr_render, name_views, names_of, refs_ok, render_expr, Expr,
};
use crate::mdl::{create_remote_table_source, lookup_model, quoted, quoted_view, AnalyzedWrenMDL};
use crate::plan::{
    aggregate_ok, chain_height, distinct_on_ok, doomed, ext_height, is_semantic, plan_height,
    projection_ok, resolved, rule_transforms, schema_of, schemas_ok, sem_measure,
    top_not_semantic, valid_all, window_ok, CalculationPlanNode, Error, ExtensionNode,
    ModelPlanNode, ModelSourceNode, PartialModelPlanNode, Plan, RelationChain, Transformed,
};

verus! {

/// The columns the aggregation built for a calculation exposes: the
/// dimensions' names followed by the unaliased first measure's name.
pub open spec fn calc_agg_schema(c: CalculationPlanNode) -> Seq<Seq<char>> {
    match c.measures@[0] {
        Expr::Alias { expr: inner, name: _ } => names_of(c.dimensions@) + names_of(seq![*inner]),
        _ => Seq::empty(),
    }
}

/// The error expanding a calculation reports once its relation chain has
/// resolved without error: `has_source` says whether the chain produced a
/// plan, and `src_schema` which columns that plan exposes.
pub open spec fn calc_outcome(
    c: CalculationPlanNode,
    has_source: bool,
    src_schema: Seq<Seq<char>>,
) -> Option<Error> {
    if c.measures@.len() == 0 {
        Some(Error::MeasureWithoutAlias)
    } else {
        match c.measures@[0] {
            Expr::Alias { expr: inner, name: _ } => if c.dimensions@.len() == 0 {
                Some(Error::MissingDimension)
            } else if !has_source {
                Some(Error::FailedSourcePlan)
            } else if !aggregate_ok(c.dimensions@, seq![*inner], src_schema) {
                Some(Error::ColumnNotFound)
            } else if refs_ok(c.dimensions@[0], calc_agg_schema(c)) && calc_agg_schema(c).contains(
                expr_render(*inner),
            ) {
                None
            } else {
                Some(Error::ColumnNotFound)
            },
            _ => Some(Error::MeasureWithoutAlias),
        }
    }
}

/// The error the rule reports when applied to the root of `p`, or nothing
/// when it succeeds there.  Resolving a semantic node resolves its relation
/// chain bottom-up first, so this is mutually defined with `up_outcome`.
pub open spec fn gen_outcome(m: AnalyzedWrenMDL, p: Plan) -> Option<Error>
    decreases plan_height(p), 0nat,
{
    match p {
        Plan::Projection { exprs, input, .. } => if projection_ok(exprs@, schema_of(*input)) {
            None
        } else {
            Some(Error::ColumnNotFound)
        },
        Plan::SubqueryAlias { .. } => None,
        Plan::Aggregate { input, group_exprs, aggr_exprs, .. } => if group_exprs@.len() == 0
            && aggr_exprs@.len() == 0 {
            Some(Error::EmptyAggregate)
        } else if !aggregate_ok(group_exprs@, aggr_exprs@, schema_of(*input)) {
            Some(Error::ColumnNotFound)
        } else {
            None
        },
        Plan::DistinctOn { on_exprs, select_exprs, input, .. } => if on_exprs@.len() == 0 {
            Some(Error::EmptyDistinctOn)
        } else if !distinct_on_ok(on_exprs@, select_exprs@, schema_of(*input)) {
            Some(Error::ColumnNotFound)
        } else {
            None
        },
        Plan::Window { input, window_exprs, .. } => if window_ok(
            window_exprs@,
            schema_of(*input),
        ) {
            None
        } else {
            Some(Error::ColumnNotFound)
        },
        Plan::Filter { .. } => None,
        Plan::TableScan { .. } => None,
        Plan::EmptyRelation { .. } => None,
        Plan::Extension { node } => match node {
            ExtensionNode::Unrecognized { .. } => None,
            ExtensionNode::Model(mn) => match mn.relation_chain.source {
                None => Some(Error::FailedSourcePlan),
                Some(s) => {
                    proof {
                        assert(chain_height(mn.relation_chain) == 1 + plan_height(*s));
                        assert(ext_height(node) == 1 + chain_height(mn.relation_chain));
                        assert(plan_height(p) == 1 + ext_height(node));
                    }
                    match up_outcome(m, *s) {
                        Some(e) => Some(e),
                        None => if mn.required_exprs@.len() == 0 {
                            None
                        } else if projection_ok(mn.required_exprs@, up_schema(m, *s)) {
                            None
                        } else {
                            Some(Error::ColumnNotFound)
                        },
                    }
                },
            },
            ExtensionNode::ModelSource(ms) => match lookup_model(
                m.wren_mdl.models@,
                ms.model_name@,
            ) {
                None => Some(Error::ModelNotFound),
                Some(model) => if (match ms.original_table_scan {
                    Some(orig) => !(*orig is TableScan),
                    None => false,
                }) {
                    Some(Error::InvalidTableScan)
                } else if ms.required_exprs@.len() == 0 {
                    None
                } else if projection_ok(ms.required_exprs@, name_views(model.columns@)) {
                    None
                } else {
                    Some(Error::ColumnNotFound)
                },
            },
            ExtensionNode::Calculation(c) => {
                proof {
                    assert(ext_height(node) == 1 + chain_height(c.relation_chain));
                    assert(plan_height(p) == 1 + ext_height(node));
                    assert(c.relation_chain.source matches Some(s2) ==> chain_height(
                        c.relation_chain,
                    ) == 1 + plan_height(*s2));
                }
                let chain_err = match c.relation_chain.source {
                    Some(s) => up_outcome(m, *s),
                    None => None,
                };
                match chain_err {
                    Some(e) => Some(e),
                    None => match c.relation_chain.source {
                        None => calc_outcome(c, false, Seq::empty()),
                        Some(s) => calc_outcome(c, true, up_schema(m, *s)),
                    },
                }
            },
            ExtensionNode::PartialModel(pm) => {
                if forall|i: int|
                    0 <= i < pm.required_schema@.len() ==> names_of(
                        pm.model_node.required_exprs@,
                    ).contains(#[trigger] pm.required_schema@[i]@) {
                    None
                } else {
                    Some(Error::ColumnNotFound)
                }
            },
        },
    }
}

/// The columns the rule's replacement for the root of `p` exposes, when the
/// rule succeeds there.
pub open spec fn gen_schema(m: AnalyzedWrenMDL, p: Plan) -> Seq<Seq<char>>
    decreases plan_height(p), 0nat,
{
    match p {
        Plan::Projection { exprs, .. } => names_of(exprs@),
        Plan::SubqueryAlias { input, .. } => schema_of(*input),
        Plan::Aggregate { group_exprs, aggr_exprs, .. } => names_of(group_exprs@) + names_of(
            aggr_exprs@,
        ),
        Plan::DistinctOn { select_exprs, .. } => names_of(select_exprs@),
        Plan::Window { input, window_exprs, .. } => schema_of(*input) + names_of(window_exprs@),
        Plan::Filter { .. } => schema_of(p),
        Plan::TableScan { .. } => schema_of(p),
        Plan::EmptyRelation { .. } => schema_of(p),
        Plan::Extension { node } => match node {
            ExtensionNode::Unrecognized { name: _, schema } => name_views(schema@),
            ExtensionNode::Model(mn) => if mn.required_exprs@.len() > 0 {
                names_of(mn.required_exprs@)
            } else {
                match mn.relation_chain.source {
                    Some(s) => {
                        proof {
                            assert(chain_height(mn.relation_chain) == 1 + plan_height(*s));
                            assert(ext_height(node) == 1 + chain_height(mn.relation_chain));
                            assert(plan_height(p) == 1 + ext_height(node));
                        }
                        up_schema(m, *s)
                    },
                    None => Seq::empty(),
                }
            },
            ExtensionNode::ModelSource(ms) => if ms.required_exprs@.len() > 0 {
                names_of(ms.required_exprs@)
            } else {
                match lookup_model(m.wren_mdl.models@, ms.model_name@) {
                    Some(model) => name_views(model.columns@),
                    None => Seq::empty(),
                }
            },
            ExtensionNode::Calculation(c) => if c.measures@.len() > 0 && c.dimensions@.len() > 0 {
                match c.measures@[0] {
                    Expr::Alias { expr: _, name } => seq![
                        expr_output_name(c.dimensions@[0]),
                        name@,
                    ],
                    _ => Seq::empty(),
                }
            } else {
                Seq::empty()
            },
            ExtensionNode::PartialModel(pm) => name_views(pm.required_schema@),
        },
    }
}

/// The error the bottom-up traversal reports on `p`: children are rewritten
/// first, then the rule is applied to the rebuilt node.
pub open spec fn up_outcome(m: AnalyzedWrenMDL, p: Plan) -> Option<Error>
    decreases plan_height(p), 1nat,
{
    match p {
        Plan::Projection { exprs, input, .. } => match up_outcome(m, *input) {
            Some(e) => Some(e),
            None => if projection_ok(exprs@, up_schema(m, *input)) {
                None
            } else {
                Some(Error::ColumnNotFound)
            },
        },
        Plan::SubqueryAlias { input, .. } => up_outcome(m, *input),
        Plan::Aggregate { input, group_exprs, aggr_exprs, .. } => match up_outcome(m, *input) {
            Some(e) => Some(e),
            None => if group_exprs@.len() == 0 && aggr_exprs@.len() == 0 {
                Some(Error::EmptyAggregate)
            } else if !aggregate_ok(group_exprs@, aggr_exprs@, up_schema(m, *input)) {
                Some(Error::ColumnNotFound)
            } else {
                None
            },
        },
        Plan::DistinctOn { on_exprs, select_exprs, input, .. } => match up_outcome(m, *input) {
            Some(e) => Some(e),
            None => if on_exprs@.len() == 0 {
                Some(Error::EmptyDistinctOn)
            } else if !distinct_on_ok(on_exprs@, select_exprs@, up_schema(m, *input)) {
                Some(Error::ColumnNotFound)
            } else {
                None
            },
        },
        Plan::Window { input, window_exprs, .. } => match up_outcome(m, *input) {
            Some(e) => Some(e),
            None => if window_ok(window_exprs@, up_schema(m, *input)) {
                None
            } else {
                Some(Error::ColumnNotFound)
            },
        },
        Plan::Filter { input, .. } => up_outcome(m, *input),
        Plan::TableScan { .. } => None,
        Plan::EmptyRelation { .. } => None,
        Plan::Extension { .. } => gen_outcome(m, p),
    }
}

/// The columns the bottom-up traversal's result exposes, when it succeeds.
pub open spec fn up_schema(m: AnalyzedWrenMDL, p: Plan) -> Seq<Seq<char>>
    decreases plan_height(p), 1nat,
{
    match p {
        Plan::Projection { exprs, .. } => names_of(exprs@),
        Plan::SubqueryAlias { input, .. } => up_schema(m, *input),
        Plan::Aggregate { group_exprs, aggr_exprs, .. } => names_of(group_exprs@) + names_of(
            aggr_exprs@,
        ),
        Plan::DistinctOn { select_exprs, .. } => names_of(select_exprs@),
        Plan::Window { input, window_exprs, .. } => up_schema(m, *input) + names_of(window_exprs@),
        Plan::Filter { input, .. } => up_schema(m, *input),
        Plan::TableScan { source_columns, .. } => name_views(source_columns@),
        Plan::EmptyRelation { schema } => name_views(schema@),
        Plan::Extension { .. } => gen_schema(m, p),
    }
}

/// What the root of the bottom-up pass's output is for input `p`: each node
/// kind fixes its output's root constructor and defining fields, and a model
/// with no required columns hands its chain's resolved root through
/// untouched — no projection and no alias wrapper is added.
pub open spec fn up_root(m: AnalyzedWrenMDL, p: Plan, o: Plan) -> bool
    decreases plan_height(p),
{
    match p {
        Plan::Projection { exprs, .. } => o matches Plan::Projection { exprs: e2, .. } && e2
            == exprs,
        Plan::SubqueryAlias { alias, .. } => o matches Plan::SubqueryAlias { alias: a2, .. } && a2
            == alias,
        Plan::Aggregate { group_exprs, aggr_exprs, .. } => o matches Plan::Aggregate {
            group_exprs: g2,
            aggr_exprs: a2,
            ..
        } && g2 == group_exprs && a2 == aggr_exprs,
        Plan::DistinctOn { on_exprs, select_exprs, .. } => o matches Plan::DistinctOn {
            on_exprs: o2,
            select_exprs: se2,
            ..
        } && o2 == on_exprs && se2 == select_exprs,
        Plan::Window { window_exprs, .. } => o matches Plan::Window { window_exprs: w2, .. } && w2
            == window_exprs,
        Plan::Filter { predicate, .. } => o matches Plan::Filter { predicate: pr2, .. } && pr2
            == predicate,
        Plan::TableScan { .. } => o == p,
        Plan::EmptyRelation { .. } => o == p,
        Plan::Extension { node } => match node {
            ExtensionNode::Unrecognized { .. } => o == p,
            ExtensionNode::Model(mn) => if mn.required_exprs@.len() > 0 {
                o matches Plan::Projection { exprs: e2, .. } && e2 == mn.required_exprs
            } else {
                match mn.relation_chain.source {
                    Some(s) => {
                        proof {
                            assert(chain_height(mn.relation_chain) == 1 + plan_height(*s));
                            assert(ext_height(node) == 1 + chain_height(mn.relation_chain));
                            assert(plan_height(p) == 1 + ext_height(node));
                        }
                        up_root(m, *s, o)
                    },
                    None => true,
                }
            },
            ExtensionNode::ModelSource(ms) => match lookup_model(
                m.wren_mdl.models@,
                ms.model_name@,
            ) {
                Some(model) => if ms.required_exprs@.len() == 0 {
                    scan_of(o, model.table_reference@, model.columns@)
                } else {
                    o matches Plan::SubqueryAlias { alias: a2, .. } && a2@ == quoted_view(
                        model.name@,
                    )
                },
                None => true,
            },
            ExtensionNode::Calculation(c) => o matches Plan::SubqueryAlias { alias: a2, .. }
                && a2@ == quoted_view(c.calculation_name@),
            ExtensionNode::PartialModel(pm) => o matches Plan::SubqueryAlias { alias: a2, .. }
                && a2@ == quoted_view(pm.model_node.plan_name@),
        },
    }
}

/// The error the top-down traversal reports on a tree that holds no semantic
/// node: the rule is re-applied at every node, root first, so the outcome is
/// the first re-validation failure in that order.
pub open spec fn down_plain_outcome(m: AnalyzedWrenMDL, p: Plan) -> Option<Error>
    decreases plan_height(p), 2nat,
{
    match gen_outcome(m, p) {
        Some(e) => Some(e),
        None => match p {
            Plan::Projection { input, .. } => down_plain_outcome(m, *input),
            Plan::SubqueryAlias { input, .. } => down_plain_outcome(m, *input),
            Plan::Aggregate { input, .. } => down_plain_outcome(m, *input),
            Plan::DistinctOn { input, .. } => down_plain_outcome(m, *input),
            Plan::Window { input, .. } => down_plain_outcome(m, *input),
            Plan::Filter { input, .. } => down_plain_outcome(m, *input),
            _ => None,
        },
    }
}

/// The columns the top-down traversal's result advertises: the cache its
/// root receives when the rule rewrites it, before children change below.
pub open spec fn down_schema(m: AnalyzedWrenMDL, p: Plan) -> Seq<Seq<char>>
    decreases plan_height(p), 2nat,
{
    match p {
        Plan::Filter { input, .. } => down_schema(m, *input),
        _ => gen_schema(m, p),
    }
}

/// The plan is a model node whose relation chain has no source at all, so
/// resolving it must fail with the documented source-plan error.
pub open spec fn doomed_model_node(p: Plan) -> bool {
    match p {
        Plan::Extension { node } => match node {
            ExtensionNode::Model(mn) => mn.relation_chain.source is None,
            _ => false,
        },
        _ => false,
    }
}

/// The plan is an alias wrapped directly around a source-less model node, as
/// the partial-model expansion leaves behind for the top-down pass.
pub open spec fn alias_over_doomed_model(p: Plan) -> bool {
    match p {
        Plan::SubqueryAlias { input, .. } => doomed_model_node(*input),
        _ => false,
    }
}

/// Resolves a relation chain to a single concrete source plan by rewriting
/// its assembled source bottom-up, so that semantic nodes nested inside the
/// chain are expanded before the chain's owner projects from them.
pub fn resolve_chain(m: &AnalyzedWrenMDL, ch: RelationChain) -> (r: Result<Option<Plan>, Error>)
    ensures
        ch.source is None ==> (r matches Ok(o) && o is None),
        ch.source matches Some(s) ==> {
            &&& (r is Err <==> up_outcome(*m, *s) is Some)
            &&& (r matches Err(e) ==> Some(e) == up_outcome(*m, *s))
            &&& (r matches Ok(o) ==> o matches Some(sp) && schema_of(sp) == up_schema(*m, *s)
                && sem_measure(sp) <= sem_measure(*s) && top_not_semantic(sp) && (doomed(*s)
                ==> doomed(sp)) && up_root(*m, *s, sp) && (sem_measure(*s) > 0 ==> sem_measure(sp)
                < sem_measure(*s)) && (crate::plan::no_partial_model(*s) ==> resolved(sp)
                && valid_all(sp) && schemas_ok(sp)))
        },
    decreases chain_height(ch), 2nat,
{
    match ch.source {
        None => Ok(None),
        Some(b) => match rewrite_up(m, *b) {
            Ok(p) => Ok(Some(p)),
            Err(e) => Err(e),
        },
    }
}

/// Applies the rule across a whole tree bottom-up: children (and the plans
/// nested in relation chains) are rewritten before the nodes above them, as
/// a parent can only project from a chain that is already concrete.
pub fn rewrite_up(m: &AnalyzedWrenMDL, p: Plan) -> (r: Result<Plan, Error>)
    ensures
        (r is Err <==> up_outcome(*m, p) is Some),
        r matches Err(e) ==> Some(e) == up_outcome(*m, p),
        r matches Ok(o) ==> schema_of(o) == up_schema(*m, p),
        r matches Ok(o) ==> sem_measure(o) <= sem_measure(p),
        r matches Ok(o) ==> (sem_measure(p) > 0 ==> sem_measure(o) < sem_measure(p)),
        r matches Ok(o) ==> top_not_semantic(o),
        r matches Ok(o) ==> up_root(*m, p, o),
        r matches Ok(o) ==> (doomed(p) ==> doomed(o)),
        r matches Ok(o) ==> (crate::plan::no_partial_model(p) ==> resolved(o) && valid_all(o)
            && schemas_ok(o)),
        // A partial model's expansion: the aliased inner model, projected to
        // the partial schema and aliased again, kept for the top-down pass.
        p matches Plan::Extension { node } ==> (node matches ExtensionNode::PartialModel(pm) ==> (
        r matches Ok(o) ==> (o matches Plan::SubqueryAlias { input: i2, alias: a2, schema: _ }
            && a2@ == quoted_view(pm.model_node.plan_name@) && (*i2 matches Plan::Projection {
            exprs: e2,
            input: i3,
            schema: _,
        } && e2@.len() == pm.required_schema@.len() && (forall|k: int|
            0 <= k < e2@.len() ==> e2@[k] == (Expr::Column { name: pm.required_schema@[k] })) && (
        *i3 matches Plan::SubqueryAlias { input: i4, alias: a4, schema: s4 } && a4@ == quoted_view(
            pm.model_node.plan_name@,
        ) && name_views(s4@) == names_of(pm.model_node.required_exprs@) && *i4 == Plan::Extension {
            node: ExtensionNode::Model(pm.model_node),
        }))))),
        resolved(p) && valid_all(p) && schemas_ok(p) ==> (r matches Ok(o) && resolved(o)
            && valid_all(o) && schemas_ok(o) && schema_of(o) == schema_of(p)),
    decreases plan_height(p), 1nat,
{
    match p {
        Plan::Projection { exprs, input, schema: _ } => {
            let ghost g_in = *input;
            proof {
                assert(sem_measure(p) == sem_measure(g_in));
            }
            match rewrite_up(m, *input) {
                Err(e) => Err(e),
                Ok(child) => {
                    let ghost g_child = child;
                    let built = try_projection(exprs, Box::new(child));
                    proof {
                        assert(built matches Ok(q) ==> sem_measure(q) == sem_measure(g_child));
                    }
                    built
                },
            }
        },
        Plan::SubqueryAlias { input, alias, schema: _ } => {
            let ghost g_in = *input;
            proof {
                assert(sem_measure(p) == sem_measure(g_in));
            }
            match rewrite_up(m, *input) {
                Err(e) => Err(e),
                Ok(child) => {
                    let ghost g_child = child;
                    let built = alias_plan(Box::new(child), alias);
                    proof {
                        assert(sem_measure(built) == sem_measure(g_child));
                    }
                    Ok(built)
                },
            }
        },
        Plan::Aggregate { input, group_exprs, aggr_exprs, schema: _ } => {
            let ghost g_in = *input;
            proof {
                assert(sem_measure(p) == sem_measure(g_in));
            }
            match rewrite_up(m, *input) {
                Err(e) => Err(e),
                Ok(child) => {
                    let ghost g_child = child;
                    let built = try_aggregate(Box::new(child), group_exprs, aggr_exprs);
                    proof {
                        assert(built matches Ok(q) ==> sem_measure(q) == sem_measure(g_child));
                    }
                    built
                },
            }
        },
        Plan::DistinctOn { on_exprs, select_exprs, sort_exprs, input, schema: _ } => {
            let ghost g_in = *input;
            proof {
                assert(sem_measure(p) == sem_measure(g_in));
            }
            match rewrite_up(m, *input) {
                Err(e) => Err(e),
                Ok(child) => {
                    let ghost g_child = child;
                    let built = try_distinct_on(
                        on_exprs,
                        select_exprs,
                        sort_exprs,
                        Box::new(child),
                    );
                    proof {
                        assert(built matches Ok(q) ==> sem_measure(q) == sem_measure(g_child));
                    }
                    built
                },
            }
        },
        Plan::Window { input, window_exprs, schema: _ } => {
            let ghost g_in = *input;
            proof {
                assert(sem_measure(p) == sem_measure(g_in));
            }
            match rewrite_up(m, *input) {
                Err(e) => Err(e),
                Ok(child) => {
                    let ghost g_child = child;
                    let built = try_window(window_exprs, Box::new(child));
                    proof {
                        assert(built matches Ok(q) ==> sem_measure(q) == sem_measure(g_child));
                    }
                    built
                },
            }
        },
        Plan::Filter { predicate, input } => {
            let ghost g_in = *input;
            proof {
                assert(sem_measure(p) == sem_measure(g_in));
            }
            match rewrite_up(m, *input) {
                Err(e) => Err(e),
                Ok(child) => {
                    let ghost g_child = child;
                    let built = Plan::Filter { predicate, input: Box::new(child) };
                    proof {
                        assert(sem_measure(built) == sem_measure(g_child));
                    }
                    Ok(built)
                },
            }
        },
        Plan::TableScan { table_name, source_columns, filters } => {
            Ok(Plan::TableScan { table_name, source_columns, filters })
        },
        Plan::EmptyRelation { schema } => Ok(Plan::EmptyRelation { schema }),
        Plan::Extension { node } => {
            let ghost g_node = node;
            proof {
                assert(sem_measure(p) == crate::plan::ext_sem(g_node));
                assert(is_semantic(p) == !(g_node matches ExtensionNode::Unrecognized { .. }));
                assert(g_node matches ExtensionNode::Unrecognized { .. } ==> crate::plan::ext_sem(
                    g_node,
                ) == 0);
            }
            match generate_internal(m, Plan::Extension { node }) {
                Err(e) => Err(e),
                Ok(t) => Ok(t.data),
            }
        },
    }
}

/// Applies the rule to the root of `plan`: rebuilds a primitive operator
/// through its validating constructor, expands a semantic node into concrete
/// operators, and returns anything else unchanged.
pub fn generate_internal(m: &AnalyzedWrenMDL, plan: Plan) -> (r: Result<Transformed, Error>)
    ensures
        (r is Err <==> gen_outcome(*m, plan) is Some),
        r matches Err(e) ==> Some(e) == gen_outcome(*m, plan),
        r matches Ok(t) ==> schema_of(t.data) == gen_schema(*m, plan),
        r matches Ok(t) ==> t.transformed == rule_transforms(plan),
        r matches Ok(t) ==> sem_measure(t.data) <= sem_measure(plan),
        r matches Ok(t) ==> (is_semantic(plan) ==> sem_measure(t.data) < sem_measure(plan)),
        r matches Ok(t) ==> top_not_semantic(t.data),
        r matches Ok(t) ==> (doomed(plan) ==> doomed(t.data)),
        // Pass-through nodes come back untouched.
        r matches Ok(t) ==> (((plan matches Plan::Filter { .. }) || (plan
            matches Plan::TableScan { .. }) || (plan matches Plan::EmptyRelation { .. }) || (plan
            matches Plan::Extension { node } && node matches ExtensionNode::Unrecognized { .. }))
            ==> t.data == plan && !t.transformed),
        // A primitive keeps its expressions and its child.
        plan matches Plan::Projection { exprs, input, schema } ==> (r matches Ok(t) ==> (t.data
            matches Plan::Projection { exprs: e2, input: i2, schema: s2 } && e2 == exprs && i2
            == input && name_views(s2@) == names_of(exprs@))),
        plan matches Plan::SubqueryAlias { input, alias, schema } ==> (r matches Ok(t) ==> (
        t.data matches Plan::SubqueryAlias { input: i2, alias: a2, schema: s2 } && i2 == input
            && a2 == alias && name_views(s2@) == schema_of(*input))),
        plan matches Plan::Aggregate { input, group_exprs, aggr_exprs, schema } ==> (r
            matches Ok(t) ==> (t.data matches Plan::Aggregate {
            input: i2,
            group_exprs: g2,
            aggr_exprs: a2,
            schema: s2,
        } && i2 == input && g2 == group_exprs && a2 == aggr_exprs && name_views(s2@)
            == names_of(group_exprs@) + names_of(aggr_exprs@))),
        plan matches Plan::DistinctOn { on_exprs, select_exprs, sort_exprs, input, schema } ==> (
        r matches Ok(t) ==> (t.data matches Plan::DistinctOn {
            on_exprs: o2,
            select_exprs: se2,
            sort_exprs: so2,
            input: i2,
            schema: s2,
        } && o2 == on_exprs && se2 == select_exprs && so2 == sort_exprs && i2 == input
            && name_views(s2@) == names_of(select_exprs@))),
        plan matches Plan::Window { input, window_exprs, schema } ==> (r matches Ok(t) ==> (
        t.data matches Plan::Window { input: i2, window_exprs: w2, schema: s2 } && i2 == input
            && w2 == window_exprs && name_views(s2@) == schema_of(*input) + names_of(
            window_exprs@,
        ))),
        // A model node projects the resolved chain to its required columns,
        // or hands the chain's plan through when none are required.
        plan matches Plan::Extension { node } ==> (node matches ExtensionNode::Model(mn) ==> (
        r matches Ok(t) ==> ((mn.required_exprs@.len() > 0 ==> (t.data
            matches Plan::Projection { exprs: e2, input: _, schema: _ } && e2
            == mn.required_exprs)) && (mn.relation_chain.source matches Some(s) ==> (
        mn.required_exprs@.len() > 0 ==> (t.data matches Plan::Projection {
            exprs: _,
            input: i2,
            schema: _,
        } && schema_of(*i2) == up_schema(*m, *s) && top_not_semantic(*i2))) && (
        mn.required_exprs@.len() == 0 ==> up_root(*m, *s, t.data)))))),
        // A model source becomes a scan of the model's backing table,
        // projected and alias-wrapped exactly when columns are required.
        plan matches Plan::Extension { node } ==> (node matches ExtensionNode::ModelSource(ms)
            ==> (r matches Ok(t) ==> (lookup_model(m.wren_mdl.models@, ms.model_name@)
            matches Some(model) ==> {
            &&& (ms.required_exprs@.len() == 0 ==> scan_of(t.data, model.table_reference@,
                model.columns@))
            &&& (ms.required_exprs@.len() > 0 ==> (t.data matches Plan::SubqueryAlias {
                input: i2,
                alias: a2,
                schema: _,
            } && a2@ == quoted_view(model.name@) && (*i2 matches Plan::Projection {
                exprs: e2,
                input: i3,
                schema: _,
            } && e2 == ms.required_exprs && scan_of(*i3, model.table_reference@,
                model.columns@))))
        }))),
        // A calculation becomes the quoted calculated-column alias over a
        // two-column projection re-aliasing the rendered measure over the
        // aggregation by its dimensions.
        plan matches Plan::Extension { node } ==> (node matches ExtensionNode::Calculation(c)
            ==> (r matches Ok(t) ==> (t.data matches Plan::SubqueryAlias {
            input: i2,
            alias: a2,
            schema: _,
        } && a2@ == quoted_view(c.calculation_name@) && (*i2 matches Plan::Projection {
            exprs: e2,
            input: i3,
            schema: _,
        } && e2@.len() == 2 && e2@[0] == c.dimensions@[0] && (c.measures@[0] matches Expr::Alias {
            expr: me,
            name: mname,
        } ==> (e2@[1] matches Expr::Alias { expr: ce, name: n2 } && n2 == mname && (*ce
            matches Expr::Column { name: cn } && cn@ == expr_render(*me))) && (*i3
            matches Plan::Aggregate { group_exprs: g3, aggr_exprs: a3, .. } && g3 == c.dimensions
            && a3@.len() == 1 && a3@[0] == *me)))))),
        // A partial model becomes the aliased inner model, projected to the
        // partial schema's columns and aliased again by the plan name.
        plan matches Plan::Extension { node } ==> (node matches ExtensionNode::PartialModel(pm)
            ==> (r matches Ok(t) ==> (t.data matches Plan::SubqueryAlias {
            input: i2,
            alias: a2,
            schema: _,
        } && a2@ == quoted_view(pm.model_node.plan_name@) && (*i2 matches Plan::Projection {
            exprs: e2,
            input: i3,
            schema: _,
        } && e2@.len() == pm.required_schema@.len() && (forall|k: int|
            0 <= k < e2@.len() ==> e2@[k] == (Expr::Column { name: pm.required_schema@[k] }))
            && (*i3 matches Plan::SubqueryAlias { input: i4, alias: a4, schema: s4 } && a4@
            == quoted_view(pm.model_node.plan_name@) && name_views(s4@) == names_of(
            pm.model_node.required_exprs@,
        ) && *i4 == Plan::Extension { node: ExtensionNode::Model(pm.model_node) }))))),
        // A semantic node free of partial models expands to a fully resolved,
        // valid plan with correct caches.
        r matches Ok(t) ==> (plan matches Plan::Extension { .. } ==> (
        crate::plan::no_partial_model(plan) ==> resolved(t.data) && valid_all(t.data)
            && schemas_ok(t.data))),
    decreases plan_height(plan), 0nat,
{
    match plan {
        Plan::Projection { exprs, input, schema: _ } => {
            let ghost g_in = *input;
            match try_projection(exprs, input) {
                Ok(q) => {
                    proof {
                        assert(sem_measure(q) == sem_measure(g_in));
                        assert(sem_measure(plan) == sem_measure(g_in));
                    }
                    Ok(Transformed::yes(q))
                },
                Err(e) => Err(e),
            }
        },
        Plan::SubqueryAlias { input, alias, schema: _ } => {
            let ghost g_in = *input;
            let q = alias_plan(input, alias);
            proof {
                assert(sem_measure(q) == sem_measure(g_in));
                assert(sem_measure(plan) == sem_measure(g_in));
            }
            Ok(Transformed::yes(q))
        },
        Plan::Aggregate { input, group_exprs, aggr_exprs, schema: _ } => {
            let ghost g_in = *input;
            match try_aggregate(input, group_exprs, aggr_exprs) {
                Ok(q) => {
                    proof {
                        assert(sem_measure(q) == sem_measure(g_in));
                        assert(sem_measure(plan) == sem_measure(g_in));
                    }
                    Ok(Transformed::yes(q))
                },
                Err(e) => Err(e),
            }
        },
        Plan::DistinctOn { on_exprs, select_exprs, sort_exprs, input, schema: _ } => {
            let ghost g_in = *input;
            match try_distinct_on(on_exprs, select_exprs, sort_exprs, input) {
                Ok(q) => {
                    proof {
                        assert(sem_measure(q) == sem_measure(g_in));
                        assert(sem_measure(plan) == sem_measure(g_in));
                    }
                    Ok(Transformed::yes(q))
                },
                Err(e) => Err(e),
            }
        },
        Plan::Window { input, window_exprs, schema: _ } => {
            let ghost g_in = *input;
            match try_window(window_exprs, input) {
                Ok(q) => {
                    proof {
                        assert(sem_measure(q) == sem_measure(g_in));
                        assert(sem_measure(plan) == sem_measure(g_in));
                    }
                    Ok(Transformed::yes(q))
                },
                Err(e) => Err(e),
            }
        },
        Plan::Filter { predicate, input } => {
            Ok(Transformed::no(Plan::Filter { predicate, input }))
        },
        Plan::TableScan { table_name, source_columns, filters } => {
            Ok(Transformed::no(Plan::TableScan { table_name, source_columns, filters }))
        },
        Plan::EmptyRelation { schema } => Ok(Transformed::no(Plan::EmptyRelation { schema })),
        Plan::Extension { node } => match node {
            ExtensionNode::Model(mn) => {
                proof {
                    assert(ext_height(ExtensionNode::Model(mn)) == 1 + chain_height(
                        mn.relation_chain,
                    ));
                    assert(plan_height(plan) == 1 + ext_height(ExtensionNode::Model(mn)));
                    assert(crate::plan::ext_sem(ExtensionNode::Model(mn)) == 1
                        + crate::plan::chain_sem(mn.relation_chain));
                    assert(sem_measure(plan) == crate::plan::ext_sem(ExtensionNode::Model(mn)));
                    assert(crate::plan::no_partial_model(plan)
                        == crate::plan::chain_no_partial(mn.relation_chain));
                }
                gen_model(m, mn)
            },
            ExtensionNode::ModelSource(ms) => {
                proof {
                    assert(crate::plan::ext_sem(ExtensionNode::ModelSource(ms)) == 1);
                    assert(sem_measure(plan) == crate::plan::ext_sem(
                        ExtensionNode::ModelSource(ms),
                    ));
                }
                gen_model_source(m, ms)
            },
            ExtensionNode::Calculation(c) => {
                proof {
                    assert(ext_height(ExtensionNode::Calculation(c)) == 1 + chain_height(
                        c.relation_chain,
                    ));
                    assert(plan_height(plan) == 1 + ext_height(ExtensionNode::Calculation(c)));
                    assert(crate::plan::ext_sem(ExtensionNode::Calculation(c)) == 1
                        + crate::plan::chain_sem(c.relation_chain));
                    assert(sem_measure(plan) == crate::plan::ext_sem(
                        ExtensionNode::Calculation(c),
                    ));
                    assert(crate::plan::no_partial_model(plan)
                        == crate::plan::chain_no_partial(c.relation_chain));
                }
                gen_calculation(m, c)
            },
            ExtensionNode::PartialModel(pm) => {
                proof {
                    assert(ext_height(ExtensionNode::PartialModel(pm)) == 4 + chain_height(
                        pm.model_node.relation_chain,
                    ));
                    assert(plan_height(plan) == 1 + ext_height(ExtensionNode::PartialModel(pm)));
                    assert(crate::plan::ext_sem(ExtensionNode::PartialModel(pm)) == 3
                        + crate::plan::chain_sem(pm.model_node.relation_chain));
                    assert(sem_measure(plan) == crate::plan::ext_sem(
                        ExtensionNode::PartialModel(pm),
                    ));
                }
                gen_partial_model(m, pm)
            },
            ExtensionNode::Unrecognized { name, schema } => {
                let back = Plan::Extension { node: ExtensionNode::Unrecognized { name, schema } };
                proof {
                    assert(resolved(back) && valid_all(back) && schemas_ok(back));
                }
                Ok(Transformed::no(back))
            },
        },
    }
}

/// Expands a model node: resolves its relation chain and projects the result
/// to the required columns, or uses the chain's plan as-is when no columns
/// are required (a count-style query).
pub fn gen_model(m: &AnalyzedWrenMDL, mn: ModelPlanNode) -> (r: Result<Transformed, Error>)
    ensures
        (r is Err <==> gen_outcome(
            *m,
            Plan::Extension { node: ExtensionNode::Model(mn) },
        ) is Some),
        r matches Err(e) ==> Some(e) == gen_outcome(
            *m,
            Plan::Extension { node: ExtensionNode::Model(mn) },
        ),
        r matches Ok(t) ==> schema_of(t.data) == gen_schema(
            *m,
            Plan::Extension { node: ExtensionNode::Model(mn) },
        ),
        r matches Ok(t) ==> t.transformed,
        r matches Ok(t) ==> sem_measure(t.data) <= crate::plan::chain_sem(mn.relation_chain),
        r matches Ok(t) ==> top_not_semantic(t.data),
        r matches Ok(t) ==> (crate::plan::chain_doomed(mn.relation_chain) ==> doomed(t.data)),
        r matches Ok(t) ==> (mn.required_exprs@.len() > 0 ==> (t.data matches Plan::Projection {
            exprs: e2,
            input: _,
            schema: _,
        } && e2 == mn.required_exprs)),
        // The projection stands directly over the resolved chain.
        r matches Ok(t) ==> (mn.required_exprs@.len() > 0 ==> (mn.relation_chain.source
            matches Some(s) ==> (t.data matches Plan::Projection { exprs: _, input: i2, schema: _ }
            && schema_of(*i2) == up_schema(*m, *s) && top_not_semantic(*i2)))),
        // With no required columns the chain's plan is handed through as-is.
        r matches Ok(t) ==> (mn.required_exprs@.len() == 0 ==> (mn.relation_chain.source
            matches Some(s) ==> up_root(*m, *s, t.data))),
        r matches Ok(t) ==> (crate::plan::chain_no_partial(mn.relation_chain) ==> resolved(t.data)
            && valid_all(t.data) && schemas_ok(t.data)),
    decreases chain_height(mn.relation_chain) + 1, 0nat,
{
    let ModelPlanNode { plan_name: _, required_exprs, relation_chain } = mn;
    let source_plan = match resolve_chain(m, relation_chain) {
        Ok(sp) => sp,
        Err(e) => {
            return Err(e);
        },
    };
    let sp = match source_plan {
        Some(sp) => sp,
        None => {
            return Err(Error::FailedSourcePlan);
        },
    };
    if required_exprs.len() == 0 {
        return Ok(Transformed::yes(sp));
    }
    let ghost g_sp = sp;
    match try_projection(required_exprs, Box::new(sp)) {
        Ok(q) => {
            proof {
                assert(resolved(q) == resolved(g_sp));
                assert(valid_all(g_sp) && schemas_ok(g_sp) && projection_ok(
                    mn.required_exprs@,
                    schema_of(g_sp),
                ) ==> valid_all(q) && schemas_ok(q));
            }
            Ok(Transformed::yes(q))
        },
        Err(e) => Err(e),
    }
}

/// Expands a model-source node: looks the model up, scans its backing table
/// (reusing the original scan's pushed-down filters), and projects and
/// alias-wraps the scan exactly when columns are required.
pub fn gen_model_source(m: &AnalyzedWrenMDL, ms: ModelSourceNode) -> (r: Result<Transformed, Error>)
    ensures
        (r is Err <==> gen_outcome(
            *m,
            Plan::Extension { node: ExtensionNode::ModelSource(ms) },
        ) is Some),
        r matches Err(e) ==> Some(e) == gen_outcome(
            *m,
            Plan::Extension { node: ExtensionNode::ModelSource(ms) },
        ),
        r matches Ok(t) ==> schema_of(t.data) == gen_schema(
            *m,
            Plan::Extension { node: ExtensionNode::ModelSource(ms) },
        ),
        r matches Ok(t) ==> t.transformed == (ms.required_exprs@.len() > 0),
        r matches Ok(t) ==> sem_measure(t.data) == 0,
        r matches Ok(t) ==> top_not_semantic(t.data),
        r matches Ok(t) ==> !doomed(t.data),
        r matches Ok(t) ==> resolved(t.data) && valid_all(t.data) && schemas_ok(t.data),
        r matches Ok(t) ==> (lookup_model(m.wren_mdl.models@, ms.model_name@) matches Some(
            model,
        ) ==> {
            &&& (ms.required_exprs@.len() == 0 ==> scan_of(t.data, model.table_reference@,
                model.columns@))
            &&& (ms.required_exprs@.len() > 0 ==> (t.data matches Plan::SubqueryAlias {
                input: i2,
                alias: a2,
                schema: _,
            } && a2@ == quoted_view(model.name@) && (*i2 matches Plan::Projection {
                exprs: e2,
                input: i3,
                schema: _,
            } && e2 == ms.required_exprs && scan_of(*i3, model.table_reference@, model.columns@))))
        }),
{
    let ModelSourceNode { model_name, required_exprs, original_table_scan } = ms;
    let model = match m.wren_mdl().get_model(&model_name) {
        Some(model) => model,
        None => {
            return Err(Error::ModelNotFound);
        },
    };
    let filters: Vec<Expr> = match original_table_scan {
        Some(orig) => match *orig {
            Plan::TableScan { table_name: _, source_columns: _, filters } => filters,
            _ => {
                return Err(Error::InvalidTableScan);
            },
        },
        None => Vec::new(),
    };
    let table_scan = Plan::TableScan {
        table_name: model.table_reference.clone(),
        source_columns: create_remote_table_source(model),
        filters,
    };
    let ghost g_scan = table_scan;
    proof {
        assert(sem_measure(g_scan) == 0);
        assert(!doomed(g_scan));
    }
    if required_exprs.len() == 0 {
        return Ok(Transformed::no(table_scan));
    }
    let projected = match try_projection(required_exprs, Box::new(table_scan)) {
        Ok(projected) => projected,
        Err(e) => {
            return Err(e);
        },
    };
    let ghost g_proj = projected;
    let alias = quoted(model.name());
    let aliased = alias_plan(Box::new(projected), alias);
    proof {
        assert(sem_measure(g_proj) == sem_measure(g_scan));
        assert(!doomed(g_proj));
        assert(sem_measure(aliased) == sem_measure(g_proj));
        assert(!doomed(aliased));
        assert(resolved(g_scan) && valid_all(g_scan) && schemas_ok(g_scan));
        assert(resolved(g_proj) && valid_all(g_proj) && schemas_ok(g_proj));
        assert(resolved(aliased) && valid_all(aliased) && schemas_ok(aliased));
    }
    Ok(Transformed::yes(aliased))
}

/// Expands a calculation node: aggregates the resolved chain by the
/// dimensions and the unaliased first measure, projects to the first
/// dimension and the measure's declared name, and wraps the result in the
/// calculated column's quoted name.
pub fn gen_calculation(m: &AnalyzedWrenMDL, c: CalculationPlanNode) -> (r: Result<Transformed, Error>)
    ensures
        (r is Err <==> gen_outcome(
            *m,
            Plan::Extension { node: ExtensionNode::Calculation(c) },
        ) is Some),
        r matches Err(e) ==> Some(e) == gen_outcome(
            *m,
            Plan::Extension { node: ExtensionNode::Calculation(c) },
        ),
        r matches Ok(t) ==> schema_of(t.data) == gen_schema(
            *m,
            Plan::Extension { node: ExtensionNode::Calculation(c) },
        ),
        r matches Ok(t) ==> t.transformed,
        r matches Ok(t) ==> sem_measure(t.data) <= crate::plan::chain_sem(c.relation_chain),
        r matches Ok(t) ==> top_not_semantic(t.data),
        r matches Ok(t) ==> (crate::plan::chain_doomed(c.relation_chain) ==> doomed(t.data)),
        r matches Ok(t) ==> (crate::plan::chain_no_partial(c.relation_chain) ==> resolved(t.data)
            && valid_all(t.data) && schemas_ok(t.data)),
        r matches Ok(t) ==> (t.data matches Plan::SubqueryAlias { input: i2, alias: a2, schema: _ }
            && a2@ == quoted_view(c.calculation_name@) && (*i2 matches Plan::Projection {
            exprs: e2,
            input: i3,
            schema: _,
        } && e2@.len() == 2 && e2@[0] == c.dimensions@[0] && (c.measures@[0] matches Expr::Alias {
            expr: me,
            name: mname,
        } ==> (e2@[1] matches Expr::Alias { expr: ce, name: n2 } && n2 == mname && (*ce
            matches Expr::Column { name: cn } && cn@ == expr_render(*me))) && (*i3
            matches Plan::Aggregate { group_exprs: g3, aggr_exprs: a3, .. } && g3 == c.dimensions
            && a3@.len() == 1 && (c.measures@[0] matches Expr::Alias { expr: me2, name: _ } ==> a3@[0]
            == *me2))))),
    decreases chain_height(c.relation_chain) + 1, 0nat,
{
    let CalculationPlanNode { relation_chain, dimensions, measures, calculation_name } = c;
    let mut measures = measures;
    let source_plan = match resolve_chain(m, relation_chain) {
        Ok(sp) => sp,
        Err(e) => {
            return Err(e);
        },
    };
    if measures.len() == 0 {
        return Err(Error::MeasureWithoutAlias);
    }
    let first = measures.remove(0);
    proof {
        assert(first == c.measures@[0]);
    }
    let (inner, alias_name) = match first {
        Expr::Alias { expr: inner_box, name: alias_name } => (*inner_box, alias_name),
        _ => {
            return Err(Error::MeasureWithoutAlias);
        },
    };
    let ghost g_inner = inner;
    if dimensions.len() == 0 {
        return Err(Error::MissingDimension);
    }
    let sp = match source_plan {
        Some(sp) => sp,
        None => {
            return Err(Error::FailedSourcePlan);
        },
    };
    let ghost g_sp = sp;
    let dim0 = dimensions[0].duplicate();
    let ghost g_dim0 = dim0;
    let rendered = render_expr(&inner);
    let ghost g_col = Expr::Column { name: rendered };
    let renamed = Expr::Alias { expr: Box::new(Expr::Column { name: rendered }), name: alias_name };
    let ghost g_renamed = renamed;
    proof {
        assert(expr_output_name(g_renamed) == c.measures@[0]->Alias_name@);
        assert(base_ref(g_col) == expr_render(g_inner));
        assert(base_ref(g_renamed) == base_ref(g_col));
    }
    let mut aggr_vec: Vec<Expr> = Vec::new();
    aggr_vec.push(inner);
    proof {
        assert(aggr_vec@ =~= seq![g_inner]);
        assert(names_of(aggr_vec@) =~= names_of(seq![g_inner]));
    }
    let agg = match try_aggregate(Box::new(sp), dimensions, aggr_vec) {
        Ok(agg) => agg,
        Err(e) => {
            return Err(e);
        },
    };
    let ghost g_agg = agg;
    proof {
        assert(schema_of(g_agg) == calc_agg_schema(c));
        assert(sem_measure(g_agg) == sem_measure(g_sp));
        assert(doomed(g_agg) == doomed(g_sp));
    }
    let mut proj_exprs: Vec<Expr> = Vec::new();
    proj_exprs.push(dim0);
    proj_exprs.push(renamed);
    proof {
        assert(proj_exprs@ =~= seq![g_dim0, g_renamed]);
        assert(crate::expr::all_refs_ok(proj_exprs@, schema_of(g_agg)) <==> (refs_ok(
            c.dimensions@[0],
            calc_agg_schema(c),
        ) && calc_agg_schema(c).contains(expr_render(g_inner)))) by {
            assert(proj_exprs@[0] == g_dim0);
            assert(proj_exprs@[1] == g_renamed);
            assert(refs_ok(g_renamed, schema_of(g_agg)) == calc_agg_schema(c).contains(
                expr_render(g_inner),
            ));
            if refs_ok(c.dimensions@[0], calc_agg_schema(c)) && calc_agg_schema(c).contains(
                expr_render(g_inner),
            ) {
                assert forall|i: int| 0 <= i < proj_exprs@.len() implies refs_ok(
                    #[trigger] proj_exprs@[i],
                    schema_of(g_agg),
                ) by {
                    if i == 0 {
                        assert(proj_exprs@[i] == g_dim0);
                    } else {
                        assert(proj_exprs@[i] == g_renamed);
                    }
                }
            }
        }
    }
    let proj = match try_projection(proj_exprs, Box::new(agg)) {
        Ok(proj) => proj,
        Err(e) => {
            return Err(e);
        },
    };
    let ghost g_proj = proj;
    proof {
        assert(names_of(proj_exprs@) =~= seq![expr_output_name(c.dimensions@[0]), c.measures@[0]->Alias_name@]);
        assert(schema_of(g_proj) == names_of(proj_exprs@));
        assert(sem_measure(g_proj) == sem_measure(g_agg));
        assert(doomed(g_proj) == doomed(g_agg));
    }
    let alias = quoted(&calculation_name);
    let aliased = alias_plan(Box::new(proj), alias);
    proof {
        assert(schema_of(aliased) == schema_of(g_proj));
        assert(sem_measure(aliased) == sem_measure(g_proj));
        assert(doomed(aliased) == doomed(g_proj));
        if resolved(g_sp) && valid_all(g_sp) && schemas_ok(g_sp) {
            assert(resolved(g_agg) && valid_all(g_agg) && schemas_ok(g_agg));
            assert(resolved(g_proj) && valid_all(g_proj) && schemas_ok(g_proj));
            assert(resolved(aliased) && valid_all(aliased) && schemas_ok(aliased));
        }
        assert(crate::plan::chain_sem(c.relation_chain) == (match c.relation_chain.source {
            Some(s2) => sem_measure(*s2),
            None => 0nat,
        }));
        assert(crate::plan::chain_doomed(c.relation_chain) == (match c.relation_chain.source {
            Some(s2) => doomed(*s2),
            None => true,
        }));
    }
    Ok(Transformed::yes(aliased))
}

/// Expands a partial model: aliases the inner model by its plan name,
/// resolves that aliased plan with this same rule, projects it down to the
/// partial schema's columns, and aliases the result by the plan name again.
pub fn gen_partial_model(m: &AnalyzedWrenMDL, pm: PartialModelPlanNode) -> (r: Result<
    Transformed,
    Error,
>)
    ensures
        (r is Err <==> gen_outcome(
            *m,
            Plan::Extension { node: ExtensionNode::PartialModel(pm) },
        ) is Some),
        r matches Err(e) ==> Some(e) == gen_outcome(
            *m,
            Plan::Extension { node: ExtensionNode::PartialModel(pm) },
        ),
        r matches Ok(t) ==> schema_of(t.data) == gen_schema(
            *m,
            Plan::Extension { node: ExtensionNode::PartialModel(pm) },
        ),
        r matches Ok(t) ==> t.transformed,
        r matches Ok(t) ==> sem_measure(t.data) <= 1 + crate::plan::chain_sem(
            pm.model_node.relation_chain,
        ),
        r matches Ok(t) ==> top_not_semantic(t.data),
        r matches Ok(t) ==> (crate::plan::chain_doomed(pm.model_node.relation_chain) ==> doomed(
            t.data,
        )),
        r matches Ok(t) ==> (t.data matches Plan::SubqueryAlias { input: i2, alias: a2, schema: _ }
            && a2@ == quoted_view(pm.model_node.plan_name@) && (*i2 matches Plan::Projection {
            exprs: e2,
            input: i3,
            schema: _,
        } && names_of(e2@) == name_views(pm.required_schema@) && e2@.len()
            == pm.required_schema@.len() && (forall|k: int|
            0 <= k < e2@.len() ==> e2@[k] == (Expr::Column { name: pm.required_schema@[k] })) && (
        *i3 matches Plan::SubqueryAlias { input: i4, alias: a4, schema: s4 } && a4@ == quoted_view(
            pm.model_node.plan_name@,
        ) && name_views(s4@) == names_of(pm.model_node.required_exprs@) && *i4 == Plan::Extension {
            node: ExtensionNode::Model(pm.model_node),
        }))),
    decreases chain_height(pm.model_node.relation_chain) + 4, 0nat,
{
    let PartialModelPlanNode { model_node, required_schema } = pm;
    let plan_name = model_node.plan_name.clone();
    let ghost g_ext = Plan::Extension { node: ExtensionNode::Model(pm.model_node) };
    let ext = Plan::Extension { node: ExtensionNode::Model(model_node) };
    let subquery = alias_plan(Box::new(ext), quoted(&plan_name));
    proof {
        assert(plan_height(g_ext) == 1 + ext_height(ExtensionNode::Model(pm.model_node)));
        assert(ext_height(ExtensionNode::Model(pm.model_node)) == 1 + chain_height(
            pm.model_node.relation_chain,
        ));
        assert(plan_height(subquery) == 1 + plan_height(g_ext));
        assert(gen_outcome(*m, subquery) is None);
        assert(schema_of(g_ext) == names_of(pm.model_node.required_exprs@));
        assert(gen_schema(*m, subquery) == schema_of(g_ext));
        assert(sem_measure(g_ext) == crate::plan::ext_sem(ExtensionNode::Model(pm.model_node)));
        assert(crate::plan::ext_sem(ExtensionNode::Model(pm.model_node)) == 1
            + crate::plan::chain_sem(pm.model_node.relation_chain));
        assert(sem_measure(subquery) == sem_measure(g_ext));
        assert(doomed(g_ext) == crate::plan::chain_doomed(pm.model_node.relation_chain));
        assert(doomed(subquery) == doomed(g_ext));
    }
    let t = match generate_internal(m, subquery) {
        Ok(t) => t,
        Err(e) => {
            return Err(e);
        },
    };
    let source_plan = t.data;
    let ghost g_src = source_plan;
    let mut proj_exprs: Vec<Expr> = Vec::new();
    let mut i: usize = 0;
    while i < required_schema.len()
        invariant
            0 <= i <= required_schema.len(),
            proj_exprs@.len() == i,
            forall|k: int|
                0 <= k < i ==> proj_exprs@[k] == (Expr::Column { name: required_schema@[k] }),
        decreases required_schema.len() - i,
    {
        proj_exprs.push(Expr::Column { name: required_schema[i].clone() });
        i = i + 1;
    }
    proof {
        assert(schema_of(g_src) == names_of(pm.model_node.required_exprs@));
        assert forall|k: int| 0 <= k < proj_exprs@.len() implies base_ref(
            #[trigger] proj_exprs@[k],
        ) == pm.required_schema@[k]@ by {
            assert(proj_exprs@[k] == (Expr::Column { name: pm.required_schema@[k] }));
        }
        assert(crate::expr::all_refs_ok(proj_exprs@, schema_of(g_src)) <==> (forall|i2: int|
            0 <= i2 < pm.required_schema@.len() ==> names_of(pm.model_node.required_exprs@)
                .contains(#[trigger] pm.required_schema@[i2]@))) by {
            if crate::expr::all_refs_ok(proj_exprs@, schema_of(g_src)) {
                assert forall|i2: int| 0 <= i2 < pm.required_schema@.len() implies names_of(
                    pm.model_node.required_exprs@,
                ).contains(#[trigger] pm.required_schema@[i2]@) by {
                    assert(refs_ok(proj_exprs@[i2], schema_of(g_src)));
                }
            }
            if (forall|i2: int|
                0 <= i2 < pm.required_schema@.len() ==> names_of(pm.model_node.required_exprs@)
                    .contains(#[trigger] pm.required_schema@[i2]@)) {
                assert forall|i2: int| 0 <= i2 < proj_exprs@.len() implies refs_ok(
                    #[trigger] proj_exprs@[i2],
                    schema_of(g_src),
                ) by {
                    assert(names_of(pm.model_node.required_exprs@).contains(
                        pm.required_schema@[i2]@,
                    ));
                }
            }
        }
    }
    let projected = match try_projection(proj_exprs, Box::new(source_plan)) {
        Ok(projected) => projected,
        Err(e) => {
            return Err(e);
        },
    };
    let ghost g_proj = projected;
    proof {
        assert(names_of(proj_exprs@) =~= name_views(pm.required_schema@));
        assert(schema_of(g_proj) == names_of(proj_exprs@));
        assert(sem_measure(g_proj) == sem_measure(g_src));
        assert(doomed(g_proj) == doomed(g_src));
    }
    let alias = quoted(&plan_name);
    let aliased = alias_plan(Box::new(projected), alias);
    proof {
        assert(schema_of(aliased) == schema_of(g_proj));
        assert(sem_measure(aliased) == sem_measure(g_proj));
        assert(doomed(aliased) == doomed(g_proj));
    }
    Ok(Transformed::yes(aliased))
}

/// A scan of the table `table` exposing `columns`.
pub open spec fn scan_of(p: Plan, table: Seq<char>, columns: Seq<String>) -> bool {
    p matches Plan::TableScan { table_name, source_columns, filters: _ } && table_name@ == table
        && source_columns@ == columns
}

impl RelationChain {
    /// Resolves the chain to a single concrete plan, handing nested semantic
    /// nodes to the given rewrite strategy; a chain with nothing to offer
    /// yields no plan.
    pub fn plan(self, rule: ModelGenerationRule) -> (r: Result<Option<Plan>, Error>)
        ensures
            self.source is None ==> (r matches Ok(o) && o is None),
            self.source matches Some(s) ==> {
                &&& (r is Err <==> up_outcome(rule.mdl(), *s) is Some)
                &&& (r matches Err(e) ==> Some(e) == up_outcome(rule.mdl(), *s))
                &&& (r matches Ok(o) ==> o matches Some(sp) && schema_of(sp) == up_schema(
                    rule.mdl(),
                    *s,
                ) && top_not_semantic(sp) && sem_measure(sp) <= sem_measure(*s) && (doomed(*s)
                    ==> doomed(sp)) && up_root(rule.mdl(), *s, sp))
            },
    {
        resolve_chain(&rule.analyzed_wren_mdl, self)
    }
}

/// Expands semantic model, model-source, calculation and partial-model nodes
/// into primitive relational operators, against one analyzed manifest.
pub struct ModelGenerationRule {
    /// The manifest this rule resolves model names against.
    pub analyzed_wren_mdl: Arc<AnalyzedWrenMDL>,
}

impl ModelGenerationRule {
    /// A rule over the given manifest.
    pub fn new(mdl: Arc<AnalyzedWrenMDL>) -> (r: ModelGenerationRule)
        ensures
            r.analyzed_wren_mdl == mdl,
    {
        ModelGenerationRule { analyzed_wren_mdl: mdl }
    }

    /// The manifest the rule was built over.
    pub open spec fn mdl(&self) -> AnalyzedWrenMDL {
        *self.analyzed_wren_mdl
    }

    /// Applies the rule to the root of `plan`.
    pub fn generate_model_internal(&self, plan: Plan) -> (r: Result<Transformed, Error>)
        ensures
            (r is Err <==> gen_outcome(self.mdl(), plan) is Some),
            r matches Err(e) ==> Some(e) == gen_outcome(self.mdl(), plan),
            r matches Ok(t) ==> schema_of(t.data) == gen_schema(self.mdl(), plan),
            r matches Ok(t) ==> t.transformed == rule_transforms(plan),
            r matches Ok(t) ==> sem_measure(t.data) <= sem_measure(plan),
            r matches Ok(t) ==> (is_semantic(plan) ==> sem_measure(t.data) < sem_measure(plan)),
            r matches Ok(t) ==> top_not_semantic(t.data),
            r matches Ok(t) ==> (doomed(plan) ==> doomed(t.data)),
            // Pass-through nodes come back untouched.
            r matches Ok(t) ==> (((plan matches Plan::Filter { .. }) || (plan
                matches Plan::TableScan { .. }) || (plan matches Plan::EmptyRelation { .. }) || (plan
                matches Plan::Extension { node } && node matches ExtensionNode::Unrecognized { .. }))
                ==> t.data == plan && !t.transformed),
            // A primitive keeps its expressions and its child.
            plan matches Plan::Projection { exprs, input, schema } ==> (r matches Ok(t) ==> (t.data
                matches Plan::Projection { exprs: e2, input: i2, schema: s2 } && e2 == exprs && i2
                == input && name_views(s2@) == names_of(exprs@))),
            plan matches Plan::SubqueryAlias { input, alias, schema } ==> (r matches Ok(t) ==> (
            t.data matches Plan::SubqueryAlias { input: i2, alias: a2, schema: s2 } && i2 == input
                && a2 == alias && name_views(s2@) == schema_of(*input))),
            plan matches Plan::Aggregate { input, group_exprs, aggr_exprs, schema } ==> (r
                matches Ok(t) ==> (t.data matches Plan::Aggregate {
                input: i2,
                group_exprs: g2,
                aggr_exprs: a2,
                schema: s2,
            } && i2 == input && g2 == group_exprs && a2 == aggr_exprs && name_views(s2@)
                == names_of(group_exprs@) + names_of(aggr_exprs@))),
            plan matches Plan::DistinctOn { on_exprs, select_exprs, sort_exprs, input, schema } ==> (
            r matches Ok(t) ==> (t.data matches Plan::DistinctOn {
                on_exprs: o2,
                select_exprs: se2,
                sort_exprs: so2,
                input: i2,
                schema: s2,
            } && o2 == on_exprs && se2 == select_exprs && so2 == sort_exprs && i2 == input
                && name_views(s2@) == names_of(select_exprs@))),
            plan matches Plan::Window { input, window_exprs, schema } ==> (r matches Ok(t) ==> (
            t.data matches Plan::Window { input: i2, window_exprs: w2, schema: s2 } && i2 == input
                && w2 == window_exprs && name_views(s2@) == schema_of(*input) + names_of(
                window_exprs@,
            ))),
            // A model node projects the resolved chain to its required columns,
            // or hands the chain's plan through when none are required.
            plan matches Plan::Extension { node } ==> (node matches ExtensionNode::Model(mn) ==> (
            r matches Ok(t) ==> ((mn.required_exprs@.len() > 0 ==> (t.data
                matches Plan::Projection { exprs: e2, input: _, schema: _ } && e2
                == mn.required_exprs)) && (mn.relation_chain.source matches Some(s) ==> (
            mn.required_exprs@.len() > 0 ==> (t.data matches Plan::Projection {
                exprs: _,
                input: i2,
                schema: _,
            } && schema_of(*i2) == up_schema(self.mdl(), *s) && top_not_semantic(*i2))) && (
            mn.required_exprs@.len() == 0 ==> up_root(self.mdl(), *s, t.data)))))),
            // A model source becomes a scan of the model's backing table,
            // projected and alias-wrapped exactly when columns are required.
            plan matches Plan::Extension { node } ==> (node matches ExtensionNode::ModelSource(ms)
                ==> (r matches Ok(t) ==> (lookup_model(self.mdl().wren_mdl.models@, ms.model_name@)
                matches Some(model) ==> {
                &&& (ms.required_exprs@.len() == 0 ==> scan_of(t.data, model.table_reference@,
                    model.columns@))
                &&& (ms.required_exprs@.len() > 0 ==> (t.data matches Plan::SubqueryAlias {
                    input: i2,
                    alias: a2,
                    schema: _,
                } && a2@ == quoted_view(model.name@) && (*i2 matches Plan::Projection {
                    exprs: e2,
                    input: i3,
                    schema: _,
                } && e2 == ms.required_exprs && scan_of(*i3, model.table_reference@,
                    model.columns@))))
            }))),
            // A calculation becomes the quoted calculated-column alias over a
            // two-column projection re-aliasing the rendered measure over the
            // aggregation by its dimensions.
            plan matches Plan::Extension { node } ==> (node matches ExtensionNode::Calculation(c)
                ==> (r matches Ok(t) ==> (t.data matches Plan::SubqueryAlias {
                input: i2,
                alias: a2,
                schema: _,
            } && a2@ == quoted_view(c.calculation_name@) && (*i2 matches Plan::Projection {
                exprs: e2,
                input: i3,
                schema: _,
            } && e2@.len() == 2 && e2@[0] == c.dimensions@[0] && (c.measures@[0] matches Expr::Alias {
                expr: me,
                name: mname,
            } ==> (e2@[1] matches Expr::Alias { expr: ce, name: n2 } && n2 == mname && (*ce
                matches Expr::Column { name: cn } && cn@ == expr_render(*me))) && (*i3
                matches Plan::Aggregate { group_exprs: g3, aggr_exprs: a3, .. } && g3 == c.dimensions
                && a3@.len() == 1 && a3@[0] == *me)))))),
            // A partial model becomes the aliased inner model, projected to the
            // partial schema's columns and aliased again by the plan name.
            plan matches Plan::Extension { node } ==> (node matches ExtensionNode::PartialModel(pm)
                ==> (r matches Ok(t) ==> (t.data matches Plan::SubqueryAlias {
                input: i2,
                alias: a2,
                schema: _,
            } && a2@ == quoted_view(pm.model_node.plan_name@) && (*i2 matches Plan::Projection {
                exprs: e2,
                input: i3,
                schema: _,
            } && e2@.len() == pm.required_schema@.len() && (forall|k: int|
                0 <= k < e2@.len() ==> e2@[k] == (Expr::Column { name: pm.required_schema@[k] }))
                && (*i3 matches Plan::SubqueryAlias { input: i4, alias: a4, schema: s4 } && a4@
                == quoted_view(pm.model_node.plan_name@) && name_views(s4@) == names_of(
                pm.model_node.required_exprs@,
            ) && *i4 == Plan::Extension { node: ExtensionNode::Model(pm.model_node) }))))),
            // A semantic node free of partial models expands to a fully
            // resolved, valid plan with correct caches.
            r matches Ok(t) ==> (plan matches Plan::Extension { .. } ==> (
            crate::plan::no_partial_model(plan) ==> resolved(t.data) && valid_all(t.data)
                && schemas_ok(t.data))),
    {
        generate_internal(&self.analyzed_wren_mdl, plan)
    }

    /// The rule's name.
    pub fn name(&self) -> (r: &'static str)
        ensures
            r@ == "ModelGenerationRule"@,
    {
        "ModelGenerationRule"
    }
}

} // verus!
