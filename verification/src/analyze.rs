//! The traversal driver: applies the model-generation rule bottom-up, then
//! top-down, then recomputes every cached schema.  The second pass exists
//! because the first pass's own output can introduce new semantic nodes (a
//! partial model expands into an aliased copy of its inner model); the
//! top-down pass strictly shrinks the tree's semantic content at every node
//! it resolves, so together the passes leave no semantic node behind.

use vstd::prelude::*;

use crate::builder::output_schema;
use crate::expr::{name_views, names_of, output_names};
use crate::mdl::AnalyzedWrenMDL;
use crate::plan::{
    computed_schema, doomed, no_partial_model, plan_height, resolved, schema_of, schemas_ok,
    sem_measure, valid_all, Error, ExtensionNode, Plan,
};
use crate::rule::{
    alias_over_doomed_model, doomed_model_node, down_plain_outcome, down_schema, gen_outcome,
    generate_internal, rewrite_up, up_outcome, up_schema, ModelGenerationRule,
};

verus! {

/// Applies the rule across a whole tree top-down: the rule rewrites a node
/// first, and the traversal then descends into the children of whatever the
/// rule produced, so semantic nodes that the rewrite itself introduced are
/// caught and resolved.
pub fn rewrite_down(m: &AnalyzedWrenMDL, p: Plan) -> (r: Result<Plan, Error>)
    ensures
        r matches Ok(o) ==> resolved(o),
        doomed(p) ==> r is Err,
        resolved(p) && valid_all(p) && schemas_ok(p) ==> (r matches Ok(o) && resolved(o)
            && valid_all(o) && schemas_ok(o) && schema_of(o) == schema_of(p)),
        resolved(p) ==> ((r is Err <==> down_plain_outcome(*m, p) is Some) && (r matches Err(e)
            ==> Some(e) == down_plain_outcome(*m, p))),
        resolved(p) ==> (r matches Ok(o) ==> schema_of(o) == down_schema(*m, p)),
        // A source-less model node, bare or still wrapped as the partial-model
        // expansion leaves it, fails with the documented source-plan error.
        doomed_model_node(p) ==> r == Err::<Plan, Error>(Error::FailedSourcePlan),
        p matches Plan::SubqueryAlias { input, .. } ==> (doomed_model_node(*input) ==> r
            == Err::<Plan, Error>(Error::FailedSourcePlan)),
        p matches Plan::Projection { input, .. } ==> ((gen_outcome(*m, p) is None
            && alias_over_doomed_model(*input)) ==> r == Err::<Plan, Error>(
            Error::FailedSourcePlan,
        )),
        p matches Plan::Extension { node } ==> (node matches ExtensionNode::PartialModel(pm)
            ==> ((gen_outcome(*m, p) is None && pm.model_node.relation_chain.source is None) ==> r
            == Err::<Plan, Error>(Error::FailedSourcePlan))),
        p matches Plan::SubqueryAlias { input, .. } ==> ((*input matches Plan::Projection {
            exprs: _,
            input: i6,
            schema: _,
        } && gen_outcome(*m, *input) is None && alias_over_doomed_model(*i6)) ==> r == Err::<
            Plan,
            Error,
        >(Error::FailedSourcePlan)),
    decreases sem_measure(p), plan_height(p),
{
    let ghost g_p = p;
    let t = match generate_internal(m, p) {
        Ok(t) => t,
        Err(e) => {
            return Err(e);
        },
    };
    match t.data {
        Plan::Projection { exprs, input, schema } => {
            proof {
                assert(sem_measure(t.data) == sem_measure(*input));
                assert(doomed(t.data) == doomed(*input));
            }
            let child = match rewrite_down(m, *input) {
                Ok(child) => child,
                Err(e) => {
                    return Err(e);
                },
            };
            {
                proof {
                    if g_p matches Plan::Filter { .. } {
                        assert(t.data == g_p);
                    }
                    assert(down_schema(*m, g_p) == crate::rule::gen_schema(*m, g_p));
                }
                Ok(Plan::Projection { exprs, input: Box::new(child), schema })
            }
        },
        Plan::SubqueryAlias { input, alias, schema } => {
            proof {
                assert(sem_measure(t.data) == sem_measure(*input));
                assert(doomed(t.data) == doomed(*input));
                let ghost g_in2 = *input;
                match g_p {
                    Plan::Extension { node: ExtensionNode::PartialModel(pm) } => {
                        if gen_outcome(*m, g_p) is None
                            && pm.model_node.relation_chain.source is None {
                            match g_in2 {
                                Plan::Projection { exprs: e2, input: i3, schema: _ } => {
                                    assert(alias_over_doomed_model(*i3));
                                    assert forall|k: int|
                                        0 <= k < e2@.len() implies crate::expr::refs_ok(
                                        #[trigger] e2@[k],
                                        schema_of(*i3),
                                    ) by {
                                        assert(e2@[k] == (crate::expr::Expr::Column {
                                            name: pm.required_schema@[k],
                                        }));
                                        assert(crate::expr::base_ref(e2@[k])
                                            == pm.required_schema@[k]@);
                                        assert(names_of(pm.model_node.required_exprs@).contains(
                                            pm.required_schema@[k]@,
                                        ));
                                    }
                                    assert(crate::plan::projection_ok(e2@, schema_of(*i3)));
                                    assert(gen_outcome(*m, g_in2) is None);
                                },
                                _ => {},
                            }
                        }
                    },
                    _ => {},
                }
            }
            let child = match rewrite_down(m, *input) {
                Ok(child) => child,
                Err(e) => {
                    return Err(e);
                },
            };
            {
                proof {
                    if g_p matches Plan::Filter { .. } {
                        assert(t.data == g_p);
                    }
                    assert(down_schema(*m, g_p) == crate::rule::gen_schema(*m, g_p));
                }
                Ok(Plan::SubqueryAlias { input: Box::new(child), alias, schema })
            }
        },
        Plan::Aggregate { input, group_exprs, aggr_exprs, schema } => {
            proof {
                assert(sem_measure(t.data) == sem_measure(*input));
                assert(doomed(t.data) == doomed(*input));
            }
            let child = match rewrite_down(m, *input) {
                Ok(child) => child,
                Err(e) => {
                    return Err(e);
                },
            };
            {
                proof {
                    if g_p matches Plan::Filter { .. } {
                        assert(t.data == g_p);
                    }
                    assert(down_schema(*m, g_p) == crate::rule::gen_schema(*m, g_p));
                }
                Ok(Plan::Aggregate { input: Box::new(child), group_exprs, aggr_exprs, schema })
            }
        },
        Plan::DistinctOn { on_exprs, select_exprs, sort_exprs, input, schema } => {
            proof {
                assert(sem_measure(t.data) == sem_measure(*input));
                assert(doomed(t.data) == doomed(*input));
            }
            let child = match rewrite_down(m, *input) {
                Ok(child) => child,
                Err(e) => {
                    return Err(e);
                },
            };
            proof {
                if g_p matches Plan::Filter { .. } {
                    assert(t.data == g_p);
                }
                assert(down_schema(*m, g_p) == crate::rule::gen_schema(*m, g_p));
            }
            Ok(
                Plan::DistinctOn {
                    on_exprs,
                    select_exprs,
                    sort_exprs,
                    input: Box::new(child),
                    schema,
                },
            )
        },
        Plan::Window { input, window_exprs, schema } => {
            proof {
                assert(sem_measure(t.data) == sem_measure(*input));
                assert(doomed(t.data) == doomed(*input));
            }
            let child = match rewrite_down(m, *input) {
                Ok(child) => child,
                Err(e) => {
                    return Err(e);
                },
            };
            {
                proof {
                    if g_p matches Plan::Filter { .. } {
                        assert(t.data == g_p);
                    }
                    assert(down_schema(*m, g_p) == crate::rule::gen_schema(*m, g_p));
                }
                Ok(Plan::Window { input: Box::new(child), window_exprs, schema })
            }
        },
        Plan::Filter { predicate, input } => {
            proof {
                assert(sem_measure(t.data) == sem_measure(*input));
                assert(doomed(t.data) == doomed(*input));
            }
            let child = match rewrite_down(m, *input) {
                Ok(child) => child,
                Err(e) => {
                    return Err(e);
                },
            };
            proof {
                if resolved(g_p) {
                    if !(g_p matches Plan::Filter { .. }) {
                        if g_p matches Plan::Projection { .. } {
                            assert(t.data matches Plan::Projection { .. });
                        } else if g_p matches Plan::SubqueryAlias { .. } {
                            assert(t.data matches Plan::SubqueryAlias { .. });
                        } else if g_p matches Plan::Aggregate { .. } {
                            assert(t.data matches Plan::Aggregate { .. });
                        } else if g_p matches Plan::DistinctOn { .. } {
                            assert(t.data matches Plan::DistinctOn { .. });
                        } else if g_p matches Plan::Window { .. } {
                            assert(t.data matches Plan::Window { .. });
                        } else {
                            assert(t.data == g_p);
                        }
                        assert(false);
                    }
                    assert(t.data == g_p);
                }
            }
            Ok(Plan::Filter { predicate, input: Box::new(child) })
        },
        Plan::TableScan { table_name, source_columns, filters } => {
            proof {
                if g_p matches Plan::Filter { .. } {
                    assert(t.data == g_p);
                }
                assert(down_schema(*m, g_p) == crate::rule::gen_schema(*m, g_p));
            }
            Ok(Plan::TableScan { table_name, source_columns, filters })
        },
        Plan::EmptyRelation { schema } => {
            proof {
                if g_p matches Plan::Filter { .. } {
                    assert(t.data == g_p);
                }
                assert(down_schema(*m, g_p) == crate::rule::gen_schema(*m, g_p));
            }
            Ok(Plan::EmptyRelation { schema })
        },
        Plan::Extension { node } => {
            proof {
                assert(node matches ExtensionNode::Unrecognized { .. });
                if g_p matches Plan::Filter { .. } {
                    assert(t.data == g_p);
                }
                assert(down_schema(*m, g_p) == crate::rule::gen_schema(*m, g_p));
            }
            Ok(Plan::Extension { node })
        },
    }
}

/// Recomputes every cached schema bottom-up, so each node advertises exactly
/// the columns its children now produce.  The tree's shape, expressions and
/// semantic content are untouched.
pub fn recompute_schema(p: Plan) -> (r: Plan)
    ensures
        schemas_ok(r),
        schema_of(r) == computed_schema(p),
        resolved(p) ==> resolved(r),
        crate::plan::same_shape(r, p),
    decreases p,
{
    match p {
        Plan::Projection { exprs, input, schema: _ } => {
            let child = recompute_schema(*input);
            let schema = output_names(&exprs);
            Plan::Projection { exprs, input: Box::new(child), schema }
        },
        Plan::SubqueryAlias { input, alias, schema: _ } => {
            let child = recompute_schema(*input);
            let schema = output_schema(&child);
            Plan::SubqueryAlias { input: Box::new(child), alias, schema }
        },
        Plan::Aggregate { input, group_exprs, aggr_exprs, schema: _ } => {
            let child = recompute_schema(*input);
            let mut schema = output_names(&group_exprs);
            let mut tail = output_names(&aggr_exprs);
            schema.append(&mut tail);
            proof {
                assert(name_views(schema@) =~= names_of(group_exprs@) + names_of(aggr_exprs@));
            }
            Plan::Aggregate { input: Box::new(child), group_exprs, aggr_exprs, schema }
        },
        Plan::DistinctOn { on_exprs, select_exprs, sort_exprs, input, schema: _ } => {
            let child = recompute_schema(*input);
            let schema = output_names(&select_exprs);
            Plan::DistinctOn { on_exprs, select_exprs, sort_exprs, input: Box::new(child), schema }
        },
        Plan::Window { input, window_exprs, schema: _ } => {
            let child = recompute_schema(*input);
            let mut schema = output_schema(&child);
            let mut tail = output_names(&window_exprs);
            schema.append(&mut tail);
            proof {
                assert(name_views(schema@) =~= schema_of(child) + names_of(window_exprs@));
            }
            Plan::Window { input: Box::new(child), window_exprs, schema }
        },
        Plan::Filter { predicate, input } => {
            let child = recompute_schema(*input);
            Plan::Filter { predicate, input: Box::new(child) }
        },
        Plan::TableScan { table_name, source_columns, filters } => {
            Plan::TableScan { table_name, source_columns, filters }
        },
        Plan::EmptyRelation { schema } => Plan::EmptyRelation { schema },
        Plan::Extension { node } => Plan::Extension { node },
    }
}

impl ModelGenerationRule {
    /// Rewrites a whole plan tree: applies the rule bottom-up, applies it
    /// again top-down to catch semantic nodes the first pass introduced, and
    /// recomputes every cached schema of the result.  On success no semantic
    /// node remains anywhere in the returned plan; a plan holding a relation
    /// chain that resolves to no plan makes the whole rewrite fail.
    pub fn analyze(&self, plan: Plan) -> (r: Result<Plan, Error>)
        ensures
            up_outcome(self.mdl(), plan) matches Some(e) ==> r == Err::<Plan, Error>(e),
            doomed(plan) ==> r is Err,
            r matches Ok(o) ==> resolved(o) && schemas_ok(o),
            resolved(plan) && valid_all(plan) && schemas_ok(plan) ==> (r matches Ok(o)
                && schema_of(o) == schema_of(plan)),
            up_outcome(self.mdl(), plan) is None && no_partial_model(plan) ==> r is Ok,
            // A partial model whose inner chain has no source survives the
            // bottom-up pass and fails top-down with the documented error.
            plan matches Plan::Extension { node } ==> (node
                matches ExtensionNode::PartialModel(pm) ==> ((up_outcome(self.mdl(), plan) is None
                && pm.model_node.relation_chain.source is None) ==> r == Err::<Plan, Error>(
                Error::FailedSourcePlan,
            ))),
            r matches Ok(o) ==> (no_partial_model(plan) ==> schema_of(o) == up_schema(
                self.mdl(),
                plan,
            )),
    {
        let ghost g_plan = plan;
        let up = match rewrite_up(&self.analyzed_wren_mdl, plan) {
            Ok(up) => up,
            Err(e) => {
                return Err(e);
            },
        };
        let ghost g_up = up;
        proof {
            match g_plan {
                Plan::Extension { node: ExtensionNode::PartialModel(pm) } => {
                    if up_outcome(self.mdl(), g_plan) is None
                        && pm.model_node.relation_chain.source is None {
                        match g_up {
                            Plan::SubqueryAlias { input: i2u, alias: _, schema: _ } => {
                                match *i2u {
                                    Plan::Projection { exprs: e2, input: i3, schema: _ } => {
                                        assert(gen_outcome(self.mdl(), g_plan) is None);
                                        assert(e2@.len() == pm.required_schema@.len());
                                        assert(alias_over_doomed_model(*i3));
                                        assert forall|k: int|
                                            0 <= k < e2@.len() implies crate::expr::refs_ok(
                                            #[trigger] e2@[k],
                                            schema_of(*i3),
                                        ) by {
                                            assert(e2@[k] == (crate::expr::Expr::Column {
                                                name: pm.required_schema@[k],
                                            }));
                                            assert(crate::expr::base_ref(e2@[k])
                                                == pm.required_schema@[k]@);
                                            assert(0 <= k < pm.required_schema@.len());
                                            assert(names_of(
                                                pm.model_node.required_exprs@,
                                            ).contains(pm.required_schema@[k]@));
                                        }
                                        assert(crate::plan::projection_ok(e2@, schema_of(*i3)));
                                        assert(gen_outcome(self.mdl(), *i2u) is None);
                                    },
                                    _ => {},
                                }
                            },
                            _ => {},
                        }
                    }
                },
                _ => {},
            }
        }
        let down = match rewrite_down(&self.analyzed_wren_mdl, up) {
            Ok(down) => down,
            Err(e) => {
                return Err(e);
            },
        };
        let ghost g_down = down;
        let out = recompute_schema(down);
        proof {
            if schemas_ok(g_down) {
                crate::plan::lemma_schemas_ok_computed(g_down);
            }
        }
        Ok(out)
    }
}

} // verus!
