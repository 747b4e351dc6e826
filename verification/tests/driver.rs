use std::sync::Arc;

use wren_core::expr::Expr;
use wren_core::mdl::{AnalyzedWrenMDL, Model, WrenMDL};
use wren_core::plan::{
    Error, ExtensionNode, ModelPlanNode, PartialModelPlanNode, Plan, RelationChain,
};
use wren_core::analyze::recompute_schema;
use wren_core::rule::ModelGenerationRule;

fn col(n: &str) -> Expr {
    Expr::Column { name: n.to_string() }
}

fn names(ns: &[&str]) -> Vec<String> {
    ns.iter().map(|n| n.to_string()).collect()
}

fn scan(table: &str, cols: &[&str]) -> Plan {
    Plan::TableScan {
        table_name: table.to_string(),
        source_columns: names(cols),
        filters: Vec::new(),
    }
}

fn rule_with(models: Vec<Model>) -> ModelGenerationRule {
    ModelGenerationRule::new(Arc::new(AnalyzedWrenMDL { wren_mdl: WrenMDL { models } }))
}

fn has_extension(p: &Plan) -> bool {
    match p {
        Plan::Projection { input, .. } => has_extension(input),
        Plan::SubqueryAlias { input, .. } => has_extension(input),
        Plan::Aggregate { input, .. } => has_extension(input),
        Plan::DistinctOn { input, .. } => has_extension(input),
        Plan::Window { input, .. } => has_extension(input),
        Plan::Filter { input, .. } => has_extension(input),
        Plan::TableScan { .. } => false,
        Plan::EmptyRelation { .. } => false,
        Plan::Extension { .. } => true,
    }
}

fn schema_names(p: &Plan) -> Vec<String> {
    wren_core::builder::output_schema(p)
}

#[test]
fn nested_partial_model_is_fully_resolved_by_two_passes() {
    // A partial model expands, during the bottom-up pass, into an aliased
    // plan that still holds the unresolved inner model; only the top-down
    // pass resolves that residue.
    let rule = rule_with(vec![]);
    let partial = PartialModelPlanNode {
        model_node: ModelPlanNode {
            plan_name: "customer".to_string(),
            required_exprs: vec![col("a"), col("b"), col("c")],
            relation_chain: RelationChain {
                source: Some(Box::new(scan("main.customer", &["a", "b", "c"]))),
            },
        },
        required_schema: names(&["a", "c"]),
    };
    let plan = Plan::Extension { node: ExtensionNode::PartialModel(partial) };
    let out = rule.analyze(plan).unwrap();
    assert!(!has_extension(&out));
    assert_eq!(schema_names(&out), names(&["a", "c"]));
}

#[test]
fn one_pass_alone_leaves_the_inner_model_unresolved() {
    let rule = rule_with(vec![]);
    let partial = PartialModelPlanNode {
        model_node: ModelPlanNode {
            plan_name: "customer".to_string(),
            required_exprs: vec![col("a")],
            relation_chain: RelationChain {
                source: Some(Box::new(scan("main.customer", &["a"]))),
            },
        },
        required_schema: names(&["a"]),
    };
    let plan = Plan::Extension { node: ExtensionNode::PartialModel(partial) };
    let t = rule.generate_model_internal(plan).unwrap();
    assert!(has_extension(&t.data));
}

#[test]
fn chain_resolving_to_no_plan_fails_the_whole_analysis() {
    let rule = rule_with(vec![]);
    let plan = Plan::Projection {
        exprs: vec![col("a")],
        input: Box::new(Plan::Extension {
            node: ExtensionNode::Model(ModelPlanNode {
                plan_name: "customer".to_string(),
                required_exprs: vec![col("a")],
                relation_chain: RelationChain { source: None },
            }),
        }),
        schema: names(&["a"]),
    };
    let r = rule.analyze(plan);
    assert!(matches!(r, Err(Error::FailedSourcePlan)));
}

#[test]
fn doomed_chain_nested_inside_partial_model_still_fails() {
    let rule = rule_with(vec![]);
    let partial = PartialModelPlanNode {
        model_node: ModelPlanNode {
            plan_name: "customer".to_string(),
            required_exprs: vec![col("a")],
            relation_chain: RelationChain { source: None },
        },
        required_schema: names(&["a"]),
    };
    let plan = Plan::Extension { node: ExtensionNode::PartialModel(partial) };
    assert!(matches!(rule.analyze(plan), Err(Error::FailedSourcePlan)));
}

#[test]
fn analyze_resolves_model_under_a_filter() {
    let rule = rule_with(vec![]);
    let plan = Plan::Filter {
        predicate: col("a"),
        input: Box::new(Plan::Extension {
            node: ExtensionNode::Model(ModelPlanNode {
                plan_name: "m".to_string(),
                required_exprs: vec![col("a")],
                relation_chain: RelationChain {
                    source: Some(Box::new(scan("t", &["a", "b"]))),
                },
            }),
        }),
    };
    let out = rule.analyze(plan).unwrap();
    assert!(!has_extension(&out));
    match &out {
        Plan::Filter { input, .. } => {
            assert_eq!(schema_names(input), names(&["a"]));
        },
        other => panic!("expected the filter to survive, got {:?}", other),
    }
}

#[test]
fn analyze_keeps_a_valid_primitive_tree_equivalent() {
    let rule = rule_with(vec![]);
    let plan = Plan::Projection {
        exprs: vec![col("a")],
        input: Box::new(scan("t", &["a", "b"])),
        schema: names(&["a"]),
    };
    let out = rule.analyze(plan).unwrap();
    match &out {
        Plan::Projection { exprs, input, schema } => {
            assert_eq!(exprs.len(), 1);
            assert!(matches!(input.as_ref(), Plan::TableScan { .. }));
            assert_eq!(schema, &names(&["a"]));
        },
        other => panic!("expected the projection back, got {:?}", other),
    }
}

#[test]
fn recompute_schema_corrects_a_stale_cache() {
    let plan = Plan::SubqueryAlias {
        input: Box::new(scan("t", &["a", "b"])),
        alias: "s".to_string(),
        schema: names(&["stale", "wrong"]),
    };
    let fixed = recompute_schema(plan);
    assert_eq!(schema_names(&fixed), names(&["a", "b"]));
}

#[test]
fn relation_chain_resolves_nested_semantic_nodes() {
    let chain = RelationChain {
        source: Some(Box::new(Plan::Extension {
            node: ExtensionNode::Model(ModelPlanNode {
                plan_name: "m".to_string(),
                required_exprs: vec![col("a")],
                relation_chain: RelationChain {
                    source: Some(Box::new(scan("t", &["a", "b"]))),
                },
            }),
        })),
    };
    let resolved = chain.plan(rule_with(vec![])).unwrap().expect("chain has a source");
    assert!(!has_extension(&resolved));
    assert_eq!(schema_names(&resolved), names(&["a"]));

    let empty = RelationChain { source: None };
    assert!(empty.plan(rule_with(vec![])).unwrap().is_none());
}

#[test]
fn get_model_finds_models_by_name() {
    let mdl = WrenMDL {
        models: vec![
            Model {
                name: "a".to_string(),
                table_reference: "t.a".to_string(),
                columns: names(&["x"]),
            },
            Model {
                name: "b".to_string(),
                table_reference: "t.b".to_string(),
                columns: names(&["y"]),
            },
        ],
    };
    let found = mdl.get_model(&"b".to_string()).expect("model b exists");
    assert_eq!(found.table_reference, "t.b");
    assert!(mdl.get_model(&"c".to_string()).is_none());
}
