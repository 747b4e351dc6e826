use std::sync::Arc;

use wren_core::expr::{output_name, render_expr, Expr};
use wren_core::mdl::{quoted, AnalyzedWrenMDL, Model, WrenMDL};
use wren_core::plan::{
    CalculationPlanNode, Error, ExtensionNode, ModelPlanNode, ModelSourceNode,
    PartialModelPlanNode, Plan, RelationChain,
};
use wren_core::rule::ModelGenerationRule;

fn col(n: &str) -> Expr {
    Expr::Column { name: n.to_string() }
}

fn names(ns: &[&str]) -> Vec<String> {
    ns.iter().map(|n| n.to_string()).collect()
}

fn scan(table: &str, cols: &[&str]) -> Plan {
    Plan::TableScan {
        table_name: table.to_string(),
        source_columns: names(cols),
        filters: Vec::new(),
    }
}

fn chain_over(p: Plan) -> RelationChain {
    RelationChain { source: Some(Box::new(p)) }
}

fn rule_with(models: Vec<Model>) -> ModelGenerationRule {
    ModelGenerationRule::new(Arc::new(AnalyzedWrenMDL { wren_mdl: WrenMDL { models } }))
}

fn customer_model() -> Model {
    Model {
        name: "customer".to_string(),
        table_reference: "main.customer".to_string(),
        columns: names(&["c_custkey", "c_name", "c_city"]),
    }
}

fn schema_names(p: &Plan) -> Vec<String> {
    wren_core::builder::output_schema(p)
}

#[test]
fn model_projects_to_required_columns_in_order() {
    let rule = rule_with(vec![customer_model()]);
    let node = ModelPlanNode {
        plan_name: "customer".to_string(),
        required_exprs: vec![col("c_name"), col("c_custkey")],
        relation_chain: chain_over(scan("main.customer", &["c_custkey", "c_name", "c_city"])),
    };
    let t = rule
        .generate_model_internal(Plan::Extension { node: ExtensionNode::Model(node) })
        .unwrap();
    assert!(t.transformed);
    assert_eq!(schema_names(&t.data), names(&["c_name", "c_custkey"]));
    match &t.data {
        Plan::Projection { exprs, .. } => {
            assert_eq!(exprs.len(), 2);
            assert!(matches!(&exprs[0], Expr::Column { name } if name == "c_name"));
            assert!(matches!(&exprs[1], Expr::Column { name } if name == "c_custkey"));
        },
        other => panic!("expected a projection, got {:?}", other),
    }
}

#[test]
fn model_with_no_required_columns_uses_chain_plan_unwrapped() {
    let rule = rule_with(vec![customer_model()]);
    let node = ModelPlanNode {
        plan_name: "customer".to_string(),
        required_exprs: Vec::new(),
        relation_chain: chain_over(scan("main.customer", &["c_custkey"])),
    };
    let t = rule
        .generate_model_internal(Plan::Extension { node: ExtensionNode::Model(node) })
        .unwrap();
    assert!(t.transformed);
    assert!(matches!(t.data, Plan::TableScan { .. }));
}

#[test]
fn model_source_with_no_required_columns_is_a_bare_scan() {
    let rule = rule_with(vec![customer_model()]);
    let node = ModelSourceNode {
        model_name: "customer".to_string(),
        required_exprs: Vec::new(),
        original_table_scan: None,
    };
    let t = rule
        .generate_model_internal(Plan::Extension { node: ExtensionNode::ModelSource(node) })
        .unwrap();
    assert!(!t.transformed);
    match &t.data {
        Plan::TableScan { table_name, source_columns, filters } => {
            assert_eq!(table_name, "main.customer");
            assert_eq!(source_columns, &names(&["c_custkey", "c_name", "c_city"]));
            assert!(filters.is_empty());
        },
        other => panic!("expected a bare scan, got {:?}", other),
    }
}

#[test]
fn model_source_with_required_columns_is_projected_and_aliased() {
    let rule = rule_with(vec![customer_model()]);
    let node = ModelSourceNode {
        model_name: "customer".to_string(),
        required_exprs: vec![col("c_name")],
        original_table_scan: None,
    };
    let t = rule
        .generate_model_internal(Plan::Extension { node: ExtensionNode::ModelSource(node) })
        .unwrap();
    assert!(t.transformed);
    match &t.data {
        Plan::SubqueryAlias { input, alias, .. } => {
            assert_eq!(alias, "\"customer\"");
            match input.as_ref() {
                Plan::Projection { exprs, input: scan_input, .. } => {
                    assert_eq!(exprs.len(), 1);
                    assert!(matches!(scan_input.as_ref(), Plan::TableScan { .. }));
                },
                other => panic!("expected a projection under the alias, got {:?}", other),
            }
        },
        other => panic!("expected an alias wrapper, got {:?}", other),
    }
    assert_eq!(schema_names(&t.data), names(&["c_name"]));
}

#[test]
fn model_source_reuses_original_scan_filters() {
    let rule = rule_with(vec![customer_model()]);
    let original = Plan::TableScan {
        table_name: "old".to_string(),
        source_columns: names(&["c_name"]),
        filters: vec![col("c_city")],
    };
    let node = ModelSourceNode {
        model_name: "customer".to_string(),
        required_exprs: Vec::new(),
        original_table_scan: Some(Box::new(original)),
    };
    let t = rule
        .generate_model_internal(Plan::Extension { node: ExtensionNode::ModelSource(node) })
        .unwrap();
    match &t.data {
        Plan::TableScan { table_name, filters, .. } => {
            assert_eq!(table_name, "main.customer");
            assert_eq!(filters.len(), 1);
            assert!(matches!(&filters[0], Expr::Column { name } if name == "c_city"));
        },
        other => panic!("expected a scan, got {:?}", other),
    }
}

#[test]
fn calculation_names_measure_by_its_alias() {
    let rule = rule_with(vec![customer_model()]);
    let measure = Expr::Alias {
        expr: Box::new(Expr::Agg { func: "SUM".to_string(), arg: Box::new(col("x")) }),
        name: "total".to_string(),
    };
    let node = CalculationPlanNode {
        relation_chain: chain_over(scan("main.orders", &["d", "x"])),
        dimensions: vec![col("d")],
        measures: vec![measure],
        calculation_name: "revenue".to_string(),
    };
    let t = rule
        .generate_model_internal(Plan::Extension { node: ExtensionNode::Calculation(node) })
        .unwrap();
    assert!(t.transformed);
    assert_eq!(schema_names(&t.data), names(&["d", "total"]));
    match &t.data {
        Plan::SubqueryAlias { input, alias, .. } => {
            assert_eq!(alias, "\"revenue\"");
            match input.as_ref() {
                Plan::Projection { exprs, input: agg_input, .. } => {
                    assert_eq!(exprs.len(), 2);
                    match &exprs[1] {
                        Expr::Alias { expr, name } => {
                            assert_eq!(name, "total");
                            assert!(
                                matches!(expr.as_ref(), Expr::Column { name } if name == "SUM(x)")
                            );
                        },
                        other => panic!("expected the re-aliased measure, got {:?}", other),
                    }
                    match agg_input.as_ref() {
                        Plan::Aggregate { group_exprs, aggr_exprs, .. } => {
                            assert_eq!(group_exprs.len(), 1);
                            assert_eq!(aggr_exprs.len(), 1);
                            assert!(matches!(&aggr_exprs[0], Expr::Agg { func, .. } if func == "SUM"));
                        },
                        other => panic!("expected an aggregation, got {:?}", other),
                    }
                },
                other => panic!("expected a projection, got {:?}", other),
            }
        },
        other => panic!("expected an alias wrapper, got {:?}", other),
    }
}

#[test]
fn partial_model_projects_to_target_schema() {
    let rule = rule_with(vec![customer_model()]);
    let node = PartialModelPlanNode {
        model_node: ModelPlanNode {
            plan_name: "customer".to_string(),
            required_exprs: vec![col("a"), col("b"), col("c")],
            relation_chain: chain_over(scan("main.customer", &["a", "b", "c"])),
        },
        required_schema: names(&["a", "c"]),
    };
    let t = rule
        .generate_model_internal(Plan::Extension { node: ExtensionNode::PartialModel(node) })
        .unwrap();
    assert!(t.transformed);
    assert_eq!(schema_names(&t.data), names(&["a", "c"]));
    match &t.data {
        Plan::SubqueryAlias { alias, input, .. } => {
            assert_eq!(alias, "\"customer\"");
            assert!(matches!(input.as_ref(), Plan::Projection { .. }));
        },
        other => panic!("expected an alias wrapper, got {:?}", other),
    }
}

#[test]
fn primitive_projection_is_reconstructed_unchanged() {
    let rule = rule_with(vec![]);
    let plan = Plan::Projection {
        exprs: vec![col("a")],
        input: Box::new(scan("t", &["a", "b"])),
        schema: names(&["a"]),
    };
    let t = rule.generate_model_internal(plan).unwrap();
    assert!(t.transformed);
    match &t.data {
        Plan::Projection { exprs, input, schema } => {
            assert_eq!(exprs.len(), 1);
            assert!(matches!(&exprs[0], Expr::Column { name } if name == "a"));
            assert!(matches!(input.as_ref(), Plan::TableScan { .. }));
            assert_eq!(schema, &names(&["a"]));
        },
        other => panic!("expected the projection back, got {:?}", other),
    }
}

#[test]
fn primitive_aggregate_is_reconstructed_unchanged() {
    let rule = rule_with(vec![]);
    let plan = Plan::Aggregate {
        input: Box::new(scan("t", &["a", "b"])),
        group_exprs: vec![col("a")],
        aggr_exprs: vec![Expr::Agg { func: "SUM".to_string(), arg: Box::new(col("b")) }],
        schema: names(&["a", "SUM(b)"]),
    };
    let t = rule.generate_model_internal(plan).unwrap();
    assert!(t.transformed);
    match &t.data {
        Plan::Aggregate { group_exprs, aggr_exprs, schema, .. } => {
            assert_eq!(group_exprs.len(), 1);
            assert_eq!(aggr_exprs.len(), 1);
            assert_eq!(schema, &names(&["a", "SUM(b)"]));
        },
        other => panic!("expected the aggregation back, got {:?}", other),
    }
}

#[test]
fn unrecognized_extension_passes_through_unchanged() {
    let rule = rule_with(vec![]);
    let plan = Plan::Extension {
        node: ExtensionNode::Unrecognized {
            name: "foreign_node".to_string(),
            schema: names(&["x"]),
        },
    };
    let t = rule.generate_model_internal(plan).unwrap();
    assert!(!t.transformed);
    match &t.data {
        Plan::Extension { node: ExtensionNode::Unrecognized { name, schema } } => {
            assert_eq!(name, "foreign_node");
            assert_eq!(schema, &names(&["x"]));
        },
        other => panic!("expected the foreign node back, got {:?}", other),
    }
}

#[test]
fn empty_chain_fails_with_source_plan_error() {
    let rule = rule_with(vec![customer_model()]);
    let node = ModelPlanNode {
        plan_name: "customer".to_string(),
        required_exprs: vec![col("c_name")],
        relation_chain: RelationChain { source: None },
    };
    let r = rule.generate_model_internal(Plan::Extension { node: ExtensionNode::Model(node) });
    assert!(matches!(r, Err(Error::FailedSourcePlan)));
}

#[test]
fn unaliased_measure_is_rejected() {
    let rule = rule_with(vec![]);
    let node = CalculationPlanNode {
        relation_chain: chain_over(scan("t", &["d", "x"])),
        dimensions: vec![col("d")],
        measures: vec![Expr::Agg { func: "SUM".to_string(), arg: Box::new(col("x")) }],
        calculation_name: "c".to_string(),
    };
    let r = rule
        .generate_model_internal(Plan::Extension { node: ExtensionNode::Calculation(node) });
    assert!(matches!(r, Err(Error::MeasureWithoutAlias)));
}

#[test]
fn calculation_without_dimensions_is_rejected() {
    let rule = rule_with(vec![]);
    let measure = Expr::Alias {
        expr: Box::new(Expr::Agg { func: "SUM".to_string(), arg: Box::new(col("x")) }),
        name: "total".to_string(),
    };
    let node = CalculationPlanNode {
        relation_chain: chain_over(scan("t", &["x"])),
        dimensions: Vec::new(),
        measures: vec![measure],
        calculation_name: "c".to_string(),
    };
    let r = rule
        .generate_model_internal(Plan::Extension { node: ExtensionNode::Calculation(node) });
    assert!(matches!(r, Err(Error::MissingDimension)));
}

#[test]
fn missing_model_is_reported() {
    let rule = rule_with(vec![]);
    let node = ModelSourceNode {
        model_name: "nobody".to_string(),
        required_exprs: Vec::new(),
        original_table_scan: None,
    };
    let r = rule
        .generate_model_internal(Plan::Extension { node: ExtensionNode::ModelSource(node) });
    assert!(matches!(r, Err(Error::ModelNotFound)));
}

#[test]
fn non_scan_original_plan_is_an_internal_error() {
    let rule = rule_with(vec![customer_model()]);
    let node = ModelSourceNode {
        model_name: "customer".to_string(),
        required_exprs: Vec::new(),
        original_table_scan: Some(Box::new(Plan::EmptyRelation { schema: Vec::new() })),
    };
    let r = rule
        .generate_model_internal(Plan::Extension { node: ExtensionNode::ModelSource(node) });
    assert!(matches!(r, Err(Error::InvalidTableScan)));
}

#[test]
fn projection_of_unknown_column_is_rejected() {
    let rule = rule_with(vec![]);
    let plan = Plan::Projection {
        exprs: vec![col("missing")],
        input: Box::new(scan("t", &["a"])),
        schema: names(&["missing"]),
    };
    assert!(matches!(rule.generate_model_internal(plan), Err(Error::ColumnNotFound)));
}

#[test]
fn empty_aggregate_is_rejected() {
    let rule = rule_with(vec![]);
    let plan = Plan::Aggregate {
        input: Box::new(scan("t", &["a"])),
        group_exprs: Vec::new(),
        aggr_exprs: Vec::new(),
        schema: Vec::new(),
    };
    assert!(matches!(rule.generate_model_internal(plan), Err(Error::EmptyAggregate)));
}

#[test]
fn distinct_on_without_on_expressions_is_rejected() {
    let rule = rule_with(vec![]);
    let plan = Plan::DistinctOn {
        on_exprs: Vec::new(),
        select_exprs: vec![col("a")],
        sort_exprs: Vec::new(),
        input: Box::new(scan("t", &["a"])),
        schema: names(&["a"]),
    };
    assert!(matches!(rule.generate_model_internal(plan), Err(Error::EmptyDistinctOn)));
}

#[test]
fn expressions_render_like_sql_text() {
    let agg = Expr::Agg { func: "SUM".to_string(), arg: Box::new(col("x")) };
    assert_eq!(render_expr(&agg), "SUM(x)");
    assert_eq!(output_name(&agg), "SUM(x)");
    let aliased = Expr::Alias { expr: Box::new(agg), name: "total".to_string() };
    assert_eq!(render_expr(&aliased), "SUM(x) AS total");
    assert_eq!(output_name(&aliased), "total");
    assert_eq!(quoted(&"customer".to_string()), "\"customer\"");
}

#[test]
fn primitive_window_is_reconstructed_unchanged() {
    let rule = rule_with(vec![]);
    let plan = Plan::Window {
        input: Box::new(scan("t", &["a"])),
        window_exprs: vec![Expr::Agg { func: "ROW_NUMBER".to_string(), arg: Box::new(col("a")) }],
        schema: names(&["a", "ROW_NUMBER(a)"]),
    };
    let t = rule.generate_model_internal(plan).unwrap();
    assert!(t.transformed);
    match &t.data {
        Plan::Window { window_exprs, schema, .. } => {
            assert_eq!(window_exprs.len(), 1);
            assert_eq!(schema, &names(&["a", "ROW_NUMBER(a)"]));
        },
        other => panic!("expected the window back, got {:?}", other),
    }
}

#[test]
fn primitive_distinct_on_is_reconstructed_unchanged() {
    let rule = rule_with(vec![]);
    let plan = Plan::DistinctOn {
        on_exprs: vec![col("a")],
        select_exprs: vec![col("a"), col("b")],
        sort_exprs: vec![col("a")],
        input: Box::new(scan("t", &["a", "b"])),
        schema: names(&["a", "b"]),
    };
    let t = rule.generate_model_internal(plan).unwrap();
    assert!(t.transformed);
    match &t.data {
        Plan::DistinctOn { on_exprs, select_exprs, schema, .. } => {
            assert_eq!(on_exprs.len(), 1);
            assert_eq!(select_exprs.len(), 2);
            assert_eq!(schema, &names(&["a", "b"]));
        },
        other => panic!("expected the distinct-on back, got {:?}", other),
    }
}

#[test]
fn model_resolves_a_semantic_node_nested_in_its_chain() {
    let rule = rule_with(vec![customer_model()]);
    let inner = Plan::Extension {
        node: ExtensionNode::ModelSource(ModelSourceNode {
            model_name: "customer".to_string(),
            required_exprs: vec![col("c_name"), col("c_city")],
            original_table_scan: None,
        }),
    };
    let node = ModelPlanNode {
        plan_name: "customer".to_string(),
        required_exprs: vec![col("c_name")],
        relation_chain: chain_over(inner),
    };
    let t = rule
        .generate_model_internal(Plan::Extension { node: ExtensionNode::Model(node) })
        .unwrap();
    assert_eq!(schema_names(&t.data), names(&["c_name"]));
    match &t.data {
        Plan::Projection { input, .. } => match input.as_ref() {
            Plan::SubqueryAlias { alias, .. } => assert_eq!(alias, "\"customer\""),
            other => panic!("expected the resolved model source under it, got {:?}", other),
        },
        other => panic!("expected a projection, got {:?}", other),
    }
}

#[test]
fn errors_carry_their_documented_messages() {
    assert_eq!(Error::FailedSourcePlan.message(), "Failed to generate source plan");
    assert_eq!(Error::MeasureWithoutAlias.message(), "measures should have an alias");
    assert_eq!(Error::ModelNotFound.message(), "Model not found");
    assert_eq!(
        Error::InvalidTableScan.message(),
        "ModelPlanNode should have a TableScan as original_table_scan"
    );
}

#[test]
fn rule_reports_its_name() {
    let rule = rule_with(vec![]);
    assert_eq!(rule.name(), "ModelGenerationRule");
}
