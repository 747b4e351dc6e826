//! The logical plan tree the rewrite works on, with the four semantic
//! extension node kinds, and the spec-level notions the contracts are stated
//! over: advertised and recomputed schemas, validity of the operators'
//! internal invariants, and how much semantic content a tree still holds.

use vstd::prelude::*;

use crate::expr::{all_refs_ok, name_views, names_of, Expr};

verus! {

/// Why a rewrite failed.  Any failure aborts the whole rewrite of the query.
#[derive(Clone, Copy, Debug, PartialEq, Eq, Structural)]
pub enum Error {
    /// A relation chain resolved to no plan.
    FailedSourcePlan,
    /// A calculation's leading measure is missing or carries no alias, so its
    /// output column cannot be named.
    MeasureWithoutAlias,
    /// A calculation declares no dimension to project.
    MissingDimension,
    /// A model source carried an original plan that is not a table scan: an
    /// upstream invariant was violated.
    InvalidTableScan,
    /// A model name is absent from the metadata store.  The lookup is
    /// surfaced as a typed compile-time error rather than an abort, so a
    /// stale manifest fails only the query that touched it.
    ModelNotFound,
    /// A projected, grouped or windowed expression reads a column its input
    /// does not expose.
    ColumnNotFound,
    /// An aggregation with neither grouping nor aggregate expressions.
    EmptyAggregate,
    /// A distinct-on without on-expressions.
    EmptyDistinctOn,
}

impl Error {
    /// The message the error surfaces to the caller.
    pub fn message(&self) -> (r: &'static str)
        ensures
            *self is FailedSourcePlan ==> r@ == "Failed to generate source plan"@,
            *self is MeasureWithoutAlias ==> r@ == "measures should have an alias"@,
            *self is MissingDimension ==> r@ == "calculation should have a dimension"@,
            *self is InvalidTableScan ==> r@
                == "ModelPlanNode should have a TableScan as original_table_scan"@,
            *self is ModelNotFound ==> r@ == "Model not found"@,
            *self is ColumnNotFound ==> r@ == "column not found in the input schema"@,
            *self is EmptyAggregate ==> r@
                == "Aggregate requires at least one grouping or aggregate expression"@,
            *self is EmptyDistinctOn ==> r@ == "DISTINCT ON requires at least one expression"@,
    {
        match self {
            Error::FailedSourcePlan => "Failed to generate source plan",
            Error::MeasureWithoutAlias => "measures should have an alias",
            Error::MissingDimension => "calculation should have a dimension",
            Error::InvalidTableScan => {
                "ModelPlanNode should have a TableScan as original_table_scan"
            },
            Error::ModelNotFound => "Model not found",
            Error::ColumnNotFound => "column not found in the input schema",
            Error::EmptyAggregate => {
                "Aggregate requires at least one grouping or aggregate expression"
            },
            Error::EmptyDistinctOn => "DISTINCT ON requires at least one expression",
        }
    }
}

/// An ordered sequence of relations and join predicates, already assembled by
/// the chain resolver into a single source plan; the plan may still contain
/// semantic nodes, which resolving the chain rewrites recursively.  A chain
/// that has no relations to offer holds nothing.
#[derive(Debug)]
pub struct RelationChain {
    /// The joined source, or nothing when the chain cannot produce a plan.
    pub source: Option<Box<Plan>>,
}

/// "Produce the row set of the named model projected to these columns."
#[derive(Debug)]
pub struct ModelPlanNode {
    /// The model's name, which names the resolved relation.
    pub plan_name: String,
    /// The output columns the caller requires, in order.
    pub required_exprs: Vec<Expr>,
    /// The upstream relations this model is materialized from.
    pub relation_chain: RelationChain,
}

/// "The base relation backing the named model."
#[derive(Debug)]
pub struct ModelSourceNode {
    /// The model to look up in the metadata store.
    pub model_name: String,
    /// The output columns the caller requires, in order.
    pub required_exprs: Vec<Expr>,
    /// The scan an earlier stage built, carrying pushed-down filters.
    pub original_table_scan: Option<Box<Plan>>,
}

/// "The aggregated value of a calculated field grouped by these dimensions."
#[derive(Debug)]
pub struct CalculationPlanNode {
    /// The upstream relations the calculation reads.
    pub relation_chain: RelationChain,
    /// The dimension expressions, in order; the first is the output key.
    pub dimensions: Vec<Expr>,
    /// The measure expressions; the first must be aliased, and its alias
    /// names the output column.
    pub measures: Vec<Expr>,
    /// The name of the calculated column being computed.
    pub calculation_name: String,
}

/// "Project the inner model down to exactly this column subset."
#[derive(Debug)]
pub struct PartialModelPlanNode {
    /// The model being restricted.
    pub model_node: ModelPlanNode,
    /// The names of the columns to keep, in order.
    pub required_schema: Vec<String>,
}

/// A domain-specific plan node, opaque to the engine.
#[derive(Debug)]
pub enum ExtensionNode {
    /// A semantic model restricted to required columns.
    Model(ModelPlanNode),
    /// The base relation backing a model.
    ModelSource(ModelSourceNode),
    /// A calculated field aggregated over dimensions.
    Calculation(CalculationPlanNode),
    /// A model restricted to a column subset.
    PartialModel(PartialModelPlanNode),
    /// An extension node of a kind this rule does not own; it is passed
    /// through unchanged so other rewrite stages can claim it.
    Unrecognized {
        /// Whatever name the foreign node advertises.
        name: String,
        /// The schema the foreign node advertises.
        schema: Vec<String>,
    },
}

/// A relational logical plan.  Composite operators cache the schema they were
/// built with; the cache can go stale while children are rewritten and is
/// recomputed by the driver's final pass.
#[derive(Debug)]
pub enum Plan {
    /// Projects the input to the given expressions.
    Projection { exprs: Vec<Expr>, input: Box<Plan>, schema: Vec<String> },
    /// Names the input as a relation.
    SubqueryAlias { input: Box<Plan>, alias: String, schema: Vec<String> },
    /// Groups the input and aggregates.
    Aggregate {
        input: Box<Plan>,
        group_exprs: Vec<Expr>,
        aggr_exprs: Vec<Expr>,
        schema: Vec<String>,
    },
    /// Keeps one row per value of the on-expressions.
    DistinctOn {
        on_exprs: Vec<Expr>,
        select_exprs: Vec<Expr>,
        sort_exprs: Vec<Expr>,
        input: Box<Plan>,
        schema: Vec<String>,
    },
    /// Appends window expressions to the input's columns.
    Window { input: Box<Plan>, window_exprs: Vec<Expr>, schema: Vec<String> },
    /// Filters the input; its schema is its input's.
    Filter { predicate: Expr, input: Box<Plan> },
    /// Reads a physical table, with filters already pushed down.
    TableScan { table_name: String, source_columns: Vec<String>, filters: Vec<Expr> },
    /// A relation with no rows.
    EmptyRelation { schema: Vec<String> },
    /// A domain-specific node.
    Extension { node: ExtensionNode },
}

/// The result of applying the rule to one node: the replacement plan, and
/// whether the rule counts the node as rewritten.
#[derive(Debug)]
pub struct Transformed {
    /// The replacement plan.
    pub data: Plan,
    /// Whether the node was rewritten.
    pub transformed: bool,
}

impl Transformed {
    /// A rewritten plan.
    pub fn yes(data: Plan) -> (r: Transformed)
        ensures
            r.data == data,
            r.transformed,
    {
        Transformed { data, transformed: true }
    }

    /// A plan returned unchanged.
    pub fn no(data: Plan) -> (r: Transformed)
        ensures
            r.data == data,
            !r.transformed,
    {
        Transformed { data, transformed: false }
    }
}

/// The column names an extension node advertises.
pub open spec fn ext_schema(n: ExtensionNode) -> Seq<Seq<char>> {
    match n {
        ExtensionNode::Model(mn) => names_of(mn.required_exprs@),
        ExtensionNode::ModelSource(ms) => names_of(ms.required_exprs@),
        ExtensionNode::Calculation(c) => names_of(c.dimensions@) + names_of(c.measures@),
        ExtensionNode::PartialModel(pm) => name_views(pm.required_schema@),
        ExtensionNode::Unrecognized { name: _, schema } => name_views(schema@),
    }
}

/// The column names a plan advertises: its cached schema where it has one.
pub open spec fn schema_of(p: Plan) -> Seq<Seq<char>>
    decreases p,
{
    match p {
        Plan::Projection { schema, .. } => name_views(schema@),
        Plan::SubqueryAlias { schema, .. } => name_views(schema@),
        Plan::Aggregate { schema, .. } => name_views(schema@),
        Plan::DistinctOn { schema, .. } => name_views(schema@),
        Plan::Window { schema, .. } => name_views(schema@),
        Plan::Filter { input, .. } => schema_of(*input),
        Plan::TableScan { source_columns, .. } => name_views(source_columns@),
        Plan::EmptyRelation { schema } => name_views(schema@),
        Plan::Extension { node } => ext_schema(node),
    }
}

/// The column names a plan actually produces, computed from its children and
/// ignoring every cache.
pub open spec fn computed_schema(p: Plan) -> Seq<Seq<char>>
    decreases p,
{
    match p {
        Plan::Projection { exprs, .. } => names_of(exprs@),
        Plan::SubqueryAlias { input, .. } => computed_schema(*input),
        Plan::Aggregate { group_exprs, aggr_exprs, .. } => names_of(group_exprs@) + names_of(
            aggr_exprs@,
        ),
        Plan::DistinctOn { select_exprs, .. } => names_of(select_exprs@),
        Plan::Window { input, window_exprs, .. } => computed_schema(*input) + names_of(
            window_exprs@,
        ),
        Plan::Filter { input, .. } => computed_schema(*input),
        Plan::TableScan { source_columns, .. } => name_views(source_columns@),
        Plan::EmptyRelation { schema } => name_views(schema@),
        Plan::Extension { node } => ext_schema(node),
    }
}

/// Every cached schema in the tree matches what its node produces.
pub open spec fn schemas_ok(p: Plan) -> bool
    decreases p,
{
    match p {
        Plan::Projection { exprs, input, schema } => name_views(schema@) == names_of(exprs@)
            && schemas_ok(*input),
        Plan::SubqueryAlias { input, alias: _, schema } => name_views(schema@) == schema_of(*input)
            && schemas_ok(*input),
        Plan::Aggregate { input, group_exprs, aggr_exprs, schema } => name_views(schema@)
            == names_of(group_exprs@) + names_of(aggr_exprs@) && schemas_ok(*input),
        Plan::DistinctOn { select_exprs, input, schema, .. } => name_views(schema@) == names_of(
            select_exprs@,
        ) && schemas_ok(*input),
        Plan::Window { input, window_exprs, schema } => name_views(schema@) == schema_of(*input)
            + names_of(window_exprs@) && schemas_ok(*input),
        Plan::Filter { input, .. } => schemas_ok(*input),
        Plan::TableScan { .. } => true,
        Plan::EmptyRelation { .. } => true,
        Plan::Extension { .. } => true,
    }
}

/// When every cached schema matches its node, the advertised schema is the
/// recomputed one.
pub proof fn lemma_schemas_ok_computed(p: Plan)
    requires
        schemas_ok(p),
    ensures
        schema_of(p) == computed_schema(p),
    decreases p,
{
    match p {
        Plan::Projection { input, .. } => lemma_schemas_ok_computed(*input),
        Plan::SubqueryAlias { input, .. } => lemma_schemas_ok_computed(*input),
        Plan::Aggregate { input, .. } => lemma_schemas_ok_computed(*input),
        Plan::DistinctOn { input, .. } => lemma_schemas_ok_computed(*input),
        Plan::Window { input, .. } => lemma_schemas_ok_computed(*input),
        Plan::Filter { input, .. } => lemma_schemas_ok_computed(*input),
        Plan::TableScan { .. } => {},
        Plan::EmptyRelation { .. } => {},
        Plan::Extension { .. } => {},
    }
}

/// A projection can be built over an input with these columns.
pub open spec fn projection_ok(exprs: Seq<Expr>, input_schema: Seq<Seq<char>>) -> bool {
    all_refs_ok(exprs, input_schema)
}

/// An aggregation can be built over an input with these columns.
pub open spec fn aggregate_ok(
    group_exprs: Seq<Expr>,
    aggr_exprs: Seq<Expr>,
    input_schema: Seq<Seq<char>>,
) -> bool {
    group_exprs.len() + aggr_exprs.len() > 0 && all_refs_ok(group_exprs, input_schema)
        && all_refs_ok(aggr_exprs, input_schema)
}

/// A distinct-on can be built over an input with these columns.
pub open spec fn distinct_on_ok(
    on_exprs: Seq<Expr>,
    select_exprs: Seq<Expr>,
    input_schema: Seq<Seq<char>>,
) -> bool {
    on_exprs.len() > 0 && all_refs_ok(on_exprs, input_schema) && all_refs_ok(
        select_exprs,
        input_schema,
    )
}

/// A window can be built over an input with these columns.
pub open spec fn window_ok(window_exprs: Seq<Expr>, input_schema: Seq<Seq<char>>) -> bool {
    all_refs_ok(window_exprs, input_schema)
}

/// Every operator of the tree satisfies its constructor's invariant against
/// the schema its input advertises.
pub open spec fn valid_all(p: Plan) -> bool
    decreases p,
{
    match p {
        Plan::Projection { exprs, input, .. } => projection_ok(exprs@, schema_of(*input))
            && valid_all(*input),
        Plan::SubqueryAlias { input, .. } => valid_all(*input),
        Plan::Aggregate { input, group_exprs, aggr_exprs, .. } => aggregate_ok(
            group_exprs@,
            aggr_exprs@,
            schema_of(*input),
        ) && valid_all(*input),
        Plan::DistinctOn { on_exprs, select_exprs, input, .. } => distinct_on_ok(
            on_exprs@,
            select_exprs@,
            schema_of(*input),
        ) && valid_all(*input),
        Plan::Window { input, window_exprs, .. } => window_ok(window_exprs@, schema_of(*input))
            && valid_all(*input),
        Plan::Filter { input, .. } => valid_all(*input),
        Plan::TableScan { .. } => true,
        Plan::EmptyRelation { .. } => true,
        Plan::Extension { .. } => true,
    }
}

/// No semantic node is left anywhere in the tree.  Unrecognized extension
/// nodes may remain: they belong to other rewrite stages.
pub open spec fn resolved(p: Plan) -> bool
    decreases p,
{
    match p {
        Plan::Projection { input, .. } => resolved(*input),
        Plan::SubqueryAlias { input, .. } => resolved(*input),
        Plan::Aggregate { input, .. } => resolved(*input),
        Plan::DistinctOn { input, .. } => resolved(*input),
        Plan::Window { input, .. } => resolved(*input),
        Plan::Filter { input, .. } => resolved(*input),
        Plan::TableScan { .. } => true,
        Plan::EmptyRelation { .. } => true,
        Plan::Extension { node } => node matches ExtensionNode::Unrecognized { .. },
    }
}

/// The plan's root is one of the four semantic node kinds.
pub open spec fn is_semantic(p: Plan) -> bool {
    match p {
        Plan::Extension { node } => !(node matches ExtensionNode::Unrecognized { .. }),
        _ => false,
    }
}

/// Whether the rule reports this node as rewritten when it succeeds on it:
/// primitives are rebuilt, semantic nodes are expanded, and pass-through
/// nodes (including a model source reduced to a bare count-style scan) are
/// left as they are.
pub open spec fn rule_transforms(p: Plan) -> bool {
    match p {
        Plan::Projection { .. } => true,
        Plan::SubqueryAlias { .. } => true,
        Plan::Aggregate { .. } => true,
        Plan::DistinctOn { .. } => true,
        Plan::Window { .. } => true,
        Plan::Filter { .. } => false,
        Plan::TableScan { .. } => false,
        Plan::EmptyRelation { .. } => false,
        Plan::Extension { node } => match node {
            ExtensionNode::ModelSource(ms) => ms.required_exprs@.len() > 0,
            ExtensionNode::Unrecognized { .. } => false,
            _ => true,
        },
    }
}

/// The plan's root is not a semantic node.
pub open spec fn top_not_semantic(p: Plan) -> bool {
    match p {
        Plan::Extension { node } => node matches ExtensionNode::Unrecognized { .. },
        _ => true,
    }
}

/// Some semantic node of the tree owns a relation chain that resolves to no
/// plan, so the rewrite is bound to fail.
pub open spec fn doomed(p: Plan) -> bool
    decreases p,
{
    match p {
        Plan::Projection { input, .. } => doomed(*input),
        Plan::SubqueryAlias { input, .. } => doomed(*input),
        Plan::Aggregate { input, .. } => doomed(*input),
        Plan::DistinctOn { input, .. } => doomed(*input),
        Plan::Window { input, .. } => doomed(*input),
        Plan::Filter { input, .. } => doomed(*input),
        Plan::TableScan { .. } => false,
        Plan::EmptyRelation { .. } => false,
        Plan::Extension { node } => match node {
            ExtensionNode::Model(mn) => chain_doomed(mn.relation_chain),
            ExtensionNode::Calculation(c) => chain_doomed(c.relation_chain),
            ExtensionNode::PartialModel(pm) => chain_doomed(pm.model_node.relation_chain),
            ExtensionNode::ModelSource(_) => false,
            ExtensionNode::Unrecognized { .. } => false,
        },
    }
}

/// The chain has no source, or its source is itself bound to fail.
pub open spec fn chain_doomed(ch: RelationChain) -> bool
    decreases ch,
{
    match ch.source {
        None => true,
        Some(p) => doomed(*p),
    }
}

/// The two trees are identical in shape, expressions, names and leaves:
/// only the schema caches of their composite operators may differ.
pub open spec fn same_shape(a: Plan, b: Plan) -> bool
    decreases a,
{
    match a {
        Plan::Projection { exprs, input, schema: _ } => b matches Plan::Projection {
            exprs: e2,
            input: i2,
            schema: _,
        } && e2 == exprs && same_shape(*input, *i2),
        Plan::SubqueryAlias { input, alias, schema: _ } => b matches Plan::SubqueryAlias {
            input: i2,
            alias: a2,
            schema: _,
        } && a2 == alias && same_shape(*input, *i2),
        Plan::Aggregate { input, group_exprs, aggr_exprs, schema: _ } => b
            matches Plan::Aggregate { input: i2, group_exprs: g2, aggr_exprs: ag2, schema: _ }
            && g2 == group_exprs && ag2 == aggr_exprs && same_shape(*input, *i2),
        Plan::DistinctOn { on_exprs, select_exprs, sort_exprs, input, schema: _ } => b
            matches Plan::DistinctOn {
            on_exprs: o2,
            select_exprs: se2,
            sort_exprs: so2,
            input: i2,
            schema: _,
        } && o2 == on_exprs && se2 == select_exprs && so2 == sort_exprs && same_shape(
            *input,
            *i2,
        ),
        Plan::Window { input, window_exprs, schema: _ } => b matches Plan::Window {
            input: i2,
            window_exprs: w2,
            schema: _,
        } && w2 == window_exprs && same_shape(*input, *i2),
        Plan::Filter { predicate, input } => b matches Plan::Filter {
            predicate: pr2,
            input: i2,
        } && pr2 == predicate && same_shape(*input, *i2),
        Plan::TableScan { .. } => b == a,
        Plan::EmptyRelation { .. } => b == a,
        Plan::Extension { .. } => b == a,
    }
}

/// No partial-model node stands anywhere in the tree, relation chains and
/// inner models included.  The bottom-up pass fully resolves such a tree on
/// its own: only a partial model leaves a residue for the top-down pass.
pub open spec fn no_partial_model(p: Plan) -> bool
    decreases p,
{
    match p {
        Plan::Projection { input, .. } => no_partial_model(*input),
        Plan::SubqueryAlias { input, .. } => no_partial_model(*input),
        Plan::Aggregate { input, .. } => no_partial_model(*input),
        Plan::DistinctOn { input, .. } => no_partial_model(*input),
        Plan::Window { input, .. } => no_partial_model(*input),
        Plan::Filter { input, .. } => no_partial_model(*input),
        Plan::TableScan { .. } => true,
        Plan::EmptyRelation { .. } => true,
        Plan::Extension { node } => match node {
            ExtensionNode::Model(mn) => chain_no_partial(mn.relation_chain),
            ExtensionNode::ModelSource(_) => true,
            ExtensionNode::Calculation(c) => chain_no_partial(c.relation_chain),
            ExtensionNode::PartialModel(_) => false,
            ExtensionNode::Unrecognized { .. } => true,
        },
    }
}

/// No partial-model node stands anywhere in the chain's source.
pub open spec fn chain_no_partial(ch: RelationChain) -> bool
    decreases ch,
{
    match ch.source {
        None => true,
        Some(p) => no_partial_model(*p),
    }
}

/// A structural height used to bound the rewrite's recursion; partial models
/// weigh extra because resolving one builds and revisits an aliased copy of
/// the inner model.
pub open spec fn plan_height(p: Plan) -> nat
    decreases p,
{
    match p {
        Plan::Projection { input, .. } => 1 + plan_height(*input),
        Plan::SubqueryAlias { input, .. } => 1 + plan_height(*input),
        Plan::Aggregate { input, .. } => 1 + plan_height(*input),
        Plan::DistinctOn { input, .. } => 1 + plan_height(*input),
        Plan::Window { input, .. } => 1 + plan_height(*input),
        Plan::Filter { input, .. } => 1 + plan_height(*input),
        Plan::TableScan { .. } => 1,
        Plan::EmptyRelation { .. } => 1,
        Plan::Extension { node } => 1 + ext_height(node),
    }
}

/// The height of an extension node.
pub open spec fn ext_height(n: ExtensionNode) -> nat
    decreases n,
{
    match n {
        ExtensionNode::Model(mn) => 1 + chain_height(mn.relation_chain),
        ExtensionNode::ModelSource(_) => 1,
        ExtensionNode::Calculation(c) => 1 + chain_height(c.relation_chain),
        ExtensionNode::PartialModel(pm) => 4 + chain_height(pm.model_node.relation_chain),
        ExtensionNode::Unrecognized { .. } => 1,
    }
}

/// The height of a relation chain.
pub open spec fn chain_height(ch: RelationChain) -> nat
    decreases ch,
{
    match ch.source {
        None => 1,
        Some(p) => 1 + plan_height(*p),
    }
}

/// How much semantic content a tree still holds.  Each pass of the rule
/// strictly shrinks it at every semantic node it resolves, which is why the
/// bottom-up-then-top-down traversal terminates and leaves none.
pub open spec fn sem_measure(p: Plan) -> nat
    decreases p,
{
    match p {
        Plan::Projection { input, .. } => sem_measure(*input),
        Plan::SubqueryAlias { input, .. } => sem_measure(*input),
        Plan::Aggregate { input, .. } => sem_measure(*input),
        Plan::DistinctOn { input, .. } => sem_measure(*input),
        Plan::Window { input, .. } => sem_measure(*input),
        Plan::Filter { input, .. } => sem_measure(*input),
        Plan::TableScan { .. } => 0,
        Plan::EmptyRelation { .. } => 0,
        Plan::Extension { node } => ext_sem(node),
    }
}

/// The semantic content of an extension node.
pub open spec fn ext_sem(n: ExtensionNode) -> nat
    decreases n,
{
    match n {
        ExtensionNode::Model(mn) => 1 + chain_sem(mn.relation_chain),
        ExtensionNode::ModelSource(_) => 1,
        ExtensionNode::Calculation(c) => 1 + chain_sem(c.relation_chain),
        ExtensionNode::PartialModel(pm) => 3 + chain_sem(pm.model_node.relation_chain),
        ExtensionNode::Unrecognized { .. } => 0,
    }
}

/// The semantic content of a relation chain.
pub open spec fn chain_sem(ch: RelationChain) -> nat
    decreases ch,
{
    match ch.source {
        None => 0,
        Some(p) => sem_measure(*p),
    }
}

} // verus!
