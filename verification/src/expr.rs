//! Scalar expressions, reduced to what the rewrite reads: column references,
//! aliases, and aggregate calls.  Each expression has an output name (the
//! column name it produces in a schema) and a rendered text (how it prints,
//! which is how aggregation outputs are addressed by later projections).

use vstd::prelude::*;
use vstd::string::StringExecFns;

verus! {

/// A scalar expression of a logical plan.
#[derive(Debug)]
pub enum Expr {
    /// A reference to a column of the input relation, by name.
    Column { name: String },
    /// An expression renamed to `name` (`expr AS name`).
    Alias { expr: Box<Expr>, name: String },
    /// An aggregate call `func(arg)`.
    Agg { func: String, arg: Box<Expr> },
}

/// The text an expression renders to.
pub open spec fn expr_render(e: Expr) -> Seq<char>
    decreases e,
{
    match e {
        Expr::Column { name } => name@,
        Expr::Alias { expr, name } => expr_render(*expr) + " AS "@ + name@,
        Expr::Agg { func, arg } => func@ + "("@ + expr_render(*arg) + ")"@,
    }
}

/// The name of the output column an expression produces: an alias names its
/// output directly, a column keeps its own name, and anything else is named
/// by its rendered text.
pub open spec fn expr_output_name(e: Expr) -> Seq<char> {
    match e {
        Expr::Column { name } => name@,
        Expr::Alias { expr: _, name } => name@,
        Expr::Agg { func: _, arg: _ } => expr_render(e),
    }
}

/// The name of the input column an expression reads: an expression here is a
/// column reference under any number of aliases and aggregate calls, so it
/// reads exactly one input column.
pub open spec fn base_ref(e: Expr) -> Seq<char>
    decreases e,
{
    match e {
        Expr::Column { name } => name@,
        Expr::Alias { expr, name: _ } => base_ref(*expr),
        Expr::Agg { func: _, arg } => base_ref(*arg),
    }
}

/// The views of a sequence of strings.
pub open spec fn name_views(v: Seq<String>) -> Seq<Seq<char>> {
    v.map_values(|s: String| s@)
}

/// The output names of a sequence of expressions, in order.
pub open spec fn names_of(es: Seq<Expr>) -> Seq<Seq<char>> {
    es.map_values(|e: Expr| expr_output_name(e))
}

/// The column the expression reads is present in `schema`.
pub open spec fn refs_ok(e: Expr, schema: Seq<Seq<char>>) -> bool {
    schema.contains(base_ref(e))
}

/// Every column read by any of the expressions is present in `schema`.
pub open spec fn all_refs_ok(es: Seq<Expr>, schema: Seq<Seq<char>>) -> bool {
    forall|i: int| 0 <= i < es.len() ==> refs_ok(#[trigger] es[i], schema)
}

impl Expr {
    /// A structural copy of the expression.
    pub fn duplicate(&self) -> (r: Expr)
        ensures
            r == *self,
        decreases *self,
    {
        match self {
            Expr::Column { name } => Expr::Column { name: name.clone() },
            Expr::Alias { expr, name } => Expr::Alias {
                expr: Box::new(expr.duplicate()),
                name: name.clone(),
            },
            Expr::Agg { func, arg } => Expr::Agg {
                func: func.clone(),
                arg: Box::new(arg.duplicate()),
            },
        }
    }
}

/// Renders an expression to its text.
pub fn render_expr(e: &Expr) -> (r: String)
    ensures
        r@ == expr_render(*e),
    decreases *e,
{
    match e {
        Expr::Column { name } => name.clone(),
        Expr::Alias { expr, name } => {
            let mut s = render_expr(expr);
            s.append(" AS ");
            s.append(name.as_str());
            s
        },
        Expr::Agg { func, arg } => {
            let mut s = func.clone();
            s.append("(");
            let inner = render_expr(arg);
            s.append(inner.as_str());
            s.append(")");
            s
        },
    }
}

/// The name of the output column an expression produces.
pub fn output_name(e: &Expr) -> (r: String)
    ensures
        r@ == expr_output_name(*e),
{
    match e {
        Expr::Column { name } => name.clone(),
        Expr::Alias { expr: _, name } => name.clone(),
        Expr::Agg { func: _, arg: _ } => render_expr(e),
    }
}

/// The output names of the expressions, in order.
pub fn output_names(es: &Vec<Expr>) -> (r: Vec<String>)
    ensures
        name_views(r@) == names_of(es@),
{
    let mut r: Vec<String> = Vec::new();
    let mut i: usize = 0;
    while i < es.len()
        invariant
            0 <= i <= es.len(),
            r@.len() == i,
            forall|k: int| 0 <= k < i ==> r@[k]@ == expr_output_name(es@[k]),
        decreases es.len() - i,
    {
        r.push(output_name(&es[i]));
        i = i + 1;
    }
    proof {
        assert(name_views(r@) =~= names_of(es@));
    }
    r
}

/// Whether `schema` holds a column named `name`.
pub fn contains_name(schema: &Vec<String>, name: &String) -> (b: bool)
    ensures
        b == name_views(schema@).contains(name@),
{
    let mut i: usize = 0;
    while i < schema.len()
        invariant
            0 <= i <= schema.len(),
            forall|k: int| 0 <= k < i ==> name_views(schema@)[k] != name@,
        decreases schema.len() - i,
    {
        if schema[i].eq(name) {
            assert(name_views(schema@)[i as int] == schema@[i as int]@);
            return true;
        }
        i = i + 1;
    }
    false
}

/// Whether every column the expression reads is present in `schema`.
pub fn expr_refs_ok(e: &Expr, schema: &Vec<String>) -> (b: bool)
    ensures
        b == refs_ok(*e, name_views(schema@)),
    decreases *e,
{
    match e {
        Expr::Column { name } => contains_name(schema, name),
        Expr::Alias { expr, name: _ } => expr_refs_ok(expr, schema),
        Expr::Agg { func: _, arg } => expr_refs_ok(arg, schema),
    }
}

/// Whether every column read by any of the expressions is present in `schema`.
pub fn exprs_refs_ok(es: &Vec<Expr>, schema: &Vec<String>) -> (b: bool)
    ensures
        b == all_refs_ok(es@, name_views(schema@)),
{
    let mut i: usize = 0;
    while i < es.len()
        invariant
            0 <= i <= es.len(),
            forall|k: int| 0 <= k < i ==> refs_ok(#[trigger] es@[k], name_views(schema@)),
        decreases es.len() - i,
    {
        if !expr_refs_ok(&es[i], schema) {
            return false;
        }
        i = i + 1;
    }
    true
}

} // verus!
