//! Expressions as they travel between the nodes of a cluster: without the
//! functions themselves, which each node looks up again by id in its own
//! registry.
use vstd::prelude::*;

use crate::expr_display::DataType;

verus! {

/// An expression checked against the registry of functions: a constant, a
/// column, a cast, or a call of a function with its id, the function itself,
/// the types that instantiate its generic parameters, and its arguments.
#[derive(Debug)]
pub enum Expr<S, F> {
    Constant { span: Option<(usize, usize)>, scalar: S },
    ColumnRef { span: Option<(usize, usize)>, id: usize },
    Cast { span: Option<(usize, usize)>, expr: Box<Expr<S, F>>, dest_type: DataType },
    TryCast { span: Option<(usize, usize)>, expr: Box<Expr<S, F>>, dest_type: DataType },
    FunctionCall {
        span: Option<(usize, usize)>,
        id: usize,
        function: F,
        generics: Vec<DataType>,
        args: Vec<Expr<S, F>>,
    },
}

/// An expression as it is sent to another node: a call names its function
/// by id only.
#[derive(Debug)]
pub enum RemoteExpr<S> {
    Constant { span: Option<(usize, usize)>, scalar: S },
    ColumnRef { span: Option<(usize, usize)>, id: usize },
    Cast { span: Option<(usize, usize)>, expr: Box<RemoteExpr<S>>, dest_type: DataType },
    TryCast { span: Option<(usize, usize)>, expr: Box<RemoteExpr<S>>, dest_type: DataType },
    FunctionCall { span: Option<(usize, usize)>, id: usize, generics: Vec<DataType>, args: Vec<RemoteExpr<S>> },
}

/// What a remote expression is, its sequences taken by their elements.
pub enum RemoteView<S> {
    Constant { span: Option<(usize, usize)>, scalar: S },
    ColumnRef { span: Option<(usize, usize)>, id: usize },
    Cast { span: Option<(usize, usize)>, expr: Box<RemoteView<S>>, dest_type: DataType },
    TryCast { span: Option<(usize, usize)>, expr: Box<RemoteView<S>>, dest_type: DataType },
    FunctionCall { span: Option<(usize, usize)>, id: usize, generics: Seq<DataType>, args: Seq<RemoteView<S>> },
}

/// The view of a remote expression.
pub open spec fn remote_view<S>(r: RemoteExpr<S>) -> RemoteView<S>
    decreases r, 1nat,
{
    match r {
        RemoteExpr::Constant { span, scalar } => RemoteView::Constant { span, scalar },
        RemoteExpr::ColumnRef { span, id } => RemoteView::ColumnRef { span, id },
        RemoteExpr::Cast { span, expr, dest_type } => RemoteView::Cast {
            span,
            expr: Box::new(remote_view(*expr)),
            dest_type,
        },
        RemoteExpr::TryCast { span, expr, dest_type } => RemoteView::TryCast {
            span,
            expr: Box::new(remote_view(*expr)),
            dest_type,
        },
        RemoteExpr::FunctionCall { span, id, generics, args } => RemoteView::FunctionCall {
            span,
            id,
            generics: generics@,
            args: remote_views(args@),
        },
    }
}

/// The views of a sequence of remote expressions, in order.
pub open spec fn remote_views<S>(rs: Seq<RemoteExpr<S>>) -> Seq<RemoteView<S>>
    decreases rs, 0nat,
{
    if rs.len() == 0 {
        Seq::empty()
    } else {
        remote_views(rs.subrange(0, rs.len() - 1)).push(remote_view(rs[rs.len() - 1]))
    }
}

/// What an expression is sent as: itself without its functions.
pub open spec fn sent_view<S, F>(e: Expr<S, F>) -> RemoteView<S>
    decreases e, 1nat,
{
    match e {
        Expr::Constant { span, scalar } => RemoteView::Constant { span, scalar },
        Expr::ColumnRef { span, id } => RemoteView::ColumnRef { span, id },
        Expr::Cast { span, expr, dest_type } => RemoteView::Cast { span, expr: Box::new(sent_view(*expr)), dest_type },
        Expr::TryCast { span, expr, dest_type } => RemoteView::TryCast {
            span,
            expr: Box::new(sent_view(*expr)),
            dest_type,
        },
        Expr::FunctionCall { span, id, function: _, generics, args } => RemoteView::FunctionCall {
            span,
            id,
            generics: generics@,
            args: sent_views(args@),
        },
    }
}

/// What a sequence of expressions is sent as, in order.
pub open spec fn sent_views<S, F>(es: Seq<Expr<S, F>>) -> Seq<RemoteView<S>>
    decreases es, 0nat,
{
    if es.len() == 0 {
        Seq::empty()
    } else {
        sent_views(es.subrange(0, es.len() - 1)).push(sent_view(es[es.len() - 1]))
    }
}

proof fn lemma_remote_views<S>(rs: Seq<RemoteExpr<S>>)
    ensures
        remote_views(rs).len() == rs.len(),
        forall|i: int| 0 <= i < rs.len() ==> #[trigger] remote_views(rs)[i] == remote_view(rs[i]),
    decreases rs.len(),
{
    if rs.len() > 0 {
        lemma_remote_views(rs.subrange(0, rs.len() - 1));
    }
}

proof fn lemma_sent_views<S, F>(es: Seq<Expr<S, F>>)
    ensures
        sent_views(es).len() == es.len(),
        forall|i: int| 0 <= i < es.len() ==> #[trigger] sent_views(es)[i] == sent_view(es[i]),
    decreases es.len(),
{
    if es.len() > 0 {
        lemma_sent_views(es.subrange(0, es.len() - 1));
    }
}

/// The functions a node knows, by id.
#[derive(Debug)]
pub struct FunctionRegistry<F> {
    pub functions: Vec<Option<F>>,
}

/// Whether the registry knows every function a remote expression calls.
pub open spec fn all_registered<S, F>(r: RemoteView<S>, registry: Seq<Option<F>>) -> bool
    decreases r,
{
    match r {
        RemoteView::Constant { .. } => true,
        RemoteView::ColumnRef { .. } => true,
        RemoteView::Cast { expr, .. } => all_registered(*expr, registry),
        RemoteView::TryCast { expr, .. } => all_registered(*expr, registry),
        RemoteView::FunctionCall { id, args, .. } => {
            &&& id < registry.len()
            &&& registry[id as int] is Some
            &&& forall|i: int| 0 <= i < args.len() ==> all_registered(#[trigger] args[i], registry)
        },
    }
}

/// Whether every function an expression carries is a copy of the one the
/// registry holds under its id.
pub open spec fn functions_from<S, F: Clone>(e: Expr<S, F>, registry: Seq<Option<F>>) -> bool
    decreases e,
{
    match e {
        Expr::Constant { .. } => true,
        Expr::ColumnRef { .. } => true,
        Expr::Cast { expr, .. } => functions_from(*expr, registry),
        Expr::TryCast { expr, .. } => functions_from(*expr, registry),
        Expr::FunctionCall { id, function, args, .. } => {
            &&& id < registry.len()
            &&& (registry[id as int] matches Some(f) && cloned(f, function))
            &&& forall|i: int| 0 <= i < args@.len() ==> functions_from(#[trigger] args@[i], registry)
        },
    }
}

impl<F: Clone> FunctionRegistry<F> {
    /// The function registered under an id, if any.
    pub fn get(&self, id: usize) -> (r: Option<F>)
        ensures
            match r {
                Some(f) => id < self.functions@.len() && (self.functions@[id as int] matches Some(g) && cloned(g, f)),
                None => !(id < self.functions@.len() && self.functions@[id as int] is Some),
            },
    {
        if id < self.functions.len() {
            match &self.functions[id] {
                Some(f) => Some(f.clone()),
                None => None,
            }
        } else {
            None
        }
    }
}

impl<S> RemoteExpr<S> {
    /// The expression a node rebuilds from a remote one, looking up each
    /// function by its id; nothing when some id is not registered.
    pub fn into_expr<F: Clone>(self, fn_registry: &FunctionRegistry<F>) -> (r: Option<Expr<S, F>>)
        ensures
            match r {
                Some(e) => {
                    &&& all_registered(remote_view(self), fn_registry.functions@)
                    &&& sent_view(e) == remote_view(self)
                    &&& functions_from(e, fn_registry.functions@)
                },
                None => !all_registered(remote_view(self), fn_registry.functions@),
            },
        decreases self,
    {
        match self {
            RemoteExpr::Constant { span, scalar } => Some(Expr::Constant { span, scalar }),
            RemoteExpr::ColumnRef { span, id } => Some(Expr::ColumnRef { span, id }),
            RemoteExpr::Cast { span, expr, dest_type } => match (*expr).into_expr(fn_registry) {
                Some(e) => Some(Expr::Cast { span, expr: Box::new(e), dest_type }),
                None => None,
            },
            RemoteExpr::TryCast { span, expr, dest_type } => match (*expr).into_expr(fn_registry) {
                Some(e) => Some(Expr::TryCast { span, expr: Box::new(e), dest_type }),
                None => None,
            },
            RemoteExpr::FunctionCall { span, id, generics, args } => {
                let function = match fn_registry.get(id) {
                    Some(f) => f,
                    None => return None,
                };
                let ghost all = args@;
                let total = args.len();
                let mut exprs: Vec<Expr<S, F>> = Vec::new();
                let mut rest = args;
                let mut k: usize = 0;
                proof {
                    lemma_remote_views(all);
                }
                assert(remote_view(self) == (RemoteView::FunctionCall { span, id, generics: generics@, args: remote_views(all) }));
                while rest.len() > 0
                    invariant
                        all.len() == total,
                        k + rest@.len() == all.len(),
                        rest@ == all.subrange(k as int, all.len() as int),
                        exprs@.len() == k,
                        remote_views(all).len() == all.len(),
                        forall|i: int| 0 <= i < all.len() ==> #[trigger] remote_views(all)[i] == remote_view(all[i]),
                        forall|i: int| 0 <= i < k ==> sent_view(#[trigger] exprs@[i]) == remote_view(all[i]),
                        forall|i: int| 0 <= i < k ==> functions_from(#[trigger] exprs@[i], fn_registry.functions@),
                        forall|i: int| 0 <= i < k ==> all_registered(remote_view(#[trigger] all[i]), fn_registry.functions@),
                        forall|i: int| 0 <= i < all.len() ==> decreases_to!(self => #[trigger] all[i]),
                        remote_view(self) == (RemoteView::FunctionCall { span, id, generics: generics@, args: remote_views(all) }),
                    decreases rest@.len(),
                {
                    let a = rest.remove(0);
                    assert(a == all[k as int]);
                    match a.into_expr(fn_registry) {
                        Some(e) => {
                            exprs.push(e);
                        },
                        None => {
                            proof {
                                let call = RemoteView::FunctionCall { span, id, generics: generics@, args: remote_views(all) };
                                assert(call->FunctionCall_args[k as int] == remote_views(all)[k as int]);
                                assert(!all_registered(remote_views(all)[k as int], fn_registry.functions@));
                                assert(!all_registered(call, fn_registry.functions@));
                            }
                            return None;
                        },
                    }
                    k = k + 1;
                    assert(rest@ =~= all.subrange(k as int, all.len() as int));
                }
                proof {
                    lemma_sent_views(exprs@);
                    assert(sent_views(exprs@) =~= remote_views(all));
                }
                Some(Expr::FunctionCall { span, id, function, generics, args: exprs })
            },
        }
    }


    /// The form in which an expression is sent: the same expression, each
    /// call without its function.
    pub fn from_expr<F>(expr: Expr<S, F>) -> (r: RemoteExpr<S>)
        ensures
            remote_view(r) == sent_view(expr),
        decreases expr,
    {
        match expr {
            Expr::Constant { span, scalar } => RemoteExpr::Constant { span, scalar },
            Expr::ColumnRef { span, id } => RemoteExpr::ColumnRef { span, id },
            Expr::Cast { span, expr, dest_type } => RemoteExpr::Cast {
                span,
                expr: Box::new(RemoteExpr::from_expr(*expr)),
                dest_type,
            },
            Expr::TryCast { span, expr, dest_type } => RemoteExpr::TryCast {
                span,
                expr: Box::new(RemoteExpr::from_expr(*expr)),
                dest_type,
            },
            Expr::FunctionCall { span, id, function: _, generics, args } => {
                let ghost all = args@;
                let total = args.len();
                let mut remote_args: Vec<RemoteExpr<S>> = Vec::new();
                let mut rest = args;
                let mut k: usize = 0;
                proof {
                    lemma_sent_views(all);
                }
                while rest.len() > 0
                    invariant
                        all.len() == total,
                        k + rest@.len() == all.len(),
                        rest@ == all.subrange(k as int, all.len() as int),
                        remote_views(remote_args@) == sent_views(all.subrange(0, k as int)),
                        forall|i: int| 0 <= i < all.len() ==> decreases_to!(expr => #[trigger] all[i]),
                    decreases rest@.len(),
                {
                    let a = rest.remove(0);
                    assert(a == all[k as int]);
                    let ra = RemoteExpr::from_expr(a);
                    let ghost before = remote_args@;
                    remote_args.push(ra);
                    assert(remote_args@.subrange(0, remote_args@.len() - 1) =~= before);
                    assert(all.subrange(0, k + 1).subrange(0, k as int) =~= all.subrange(0, k as int));
                    k = k + 1;
                    assert(rest@ =~= all.subrange(k as int, all.len() as int));
                }
                assert(all.subrange(0, all.len() as int) =~= all);
                RemoteExpr::FunctionCall { span, id, generics, args: remote_args }
            },
        }
    }
}


/// An expression whose functions all come from a registry can always be
/// rebuilt, with that registry, from the form in which it is sent: every
/// function the sent form calls is registered.
pub proof fn law_sent_expression_rebuilds<S, F: Clone>(e: Expr<S, F>, registry: Seq<Option<F>>)
    requires
        functions_from(e, registry),
    ensures
        all_registered(sent_view(e), registry),
    decreases e,
{
    match e {
        Expr::Cast { expr, .. } => law_sent_expression_rebuilds(*expr, registry),
        Expr::TryCast { expr, .. } => law_sent_expression_rebuilds(*expr, registry),
        Expr::FunctionCall { args, .. } => {
            lemma_sent_views(args@);
            assert forall|i: int| 0 <= i < sent_views(args@).len() implies all_registered(
                #[trigger] sent_views(args@)[i],
                registry,
            ) by {
                assert(decreases_to!(e => args));
                assert(decreases_to!(args => args@));
                assert(decreases_to!(args@ => args@[i]));
                law_sent_expression_rebuilds(args@[i], registry);
            }
        },
        _ => {},
    }
}


/// What an expression is, its sequences taken by their elements.
pub enum ExprView<S, F> {
    Constant { span: Option<(usize, usize)>, scalar: S },
    ColumnRef { span: Option<(usize, usize)>, id: usize },
    Cast { span: Option<(usize, usize)>, expr: Box<ExprView<S, F>>, dest_type: DataType },
    TryCast { span: Option<(usize, usize)>, expr: Box<ExprView<S, F>>, dest_type: DataType },
    FunctionCall {
        span: Option<(usize, usize)>,
        id: usize,
        function: F,
        generics: Seq<DataType>,
        args: Seq<ExprView<S, F>>,
    },
}

/// The view of an expression.
pub open spec fn expr_view<S, F>(e: Expr<S, F>) -> ExprView<S, F>
    decreases e, 1nat,
{
    match e {
        Expr::Constant { span, scalar } => ExprView::Constant { span, scalar },
        Expr::ColumnRef { span, id } => ExprView::ColumnRef { span, id },
        Expr::Cast { span, expr, dest_type } => ExprView::Cast { span, expr: Box::new(expr_view(*expr)), dest_type },
        Expr::TryCast { span, expr, dest_type } => ExprView::TryCast {
            span,
            expr: Box::new(expr_view(*expr)),
            dest_type,
        },
        Expr::FunctionCall { span, id, function, generics, args } => ExprView::FunctionCall {
            span,
            id,
            function,
            generics: generics@,
            args: expr_views(args@),
        },
    }
}

/// The views of a sequence of expressions, in order.
pub open spec fn expr_views<S, F>(es: Seq<Expr<S, F>>) -> Seq<ExprView<S, F>>
    decreases es, 0nat,
{
    if es.len() == 0 {
        Seq::empty()
    } else {
        expr_views(es.subrange(0, es.len() - 1)).push(expr_view(es[es.len() - 1]))
    }
}

proof fn lemma_expr_views<S, F>(es: Seq<Expr<S, F>>)
    ensures
        expr_views(es).len() == es.len(),
        forall|i: int| 0 <= i < es.len() ==> #[trigger] expr_views(es)[i] == expr_view(es[i]),
    decreases es.len(),
{
    if es.len() > 0 {
        lemma_expr_views(es.subrange(0, es.len() - 1));
    }
}

/// Rebuilding gives back the expression that was sent: when cloning a
/// function gives that same function (as cloning a shared pointer does), an
/// expression whose functions come from a registry, and one rebuilt with
/// that registry from the same sent form, are the same expression.
pub proof fn law_rebuilt_expression_is_the_original<S, F: Clone>(
    e: Expr<S, F>,
    rebuilt: Expr<S, F>,
    registry: Seq<Option<F>>,
)
    requires
        forall|a: F, b: F| #[trigger] cloned(a, b) ==> b == a,
        functions_from(e, registry),
        functions_from(rebuilt, registry),
        sent_view(rebuilt) == sent_view(e),
    ensures
        expr_view(rebuilt) == expr_view(e),
    decreases e,
{
    match e {
        Expr::Cast { expr, .. } => {
            match rebuilt {
                Expr::Cast { expr: expr2, .. } => law_rebuilt_expression_is_the_original(*expr, *expr2, registry),
                _ => {},
            }
        },
        Expr::TryCast { expr, .. } => {
            match rebuilt {
                Expr::TryCast { expr: expr2, .. } => law_rebuilt_expression_is_the_original(*expr, *expr2, registry),
                _ => {},
            }
        },
        Expr::FunctionCall { id, function, args, .. } => {
            match rebuilt {
                Expr::FunctionCall { function: function2, args: args2, .. } => {
                    lemma_sent_views(args@);
                    lemma_sent_views(args2@);
                    lemma_expr_views(args@);
                    lemma_expr_views(args2@);
                    assert(sent_views(args2@) == sent_views(args@));
                    assert forall|i: int| 0 <= i < args@.len() implies expr_view(#[trigger] args2@[i]) == expr_view(
                        args@[i],
                    ) by {
                        assert(sent_views(args2@)[i] == sent_views(args@)[i]);
                        assert(functions_from(args@[i], registry));
                        assert(functions_from(args2@[i], registry));
                        assert(decreases_to!(e => args));
                        assert(decreases_to!(args => args@));
                        assert(decreases_to!(args@ => args@[i]));
                        law_rebuilt_expression_is_the_original(args@[i], args2@[i], registry);
                    }
                    assert(expr_views(args2@) =~= expr_views(args@));
                    let f = registry[id as int]->Some_0;
                    assert(cloned(f, function));
                    assert(cloned(f, function2));
                },
                _ => {},
            }
        },
        _ => {},
    }
}

} // verus!
