//! The scopes of names that the binder keeps while it binds a query: the
//! columns visible in each scope, and how a column reference is resolved
//! against them, from the innermost scope outwards.
use vstd::prelude::*;

use crate::data_type::DataTypeImpl;
use crate::data_type::TypeView;
use crate::error_code::ErrorCode;
use crate::error_code::ErrorKind;
use crate::text::push_decimal;
use crate::text::push_str;
use crate::text::decimal;

verus! {

/// The lower-case form of a string, by the Unicode rules of `str::to_lowercase`.
pub uninterp spec fn lowercase(s: Seq<char>) -> Seq<char>;

/// Lower-cases a string (`str::to_lowercase`); the result is a function of
/// the string alone, named `lowercase`.
#[verifier::external_body]
pub(crate) fn to_lowercase(s: &str) -> (r: String)
    ensures
        r@ == lowercase(s@),
{
    s.to_lowercase()
}

/// The characters of an optional string.
pub open spec fn opt_view(o: Option<String>) -> Option<Seq<char>> {
    match o {
        Some(s) => Some(s@),
        None => None,
    }
}

/// A copy of an optional string.
pub fn clone_opt_string(o: &Option<String>) -> (r: Option<String>)
    ensures
        opt_view(r) == opt_view(*o),
{
    match o {
        Some(s) => Some(s.clone()),
        None => None,
    }
}

/// The lower-case form of an optional string.
pub open spec fn opt_lowercase(o: Option<Seq<char>>) -> Option<Seq<char>> {
    match o {
        Some(s) => Some(lowercase(s)),
        None => None,
    }
}

fn opt_to_lowercase(o: Option<&str>) -> (r: Option<String>)
    ensures
        opt_view(r) == opt_lowercase(match o { Some(s) => Some(s@), None => None }),
{
    match o {
        Some(s) => Some(to_lowercase(s)),
        None => None,
    }
}

/// A column visible in a scope: where it comes from, its name, its index
/// among the query's columns and its type.
#[derive(Debug)]
pub struct ColumnBinding {
    pub database_name: Option<String>,
    pub table_name: Option<String>,
    pub column_name: String,
    pub index: usize,
    pub data_type: Box<DataTypeImpl>,
    /// False for a column that a `USING` join shares with another, which an
    /// unqualified `*` shows only once.
    pub visible_in_unqualified_wildcard: bool,
}

/// What a column binding is.
pub struct ColumnBindingView {
    pub database_name: Option<Seq<char>>,
    pub table_name: Option<Seq<char>>,
    pub column_name: Seq<char>,
    pub index: usize,
    pub data_type: TypeView,
    pub visible_in_unqualified_wildcard: bool,
}

impl View for ColumnBinding {
    type V = ColumnBindingView;

    open spec fn view(&self) -> ColumnBindingView {
        ColumnBindingView {
            database_name: opt_view(self.database_name),
            table_name: opt_view(self.table_name),
            column_name: self.column_name@,
            index: self.index,
            data_type: (*self.data_type)@,
            visible_in_unqualified_wildcard: self.visible_in_unqualified_wildcard,
        }
    }
}

impl Clone for ColumnBinding {
    /// A copy of the binding.
    fn clone(&self) -> (r: Self)
        ensures
            r@ == self@,
    {
        let t = (*self.data_type).clone();
        ColumnBinding {
            database_name: clone_opt_string(&self.database_name),
            table_name: clone_opt_string(&self.table_name),
            column_name: self.column_name.clone(),
            index: self.index,
            data_type: Box::new(t),
            visible_in_unqualified_wildcard: self.visible_in_unqualified_wildcard,
        }
    }
}

/// The views of a sequence of bindings, in order.
pub open spec fn bindings_view(bs: Seq<ColumnBinding>) -> Seq<ColumnBindingView> {
    Seq::new(bs.len(), |i: int| bs[i]@)
}

/// Whether a reference names a binding; the names of the reference are
/// already lower-cased. Without a table, the column name decides; with a
/// table, the binding's table must be it too; with a database, the
/// binding's database as well. A database without a table names nothing.
pub open spec fn binding_matches(
    database: Option<Seq<char>>,
    table: Option<Seq<char>>,
    column: Seq<char>,
    b: ColumnBindingView,
) -> bool {
    match (database, table) {
        (None, None) => column == b.column_name,
        (None, Some(t)) => b.table_name == Some(t) && column == b.column_name,
        (Some(d), Some(t)) => b.database_name == Some(d) && b.table_name == Some(t) && column == b.column_name,
        (Some(_), None) => false,
    }
}

/// Whether a reference names a binding (`match_column_binding`); the
/// reference's names are lower-cased first.
pub fn match_column_binding(database: Option<&str>, table: Option<&str>, column: &str, column_binding: &ColumnBinding) -> (r: bool)
    ensures
        r == binding_matches(
            opt_lowercase(match database { Some(s) => Some(s@), None => None }),
            opt_lowercase(match table { Some(s) => Some(s@), None => None }),
            lowercase(column@),
            column_binding@,
        ),
{
    let d = opt_to_lowercase(database);
    let t = opt_to_lowercase(table);
    let c = to_lowercase(column);
    match_lowered(&d, &t, &c, column_binding)
}

/// Whether a reference whose names are already lower-cased names a binding.
pub fn match_lowered(database: &Option<String>, table: &Option<String>, column: &String, column_binding: &ColumnBinding) -> (r: bool)
    ensures
        r == binding_matches(opt_view(*database), opt_view(*table), column@, column_binding@),
{
    let column_eq = *column == column_binding.column_name;
    match (database, table) {
        (None, None) => column_eq,
        (None, Some(t)) => match &column_binding.table_name {
            Some(tn) => *t == *tn && column_eq,
            None => false,
        },
        (Some(d), Some(t)) => match (&column_binding.database_name, &column_binding.table_name) {
            (Some(dn), Some(tn)) => *d == *dn && *t == *tn && column_eq,
            _ => false,
        },
        (Some(_), None) => false,
    }
}

/// The free variables of a query, scope by scope: the columns of this
/// scope, the enclosing scope, whether the scope aggregates, and the output
/// format asked for.
#[derive(Debug)]
pub struct BindContext {
    pub parent: Option<Box<BindContext>>,
    pub columns: Vec<ColumnBinding>,
    /// Whether the scope aggregates: non-grouping columns can then be used
    /// only inside aggregate functions.
    pub in_grouping: bool,
    /// The format of the query's output, as in `SELECT 1 FORMAT CSV`.
    pub format: Option<String>,
}

/// What a scope is.
pub struct BindContextView {
    pub parent: Option<Box<BindContextView>>,
    pub columns: Seq<ColumnBindingView>,
    pub in_grouping: bool,
    pub format: Option<Seq<char>>,
}

/// The view of a scope and the scopes around it.
pub open spec fn context_view(c: BindContext) -> BindContextView
    decreases c,
{
    BindContextView {
        parent: match c.parent {
            Some(p) => Some(Box::new(context_view(*p))),
            None => None,
        },
        columns: bindings_view(c.columns@),
        in_grouping: c.in_grouping,
        format: opt_view(c.format),
    }
}

impl View for BindContext {
    type V = BindContextView;

    open spec fn view(&self) -> BindContextView {
        context_view(*self)
    }
}

/// Copies the bindings of a scope.
fn clone_bindings(bs: &Vec<ColumnBinding>) -> (r: Vec<ColumnBinding>)
    ensures
        bindings_view(r@) == bindings_view(bs@),
{
    let mut r: Vec<ColumnBinding> = Vec::new();
    let mut i: usize = 0;
    while i < bs.len()
        invariant
            i <= bs@.len(),
            r@.len() == i,
            forall|j: int| 0 <= j < i ==> (#[trigger] r@[j])@ == bs@[j]@,
        decreases bs@.len() - i,
    {
        r.push(bs[i].clone());
        i = i + 1;
    }
    assert(bindings_view(r@) =~= bindings_view(bs@));
    r
}

impl Clone for BindContext {
    /// A copy of the scope and of the scopes around it.
    fn clone(&self) -> (r: Self)
        ensures
            r@ == self@,
        decreases self,
    {
        let parent = match &self.parent {
            Some(p) => Some(Box::new((**p).clone())),
            None => None,
        };
        BindContext {
            parent,
            columns: clone_bindings(&self.columns),
            in_grouping: self.in_grouping,
            format: clone_opt_string(&self.format),
        }
    }
}

impl Default for BindContext {
    /// A scope with nothing in it and no enclosing scope.
    fn default() -> (r: BindContext)
        ensures
            r@.parent is None,
            r@.columns == Seq::<ColumnBindingView>::empty(),
            !r@.in_grouping,
            r@.format is None,
    {
        BindContext { parent: None, columns: Vec::new(), in_grouping: false, format: None }
    }
}

/// The bindings of a scope that a reference names, in order.
pub open spec fn matching_bindings(
    bs: Seq<ColumnBindingView>,
    database: Option<Seq<char>>,
    table: Option<Seq<char>>,
    column: Seq<char>,
) -> Seq<ColumnBindingView>
    decreases bs.len(),
{
    if bs.len() == 0 {
        Seq::empty()
    } else {
        let rest = matching_bindings(bs.drop_last(), database, table, column);
        if binding_matches(database, table, column, bs.last()) {
            rest.push(bs.last())
        } else {
            rest
        }
    }
}

/// The bindings a reference names in the nearest scope, from this one
/// outwards, where it names any.
pub open spec fn scope_matches(
    c: BindContextView,
    database: Option<Seq<char>>,
    table: Option<Seq<char>>,
    column: Seq<char>,
) -> Seq<ColumnBindingView>
    decreases c,
{
    let here = matching_bindings(c.columns, database, table, column);
    if here.len() > 0 {
        here
    } else {
        match c.parent {
            Some(p) => scope_matches(*p, database, table, column),
            None => Seq::empty(),
        }
    }
}

/// The number of aliases named `column`.
pub open spec fn alias_count<S>(aliases: Seq<(String, S)>, column: Seq<char>) -> nat
    decreases aliases.len(),
{
    if aliases.len() == 0 {
        0
    } else {
        alias_count(aliases.drop_last(), column) + if aliases.last().0@ == column { 1nat } else { 0nat }
    }
}

/// A name resolved: a column of some scope, or an alias of the select list
/// with the expression it stands for.
#[derive(Debug)]
pub enum NameResolutionResult<S> {
    Column(ColumnBinding),
    Alias { alias: String, scalar: S },
}

/// Whether an error is the binder's error with the given message.
pub open spec fn is_semantic_error(e: ErrorCode, message: Seq<char>) -> bool {
    e.kind == ErrorKind::SemanticError && e.message@ == message
}

/// How a reference whose names are lower-cased resolves: an unqualified
/// name that is an alias of the select list resolves to the alias, which
/// must be unique; otherwise to the one binding it names in the nearest
/// scope that has any. No match is the error "column doesn't exist", more
/// than one "column reference is ambiguous".
pub open spec fn resolution_ok<S: Clone>(
    c: BindContextView,
    database: Option<Seq<char>>,
    table: Option<Seq<char>>,
    column: Seq<char>,
    aliases: Seq<(String, S)>,
    r: Result<NameResolutionResult<S>, ErrorCode>,
) -> bool {
    let n_alias = if database is None && table is None { alias_count(aliases, column) } else { 0 };
    if n_alias > 0 {
        if n_alias > 1 {
            r matches Err(e) && is_semantic_error(e, "column reference is ambiguous"@)
        } else {
            r matches Ok(NameResolutionResult::Alias { alias, scalar }) && alias@ == column && exists|k: int|
                #![trigger aliases[k]] 0 <= k < aliases.len() && aliases[k].0@ == column && cloned(aliases[k].1, scalar)
        }
    } else {
        let ms = scope_matches(c, database, table, column);
        if ms.len() == 0 {
            r matches Err(e) && is_semantic_error(e, "column doesn't exist"@)
        } else if ms.len() > 1 {
            r matches Err(e) && is_semantic_error(e, "column reference is ambiguous"@)
        } else {
            r matches Ok(NameResolutionResult::Column(b)) && b@ == ms[0]
        }
    }
}

/// A scope that binds nothing resolves names as its enclosing scope does:
/// entering a subquery changes nothing until it binds columns.
pub proof fn law_empty_scope_resolves_as_parent(
    c: BindContextView,
    database: Option<Seq<char>>,
    table: Option<Seq<char>>,
    column: Seq<char>,
)
    ensures
        scope_matches(
            BindContextView { parent: Some(Box::new(c)), columns: Seq::empty(), in_grouping: false, format: None },
            database,
            table,
            column,
        ) == scope_matches(c, database, table, column),
{
    let inner = BindContextView { parent: Some(Box::new(c)), columns: Seq::empty(), in_grouping: false, format: None };
    assert(matching_bindings(inner.columns, database, table, column).len() == 0);
}

/// The innermost scope that binds a name hides the scopes around it.
pub proof fn law_inner_scope_shadows(
    c: BindContextView,
    database: Option<Seq<char>>,
    table: Option<Seq<char>>,
    column: Seq<char>,
)
    requires
        matching_bindings(c.columns, database, table, column).len() > 0,
    ensures
        scope_matches(c, database, table, column) == matching_bindings(c.columns, database, table, column),
{
}

/// A reference resolves only to bindings that it names.
pub proof fn law_resolved_bindings_match(
    c: BindContextView,
    database: Option<Seq<char>>,
    table: Option<Seq<char>>,
    column: Seq<char>,
    i: int,
)
    requires
        0 <= i < scope_matches(c, database, table, column).len(),
    ensures
        binding_matches(database, table, column, scope_matches(c, database, table, column)[i]),
    decreases c,
{
    let here = matching_bindings(c.columns, database, table, column);
    if here.len() > 0 {
        lemma_matching_bindings_match(c.columns, database, table, column, i);
    } else {
        match c.parent {
            Some(p) => law_resolved_bindings_match(*p, database, table, column, i),
            None => {},
        }
    }
}

proof fn lemma_matching_bindings_match(
    bs: Seq<ColumnBindingView>,
    database: Option<Seq<char>>,
    table: Option<Seq<char>>,
    column: Seq<char>,
    i: int,
)
    requires
        0 <= i < matching_bindings(bs, database, table, column).len(),
    ensures
        binding_matches(database, table, column, matching_bindings(bs, database, table, column)[i]),
    decreases bs.len(),
{
    if bs.len() > 0 {
        let rest = matching_bindings(bs.drop_last(), database, table, column);
        if i < rest.len() {
            lemma_matching_bindings_match(bs.drop_last(), database, table, column, i);
        }
    }
}

/// The bindings a lower-cased reference names, in the nearest scope that
/// has any.
fn find_in_scopes(c: &BindContext, database: &Option<String>, table: &Option<String>, column: &String) -> (r: Vec<ColumnBinding>)
    ensures
        bindings_view(r@) == scope_matches(c@, opt_view(*database), opt_view(*table), column@),
    decreases c,
{
    let ghost d = opt_view(*database);
    let ghost t = opt_view(*table);
    let mut found: Vec<ColumnBinding> = Vec::new();
    let mut i: usize = 0;
    while i < c.columns.len()
        invariant
            i <= c.columns@.len(),
            d == opt_view(*database),
            t == opt_view(*table),
            bindings_view(found@) == matching_bindings(bindings_view(c.columns@).subrange(0, i as int), d, t, column@),
        decreases c.columns@.len() - i,
    {
        let ghost all = bindings_view(c.columns@);
        assert(all.subrange(0, i + 1).drop_last() =~= all.subrange(0, i as int));
        if match_lowered(database, table, column, &c.columns[i]) {
            let b = c.columns[i].clone();
            let ghost before = found@;
            found.push(b);
            assert(bindings_view(found@) =~= bindings_view(before).push(c.columns@[i as int]@));
        }
        i = i + 1;
    }
    assert(bindings_view(c.columns@).subrange(0, c.columns@.len() as int) =~= bindings_view(c.columns@));
    if found.len() > 0 {
        return found;
    }
    match &c.parent {
        Some(p) => find_in_scopes(&**p, database, table, column),
        None => found,
    }
}

impl BindContext {
    /// A scope with nothing in it and no enclosing scope.
    pub fn new() -> (r: BindContext)
        ensures
            r@.parent is None,
            r@.columns == Seq::<ColumnBindingView>::empty(),
            !r@.in_grouping,
            r@.format is None,
    {
        BindContext::default()
    }

    /// An empty scope inside the given one.
    pub fn with_parent(parent: Box<BindContext>) -> (r: BindContext)
        ensures
            r@.parent == Some(Box::new(parent@)),
            r@.columns == Seq::<ColumnBindingView>::empty(),
            !r@.in_grouping,
            r@.format is None,
    {
        BindContext { parent: Some(parent), columns: Vec::new(), in_grouping: false, format: None }
    }

    /// An empty scope with the same enclosing scope as this one.
    pub fn replace(&self) -> (r: BindContext)
        ensures
            r@.parent == self@.parent,
            r@.columns == Seq::<ColumnBindingView>::empty(),
            !r@.in_grouping,
            r@.format is None,
    {
        let mut bind_context = BindContext::new();
        bind_context.parent = match &self.parent {
            Some(p) => Some(Box::new((**p).clone())),
            None => None,
        };
        bind_context
    }

    /// An empty scope inside this one.
    pub fn push(self) -> (r: BindContext)
        ensures
            r@.parent == Some(Box::new(self@)),
            r@.columns == Seq::<ColumnBindingView>::empty(),
            !r@.in_grouping,
            r@.format is None,
    {
        Self::with_parent(Box::new(self))
    }

    /// The bindings of this scope.
    pub fn all_column_bindings(&self) -> (r: &[ColumnBinding])
        ensures
            bindings_view(r@) == self@.columns,
    {
        self.columns.as_slice()
    }

    /// Adds a binding to this scope.
    pub fn add_column_binding(&mut self, column_binding: ColumnBinding)
        ensures
            final(self)@ == (BindContextView {
                columns: old(self)@.columns.push(column_binding@),
                ..old(self)@
            }),
    {
        let ghost before = self.columns@;
        self.columns.push(column_binding);
        assert(bindings_view(self.columns@) =~= bindings_view(before).push(column_binding@));
    }

    /// Applies a table alias, as in `SELECT * FROM t AS t1(a, b, c)`: every
    /// column now belongs to the alias (lower-cased) and to no database,
    /// and the first columns take the alias's column names. Naming more
    /// columns than there are is an error, which comes after the columns
    /// were moved to the alias.
    pub fn apply_table_alias(&mut self, alias_name: &str, alias_columns: &Vec<String>) -> (r: Result<(), ErrorCode>)
        ensures
            final(self)@.parent == old(self)@.parent,
            final(self)@.in_grouping == old(self)@.in_grouping,
            final(self)@.format == old(self)@.format,
            final(self)@.columns.len() == old(self)@.columns.len(),
            forall|i: int| 0 <= i < old(self)@.columns.len() ==> {
                let b = #[trigger] final(self)@.columns[i];
                let o = old(self)@.columns[i];
                &&& b.database_name is None
                &&& b.table_name == Some(lowercase(alias_name@))
                &&& b.index == o.index
                &&& b.data_type == o.data_type
                &&& b.visible_in_unqualified_wildcard == o.visible_in_unqualified_wildcard
                &&& b.column_name == if r is Ok && i < alias_columns@.len() {
                    alias_columns@[i]@
                } else {
                    o.column_name
                }
            },
            match r {
                Ok(()) => alias_columns@.len() <= old(self)@.columns.len(),
                Err(e) => alias_columns@.len() > old(self)@.columns.len() && is_semantic_error(
                    e,
                    "table has "@ + decimal(old(self)@.columns.len()) + " columns available but "@
                        + decimal(alias_columns@.len() as nat) + " columns specified"@,
                ),
            },
    {
        let table_name = to_lowercase(alias_name);
        let ghost before = bindings_view(self.columns@);
        let mut columns: Vec<ColumnBinding> = Vec::new();
        std::mem::swap(&mut columns, &mut self.columns);
        let mut renamed: Vec<ColumnBinding> = Vec::new();
        let mut i: usize = 0;
        while i < columns.len()
            invariant
                before == bindings_view(columns@),
                table_name@ == lowercase(alias_name@),
                i <= columns@.len(),
                renamed@.len() == i,
                forall|k: int| 0 <= k < i ==> {
                    let b = (#[trigger] renamed@[k])@;
                    let o = before[k];
                    &&& b.database_name is None
                    &&& b.table_name == Some(lowercase(alias_name@))
                    &&& b.index == o.index
                    &&& b.data_type == o.data_type
                    &&& b.visible_in_unqualified_wildcard == o.visible_in_unqualified_wildcard
                    &&& b.column_name == o.column_name
                },
            decreases columns@.len() - i,
        {
            let mut b = columns[i].clone();
            b.database_name = None;
            b.table_name = Some(table_name.clone());
            renamed.push(b);
            i = i + 1;
        }
        let n = renamed.len();
        if alias_columns.len() > n {
            self.columns = renamed;
            let mut m = String::new();
            push_str(&mut m, "table has ");
            push_decimal(&mut m, n as u64);
            push_str(&mut m, " columns available but ");
            push_decimal(&mut m, alias_columns.len() as u64);
            push_str(&mut m, " columns specified");
            return Err(ErrorCode::create(ErrorKind::SemanticError, m));
        }
        let mut j: usize = 0;
        while j < alias_columns.len()
            invariant
                before.len() == n,
                renamed@.len() == n,
                alias_columns@.len() <= n,
                j <= alias_columns@.len(),
                forall|k: int| 0 <= k < n ==> {
                    let b = (#[trigger] renamed@[k])@;
                    let o = before[k];
                    &&& b.database_name is None
                    &&& b.table_name == Some(lowercase(alias_name@))
                    &&& b.index == o.index
                    &&& b.data_type == o.data_type
                    &&& b.visible_in_unqualified_wildcard == o.visible_in_unqualified_wildcard
                    &&& b.column_name == if k < j { alias_columns@[k]@ } else { o.column_name }
                },
            decreases alias_columns@.len() - j,
        {
            let mut b = renamed[j].clone();
            b.column_name = alias_columns[j].clone();
            renamed.set(j, b);
            j = j + 1;
        }
        self.columns = renamed;
        Ok(())
    }

    /// Resolves a column reference: its names are lower-cased, then
    /// resolved as `resolve_lowered` says.
    pub fn resolve_name<S: Clone>(
        &self,
        database: Option<&str>,
        table: Option<&str>,
        column: &str,
        available_aliases: &[(String, S)],
    ) -> (r: Result<NameResolutionResult<S>, ErrorCode>)
        ensures
            resolution_ok(
                self@,
                opt_lowercase(match database { Some(s) => Some(s@), None => None }),
                opt_lowercase(match table { Some(s) => Some(s@), None => None }),
                lowercase(column@),
                available_aliases@,
                r,
            ),
    {
        let d = opt_to_lowercase(database);
        let t = opt_to_lowercase(table);
        let c = to_lowercase(column);
        self.resolve_lowered(&d, &t, &c, available_aliases)
    }

    /// Resolves a reference whose names are lower-cased: an unqualified name
    /// that is an alias resolves to the alias; otherwise the nearest scope
    /// that has bindings of that name decides. The name must resolve to
    /// exactly one thing.
    pub fn resolve_lowered<S: Clone>(
        &self,
        database: &Option<String>,
        table: &Option<String>,
        column: &String,
        available_aliases: &[(String, S)],
    ) -> (r: Result<NameResolutionResult<S>, ErrorCode>)
        ensures
            resolution_ok(self@, opt_view(*database), opt_view(*table), column@, available_aliases@, r),
    {
        if database.is_none() && table.is_none() {
            let mut count: usize = 0;
            let mut first: usize = 0;
            let mut i: usize = 0;
            while i < available_aliases.len()
                invariant
                    i <= available_aliases@.len(),
                    count == alias_count(available_aliases@.subrange(0, i as int), column@),
                    count <= i,
                    count > 0 ==> first < i && available_aliases@[first as int].0@ == column@,
                decreases available_aliases@.len() - i,
            {
                assert(available_aliases@.subrange(0, i + 1).drop_last() =~= available_aliases@.subrange(0, i as int));
                if available_aliases[i].0 == *column {
                    if count == 0 {
                        first = i;
                    }
                    count = count + 1;
                }
                i = i + 1;
            }
            assert(available_aliases@.subrange(0, available_aliases@.len() as int) =~= available_aliases@);
            if count > 1 {
                return Err(ErrorCode::create(ErrorKind::SemanticError, String::from_str("column reference is ambiguous")));
            }
            if count == 1 {
                let alias = available_aliases[first].0.clone();
                let scalar = available_aliases[first].1.clone();
                assert(cloned(available_aliases@[first as int].1, scalar));
                let res = NameResolutionResult::Alias { alias, scalar };
                assert(res matches NameResolutionResult::Alias { alias: a, scalar: sc } && a@ == column@
                    && cloned(available_aliases@[first as int].1, sc));
                return Ok(res);
            }
        }
        let mut found = find_in_scopes(self, database, table, column);
        if found.len() == 0 {
            return Err(ErrorCode::create(ErrorKind::SemanticError, String::from_str("column doesn't exist")));
        }
        if found.len() > 1 {
            return Err(ErrorCode::create(ErrorKind::SemanticError, String::from_str("column reference is ambiguous")));
        }
        assert(bindings_view(found@)[0] == found@[0]@);
        Ok(NameResolutionResult::Column(found.remove(0)))
    }

    /// Records the output format of the query.
    pub fn resolve_format(&mut self, format: String) -> (r: Result<(), ErrorCode>)
        ensures
            r is Ok,
            final(self)@ == (BindContextView { format: Some(format@), ..old(self)@ }),
    {
        self.format = Some(format);
        Ok(())
    }

    /// The columns of the result, in order: each binding's index and name.
    pub fn result_columns(&self) -> (r: Vec<(usize, String)>)
        ensures
            r@.len() == self@.columns.len(),
            forall|i: int| 0 <= i < r@.len() ==> #[trigger] r@[i].0 == self@.columns[i].index
                && r@[i].1@ == self@.columns[i].column_name,
    {
        let mut r: Vec<(usize, String)> = Vec::new();
        let mut i: usize = 0;
        while i < self.columns.len()
            invariant
                i <= self.columns@.len(),
                r@.len() == i,
                forall|k: int| 0 <= k < i ==> #[trigger] r@[k].0 == self.columns@[k].index
                    && r@[k].1@ == self.columns@[k].column_name@,
            decreases self.columns@.len() - i,
        {
            r.push((self.columns[i].index, self.columns[i].column_name.clone()));
            i = i + 1;
        }
        r
    }
}


/// A qualified reference names only bindings of its own table, and, when it
/// names a database, of that database: `db2.t.a` never names `db1.t.a`. Every
/// reference names only columns of its own name.
pub proof fn law_qualified_reference_keeps_its_qualifiers(
    database: Option<Seq<char>>,
    table: Option<Seq<char>>,
    column: Seq<char>,
    b: ColumnBindingView,
)
    requires
        binding_matches(database, table, column, b),
    ensures
        b.column_name == column,
        table matches Some(t) ==> b.table_name == Some(t),
        database matches Some(d) ==> b.database_name == Some(d),
        database is Some ==> table is Some,
{
}

} // verus!
