//! Queries and their builder: SQL text and an ordered parameter list that
//! grow together, one predicate and one parameter at a time.

use std::marker::PhantomData;
use vstd::prelude::*;
use vstd::string::StringExecFns;
use crate::fields::FieldValueIdentifier;
use crate::placeholder::{
    is_digit, lemma_marker_free, lemma_placeholder, lemma_placeholders_append, marker_free,
    one_to, placeholder, placeholders, push_placeholder,
};
use crate::value::{Parameter, ParameterValue};

verus! {

/// The comparison of a predicate.
#[derive(Clone, Copy, Debug, PartialEq, Eq, Structural)]
pub enum Comp {
    /// Equal.
    Eq,
    /// Not equal.
    Neq,
    /// Greater than.
    Gt,
    /// Greater than or equal.
    Gte,
    /// Less than.
    Lt,
    /// Less than or equal.
    Lte,
}

impl Comp {
    /// The operator as it stands in SQL text, a space on either side.
    pub open spec fn symbol(self) -> Seq<char> {
        match self {
            Comp::Eq => " = "@,
            Comp::Neq => " <> "@,
            Comp::Gt => " > "@,
            Comp::Gte => " >= "@,
            Comp::Lt => " < "@,
            Comp::Lte => " <= "@,
        }
    }

    /// The operator as it stands in SQL text, a space on either side.
    pub fn as_str(&self) -> (s: &'static str)
        ensures
            s@ == self.symbol(),
    {
        match self {
            Comp::Eq => " = ",
            Comp::Neq => " <> ",
            Comp::Gt => " > ",
            Comp::Gte => " >= ",
            Comp::Lt => " < ",
            Comp::Lte => " <= ",
        }
    }
}

/// The word that joins a predicate to the text before it: the first
/// predicate opens the `WHERE` clause, every later one is joined by `AND`.
pub open spec fn connective(first: bool) -> Seq<char> {
    if first {
        " WHERE "@
    } else {
        " AND "@
    }
}

/// The text of one predicate: the connective, the column, the comparison
/// and the marker of the parameter, which is the next after those bound
/// before.
pub open spec fn predicate_text(
    first: bool,
    parameters_before: nat,
    column: Seq<char>,
    comp: Comp,
) -> Seq<char> {
    connective(first) + column + comp.symbol() + placeholder(parameters_before + 1)
}

/// One predicate: a column, a comparison and the value to compare with.
pub struct Predicate {
    pub column: Seq<char>,
    pub comp: Comp,
    pub value: Parameter,
}

/// The text and the parameter list that grow from the text `base` and the
/// parameters `bound` when `predicates` are added in order, none having been
/// added before.
pub open spec fn with_predicates(
    base: Seq<char>,
    bound: Seq<Parameter>,
    predicates: Seq<Predicate>,
) -> (Seq<char>, Seq<Parameter>)
    decreases predicates.len(),
{
    if predicates.len() == 0 {
        (base, bound)
    } else {
        let (text, params) = with_predicates(base, bound, predicates.drop_last());
        let last = predicates.last();
        (
            text + predicate_text(predicates.len() == 1, params.len(), last.column, last.comp),
            params.push(last.value),
        )
    }
}

/// A SQL statement: its text and the parameters for the markers in it, in
/// the order of their numbers. `T` is the entity that its rows decode to.
pub struct Query<T> {
    pub sql: String,
    pub params: Vec<ParameterValue>,
    pub marker: PhantomData<T>,
}

impl<T> Query<T> {
    /// A statement of the given text and parameters.
    pub fn new(sql: String, params: Vec<ParameterValue>) -> (q: Query<T>)
        ensures
            q.sql@ == sql@,
            q.params.deep_view() == params.deep_view(),
    {
        Query { sql, params, marker: PhantomData }
    }

    /// A builder that starts from the text `sql`, with no parameter bound,
    /// for execution on the datasource `datasource_name`.
    pub fn generate<'a>(sql: String, datasource_name: &'a str) -> (builder: QueryBuilder<'a, T>)
        ensures
            builder.sql() == sql@,
            builder.params() == Seq::<Parameter>::empty(),
            builder.datasource() == datasource_name@,
            !builder.filtered(),
    {
        let self_ = Query { sql, params: Vec::new(), marker: PhantomData };
        assert(self_.params.deep_view() =~= Seq::<Parameter>::empty());
        QueryBuilder::new(self_, datasource_name)
    }
}

/// A statement under construction, with the datasource that is to run it.
pub struct QueryBuilder<'a, T> {
    query: Query<T>,
    datasource_name: &'a str,
    filtered: bool,
}

impl<'a, T> QueryBuilder<'a, T> {
    /// The SQL text so far.
    pub closed spec fn sql(&self) -> Seq<char> {
        self.query.sql@
    }

    /// The parameters bound so far.
    pub closed spec fn params(&self) -> Seq<Parameter> {
        self.query.params.deep_view()
    }

    /// The name of the datasource that is to run the statement.
    pub closed spec fn datasource(&self) -> Seq<char> {
        self.datasource_name@
    }

    /// Whether a predicate has been added.
    pub closed spec fn filtered(&self) -> bool {
        self.filtered
    }

    /// A builder that goes on from `query`, to which no predicate has been
    /// added.
    pub fn new(query: Query<T>, datasource_name: &'a str) -> (builder: QueryBuilder<'a, T>)
        ensures
            builder.sql() == query.sql@,
            builder.params() == query.params.deep_view(),
            builder.datasource() == datasource_name@,
            !builder.filtered(),
    {
        QueryBuilder { query, datasource_name, filtered: false }
    }

    /// Adds the predicate that compares the column of `field` with its
    /// value: the predicate goes to the end of the text, its value to the
    /// end of the parameter list, and the marker in the predicate has the
    /// number of that parameter.
    pub fn where_clause<Z: FieldValueIdentifier<T>>(self, field: Z, comp: Comp) -> (builder:
        QueryBuilder<'a, T>)
        ensures
            builder.sql() == self.sql() + predicate_text(
                !self.filtered(),
                self.params().len(),
                field.column_name(),
                comp,
            ),
            builder.params() == self.params().push(field.parameter()),
            builder.datasource() == self.datasource(),
            builder.filtered(),
    {
        let (column, value) = field.value();
        self.push_predicate(column, value, comp)
    }

    /// Adds the predicate that compares `column` with `value`.
    pub fn push_predicate(self, column: &str, value: ParameterValue, comp: Comp) -> (builder:
        QueryBuilder<'a, T>)
        ensures
            builder.sql() == self.sql() + predicate_text(
                !self.filtered(),
                self.params().len(),
                column@,
                comp,
            ),
            builder.params() == self.params().push(value.deep_view()),
            builder.datasource() == self.datasource(),
            builder.filtered(),
    {
        let QueryBuilder { query, datasource_name, filtered } = self;
        let Query { sql, params, marker } = query;
        let mut sql = sql;
        let mut params = params;
        let ghost before = params.deep_view();
        let count = params.len();
        if filtered {
            sql.append(" AND ");
        } else {
            sql.append(" WHERE ");
        }
        sql.append(column);
        sql.append(comp.as_str());
        push_placeholder(&mut sql, count as u128 + 1);
        params.push(value);
        proof {
            assert(params.deep_view() =~= before.push(value.deep_view()));
            assert(sql@ =~= self.sql() + predicate_text(
                !self.filtered(),
                self.params().len(),
                column@,
                comp,
            ));
        }
        QueryBuilder { query: Query { sql, params, marker }, datasource_name, filtered: true }
    }

    /// Ends the construction: the statement as it is to be run, and the name
    /// of the datasource to run it on. The builder is used up.
    pub fn query(self) -> (r: (Query<T>, &'a str))
        ensures
            r.0.sql@ == self.sql(),
            r.0.params.deep_view() == self.params(),
            r.1@ == self.datasource(),
    {
        (self.query, self.datasource_name)
    }
}

/// Adding one more predicate does to the text and the parameter list what
/// `where_clause` does to a builder.
pub proof fn lemma_with_predicates_step(
    base: Seq<char>,
    bound: Seq<Parameter>,
    predicates: Seq<Predicate>,
    next: Predicate,
)
    ensures
        with_predicates(base, bound, predicates.push(next)) == (
            with_predicates(base, bound, predicates).0 + predicate_text(
                predicates.len() == 0,
                with_predicates(base, bound, predicates).1.len(),
                next.column,
                next.comp,
            ),
            with_predicates(base, bound, predicates).1.push(next.value),
        ),
{
    assert(predicates.push(next).drop_last() =~= predicates);
}

/// One predicate holds one marker, that of the parameter after those bound
/// before, as long as the column name holds no dollar sign; and its text
/// begins with a space.
pub proof fn lemma_predicate_text(
    first: bool,
    parameters_before: nat,
    column: Seq<char>,
    comp: Comp,
)
    requires
        marker_free(column),
    ensures
        placeholders(predicate_text(first, parameters_before, column, comp)) == seq![
            (parameters_before + 1) as nat,
        ],
        predicate_text(first, parameters_before, column, comp).len() > 0,
        !is_digit(predicate_text(first, parameters_before, column, comp)[0]),
{
    reveal_strlit(" WHERE ");
    reveal_strlit(" AND ");
    reveal_strlit(" = ");
    reveal_strlit(" <> ");
    reveal_strlit(" > ");
    reveal_strlit(" >= ");
    reveal_strlit(" < ");
    reveal_strlit(" <= ");
    let n = (parameters_before + 1) as nat;
    let head = connective(first) + column + comp.symbol();
    assert(marker_free(head));
    lemma_marker_free(head);
    lemma_placeholder(n);
    assert(placeholder(n)[0] == '$');
    lemma_placeholders_append(head, placeholder(n));
    assert(placeholders(head) + placeholders(placeholder(n)) =~= seq![n]);
    assert(predicate_text(first, parameters_before, column, comp)[0] == ' ');
}

/// Placeholder alignment: after any number of predicates, the parameter
/// list holds the parameters bound before and then the values of the
/// predicates in order, one for each, and the text holds the markers that
/// `base` held, followed by one marker for each predicate, each numbered by
/// the place of its value in the parameter list, counted from 1. Column
/// names must hold no dollar sign.
pub proof fn lemma_placeholder_alignment(
    base: Seq<char>,
    bound: Seq<Parameter>,
    predicates: Seq<Predicate>,
)
    requires
        forall|i: int| 0 <= i < predicates.len() ==> marker_free(#[trigger] predicates[i].column),
    ensures
        with_predicates(base, bound, predicates).1.len() == bound.len() + predicates.len(),
        forall|k: int|
            0 <= k < bound.len() ==> with_predicates(base, bound, predicates).1[k]
                == #[trigger] bound[k],
        forall|k: int|
            0 <= k < predicates.len() ==> with_predicates(base, bound, predicates).1[bound.len()
                + k] == #[trigger] predicates[k].value,
        placeholders(with_predicates(base, bound, predicates).0) == placeholders(base)
            + Seq::new(predicates.len(), |k: int| (bound.len() + k + 1) as nat),
    decreases predicates.len(),
{
    let numbers = Seq::new(predicates.len(), |k: int| (bound.len() + k + 1) as nat);
    if predicates.len() == 0 {
        assert(placeholders(base) + numbers =~= placeholders(base));
    } else {
        let before = predicates.drop_last();
        let last = predicates.last();
        lemma_placeholder_alignment(base, bound, before);
        let (text, params) = with_predicates(base, bound, before);
        let first = predicates.len() == 1;
        let added = predicate_text(first, params.len(), last.column, last.comp);
        lemma_predicate_text(first, params.len(), last.column, last.comp);
        lemma_placeholders_append(text, added);
        assert forall|k: int| 0 <= k < predicates.len() implies with_predicates(
            base,
            bound,
            predicates,
        ).1[bound.len() + k] == #[trigger] predicates[k].value by {
            if k < before.len() {
                assert(before[k] == predicates[k]);
            }
        }
        assert(placeholders(text) + placeholders(added) =~= placeholders(base) + numbers);
    }
}

/// Placeholder alignment from a text without markers and no parameter: after
/// N predicates the parameter list has exactly N entries, the text holds
/// exactly N markers, and the k-th marker in the text is the marker of the
/// k-th parameter.
pub proof fn lemma_placeholder_alignment_from_start(base: Seq<char>, predicates: Seq<Predicate>)
    requires
        marker_free(base),
        forall|i: int| 0 <= i < predicates.len() ==> marker_free(#[trigger] predicates[i].column),
    ensures
        with_predicates(base, Seq::empty(), predicates).1.len() == predicates.len(),
        forall|k: int|
            0 <= k < predicates.len() ==> with_predicates(base, Seq::empty(), predicates).1[k]
                == #[trigger] predicates[k].value,
        placeholders(with_predicates(base, Seq::empty(), predicates).0) == one_to(
            predicates.len(),
        ),
{
    lemma_placeholder_alignment(base, Seq::empty(), predicates);
    lemma_marker_free(base);
    assert(placeholders(base) + Seq::new(predicates.len(), |k: int| (0 + k + 1) as nat)
        =~= one_to(predicates.len()));
}

} // verus!
