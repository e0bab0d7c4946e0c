//! The statements behind the CRUD operations of an entity: what is sent to
//! the datasource for find-all, insert, update, delete and the search by a
//! foreign key. Running a statement is left to the caller.

use vstd::prelude::*;
use vstd::string::StringExecFns;
use crate::error::ErrorKind;
use crate::fields::ForeignKeyable;
use crate::placeholder::{
    lemma_marker_free, lemma_marker_free_prefix, lemma_placeholder, lemma_placeholders_append,
    marker_free, one_to, placeholder, placeholders, push_placeholder,
};
use crate::query::{lemma_predicate_text, predicate_text, Comp, Query, QueryBuilder};
use crate::value::{Parameter, ParameterValue, QueryParameter};

verus! {

/// The statement that selects every row of `table`.
pub open spec fn select_all_text(table: Seq<char>) -> Seq<char> {
    "SELECT * FROM "@ + table
}

/// The statement that deletes from `table`, before its predicate.
pub open spec fn delete_text(table: Seq<char>) -> Seq<char> {
    "DELETE FROM "@ + table
}

/// The fields but those of the column `key`, in order.
pub open spec fn without_key(fields: Seq<(Seq<char>, Parameter)>, key: Seq<char>) -> Seq<
    (Seq<char>, Parameter),
>
    decreases fields.len(),
{
    if fields.len() == 0 {
        Seq::empty()
    } else if fields.last().0 == key {
        without_key(fields.drop_last(), key)
    } else {
        without_key(fields.drop_last(), key).push(fields.last())
    }
}

/// The value of the first field of the column `key`, if there is one.
pub open spec fn key_value(fields: Seq<(Seq<char>, Parameter)>, key: Seq<char>) -> Option<
    Parameter,
>
    decreases fields.len(),
{
    if fields.len() == 0 {
        None
    } else if fields.first().0 == key {
        Some(fields.first().1)
    } else {
        key_value(fields.drop_first(), key)
    }
}

/// The column names of `fields`, separated by a comma and a space.
pub open spec fn column_list(fields: Seq<(Seq<char>, Parameter)>) -> Seq<char>
    decreases fields.len(),
{
    if fields.len() == 0 {
        Seq::empty()
    } else if fields.len() == 1 {
        fields[0].0
    } else {
        column_list(fields.drop_last()) + ", "@ + fields.last().0
    }
}

/// The markers of the parameters 1 to `n`, separated by commas.
pub open spec fn marker_list(n: nat) -> Seq<char>
    decreases n,
{
    if n == 0 {
        Seq::empty()
    } else if n == 1 {
        placeholder(1)
    } else {
        marker_list((n - 1) as nat) + ","@ + placeholder(n)
    }
}

/// The assignments `column = marker` of `fields`, separated by a comma and a
/// space, the k-th with the marker of the k-th parameter.
pub open spec fn assignment_list(fields: Seq<(Seq<char>, Parameter)>) -> Seq<char>
    decreases fields.len(),
{
    if fields.len() == 0 {
        Seq::empty()
    } else if fields.len() == 1 {
        fields[0].0 + " = "@ + placeholder(1)
    } else {
        assignment_list(fields.drop_last()) + ", "@ + fields.last().0 + " = "@ + placeholder(
            fields.len(),
        )
    }
}

/// The values of `fields`, in order.
pub open spec fn values_of(fields: Seq<(Seq<char>, Parameter)>) -> Seq<Parameter> {
    Seq::new(fields.len(), |i: int| fields[i].1)
}

/// The statement that inserts `fields` into `table`.
pub open spec fn insert_text(table: Seq<char>, fields: Seq<(Seq<char>, Parameter)>) -> Seq<
    char,
> {
    "INSERT INTO "@ + table + " ("@ + column_list(fields) + ") VALUES ("@ + marker_list(
        fields.len(),
    ) + ")"@
}

/// The statement that sets `fields` in `table`, before its predicate.
pub open spec fn update_text(table: Seq<char>, fields: Seq<(Seq<char>, Parameter)>) -> Seq<
    char,
> {
    "UPDATE "@ + table + " SET "@ + assignment_list(fields)
}

/// Whether two texts are the same.
fn same_text(a: &str, b: &str) -> (r: bool)
    ensures
        r == (a@ == b@),
{
    let left = a.to_owned();
    let right = b.to_owned();
    left == right
}

/// The text of the statement that selects every row of `table`.
pub fn find_all_statement(table: &str) -> (sql: String)
    ensures
        sql@ == select_all_text(table@),
{
    let mut sql = "SELECT * FROM ".to_owned();
    sql.append(table);
    sql
}

/// A builder seeded with the statement that selects every row of `table`,
/// for predicates to be added.
pub fn find_all_query<'a, T>(table: &str, datasource_name: &'a str) -> (builder: QueryBuilder<
    'a,
    T,
>)
    ensures
        builder.sql() == select_all_text(table@),
        builder.params() == Seq::<Parameter>::empty(),
        builder.datasource() == datasource_name@,
        !builder.filtered(),
{
    Query::generate(find_all_statement(table), datasource_name)
}

/// The statement that deletes the row of `table` whose `primary_key` is
/// `key`: the key is the only predicate and the only parameter.
pub fn delete_query<'a, T>(
    table: &str,
    primary_key: &str,
    key: ParameterValue,
    datasource_name: &'a str,
) -> (builder: QueryBuilder<'a, T>)
    ensures
        builder.sql() == delete_text(table@) + predicate_text(true, 0, primary_key@, Comp::Eq),
        builder.params() == seq![key.deep_view()],
        builder.datasource() == datasource_name@,
{
    let mut sql = "DELETE FROM ".to_owned();
    sql.append(table);
    let builder = Query::generate(sql, datasource_name).push_predicate(
        primary_key,
        key,
        Comp::Eq,
    );
    assert(builder.params() =~= seq![key.deep_view()]);
    builder
}

/// The statement that finds the rows of `table` whose column `fk_column`
/// holds the value that `parent` has in its column `parent_column`; a parent
/// without that column gives `ColumnNotFound`.
pub fn search_by_foreign_key_query<'a, T, P: ForeignKeyable<T>>(
    table: &str,
    fk_column: &str,
    parent: &P,
    parent_column: &str,
    datasource_name: &'a str,
) -> (r: Result<QueryBuilder<'a, T>, ErrorKind>)
    ensures
        match parent.fk_parameter(parent_column@) {
            Some(key) => r matches Ok(builder) && builder.sql() == select_all_text(table@)
                + predicate_text(true, 0, fk_column@, Comp::Eq) && builder.params() == seq![key]
                && builder.datasource() == datasource_name@,
            None => r matches Err(e) && e == ErrorKind::ColumnNotFound,
        },
{
    match parent.get_fk_column(parent_column) {
        Some(key) => {
            let builder = find_all_query(table, datasource_name).push_predicate(
                fk_column,
                key,
                Comp::Eq,
            );
            assert(builder.params() =~= seq![key.deep_view()]);
            Ok(builder)
        },
        None => Err(ErrorKind::ColumnNotFound),
    }
}

/// The fields but those of the column `key`, in order.
pub fn fields_without_key(fields: &Vec<(&'static str, ParameterValue)>, key: &str) -> (kept: Vec<
    (&'static str, ParameterValue),
>)
    ensures
        kept.deep_view() == without_key(fields.deep_view(), key@),
{
    let mut kept: Vec<(&'static str, ParameterValue)> = Vec::new();
    let mut i: usize = 0;
    assert(fields.deep_view().take(0) =~= Seq::empty());
    assert(kept.deep_view() =~= Seq::empty());
    while i < fields.len()
        invariant
            i <= fields.len(),
            kept.deep_view() == without_key(fields.deep_view().take(i as int), key@),
        decreases fields.len() - i,
    {
        let ghost before = kept.deep_view();
        proof {
            let next = fields.deep_view().take(i + 1);
            assert(next.drop_last() =~= fields.deep_view().take(i as int));
            assert(next.last() == fields.deep_view()[i as int]);
        }
        if !same_text(fields[i].0, key) {
            let value = fields[i].1.to_value();
            kept.push((fields[i].0, value));
            assert(kept.deep_view() =~= before.push(fields.deep_view()[i as int]));
        }
        i += 1;
    }
    assert(fields.deep_view().take(i as int) =~= fields.deep_view());
    kept
}

/// The value of the first field of the column `key`.
pub fn field_value(fields: &Vec<(&'static str, ParameterValue)>, key: &str) -> (r: Option<
    ParameterValue,
>)
    ensures
        r.deep_view() == key_value(fields.deep_view(), key@),
{
    let mut i: usize = 0;
    assert(fields.deep_view().skip(0) =~= fields.deep_view());
    while i < fields.len()
        invariant
            i <= fields.len(),
            key_value(fields.deep_view(), key@) == key_value(
                fields.deep_view().skip(i as int),
                key@,
            ),
        decreases fields.len() - i,
    {
        proof {
            let rest = fields.deep_view().skip(i as int);
            assert(rest.first() == fields.deep_view()[i as int]);
            assert(rest.drop_first() =~= fields.deep_view().skip(i + 1));
        }
        if same_text(fields[i].0, key) {
            return Some(fields[i].1.to_value());
        }
        i += 1;
    }
    None
}

/// The values of `fields`, in order.
fn values(fields: &Vec<(&'static str, ParameterValue)>) -> (params: Vec<ParameterValue>)
    ensures
        params.deep_view() == values_of(fields.deep_view()),
{
    let mut params: Vec<ParameterValue> = Vec::new();
    let mut i: usize = 0;
    while i < fields.len()
        invariant
            i <= fields.len(),
            params.len() == i,
            forall|j: int| 0 <= j < i ==> params[j].deep_view() == fields.deep_view()[j].1,
        decreases fields.len() - i,
    {
        params.push(fields[i].1.to_value());
        i += 1;
    }
    assert(params.deep_view() =~= values_of(fields.deep_view()));
    params
}

/// The statement that inserts an entity into `table`: every field but the
/// primary key is written, in the order of `fields`, the k-th column with
/// the marker of the k-th parameter.
pub fn insert_query<'a, T>(
    table: &str,
    fields: &Vec<(&'static str, ParameterValue)>,
    primary_key: &str,
    datasource_name: &'a str,
) -> (builder: QueryBuilder<'a, T>)
    ensures
        builder.sql() == insert_text(table@, without_key(fields.deep_view(), primary_key@)),
        builder.params() == values_of(without_key(fields.deep_view(), primary_key@)),
        builder.datasource() == datasource_name@,
{
    let kept = fields_without_key(fields, primary_key);
    let ghost written = kept.deep_view();
    let mut sql = "INSERT INTO ".to_owned();
    sql.append(table);
    sql.append(" (");
    let ghost head = sql@;
    let mut i: usize = 0;
    assert(written.take(0) =~= Seq::empty());
    while i < kept.len()
        invariant
            i <= kept.len(),
            written == kept.deep_view(),
            sql@ == head + column_list(written.take(i as int)),
        decreases kept.len() - i,
    {
        proof {
            let next = written.take(i + 1);
            assert(next.drop_last() =~= written.take(i as int));
            assert(next.last().0 == kept[i as int].0@);
            if i == 0 {
                assert(column_list(written.take(0)) =~= Seq::empty());
            }
        }
        if i > 0 {
            sql.append(", ");
        }
        sql.append(kept[i].0);
        assert(sql@ =~= head + column_list(written.take(i + 1)));
        i += 1;
    }
    assert(written.take(i as int) =~= written);
    sql.append(") VALUES (");
    let ghost middle = sql@;
    let mut k: usize = 0;
    while k < kept.len()
        invariant
            k <= kept.len(),
            sql@ == middle + marker_list(k as nat),
        decreases kept.len() - k,
    {
        if k > 0 {
            sql.append(",");
        }
        push_placeholder(&mut sql, k as u128 + 1);
        assert(sql@ =~= middle + marker_list((k + 1) as nat));
        k += 1;
    }
    sql.append(")");
    assert(sql@ =~= insert_text(table@, written));
    let params = values(&kept);
    QueryBuilder::new(Query::new(sql, params), datasource_name)
}

/// The statement that updates the row of an entity in `table`: every field
/// but the primary key is set, in the order of `fields`, and the primary key
/// is the only predicate, its value the last parameter. Fields without the
/// primary key give `ColumnNotFound`.
pub fn update_query<'a, T>(
    table: &str,
    fields: &Vec<(&'static str, ParameterValue)>,
    primary_key: &str,
    datasource_name: &'a str,
) -> (r: Result<QueryBuilder<'a, T>, ErrorKind>)
    ensures
        match key_value(fields.deep_view(), primary_key@) {
            Some(key) => r matches Ok(builder) && builder.sql() == update_text(
                table@,
                without_key(fields.deep_view(), primary_key@),
            ) + predicate_text(
                true,
                without_key(fields.deep_view(), primary_key@).len(),
                primary_key@,
                Comp::Eq,
            ) && builder.params() == values_of(
                without_key(fields.deep_view(), primary_key@),
            ).push(key) && builder.datasource() == datasource_name@,
            None => r matches Err(e) && e == ErrorKind::ColumnNotFound,
        },
{
    let key = match field_value(fields, primary_key) {
        Some(key) => key,
        None => {
            return Err(ErrorKind::ColumnNotFound);
        },
    };
    let kept = fields_without_key(fields, primary_key);
    let ghost written = kept.deep_view();
    let mut sql = "UPDATE ".to_owned();
    sql.append(table);
    sql.append(" SET ");
    let ghost head = sql@;
    let mut i: usize = 0;
    assert(written.take(0) =~= Seq::empty());
    while i < kept.len()
        invariant
            i <= kept.len(),
            written == kept.deep_view(),
            sql@ == head + assignment_list(written.take(i as int)),
        decreases kept.len() - i,
    {
        proof {
            let next = written.take(i + 1);
            assert(next.drop_last() =~= written.take(i as int));
            assert(next.last().0 == kept[i as int].0@);
            if i == 0 {
                assert(assignment_list(written.take(0)) =~= Seq::empty());
            }
        }
        if i > 0 {
            sql.append(", ");
        }
        sql.append(kept[i].0);
        sql.append(" = ");
        push_placeholder(&mut sql, i as u128 + 1);
        assert(sql@ =~= head + assignment_list(written.take(i + 1)));
        i += 1;
    }
    assert(written.take(i as int) =~= written);
    let params = values(&kept);
    let builder = QueryBuilder::new(Query::new(sql, params), datasource_name).push_predicate(
        primary_key,
        key,
        Comp::Eq,
    );
    Ok(builder)
}

/// Whether no column name of `fields` holds a dollar sign.
pub open spec fn columns_marker_free(fields: Seq<(Seq<char>, Parameter)>) -> bool {
    forall|i: int| 0 <= i < fields.len() ==> marker_free(#[trigger] fields[i].0)
}

/// A list of column names without dollar signs holds none.
pub proof fn lemma_column_list_marker_free(fields: Seq<(Seq<char>, Parameter)>)
    requires
        columns_marker_free(fields),
    ensures
        marker_free(column_list(fields)),
    decreases fields.len(),
{
    reveal_strlit(", ");
    if fields.len() > 1 {
        assert(columns_marker_free(fields.drop_last())) by {
            assert forall|i: int| 0 <= i < fields.drop_last().len() implies marker_free(
                #[trigger] fields.drop_last()[i].0,
            ) by {
                assert(fields.drop_last()[i] == fields[i]);
            }
        }
        lemma_column_list_marker_free(fields.drop_last());
        assert(marker_free(fields.last().0));
    } else if fields.len() == 1 {
        assert(marker_free(fields[0].0));
    }
}

/// The markers of a list of `n` markers are those of the parameters 1 to
/// `n`, in order.
pub proof fn lemma_marker_list(n: nat)
    ensures
        placeholders(marker_list(n)) == one_to(n),
    decreases n,
{
    reveal_strlit(",");
    if n == 0 {
        assert(one_to(0) =~= Seq::<nat>::empty());
    } else if n == 1 {
        lemma_placeholder(1);
        assert(one_to(1) =~= seq![1nat]);
    } else {
        let before = marker_list((n - 1) as nat);
        lemma_marker_list((n - 1) as nat);
        lemma_placeholder(n);
        assert(marker_free(","@));
        lemma_marker_free(","@);
        assert(placeholder(n)[0] == '$');
        lemma_placeholders_append(","@, placeholder(n));
        let tail = ","@ + placeholder(n);
        assert(tail[0] == ',');
        lemma_placeholders_append(before, tail);
        assert(before + tail =~= marker_list(n));
        assert(placeholders(","@) + placeholders(placeholder(n)) =~= seq![n]);
        assert(one_to((n - 1) as nat) + seq![n] =~= one_to(n));
    }
}

/// Placeholder alignment of an insert: the statement holds one marker for
/// each field, numbered 1, 2, 3 and so on in the order of the text, which is
/// the order of the parameters. The table and column names must hold no
/// dollar sign.
pub proof fn lemma_insert_alignment(table: Seq<char>, fields: Seq<(Seq<char>, Parameter)>)
    requires
        marker_free(table),
        columns_marker_free(fields),
    ensures
        placeholders(insert_text(table, fields)) == one_to(fields.len()),
        values_of(fields).len() == fields.len(),
{
    reveal_strlit("INSERT INTO ");
    reveal_strlit(" (");
    reveal_strlit(") VALUES (");
    reveal_strlit(")");
    lemma_column_list_marker_free(fields);
    lemma_marker_list(fields.len());
    let head = "INSERT INTO "@ + table + " ("@ + column_list(fields) + ") VALUES ("@;
    let markers = marker_list(fields.len());
    assert(marker_free(head));
    assert(marker_free(")"@));
    lemma_marker_free(")"@);
    lemma_placeholders_append(markers, ")"@);
    let tail = markers + ")"@;
    lemma_marker_free_prefix(head, tail);
    assert(head + tail =~= insert_text(table, fields));
    assert(placeholders(markers) + placeholders(")"@) =~= one_to(fields.len()));
}

/// The markers of a list of assignments are those of the parameters 1 to
/// the number of fields, in order, as long as no column name holds a dollar
/// sign.
pub proof fn lemma_assignment_list(fields: Seq<(Seq<char>, Parameter)>)
    requires
        columns_marker_free(fields),
    ensures
        placeholders(assignment_list(fields)) == one_to(fields.len()),
    decreases fields.len(),
{
    reveal_strlit(", ");
    reveal_strlit(" = ");
    if fields.len() == 0 {
        assert(one_to(0) =~= Seq::<nat>::empty());
    } else {
        let n = fields.len();
        let last = fields.last().0 + " = "@;
        assert(marker_free(fields.last().0));
        lemma_placeholder(n);
        assert(placeholder(n)[0] == '$');
        if n == 1 {
            assert(marker_free(last));
            lemma_marker_free(last);
            lemma_placeholders_append(last, placeholder(n));
            assert(last + placeholder(n) =~= assignment_list(fields));
            assert(placeholders(last) + placeholders(placeholder(n)) =~= one_to(1));
        } else {
            let before = fields.drop_last();
            assert(columns_marker_free(before)) by {
                assert forall|i: int| 0 <= i < before.len() implies marker_free(
                    #[trigger] before[i].0,
                ) by {
                    assert(before[i] == fields[i]);
                }
            }
            lemma_assignment_list(before);
            let joined = ", "@ + last;
            assert(marker_free(joined));
            lemma_marker_free(joined);
            lemma_placeholders_append(joined, placeholder(n));
            let tail = joined + placeholder(n);
            assert(tail[0] == ',');
            lemma_placeholders_append(assignment_list(before), tail);
            assert(assignment_list(before) + tail =~= assignment_list(fields));
            assert(one_to((n - 1) as nat) + (placeholders(joined) + placeholders(
                placeholder(n),
            )) =~= one_to(n));
        }
    }
}

/// Placeholder alignment of an update: the statement holds one marker for
/// each field that is set and, last, the marker of the primary key, numbered
/// 1, 2, 3 and so on in the order of the text, which is the order of the
/// parameters. The table and column names must hold no dollar sign.
pub proof fn lemma_update_alignment(
    table: Seq<char>,
    fields: Seq<(Seq<char>, Parameter)>,
    primary_key: Seq<char>,
)
    requires
        marker_free(table),
        marker_free(primary_key),
        columns_marker_free(fields),
    ensures
        placeholders(
            update_text(table, fields) + predicate_text(
                true,
                fields.len(),
                primary_key,
                Comp::Eq,
            ),
        ) == one_to(fields.len() + 1),
{
    reveal_strlit("UPDATE ");
    reveal_strlit(" SET ");
    lemma_assignment_list(fields);
    let head = "UPDATE "@ + table + " SET "@;
    assert(marker_free(head));
    let assignments = assignment_list(fields);
    let filter = predicate_text(true, fields.len(), primary_key, Comp::Eq);
    lemma_predicate_text(true, fields.len(), primary_key, Comp::Eq);
    lemma_placeholders_append(assignments, filter);
    let tail = assignments + filter;
    lemma_marker_free_prefix(head, tail);
    assert(head + tail =~= update_text(table, fields) + filter);
    assert(one_to(fields.len()) + seq![(fields.len() + 1) as nat] =~= one_to(fields.len() + 1));
}

} // verus!
