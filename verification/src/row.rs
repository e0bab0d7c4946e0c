//! The row abstraction: one interface over the rows of either backend, with
//! typed extraction by column name and column introspection.

use vstd::prelude::*;
use crate::error::ErrorKind;
use crate::postgres::PostgresValue;
use crate::sqlserver::{SqlServerCell, SqlServerValue};
use crate::decode::{
    optional_view, postgres_read, read_postgres, read_sqlserver, read_view, require_value,
    required, sqlserver_read, ColumnValue,
};
use crate::value::{postgres_encoding, sqlserver_encoding, Parameter, QueryParameter};

verus! {

/// The database engines a row can come from.
#[derive(Clone, Copy, Debug, PartialEq, Eq, Structural)]
pub enum Backend {
    Postgres,
    SqlServer,
}

/// The native type tag of a PostgreSQL column: the OID of its type.
#[derive(Clone, Copy, Debug, PartialEq, Eq, Structural)]
pub struct PostgresType {
    pub oid: u32,
}

/// The native type tag of a SQL Server column.
#[derive(Clone, Copy, Debug, PartialEq, Eq, Structural)]
pub enum SqlServerType {
    Null,
    Bit,
    Int1,
    Int2,
    Int4,
    Int8,
    Datetime4,
    Float4,
    Float8,
    Money,
    Datetime,
    Money4,
    Guid,
    Intn,
    Bitn,
    Decimaln,
    Numericn,
    Floatn,
    Datetimen,
    Daten,
    Timen,
    Datetime2,
    DatetimeOffsetn,
    BigVarBin,
    BigVarChar,
    BigBinary,
    BigChar,
    NVarchar,
    NChar,
    Xml,
    Udt,
    Text,
    Image,
    NText,
    SSVariant,
}

/// The native type of a column, tagged with the backend it belongs to.
#[derive(Clone, Copy, Debug, PartialEq, Eq, Structural)]
pub enum ColumnType {
    Postgres(PostgresType),
    SqlServer(SqlServerType),
}

impl ColumnType {
    /// The backend whose type this is.
    pub open spec fn spec_backend(self) -> Backend {
        match self {
            ColumnType::Postgres(_) => Backend::Postgres,
            ColumnType::SqlServer(_) => Backend::SqlServer,
        }
    }

    /// The backend whose type this is.
    pub fn backend(&self) -> (b: Backend)
        ensures
            b == self.spec_backend(),
    {
        match self {
            ColumnType::Postgres(_) => Backend::Postgres,
            ColumnType::SqlServer(_) => Backend::SqlServer,
        }
    }
}

/// A native type tag of one of the backends.
pub trait Type {
    /// The tag together with its backend.
    spec fn tagged(&self) -> ColumnType;

    /// The tag together with its backend.
    fn as_column_type(&self) -> (t: ColumnType)
        ensures
            t == self.tagged(),
    ;
}

impl Type for PostgresType {
    open spec fn tagged(&self) -> ColumnType {
        ColumnType::Postgres(*self)
    }

    fn as_column_type(&self) -> (t: ColumnType) {
        ColumnType::Postgres(*self)
    }
}

impl Type for SqlServerType {
    open spec fn tagged(&self) -> ColumnType {
        ColumnType::SqlServer(*self)
    }

    fn as_column_type(&self) -> (t: ColumnType) {
        ColumnType::SqlServer(*self)
    }
}

/// What a `Column` is: a name and a native type.
pub struct ColumnModel {
    pub name: Seq<char>,
    pub type_: ColumnType,
}

/// The description of one column of a row.
#[derive(Clone, Copy, Debug, PartialEq, Eq)]
pub struct Column<'a> {
    name: &'a str,
    type_: ColumnType,
}

impl<'a> DeepView for Column<'a> {
    type V = ColumnModel;

    closed spec fn deep_view(&self) -> ColumnModel {
        ColumnModel { name: self.name@, type_: self.type_ }
    }
}

impl<'a> Column<'a> {
    /// A column of the given name and native type.
    pub fn new(name: &'a str, type_: ColumnType) -> (c: Column<'a>)
        ensures
            c.deep_view() == (ColumnModel { name: name@, type_ }),
    {
        Column { name, type_ }
    }

    /// The name of the column, as the backend reported it.
    pub fn name(&self) -> (n: &str)
        ensures
            n@ == self.deep_view().name,
    {
        self.name
    }

    /// The native type of the column.
    pub fn column_type(&self) -> (t: &ColumnType)
        ensures
            *t == self.deep_view().type_,
    {
        &self.type_
    }
}

/// What a row is: the names of its columns in the order the backend
/// reported them and, column by column, the native values (for SQL Server
/// also the native types, which PostgreSQL values carry themselves).
#[allow(inconsistent_fields)]
pub enum RowModel {
    Postgres { names: Seq<Seq<char>>, cells: Seq<(u32, Option<Seq<u8>>)> },
    SqlServer { names: Seq<Seq<char>>, types: Seq<SqlServerType>, cells: Seq<SqlServerCell> },
}

impl RowModel {
    /// Every column has a name, a type and a value.
    pub open spec fn wf(self) -> bool {
        match self {
            RowModel::Postgres { names, cells } => names.len() == cells.len(),
            RowModel::SqlServer { names, types, cells } => names.len() == cells.len()
                && types.len() == cells.len(),
        }
    }

    /// The backend that produced the row.
    pub open spec fn backend(self) -> Backend {
        match self {
            RowModel::Postgres { .. } => Backend::Postgres,
            RowModel::SqlServer { .. } => Backend::SqlServer,
        }
    }

    /// The column names, in the backend's order.
    pub open spec fn names(self) -> Seq<Seq<char>> {
        match self {
            RowModel::Postgres { names, .. } => names,
            RowModel::SqlServer { names, .. } => names,
        }
    }

    /// The native type of the column at `i`.
    pub open spec fn type_at(self, i: int) -> ColumnType {
        match self {
            RowModel::Postgres { cells, .. } => ColumnType::Postgres(
                PostgresType { oid: cells[i].0 },
            ),
            RowModel::SqlServer { types, .. } => ColumnType::SqlServer(types[i]),
        }
    }

    /// The column descriptions, in the backend's order.
    pub open spec fn columns(self) -> Seq<ColumnModel> {
        Seq::new(
            self.names().len(),
            |i: int| ColumnModel { name: self.names()[i], type_: self.type_at(i) },
        )
    }

    /// Whether the value of the column at `i` is SQL NULL.
    pub open spec fn null_at(self, i: int) -> bool {
        match self {
            RowModel::Postgres { cells, .. } => cells[i].1 is None,
            RowModel::SqlServer { cells, .. } => cells[i].is_null(),
        }
    }

    /// The optional `V` in the first column called `name` of a PostgreSQL
    /// row.
    pub open spec fn get_postgres_opt<V: ColumnValue>(self, name: Seq<char>) -> Result<
        Option<V::V>,
        ErrorKind,
    > {
        match self {
            RowModel::Postgres { names, cells } => match names.index_of_first(name) {
                Some(i) => postgres_read::<V>(cells[i]),
                None => Err(ErrorKind::ColumnNotFound),
            },
            RowModel::SqlServer { .. } => Err(ErrorKind::UnsupportedBackend),
        }
    }

    /// The optional `V` in the first column called `name` of a SQL Server
    /// row.
    pub open spec fn get_mssql_opt<V: ColumnValue>(self, name: Seq<char>) -> Result<
        Option<V::V>,
        ErrorKind,
    > {
        match self {
            RowModel::SqlServer { names, cells, .. } => match names.index_of_first(name) {
                Some(i) => sqlserver_read::<V>(cells[i]),
                None => Err(ErrorKind::ColumnNotFound),
            },
            RowModel::Postgres { .. } => Err(ErrorKind::UnsupportedBackend),
        }
    }

    /// The optional `V` in the first column called `name`, whichever backend
    /// the row is of.
    pub open spec fn extract_optional<V: ColumnValue>(self, name: Seq<char>) -> Result<
        Option<V::V>,
        ErrorKind,
    > {
        match self {
            RowModel::Postgres { .. } => self.get_postgres_opt::<V>(name),
            RowModel::SqlServer { .. } => self.get_mssql_opt::<V>(name),
        }
    }
}

/// The index of the first of `names` that equals `name`.
fn position(names: &Vec<String>, name: &str) -> (r: Option<usize>)
    ensures
        match r {
            Some(i) => i < names.len() && names.deep_view().index_of_first(name@) == Some(
                i as int,
            ),
            None => names.deep_view().index_of_first(name@) is None,
        },
{
    let ghost all = names.deep_view();
    let needle = name.to_owned();
    let mut i: usize = 0;
    while i < names.len()
        invariant
            i <= names.len(),
            all == names.deep_view(),
            needle@ == name@,
            forall|j: int| 0 <= j < i ==> all[j] != name@,
        decreases names.len() - i,
    {
        if names[i] == needle {
            proof {
                assert(all[i as int] == name@);
                all.index_of_first_ensures(name@);
            }
            return Some(i);
        }
        i += 1;
    }
    proof {
        all.index_of_first_ensures(name@);
    }
    None
}

/// A row that PostgreSQL returned: column names and, for each column, the
/// native value with the OID of its type.
#[derive(Debug, PartialEq, Eq)]
pub struct PostgresRow {
    names: Vec<String>,
    cells: Vec<PostgresValue>,
}

impl PostgresRow {
    #[verifier::type_invariant]
    spec fn inv(self) -> bool {
        self.names.len() == self.cells.len()
    }

    /// What the row is.
    pub closed spec fn model(&self) -> RowModel {
        RowModel::Postgres { names: self.names.deep_view(), cells: self.cells.deep_view() }
    }

    /// A row of the given columns and values; `None` unless there is one
    /// value for each column.
    pub fn new(names: Vec<String>, cells: Vec<PostgresValue>) -> (r: Option<PostgresRow>)
        ensures
            r is Some <==> names.len() == cells.len(),
            r matches Some(row) ==> row.model() == (RowModel::Postgres {
                names: names.deep_view(),
                cells: cells.deep_view(),
            }),
    {
        if names.len() == cells.len() {
            Some(PostgresRow { names, cells })
        } else {
            None
        }
    }

    /// The number of columns.
    pub fn len(&self) -> (n: usize)
        ensures
            n == self.model().names().len(),
    {
        self.names.len()
    }

    /// The optional `V` in the first column called `col_name`: `None` where
    /// the value is NULL.
    pub fn get_opt<V: ColumnValue>(&self, col_name: &str) -> (r: Result<Option<V>, ErrorKind>)
        ensures
            self.model().wf(),
            optional_view(r) == self.model().get_postgres_opt::<V>(col_name@),
    {
        proof {
            use_type_invariant(self);
        }
        match position(&self.names, col_name) {
            Some(i) => read_postgres::<V>(&self.cells[i]),
            None => Err(ErrorKind::ColumnNotFound),
        }
    }

    /// The `V` in the first column called `col_name`.
    pub fn get<V: ColumnValue>(&self, col_name: &str) -> (r: Result<V, ErrorKind>)
        ensures
            read_view(r) == required(self.model().get_postgres_opt::<V>(col_name@)),
    {
        require_value(self.get_opt::<V>(col_name))
    }

    /// The descriptions of the columns, in the backend's order.
    pub fn columns(&self) -> (cols: Vec<Column<'_>>)
        ensures
            cols.deep_view() == self.model().columns(),
    {
        proof {
            use_type_invariant(self);
        }
        let mut cols: Vec<Column<'_>> = Vec::new();
        let mut i: usize = 0;
        while i < self.names.len()
            invariant
                i <= self.names.len(),
                self.names.len() == self.cells.len(),
                cols.len() == i,
                forall|j: int| 0 <= j < i ==> cols[j].deep_view() == self.model().columns()[j],
            decreases self.names.len() - i,
        {
            let type_ = ColumnType::Postgres(PostgresType { oid: self.cells[i].type_oid });
            cols.push(Column::new(self.names[i].as_str(), type_));
            i += 1;
        }
        assert(cols.deep_view() =~= self.model().columns());
        cols
    }
}

/// A row that SQL Server returned: column names, native column types and
/// native values.
#[derive(Debug, PartialEq, Eq)]
pub struct SqlServerRow {
    names: Vec<String>,
    types: Vec<SqlServerType>,
    cells: Vec<SqlServerValue>,
}

impl SqlServerRow {
    #[verifier::type_invariant]
    spec fn inv(self) -> bool {
        self.names.len() == self.cells.len() && self.types.len() == self.cells.len()
    }

    /// What the row is.
    pub closed spec fn model(&self) -> RowModel {
        RowModel::SqlServer {
            names: self.names.deep_view(),
            types: self.types@,
            cells: self.cells.deep_view(),
        }
    }

    /// A row of the given columns and values; `None` unless there is one
    /// type and one value for each column.
    pub fn new(names: Vec<String>, types: Vec<SqlServerType>, cells: Vec<SqlServerValue>) -> (r:
        Option<SqlServerRow>)
        ensures
            r is Some <==> names.len() == cells.len() && types.len() == cells.len(),
            r matches Some(row) ==> row.model() == (RowModel::SqlServer {
                names: names.deep_view(),
                types: types@,
                cells: cells.deep_view(),
            }),
    {
        if names.len() == cells.len() && types.len() == cells.len() {
            Some(SqlServerRow { names, types, cells })
        } else {
            None
        }
    }

    /// The number of columns.
    pub fn len(&self) -> (n: usize)
        ensures
            n == self.model().names().len(),
    {
        self.names.len()
    }

    /// The optional `V` in the first column called `col_name`: `None` where
    /// the value is NULL.
    pub fn get_opt<V: ColumnValue>(&self, col_name: &str) -> (r: Result<Option<V>, ErrorKind>)
        ensures
            self.model().wf(),
            optional_view(r) == self.model().get_mssql_opt::<V>(col_name@),
    {
        proof {
            use_type_invariant(self);
        }
        match position(&self.names, col_name) {
            Some(i) => read_sqlserver::<V>(&self.cells[i]),
            None => Err(ErrorKind::ColumnNotFound),
        }
    }

    /// The `V` in the first column called `col_name`.
    pub fn get<V: ColumnValue>(&self, col_name: &str) -> (r: Result<V, ErrorKind>)
        ensures
            read_view(r) == required(self.model().get_mssql_opt::<V>(col_name@)),
    {
        require_value(self.get_opt::<V>(col_name))
    }

    /// The descriptions of the columns, in the backend's order.
    pub fn columns(&self) -> (cols: Vec<Column<'_>>)
        ensures
            cols.deep_view() == self.model().columns(),
    {
        proof {
            use_type_invariant(self);
        }
        let mut cols: Vec<Column<'_>> = Vec::new();
        let mut i: usize = 0;
        while i < self.names.len()
            invariant
                i <= self.names.len(),
                self.names.len() == self.cells.len(),
                self.types.len() == self.cells.len(),
                cols.len() == i,
                forall|j: int| 0 <= j < i ==> cols[j].deep_view() == self.model().columns()[j],
            decreases self.names.len() - i,
        {
            cols.push(Column::new(self.names[i].as_str(), ColumnType::SqlServer(self.types[i])));
            i += 1;
        }
        assert(cols.deep_view() =~= self.model().columns());
        cols
    }
}

/// A borrowed row of one of the backends, tagged with the backend.
#[derive(Clone, Copy, Debug)]
pub enum NativeRow<'a> {
    Postgres(&'a PostgresRow),
    SqlServer(&'a SqlServerRow),
}

impl<'a> NativeRow<'a> {
    /// What the row is.
    pub open spec fn model(&self) -> RowModel {
        match self {
            NativeRow::Postgres(row) => row.model(),
            NativeRow::SqlServer(row) => row.model(),
        }
    }
}

/// A row of any backend. The row stays with the backend that produced it:
/// `native` always answers with the same variant.
pub trait Row {
    /// What the row is.
    spec fn row_model(&self) -> RowModel;

    /// The row, tagged with its backend.
    fn native(&self) -> (r: NativeRow<'_>)
        ensures
            r.model() == self.row_model(),
    ;
}

impl Row for PostgresRow {
    open spec fn row_model(&self) -> RowModel {
        self.model()
    }

    fn native(&self) -> (r: NativeRow<'_>) {
        NativeRow::Postgres(self)
    }
}

impl Row for SqlServerRow {
    open spec fn row_model(&self) -> RowModel {
        self.model()
    }

    fn native(&self) -> (r: NativeRow<'_>) {
        NativeRow::SqlServer(self)
    }
}

/// An owned row of one of the backends, tagged with the backend.
#[derive(Debug, PartialEq, Eq)]
pub enum AnyRow {
    Postgres(PostgresRow),
    SqlServer(SqlServerRow),
}

impl Row for AnyRow {
    open spec fn row_model(&self) -> RowModel {
        match self {
            AnyRow::Postgres(row) => row.model(),
            AnyRow::SqlServer(row) => row.model(),
        }
    }

    fn native(&self) -> (r: NativeRow<'_>) {
        match self {
            AnyRow::Postgres(row) => NativeRow::Postgres(row),
            AnyRow::SqlServer(row) => NativeRow::SqlServer(row),
        }
    }
}

/// Typed extraction by column name and column introspection, on a row of
/// any backend.
pub trait RowOperations {
    /// The row that the operations read.
    spec fn operand(&self) -> RowModel;

    /// The `Output` in the column `col_name` of a PostgreSQL row.
    fn get_postgres<Output: ColumnValue>(&self, col_name: &str) -> (r: Result<Output, ErrorKind>)
        ensures
            read_view(r) == required(self.operand().get_postgres_opt::<Output>(col_name@)),
    ;

    /// The `Output` in the column `col_name` of a SQL Server row.
    fn get_mssql<Output: ColumnValue>(&self, col_name: &str) -> (r: Result<Output, ErrorKind>)
        ensures
            read_view(r) == required(self.operand().get_mssql_opt::<Output>(col_name@)),
    ;

    /// The optional `Output` in the column `col_name` of a PostgreSQL row.
    fn get_postgres_opt<Output: ColumnValue>(&self, col_name: &str) -> (r: Result<
        Option<Output>,
        ErrorKind,
    >)
        ensures
            optional_view(r) == self.operand().get_postgres_opt::<Output>(col_name@),
    ;

    /// The optional `Output` in the column `col_name` of a SQL Server row.
    fn get_mssql_opt<Output: ColumnValue>(&self, col_name: &str) -> (r: Result<
        Option<Output>,
        ErrorKind,
    >)
        ensures
            optional_view(r) == self.operand().get_mssql_opt::<Output>(col_name@),
    ;

    /// The `V` in the column `column_name`, whichever backend the row is of.
    fn extract<V: ColumnValue>(&self, column_name: &str) -> (r: Result<V, ErrorKind>)
        ensures
            read_view(r) == required(self.operand().extract_optional::<V>(column_name@)),
    ;

    /// The optional `V` in the column `column_name`, whichever backend the
    /// row is of.
    fn extract_optional<V: ColumnValue>(&self, column_name: &str) -> (r: Result<
        Option<V>,
        ErrorKind,
    >)
        ensures
            optional_view(r) == self.operand().extract_optional::<V>(column_name@),
    ;

    /// The descriptions of the columns, in the backend's order.
    fn columns(&self) -> (cols: Vec<Column<'_>>)
        ensures
            cols.deep_view() == self.operand().columns(),
    ;
}

impl<R: Row> RowOperations for R {
    open spec fn operand(&self) -> RowModel {
        self.row_model()
    }

    fn get_postgres<Output: ColumnValue>(&self, col_name: &str) -> (r: Result<Output, ErrorKind>) {
        match self.native() {
            NativeRow::Postgres(row) => row.get::<Output>(col_name),
            NativeRow::SqlServer(_) => Err(ErrorKind::UnsupportedBackend),
        }
    }

    fn get_mssql<Output: ColumnValue>(&self, col_name: &str) -> (r: Result<Output, ErrorKind>) {
        match self.native() {
            NativeRow::SqlServer(row) => row.get::<Output>(col_name),
            NativeRow::Postgres(_) => Err(ErrorKind::UnsupportedBackend),
        }
    }

    fn get_postgres_opt<Output: ColumnValue>(&self, col_name: &str) -> (r: Result<
        Option<Output>,
        ErrorKind,
    >) {
        match self.native() {
            NativeRow::Postgres(row) => row.get_opt::<Output>(col_name),
            NativeRow::SqlServer(_) => Err(ErrorKind::UnsupportedBackend),
        }
    }

    fn get_mssql_opt<Output: ColumnValue>(&self, col_name: &str) -> (r: Result<
        Option<Output>,
        ErrorKind,
    >) {
        match self.native() {
            NativeRow::SqlServer(row) => row.get_opt::<Output>(col_name),
            NativeRow::Postgres(_) => Err(ErrorKind::UnsupportedBackend),
        }
    }

    fn extract<V: ColumnValue>(&self, column_name: &str) -> (r: Result<V, ErrorKind>) {
        match self.native() {
            NativeRow::Postgres(row) => row.get::<V>(column_name),
            NativeRow::SqlServer(row) => row.get::<V>(column_name),
        }
    }

    fn extract_optional<V: ColumnValue>(&self, column_name: &str) -> (r: Result<
        Option<V>,
        ErrorKind,
    >) {
        match self.native() {
            NativeRow::Postgres(row) => row.get_opt::<V>(column_name),
            NativeRow::SqlServer(row) => row.get_opt::<V>(column_name),
        }
    }

    fn columns(&self) -> (cols: Vec<Column<'_>>) {
        match self.native() {
            NativeRow::Postgres(row) => row.columns(),
            NativeRow::SqlServer(row) => row.columns(),
        }
    }
}

impl RowModel {
    /// What the row's backend keeps of a value of the Rust type `V`.
    pub open spec fn kept<V: ColumnValue>(self, v: V::V) -> V::V {
        match self {
            RowModel::Postgres { .. } => V::kept_by_postgres(v),
            RowModel::SqlServer { .. } => V::kept_by_sqlserver(v),
        }
    }

    /// Whether the column at `i` holds the native value that the row's
    /// backend takes for the parameter `p`.
    pub open spec fn holds_at(self, i: int, p: Parameter) -> bool {
        match self {
            RowModel::Postgres { cells, .. } => cells[i] == postgres_encoding(p),
            RowModel::SqlServer { cells, .. } => cells[i] == sqlserver_encoding(p),
        }
    }
}

/// Null discrimination: an optional extraction gives `None` exactly when the
/// column exists and its value is SQL NULL. On a column that exists, any
/// failure is a type mismatch; on one that does not, the failure is that the
/// column was not found.
pub proof fn lemma_null_discrimination<V: ColumnValue>(row: RowModel, name: Seq<char>)
    ensures
        row.extract_optional::<V>(name) == Ok::<Option<V::V>, ErrorKind>(None) <==> (
        row.names().index_of_first(name) matches Some(i) && row.null_at(i)),
        row.names().index_of_first(name) is Some ==> row.extract_optional::<V>(name) is Ok
            || row.extract_optional::<V>(name) == Err::<Option<V::V>, ErrorKind>(
            ErrorKind::TypeMismatch,
        ),
        row.names().index_of_first(name) is None ==> row.extract_optional::<V>(name) == Err::<
            Option<V::V>,
            ErrorKind,
        >(ErrorKind::ColumnNotFound),
{
}

/// Round trip through a row: where the first column called `name` holds
/// what the row's backend takes for the value `v`, extracting a `V` from
/// that column gives back what that backend keeps of `v`, which is `v`
/// itself unless it is a time with a fraction that the backend cuts off.
pub proof fn lemma_extract_round_trip<V: ColumnValue>(row: RowModel, name: Seq<char>, v: V)
    requires
        V::in_range(v.deep_view()),
        row.names().index_of_first(name) matches Some(i) && row.holds_at(i, v.parameter()),
    ensures
        row.extract_optional::<V>(name) == Ok::<Option<V::V>, ErrorKind>(
            Some(row.kept::<V>(v.deep_view())),
        ),
        required(row.extract_optional::<V>(name)) == Ok::<V::V, ErrorKind>(
            row.kept::<V>(v.deep_view()),
        ),
{
    V::lemma_round_trip(v);
}

/// Round trip of an absent optional through a row: where the first column
/// called `name` holds what the row's backend takes for an absent optional,
/// an optional extraction gives `None`, whatever type is asked for.
pub proof fn lemma_extract_null_round_trip<V: ColumnValue>(
    row: RowModel,
    name: Seq<char>,
    p: Parameter,
)
    requires
        p.is_null(),
        row.names().index_of_first(name) matches Some(i) && row.holds_at(i, p),
    ensures
        row.extract_optional::<V>(name) == Ok::<Option<V::V>, ErrorKind>(None),
{
}

} // verus!
