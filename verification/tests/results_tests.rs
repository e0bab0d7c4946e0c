use canyon_crud::error::ErrorKind;
use canyon_crud::mapper::{Entity, RowMapper};
use canyon_crud::results::DatabaseResult;
use canyon_crud::row::{AnyRow, PostgresRow, RowModel, SqlServerRow, SqlServerType};
use canyon_crud::value::QueryParameter;

#[derive(Debug, Clone, PartialEq, Eq)]
struct Team {
    id: i32,
    slug: String,
    region: Option<String>,
}

impl Entity for Team {
    type Model = Team;

    fn model(&self) -> Team {
        unreachable!()
    }
}

struct TeamMapper;

impl RowMapper<Team> for TeamMapper {
    fn entity_of(_row: RowModel) -> Result<Team, ErrorKind> {
        unreachable!()
    }

    fn deserialize_postgresql(row: &PostgresRow) -> Result<Team, ErrorKind> {
        Ok(Team {
            id: row.get::<i32>("id")?,
            slug: row.get::<String>("slug")?,
            region: row.get_opt::<String>("region")?,
        })
    }

    fn deserialize_sqlserver(row: &SqlServerRow) -> Result<Team, ErrorKind> {
        Ok(Team {
            id: row.get::<i32>("id")?,
            slug: row.get::<String>("slug")?,
            region: row.get_opt::<String>("region")?,
        })
    }
}

fn columns() -> Vec<String> {
    vec!["id".to_string(), "slug".to_string(), "region".to_string()]
}

fn postgres_team(id: i32, slug: &str, region: Option<&str>) -> AnyRow {
    AnyRow::Postgres(
        PostgresRow::new(
            columns(),
            vec![id.as_postgres_param(), slug.as_postgres_param(), region.as_postgres_param()],
        )
        .unwrap(),
    )
}

fn sqlserver_team(id: i32, slug: &str, region: Option<&str>) -> AnyRow {
    AnyRow::SqlServer(
        SqlServerRow::new(
            columns(),
            vec![SqlServerType::Int4, SqlServerType::NVarchar, SqlServerType::NVarchar],
            vec![id.as_sqlserver_param(), slug.as_sqlserver_param(), region.as_sqlserver_param()],
        )
        .unwrap(),
    )
}

fn team(id: i32, slug: &str, region: Option<&str>) -> Team {
    Team { id, slug: slug.to_string(), region: region.map(|r| r.to_string()) }
}

#[test]
fn rows_decode_into_entities_in_order() {
    let result: DatabaseResult<Team> = DatabaseResult::new(vec![
        postgres_team(1, "LEC", Some("EU West")),
        postgres_team(2, "LCK", None),
        sqlserver_team(3, "LCS", Some("NA")),
    ]);
    assert_eq!(
        result.as_response::<TeamMapper>(),
        Ok(vec![team(1, "LEC", Some("EU West")), team(2, "LCK", None), team(3, "LCS", Some("NA"))])
    );
}

#[test]
fn one_row_with_the_id_decodes_into_one_entity() {
    let result: DatabaseResult<Team> =
        DatabaseResult::new(vec![postgres_team(1, "LEC", Some("EU West"))]);
    let found = result.as_response::<TeamMapper>().unwrap();
    assert_eq!(found.len(), 1);
    assert_eq!(found[0].id, 1);
}

#[test]
fn no_rows_decode_into_no_entities() {
    let result: DatabaseResult<Team> = DatabaseResult::new(vec![]);
    assert_eq!(result.as_response::<TeamMapper>(), Ok(vec![]));
    assert_eq!(result.get_number_of_results(), 0);
    assert!(result.get_results().is_empty());
}

#[test]
fn the_first_row_that_fails_decides_the_failure() {
    let no_slug = AnyRow::Postgres(
        PostgresRow::new(vec!["id".to_string()], vec![1i32.as_postgres_param()]).unwrap(),
    );
    let wrong_id = AnyRow::Postgres(
        PostgresRow::new(
            columns(),
            vec!["x".as_postgres_param(), "LEC".as_postgres_param(), "EU".as_postgres_param()],
        )
        .unwrap(),
    );
    let result: DatabaseResult<Team> = DatabaseResult::new(vec![
        postgres_team(1, "LEC", None),
        wrong_id,
        no_slug,
        postgres_team(2, "LCK", None),
    ]);
    assert_eq!(result.as_response::<TeamMapper>(), Err(ErrorKind::TypeMismatch));
    let no_slug = AnyRow::SqlServer(
        SqlServerRow::new(
            vec!["id".to_string()],
            vec![SqlServerType::Int4],
            vec![1i32.as_sqlserver_param()],
        )
        .unwrap(),
    );
    let result: DatabaseResult<Team> =
        DatabaseResult::new(vec![no_slug, sqlserver_team(2, "LCK", None)]);
    assert_eq!(result.as_response::<TeamMapper>(), Err(ErrorKind::ColumnNotFound));
}

#[test]
fn decoding_twice_gives_the_same_and_leaves_the_rows() {
    let result: DatabaseResult<Team> = DatabaseResult::new(vec![
        postgres_team(1, "LEC", Some("EU West")),
        sqlserver_team(2, "LCK", None),
    ]);
    let rows_before = format!("{:?}", result.get_results());
    let first = result.as_response::<TeamMapper>();
    let rows_between = format!("{:?}", result.get_results());
    let second = result.as_response::<TeamMapper>();
    let rows_after = format!("{:?}", result.get_results());
    assert_eq!(first, second);
    assert_eq!(first, Ok(vec![team(1, "LEC", Some("EU West")), team(2, "LCK", None)]));
    assert_eq!(rows_before, rows_between);
    assert_eq!(rows_before, rows_after);
    let failing: DatabaseResult<Team> = DatabaseResult::new(vec![AnyRow::Postgres(
        PostgresRow::new(vec![], vec![]).unwrap(),
    )]);
    assert_eq!(failing.as_response::<TeamMapper>(), failing.as_response::<TeamMapper>());
    assert_eq!(failing.as_response::<TeamMapper>(), Err(ErrorKind::ColumnNotFound));
}

#[test]
fn the_raw_rows_are_those_that_were_wrapped() {
    let result: DatabaseResult<Team> = DatabaseResult::new(vec![
        postgres_team(1, "LEC", None),
        sqlserver_team(2, "LCK", None),
    ]);
    assert_eq!(result.get_results().len(), 2);
    assert_eq!(result.get_results()[0], postgres_team(1, "LEC", None));
    assert_eq!(result.get_results()[1], sqlserver_team(2, "LCK", None));
    assert_eq!(result.get_number_of_results(), 2);
}
