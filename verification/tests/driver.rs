use sqlx::Connection;
use sqlx::Row;
use typed_binder::{generate, map_values, BindingTo, Draft, QueryObject, QueryVariant};

#[test]
fn a_new_query_object_holds_no_argument() {
    let query = QueryObject::new(QueryVariant::Direct);
    assert_eq!(query.len(), 0);
    assert_eq!(query.variant(), QueryVariant::Direct);
    assert!(query.declared_types().is_empty());
    assert_eq!(format!("{:?}", query.into_arguments()), "SqliteArguments { values: [] }");
}

#[test]
fn bound_values_reach_the_driver_in_order() {
    let query = QueryObject::new(QueryVariant::Direct)
        .bind(1i64)
        .bind(String::from("x"))
        .bind(vec![1u8, 2u8])
        .bind(Option::<i64>::None)
        .bind("y");
    assert_eq!(query.len(), 5);
    assert_eq!(
        format!("{:?}", query.into_arguments()),
        "SqliteArguments { values: [Int64(1), Text(\"x\"), Blob([1, 2]), Null, Text(\"y\")] }"
    );
}

#[test]
fn mapped_values_follow_those_bound_before() {
    let draft = Draft::new(String::from("? ?")).bind(2i64).bind(3i64);
    let descriptor = generate(&draft).unwrap();
    let query = QueryObject::new(QueryVariant::Scalar).bind(1i64);
    let query = map_values(&descriptor, query).unwrap();
    assert_eq!(query.len(), 3);
    assert_eq!(
        format!("{:?}", query.into_arguments()),
        "SqliteArguments { values: [Int64(1), Int64(2), Int64(3)] }"
    );
}

#[test]
fn every_kind_of_query_binds_alike() {
    let kinds = [QueryVariant::Direct, QueryVariant::RowMapped, QueryVariant::Scalar];
    for kind in kinds {
        let query = QueryObject::new(kind).bind(8i64).bind("z");
        assert_eq!(query.variant(), kind);
        assert_eq!(
            format!("{:?}", query.into_arguments()),
            "SqliteArguments { values: [Int64(8), Text(\"z\")] }"
        );
    }
}

#[test]
fn sqlite_sees_each_value_at_its_placeholder() {
    let runtime = tokio::runtime::Builder::new_current_thread().enable_all().build().unwrap();
    let draft = Draft::new(String::from("SELECT ? - ?, ? || 'y', ?, ?"))
        .bind(50i64)
        .bind(8i64)
        .bind("x")
        .bind(vec![1u8, 2u8])
        .bind(Option::<i64>::None);
    let descriptor = generate(&draft).unwrap();
    let query = map_values(&descriptor, QueryObject::new(QueryVariant::RowMapped)).unwrap();
    let arguments = query.into_arguments();
    let row: (i64, String, Vec<u8>, Option<i64>) = runtime.block_on(async {
        let mut conn = sqlx::SqliteConnection::connect("sqlite::memory:").await.unwrap();
        let row = sqlx::query_with(descriptor.sql(), arguments).fetch_one(&mut conn).await.unwrap();
        (row.get(0), row.get(1), row.get(2), row.get(3))
    });
    assert_eq!(row, (42, String::from("xy"), vec![1u8, 2u8], None));
}
