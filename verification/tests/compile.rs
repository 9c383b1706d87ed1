use content_query::format::{CompressionType, InputObjectFormat, JsonType, OutputObjectFormat};
use content_query::query::{Clause, CompileError, Path, QueryContent, Select};

#[test]
fn missing_source() {
    let result = QueryContent::select(vec![Select::Elements(vec!["id".to_string()])]).build();

    assert_eq!(result.unwrap_err(), CompileError::MissingSource);
}

#[test]
fn missing_source_with_everything_else_set() {
    let result = QueryContent::select(vec![Select::Elements(vec!["id".to_string()])])
        .from_path(vec![Path::Name("Rules".to_string())])
        .where_clause(Clause::IsNull("id".to_string()))
        .limit(3)
        .build();

    assert_eq!(result.unwrap_err(), CompileError::MissingSource);
}

#[test]
fn compile_twice_identical() {
    let query = QueryContent::select(vec![Select::Elements(vec![
        "id".to_string(),
        "name".to_string(),
    ])])
    .from("bucket", "key")
    .limit(2);

    let first = query.build().unwrap();
    let second = query.build().unwrap();

    assert_eq!(first, second);
}

#[test]
fn limit_set_before_source() {
    let query = QueryContent::select(vec![Select::Elements(vec!["id".to_string()])])
        .limit(9)
        .from("bucket", "key")
        .build()
        .unwrap();

    assert_eq!(query, "SELECT s.id FROM S3Object s LIMIT 9");
}

#[test]
fn limit_overwritten() {
    let query = QueryContent::select(vec![Select::Elements(vec!["id".to_string()])])
        .from("bucket", "key")
        .limit(3)
        .limit(7)
        .build()
        .unwrap();

    assert_eq!(query, "SELECT s.id FROM S3Object s LIMIT 7");
}

#[test]
fn limit_zero() {
    let query = QueryContent::select(vec![Select::Elements(vec!["id".to_string()])])
        .from("bucket", "key")
        .limit(0)
        .build()
        .unwrap();

    assert_eq!(query, "SELECT s.id FROM S3Object s LIMIT 0");
}

#[test]
fn empty_select_list() {
    let query = QueryContent::select(vec![])
        .from("bucket", "key")
        .build()
        .unwrap();

    assert_eq!(query, "SELECT  FROM S3Object s");
}

#[test]
fn empty_path() {
    let query = QueryContent::select(vec![Select::Elements(vec!["id".to_string()])])
        .from("bucket", "key")
        .from_path(vec![])
        .build()
        .unwrap();

    assert_eq!(query, "SELECT s.id FROM S3Object s");
}

#[test]
fn aggregate_wildcard_verbatim() {
    let query = QueryContent::select(vec![Select::Count("*".to_string())])
        .from("bucket", "key")
        .build()
        .unwrap();

    assert_eq!(query, "SELECT Count(*) FROM S3Object s");
}

#[test]
fn aggregate_named_field_prefixed() {
    let query = QueryContent::select(vec![Select::Avg("age".to_string())])
        .from("bucket", "key")
        .build()
        .unwrap();

    assert_eq!(query, "SELECT Avg(s.age) FROM S3Object s");
}

#[test]
fn aggregate_wildcard_inside_token() {
    let query = QueryContent::select(vec![Select::Sum("a*b".to_string())])
        .from("bucket", "key")
        .build()
        .unwrap();

    assert_eq!(query, "SELECT Sum(a*b) FROM S3Object s");
}

#[test]
fn aggregate_max_min() {
    let query = QueryContent::select(vec![
        Select::Max("age".to_string()),
        Select::Min("age".to_string()),
    ])
    .from("bucket", "key")
    .build()
    .unwrap();

    assert_eq!(query, "SELECT Max(s.age), Min(s.age) FROM S3Object s");
}

#[test]
fn between_negative_bounds() {
    let query = QueryContent::select(vec![Select::Elements(vec!["id".to_string()])])
        .from("bucket", "key")
        .where_clause(Clause::Between("t".to_string(), -5, 10))
        .build()
        .unwrap();

    assert_eq!(query, "SELECT s.id FROM S3Object s WHERE s.t BETWEEN -5 AND 10");
}

#[test]
fn between_extreme_bounds() {
    let query = QueryContent::select(vec![Select::Elements(vec!["id".to_string()])])
        .from("bucket", "key")
        .where_clause(Clause::Between("t".to_string(), isize::MIN, isize::MAX))
        .build()
        .unwrap();

    assert_eq!(
        query,
        "SELECT s.id FROM S3Object s WHERE s.t BETWEEN -9223372036854775808 AND 9223372036854775807"
    );
}

#[test]
fn greater_largest_value() {
    let query = QueryContent::select(vec![Select::Elements(vec!["id".to_string()])])
        .from("bucket", "key")
        .where_clause(Clause::G("n".to_string(), usize::MAX))
        .build()
        .unwrap();

    assert_eq!(
        query,
        "SELECT s.id FROM S3Object s WHERE s.n > 18446744073709551615"
    );
}

#[test]
fn in_set_order_and_duplicates_kept() {
    let query = QueryContent::select(vec![Select::Elements(vec!["id".to_string()])])
        .from("bucket", "key")
        .where_clause(Clause::In(
            "f".to_string(),
            vec!["b".to_string(), "a".to_string(), "b".to_string()],
        ))
        .build()
        .unwrap();

    assert_eq!(
        query,
        "SELECT s.id FROM S3Object s WHERE s.f IN (\"b\", \"a\", \"b\")"
    );
}

#[test]
fn in_empty_set() {
    let query = QueryContent::select(vec![Select::Elements(vec!["id".to_string()])])
        .from("bucket", "key")
        .where_clause(Clause::In("f".to_string(), vec![]))
        .build()
        .unwrap();

    assert_eq!(query, "SELECT s.id FROM S3Object s WHERE s.f IN ()");
}

#[test]
fn source_overwritten() {
    let query = QueryContent::select(vec![Select::Elements(vec!["id".to_string()])])
        .from("first-bucket", "first-key")
        .from("second-bucket", "second-key");

    assert_eq!(query.build().unwrap(), "SELECT s.id FROM S3Object s");

    let request = query
        .content_request(
            CompressionType::NONE,
            InputObjectFormat::JSON(JsonType::Document),
            OutputObjectFormat::JSON(None),
        )
        .unwrap();

    assert_eq!(request.bucket, "second-bucket");
    assert_eq!(request.key, "second-key");
}
