use content_query::format::{CompressionType, InputObjectFormat, JsonType, OutputObjectFormat};
use content_query::query::{CompileError, QueryContent, Select};

#[test]
fn request_carries_all_parts() {
    let query = QueryContent::select(vec![Select::Elements(vec!["name".to_string()])])
        .from("bucket", "select-key")
        .limit(1);

    let request = query
        .content_request(
            CompressionType::GZIP,
            InputObjectFormat::JSON(JsonType::Lines),
            OutputObjectFormat::JSON(Some("\n".to_string())),
        )
        .unwrap();

    assert_eq!(request.bucket, "bucket");
    assert_eq!(request.key, "select-key");
    assert_eq!(
        request.expression,
        "SELECT s.name FROM S3Object s LIMIT 1"
    );
    assert_eq!(request.expression_type, "SQL");
    assert_eq!(request.input.json, Some("Lines".to_string()));
    assert!(!request.input.parquet);
    assert_eq!(request.input.compression, Some("GZIP".to_string()));
    assert_eq!(request.output.record_delimiter, Some("\n".to_string()));
}

#[test]
fn request_without_source_fails() {
    let query = QueryContent::select(vec![Select::Elements(vec!["name".to_string()])]);

    let result = query.content_request(
        CompressionType::NONE,
        InputObjectFormat::Parquet,
        OutputObjectFormat::JSON(None),
    );

    assert_eq!(result.unwrap_err(), CompileError::MissingSource);
}
