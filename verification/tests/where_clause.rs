use content_query::query::{Clause, QueryContent, Select};

fn select() -> QueryContent {
    let elements = vec![
        Select::Elements(vec![
            "id".to_string(),
            "name".to_string(),
            "age".to_string(),
        ]),
        Select::Count("*".to_string()),
        Select::Avg("age".to_string()),
    ];

    QueryContent::select(elements).from("bucket", "key")
}

#[test]
fn and_greater() {
    let query = select();
    let query_str = query
        .where_clause(Clause::And(
            Box::new(Clause::GE("id".to_string(), 300)),
            Box::new(Clause::G("age".to_string(), 4)),
        ))
        .build()
        .unwrap();

    assert_eq!(query_str, "SELECT s.id, s.name, s.age, Count(*), Avg(s.age) FROM S3Object s WHERE s.id >= 300 AND s.age > 4");
}

#[test]
fn or_lesser() {
    let query = select();
    let query_str = query
        .where_clause(Clause::Or(
            Box::new(Clause::LE("id".to_string(), 300)),
            Box::new(Clause::L("age".to_string(), 4)),
        ))
        .build()
        .unwrap();

    assert_eq!(query_str, "SELECT s.id, s.name, s.age, Count(*), Avg(s.age) FROM S3Object s WHERE s.id <= 300 OR s.age < 4");
}

#[test]
fn and_equal() {
    let query = select();
    let query_str = query
        .where_clause(Clause::And(
            Box::new(Clause::E("id".to_string(), "74927".to_string())),
            Box::new(Clause::NotE("name".to_string(), "test".to_string())),
        ))
        .build()
        .unwrap();

    assert_eq!(query_str, "SELECT s.id, s.name, s.age, Count(*), Avg(s.age) FROM S3Object s WHERE s.id = \"74927\" AND s.name != \"test\"");
}

#[test]
fn or_missing() {
    let query = select();
    let query_str = query
        .where_clause(Clause::Or(
            Box::new(Clause::IsNotNull("id".to_string())),
            Box::new(Clause::IsNull("name".to_string())),
        ))
        .build()
        .unwrap();

    assert_eq!(query_str, "SELECT s.id, s.name, s.age, Count(*), Avg(s.age) FROM S3Object s WHERE s.id IS NOT MISSING OR s.name IS MISSING");
}

#[test]
fn and_in() {
    let query = select();
    let query_str = query
        .where_clause(Clause::And(
            Box::new(Clause::In(
                "name".to_string(),
                vec!["julia".to_string(), "naomi".to_string()],
            )),
            Box::new(Clause::NotIn(
                "id".to_string(),
                vec!["432904".to_string(), "90jd243".to_string()],
            )),
        ))
        .build()
        .unwrap();

    assert_eq!(query_str, "SELECT s.id, s.name, s.age, Count(*), Avg(s.age) FROM S3Object s WHERE s.name IN (\"julia\", \"naomi\") AND s.id NOT IN (\"432904\", \"90jd243\")");
}

#[test]
fn betweens() {
    let query = select();
    let query_str = query
        .where_clause(Clause::And(
            Box::new(Clause::Between("age".to_string(), 25, 35)),
            Box::new(Clause::NotBetween("id".to_string(), 300, 500)),
        ))
        .build()
        .unwrap();

    assert_eq!(query_str, "SELECT s.id, s.name, s.age, Count(*), Avg(s.age) FROM S3Object s WHERE s.age BETWEEN 25 AND 35 AND s.id NOTBETWEEN 300 AND 500");
}
