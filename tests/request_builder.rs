use igdb_query::request::{BuildError, CONTENT_TYPE, CONTENT_TYPE_NAME, HEADER_KEY_NAME};
use igdb_query::request_builder::{Equality, OrderBy, RequestBuilder};

fn body_text(builder: &RequestBuilder) -> String {
    String::from_utf8(builder.build_body()).unwrap()
}

#[test]
fn request_builder_with_all_fields() {
    let mut builder = RequestBuilder::new();

    builder.all_fields();

    let body = builder.build_body();

    assert_eq!("fields *;", String::from_utf8_lossy(&body).to_owned());
}

#[test]
fn request_builder_with_fields_and_where_clause_body_build() {
    let mut builder = RequestBuilder::new();

    builder
        .add_field("name")
        .add_field("involved_companies")
        .add_where("name", Equality::Equal, "Conan")
        .add_where("id", Equality::Lower, 39047.to_string());

    let body = builder.build_body();

    assert_eq!(
        "fields name,involved_companies; where id < 39047 & name = Conan;",
        String::from_utf8_lossy(&body).to_owned()
    );
}

#[test]
#[allow(non_snake_case)]
fn request_builder_with_fields__where_clause_and_sort_asc_body_build() {
    let mut builder = RequestBuilder::new();

    builder
        .add_field("name")
        .add_field("involved_companies")
        .add_where("name", Equality::Equal, "Conan")
        .add_where("id", Equality::Equal, 39047.to_string())
        .sort_by("name", OrderBy::Ascending);

    let body = builder.build_body();

    assert_eq!(
        "fields name,involved_companies; where id = 39047 & name = Conan; sort name asc",
        String::from_utf8_lossy(&body).to_owned()
    );
}

#[test]
fn named_fields_get_the_default_limit() {
    let mut builder = RequestBuilder::new();
    builder.add_field("name").add_field("rating").add_field("summary");
    assert_eq!(body_text(&builder), "fields name,rating,summary; limit 50;");
}

#[test]
fn single_named_field_gets_the_default_limit() {
    let mut builder = RequestBuilder::new();
    builder.add_field("name");
    assert_eq!(body_text(&builder), "fields name; limit 50;");
}

#[test]
fn all_fields_replaces_earlier_fields() {
    let mut builder = RequestBuilder::new();
    builder.add_field("name").add_field("rating").all_fields();
    assert_eq!(body_text(&builder), "fields *;");
}

#[test]
fn where_clause_joins_every_filter_once() {
    let mut builder = RequestBuilder::new();
    builder
        .add_field("name")
        .add_where("a", Equality::Lower, "1")
        .add_where("b", Equality::Greater, "2")
        .add_where("c", Equality::Equal, "3");
    assert_eq!(body_text(&builder), "fields name; where c = 3 & b > 2 & a < 1;");
}

#[test]
fn where_in_keeps_the_double_space() {
    let mut builder = RequestBuilder::new();
    builder
        .add_field("name")
        .add_where_in("id".to_string(), vec!["1".to_string(), "2".to_string(), "3".to_string()]);
    assert_eq!(body_text(&builder), "fields name; where id  = (1,2,3);");
}

#[test]
fn where_in_with_no_values() {
    let mut builder = RequestBuilder::new();
    builder.add_field("name").add_where_in("id".to_string(), Vec::new());
    assert_eq!(body_text(&builder), "fields name; where id  = ();");
}

#[test]
fn second_sort_replaces_the_first() {
    let mut builder = RequestBuilder::new();
    builder
        .add_field("name")
        .sort_by("name", OrderBy::Ascending)
        .sort_by("rating", OrderBy::Descending);
    assert_eq!(body_text(&builder), "fields name; sort rating desc limit 50;");
}

#[test]
fn second_limit_replaces_the_first() {
    let mut builder = RequestBuilder::new();
    builder.add_field("name").limit(10).limit(1234);
    assert_eq!(body_text(&builder), "fields name; limit 1234;");
}

#[test]
fn explicit_limit_is_kept_with_filters() {
    let mut builder = RequestBuilder::new();
    builder
        .all_fields()
        .add_where("id", Equality::Equal, "7")
        .limit(5);
    assert_eq!(body_text(&builder), "fields *; where id = 7; limit 5;");
}

#[test]
fn zero_limit_is_written() {
    let mut builder = RequestBuilder::new();
    builder.add_field("name").limit(0);
    assert_eq!(body_text(&builder), "fields name; limit 0;");
}

#[test]
fn search_clause_follows_the_fields() {
    let mut builder = RequestBuilder::new();
    builder
        .add_field("name")
        .search("zelda")
        .add_where("rating", Equality::Greater, "80");
    assert_eq!(body_text(&builder), "fields name; search \"zelda\"; where rating > 80;");
}

#[test]
fn empty_search_writes_no_clause() {
    let mut builder = RequestBuilder::new();
    builder.add_field("name").search("zelda").search("");
    assert_eq!(body_text(&builder), "fields name; limit 50;");
}

#[test]
fn empty_field_list_is_degenerate() {
    let builder = RequestBuilder::new();
    assert_eq!(body_text(&builder), "fields ; limit 50;");
}

#[test]
fn add_fields_appends_in_order() {
    let mut builder = RequestBuilder::new();
    builder.add_field("id").add_fields(vec!["name", "rating"]);
    assert_eq!(body_text(&builder), "fields id,name,rating; limit 50;");
}

#[test]
fn add_fields_with_owned_names() {
    let mut builder = RequestBuilder::new();
    builder.add_fields(vec!["cover".to_string(), "genres".to_string()]);
    assert_eq!(body_text(&builder), "fields cover,genres; limit 50;");
}

#[test]
fn query_matches_the_body() {
    let mut builder = RequestBuilder::new();
    builder.add_field("name").sort_by("name", OrderBy::Descending);
    assert_eq!(builder.query(), "fields name; sort name desc limit 50;");
    assert_eq!(builder.query().into_bytes(), builder.build_body());
}

#[test]
fn enum_texts() {
    assert_eq!(OrderBy::Ascending.to_string(), "asc");
    assert_eq!(OrderBy::Descending.to_string(), "desc");
    assert_eq!(Equality::Equal.to_string(), "=");
    assert_eq!(Equality::Greater.to_string(), ">");
    assert_eq!(Equality::Lower.to_string(), "<");
}

#[test]
fn build_carries_body_and_headers() {
    let mut builder = RequestBuilder::new();
    builder.add_field("name");
    let request = match builder.build("SECRET-REDACTED", "https://api.example.com/games") {
        Ok(r) => r,
        Err(_) => panic!("a valid URL was refused"),
    };
    assert_eq!(request.body, b"fields name; limit 50;".to_vec());
    assert_eq!(request.url.as_str(), "https://api.example.com/games");
    assert_eq!(
        request.headers,
        vec![
            (HEADER_KEY_NAME, "SECRET-REDACTED".to_string()),
            (CONTENT_TYPE_NAME, CONTENT_TYPE.to_string()),
        ]
    );
}

#[test]
fn build_refuses_a_malformed_url() {
    let builder = RequestBuilder::new();
    let result = builder.build("key", "not a url");
    assert!(matches!(result, Err(BuildError::InvalidUrl(_))));
}
