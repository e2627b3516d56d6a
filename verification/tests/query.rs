use std::sync::Arc;

use rustfs::query::{Context, Query};
use s3s::dto::{
    ExpressionType, InputSerialization, OutputSerialization, SelectObjectContentInput, SelectObjectContentRequest,
};

fn input(key: &str) -> Arc<SelectObjectContentInput> {
    Arc::new(SelectObjectContentInput {
        bucket: "dandan".to_string(),
        expected_bucket_owner: None,
        key: key.to_string(),
        sse_customer_algorithm: None,
        sse_customer_key: None,
        sse_customer_key_md5: None,
        request: SelectObjectContentRequest {
            expression: "select * from S3Object".to_string(),
            expression_type: ExpressionType::from_static(ExpressionType::SQL),
            input_serialization: InputSerialization::default(),
            output_serialization: OutputSerialization::default(),
            request_progress: None,
            scan_range: None,
        },
    })
}

#[test]
fn query_holds_what_it_was_made_with() {
    let input = input("data.csv");
    let query = Query::new(Context { input: input.clone() }, "select 1".to_string());
    assert_eq!(query.content(), "select 1");
    assert!(Arc::ptr_eq(&query.context().input, &input));
    assert_eq!(query.context().input.key, "data.csv");
}

#[test]
fn clone_of_a_query_shares_its_request() {
    let query = Query::new(Context { input: input("a") }, "select s.x from S3Object s".to_string());
    let copy = query.clone();
    assert_eq!(copy.content(), query.content());
    assert!(Arc::ptr_eq(&copy.context().input, &query.context().input));
    let context = query.context().clone();
    assert!(Arc::ptr_eq(&context.input, &query.context().input));
}
