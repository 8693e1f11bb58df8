use telescope::error::TelescopeError;
use telescope::graphql::{handle_graphql_response, PathSegment, RemoteError, RemoteResponse};

#[derive(Debug, Clone, PartialEq)]
struct Point {
    x: i64,
}

#[derive(Debug, Clone, PartialEq)]
struct ResponseData {
    name: String,
}

fn not_found() -> RemoteError {
    RemoteError { message: "not found".to_string(), path: None }
}

#[test]
fn data_without_errors_is_ok() {
    let r = RemoteResponse { data: Some(Point { x: 1 }), errors: None };
    assert!(!r.is_protocol_violation());
    assert_eq!(handle_graphql_response("RCOS", r), Ok(Point { x: 1 }));
}

#[test]
fn empty_error_list_with_data_is_ok() {
    let r = RemoteResponse { data: Some(Point { x: 1 }), errors: Some(vec![]) };
    assert!(!r.is_protocol_violation());
    assert_eq!(handle_graphql_response("RCOS", r), Ok(Point { x: 1 }));
}

#[test]
fn errors_with_data_are_reported() {
    let errs = vec![RemoteError {
        message: "denied".to_string(),
        path: Some(vec![PathSegment::Key("users".to_string()), PathSegment::Index(0)]),
    }];
    let r = RemoteResponse { data: Some(Point { x: 1 }), errors: Some(errs.clone()) };
    assert_eq!(
        handle_graphql_response("RCOS", r),
        Err(TelescopeError::GraphQLError { platform: "RCOS".to_string(), errors: errs })
    );
}

#[test]
fn errors_without_data_are_reported() {
    let r: RemoteResponse<Point> = RemoteResponse { data: None, errors: Some(vec![not_found()]) };
    assert!(!r.is_protocol_violation());
    assert_eq!(
        handle_graphql_response("GitHub", r),
        Err(TelescopeError::GraphQLError { platform: "GitHub".to_string(), errors: vec![not_found()] })
    );
}

#[test]
fn neither_data_nor_errors_is_a_violation() {
    let r: RemoteResponse<Point> = RemoteResponse { data: None, errors: None };
    assert!(r.is_protocol_violation());
    let r: RemoteResponse<Point> = RemoteResponse { data: None, errors: Some(vec![]) };
    assert!(r.is_protocol_violation());
}

/// A transport that answers the query for the user with id `abc` by name.
fn mock_transport(id: &str, found: bool) -> RemoteResponse<ResponseData> {
    assert_eq!(id, "abc");
    if found {
        RemoteResponse { data: Some(ResponseData { name: "X".to_string() }), errors: None }
    } else {
        RemoteResponse { data: None, errors: Some(vec![not_found()]) }
    }
}

#[test]
fn query_through_mock_transport() {
    let answer = mock_transport("abc", true);
    assert_eq!(handle_graphql_response("RCOS", answer), Ok(ResponseData { name: "X".to_string() }));
    let answer = mock_transport("abc", false);
    assert_eq!(
        handle_graphql_response("RCOS", answer),
        Err(TelescopeError::GraphQLError { platform: "RCOS".to_string(), errors: vec![not_found()] })
    );
}
