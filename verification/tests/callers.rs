//! Claims, text splitting, replies, storage places and the endpoint's decisions.

use lambda_http::aws_lambda_events::alb::AlbTargetGroupRequestContext;
use lambda_http::aws_lambda_events::apigw::{
    ApiGatewayProxyRequestContext, ApiGatewayV2httpRequestContext,
    ApiGatewayWebsocketProxyRequestContext,
};
use lambda_http::request::RequestContext;
use receipt_format::authorization_context::{read_claim, AuthorizationContext, ClaimsError};
use receipt_format::format::process_batch;
use receipt_format::handler::{next, Action, Event};
use receipt_format::input_data::{DocumentMetadata, ExpenseDocument, InputData};
use receipt_format::response::{error_response, missing_receipt_id, not_found, success, Reply};
use receipt_format::storage::location;
use receipt_format::text::{equals, owned_or_empty, split_on};

fn owned(text: &str) -> Option<String> {
    Some(String::from(text))
}

fn pieces(text: &str, sep: char) -> Vec<String> {
    split_on(text, sep)
}

fn gateway(claims: &[(&str, serde_json::Value)]) -> RequestContext {
    let mut context = ApiGatewayProxyRequestContext::default();
    for (name, value) in claims {
        context.authorizer.fields.insert(name.to_string(), value.clone());
    }
    RequestContext::ApiGatewayV1(context)
}

fn said(text: &str) -> serde_json::Value {
    serde_json::Value::String(String::from(text))
}

#[test]
fn a_request_context_is_read_into_an_authorization_context() {
    let request_context: RequestContext = serde_json::from_str(
        r#"
            {
              "accountId": "123456789012",
              "resourceId": "123456",
              "stage": "prod",
              "requestId": "c6af9ac6-7b61-11e6-9a41-93e8deadbeef",
              "requestTime": "09/Apr/2015:12:34:56 +0000",
              "requestTimeEpoch": 1428582896000,
              "authorizer" : {
                "id": "provider-id:address",
                "namespace": "addr",
                "scopes": "publish"
              },
              "identity": {
                "cognitoIdentityPoolId": null,
                "accountId": null,
                "cognitoIdentityId": null,
                "caller": null,
                "accessKey": null,
                "sourceIp": "127.0.0.1",
                "cognitoAuthenticationType": null,
                "cognitoAuthenticationProvider": null,
                "userArn": null,
                "userAgent": "Custom User Agent String",
                "user": null
              },
              "path": "/prod/path/to/resource",
              "resourcePath": "/{proxy+}",
              "httpMethod": "POST",
              "apiId": "1234567890",
              "protocol": "HTTP/1.1"
            }"#,
    )
    .unwrap();

    let context = AuthorizationContext::new(&request_context).unwrap();

    assert_eq!(context.namespace(), &owned("addr"));
    assert_eq!(context.id(), &owned("provider-id:address"));
    assert_eq!(context.provider(), &owned("provider-id"));
    assert_eq!(context.address(), &owned("address"));
    assert_eq!(context.scopes(), &vec![String::from("publish")]);
}

#[test]
fn a_request_context_gives_what_its_claims_give() {
    let request_context = gateway(&[
        ("namespace", said("addr")),
        ("id", said("mailto:user@example.com")),
        ("scopes", said("read write")),
        ("extra", said("ignored")),
    ]);

    assert_eq!(
        AuthorizationContext::new(&request_context),
        Ok(AuthorizationContext::from_claims(
            owned("addr"),
            owned("mailto:user@example.com"),
            "read write"
        ))
    );
}

#[test]
fn only_the_scopes_claim_is_needed() {
    let context = AuthorizationContext::new(&gateway(&[("scopes", said("publish"))])).unwrap();

    assert_eq!(context, AuthorizationContext::from_claims(None, None, "publish"));
    assert_eq!(context.namespace(), &None);
    assert_eq!(context.id(), &None);
}

#[test]
fn a_claim_that_is_not_a_string_counts_as_absent() {
    let request_context = gateway(&[
        ("namespace", serde_json::Value::Bool(true)),
        ("id", serde_json::Value::Null),
        ("scopes", said("publish")),
    ]);

    assert_eq!(
        AuthorizationContext::new(&request_context),
        Ok(AuthorizationContext::from_claims(None, None, "publish"))
    );
}

#[test]
fn a_request_context_without_scopes_gives_no_context() {
    assert_eq!(AuthorizationContext::new(&gateway(&[])), Err(ClaimsError::MissingScopes));
    assert_eq!(
        AuthorizationContext::new(&gateway(&[("id", said("p:a")), ("namespace", said("n"))])),
        Err(ClaimsError::MissingScopes)
    );
    assert_eq!(
        AuthorizationContext::new(&gateway(&[("scopes", serde_json::Value::from(7))])),
        Err(ClaimsError::MissingScopes)
    );
    assert_eq!(
        AuthorizationContext::new(&gateway(&[("Scopes", said("publish"))])),
        Err(ClaimsError::MissingScopes)
    );
}

#[test]
fn a_request_context_without_an_authorizer_gives_no_context() {
    let balancer = RequestContext::Alb(AlbTargetGroupRequestContext::default());
    assert_eq!(AuthorizationContext::new(&balancer), Err(ClaimsError::MissingAuthorizer));

    let http = RequestContext::ApiGatewayV2(ApiGatewayV2httpRequestContext::default());
    assert_eq!(AuthorizationContext::new(&http), Err(ClaimsError::MissingAuthorizer));
}

#[test]
fn every_kind_of_gateway_context_is_read() {
    let mut socket = ApiGatewayWebsocketProxyRequestContext::default();
    socket.authorizer.fields.insert(String::from("scopes"), said("a b"));
    let context = AuthorizationContext::new(&RequestContext::WebSocket(socket)).unwrap();
    assert_eq!(context.scopes(), &vec!["a", "b"]);

    let mut http = ApiGatewayV2httpRequestContext::default();
    http.authorizer = Some(Default::default());
    http.authorizer.as_mut().unwrap().fields.insert(String::from("scopes"), said("c"));
    let context = AuthorizationContext::new(&RequestContext::ApiGatewayV2(http)).unwrap();
    assert_eq!(context.scopes(), &vec!["c"]);
}

#[test]
fn a_claim_is_read_by_its_exact_name() {
    let mut context = ApiGatewayProxyRequestContext::default();
    context.authorizer.fields.insert(String::from("id"), said("provider-id:address"));
    context.authorizer.fields.insert(String::from("count"), serde_json::Value::from(3));

    assert_eq!(read_claim(&context.authorizer, "id"), owned("provider-id:address"));
    assert_eq!(read_claim(&context.authorizer, "ID"), None);
    assert_eq!(read_claim(&context.authorizer, "i"), None);
    assert_eq!(read_claim(&context.authorizer, ""), None);
    assert_eq!(read_claim(&context.authorizer, "count"), None);
}

#[test]
fn claims_are_read_into_a_context() {
    let context = AuthorizationContext::from_claims(owned("addr"), owned("provider-id:address"), "publish");

    assert_eq!(context.namespace(), &owned("addr"));
    assert_eq!(context.id(), &owned("provider-id:address"));
    assert_eq!(context.provider(), &owned("provider-id"));
    assert_eq!(context.address(), &owned("address"));
    assert_eq!(context.scopes(), &vec![String::from("publish")]);
}

#[test]
fn scopes_are_cut_at_every_space() {
    let context = AuthorizationContext::from_claims(None, None, "read write  admin ");

    assert_eq!(context.scopes(), &vec!["read", "write", "", "admin", ""]);
}

#[test]
fn an_empty_scopes_claim_is_one_empty_scope() {
    let context = AuthorizationContext::from_claims(None, None, "");
    assert_eq!(context.scopes(), &vec![""]);
}

#[test]
fn a_context_without_identity_has_no_provider_and_no_address() {
    let context = AuthorizationContext::from_claims(owned("addr"), None, "publish");

    assert_eq!(context.id(), &None);
    assert_eq!(context.provider(), &None);
    assert_eq!(context.address(), &None);
    assert_eq!(context.namespace(), &owned("addr"));
}

#[test]
fn an_identity_without_a_colon_names_only_a_provider() {
    let context = AuthorizationContext::from_claims(None, owned("provider-id"), "publish");

    assert_eq!(context.provider(), &owned("provider-id"));
    assert_eq!(context.address(), &None);
}

#[test]
fn what_follows_a_second_colon_is_left_out_of_the_address() {
    let context = AuthorizationContext::from_claims(None, owned("mailto:user@example.com:extra"), "s");

    assert_eq!(context.provider(), &owned("mailto"));
    assert_eq!(context.address(), &owned("user@example.com"));
    assert_eq!(context.id(), &owned("mailto:user@example.com:extra"));
}

#[test]
fn empty_parts_of_an_identity_are_kept_empty() {
    let context = AuthorizationContext::from_claims(None, owned(":"), "s");
    assert_eq!(context.provider(), &owned(""));
    assert_eq!(context.address(), &owned(""));

    let context = AuthorizationContext::from_claims(None, owned(""), "s");
    assert_eq!(context.provider(), &owned(""));
    assert_eq!(context.address(), &None);
}

#[test]
fn splitting_agrees_with_the_standard_library() {
    for text in [
        "", " ", "  ", "a", " a", "a ", "a b", "a  b", "read write admin", "a:b:c", ":", "::",
        "caf\u{e9} cr\u{e8}me", "\u{20ac} 3,50 \u{1f9fe}", "tab\tseparated words",
    ] {
        for sep in [' ', ':', '\u{e9}'] {
            let expected: Vec<String> = text.split(sep).map(String::from).collect();
            assert_eq!(pieces(text, sep), expected, "{:?} at {:?}", text, sep);
        }
    }
}

#[test]
fn splitting_gives_one_piece_more_than_there_are_separators() {
    assert_eq!(pieces("", ' '), vec![""]);
    assert_eq!(pieces("abc", ' '), vec!["abc"]);
    assert_eq!(pieces(" ", ' '), vec!["", ""]);
    assert_eq!(pieces("a b c", ' '), vec!["a", "b", "c"]);
}

#[test]
fn the_pieces_joined_give_the_text_back() {
    for text in ["", "a", "a b", " a  b ", "x:y", "\u{20ac} 1 \u{20ac}"] {
        let joined = pieces(text, ' ').join(" ");
        assert_eq!(joined, text);
        assert!(pieces(text, ' ').iter().all(|piece| !piece.contains(' ')));
    }
}

#[test]
fn texts_are_equal_when_their_characters_are() {
    assert!(equals("", ""));
    assert!(equals("PRICE", "PRICE"));
    assert!(equals("caf\u{e9}", "caf\u{e9}"));
    assert!(!equals("PRICE", "PRICES"));
    assert!(!equals("PRICES", "PRICE"));
    assert!(!equals("PRICE", "price"));
    assert!(!equals("", " "));
    assert!(!equals("caf\u{e9}", "cafe\u{301}"));
    assert!(!equals("abc", "abd"));
    assert!(!equals("xbc", "abc"));
}

#[test]
fn an_absent_text_is_owned_as_empty() {
    assert_eq!(owned_or_empty(&None), "");
    assert_eq!(owned_or_empty(&owned("")), "");
    assert_eq!(owned_or_empty(&owned("to win $1000")), "to win $1000");
}

#[test]
fn a_failure_is_reported_as_json() {
    let reply = error_response(400, "Missing receiptId parameter");

    assert_eq!(
        reply,
        Reply {
            status: 400,
            content_type: String::from("application/json"),
            body: String::from("{\"error\": \"Missing receiptId parameter\"}"),
        }
    );
}

#[test]
fn a_failure_keeps_its_status_and_message_as_given() {
    let reply = error_response(503, "");
    assert_eq!(reply.status, 503);
    assert_eq!(reply.body, "{\"error\": \"\"}");

    let reply = error_response(0, "a \"quoted\" word");
    assert_eq!(reply.status, 0);
    assert_eq!(reply.body, "{\"error\": \"a \"quoted\" word\"}");
}

#[test]
fn a_request_without_a_receipt_is_a_bad_request() {
    assert_eq!(missing_receipt_id(), error_response(400, "Missing receiptId parameter"));
    assert_eq!(missing_receipt_id().status, 400);
}

#[test]
fn a_receipt_without_results_is_not_found() {
    let reply = not_found("NoSuchBucket");

    assert_eq!(reply.status, 404);
    assert_eq!(reply.content_type, "application/json");
    assert_eq!(reply.body, "{\"error\": \"No results found - NoSuchBucket\"}");
    assert_eq!(not_found("").body, "{\"error\": \"No results found - \"}");
}

#[test]
fn results_go_out_as_they_are() {
    let reply = success(String::from("[{\"Blocks\":[]}]"));

    assert_eq!(
        reply,
        Reply {
            status: 200,
            content_type: String::from("application/json"),
            body: String::from("[{\"Blocks\":[]}]"),
        }
    );
    assert_eq!(success(String::new()).body, "");
}

#[test]
fn analyses_lie_under_bucket_provider_address_and_receipt() {
    assert_eq!(
        location("test-bucket", "provider-id", "address", "receipt-1"),
        "arn:aws:s3:::test-bucket/provider-id/address/receipt-1"
    );
    assert_eq!(location("", "", "", ""), "arn:aws:s3:::///");
    assert_eq!(location("b", "p/q", "a", "r"), "arn:aws:s3:::b/p/q/a/r");
}

#[test]
fn a_request_without_a_receipt_is_answered_at_once() {
    let event = Event::Received {
        provider: String::from("provider-id"),
        address: String::from("address"),
        receipt_id: None,
    };

    assert_eq!(next(event), Action::Respond { reply: missing_receipt_id() });
}

#[test]
fn a_request_for_a_receipt_has_its_analyses_fetched() {
    let event = Event::Received {
        provider: String::from("provider-id"),
        address: String::from("address"),
        receipt_id: Some(String::from("receipt-1")),
    };

    assert_eq!(
        next(event),
        Action::Fetch {
            provider: String::from("provider-id"),
            address: String::from("address"),
            receipt_id: String::from("receipt-1"),
        }
    );
}

#[test]
fn a_failed_fetch_is_answered_as_not_found() {
    let action = next(Event::FetchFailed { cause: String::from("AccessDenied") });

    assert_eq!(action, Action::Respond { reply: not_found("AccessDenied") });
    match action {
        Action::Respond { reply } => {
            assert_eq!(reply.status, 404);
            assert_eq!(reply.body, "{\"error\": \"No results found - AccessDenied\"}");
        }
        other => panic!("{:?}", other),
    }
}

#[test]
fn fetched_analyses_are_transformed_for_writing_out() {
    let analysis = InputData {
        document_metadata: DocumentMetadata { pages: 1 },
        expense_documents: vec![ExpenseDocument {
            blocks: vec![],
            expense_index: 1,
            line_item_groups: vec![],
            summary_fields: vec![],
        }],
    };
    let batch = vec![None, Some(analysis), None];

    let action = next(Event::Fetched { batch: batch.clone() });

    assert_eq!(action, Action::Serialize { results: process_batch(&batch) });
    match action {
        Action::Serialize { results } => assert_eq!(results.len(), 1),
        other => panic!("{:?}", other),
    }
    assert_eq!(next(Event::Fetched { batch: vec![] }), Action::Serialize { results: vec![] });
}

#[test]
fn what_was_written_out_is_the_answer() {
    let action = next(Event::Serialized { body: String::from("[]") });

    assert_eq!(action, Action::Respond { reply: success(String::from("[]")) });
    match action {
        Action::Respond { reply } => {
            assert_eq!(reply.status, 200);
            assert_eq!(reply.content_type, "application/json");
            assert_eq!(reply.body, "[]");
        }
        other => panic!("{:?}", other),
    }
}
