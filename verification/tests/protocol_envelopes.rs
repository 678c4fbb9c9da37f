use video_transcriber_mcp::json::rendered;
use video_transcriber_mcp::protocol::{
    decode_request, encode_response, request_from_json, response_json, text_content, McpResponse,
    EXECUTION_FAILED, INTERNAL_ERROR, METHOD_NOT_FOUND, MISSING_ARGUMENT, UNKNOWN_TOOL,
};

fn json(text: &str) -> serde_json::Value {
    serde_json::from_str(text).unwrap()
}

#[test]
fn success_carries_result_and_id() {
    let r = McpResponse::success(Some(json("7")), json("{\"ok\": true}"));
    assert_eq!(r.jsonrpc, "2.0");
    assert_eq!(r.id, Some(json("7")));
    assert_eq!(r.result, Some(json("{\"ok\": true}")));
    assert!(r.error.is_none());
}

#[test]
fn error_carries_code_and_message() {
    let r = McpResponse::error(Some(json("\"abc\"")), -32601, "Method not found: x".to_string());
    assert_eq!(r.jsonrpc, "2.0");
    assert_eq!(r.id, Some(json("\"abc\"")));
    assert!(r.result.is_none());
    let e = r.error.unwrap();
    assert_eq!(e.code, -32601);
    assert_eq!(e.message, "Method not found: x");
}

#[test]
fn error_codes_are_distinct() {
    let codes = [METHOD_NOT_FOUND, UNKNOWN_TOOL, INTERNAL_ERROR, MISSING_ARGUMENT, EXECUTION_FAILED];
    assert_eq!(codes, [-32601, -32602, -32603, -32600, -32000]);
    for i in 0..codes.len() {
        for j in 0..codes.len() {
            if i != j {
                assert_ne!(codes[i], codes[j]);
            }
        }
    }
}

#[test]
fn text_content_is_one_text_item() {
    assert_eq!(
        text_content("hello"),
        json("{\"content\": [{\"type\": \"text\", \"text\": \"hello\"}]}")
    );
}

#[test]
fn request_is_decoded_from_a_line() {
    let r = decode_request(
        "{\"jsonrpc\": \"2.0\", \"id\": 3, \"method\": \"tools/call\", \"params\": {\"name\": \"x\"}, \"extra\": 1}",
    )
    .unwrap();
    assert_eq!(r.jsonrpc, "2.0");
    assert_eq!(r.id, Some(json("3")));
    assert_eq!(r.method, "tools/call");
    assert_eq!(r.params, Some(json("{\"name\": \"x\"}")));
}

#[test]
fn absent_or_null_id_and_params_are_none() {
    let r = decode_request("{\"jsonrpc\": \"2.0\", \"method\": \"initialize\"}").unwrap();
    assert_eq!(r.id, None);
    assert_eq!(r.params, None);
    let r = decode_request(
        "{\"jsonrpc\": \"2.0\", \"id\": null, \"method\": \"initialize\", \"params\": null}",
    )
    .unwrap();
    assert_eq!(r.id, None);
    assert_eq!(r.params, None);
    let r = decode_request("{\"jsonrpc\": \"2.0\", \"id\": 1.5, \"method\": \"m\"}").unwrap();
    assert_eq!(r.id, Some(json("1.5")));
}

#[test]
fn lines_that_are_no_request_are_turned_down() {
    assert!(decode_request("").is_err());
    assert!(decode_request("{").is_err());
    assert!(decode_request("[1, 2]").is_err());
    assert!(decode_request("\"text\"").is_err());
    assert!(decode_request("{\"jsonrpc\": \"2.0\"}").is_err());
    assert!(decode_request("{\"id\": 1, \"params\": {}}").is_err());
    assert!(decode_request("{\"jsonrpc\": \"2.0\", \"method\": 5}").is_err());
    assert_eq!(
        request_from_json(&json("{\"jsonrpc\": \"2.0\"}")).unwrap_err(),
        "missing field `method`"
    );
    assert_eq!(
        request_from_json(&json("[\"2.0\", 1, \"m\"]")).unwrap_err(),
        "invalid type: expected a request object"
    );
    let message = decode_request("{\"jsonrpc\": ").unwrap_err();
    assert!(message.contains("line 1"));
}

#[test]
fn response_is_encoded_without_the_absent_part() {
    let ok = McpResponse::success(Some(json("1")), json("{\"a\": [1, \"b\"]}"));
    let line = encode_response(&ok).unwrap();
    assert!(!line.contains('\n'));
    assert_eq!(json(&line), json("{\"jsonrpc\": \"2.0\", \"id\": 1, \"result\": {\"a\": [1, \"b\"]}}"));
    let bad = McpResponse::error(None, -32603, "Internal error: x".to_string());
    let line = encode_response(&bad).unwrap();
    assert_eq!(
        json(&line),
        json("{\"jsonrpc\": \"2.0\", \"id\": null, \"error\": {\"code\": -32603, \"message\": \"Internal error: x\"}}")
    );
    assert_eq!(json(&line), response_json(&bad));
    assert_eq!(response_json(&bad)["error"]["code"], serde_json::Value::from(-32603i64));
}

#[test]
fn rendered_hands_on_text_or_message() {
    assert_eq!(rendered(Ok("{\"a\":1}".to_string())), Ok("{\"a\":1}".to_string()));
    assert_eq!(rendered(Ok(String::new())), Ok(String::new()));
    let error = serde_json::from_str::<serde_json::Value>("{").unwrap_err();
    let message = error.to_string();
    assert!(!message.is_empty());
    assert_eq!(rendered(Err(error)), Err(message));
}

#[test]
fn request_without_version_is_a_request() {
    let r = decode_request("{\"id\": 7, \"method\": \"initialize\"}").unwrap();
    assert_eq!(r.jsonrpc, "2.0");
    assert_eq!(r.id, Some(json("7")));
    assert_eq!(r.method, "initialize");
    assert_eq!(r.params, None);
    let r = decode_request("{\"jsonrpc\": 2, \"id\": \"a\", \"method\": \"tools/list\"}").unwrap();
    assert_eq!(r.jsonrpc, "2.0");
    assert_eq!(r.id, Some(json("\"a\"")));
    let r = decode_request("{\"jsonrpc\": \"1.0\", \"method\": \"m\"}").unwrap();
    assert_eq!(r.jsonrpc, "1.0");
}

#[test]
fn notation_is_always_written() {
    let ok = McpResponse::success(None, json("{\"b\": 1.5, \"a\": [null, true, -3, \"x\"]}"));
    assert_eq!(
        encode_response(&ok),
        Ok("{\"id\":null,\"jsonrpc\":\"2.0\",\"result\":{\"a\":[null,true,-3,\"x\"],\"b\":1.5}}".to_string())
    );
}
