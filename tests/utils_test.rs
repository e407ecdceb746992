use instructor_rs::error::Error;
use instructor_rs::extract::extract_json_from_codeblock;
use instructor_rs::scanner::{extract_json_from_stream, ObjectScanner};
use instructor_rs::validate::TestStruct;

fn char_fragments(text: &str) -> Vec<Result<String, Error>> {
    text.chars().map(|c| Ok(c.to_string())).collect()
}

#[test]
fn dummy_fail() {
    // One is not the product of one and two: the validator must say so.
    assert!(TestStruct { value: 1 }.validate((1, 2)).is_err());
}

#[test]
fn test_extract_json_from_codeblock_success() {
    let content = "Some text {\"key\": \"value\"} more text";
    let result = extract_json_from_codeblock(content);
    assert_eq!(result.unwrap(), "{\"key\": \"value\"}");
}

#[test]
fn test_extract_json_from_codeblock_no_json() {
    let content_no_json = "No JSON here!";
    let result = extract_json_from_codeblock(content_no_json);
    assert!(result.is_err());
    if let Err(Error::JsonExtractionError(msg)) = result {
        assert_eq!(msg, "No JSON found");
    } else {
        panic!("Expected JsonExtractionError");
    }
}

#[test]
fn test_extract_json_from_codeblock_multiple_json_objects() {
    let content = "JSON {\"key1\": \"value1\"},{\"key2\": \"value2\"}";
    let result = extract_json_from_codeblock(content);
    println!("result: {:?}", result);
    let correct = "{\"key1\": \"value1\"},{\"key2\": \"value2\"}".to_string();
    assert_eq!(result.unwrap(), correct);
}

#[test]
fn test_extract_json_from_codeblock_nested_json() {
    let content = "Nested JSON {\"key\": {\"nestedKey\": \"nestedValue\"}}";
    let result = extract_json_from_codeblock(content);
    assert_eq!(result.unwrap(), "{\"key\": {\"nestedKey\": \"nestedValue\"}}");
}

#[test]
fn extract_json_from_codeblock_close_before_open_is_rejected() {
    let result = extract_json_from_codeblock("} then {");
    assert!(matches!(result, Err(Error::JsonExtractionError(_))));
}

#[test]
fn test_extract_json_from_stream_async() {
    let text = r#"here is the json for you! 
    
        ```json
        , here
        {
            "key": "value",
            "another_key": [{"key": {"key": "value"}}]
        }
        ```
        What do you think?
        "#;
    let results = extract_json_from_stream(char_fragments(text));
    let collected: String = results
        .into_iter()
        .collect::<Result<Vec<_>, _>>()
        .unwrap()
        .join(" ");
    let json: serde_json::Value = serde_json::from_str(&collected).unwrap();
    assert_eq!(json["key"], "value");
    assert_eq!(json["another_key"][0]["key"]["key"], "value");
}

#[test]
fn test_multiple_extract_json_from_stream_async() {
    let text = r#"{'key1': 'value'}, {'key2': 'value'}"#;
    let results = extract_json_from_stream(char_fragments(text));
    let collected: String = results
        .into_iter()
        .collect::<Result<Vec<_>, _>>()
        .unwrap()
        .join(" ");
    let expected_1 = "{'key1': 'value'}";
    let expected_2 = "{'key2': 'value'}";
    assert!(collected.contains(expected_1), "Output does not contain the first expected JSON object.");
    assert!(collected.contains(expected_2), "Output does not contain the second expected JSON object.");
}

#[test]
fn scanner_emits_two_objects_from_two_fragments() {
    let mut scanner = ObjectScanner::new();
    let mut out = scanner.push_fragment("{\"v\":1}");
    out.extend(scanner.push_fragment(",{\"v\":2}"));
    assert_eq!(out, vec!["{\"v\":1}".to_string(), "{\"v\":2}".to_string()]);
}

#[test]
fn scanner_drops_unterminated_tail() {
    let mut scanner = ObjectScanner::new();
    let mut out = scanner.push_fragment("{\"a\":1} {\"b\":");
    out.extend(scanner.push_fragment("{\"c\":2}"));
    assert_eq!(out, vec!["{\"a\":1}".to_string()]);
    assert_eq!(scanner.pending_depth(), 1);
}

#[test]
fn scanner_emits_nothing_for_empty_input() {
    let out = extract_json_from_stream(vec![]);
    assert!(out.is_empty());
    let out = extract_json_from_stream(vec![Ok(String::new()), Ok("no braces".to_string())]);
    assert!(out.is_empty());
}

#[test]
fn scanner_splits_objects_across_fragments() {
    let chunks = vec![
        Ok("noise {\"a\":".to_string()),
        Ok("{\"b\":1}".to_string()),
        Ok("}{\"c\"".to_string()),
        Ok(":3}".to_string()),
    ];
    let out: Vec<String> = extract_json_from_stream(chunks).into_iter().map(|r| r.unwrap()).collect();
    assert_eq!(out, vec!["{\"a\":{\"b\":1}}".to_string(), "{\"c\":3}".to_string()]);
}

#[test]
fn scanner_forwards_errors_without_flushing() {
    let chunks = vec![
        Ok("{\"a\":".to_string()),
        Err(Error::Generic("lost".to_string())),
        Ok("1}".to_string()),
    ];
    let out = extract_json_from_stream(chunks);
    assert_eq!(out.len(), 2);
    assert!(matches!(&out[0], Err(Error::Generic(m)) if m == "lost"));
    assert_eq!(out[1].as_ref().unwrap(), "{\"a\":1}");
}

#[test]
fn scanner_ignores_stray_closing_braces() {
    let mut scanner = ObjectScanner::new();
    let out = scanner.push_fragment("}} {x}");
    assert_eq!(out, vec!["{x}".to_string()]);
    assert_eq!(scanner.push_char('}'), None);
}
