use instructor_rs::enums::{CompletionMessage, InstructorResponse, IterableOrSingle, ToolCall};
use instructor_rs::error::Error;
use instructor_rs::extract::{extract_json_from_codeblock, from_response};
use instructor_rs::mode::Mode;
use instructor_rs::validate::{bracket_batch, validate_many, validate_single};
use serde_json::Value;

#[derive(Debug, Clone, Default, PartialEq)]
struct Number {
    value1: i64,
}

#[derive(Debug, Clone, Default, PartialEq)]
struct MyFunc {
    value: i64,
    value2: String,
}

type Outcome<T> = Result<InstructorResponse<T, ()>, Error>;

fn number_of(v: &Value) -> Result<Number, String> {
    match v.get("value1").and_then(Value::as_i64) {
        Some(value1) => Ok(Number { value1 }),
        None => Err(format!("invalid record: {}", v)),
    }
}

fn my_func_of(v: &Value) -> Result<MyFunc, String> {
    match (v.get("value").and_then(Value::as_i64), v.get("value2").and_then(Value::as_str)) {
        (Some(value), Some(value2)) => Ok(MyFunc { value, value2: value2.to_string() }),
        _ => Err(format!("invalid record: {}", v)),
    }
}

fn at_least(value: i64, arg: i64) -> Result<(), String> {
    if value < arg {
        return Err("value1 must be greater than arg".to_string());
    }
    Ok(())
}

fn long_enough(value2: &str, arg: i64) -> Result<(), String> {
    if value2.len() < arg as usize {
        return Err("value2 must be more than arg".to_string());
    }
    Ok(())
}

fn numbers(text: &str, arg: Option<i64>) -> Outcome<Number> {
    let checked = serde_json::from_str::<Vec<Value>>(&bracket_batch(text))
        .map_err(|e| e.to_string())
        .and_then(|values| values.iter().map(number_of).collect::<Result<Vec<_>, _>>())
        .map(|records| {
            records
                .into_iter()
                .map(|n| match arg {
                    Some(a) => at_least(n.value1, a).map(|_| n),
                    None => Ok(n),
                })
                .collect()
        });
    validate_many(checked)
}

fn my_func_call(calls: Vec<ToolCall>, arg: Option<i64>) -> Outcome<MyFunc> {
    let message = CompletionMessage { content: None, tool_calls: Some(calls) };
    let model = IterableOrSingle::Single(MyFunc::default());
    let payload = from_response(&model, &message, Mode::TOOLS, "MyFunc")?;
    let checked = serde_json::from_str::<Value>(&payload)
        .map_err(|e| e.to_string())
        .and_then(|v| my_func_of(&v))
        .map(|f| match arg {
            Some(a) => long_enough(&f.value2, a).map(|_| f),
            None => Ok(f),
        });
    validate_single(checked)
}

fn test_struct_calls(calls: Vec<ToolCall>, model: IterableOrSingle<Number>) -> Result<String, Error> {
    let message = CompletionMessage { content: None, tool_calls: Some(calls) };
    from_response(&model, &message, Mode::TOOLS, "TestStruct")
}

fn tool(name: &str, arguments: &str) -> ToolCall {
    ToolCall { name: name.to_string(), arguments: arguments.to_string() }
}

const MANY: &str = "{\"value1\": 10},\n{\"value1\": -5},\n{\"value1\": 1000},\n{\"value1\": -789},\n{\"value1\": 0},\n{\"value1\": 999999},\n{\"value1\": -123456},\n{\"value1\": 42},\n{\"value1\": -9876},\n{\"value1\": 1}\n";
const MANY_POSITIVE: &str = "{\"value1\": 10},\n{\"value1\": 1},\n{\"value1\": 1000},\n{\"value1\": 789},\n{\"value1\": 10},\n{\"value1\": 999999},\n{\"value1\": 123456},\n{\"value1\": 42},\n{\"value1\": 9876},\n{\"value1\": 2}\n";

#[test]
fn openai_schema_test_model_validate_json_no_args() {
    let out = numbers(MANY, None);
    match out {
        Ok(InstructorResponse::Many(ref v)) => assert_eq!(v.len(), 10),
        _ => {
            println!("Error: {:?}", out.is_err());
            assert_eq!(true, false)
        },
    }
}

#[test]
#[allow(non_snake_case)]
fn OpenaiSchemaTest_model_validate_json_no_args() {
    let out = numbers(MANY, None);
    match out {
        Ok(InstructorResponse::Many(v)) => {
            assert_eq!(v[0].value1, 10);
            assert_eq!(v[9].value1, 1);
        },
        _ => assert_eq!(true, false),
    }
}

#[test]
fn openai_schema_test_model_validate_json_with_args() {
    let out1 = numbers(MANY_POSITIVE, Some(1));
    assert!(matches!(out1, Ok(InstructorResponse::Many(ref v)) if v.len() == 10));
    let out2 = numbers(MANY_POSITIVE, Some(10));
    match out2 {
        Err(Error::ValidationErrors(m)) => assert_eq!(m, "value1 must be greater than arg"),
        _ => assert_eq!(false, true),
    }
}

#[test]
#[allow(non_snake_case)]
fn OpenaiSchemaTest_model_validate_json_with_args() {
    assert!(numbers(MANY_POSITIVE, Some(1)).is_ok());
    assert!(numbers(MANY_POSITIVE, Some(10)).is_err());
}

#[test]
fn parse_json() {
    let positive_out = numbers("{\"value1\": 10}", None);
    match positive_out {
        Ok(InstructorResponse::Many(v)) => assert_eq!(v, vec![Number { value1: 10 }]),
        _ => assert_eq!(true, false),
    }
    let negative_out = numbers("{\"value1\": \"hello\"}", None);
    match negative_out {
        Err(Error::SerdeError(_)) => assert_eq!(true, true),
        _ => assert_eq!(false, true),
    }
}

#[test]
fn test_extract_json_from_codeblock() {
    let well_formed_codeblock = "```json\n{\"value1\": 10}\n```";
    match extract_json_from_codeblock(well_formed_codeblock) {
        Ok(json) => assert_eq!(json, "{\"value1\": 10}"),
        Err(_) => panic!("Expected valid JSON extraction"),
    }
    let misformed_codeblock = "```json\nvalue1: 10\n```";
    match extract_json_from_codeblock(misformed_codeblock) {
        Ok(_) => panic!("Expected an error due to invalid JSON format"),
        Err(e) => match e {
            Error::JsonExtractionError(msg) => assert_eq!(msg, "No JSON found".to_string()),
            _ => panic!("Unexpected error type"),
        },
    }
    let wrongly_nested_codeblock = "```json\n{\"value1\": 10\n```";
    match extract_json_from_codeblock(wrongly_nested_codeblock) {
        Ok(_) => panic!("Expected an error due to invalid JSON format"),
        Err(e) => match e {
            Error::JsonExtractionError(msg) => assert_eq!(msg, "No JSON found".to_string()),
            _ => panic!("Unexpected error type"),
        },
    }
}

#[test]
fn test_parse_tools_iterable_negative() {
    let wrong_tool = tool("wrong_tool", "{}");
    let right_tool = tool("TestStruct", "{\"value1\": 10}");
    let res = test_struct_calls(vec![wrong_tool, right_tool], IterableOrSingle::Iterable(Number::default()));
    match res {
        Ok(_) => assert_eq!(false, true),
        Err(e) => assert!(matches!(e, Error::JsonExtractionError(_))),
    }
}

#[test]
fn test_parse_tools_iterable_positive() {
    let right_tool = tool("TestStruct", "{\"value1\": 10}");
    let res = test_struct_calls(vec![right_tool; 2], IterableOrSingle::Iterable(Number::default()));
    match res {
        Ok(payload) => {
            assert_eq!(payload, "{\"value1\": 10},{\"value1\": 10}");
            assert!(matches!(numbers(&payload, None), Ok(InstructorResponse::Many(ref v)) if v.len() == 2));
        },
        Err(_) => assert_eq!(false, true),
    }
}

#[test]
fn test_parse_tools_negative() {
    let wrong_tool = tool("wrong_tool", "{}");
    let res = test_struct_calls(vec![wrong_tool], IterableOrSingle::Single(Number::default()));
    match res {
        Ok(_) => {
            println!("Error: {:?}", res);
            assert_eq!(false, true)
        },
        Err(_) => assert_eq!(true, true),
    }
}

#[test]
fn test_parse_tools_positive() {
    let positive_tool = tool("MyFunc", "{\"value\": 10, \"value2\": \"hello\"}");
    let res = my_func_call(vec![positive_tool], None);
    match res {
        Ok(InstructorResponse::One(f)) => assert_eq!(f, MyFunc { value: 10, value2: "hello".to_string() }),
        _ => assert_eq!(false, true),
    }
}

#[test]
fn test_parse_tools_positive_validation_positive() {
    let positive_tool = tool(
        "MyFunc",
        "{\"value\": 10, \"value2\": \"to be or not to be, that is the question\"}",
    );
    let res = my_func_call(vec![positive_tool], Some(10));
    println!("res: {:?}", res.is_ok());
    match res {
        Ok(_) => assert_eq!(true, true),
        Err(_) => assert_eq!(false, true),
    }
}

#[test]
fn test_parse_tools_positive_validation_negative() {
    let positive_tool = tool("MyFunc", "{\"value\": 10, \"value2\": \"hi\"}");
    let res = my_func_call(vec![positive_tool], Some(10));
    match res {
        Ok(_) => assert_eq!(false, true),
        Err(e) => assert!(matches!(e, Error::ValidationErrors(ref m) if m == "value2 must be more than arg")),
    }
}

#[test]
fn tool_call_for_another_type_is_rejected_even_with_valid_arguments() {
    let message = CompletionMessage {
        content: None,
        tool_calls: Some(vec![tool("wrong", "{\"city\": \"Paris\", \"celsius\": 21}")]),
    };
    let res = from_response(&IterableOrSingle::Single(()), &message, Mode::TOOLS, "Weather");
    match res {
        Err(Error::JsonExtractionError(m)) => {
            assert_eq!(m, "tool call name: wrong does not match model name: Weather")
        },
        _ => panic!("expected an extraction error"),
    }
}

#[test]
fn single_tool_mode_needs_exactly_one_call() {
    let two = CompletionMessage {
        content: None,
        tool_calls: Some(vec![tool("Weather", "{}"), tool("Weather", "{}")]),
    };
    let res = from_response(&IterableOrSingle::Single(()), &two, Mode::TOOLS, "Weather");
    assert!(matches!(res, Err(Error::JsonExtractionError(ref m)) if m == "Expected exactly one tool call"));
    let none = CompletionMessage { content: None, tool_calls: None };
    let res = from_response(&IterableOrSingle::Iterable(()), &none, Mode::TOOLS, "Weather");
    assert!(matches!(res, Err(Error::JsonExtractionError(ref m)) if m == "No tool calls found"));
    let empty = CompletionMessage { content: None, tool_calls: Some(vec![]) };
    let res = from_response(&IterableOrSingle::Iterable(()), &empty, Mode::TOOLS, "Weather");
    assert_eq!(res.unwrap(), "");
}

#[test]
fn json_mode_needs_content() {
    let message = CompletionMessage { content: None, tool_calls: None };
    let res = from_response(&IterableOrSingle::Single(()), &message, Mode::JSON, "Weather");
    assert!(matches!(res, Err(Error::JsonExtractionError(ref m)) if m == "No content found"));
    let message = CompletionMessage { content: Some("```json\n{\"a\": 1}\n```".to_string()), tool_calls: None };
    let res = from_response(&IterableOrSingle::Single(()), &message, Mode::MD_JSON, "Weather");
    assert_eq!(res.unwrap(), "{\"a\": 1}");
}

#[test]
fn single_payload_gives_the_decoded_record() {
    let payload = "{\"value1\": 42}";
    let checked = serde_json::from_str::<Value>(payload).map_err(|e| e.to_string()).and_then(|v| number_of(&v)).map(Ok);
    let out: Outcome<Number> = validate_single(checked);
    match out {
        Ok(InstructorResponse::One(n)) => assert_eq!(n, Number { value1: 42 }),
        _ => panic!("expected One"),
    }
}

#[test]
fn validation_is_repeatable() {
    let first = numbers(MANY_POSITIVE, Some(10));
    let second = numbers(MANY_POSITIVE, Some(10));
    match (first, second) {
        (Err(Error::ValidationErrors(a)), Err(Error::ValidationErrors(b))) => assert_eq!(a, b),
        _ => panic!("expected the same validation error twice"),
    }
    assert_eq!(numbers(MANY, None).unwrap().unwrap().unwrap(), numbers(MANY, None).unwrap().unwrap().unwrap());
}

#[test]
fn iterable_payload_without_brackets_gives_many() {
    let out = numbers("{\"value1\":1},{\"value1\":2}", None);
    match out {
        Ok(InstructorResponse::Many(v)) => assert_eq!(v, vec![Number { value1: 1 }, Number { value1: 2 }]),
        _ => panic!("expected Many"),
    }
}

#[test]
fn format_error_rejects_whole_batch() {
    let out = validate_many::<Number, ()>(Err("expected value at line 1".to_string()));
    match out {
        Err(e) => assert_eq!(e.message(), "Serde error: expected value at line 1"),
        _ => panic!("expected a format error"),
    }
}

#[test]
fn first_invalid_record_decides() {
    let checked = Ok(vec![Ok(1), Err("first".to_string()), Err("second".to_string())]);
    let out = validate_many::<i32, ()>(checked);
    assert!(matches!(out, Err(Error::ValidationErrors(ref m)) if m == "first"));
}
