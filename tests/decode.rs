use todo_store::decode::{decode_records, DecodeError};
use todo_store::value::Value;

fn text(s: &str) -> Value {
    Value::Text(s.to_string())
}

fn object(fields: Vec<(&str, Value)>) -> Value {
    Value::Object(fields.into_iter().map(|(k, v)| (k.to_string(), v)).collect())
}

#[test]
fn empty_response_is_an_error() {
    assert!(matches!(decode_records(vec![]), Err(DecodeError::EmptyResponse)));
}

#[test]
fn scalar_result_is_an_error() {
    assert!(matches!(decode_records(vec![Ok(Value::Number(3))]), Err(DecodeError::UnexpectedShape)));
    assert!(matches!(decode_records(vec![Ok(text("x"))]), Err(DecodeError::UnexpectedShape)));
}

#[test]
fn failed_statement_passes_its_detail_on() {
    let r = decode_records(vec![Err("boom".to_string()), Ok(Value::Array(vec![]))]);
    assert!(matches!(r, Err(DecodeError::QueryFailed(d)) if d == "boom"));
}

#[test]
fn only_the_first_result_is_read() {
    let r = decode_records(vec![Ok(Value::Array(vec![])), Err("later".to_string())]);
    let mut rs = r.ok().unwrap();
    assert!(rs.is_done());
    assert!(rs.next().is_none());
}

#[test]
fn bad_entry_after_good_one() {
    let good = object(vec![("title", text("a"))]);
    let mut rs = decode_records(vec![Ok(Value::Array(vec![good, Value::Number(7)]))]).ok().unwrap();
    let first = rs.next().unwrap().unwrap();
    assert_eq!(first, vec![("title".to_string(), text("a"))]);
    assert_eq!(rs.next(), Some(Err(DecodeError::RecordNotAnObject)));
    assert_eq!(rs.next(), None);
    assert!(rs.is_done());
}

#[test]
fn entries_come_in_order() {
    let a = object(vec![("n", Value::Number(1))]);
    let b = object(vec![("n", Value::Number(2))]);
    let c = object(vec![("n", Value::Number(3))]);
    let mut rs = decode_records(vec![Ok(Value::Array(vec![a, b, c]))]).ok().unwrap();
    for n in 1..=3 {
        assert_eq!(rs.next(), Some(Ok(vec![("n".to_string(), Value::Number(n))])));
    }
    assert_eq!(rs.next(), None);
}
