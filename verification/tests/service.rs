use async_bench::batch::sum_batch;
use async_bench::decode::deserialize_body;
use async_bench::decode::deserialize_json_body;
use async_bench::decode::Error;
use async_bench::handler::handle_request;
use async_bench::response::bad_request_response;
use async_bench::response::build_ok_response;
use async_bench::response::server_error_response;

#[test]
fn sum_of_empty_batch_is_zero() {
    let nums: Vec<i64> = vec![];
    assert_eq!(sum_batch(&nums), 0);
}

#[test]
fn sum_of_small_batch() {
    assert_eq!(sum_batch(&vec![1, 2, 3]), 6);
    assert_eq!(sum_batch(&vec![10, 20, 30]), 60);
}

#[test]
fn sum_with_negatives_and_zero() {
    assert_eq!(sum_batch(&vec![-1, -2, 3, 0]), 0);
    assert_eq!(sum_batch(&vec![0, 0, 0]), 0);
    assert_eq!(sum_batch(&vec![-5, -6]), -11);
}

#[test]
fn sum_wraps_past_max() {
    assert_eq!(sum_batch(&vec![i64::MAX, 1]), i64::MIN);
    assert_eq!(sum_batch(&vec![i64::MAX, i64::MAX]), -2);
}

#[test]
fn sum_wraps_past_min() {
    assert_eq!(sum_batch(&vec![i64::MIN, -1]), i64::MAX);
}

#[test]
fn sum_of_boundary_values_cancels() {
    assert_eq!(sum_batch(&vec![i64::MAX, i64::MIN]), -1);
}

#[test]
fn deserialize_accepts_integer_array() {
    let r = deserialize_body(b"[1,2,3]");
    assert_eq!(r.unwrap(), vec![1, 2, 3]);
}

#[test]
fn deserialize_accepts_whitespace_and_negatives() {
    let r = deserialize_body(b" [ -1, 2 ,30 ] ");
    assert_eq!(r.unwrap(), vec![-1, 2, 30]);
}

#[test]
fn deserialize_rejects_plain_text() {
    let e = deserialize_body(b"not json").unwrap_err();
    assert!(e.is_decode());
    assert_eq!(e, Error::Json);
}

#[test]
fn deserialize_rejects_mixed_array() {
    let e = deserialize_body(b"[1,\"x\"]").unwrap_err();
    assert_eq!(e, Error::Json);
}

#[test]
fn deserialize_json_body_matches_result_form() {
    assert_eq!(deserialize_json_body(b"[7]"), Some(vec![7]));
    assert_eq!(deserialize_json_body(b"{}"), None);
}

#[test]
fn transport_and_timer_errors_are_not_decode_errors() {
    assert!(!Error::Transport.is_decode());
    assert!(!Error::Timer.is_decode());
    assert!(Error::Json.is_decode());
}

#[test]
fn round_trip_batch_sums_to_sixty() {
    let res = handle_request(b"[10,20,30]");
    assert_eq!(res.status, 200);
    assert_eq!(res.body, b"Sum: 60".to_vec());
}

#[test]
fn empty_array_replies_sum_zero() {
    let res = handle_request(b"[]");
    assert_eq!(res.status, 200);
    assert_eq!(res.body, b"Sum: 0".to_vec());
}

#[test]
fn negative_sum_is_rendered_with_sign() {
    let res = handle_request(b"[-5,-6]");
    assert_eq!(res.status, 200);
    assert_eq!(res.body, b"Sum: -11".to_vec());
}

#[test]
fn malformed_body_yields_client_error() {
    let res = handle_request(b"not json");
    assert_eq!(res.status, 400);
    assert_eq!(res.body, b"Bad Request".to_vec());
}

#[test]
fn mixed_array_yields_client_error() {
    let res = handle_request(b"[1,\"x\"]");
    assert_eq!(res.status, 400);
}

#[test]
fn truncated_array_yields_client_error() {
    let res = handle_request(b"[1,2,");
    assert_eq!(res.status, 400);
}

#[test]
fn same_request_twice_gets_same_reply() {
    let first = handle_request(b"[4,5,6]");
    let second = handle_request(b"[4,5,6]");
    assert_eq!(first.status, second.status);
    assert_eq!(first.body, second.body);
    assert_eq!(first.body, b"Sum: 15".to_vec());
}

#[test]
fn ok_response_renders_extreme_sums() {
    assert_eq!(build_ok_response(0).body, b"Sum: 0".to_vec());
    assert_eq!(build_ok_response(i64::MAX).body, b"Sum: 9223372036854775807".to_vec());
    assert_eq!(build_ok_response(i64::MIN).body, b"Sum: -9223372036854775808".to_vec());
    assert_eq!(build_ok_response(-1).body, b"Sum: -1".to_vec());
    assert_eq!(build_ok_response(1000).body, b"Sum: 1000".to_vec());
}

#[test]
fn min_value_round_trip() {
    let res = handle_request(b"[-9223372036854775808]");
    assert_eq!(res.status, 200);
    assert_eq!(res.body, b"Sum: -9223372036854775808".to_vec());
}

#[test]
fn error_responses_have_fixed_bodies() {
    let bad = bad_request_response();
    assert_eq!(bad.status, 400);
    assert_eq!(bad.body, b"Bad Request".to_vec());
    let err = server_error_response();
    assert_eq!(err.status, 500);
    assert_eq!(err.body, b"Timer Error".to_vec());
}
