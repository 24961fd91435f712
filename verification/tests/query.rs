use satispay::canonical::render_query;
use satispay::endpoints::{payments_list_query, payments_list_request};
use satispay::payment::PaymentStatus;
use satispay::utils::{push_pair, push_to_query};

#[test]
fn a_missing_parameter_leaves_the_query_alone() {
    let mut query = String::new();
    push_to_query::<String>(&mut query, "status", None);
    assert_eq!(query, "");
    let mut query = "?a=1".to_string();
    push_to_query::<&str>(&mut query, "limit", None);
    assert_eq!(query, "?a=1");
}

#[test]
fn the_first_parameter_follows_a_question_mark() {
    let mut query = String::new();
    push_to_query(&mut query, "limit", Some("10"));
    assert_eq!(query, "?limit=10");
}

#[test]
fn later_parameters_follow_an_ampersand() {
    let mut query = String::new();
    push_to_query(&mut query, "a", Some("1".to_string()));
    push_to_query::<String>(&mut query, "b", None);
    push_to_query(&mut query, "c", Some("3"));
    push_to_query(&mut query, "a", Some(""));
    assert_eq!(query, "?a=1&c=3&a=");
}

#[test]
fn a_status_is_pushed_by_its_name() {
    let mut query = String::new();
    push_to_query(&mut query, "status", Some(PaymentStatus::PENDING));
    push_to_query(&mut query, "status", Some(PaymentStatus::ACCEPTED));
    push_to_query(&mut query, "status", Some(PaymentStatus::CANCELED));
    assert_eq!(query, "?status=PENDING&status=ACCEPTED&status=CANCELED");
}

#[test]
fn a_status_as_a_string() {
    assert_eq!(String::from(PaymentStatus::ACCEPTED), "ACCEPTED");
    assert_eq!(String::from(PaymentStatus::CANCELED), "CANCELED");
    assert_eq!(String::from(PaymentStatus::PENDING), "PENDING");
}

#[test]
fn pushing_a_pair() {
    let mut query = String::new();
    push_pair(&mut query, "a", "b");
    assert_eq!(query, "?a=b");
    push_pair(&mut query, "", "");
    assert_eq!(query, "?a=b&=");
}

#[test]
fn the_query_of_the_payments_list() {
    assert_eq!(payments_list_query(None, None, None, None), "");
    assert_eq!(
        payments_list_query(
            Some(PaymentStatus::PENDING),
            Some(10),
            Some("pay-7".to_string()),
            Some(1596701309706)
        ),
        "?status=PENDING&limit=10&starting_after_timestamp=1596701309706&starting_after=pay-7"
    );
    assert_eq!(
        payments_list_query(None, Some(-3), None, Some(0)),
        "?limit=-3&starting_after_timestamp=0"
    );
    assert_eq!(
        payments_list_query(None, None, Some("x".to_string()), None),
        "?starting_after=x"
    );
}

#[test]
fn the_signed_query_is_the_query_on_the_wire() {
    let cases = [
        (None, None, None, None),
        (Some(PaymentStatus::ACCEPTED), None, None, None),
        (None, Some(25), None, Some(u64::MAX)),
        (
            Some(PaymentStatus::CANCELED),
            Some(i32::MIN),
            Some("after".to_string()),
            Some(1),
        ),
    ];
    for (status, limit, after, timestamp) in cases {
        let request = payments_list_request(status, limit, after.clone(), timestamp);
        assert_eq!(
            render_query(request.query_params()),
            payments_list_query(status, limit, after, timestamp)
        );
    }
}
