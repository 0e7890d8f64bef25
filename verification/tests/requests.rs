use space_cli::error::{Category, ReportableError};
use space_cli::operation::Operation;
use space_cli::request::{build_request, parse_amount, parse_fee_rate, Shaping, TransactionRequest};
use space_cli::session::ClientSession;

fn session() -> ClientSession {
    ClientSession {
        wallet: "default".to_string(),
        network: "mainnet".to_string(),
        endpoint: "http://127.0.0.1:7225".to_string(),
        dust_threshold: None,
        force: false,
        skip_validation: false,
    }
}

fn local(message: &str) -> ReportableError {
    ReportableError {
        category: Category::LocalValidation(message.to_string()),
        detail: format!("Custom error: {}", message),
    }
}

const NOTHING: &str = "Nothing to submit: no operation and no bid outputs requested";
const ZERO_FEE: &str = "Fee rate must be greater than zero";

#[test]
fn open_builds_a_canonical_operation() {
    assert_eq!(
        Operation::open("Foo", 1000),
        Operation::Open { name: "@foo".to_string(), initial_amount: 1000 }
    );
}

#[test]
fn bid_builds_a_canonical_operation() {
    assert_eq!(
        Operation::bid("@BAR", 2500),
        Operation::Bid { name: "@bar".to_string(), amount: 2500 }
    );
}

#[test]
fn register_keeps_its_recipient() {
    assert_eq!(
        Operation::register("foo", Some("bc1qexample".to_string())),
        Operation::Register { name: "@foo".to_string(), destination: Some("bc1qexample".to_string()) }
    );
    assert_eq!(
        Operation::register("foo", None),
        Operation::Register { name: "@foo".to_string(), destination: None }
    );
}

#[test]
fn transfer_normalizes_every_name() {
    let spaces = vec!["Foo".to_string(), "@bar".to_string()];
    assert_eq!(
        Operation::transfer(&spaces, "@Alice".to_string()),
        Ok(Operation::Transfer {
            names: vec!["@foo".to_string(), "@bar".to_string()],
            destination: "@Alice".to_string(),
        })
    );
}

#[test]
fn transfer_of_nothing_is_refused() {
    assert_eq!(
        Operation::transfer(&Vec::new(), "bc1qexample".to_string()),
        Err(local("No space to transfer"))
    );
}

#[test]
fn send_coins_keeps_amount_and_recipient() {
    assert_eq!(
        Operation::send_coins(5000, "@Bob".to_string()),
        Operation::SendCoins { amount: 5000, destination: "@Bob".to_string() }
    );
}

#[test]
fn execute_normalizes_its_context() {
    assert_eq!(
        Operation::execute(&vec!["FOO".to_string()], vec![1, 2, 3]),
        Operation::Execute { context: vec!["@foo".to_string()], payload: vec![1, 2, 3] }
    );
    assert_eq!(
        Operation::execute(&Vec::new(), Vec::new()),
        Operation::Execute { context: Vec::new(), payload: Vec::new() }
    );
}

#[test]
fn request_with_nothing_to_submit_is_refused() {
    assert_eq!(
        build_request(&session(), None, None, Shaping::with_fee_rate(None)),
        Err(local(NOTHING))
    );
    assert_eq!(
        build_request(&session(), None, None, Shaping::with_fee_rate(Some(5))),
        Err(local(NOTHING))
    );
}

#[test]
fn nothing_to_submit_is_reported_before_a_zero_fee_rate() {
    assert_eq!(
        build_request(&session(), None, None, Shaping::with_fee_rate(Some(0))),
        Err(local(NOTHING))
    );
}

#[test]
fn zero_fee_rate_is_refused() {
    assert_eq!(
        build_request(
            &session(),
            Some(Operation::open("foo", 1000)),
            None,
            Shaping::with_fee_rate(Some(0))
        ),
        Err(local(ZERO_FEE))
    );
    assert_eq!(
        build_request(&session(), None, Some(2), Shaping::with_fee_rate(Some(0))),
        Err(local(ZERO_FEE))
    );
}

#[test]
fn operation_and_fee_rate_are_attached_as_given() {
    let request = build_request(
        &session(),
        Some(Operation::open("foo", 1000)),
        None,
        Shaping::with_fee_rate(Some(5)),
    );
    assert_eq!(
        request,
        Ok(TransactionRequest {
            operations: vec![Operation::Open { name: "@foo".to_string(), initial_amount: 1000 }],
            bidout_count: None,
            fee_rate: Some(5),
            dust_threshold: None,
            force: false,
            confirmed_only: false,
            skip_validation: false,
        })
    );
}

#[test]
fn operation_is_not_normalized_again() {
    let raw = Operation::Open { name: "Foo".to_string(), initial_amount: 1 };
    let request =
        build_request(&session(), Some(raw.clone()), None, Shaping::with_fee_rate(None)).unwrap();
    assert_eq!(request.operations, vec![raw]);
}

#[test]
fn bid_outputs_alone_make_a_request() {
    let request = build_request(&session(), None, Some(3), Shaping::with_fee_rate(None));
    assert_eq!(
        request,
        Ok(TransactionRequest {
            operations: Vec::new(),
            bidout_count: Some(3),
            fee_rate: None,
            dust_threshold: None,
            force: false,
            confirmed_only: false,
            skip_validation: false,
        })
    );
}

#[test]
fn bid_output_count_of_zero_is_not_refused() {
    let request = build_request(&session(), None, Some(0), Shaping::with_fee_rate(None)).unwrap();
    assert_eq!(request.bidout_count, Some(0));
    assert!(request.operations.is_empty());
    let request = build_request(&session(), None, Some(255), Shaping::with_fee_rate(None)).unwrap();
    assert_eq!(request.bidout_count, Some(255));
}

#[test]
fn operation_and_bid_outputs_go_together() {
    let request = build_request(
        &session(),
        Some(Operation::bid("foo", 10)),
        Some(1),
        Shaping::with_fee_rate(Some(u64::MAX)),
    )
    .unwrap();
    assert_eq!(request.operations.len(), 1);
    assert_eq!(request.bidout_count, Some(1));
    assert_eq!(request.fee_rate, Some(u64::MAX));
}

#[test]
fn session_defaults_fill_what_the_call_leaves_open() {
    let s = ClientSession { dust_threshold: Some(600), force: true, skip_validation: true, ..session() };
    let request =
        build_request(&s, Some(Operation::bid("foo", 10)), None, Shaping::with_fee_rate(None))
            .unwrap();
    assert_eq!(request.dust_threshold, Some(600));
    assert!(request.force);
    assert!(request.skip_validation);
    assert!(!request.confirmed_only);
}

#[test]
fn the_call_overrides_the_session() {
    let s = ClientSession { dust_threshold: Some(600), force: true, skip_validation: true, ..session() };
    let shaping = Shaping {
        fee_rate: Some(2),
        dust_threshold: Some(1000),
        force: Some(false),
        skip_validation: Some(false),
        confirmed_only: true,
    };
    let request = build_request(&s, Some(Operation::bid("foo", 10)), None, shaping).unwrap();
    assert_eq!(request.dust_threshold, Some(1000));
    assert!(!request.force);
    assert!(!request.skip_validation);
    assert!(request.confirmed_only);
    assert_eq!(request.fee_rate, Some(2));

    let shaping = Shaping { force: Some(true), skip_validation: Some(true), ..Shaping::with_fee_rate(None) };
    let request = build_request(&session(), Some(Operation::bid("foo", 10)), None, shaping).unwrap();
    assert!(request.force);
    assert!(request.skip_validation);
    assert_eq!(request.dust_threshold, None);
}

#[test]
fn shaping_with_a_fee_rate_sets_nothing_else() {
    assert_eq!(
        Shaping::with_fee_rate(Some(9)),
        Shaping {
            fee_rate: Some(9),
            dust_threshold: None,
            force: None,
            skip_validation: None,
            confirmed_only: false,
        }
    );
}

#[test]
fn fee_rate_text_is_read() {
    assert_eq!(parse_fee_rate("5"), Ok(5));
    assert_eq!(parse_fee_rate("+12"), Ok(12));
    assert_eq!(parse_fee_rate("18446744073709551615"), Ok(u64::MAX));
}

#[test]
fn fee_rate_text_of_zero_is_refused() {
    assert_eq!(parse_fee_rate("0"), Err(local(ZERO_FEE)));
    assert_eq!(parse_fee_rate("000"), Err(local(ZERO_FEE)));
    assert_eq!(parse_fee_rate("+0"), Err(local(ZERO_FEE)));
}

#[test]
fn fee_rate_text_that_is_no_number_is_refused() {
    assert_eq!(parse_fee_rate("abc"), Err(local("Invalid fee rate: abc")));
    assert_eq!(parse_fee_rate(""), Err(local("Invalid fee rate: ")));
    assert_eq!(parse_fee_rate("-1"), Err(local("Invalid fee rate: -1")));
    assert_eq!(parse_fee_rate("1.5"), Err(local("Invalid fee rate: 1.5")));
    assert_eq!(
        parse_fee_rate("18446744073709551616"),
        Err(local("Invalid fee rate: 18446744073709551616"))
    );
}

#[test]
fn amount_text_is_read() {
    assert_eq!(parse_amount("1000"), Ok(1000));
    assert_eq!(parse_amount("0"), Ok(0));
    assert_eq!(parse_amount("ten"), Err(local("Invalid amount: ten")));
    assert_eq!(parse_amount(""), Err(local("Invalid amount: ")));
}
