use domain_types::order::CardBrand;
use domain_types::order::Order;
use domain_types::order::OrderError;
use domain_types::order::OrderId;
use domain_types::order::OrderStatus;
use domain_types::order::PaymentMethod;
use domain_types::time::Duration;
use domain_types::time::Instant;

fn bank_order(started_at: Instant) -> Order {
    Order::new(
        OrderId::new("order-0000000001".to_string()),
        PaymentMethod::BankTransfer { payee_bank_account: "main-account".to_string() },
        started_at,
    )
}

#[test]
fn bank_transfer_captures_nineteen_days_in() {
    let now = Instant { seconds: 100 * 86400 };
    let mut order = bank_order(Instant { seconds: 81 * 86400 });
    let result = order.capture(now, None);
    assert!(result.is_ok());
    assert!(matches!(order.status(), OrderStatus::Paid { .. }));
}

#[test]
fn bank_transfer_past_deadline_cites_twenty_days() {
    let now = Instant { seconds: 100 * 86400 };
    let mut order = bank_order(Instant { seconds: 79 * 86400 });
    let result = order.capture(now, None);
    assert_eq!(result.unwrap_err(), OrderError::DeadlineExceeded { deadline_days: 20 });
    assert!(matches!(order.status(), OrderStatus::Pending { .. }));
}

#[test]
fn capture_at_the_exact_deadline_succeeds() {
    let started = Instant { seconds: 1000 };
    let mut order = bank_order(started);
    assert!(order.capture(Instant { seconds: 1000 + 20 * 86400 }, None).is_ok());
}

#[test]
fn capture_one_second_past_the_deadline_fails() {
    let started = Instant { seconds: 1000 };
    let mut order = Order::new(
        OrderId::new("order-0000000002".to_string()),
        PaymentMethod::CreditCard { card_brand: CardBrand::Visa },
        started,
    );
    let result = order.capture(Instant { seconds: 1000 + 15 * 86400 + 1 }, None);
    assert_eq!(result.unwrap_err(), OrderError::DeadlineExceeded { deadline_days: 15 });
}

#[test]
fn cash_on_delivery_has_no_deadline() {
    let mut order = Order::new(
        OrderId::new("order-0000000003".to_string()),
        PaymentMethod::CashOnDelivery {},
        Instant { seconds: 0 },
    );
    let far_future = Instant { seconds: 9_000_000_000_000_000_000 };
    assert!(order.capture(far_future, Some("txn-1".to_string())).is_ok());
    match order.status() {
        OrderStatus::Paid { txn_id, .. } => assert_eq!(txn_id.as_deref(), Some("txn-1")),
        _ => panic!("expected the order to be paid"),
    }
}

#[test]
fn second_capture_is_an_invalid_operation() {
    let mut order = bank_order(Instant { seconds: 0 });
    assert!(order.capture(Instant { seconds: 86400 }, None).is_ok());
    let again = order.capture(Instant { seconds: 86400 }, None);
    assert_eq!(again.unwrap_err(), OrderError::InvalidOperation);
}

#[test]
fn capture_keeps_identity_and_payment_method() {
    let mut order = bank_order(Instant { seconds: 0 });
    assert!(order.capture(Instant { seconds: 5 }, None).is_ok());
    assert_eq!(order.id().as_str(), "order-0000000001");
    assert_eq!(order.payment_method().code(), "B");
}

#[test]
fn payment_method_codes() {
    assert_eq!(PaymentMethod::BankTransfer { payee_bank_account: String::new() }.code(), "B");
    assert_eq!(PaymentMethod::CashOnDelivery {}.code(), "COD");
    assert_eq!(PaymentMethod::CreditCard { card_brand: CardBrand::Amex }.code(), "CR");
}

#[test]
fn deadline_rules_by_payment_method() {
    let bank = PaymentMethod::BankTransfer { payee_bank_account: String::new() };
    let rule = bank.deadline_rule().unwrap();
    assert_eq!(rule.deadline_dates, Duration::from_days(20));
    assert_eq!(rule.deadline_dates.num_days(), 20);

    let card = PaymentMethod::CreditCard { card_brand: CardBrand::JCB };
    assert_eq!(card.deadline_rule().unwrap().deadline_dates.num_days(), 15);

    assert!(PaymentMethod::CashOnDelivery {}.deadline_rule().is_none());
}

#[test]
fn durations_count_whole_days() {
    let d = Duration::from_days(20);
    assert_eq!(d.seconds, 1_728_000);
    assert_eq!(d.num_days(), 20);
}

#[test]
fn order_ids_compare_by_value() {
    let a = OrderId::new("order-0000000001".to_string());
    let b = OrderId::new("order-0000000001".to_string());
    let c = OrderId::new("order-0000000002".to_string());
    assert_eq!(a, b);
    assert_ne!(a, c);
}
