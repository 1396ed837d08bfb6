//! The order lifecycle: an order owns an identity, a payment method and a
//! status, and a single transition operation (`capture`) moves it from
//! `Pending` to `Paid` after validating the payment method's deadline policy.
//!
//! Each payment method carries its own deadline policy, so adding a variant
//! forces a decision about its policy at the same place: every function that
//! branches on the method does so with an exhaustive `match`.

use vstd::prelude::*;

use crate::time::Duration;
use crate::time::Instant;
use crate::time::spec_elapsed;

verus! {

/// Opaque order identifier; the wrapped text is immutable after creation,
/// and two identifiers are equal exactly when their texts are.
#[derive(Debug, Clone, PartialEq, Eq)]
pub struct OrderId {
    value: String,
}

impl View for OrderId {
    type V = Seq<char>;

    closed spec fn view(&self) -> Seq<char> {
        self.value@
    }
}

impl OrderId {
    pub fn new(value: String) -> (r: OrderId)
        ensures
            r@ == value@,
    {
        OrderId { value }
    }

    pub fn as_str(&self) -> (r: &str)
        ensures
            r@ == self@,
    {
        self.value.as_str()
    }
}

/// The closed set of card brands a credit-card payment may carry.
#[derive(Debug, Clone, Copy, PartialEq, Eq, Structural)]
pub enum CardBrand {
    Visa,
    JCB,
    Master,
    Amex,
    Diners,
}

/// A payment method, each variant carrying its own data; its deadline policy
/// is looked up with [`PaymentMethod::deadline_rule`].
#[derive(Debug, Clone)]
pub enum PaymentMethod {
    BankTransfer { payee_bank_account: String },
    CashOnDelivery {},
    CreditCard { card_brand: CardBrand },
}

/// The deadline policy of a payment method: the longest span that may pass
/// between the order entering `Pending` and a successful capture.
#[derive(Debug, Clone, Copy, PartialEq, Eq, Structural)]
pub struct PaymentDeadlineRule {
    pub deadline_dates: Duration,
}

impl PaymentMethod {
    /// The short display code of each payment method.
    pub open spec fn spec_code(self) -> Seq<char> {
        match self {
            PaymentMethod::BankTransfer { .. } => "B"@,
            PaymentMethod::CashOnDelivery { .. } => "COD"@,
            PaymentMethod::CreditCard { .. } => "CR"@,
        }
    }

    /// The capture deadline of each payment method, in days: bank transfers
    /// allow 20, credit cards 15, and cash on delivery sets no deadline.
    pub open spec fn spec_deadline_days(self) -> Option<i64> {
        match self {
            PaymentMethod::BankTransfer { .. } => Some(20),
            PaymentMethod::CashOnDelivery { .. } => None,
            PaymentMethod::CreditCard { .. } => Some(15),
        }
    }

    /// The same policy as a rule value holding the deadline as a span.
    pub open spec fn spec_deadline_rule(self) -> Option<PaymentDeadlineRule> {
        match self {
            PaymentMethod::BankTransfer { .. } => Some(
                PaymentDeadlineRule { deadline_dates: Duration { seconds: 1728000 } },
            ),
            PaymentMethod::CashOnDelivery { .. } => None,
            PaymentMethod::CreditCard { .. } => Some(
                PaymentDeadlineRule { deadline_dates: Duration { seconds: 1296000 } },
            ),
        }
    }

    pub fn code(&self) -> (r: String)
        ensures
            r@ == self.spec_code(),
    {
        match self {
            PaymentMethod::BankTransfer { .. } => "B".to_owned(),
            PaymentMethod::CashOnDelivery {} => "COD".to_owned(),
            PaymentMethod::CreditCard { .. } => "CR".to_owned(),
        }
    }

    pub fn deadline_rule(&self) -> (r: Option<PaymentDeadlineRule>)
        ensures
            r == self.spec_deadline_rule(),
    {
        match self {
            PaymentMethod::BankTransfer { .. } => Some(
                PaymentDeadlineRule { deadline_dates: Duration::from_days(20) },
            ),
            PaymentMethod::CashOnDelivery {} => None,
            PaymentMethod::CreditCard { .. } => Some(
                PaymentDeadlineRule { deadline_dates: Duration::from_days(15) },
            ),
        }
    }
}

/// The lifecycle status of an order; exactly one variant holds at a time.
/// `Shipped` and `Cancelled` belong to the data model, but no transition in
/// this core reaches them.
#[derive(Debug, Clone)]
pub enum OrderStatus {
    Pending { started_at: Instant },
    Paid { paid_at: Instant, txn_id: Option<String> },
    Shipped { shipped_at: Instant, tracking_number: String, delivery_provider: String },
    Cancelled { cancelled_at: Instant, reason: String, refunded: bool },
}

/// Why a capture attempt was refused.
#[derive(Debug, Clone, Copy, PartialEq, Eq, Structural)]
pub enum OrderError {
    /// The transition is not permitted in the order's current status.
    InvalidOperation,
    /// More time passed since the order entered `Pending` than the payment
    /// method's deadline allows; carries that deadline in days.
    DeadlineExceeded { deadline_days: i64 },
}

/// An order. Its status moves only through [`Order::capture`]; its identity
/// and payment method never change after construction.
#[derive(Debug, Clone)]
pub struct Order {
    id: OrderId,
    payment_method: PaymentMethod,
    status: OrderStatus,
}

impl Order {
    pub closed spec fn spec_id(self) -> OrderId {
        self.id
    }

    pub closed spec fn spec_payment_method(self) -> PaymentMethod {
        self.payment_method
    }

    pub closed spec fn spec_status(self) -> OrderStatus {
        self.status
    }

    /// Whether `capture` at `now` succeeds: the order must still be pending,
    /// and where the payment method sets a deadline, no more time than it
    /// allows may have passed. Exactly the deadline is still in time.
    pub open spec fn can_capture(self, now: Instant) -> bool {
        &&& self.spec_status() matches OrderStatus::Pending { started_at }
        &&& match self.spec_payment_method().spec_deadline_rule() {
            Some(rule) => spec_elapsed(started_at, now) <= rule.deadline_dates.seconds,
            None => true,
        }
    }

    /// The error a failing `capture` at `now` returns.
    pub open spec fn capture_failure(self, now: Instant) -> OrderError {
        if !(self.spec_status() is Pending) {
            OrderError::InvalidOperation
        } else {
            match self.spec_payment_method().spec_deadline_days() {
                Some(days) => OrderError::DeadlineExceeded { deadline_days: days },
                // Unreachable when `capture` fails: with no deadline a pending
                // order is always capturable.
                None => OrderError::InvalidOperation,
            }
        }
    }

    /// A new order starts out pending from the given instant.
    pub fn new(id: OrderId, payment_method: PaymentMethod, ordered_at: Instant) -> (o: Order)
        ensures
            o.spec_id() == id,
            o.spec_payment_method() == payment_method,
            o.spec_status() == (OrderStatus::Pending { started_at: ordered_at }),
    {
        Order { id, payment_method, status: OrderStatus::Pending { started_at: ordered_at } }
    }

    pub fn id(&self) -> (r: &OrderId)
        ensures
            *r == self.spec_id(),
    {
        &self.id
    }

    pub fn payment_method(&self) -> (r: &PaymentMethod)
        ensures
            *r == self.spec_payment_method(),
    {
        &self.payment_method
    }

    pub fn status(&self) -> (r: &OrderStatus)
        ensures
            *r == self.spec_status(),
    {
        &self.status
    }

    /// Move the order from `Pending` to `Paid` at `now`.
    ///
    /// Fails with `InvalidOperation` when the order is not pending, and with
    /// `DeadlineExceeded` when the payment method's deadline has passed; on
    /// any failure the order is left untouched.
    pub fn capture(&mut self, now: Instant, txn_id: Option<String>) -> (r: Result<(), OrderError>)
        ensures
            r is Ok <==> old(self).can_capture(now),
            final(self).spec_id() == old(self).spec_id(),
            final(self).spec_payment_method() == old(self).spec_payment_method(),
            r is Ok ==> final(self).spec_status() == (OrderStatus::Paid {
                paid_at: now,
                txn_id: txn_id,
            }),
            r is Err ==> *final(self) == *old(self) && r->Err_0 == old(self).capture_failure(now),
    {
        let started_at: Instant = match &self.status {
            OrderStatus::Pending { started_at } => *started_at,
            _ => {
                return Err(OrderError::InvalidOperation);
            },
        };
        if let Some(rule) = self.payment_method.deadline_rule() {
            let elapsed: i128 = now.seconds_since(started_at);
            if elapsed > rule.deadline_dates.seconds as i128 {
                return Err(
                    OrderError::DeadlineExceeded { deadline_days: rule.deadline_dates.num_days() },
                );
            }
        }
        self.status = OrderStatus::Paid { paid_at: now, txn_id };
        Ok(())
    }
}

/// Law: a pending order with a deadline-bearing payment method is capturable
/// exactly up to its deadline. At `started_at + D` capture still succeeds;
/// one second later it fails, and the failure is `DeadlineExceeded` citing
/// the method's deadline in days.
pub proof fn lemma_capture_deadline_boundary(o: Order, at_deadline: Instant, just_past: Instant)
    requires
        o.spec_status() is Pending,
        o.spec_payment_method().spec_deadline_rule() is Some,
        spec_elapsed(o.spec_status()->started_at, at_deadline)
            == o.spec_payment_method().spec_deadline_rule()->Some_0.deadline_dates.seconds,
        spec_elapsed(o.spec_status()->started_at, just_past)
            == o.spec_payment_method().spec_deadline_rule()->Some_0.deadline_dates.seconds + 1,
    ensures
        o.can_capture(at_deadline),
        !o.can_capture(just_past),
        o.capture_failure(just_past) == (OrderError::DeadlineExceeded {
            deadline_days: o.spec_payment_method().spec_deadline_days()->Some_0,
        }),
{
}

/// Law: a pending order whose payment method sets no deadline can be
/// captured at any instant whatsoever, however far in the future.
pub proof fn lemma_capture_no_deadline(o: Order, now: Instant)
    requires
        o.spec_status() is Pending,
        o.spec_payment_method().spec_deadline_rule() is None,
    ensures
        o.can_capture(now),
{
}

/// Law: an order that is not pending can never be captured, and the failure
/// is always `InvalidOperation`, regardless of timing.
pub proof fn lemma_capture_requires_pending(o: Order, now: Instant)
    requires
        !(o.spec_status() is Pending),
    ensures
        !o.can_capture(now),
        o.capture_failure(now) == OrderError::InvalidOperation,
{
}

/// Law: capture is not idempotent. A successful capture leaves the order
/// `Paid` (this is `capture`'s postcondition on every `Ok` return), so a
/// second capture at any instant fails with `InvalidOperation`.
pub proof fn lemma_second_capture_fails(captured: Order, later: Instant)
    requires
        captured.spec_status() is Paid,
    ensures
        !captured.can_capture(later),
        captured.capture_failure(later) == OrderError::InvalidOperation,
{
}

} // verus!
