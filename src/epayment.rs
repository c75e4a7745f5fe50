//! The payment operations' request and response shapes, the payment
//! request builder, and the local record of a payment.

use vstd::prelude::*;

use crate::basic::{Amount, Currency, Customer, PaymentMethod, PaymentMethodType, UserFlow};
use crate::create_unique_reference;

verus! {

/// Whether the customer is at the point of sale.
#[derive(Clone, Copy, Debug, PartialEq, Eq, Structural)]
pub enum CustomerInteraction {
    CustomerNotPresent,
    CustomerPresent,
}

/// The profile data the merchant asks the customer to share.
#[derive(Clone, Debug, PartialEq, Eq)]
pub struct ProfileScope {
    pub scope: String,
}

/// The merchant's reference of a payment.
#[derive(Clone, Debug, PartialEq, Eq, Hash)]
pub struct PaymentReference(pub String);

impl PaymentReference {
    pub fn new(reference: String) -> (r: Self)
        ensures
            r.0 == reference,
    {
        PaymentReference(reference)
    }

    pub fn as_str(&self) -> (r: &str)
        ensures
            r@ == self.0@,
    {
        self.0.as_str()
    }

    /// The reference as an owned string.
    pub fn to_string(&self) -> (r: String)
        ensures
            r == self.0,
    {
        self.0.clone()
    }

    /// A copy of this reference.
    pub fn duplicate(&self) -> (r: Self)
        ensures
            r == *self,
    {
        PaymentReference(self.0.clone())
    }
}

impl std::str::FromStr for PaymentReference {
    type Err = std::convert::Infallible;

    fn from_str(s: &str) -> std::result::Result<Self, Self::Err> {
        Ok(PaymentReference(s.to_owned()))
    }
}

/// The body of a payment creation.
#[derive(Clone, Debug, PartialEq, Eq)]
pub struct CreatePaymentReq {
    pub amount: Amount,
    pub customer: Option<Customer>,
    pub customer_interaction: CustomerInteraction,
    pub payment_method: PaymentMethod,
    pub profile: Option<ProfileScope>,
    pub reference: PaymentReference,
    pub return_url: Option<String>,
    pub user_flow: UserFlow,
    pub payment_description: Option<String>,
}

/// The answer to a payment creation.
#[derive(Clone, Debug, PartialEq, Eq)]
pub struct CreatePaymentRes {
    pub redirect_url: Option<String>,
    pub reference: PaymentReference,
}

/// The body of a capture or refund.
#[derive(Clone, Debug, PartialEq, Eq)]
pub struct ModificationReq {
    pub modification_amount: Amount,
}

impl ModificationReq {
    pub fn new(amount: Amount) -> (r: Self)
        ensures
            r.modification_amount == amount,
    {
        ModificationReq { modification_amount: amount }
    }
}

/// The state of a payment.
#[derive(Clone, Copy, Debug, PartialEq, Eq, Structural)]
pub enum PaymentState {
    Created,
    Aborted,
    Expired,
    Authorized,
    Terminated,
}

impl PaymentState {
    /// Whether the customer has acted on the payment: every state but
    /// `Created`.
    pub fn completed(&self) -> (r: bool)
        ensures
            r == !(*self is Created),
    {
        !matches!(self, PaymentState::Created)
    }
}

/// The payment method as the API reports it.
#[derive(Clone, Debug, PartialEq, Eq)]
pub struct PaymentMethodResponse {
    pub ty: PaymentMethodType,
    pub card_bin: Option<String>,
}

/// The profile subject the customer shared, if any.
#[derive(Clone, Debug, PartialEq, Eq)]
pub struct ProfileSub {
    pub sub: Option<String>,
}

/// What the API reports of a payment.
#[derive(Clone, Debug, PartialEq, Eq)]
pub struct GetPaymentRes {
    pub amount: Amount,
    pub state: PaymentState,
    pub payment_method: PaymentMethodResponse,
    pub profile: ProfileSub,
    pub redirect_url: Option<String>,
    pub reference: PaymentReference,
}

/// The answer to a cancel, capture or refund.
#[derive(Clone, Debug, PartialEq, Eq)]
pub struct AdjustmentRes {
    pub amount: Amount,
    pub state: PaymentState,
    pub psp_reference: String,
    pub reference: PaymentReference,
}

impl GetPaymentRes {
    /// Takes over the amount and state reported by an adjustment; the rest
    /// stays.
    pub fn update(&mut self, adjustment: &AdjustmentRes)
        ensures
            final(self).amount == adjustment.amount,
            final(self).state == adjustment.state,
            final(self).payment_method == old(self).payment_method,
            final(self).profile == old(self).profile,
            final(self).redirect_url == old(self).redirect_url,
            final(self).reference == old(self).reference,
    {
        self.amount = adjustment.amount.duplicate();
        self.state = adjustment.state;
    }
}

/// Builds the body of a payment creation. Starts from zero kroner, no
/// customer, customer not present, wallet, no profile, no return URL, web
/// redirect and no description.
#[derive(Clone, Debug)]
pub struct CreatePaymentBuilder {
    pub req: CreatePaymentReq,
}

/// The request a builder starts from, for the given reference.
pub open spec fn initial_request(req: CreatePaymentReq, reference: PaymentReference) -> bool {
    &&& req.amount == Amount { currency: Currency::Nok, value: 0 }
    &&& req.customer is None
    &&& req.customer_interaction == CustomerInteraction::CustomerNotPresent
    &&& req.payment_method == PaymentMethod { ty: PaymentMethodType::Wallet }
    &&& req.profile is None
    &&& req.reference == reference
    &&& req.return_url is None
    &&& req.user_flow == UserFlow::WebRedirect
    &&& req.payment_description is None
}

impl CreatePaymentBuilder {
    /// A builder for a payment with a fresh unique reference.
    pub fn new() -> (r: Self)
        ensures
            initial_request(r.req, r.req.reference),
            r.req.reference.0@.len() == 36,
    {
        Self::with_reference(PaymentReference(create_unique_reference()))
    }

    /// A builder for a payment with the given reference.
    pub fn with_reference(reference: PaymentReference) -> (r: Self)
        ensures
            initial_request(r.req, reference),
    {
        CreatePaymentBuilder {
            req: CreatePaymentReq {
                amount: Amount::nok(0),
                customer: None,
                customer_interaction: CustomerInteraction::CustomerNotPresent,
                payment_method: PaymentMethod::wallet(),
                profile: None,
                reference,
                return_url: None,
                user_flow: UserFlow::WebRedirect,
                payment_description: None,
            },
        }
    }

    pub fn reference(&self) -> (r: PaymentReference)
        ensures
            r == self.req.reference,
    {
        self.req.reference.duplicate()
    }

    pub fn set_amount(&mut self, amount: Amount)
        ensures
            final(self).req == (CreatePaymentReq { amount, ..old(self).req }),
    {
        self.req.amount = amount;
    }

    pub fn amount(self, amount: Amount) -> (r: Self)
        ensures
            r.req == (CreatePaymentReq { amount, ..self.req }),
    {
        let mut b = self;
        b.set_amount(amount);
        b
    }

    pub fn set_customer(&mut self, customer: Customer)
        ensures
            final(self).req == (CreatePaymentReq { customer: Some(customer), ..old(self).req }),
    {
        self.req.customer = Some(customer);
    }

    pub fn customer(self, customer: Customer) -> (r: Self)
        ensures
            r.req == (CreatePaymentReq { customer: Some(customer), ..self.req }),
    {
        let mut b = self;
        b.set_customer(customer);
        b
    }

    pub fn set_customer_interaction(&mut self, customer_interaction: CustomerInteraction)
        ensures
            final(self).req == (CreatePaymentReq { customer_interaction, ..old(self).req }),
    {
        self.req.customer_interaction = customer_interaction;
    }

    pub fn customer_interaction(self, customer_interaction: CustomerInteraction) -> (r: Self)
        ensures
            r.req == (CreatePaymentReq { customer_interaction, ..self.req }),
    {
        let mut b = self;
        b.set_customer_interaction(customer_interaction);
        b
    }

    pub fn set_scope(&mut self, scope: String)
        ensures
            final(self).req == (CreatePaymentReq { profile: Some(ProfileScope { scope }), ..old(self).req }),
    {
        self.req.profile = Some(ProfileScope { scope });
    }

    pub fn scope(self, scope: String) -> (r: Self)
        ensures
            r.req == (CreatePaymentReq { profile: Some(ProfileScope { scope }), ..self.req }),
    {
        let mut b = self;
        b.set_scope(scope);
        b
    }

    pub fn set_return_url(&mut self, return_url: String)
        ensures
            final(self).req == (CreatePaymentReq { return_url: Some(return_url), ..old(self).req }),
    {
        self.req.return_url = Some(return_url);
    }

    pub fn return_url(self, return_url: String) -> (r: Self)
        ensures
            r.req == (CreatePaymentReq { return_url: Some(return_url), ..self.req }),
    {
        let mut b = self;
        b.set_return_url(return_url);
        b
    }

    pub fn set_user_flow(&mut self, user_flow: UserFlow)
        ensures
            final(self).req == (CreatePaymentReq { user_flow, ..old(self).req }),
    {
        self.req.user_flow = user_flow;
    }

    pub fn user_flow(self, user_flow: UserFlow) -> (r: Self)
        ensures
            r.req == (CreatePaymentReq { user_flow, ..self.req }),
    {
        let mut b = self;
        b.set_user_flow(user_flow);
        b
    }

    pub fn set_payment_description(&mut self, payment_description: String)
        ensures
            final(self).req == (CreatePaymentReq {
                payment_description: Some(payment_description),
                ..old(self).req
            }),
    {
        self.req.payment_description = Some(payment_description);
    }

    pub fn payment_description(self, payment_description: String) -> (r: Self)
        ensures
            r.req == (CreatePaymentReq { payment_description: Some(payment_description), ..self.req }),
    {
        let mut b = self;
        b.set_payment_description(payment_description);
        b
    }

    pub fn set_payment_method(&mut self, payment_method: PaymentMethodType)
        ensures
            final(self).req == (CreatePaymentReq {
                payment_method: PaymentMethod { ty: payment_method },
                ..old(self).req
            }),
    {
        self.req.payment_method.ty = payment_method;
    }

    pub fn payment_method(self, payment_method: PaymentMethodType) -> (r: Self)
        ensures
            r.req == (CreatePaymentReq { payment_method: PaymentMethod { ty: payment_method }, ..self.req }),
    {
        let mut b = self;
        b.set_payment_method(payment_method);
        b
    }
}

/// The local record of a payment: its reference and what was last learned
/// of it.
#[derive(Clone, Debug, PartialEq, Eq)]
pub struct Payment {
    pub reference: PaymentReference,
    pub data: GetPaymentRes,
}

impl Payment {
    /// The record of a payment just created from `req`, as the API answered
    /// with `res`: in state `Created`, with the requested amount and
    /// payment method, and the reference and redirect URL of the answer.
    pub fn created(req: CreatePaymentReq, res: CreatePaymentRes) -> (r: Self)
        ensures
            r.reference == res.reference,
            r.data == (GetPaymentRes {
                amount: req.amount,
                state: PaymentState::Created,
                payment_method: PaymentMethodResponse { ty: req.payment_method.ty, card_bin: None },
                profile: ProfileSub { sub: None },
                redirect_url: res.redirect_url,
                reference: res.reference,
            }),
    {
        let reference = res.reference.duplicate();
        Payment {
            reference,
            data: GetPaymentRes {
                amount: req.amount,
                state: PaymentState::Created,
                payment_method: PaymentMethodResponse { ty: req.payment_method.ty, card_bin: None },
                profile: ProfileSub { sub: None },
                redirect_url: res.redirect_url,
                reference: res.reference,
            },
        }
    }

    /// The record of a payment looked up by `reference`.
    pub fn fetched(reference: PaymentReference, data: GetPaymentRes) -> (r: Self)
        ensures
            r.reference == reference,
            r.data == data,
    {
        Payment { reference, data }
    }

    pub fn reference(&self) -> (r: PaymentReference)
        ensures
            r == self.reference,
    {
        self.reference.duplicate()
    }

    pub fn redirect_uri(&self) -> (r: Option<&str>)
        ensures
            r is Some <==> self.data.redirect_url is Some,
            r matches Some(s) ==> s@ == self.data.redirect_url->0@,
    {
        match &self.data.redirect_url {
            Some(u) => Some(u.as_str()),
            None => None,
        }
    }

    pub fn sub(&self) -> (r: Option<&str>)
        ensures
            r is Some <==> self.data.profile.sub is Some,
            r matches Some(s) ==> s@ == self.data.profile.sub->0@,
    {
        match &self.data.profile.sub {
            Some(u) => Some(u.as_str()),
            None => None,
        }
    }

    pub fn amount(&self) -> (r: Amount)
        ensures
            r == self.data.amount,
    {
        self.data.amount.duplicate()
    }

    pub fn state(&self) -> (r: PaymentState)
        ensures
            r == self.data.state,
    {
        self.data.state
    }

    /// Takes over what a cancel, capture or refund reported.
    pub fn apply_adjustment(&mut self, adjustment: &AdjustmentRes)
        ensures
            final(self).reference == old(self).reference,
            final(self).data == (GetPaymentRes {
                amount: adjustment.amount,
                state: adjustment.state,
                ..old(self).data
            }),
    {
        self.data.update(adjustment);
    }

    /// Takes over what a fresh lookup of the payment reported.
    pub fn replace_data(&mut self, data: GetPaymentRes)
        ensures
            final(self).reference == old(self).reference,
            final(self).data == data,
    {
        self.data = data;
    }
}

/// The endpoint that creates payments.
pub fn payments_url(base_url: &String) -> (r: String)
    ensures
        r@ == base_url@ + "/epayment/v1/payments"@,
{
    base_url.clone().concat("/epayment/v1/payments")
}

/// The endpoint of one payment.
pub fn payment_url(base_url: &String, reference: &PaymentReference) -> (r: String)
    ensures
        r@ == base_url@ + "/epayment/v1/payments/"@ + reference.0@,
{
    base_url.clone().concat("/epayment/v1/payments/").concat(reference.as_str())
}

/// The endpoint of an operation (`/cancel`, `/capture`, `/refund`) on one
/// payment.
pub fn payment_operation_url(base_url: &String, reference: &PaymentReference, operation: &str) -> (r: String)
    ensures
        r@ == base_url@ + "/epayment/v1/payments/"@ + reference.0@ + operation@,
{
    payment_url(base_url, reference).concat(operation)
}

} // verus!
