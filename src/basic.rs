//! Plain values shared by the payment operations.

use vstd::prelude::*;

verus! {

/// An amount of money in minor units (øre, cents) of a currency.
#[derive(Clone, Debug, PartialEq, Eq)]
pub struct Amount {
    pub currency: Currency,
    pub value: i64,
}

impl Amount {
    /// An amount in Norwegian kroner.
    pub fn nok(value: i64) -> (r: Self)
        ensures
            r.currency == Currency::Nok,
            r.value == value,
    {
        Self { currency: Currency::Nok, value }
    }

    /// An amount in the given currency.
    pub fn new(currency: Currency, value: i64) -> (r: Self)
        ensures
            r.currency == currency,
            r.value == value,
    {
        Self { currency, value }
    }

    /// The value in minor units.
    pub fn value(&self) -> (r: i64)
        ensures
            r == self.value,
    {
        self.value
    }

    /// The currency.
    pub fn currency(&self) -> (r: Currency)
        ensures
            r == self.currency,
    {
        self.currency
    }

    /// A copy of this amount.
    pub fn duplicate(&self) -> (r: Self)
        ensures
            r == *self,
    {
        Amount { currency: self.currency, value: self.value }
    }
}

#[derive(Clone, Copy, Debug, PartialEq, Eq, Structural)]
pub enum Currency {
    Nok,
    Dkk,
    Eur,
}

/// The customer a payment is addressed to, by one of three identifiers.
#[derive(Clone, Debug, PartialEq, Eq)]
pub enum Customer {
    PhoneNumber { phone_number: String },
    QrCode { personal_qr: String },
    CustomerToken { customer_token: String },
}

impl Customer {
    pub fn phone_number(phone_number: String) -> (r: Self)
        ensures
            r == (Customer::PhoneNumber { phone_number }),
    {
        Self::PhoneNumber { phone_number }
    }

    pub fn qr_code(personal_qr: String) -> (r: Self)
        ensures
            r == (Customer::QrCode { personal_qr }),
    {
        Self::QrCode { personal_qr }
    }

    pub fn customer_token(customer_token: String) -> (r: Self)
        ensures
            r == (Customer::CustomerToken { customer_token }),
    {
        Self::CustomerToken { customer_token }
    }
}

/// How the customer pays.
#[derive(Clone, Debug, PartialEq, Eq)]
pub struct PaymentMethod {
    pub ty: PaymentMethodType,
}

impl PaymentMethod {
    pub fn card() -> (r: Self)
        ensures
            r.ty == PaymentMethodType::Card,
    {
        Self { ty: PaymentMethodType::Card }
    }

    pub fn wallet() -> (r: Self)
        ensures
            r.ty == PaymentMethodType::Wallet,
    {
        Self { ty: PaymentMethodType::Wallet }
    }

    /// The kind of payment method.
    pub fn ty(&self) -> (r: PaymentMethodType)
        ensures
            r == self.ty,
    {
        self.ty
    }
}

#[derive(Clone, Copy, Debug, PartialEq, Eq, Structural)]
pub enum PaymentMethodType {
    Wallet,
    Card,
}

/// How the customer is taken to the payment.
#[derive(Clone, Copy, Debug, PartialEq, Eq, Structural)]
pub enum UserFlow {
    PushMessage,
    NativeRedirect,
    WebRedirect,
    Qr,
}

} // verus!
