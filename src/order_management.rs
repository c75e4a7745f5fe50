//! Order management: categories and receipts attached to a payment.

use vstd::prelude::*;

use crate::basic::Currency;
use crate::epayment::{Payment, PaymentReference};

verus! {

/// What kind of order a payment belongs to.
#[derive(Clone, Copy, Debug, PartialEq, Eq, Structural)]
pub enum OrderCategory {
    General,
    Reciept,
    OrderConfirmation,
    Delivery,
    Ticket,
    Booking,
}

/// The body that sets a payment's order category.
#[derive(Clone, Debug, PartialEq, Eq)]
pub struct AddCategoryReq {
    pub category: OrderCategory,
    pub order_details_url: String,
    pub image_id: Option<String>,
}

/// Price per unit and quantity of an order line.
#[derive(Clone, Debug, PartialEq, Eq)]
pub struct UnitInfo {
    pub unit_price: i64,
    pub quantity: String,
}

/// One line of a receipt.
#[derive(Clone, Debug, PartialEq, Eq)]
pub struct OrderLine {
    pub name: String,
    pub id: String,
    pub total_amount: i64,
    pub total_amount_excluding_tax: i64,
    pub total_tax_amount: i64,
    pub tax_percentage: i32,
    pub unit_info: Option<UnitInfo>,
    pub discount: Option<i64>,
    pub product_url: Option<String>,
    pub is_return: Option<bool>,
    pub is_shipping: Option<bool>,
}

/// The currency line closing a receipt.
#[derive(Clone, Debug, PartialEq, Eq)]
pub struct RecieptBottomLine {
    pub currency: Currency,
}

/// The body of a receipt.
#[derive(Clone, Debug, PartialEq, Eq)]
pub struct AddRecieptReq {
    pub order_lines: Vec<OrderLine>,
    pub bottom_line: RecieptBottomLine,
}

/// Builds the receipt of one payment, line by line.
#[derive(Clone, Debug)]
pub struct RecieptBuilder {
    pub reference: PaymentReference,
    pub req: AddRecieptReq,
}

impl RecieptBuilder {
    /// Appends a line; the lines before it and the currency stay.
    pub fn order_line(self, order_line: OrderLine) -> (r: Self)
        ensures
            r.reference == self.reference,
            r.req.order_lines@ == self.req.order_lines@.push(order_line),
            r.req.bottom_line == self.req.bottom_line,
    {
        let mut b = self;
        b.req.order_lines.push(order_line);
        b
    }
}

impl Payment {
    /// The body that sets this payment's order category, with the URL of
    /// the order's details and no image.
    pub fn add_category(&self, category: OrderCategory, details_url: &str) -> (r: AddCategoryReq)
        ensures
            r.category == category,
            r.order_details_url@ == details_url@,
            r.image_id is None,
    {
        AddCategoryReq { category, order_details_url: String::from_str(details_url), image_id: None }
    }

    /// An empty receipt for this payment in the given currency.
    pub fn add_reciept(&self, currency: Currency) -> (r: RecieptBuilder)
        ensures
            r.reference == self.reference,
            r.req.order_lines@.len() == 0,
            r.req.bottom_line.currency == currency,
    {
        RecieptBuilder {
            reference: self.reference(),
            req: AddRecieptReq { order_lines: Vec::new(), bottom_line: RecieptBottomLine { currency } },
        }
    }
}

/// The endpoint that sets the order category of a payment.
pub fn category_url(base_url: &String, reference: &PaymentReference) -> (r: String)
    ensures
        r@ == base_url@ + "/order-management/v2/ecom/categories/"@ + reference.0@,
{
    base_url.clone().concat("/order-management/v2/ecom/categories/").concat(reference.as_str())
}

/// The endpoint that adds a receipt to a payment.
pub fn reciept_url(base_url: &String, reference: &PaymentReference) -> (r: String)
    ensures
        r@ == base_url@ + "/order-management/v2/ecom/receipts/"@ + reference.0@,
{
    base_url.clone().concat("/order-management/v2/ecom/receipts/").concat(reference.as_str())
}

} // verus!
