//! Typed client core for a payment-processor HTTP API: the bearer
//! credential cache, the response classifier and the request shapes of the
//! payment, receipt and QR redirect operations.

pub mod accesstoken;
pub mod basic;
pub mod epayment;
pub mod error;
pub mod order_management;
pub mod qr;

use vstd::prelude::*;

pub use accesstoken::{AccessToken, TokenCache};
pub use basic::{Amount, Currency, Customer, PaymentMethod, PaymentMethodType, UserFlow};
pub use error::{VippsError, InvalidParam, ProblemDetails, Result};

verus! {

/// Base URL of the test environment.
pub const TEST_BASE_URL: &'static str = "https://apitest.vipps.no";

/// Base URL of the production environment.
pub const PRODUCTION_BASE_URL: &'static str = "https://api.vipps.no";

/// Identifies the calling system in every request.
#[derive(Clone, Debug)]
pub struct SystemInfo {
    pub system_name: String,
    pub system_version: String,
    pub system_plugin_name: Option<String>,
    pub system_plugin_version: Option<String>,
}

/// Identifies the merchant in every request.
#[derive(Clone, Debug)]
pub struct MerchantInfo {
    pub subscription_key: String,
    pub msn: String,
}

/// The long-lived client identity traded for bearer credentials.
#[derive(Clone, Debug)]
pub struct AuthInfo {
    pub client_id: String,
    pub client_secret: String,
}

/// A header as a pair of name and value.
pub type Header = (String, String);

/// The header pairs as sequences of characters.
pub open spec fn headers_view(h: Seq<Header>) -> Seq<(Seq<char>, Seq<char>)> {
    h.map_values(|p: Header| (p.0@, p.1@))
}

/// The optional header `name: value`, as a sequence of zero or one pairs.
pub open spec fn optional_header(name: Seq<char>, value: Option<String>) -> Seq<(Seq<char>, Seq<char>)> {
    match value {
        Some(v) => seq![(name, v@)],
        None => Seq::empty(),
    }
}

/// The static headers that every request of one client carries.
pub open spec fn spec_default_headers(system: SystemInfo, merchant: MerchantInfo) -> Seq<(Seq<char>, Seq<char>)> {
    seq![
        ("Ocp-Apim-Subscription-Key"@, merchant.subscription_key@),
        ("Merchant-Serial-Number"@, merchant.msn@),
        ("Vipps-System-Name"@, system.system_name@),
        ("Vipps-System-Version"@, system.system_version@),
    ] + optional_header("Vipps-System-Plugin-Name"@, system.system_plugin_name)
      + optional_header("Vipps-System-Plugin-Version"@, system.system_plugin_version)
}

/// The headers that authenticate the issuance exchange.
pub open spec fn spec_client_secret_headers(auth: AuthInfo) -> Seq<(Seq<char>, Seq<char>)> {
    seq![("client_id"@, auth.client_id@), ("client_secret"@, auth.client_secret@)]
}

fn header(name: &str, value: &String) -> (r: Header)
    ensures
        r.0@ == name@,
        r.1@ == value@,
{
    (String::from_str(name), value.clone())
}

fn push_optional_header(headers: &mut Vec<Header>, name: &str, value: &Option<String>)
    ensures
        headers_view(final(headers)@) == headers_view(old(headers)@) + optional_header(name@, *value),
{
    let ghost before = headers@;
    match value {
        Some(v) => {
            headers.push(header(name, v));
            assert(headers_view(headers@) =~= headers_view(before) + optional_header(name@, *value));
        },
        None => {
            assert(headers_view(headers@) =~= headers_view(before) + optional_header(name@, *value));
        },
    }
}

/// Everything a client is configured with: who calls, for which merchant,
/// with which identity, against which environment.
#[derive(Clone, Debug)]
pub struct ApiConfig {
    pub system_info: SystemInfo,
    pub merchant_info: MerchantInfo,
    pub auth_info: AuthInfo,
    pub base_url: String,
}

impl ApiConfig {
    /// A configuration against the test environment.
    pub fn new(system_info: SystemInfo, merchant_info: MerchantInfo, auth_info: AuthInfo) -> (r: Self)
        ensures
            r.system_info == system_info,
            r.merchant_info == merchant_info,
            r.auth_info == auth_info,
            r.base_url@ == TEST_BASE_URL@,
    {
        ApiConfig { system_info, merchant_info, auth_info, base_url: String::from_str(TEST_BASE_URL) }
    }

    /// A configuration against the production environment.
    pub fn new_production(system_info: SystemInfo, merchant_info: MerchantInfo, auth_info: AuthInfo) -> (r: Self)
        ensures
            r.system_info == system_info,
            r.merchant_info == merchant_info,
            r.auth_info == auth_info,
            r.base_url@ == PRODUCTION_BASE_URL@,
    {
        ApiConfig {
            system_info,
            merchant_info,
            auth_info,
            base_url: String::from_str(PRODUCTION_BASE_URL),
        }
    }

    /// The static headers set once for the client: subscription key,
    /// merchant serial number, system name and version, and the plugin name
    /// and version where they are given.
    pub fn default_headers(&self) -> (r: Vec<Header>)
        ensures
            headers_view(r@) == spec_default_headers(self.system_info, self.merchant_info),
    {
        let mut headers: Vec<Header> = Vec::new();
        headers.push(header("Ocp-Apim-Subscription-Key", &self.merchant_info.subscription_key));
        headers.push(header("Merchant-Serial-Number", &self.merchant_info.msn));
        headers.push(header("Vipps-System-Name", &self.system_info.system_name));
        headers.push(header("Vipps-System-Version", &self.system_info.system_version));
        assert(headers_view(headers@) =~= seq![
            ("Ocp-Apim-Subscription-Key"@, self.merchant_info.subscription_key@),
            ("Merchant-Serial-Number"@, self.merchant_info.msn@),
            ("Vipps-System-Name"@, self.system_info.system_name@),
            ("Vipps-System-Version"@, self.system_info.system_version@),
        ]);
        push_optional_header(&mut headers, "Vipps-System-Plugin-Name", &self.system_info.system_plugin_name);
        push_optional_header(&mut headers, "Vipps-System-Plugin-Version", &self.system_info.system_plugin_version);
        headers
    }

    /// The two headers that carry the client identity and secret on the
    /// issuance exchange.
    pub fn client_secret_header(&self) -> (r: Vec<Header>)
        ensures
            headers_view(r@) == spec_client_secret_headers(self.auth_info),
    {
        let mut headers: Vec<Header> = Vec::new();
        headers.push(header("client_id", &self.auth_info.client_id));
        headers.push(header("client_secret", &self.auth_info.client_secret));
        assert(headers_view(headers@) =~= spec_client_secret_headers(self.auth_info));
        headers
    }
}

/// Relies on `uuid::Uuid::new_v4` and its `Display`: a fresh random UUID in
/// hyphenated form, 36 characters. Nothing else is known of the value.
#[verifier::external_body]
fn random_uuid() -> (r: String)
    ensures
        r@.len() == 36,
{
    uuid::Uuid::new_v4().to_string()
}

/// A fresh unique value: the reference of a new payment, or the
/// idempotency key of one attempt at a state-mutating call. Drawn at random
/// on every call, never reused.
pub fn create_unique_reference() -> (r: String)
    ensures
        r@.len() == 36,
{
    random_uuid()
}

/// The issuance endpoint.
pub fn access_token_url(base_url: &String) -> (r: String)
    ensures
        r@ == base_url@ + "/accesstoken/get"@,
{
    base_url.clone().concat("/accesstoken/get")
}

} // verus!
