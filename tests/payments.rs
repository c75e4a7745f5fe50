use vipps::epayment::{
    payment_operation_url, payment_url, payments_url, AdjustmentRes, CreatePaymentBuilder, CreatePaymentRes,
    CustomerInteraction, GetPaymentRes, Payment, PaymentMethodResponse, PaymentReference, PaymentState, ProfileSub,
};
use vipps::order_management::{category_url, reciept_url, OrderCategory, OrderLine};
use vipps::qr::{qrs_of, redirect_qr_url, redirect_qrs_url, CreateMerchantRedirectReq, Qr, QrRes, UpdateUrlReq};
use vipps::{
    access_token_url, create_unique_reference, ApiConfig, AuthInfo, Amount, Currency, Customer,
    MerchantInfo, PaymentMethod, PaymentMethodType, SystemInfo, UserFlow, PRODUCTION_BASE_URL, TEST_BASE_URL,
};

fn config(plugin: bool) -> ApiConfig {
    ApiConfig::new(
        SystemInfo {
            system_name: "shop".to_string(),
            system_version: "1.0".to_string(),
            system_plugin_name: if plugin { Some("plug".to_string()) } else { None },
            system_plugin_version: if plugin { Some("2.1".to_string()) } else { None },
        },
        MerchantInfo { subscription_key: "key".to_string(), msn: "123456".to_string() },
        AuthInfo { client_id: "id".to_string(), client_secret: "client-secret-value".to_string() },
    )
}

fn line(name: &str) -> OrderLine {
    OrderLine {
        name: name.to_string(),
        id: "1".to_string(),
        total_amount: 1000,
        total_amount_excluding_tax: 800,
        total_tax_amount: 200,
        tax_percentage: 25,
        unit_info: None,
        discount: None,
        product_url: None,
        is_return: None,
        is_shipping: None,
    }
}

fn payment() -> Payment {
    let builder = CreatePaymentBuilder::with_reference(PaymentReference::new("ref-1".to_string()))
        .amount(Amount::nok(5000))
        .payment_method(PaymentMethodType::Card);
    Payment::created(
        builder.req,
        CreatePaymentRes { redirect_url: Some("https://pay/abc".to_string()), reference: PaymentReference::new("ref-1".to_string()) },
    )
}

#[test]
fn amount_constructors() {
    let a = Amount::nok(1234);
    assert_eq!(a.value(), 1234);
    assert_eq!(a.currency(), Currency::Nok);
    assert_eq!(Amount::new(Currency::Eur, -5).value(), -5);
}

#[test]
fn customer_and_method_constructors() {
    assert_eq!(Customer::phone_number("4712345678".to_string()), Customer::PhoneNumber { phone_number: "4712345678".to_string() });
    assert_eq!(Customer::qr_code("q".to_string()), Customer::QrCode { personal_qr: "q".to_string() });
    assert_eq!(Customer::customer_token("t".to_string()), Customer::CustomerToken { customer_token: "t".to_string() });
    assert_eq!(PaymentMethod::card().ty(), PaymentMethodType::Card);
    assert_eq!(PaymentMethod::wallet().ty(), PaymentMethodType::Wallet);
}

#[test]
fn builder_defaults() {
    let b = CreatePaymentBuilder::new();
    assert_eq!(b.reference().as_str().len(), 36);
    assert_eq!(b.req.amount, Amount::nok(0));
    assert_eq!(b.req.customer, None);
    assert_eq!(b.req.customer_interaction, CustomerInteraction::CustomerNotPresent);
    assert_eq!(b.req.payment_method, PaymentMethod::wallet());
    assert_eq!(b.req.profile, None);
    assert_eq!(b.req.return_url, None);
    assert_eq!(b.req.user_flow, UserFlow::WebRedirect);
    assert_eq!(b.req.payment_description, None);
}

#[test]
fn builder_setters() {
    let mut b = CreatePaymentBuilder::with_reference(PaymentReference::new("r".to_string()))
        .amount(Amount::nok(100))
        .customer(Customer::phone_number("47".to_string()))
        .customer_interaction(CustomerInteraction::CustomerPresent)
        .scope("name phoneNumber".to_string())
        .return_url("https://shop/back".to_string())
        .user_flow(UserFlow::Qr)
        .payment_description("socks".to_string())
        .payment_method(PaymentMethodType::Card);
    assert_eq!(b.reference(), PaymentReference::new("r".to_string()));
    assert_eq!(b.req.amount.value(), 100);
    assert_eq!(b.req.customer, Some(Customer::phone_number("47".to_string())));
    assert_eq!(b.req.customer_interaction, CustomerInteraction::CustomerPresent);
    assert_eq!(b.req.profile.as_ref().map(|p| p.scope.as_str()), Some("name phoneNumber"));
    assert_eq!(b.req.return_url.as_deref(), Some("https://shop/back"));
    assert_eq!(b.req.user_flow, UserFlow::Qr);
    assert_eq!(b.req.payment_description.as_deref(), Some("socks"));
    assert_eq!(b.req.payment_method.ty(), PaymentMethodType::Card);
    b.set_amount(Amount::nok(7));
    b.set_user_flow(UserFlow::PushMessage);
    assert_eq!(b.req.amount.value(), 7);
    assert_eq!(b.req.user_flow, UserFlow::PushMessage);
}

#[test]
fn unique_references_differ() {
    let a = create_unique_reference();
    let b = create_unique_reference();
    assert_eq!(a.len(), 36);
    assert_ne!(a, b);
    assert_ne!(CreatePaymentBuilder::new().reference(), CreatePaymentBuilder::new().reference());
}

#[test]
fn reference_from_str() {
    let r: PaymentReference = "order-17".parse().unwrap();
    assert_eq!(r.as_str(), "order-17");
    assert_eq!(r.to_string(), "order-17".to_string());
    assert_eq!(r, PaymentReference::new("order-17".to_string()));
}

#[test]
fn created_payment_record() {
    let p = payment();
    assert_eq!(p.reference().as_str(), "ref-1");
    assert_eq!(p.state(), PaymentState::Created);
    assert!(!p.state().completed());
    assert_eq!(p.amount(), Amount::nok(5000));
    assert_eq!(p.redirect_uri(), Some("https://pay/abc"));
    assert_eq!(p.sub(), None);
    assert_eq!(p.data.payment_method.ty, PaymentMethodType::Card);
}

#[test]
fn adjustment_updates_amount_and_state() {
    let mut p = payment();
    p.apply_adjustment(&AdjustmentRes {
        amount: Amount::nok(4000),
        state: PaymentState::Authorized,
        psp_reference: "psp".to_string(),
        reference: PaymentReference::new("ref-1".to_string()),
    });
    assert_eq!(p.amount().value(), 4000);
    assert_eq!(p.state(), PaymentState::Authorized);
    assert!(p.state().completed());
    assert_eq!(p.redirect_uri(), Some("https://pay/abc"));
}

#[test]
fn replaced_data_comes_from_lookup() {
    let mut p = payment();
    p.replace_data(GetPaymentRes {
        amount: Amount::nok(1),
        state: PaymentState::Expired,
        payment_method: PaymentMethodResponse { ty: PaymentMethodType::Wallet, card_bin: None },
        profile: ProfileSub { sub: Some("sub-1".to_string()) },
        redirect_url: None,
        reference: PaymentReference::new("ref-1".to_string()),
    });
    assert_eq!(p.state(), PaymentState::Expired);
    assert_eq!(p.sub(), Some("sub-1"));
    assert_eq!(p.redirect_uri(), None);
}

#[test]
fn completed_states() {
    assert!(!PaymentState::Created.completed());
    for s in [PaymentState::Aborted, PaymentState::Expired, PaymentState::Authorized, PaymentState::Terminated] {
        assert!(s.completed());
    }
}

#[test]
fn receipt_builder_keeps_lines_in_order() {
    let p = payment();
    let r = p.add_reciept(Currency::Nok).order_line(line("a")).order_line(line("b"));
    assert_eq!(r.reference.as_str(), "ref-1");
    assert_eq!(r.req.order_lines.iter().map(|l| l.name.as_str()).collect::<Vec<_>>(), vec!["a", "b"]);
    assert_eq!(r.req.bottom_line.currency, Currency::Nok);
}

#[test]
fn category_request() {
    let c = payment().add_category(OrderCategory::Ticket, "https://shop/order/1");
    assert_eq!(c.category, OrderCategory::Ticket);
    assert_eq!(c.order_details_url, "https://shop/order/1");
    assert_eq!(c.image_id, None);
}

#[test]
fn endpoints() {
    let base = TEST_BASE_URL.to_string();
    let r = PaymentReference::new("ref-1".to_string());
    assert_eq!(access_token_url(&base), "https://apitest.vipps.no/accesstoken/get");
    assert_eq!(payments_url(&base), "https://apitest.vipps.no/epayment/v1/payments");
    assert_eq!(payment_url(&base, &r), "https://apitest.vipps.no/epayment/v1/payments/ref-1");
    assert_eq!(payment_operation_url(&base, &r, "/capture"), "https://apitest.vipps.no/epayment/v1/payments/ref-1/capture");
    assert_eq!(category_url(&base, &r), "https://apitest.vipps.no/order-management/v2/ecom/categories/ref-1");
    assert_eq!(reciept_url(&base, &r), "https://apitest.vipps.no/order-management/v2/ecom/receipts/ref-1");
    assert_eq!(redirect_qrs_url(&base), "https://apitest.vipps.no/qr/v1/merchant-redirect");
    assert_eq!(redirect_qr_url(&base, "q1"), "https://apitest.vipps.no/qr/v1/merchant-redirect/q1");
}

#[test]
fn environments() {
    assert_eq!(config(false).base_url, TEST_BASE_URL);
    let c = config(false);
    let prod = ApiConfig::new_production(c.system_info, c.merchant_info, c.auth_info);
    assert_eq!(prod.base_url, PRODUCTION_BASE_URL);
    assert_eq!(PRODUCTION_BASE_URL, "https://api.vipps.no");
}

#[test]
fn default_headers_without_plugin() {
    let h = config(false).default_headers();
    let got: Vec<(&str, &str)> = h.iter().map(|(n, v)| (n.as_str(), v.as_str())).collect();
    assert_eq!(
        got,
        vec![
            ("Ocp-Apim-Subscription-Key", "key"),
            ("Merchant-Serial-Number", "123456"),
            ("Vipps-System-Name", "shop"),
            ("Vipps-System-Version", "1.0"),
        ]
    );
}

#[test]
fn default_headers_with_plugin() {
    let h = config(true).default_headers();
    assert_eq!(h.len(), 6);
    assert_eq!(h[4], ("Vipps-System-Plugin-Name".to_string(), "plug".to_string()));
    assert_eq!(h[5], ("Vipps-System-Plugin-Version".to_string(), "2.1".to_string()));
}

#[test]
fn client_secret_headers() {
    let h = config(false).client_secret_header();
    assert_eq!(h, vec![
        ("client_id".to_string(), "id".to_string()),
        ("client_secret".to_string(), "client-secret-value".to_string()),
    ]);
}

#[test]
fn qr_records() {
    let data = QrRes { id: "q1".to_string(), url: "https://qr/1.svg".to_string(), redirect_url: "https://shop".to_string() };
    let mut q = Qr::new(data.clone());
    assert_eq!((q.id(), q.url(), q.redirect_url()), ("q1", "https://qr/1.svg", "https://shop"));
    assert_eq!(q.endpoint(&TEST_BASE_URL.to_string()), "https://apitest.vipps.no/qr/v1/merchant-redirect/q1");
    q.replace_data(QrRes { redirect_url: "https://elsewhere".to_string(), ..data.clone() });
    assert_eq!(q.redirect_url(), "https://elsewhere");
    let second = QrRes { id: "q2".to_string(), ..data.clone() };
    let all = qrs_of(vec![data, second]);
    assert_eq!(all.iter().map(|q| q.id()).collect::<Vec<_>>(), vec!["q1", "q2"]);
    assert_eq!(CreateMerchantRedirectReq::new("q1", "https://shop").redirect_url, "https://shop");
    assert_eq!(UpdateUrlReq::new("https://x").redirect_url, "https://x");
}
