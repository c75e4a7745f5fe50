//! Merchant redirect QR codes.

use vstd::prelude::*;

verus! {

/// What the API reports of a redirect QR code.
#[derive(Clone, Debug, PartialEq, Eq)]
pub struct QrRes {
    pub id: String,
    pub url: String,
    pub redirect_url: String,
}

impl QrRes {
    /// A copy of this record.
    pub fn duplicate(&self) -> (r: Self)
        ensures
            r == *self,
    {
        QrRes { id: self.id.clone(), url: self.url.clone(), redirect_url: self.redirect_url.clone() }
    }
}

/// The body that creates a redirect QR code.
#[derive(Clone, Debug, PartialEq, Eq)]
pub struct CreateMerchantRedirectReq {
    pub id: String,
    pub redirect_url: String,
}

/// The body that changes where a QR code redirects.
#[derive(Clone, Debug, PartialEq, Eq)]
pub struct UpdateUrlReq {
    pub redirect_url: String,
}

impl CreateMerchantRedirectReq {
    pub fn new(id: &str, redirect_url: &str) -> (r: Self)
        ensures
            r.id@ == id@,
            r.redirect_url@ == redirect_url@,
    {
        CreateMerchantRedirectReq { id: String::from_str(id), redirect_url: String::from_str(redirect_url) }
    }
}

impl UpdateUrlReq {
    pub fn new(redirect_url: &str) -> (r: Self)
        ensures
            r.redirect_url@ == redirect_url@,
    {
        UpdateUrlReq { redirect_url: String::from_str(redirect_url) }
    }
}

/// The local record of a redirect QR code.
#[derive(Clone, Debug, PartialEq, Eq)]
pub struct Qr {
    pub data: QrRes,
}

impl Qr {
    pub fn new(data: QrRes) -> (r: Self)
        ensures
            r.data == data,
    {
        Qr { data }
    }

    pub fn id(&self) -> (r: &str)
        ensures
            r@ == self.data.id@,
    {
        self.data.id.as_str()
    }

    pub fn url(&self) -> (r: &str)
        ensures
            r@ == self.data.url@,
    {
        self.data.url.as_str()
    }

    pub fn redirect_url(&self) -> (r: &str)
        ensures
            r@ == self.data.redirect_url@,
    {
        self.data.redirect_url.as_str()
    }

    /// Takes over what the API reported after a change.
    pub fn replace_data(&mut self, data: QrRes)
        ensures
            final(self).data == data,
    {
        self.data = data;
    }

    /// The endpoint of this QR code.
    pub fn endpoint(&self, base_url: &String) -> (r: String)
        ensures
            r@ == base_url@ + "/qr/v1/merchant-redirect/"@ + self.data.id@,
    {
        redirect_qr_url(base_url, self.data.id.as_str())
    }
}

/// Wraps each reported QR code in a record, in order.
pub fn qrs_of(data: Vec<QrRes>) -> (r: Vec<Qr>)
    ensures
        r@.len() == data@.len(),
        forall|i: int| 0 <= i < r@.len() ==> (#[trigger] r@[i]).data == data@[i],
{
    let mut out: Vec<Qr> = Vec::new();
    let mut i: usize = 0;
    while i < data.len()
        invariant
            i <= data@.len(),
            out@.len() == i,
            forall|k: int| 0 <= k < i ==> (#[trigger] out@[k]).data == data@[k],
        decreases data@.len() - i,
    {
        out.push(Qr::new(data[i].duplicate()));
        i = i + 1;
    }
    out
}

/// The endpoint that creates and lists redirect QR codes.
pub fn redirect_qrs_url(base_url: &String) -> (r: String)
    ensures
        r@ == base_url@ + "/qr/v1/merchant-redirect"@,
{
    base_url.clone().concat("/qr/v1/merchant-redirect")
}

/// The endpoint of the redirect QR code with identifier `id`.
pub fn redirect_qr_url(base_url: &String, id: &str) -> (r: String)
    ensures
        r@ == base_url@ + "/qr/v1/merchant-redirect/"@ + id@,
{
    base_url.clone().concat("/qr/v1/merchant-redirect/").concat(id)
}

} // verus!
