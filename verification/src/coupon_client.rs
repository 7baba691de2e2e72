//! The coupon operations.  Each operation is a pair: a request builder
//! that fixes the method, URL and body, and a response handler that
//! normalizes the status and decodes the body.  The transport in
//! between performs the exchange and reports the status code and body
//! text it received.

use vstd::prelude::*;

use crate::client::{
    decoded_list, decoded_single, is_success_status, normalized_failure, HttpMethod,
    HttpRequest, WooCommerceHttpError, WooHttpClient,
};
use crate::codec::JsonCodec;
use crate::coupon::{Coupon, CreateCoupon, UpdateCoupon};
use crate::json::{json_parse_spec, json_to_string, ser_spec};

verus! {

impl WooHttpClient {
    /// POST the creation payload to the coupon collection.
    pub fn create_coupon_request(&self, coupon: &CreateCoupon) -> (r: HttpRequest)
        ensures
            r.method == HttpMethod::Post,
            r.url@ == self.base_url@ + "/wc/v3/coupons"@,
            r.body matches Some(b) && b@ == ser_spec(coupon.jv()),
    {
        HttpRequest {
            method: HttpMethod::Post,
            url: self.collection_url("/wc/v3/coupons"),
            body: Some(json_to_string(&coupon.to_json())),
        }
    }

    /// Decode the response to a coupon creation.
    pub fn create_coupon_response(&self, status: u16, body: String) -> (r: Result<
        Coupon,
        WooCommerceHttpError,
    >)
        ensures
            is_success_status(status as int) ==> decoded_single(body@, r),
            !is_success_status(status as int) ==> (r matches Err(e) && normalized_failure(
                body@,
                e,
            )),
    {
        self.handle_single_response(status, body)
    }

    /// GET one page of the coupon collection.
    pub fn get_coupons_request(&self, page: usize, per_page: usize) -> (r: HttpRequest)
        ensures
            r.method == HttpMethod::Get,
            r.url@ == self.base_url@ + "/wc/v3/coupons"@ + "?page="@ + crate::chars::dec_of(
                page as int,
            ) + "&per_page="@ + crate::chars::dec_of(per_page as int),
            r.body is None,
    {
        HttpRequest {
            method: HttpMethod::Get,
            url: self.page_url("/wc/v3/coupons", page, per_page),
            body: None,
        }
    }

    /// Decode the response to a coupon listing.
    pub fn get_coupons_response(&self, status: u16, body: String) -> (r: Result<
        Vec<Coupon>,
        WooCommerceHttpError,
    >)
        ensures
            is_success_status(status as int) ==> decoded_list(body@, r),
            !is_success_status(status as int) ==> (r matches Err(e) && normalized_failure(
                body@,
                e,
            )),
    {
        self.handle_list_response(status, body)
    }

    /// PUT the update payload to the coupon's own endpoint, keyed by
    /// the payload's id.
    pub fn update_coupon_request(&self, coupon: &UpdateCoupon) -> (r: HttpRequest)
        ensures
            r.method == HttpMethod::Put,
            r.url@ == self.base_url@ + "/wc/v3/coupons/"@ + crate::chars::dec_of(
                coupon.id as int,
            ),
            r.body matches Some(b) && b@ == ser_spec(coupon.jv()),
    {
        HttpRequest {
            method: HttpMethod::Put,
            url: self.item_url("/wc/v3/coupons/", coupon.id),
            body: Some(json_to_string(&coupon.to_json())),
        }
    }

    /// Decode the response to a coupon update.
    pub fn update_coupon_response(&self, status: u16, body: String) -> (r: Result<
        Coupon,
        WooCommerceHttpError,
    >)
        ensures
            is_success_status(status as int) ==> decoded_single(body@, r),
            !is_success_status(status as int) ==> (r matches Err(e) && normalized_failure(
                body@,
                e,
            )),
    {
        self.handle_single_response(status, body)
    }

    /// DELETE the coupon permanently (the API's force flag).
    pub fn delete_coupon_request(&self, id: i32) -> (r: HttpRequest)
        ensures
            r.method == HttpMethod::Delete,
            r.url@ == self.base_url@ + "/wc/v3/coupons/"@ + crate::chars::dec_of(id as int)
                + "?force=true"@,
            r.body is None,
    {
        let mut url = self.item_url("/wc/v3/coupons/", id);
        url.append("?force=true");
        HttpRequest { method: HttpMethod::Delete, url, body: None }
    }

    /// Decode the response to a coupon deletion: the removed record.
    pub fn delete_coupon_response(&self, status: u16, body: String) -> (r: Result<
        Coupon,
        WooCommerceHttpError,
    >)
        ensures
            is_success_status(status as int) ==> decoded_single(body@, r),
            !is_success_status(status as int) ==> (r matches Err(e) && normalized_failure(
                body@,
                e,
            )),
    {
        self.handle_single_response(status, body)
    }

    /// GET one coupon by id.
    pub fn get_coupon_request(&self, id: i32) -> (r: HttpRequest)
        ensures
            r.method == HttpMethod::Get,
            r.url@ == self.base_url@ + "/wc/v3/coupons/"@ + crate::chars::dec_of(id as int),
            r.body is None,
    {
        HttpRequest {
            method: HttpMethod::Get,
            url: self.item_url("/wc/v3/coupons/", id),
            body: None,
        }
    }

    /// Decode the response to a coupon lookup: a `404` reads as an
    /// absent coupon, not as an error.
    pub fn get_coupon_response(&self, status: u16, body: String) -> (r: Result<
        Option<Coupon>,
        WooCommerceHttpError,
    >)
        ensures
            status == 404 ==> (r matches Ok(o) && o is None),
            is_success_status(status as int) ==> (match json_parse_spec(body@) {
                Some(j) => if Coupon::shape_ok(j) {
                    r matches Ok(o) && o matches Some(c) && c.agrees(j)
                } else {
                    r matches Err(WooCommerceHttpError::SerdeError(_))
                },
                None => r matches Err(WooCommerceHttpError::SerdeError(_)),
            }),
            !is_success_status(status as int) && status != 404 ==> (r matches Err(e)
                && normalized_failure(body@, e)),
    {
        self.handle_get_response(status, body)
    }
}

} // verus!
