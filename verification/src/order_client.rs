//! The order operations: create, update, and lookup by id, each as a
//! request builder and a response handler.

use vstd::prelude::*;

use crate::client::{
    decoded_single, is_success_status, normalized_failure, HttpMethod, HttpRequest,
    WooCommerceHttpError, WooHttpClient,
};
use crate::codec::JsonCodec;
use crate::json::{json_parse_spec, json_to_string, ser_spec};
use crate::order::{CreateOrder, Order};

verus! {

impl WooHttpClient {
    /// POST the creation payload to the order collection.
    pub fn create_order_request(&self, order: &CreateOrder) -> (r: HttpRequest)
        ensures
            r.method == HttpMethod::Post,
            r.url@ == self.base_url@ + "/wc/v3/orders"@,
            r.body matches Some(b) && b@ == ser_spec(order.jv()),
    {
        HttpRequest {
            method: HttpMethod::Post,
            url: self.collection_url("/wc/v3/orders"),
            body: Some(json_to_string(&order.to_json())),
        }
    }

    /// Decode the response to an order creation.
    pub fn create_order_response(&self, status: u16, body: String) -> (r: Result<
        Order,
        WooCommerceHttpError,
    >)
        ensures
            is_success_status(status as int) ==> decoded_single(body@, r),
            !is_success_status(status as int) ==> (r matches Err(e) && normalized_failure(
                body@,
                e,
            )),
    {
        self.handle_single_response(status, body)
    }

    /// PUT the full order record to its own endpoint, keyed by its id.
    pub fn update_order_request(&self, order: &Order) -> (r: HttpRequest)
        ensures
            r.method == HttpMethod::Put,
            r.url@ == self.base_url@ + "/wc/v3/orders/"@ + crate::chars::dec_of(order.id as int),
            r.body matches Some(b) && b@ == ser_spec(order.jv()),
    {
        HttpRequest {
            method: HttpMethod::Put,
            url: self.item_url("/wc/v3/orders/", order.id),
            body: Some(json_to_string(&order.to_json())),
        }
    }

    /// Decode the response to an order update: the updated record.
    pub fn update_order_response(&self, status: u16, body: String) -> (r: Result<
        Order,
        WooCommerceHttpError,
    >)
        ensures
            is_success_status(status as int) ==> decoded_single(body@, r),
            !is_success_status(status as int) ==> (r matches Err(e) && normalized_failure(
                body@,
                e,
            )),
    {
        self.handle_single_response(status, body)
    }

    /// GET one order by id.
    pub fn get_order_request(&self, order_id: i32) -> (r: HttpRequest)
        ensures
            r.method == HttpMethod::Get,
            r.url@ == self.base_url@ + "/wc/v3/orders/"@ + crate::chars::dec_of(order_id as int),
            r.body is None,
    {
        HttpRequest {
            method: HttpMethod::Get,
            url: self.item_url("/wc/v3/orders/", order_id),
            body: None,
        }
    }

    /// Decode the response to an order lookup: a `404` reads as an
    /// absent order, not as an error.
    pub fn get_order_response(&self, status: u16, body: String) -> (r: Result<
        Option<Order>,
        WooCommerceHttpError,
    >)
        ensures
            status == 404 ==> (r matches Ok(o) && o is None),
            is_success_status(status as int) ==> (match json_parse_spec(body@) {
                Some(j) => if Order::shape_ok(j) {
                    r matches Ok(o) && o matches Some(x) && x.agrees(j)
                } else {
                    r matches Err(WooCommerceHttpError::SerdeError(_))
                },
                None => r matches Err(WooCommerceHttpError::SerdeError(_)),
            }),
            !is_success_status(status as int) && status != 404 ==> (r matches Err(e)
                && normalized_failure(body@, e)),
    {
        self.handle_get_response(status, body)
    }
}

} // verus!
