//! The product operations: create, list, and update, each as a request
//! builder and a response handler.  The update reports success with no
//! returned record, as the remote endpoint's confirmation is not used.

use vstd::prelude::*;

use crate::client::{
    decoded_list, decoded_single, is_success_status, normalized_failure, HttpMethod,
    HttpRequest, WooCommerceHttpError, WooHttpClient,
};
use crate::codec::JsonCodec;
use crate::json::{json_to_string, ser_spec};
use crate::product::{CreateProduct, Product};

verus! {

impl WooHttpClient {
    /// POST the creation payload to the product collection.
    pub fn create_product_request(&self, product: &CreateProduct) -> (r: HttpRequest)
        ensures
            r.method == HttpMethod::Post,
            r.url@ == self.base_url@ + "/wc/v3/products"@,
            r.body matches Some(b) && b@ == ser_spec(product.jv()),
    {
        HttpRequest {
            method: HttpMethod::Post,
            url: self.collection_url("/wc/v3/products"),
            body: Some(json_to_string(&product.to_json())),
        }
    }

    /// Decode the response to a product creation.
    pub fn create_product_response(&self, status: u16, body: String) -> (r: Result<
        Product,
        WooCommerceHttpError,
    >)
        ensures
            is_success_status(status as int) ==> decoded_single(body@, r),
            !is_success_status(status as int) ==> (r matches Err(e) && normalized_failure(
                body@,
                e,
            )),
    {
        self.handle_single_response(status, body)
    }

    /// GET one page of the product collection.
    pub fn get_products_request(&self, page: usize, per_page: usize) -> (r: HttpRequest)
        ensures
            r.method == HttpMethod::Get,
            r.url@ == self.base_url@ + "/wc/v3/products"@ + "?page="@ + crate::chars::dec_of(
                page as int,
            ) + "&per_page="@ + crate::chars::dec_of(per_page as int),
            r.body is None,
    {
        HttpRequest {
            method: HttpMethod::Get,
            url: self.page_url("/wc/v3/products", page, per_page),
            body: None,
        }
    }

    /// Decode the response to a product listing.
    pub fn get_products_response(&self, status: u16, body: String) -> (r: Result<
        Vec<Product>,
        WooCommerceHttpError,
    >)
        ensures
            is_success_status(status as int) ==> decoded_list(body@, r),
            !is_success_status(status as int) ==> (r matches Err(e) && normalized_failure(
                body@,
                e,
            )),
    {
        self.handle_list_response(status, body)
    }

    /// PUT the full product record to its own endpoint, keyed by its id.
    pub fn update_product_request(&self, product: &Product) -> (r: HttpRequest)
        ensures
            r.method == HttpMethod::Put,
            r.url@ == self.base_url@ + "/wc/v3/products/"@ + crate::chars::dec_of(
                product.id as int,
            ),
            r.body matches Some(b) && b@ == ser_spec(product.jv()),
    {
        HttpRequest {
            method: HttpMethod::Put,
            url: self.item_url("/wc/v3/products/", product.id),
            body: Some(json_to_string(&product.to_json())),
        }
    }

    /// Decode the response to a product update: plain success, with the
    /// response body unused.
    pub fn update_product_response(&self, status: u16, body: String) -> (r: Result<
        (),
        WooCommerceHttpError,
    >)
        ensures
            is_success_status(status as int) ==> r is Ok,
            !is_success_status(status as int) ==> (r matches Err(e) && normalized_failure(
                body@,
                e,
            )),
    {
        self.handle_unit_response(status, body)
    }
}

} // verus!
