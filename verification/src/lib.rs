//! Typed client binding for a WooCommerce-style REST API (orders, products,
//! coupons).  The library holds everything that can be checked statically:
//! the JSON wire format and its parser/serializer, the data model and its
//! codecs, request construction (URLs, bodies, the Basic-Auth header) and
//! the response-normalization rules.  The HTTP transport itself lives in a
//! thin unverified shell around this crate.

pub mod chars;
pub mod client;
pub mod codec;
pub mod common;
pub mod coupon;
pub mod coupon_client;
pub mod json;
pub mod order;
pub mod order_client;
pub mod product;
pub mod product_client;
