//! The order resource: creation payload, full record, and the
//! substructures an order carries.  A line item's `price` and a coupon
//! line's `nominal_amount` are numbers on the wire; the records keep
//! them as their literal spelling, since the verified core holds no
//! floating-point values.

use vstd::prelude::*;

use crate::codec::{
    all_agree, all_shape_ok, get_bool, get_codec_arr, get_defstr, get_i32, get_numlit,
    get_opt_codec_arr, get_opt_string, get_string, num_i64, opt_seq_jv_of, opt_str_jv,
    opt_str_view, opt_str_value, opt_vec_to_json, push_field, seq_jv_of, sp_get_arr,
    sp_get_bool, sp_get_defstr, sp_get_i32, sp_get_numlit, sp_get_opt_arr, sp_get_opt_str,
    sp_get_str, str_value, vec_to_json, JsonCodec,
};
use crate::chars::{dec_of, str_eq};
use crate::common::{Links, MetaData};
use crate::json::{jv_get, obj_jv, JsonV, JsonValue};

verus! {

/// The lifecycle tag of an order.  The remote API does not enforce
/// transitions; the derived order (by declaration) serves comparison
/// only.
#[derive(Debug, PartialEq, Eq, PartialOrd, Ord)]
pub enum OrderStatus {
    Pending,
    Processing,
    OnHold,
    Completed,
    Cancelled,
    Refunded,
    Failed,
    Trash,
    CheckoutDraft,
}

impl Default for OrderStatus {
    /// A fresh order is pending.
    fn default() -> (r: OrderStatus)
        ensures
            r == OrderStatus::Pending,
    {
        OrderStatus::Pending
    }
}

impl OrderStatus {
    /// The wire tag of each variant.
    pub open spec fn tag(self) -> Seq<char> {
        match self {
            OrderStatus::Pending => "pending"@,
            OrderStatus::Processing => "processing"@,
            OrderStatus::OnHold => "on-hold"@,
            OrderStatus::Completed => "completed"@,
            OrderStatus::Cancelled => "cancelled"@,
            OrderStatus::Refunded => "refunded"@,
            OrderStatus::Failed => "failed"@,
            OrderStatus::Trash => "trash"@,
            OrderStatus::CheckoutDraft => "checkout-draft"@,
        }
    }
}

impl JsonCodec for OrderStatus {
    open spec fn jv(self) -> JsonV {
        JsonV::Str(self.tag())
    }

    open spec fn agrees(self, j: JsonV) -> bool {
        j == JsonV::Str(self.tag())
    }

    open spec fn shape_ok(j: JsonV) -> bool {
        ||| j == JsonV::Str("pending"@)
        ||| j == JsonV::Str("processing"@)
        ||| j == JsonV::Str("on-hold"@)
        ||| j == JsonV::Str("completed"@)
        ||| j == JsonV::Str("cancelled"@)
        ||| j == JsonV::Str("refunded"@)
        ||| j == JsonV::Str("failed"@)
        ||| j == JsonV::Str("trash"@)
        ||| j == JsonV::Str("checkout-draft"@)
    }

    fn to_json(&self) -> (r: JsonValue) {
        match self {
            OrderStatus::Pending => str_value("pending"),
            OrderStatus::Processing => str_value("processing"),
            OrderStatus::OnHold => str_value("on-hold"),
            OrderStatus::Completed => str_value("completed"),
            OrderStatus::Cancelled => str_value("cancelled"),
            OrderStatus::Refunded => str_value("refunded"),
            OrderStatus::Failed => str_value("failed"),
            OrderStatus::Trash => str_value("trash"),
            OrderStatus::CheckoutDraft => str_value("checkout-draft"),
        }
    }

    /// Decoding fails on any unrecognized tag rather than defaulting.
    fn from_json(v: &JsonValue) -> (r: Option<OrderStatus>) {
        let s = match v.as_string() {
            Some(s) => s,
            None => {
                return None;
            },
        };
        if str_eq(s.as_str(), "pending") {
            Some(OrderStatus::Pending)
        } else if str_eq(s.as_str(), "processing") {
            Some(OrderStatus::Processing)
        } else if str_eq(s.as_str(), "on-hold") {
            Some(OrderStatus::OnHold)
        } else if str_eq(s.as_str(), "completed") {
            Some(OrderStatus::Completed)
        } else if str_eq(s.as_str(), "cancelled") {
            Some(OrderStatus::Cancelled)
        } else if str_eq(s.as_str(), "refunded") {
            Some(OrderStatus::Refunded)
        } else if str_eq(s.as_str(), "failed") {
            Some(OrderStatus::Failed)
        } else if str_eq(s.as_str(), "trash") {
            Some(OrderStatus::Trash)
        } else if str_eq(s.as_str(), "checkout-draft") {
            Some(OrderStatus::CheckoutDraft)
        } else {
            None
        }
    }
}

/// An order status's encoding decodes, and only to the same variant.
pub proof fn lemma_order_status_roundtrip(x: OrderStatus, y: OrderStatus)
    ensures
        OrderStatus::shape_ok(x.jv()),
        y.agrees(x.jv()) ==> y == x,
{
    reveal_strlit("pending");
    reveal_strlit("processing");
    reveal_strlit("on-hold");
    reveal_strlit("completed");
    reveal_strlit("cancelled");
    reveal_strlit("refunded");
    reveal_strlit("failed");
    reveal_strlit("trash");
    reveal_strlit("checkout-draft");
    assert("pending"@.len() == 7);
    assert("processing"@.len() == 10);
    assert("on-hold"@.len() == 7);
    assert("completed"@.len() == 9);
    assert("cancelled"@.len() == 9);
    assert("refunded"@.len() == 8);
    assert("failed"@.len() == 6);
    assert("trash"@.len() == 5);
    assert("checkout-draft"@.len() == 14);
    assert("pending"@[0] == 'p');
    assert("on-hold"@[0] == 'o');
    assert("completed"@[0] == 'c');
    assert("cancelled"@[1] == 'a');
    assert("completed"@[1] == 'o');
}

#[derive(Debug)]
pub struct CreateOrder {
    pub set_paid: bool,
    pub billing: ContactDetails,
    pub meta_data: Vec<MetaData>,
    pub line_items: Vec<CreateLineItem>,
    pub customer_id: i32,
    pub coupon_lines: Vec<CouponLineCreate>,
}

#[derive(Debug)]
pub struct Order {
    pub id: i32,
    pub parent_id: i32,
    pub status: OrderStatus,
    pub currency: String,
    pub version: String,
    pub prices_include_tax: bool,
    pub date_created: String,
    pub date_modified: String,
    pub discount_total: String,
    pub discount_tax: String,
    pub shipping_total: String,
    pub shipping_tax: String,
    pub cart_tax: String,
    pub total: String,
    pub total_tax: String,
    pub customer_id: i32,
    pub order_key: String,
    pub billing: ContactDetails,
    pub shipping: ContactDetails,
    pub payment_method: String,
    pub payment_method_title: String,
    pub transaction_id: String,
    pub customer_ip_address: String,
    pub customer_user_agent: String,
    pub created_via: String,
    pub customer_note: String,
    pub date_completed: Option<String>,
    pub date_paid: Option<String>,
    pub cart_hash: String,
    pub number: String,
    pub meta_data: Vec<MetaData>,
    pub line_items: Vec<LineItem>,
    pub tax_lines: Vec<TaxLine>,
    pub shipping_lines: Vec<ShippingLine>,
    pub fee_lines: Vec<FeeLine>,
    pub coupon_lines: Vec<CouponLine>,
    pub refunds: Vec<Refund>,
    pub payment_url: String,
    pub is_editable: bool,
    pub needs_payment: bool,
    pub needs_processing: bool,
    pub date_created_gmt: String,
    pub date_modified_gmt: String,
    pub date_completed_gmt: Option<String>,
    pub date_paid_gmt: Option<String>,
    pub gift_cards: Option<Vec<GiftCard>>,
    pub currency_symbol: String,
    pub _links: Links,
}

#[derive(Debug)]
pub struct ContactDetails {
    pub first_name: String,
    pub last_name: String,
    pub company: String,
    pub address_1: String,
    pub address_2: String,
    pub city: String,
    pub state: String,
    pub postcode: String,
    pub country: String,
    pub email: String,
    pub phone: String,
}

#[derive(Debug)]
pub struct LineItem {
    pub id: i32,
    pub name: String,
    pub product_id: i32,
    pub variation_id: i32,
    pub quantity: i32,
    pub tax_class: String,
    pub subtotal: String,
    pub subtotal_tax: String,
    pub total: String,
    pub total_tax: String,
    pub taxes: Vec<Tax>,
    pub meta_data: Vec<MetaData>,
    pub sku: Option<String>,
    pub price: String,
}

#[derive(Debug)]
pub struct CreateLineItem {
    pub product_id: i32,
    pub quantity: i32,
}

#[derive(Debug)]
pub struct Tax {
    pub id: i32,
    pub total: String,
    pub subtotal: String,
}

#[derive(Debug)]
pub struct Image {
    pub id: String,
    pub src: String,
}

#[derive(Debug)]
pub struct TaxLine {
    pub id: i32,
    pub rate_code: String,
    pub rate_id: i32,
    pub label: String,
    pub compound: bool,
    pub tax_total: String,
    pub shipping_tax_total: String,
}

#[derive(Debug)]
pub struct ShippingLine {
    pub id: i32,
    pub method_title: String,
    pub method_id: String,
    pub total: String,
    pub total_tax: String,
}

#[derive(Debug)]
pub struct FeeLine {
    pub id: i32,
    pub name: String,
    pub tax_class: String,
    pub tax_status: String,
    pub total: String,
    pub total_tax: String,
}

#[derive(Debug)]
pub struct CouponLine {
    pub id: i32,
    pub code: String,
    pub discount: String,
    pub discount_tax: String,
    pub discount_type: String,
    pub nominal_amount: String,
}

#[derive(Debug)]
pub struct CouponLineCreate {
    pub code: String,
}

#[derive(Debug)]
pub struct Refund {
    pub id: i32,
    pub reason: String,
    pub total: String,
}

#[derive(Debug)]
pub struct GiftCard {
    pub id: i32,
    pub amount: String,
    pub balance: String,
}

impl JsonCodec for ContactDetails {
    open spec fn jv(self) -> JsonV {
        JsonV::Obj(
            seq![
                ("first_name"@, JsonV::Str(self.first_name@)),
                ("last_name"@, JsonV::Str(self.last_name@)),
                ("company"@, JsonV::Str(self.company@)),
                ("address_1"@, JsonV::Str(self.address_1@)),
                ("address_2"@, JsonV::Str(self.address_2@)),
                ("city"@, JsonV::Str(self.city@)),
                ("state"@, JsonV::Str(self.state@)),
                ("postcode"@, JsonV::Str(self.postcode@)),
                ("country"@, JsonV::Str(self.country@)),
                ("email"@, JsonV::Str(self.email@)),
                ("phone"@, JsonV::Str(self.phone@)),
            ],
        )
    }

    open spec fn agrees(self, j: JsonV) -> bool {
        &&& sp_get_str(j, "first_name"@) == Some(self.first_name@)
        &&& sp_get_str(j, "last_name"@) == Some(self.last_name@)
        &&& sp_get_str(j, "company"@) == Some(self.company@)
        &&& sp_get_str(j, "address_1"@) == Some(self.address_1@)
        &&& sp_get_str(j, "address_2"@) == Some(self.address_2@)
        &&& sp_get_str(j, "city"@) == Some(self.city@)
        &&& sp_get_str(j, "state"@) == Some(self.state@)
        &&& sp_get_str(j, "postcode"@) == Some(self.postcode@)
        &&& sp_get_str(j, "country"@) == Some(self.country@)
        &&& sp_get_defstr(j, "email"@) == Some(self.email@)
        &&& sp_get_str(j, "phone"@) == Some(self.phone@)
    }

    open spec fn shape_ok(j: JsonV) -> bool {
        &&& sp_get_str(j, "first_name"@) is Some
        &&& sp_get_str(j, "last_name"@) is Some
        &&& sp_get_str(j, "company"@) is Some
        &&& sp_get_str(j, "address_1"@) is Some
        &&& sp_get_str(j, "address_2"@) is Some
        &&& sp_get_str(j, "city"@) is Some
        &&& sp_get_str(j, "state"@) is Some
        &&& sp_get_str(j, "postcode"@) is Some
        &&& sp_get_str(j, "country"@) is Some
        &&& sp_get_defstr(j, "email"@) is Some
        &&& sp_get_str(j, "phone"@) is Some
    }

    fn to_json(&self) -> (r: JsonValue) {
        let mut fields: Vec<(String, JsonValue)> = Vec::new();
        push_field(&mut fields, "first_name", str_value(self.first_name.as_str()));
        push_field(&mut fields, "last_name", str_value(self.last_name.as_str()));
        push_field(&mut fields, "company", str_value(self.company.as_str()));
        push_field(&mut fields, "address_1", str_value(self.address_1.as_str()));
        push_field(&mut fields, "address_2", str_value(self.address_2.as_str()));
        push_field(&mut fields, "city", str_value(self.city.as_str()));
        push_field(&mut fields, "state", str_value(self.state.as_str()));
        push_field(&mut fields, "postcode", str_value(self.postcode.as_str()));
        push_field(&mut fields, "country", str_value(self.country.as_str()));
        push_field(&mut fields, "email", str_value(self.email.as_str()));
        push_field(&mut fields, "phone", str_value(self.phone.as_str()));
        proof {
            assert(obj_jv(fields@) =~= seq![
                ("first_name"@, JsonV::Str(self.first_name@)),
                ("last_name"@, JsonV::Str(self.last_name@)),
                ("company"@, JsonV::Str(self.company@)),
                ("address_1"@, JsonV::Str(self.address_1@)),
                ("address_2"@, JsonV::Str(self.address_2@)),
                ("city"@, JsonV::Str(self.city@)),
                ("state"@, JsonV::Str(self.state@)),
                ("postcode"@, JsonV::Str(self.postcode@)),
                ("country"@, JsonV::Str(self.country@)),
                ("email"@, JsonV::Str(self.email@)),
                ("phone"@, JsonV::Str(self.phone@)),
            ]);
        }
        JsonValue::Obj(fields)
    }

    fn from_json(v: &JsonValue) -> (r: Option<ContactDetails>) {
        let first_name = match get_string(v, "first_name") {
            Some(x) => x,
            None => {
                return None;
            },
        };
        let last_name = match get_string(v, "last_name") {
            Some(x) => x,
            None => {
                return None;
            },
        };
        let company = match get_string(v, "company") {
            Some(x) => x,
            None => {
                return None;
            },
        };
        let address_1 = match get_string(v, "address_1") {
            Some(x) => x,
            None => {
                return None;
            },
        };
        let address_2 = match get_string(v, "address_2") {
            Some(x) => x,
            None => {
                return None;
            },
        };
        let city = match get_string(v, "city") {
            Some(x) => x,
            None => {
                return None;
            },
        };
        let state = match get_string(v, "state") {
            Some(x) => x,
            None => {
                return None;
            },
        };
        let postcode = match get_string(v, "postcode") {
            Some(x) => x,
            None => {
                return None;
            },
        };
        let country = match get_string(v, "country") {
            Some(x) => x,
            None => {
                return None;
            },
        };
        let email = match get_defstr(v, "email") {
            Some(x) => x,
            None => {
                return None;
            },
        };
        let phone = match get_string(v, "phone") {
            Some(x) => x,
            None => {
                return None;
            },
        };
        Some(ContactDetails {
            first_name,
            last_name,
            company,
            address_1,
            address_2,
            city,
            state,
            postcode,
            country,
            email,
            phone,
        })
    }
}

impl JsonCodec for LineItem {
    open spec fn jv(self) -> JsonV {
        JsonV::Obj(
            seq![
                ("id"@, JsonV::Num(dec_of(self.id as int))),
                ("name"@, JsonV::Str(self.name@)),
                ("product_id"@, JsonV::Num(dec_of(self.product_id as int))),
                ("variation_id"@, JsonV::Num(dec_of(self.variation_id as int))),
                ("quantity"@, JsonV::Num(dec_of(self.quantity as int))),
                ("tax_class"@, JsonV::Str(self.tax_class@)),
                ("subtotal"@, JsonV::Str(self.subtotal@)),
                ("subtotal_tax"@, JsonV::Str(self.subtotal_tax@)),
                ("total"@, JsonV::Str(self.total@)),
                ("total_tax"@, JsonV::Str(self.total_tax@)),
                ("taxes"@, JsonV::Arr(seq_jv_of(self.taxes@))),
                ("meta_data"@, JsonV::Arr(seq_jv_of(self.meta_data@))),
                ("sku"@, opt_str_jv(self.sku)),
                ("price"@, JsonV::Num(self.price@)),
            ],
        )
    }

    open spec fn agrees(self, j: JsonV) -> bool {
        &&& sp_get_i32(j, "id"@) == Some(self.id as int)
        &&& sp_get_str(j, "name"@) == Some(self.name@)
        &&& sp_get_i32(j, "product_id"@) == Some(self.product_id as int)
        &&& sp_get_i32(j, "variation_id"@) == Some(self.variation_id as int)
        &&& sp_get_i32(j, "quantity"@) == Some(self.quantity as int)
        &&& sp_get_str(j, "tax_class"@) == Some(self.tax_class@)
        &&& sp_get_str(j, "subtotal"@) == Some(self.subtotal@)
        &&& sp_get_str(j, "subtotal_tax"@) == Some(self.subtotal_tax@)
        &&& sp_get_str(j, "total"@) == Some(self.total@)
        &&& sp_get_str(j, "total_tax"@) == Some(self.total_tax@)
        &&& match sp_get_arr(j, "taxes"@) {
            Some(items) => all_agree(self.taxes@, items),
            None => false,
        }
        &&& match sp_get_arr(j, "meta_data"@) {
            Some(items) => all_agree(self.meta_data@, items),
            None => false,
        }
        &&& sp_get_opt_str(j, "sku"@) == Some(opt_str_view(self.sku))
        &&& sp_get_numlit(j, "price"@) == Some(self.price@)
    }

    open spec fn shape_ok(j: JsonV) -> bool {
        &&& sp_get_i32(j, "id"@) is Some
        &&& sp_get_str(j, "name"@) is Some
        &&& sp_get_i32(j, "product_id"@) is Some
        &&& sp_get_i32(j, "variation_id"@) is Some
        &&& sp_get_i32(j, "quantity"@) is Some
        &&& sp_get_str(j, "tax_class"@) is Some
        &&& sp_get_str(j, "subtotal"@) is Some
        &&& sp_get_str(j, "subtotal_tax"@) is Some
        &&& sp_get_str(j, "total"@) is Some
        &&& sp_get_str(j, "total_tax"@) is Some
        &&& match sp_get_arr(j, "taxes"@) {
            Some(items) => all_shape_ok::<Tax>(items),
            None => false,
        }
        &&& match sp_get_arr(j, "meta_data"@) {
            Some(items) => all_shape_ok::<MetaData>(items),
            None => false,
        }
        &&& sp_get_opt_str(j, "sku"@) is Some
        &&& sp_get_numlit(j, "price"@) is Some
    }

    fn to_json(&self) -> (r: JsonValue) {
        let mut fields: Vec<(String, JsonValue)> = Vec::new();
        push_field(&mut fields, "id", num_i64(self.id as i64));
        push_field(&mut fields, "name", str_value(self.name.as_str()));
        push_field(&mut fields, "product_id", num_i64(self.product_id as i64));
        push_field(&mut fields, "variation_id", num_i64(self.variation_id as i64));
        push_field(&mut fields, "quantity", num_i64(self.quantity as i64));
        push_field(&mut fields, "tax_class", str_value(self.tax_class.as_str()));
        push_field(&mut fields, "subtotal", str_value(self.subtotal.as_str()));
        push_field(&mut fields, "subtotal_tax", str_value(self.subtotal_tax.as_str()));
        push_field(&mut fields, "total", str_value(self.total.as_str()));
        push_field(&mut fields, "total_tax", str_value(self.total_tax.as_str()));
        push_field(&mut fields, "taxes", vec_to_json(&self.taxes));
        push_field(&mut fields, "meta_data", vec_to_json(&self.meta_data));
        push_field(&mut fields, "sku", opt_str_value(&self.sku));
        push_field(&mut fields, "price", JsonValue::Num(self.price.clone()));
        proof {
            assert(obj_jv(fields@) =~= seq![
                ("id"@, JsonV::Num(dec_of(self.id as int))),
                ("name"@, JsonV::Str(self.name@)),
                ("product_id"@, JsonV::Num(dec_of(self.product_id as int))),
                ("variation_id"@, JsonV::Num(dec_of(self.variation_id as int))),
                ("quantity"@, JsonV::Num(dec_of(self.quantity as int))),
                ("tax_class"@, JsonV::Str(self.tax_class@)),
                ("subtotal"@, JsonV::Str(self.subtotal@)),
                ("subtotal_tax"@, JsonV::Str(self.subtotal_tax@)),
                ("total"@, JsonV::Str(self.total@)),
                ("total_tax"@, JsonV::Str(self.total_tax@)),
                ("taxes"@, JsonV::Arr(seq_jv_of(self.taxes@))),
                ("meta_data"@, JsonV::Arr(seq_jv_of(self.meta_data@))),
                ("sku"@, opt_str_jv(self.sku)),
                ("price"@, JsonV::Num(self.price@)),
            ]);
        }
        JsonValue::Obj(fields)
    }

    fn from_json(v: &JsonValue) -> (r: Option<LineItem>) {
        let id = match get_i32(v, "id") {
            Some(x) => x,
            None => {
                return None;
            },
        };
        let name = match get_string(v, "name") {
            Some(x) => x,
            None => {
                return None;
            },
        };
        let product_id = match get_i32(v, "product_id") {
            Some(x) => x,
            None => {
                return None;
            },
        };
        let variation_id = match get_i32(v, "variation_id") {
            Some(x) => x,
            None => {
                return None;
            },
        };
        let quantity = match get_i32(v, "quantity") {
            Some(x) => x,
            None => {
                return None;
            },
        };
        let tax_class = match get_string(v, "tax_class") {
            Some(x) => x,
            None => {
                return None;
            },
        };
        let subtotal = match get_string(v, "subtotal") {
            Some(x) => x,
            None => {
                return None;
            },
        };
        let subtotal_tax = match get_string(v, "subtotal_tax") {
            Some(x) => x,
            None => {
                return None;
            },
        };
        let total = match get_string(v, "total") {
            Some(x) => x,
            None => {
                return None;
            },
        };
        let total_tax = match get_string(v, "total_tax") {
            Some(x) => x,
            None => {
                return None;
            },
        };
        let taxes = match get_codec_arr::<Tax>(v, "taxes") {
            Some(x) => x,
            None => {
                return None;
            },
        };
        let meta_data = match get_codec_arr::<MetaData>(v, "meta_data") {
            Some(x) => x,
            None => {
                return None;
            },
        };
        let sku = match get_opt_string(v, "sku") {
            Some(x) => x,
            None => {
                return None;
            },
        };
        let price = match get_numlit(v, "price") {
            Some(x) => x,
            None => {
                return None;
            },
        };
        Some(LineItem {
            id,
            name,
            product_id,
            variation_id,
            quantity,
            tax_class,
            subtotal,
            subtotal_tax,
            total,
            total_tax,
            taxes,
            meta_data,
            sku,
            price,
        })
    }
}

impl JsonCodec for CreateLineItem {
    open spec fn jv(self) -> JsonV {
        JsonV::Obj(
            seq![
                ("product_id"@, JsonV::Num(dec_of(self.product_id as int))),
                ("quantity"@, JsonV::Num(dec_of(self.quantity as int))),
            ],
        )
    }

    open spec fn agrees(self, j: JsonV) -> bool {
        &&& sp_get_i32(j, "product_id"@) == Some(self.product_id as int)
        &&& sp_get_i32(j, "quantity"@) == Some(self.quantity as int)
    }

    open spec fn shape_ok(j: JsonV) -> bool {
        &&& sp_get_i32(j, "product_id"@) is Some
        &&& sp_get_i32(j, "quantity"@) is Some
    }

    fn to_json(&self) -> (r: JsonValue) {
        let mut fields: Vec<(String, JsonValue)> = Vec::new();
        push_field(&mut fields, "product_id", num_i64(self.product_id as i64));
        push_field(&mut fields, "quantity", num_i64(self.quantity as i64));
        proof {
            assert(obj_jv(fields@) =~= seq![
                ("product_id"@, JsonV::Num(dec_of(self.product_id as int))),
                ("quantity"@, JsonV::Num(dec_of(self.quantity as int))),
            ]);
        }
        JsonValue::Obj(fields)
    }

    fn from_json(v: &JsonValue) -> (r: Option<CreateLineItem>) {
        let product_id = match get_i32(v, "product_id") {
            Some(x) => x,
            None => {
                return None;
            },
        };
        let quantity = match get_i32(v, "quantity") {
            Some(x) => x,
            None => {
                return None;
            },
        };
        Some(CreateLineItem {
            product_id,
            quantity,
        })
    }
}

impl JsonCodec for Tax {
    open spec fn jv(self) -> JsonV {
        JsonV::Obj(
            seq![
                ("id"@, JsonV::Num(dec_of(self.id as int))),
                ("total"@, JsonV::Str(self.total@)),
                ("subtotal"@, JsonV::Str(self.subtotal@)),
            ],
        )
    }

    open spec fn agrees(self, j: JsonV) -> bool {
        &&& sp_get_i32(j, "id"@) == Some(self.id as int)
        &&& sp_get_str(j, "total"@) == Some(self.total@)
        &&& sp_get_str(j, "subtotal"@) == Some(self.subtotal@)
    }

    open spec fn shape_ok(j: JsonV) -> bool {
        &&& sp_get_i32(j, "id"@) is Some
        &&& sp_get_str(j, "total"@) is Some
        &&& sp_get_str(j, "subtotal"@) is Some
    }

    fn to_json(&self) -> (r: JsonValue) {
        let mut fields: Vec<(String, JsonValue)> = Vec::new();
        push_field(&mut fields, "id", num_i64(self.id as i64));
        push_field(&mut fields, "total", str_value(self.total.as_str()));
        push_field(&mut fields, "subtotal", str_value(self.subtotal.as_str()));
        proof {
            assert(obj_jv(fields@) =~= seq![
                ("id"@, JsonV::Num(dec_of(self.id as int))),
                ("total"@, JsonV::Str(self.total@)),
                ("subtotal"@, JsonV::Str(self.subtotal@)),
            ]);
        }
        JsonValue::Obj(fields)
    }

    fn from_json(v: &JsonValue) -> (r: Option<Tax>) {
        let id = match get_i32(v, "id") {
            Some(x) => x,
            None => {
                return None;
            },
        };
        let total = match get_string(v, "total") {
            Some(x) => x,
            None => {
                return None;
            },
        };
        let subtotal = match get_string(v, "subtotal") {
            Some(x) => x,
            None => {
                return None;
            },
        };
        Some(Tax {
            id,
            total,
            subtotal,
        })
    }
}

impl JsonCodec for Image {
    open spec fn jv(self) -> JsonV {
        JsonV::Obj(
            seq![
                ("id"@, JsonV::Str(self.id@)),
                ("src"@, JsonV::Str(self.src@)),
            ],
        )
    }

    open spec fn agrees(self, j: JsonV) -> bool {
        &&& sp_get_str(j, "id"@) == Some(self.id@)
        &&& sp_get_str(j, "src"@) == Some(self.src@)
    }

    open spec fn shape_ok(j: JsonV) -> bool {
        &&& sp_get_str(j, "id"@) is Some
        &&& sp_get_str(j, "src"@) is Some
    }

    fn to_json(&self) -> (r: JsonValue) {
        let mut fields: Vec<(String, JsonValue)> = Vec::new();
        push_field(&mut fields, "id", str_value(self.id.as_str()));
        push_field(&mut fields, "src", str_value(self.src.as_str()));
        proof {
            assert(obj_jv(fields@) =~= seq![
                ("id"@, JsonV::Str(self.id@)),
                ("src"@, JsonV::Str(self.src@)),
            ]);
        }
        JsonValue::Obj(fields)
    }

    fn from_json(v: &JsonValue) -> (r: Option<Image>) {
        let id = match get_string(v, "id") {
            Some(x) => x,
            None => {
                return None;
            },
        };
        let src = match get_string(v, "src") {
            Some(x) => x,
            None => {
                return None;
            },
        };
        Some(Image {
            id,
            src,
        })
    }
}

impl JsonCodec for TaxLine {
    open spec fn jv(self) -> JsonV {
        JsonV::Obj(
            seq![
                ("id"@, JsonV::Num(dec_of(self.id as int))),
                ("rate_code"@, JsonV::Str(self.rate_code@)),
                ("rate_id"@, JsonV::Num(dec_of(self.rate_id as int))),
                ("label"@, JsonV::Str(self.label@)),
                ("compound"@, JsonV::Bool(self.compound)),
                ("tax_total"@, JsonV::Str(self.tax_total@)),
                ("shipping_tax_total"@, JsonV::Str(self.shipping_tax_total@)),
            ],
        )
    }

    open spec fn agrees(self, j: JsonV) -> bool {
        &&& sp_get_i32(j, "id"@) == Some(self.id as int)
        &&& sp_get_str(j, "rate_code"@) == Some(self.rate_code@)
        &&& sp_get_i32(j, "rate_id"@) == Some(self.rate_id as int)
        &&& sp_get_str(j, "label"@) == Some(self.label@)
        &&& sp_get_bool(j, "compound"@) == Some(self.compound)
        &&& sp_get_str(j, "tax_total"@) == Some(self.tax_total@)
        &&& sp_get_str(j, "shipping_tax_total"@) == Some(self.shipping_tax_total@)
    }

    open spec fn shape_ok(j: JsonV) -> bool {
        &&& sp_get_i32(j, "id"@) is Some
        &&& sp_get_str(j, "rate_code"@) is Some
        &&& sp_get_i32(j, "rate_id"@) is Some
        &&& sp_get_str(j, "label"@) is Some
        &&& sp_get_bool(j, "compound"@) is Some
        &&& sp_get_str(j, "tax_total"@) is Some
        &&& sp_get_str(j, "shipping_tax_total"@) is Some
    }

    fn to_json(&self) -> (r: JsonValue) {
        let mut fields: Vec<(String, JsonValue)> = Vec::new();
        push_field(&mut fields, "id", num_i64(self.id as i64));
        push_field(&mut fields, "rate_code", str_value(self.rate_code.as_str()));
        push_field(&mut fields, "rate_id", num_i64(self.rate_id as i64));
        push_field(&mut fields, "label", str_value(self.label.as_str()));
        push_field(&mut fields, "compound", JsonValue::Bool(self.compound));
        push_field(&mut fields, "tax_total", str_value(self.tax_total.as_str()));
        push_field(&mut fields, "shipping_tax_total", str_value(self.shipping_tax_total.as_str()));
        proof {
            assert(obj_jv(fields@) =~= seq![
                ("id"@, JsonV::Num(dec_of(self.id as int))),
                ("rate_code"@, JsonV::Str(self.rate_code@)),
                ("rate_id"@, JsonV::Num(dec_of(self.rate_id as int))),
                ("label"@, JsonV::Str(self.label@)),
                ("compound"@, JsonV::Bool(self.compound)),
                ("tax_total"@, JsonV::Str(self.tax_total@)),
                ("shipping_tax_total"@, JsonV::Str(self.shipping_tax_total@)),
            ]);
        }
        JsonValue::Obj(fields)
    }

    fn from_json(v: &JsonValue) -> (r: Option<TaxLine>) {
        let id = match get_i32(v, "id") {
            Some(x) => x,
            None => {
                return None;
            },
        };
        let rate_code = match get_string(v, "rate_code") {
            Some(x) => x,
            None => {
                return None;
            },
        };
        let rate_id = match get_i32(v, "rate_id") {
            Some(x) => x,
            None => {
                return None;
            },
        };
        let label = match get_string(v, "label") {
            Some(x) => x,
            None => {
                return None;
            },
        };
        let compound = match get_bool(v, "compound") {
            Some(x) => x,
            None => {
                return None;
            },
        };
        let tax_total = match get_string(v, "tax_total") {
            Some(x) => x,
            None => {
                return None;
            },
        };
        let shipping_tax_total = match get_string(v, "shipping_tax_total") {
            Some(x) => x,
            None => {
                return None;
            },
        };
        Some(TaxLine {
            id,
            rate_code,
            rate_id,
            label,
            compound,
            tax_total,
            shipping_tax_total,
        })
    }
}

impl JsonCodec for ShippingLine {
    open spec fn jv(self) -> JsonV {
        JsonV::Obj(
            seq![
                ("id"@, JsonV::Num(dec_of(self.id as int))),
                ("method_title"@, JsonV::Str(self.method_title@)),
                ("method_id"@, JsonV::Str(self.method_id@)),
                ("total"@, JsonV::Str(self.total@)),
                ("total_tax"@, JsonV::Str(self.total_tax@)),
            ],
        )
    }

    open spec fn agrees(self, j: JsonV) -> bool {
        &&& sp_get_i32(j, "id"@) == Some(self.id as int)
        &&& sp_get_str(j, "method_title"@) == Some(self.method_title@)
        &&& sp_get_str(j, "method_id"@) == Some(self.method_id@)
        &&& sp_get_str(j, "total"@) == Some(self.total@)
        &&& sp_get_str(j, "total_tax"@) == Some(self.total_tax@)
    }

    open spec fn shape_ok(j: JsonV) -> bool {
        &&& sp_get_i32(j, "id"@) is Some
        &&& sp_get_str(j, "method_title"@) is Some
        &&& sp_get_str(j, "method_id"@) is Some
        &&& sp_get_str(j, "total"@) is Some
        &&& sp_get_str(j, "total_tax"@) is Some
    }

    fn to_json(&self) -> (r: JsonValue) {
        let mut fields: Vec<(String, JsonValue)> = Vec::new();
        push_field(&mut fields, "id", num_i64(self.id as i64));
        push_field(&mut fields, "method_title", str_value(self.method_title.as_str()));
        push_field(&mut fields, "method_id", str_value(self.method_id.as_str()));
        push_field(&mut fields, "total", str_value(self.total.as_str()));
        push_field(&mut fields, "total_tax", str_value(self.total_tax.as_str()));
        proof {
            assert(obj_jv(fields@) =~= seq![
                ("id"@, JsonV::Num(dec_of(self.id as int))),
                ("method_title"@, JsonV::Str(self.method_title@)),
                ("method_id"@, JsonV::Str(self.method_id@)),
                ("total"@, JsonV::Str(self.total@)),
                ("total_tax"@, JsonV::Str(self.total_tax@)),
            ]);
        }
        JsonValue::Obj(fields)
    }

    fn from_json(v: &JsonValue) -> (r: Option<ShippingLine>) {
        let id = match get_i32(v, "id") {
            Some(x) => x,
            None => {
                return None;
            },
        };
        let method_title = match get_string(v, "method_title") {
            Some(x) => x,
            None => {
                return None;
            },
        };
        let method_id = match get_string(v, "method_id") {
            Some(x) => x,
            None => {
                return None;
            },
        };
        let total = match get_string(v, "total") {
            Some(x) => x,
            None => {
                return None;
            },
        };
        let total_tax = match get_string(v, "total_tax") {
            Some(x) => x,
            None => {
                return None;
            },
        };
        Some(ShippingLine {
            id,
            method_title,
            method_id,
            total,
            total_tax,
        })
    }
}

impl JsonCodec for FeeLine {
    open spec fn jv(self) -> JsonV {
        JsonV::Obj(
            seq![
                ("id"@, JsonV::Num(dec_of(self.id as int))),
                ("name"@, JsonV::Str(self.name@)),
                ("tax_class"@, JsonV::Str(self.tax_class@)),
                ("tax_status"@, JsonV::Str(self.tax_status@)),
                ("total"@, JsonV::Str(self.total@)),
                ("total_tax"@, JsonV::Str(self.total_tax@)),
            ],
        )
    }

    open spec fn agrees(self, j: JsonV) -> bool {
        &&& sp_get_i32(j, "id"@) == Some(self.id as int)
        &&& sp_get_str(j, "name"@) == Some(self.name@)
        &&& sp_get_str(j, "tax_class"@) == Some(self.tax_class@)
        &&& sp_get_str(j, "tax_status"@) == Some(self.tax_status@)
        &&& sp_get_str(j, "total"@) == Some(self.total@)
        &&& sp_get_str(j, "total_tax"@) == Some(self.total_tax@)
    }

    open spec fn shape_ok(j: JsonV) -> bool {
        &&& sp_get_i32(j, "id"@) is Some
        &&& sp_get_str(j, "name"@) is Some
        &&& sp_get_str(j, "tax_class"@) is Some
        &&& sp_get_str(j, "tax_status"@) is Some
        &&& sp_get_str(j, "total"@) is Some
        &&& sp_get_str(j, "total_tax"@) is Some
    }

    fn to_json(&self) -> (r: JsonValue) {
        let mut fields: Vec<(String, JsonValue)> = Vec::new();
        push_field(&mut fields, "id", num_i64(self.id as i64));
        push_field(&mut fields, "name", str_value(self.name.as_str()));
        push_field(&mut fields, "tax_class", str_value(self.tax_class.as_str()));
        push_field(&mut fields, "tax_status", str_value(self.tax_status.as_str()));
        push_field(&mut fields, "total", str_value(self.total.as_str()));
        push_field(&mut fields, "total_tax", str_value(self.total_tax.as_str()));
        proof {
            assert(obj_jv(fields@) =~= seq![
                ("id"@, JsonV::Num(dec_of(self.id as int))),
                ("name"@, JsonV::Str(self.name@)),
                ("tax_class"@, JsonV::Str(self.tax_class@)),
                ("tax_status"@, JsonV::Str(self.tax_status@)),
                ("total"@, JsonV::Str(self.total@)),
                ("total_tax"@, JsonV::Str(self.total_tax@)),
            ]);
        }
        JsonValue::Obj(fields)
    }

    fn from_json(v: &JsonValue) -> (r: Option<FeeLine>) {
        let id = match get_i32(v, "id") {
            Some(x) => x,
            None => {
                return None;
            },
        };
        let name = match get_string(v, "name") {
            Some(x) => x,
            None => {
                return None;
            },
        };
        let tax_class = match get_string(v, "tax_class") {
            Some(x) => x,
            None => {
                return None;
            },
        };
        let tax_status = match get_string(v, "tax_status") {
            Some(x) => x,
            None => {
                return None;
            },
        };
        let total = match get_string(v, "total") {
            Some(x) => x,
            None => {
                return None;
            },
        };
        let total_tax = match get_string(v, "total_tax") {
            Some(x) => x,
            None => {
                return None;
            },
        };
        Some(FeeLine {
            id,
            name,
            tax_class,
            tax_status,
            total,
            total_tax,
        })
    }
}

impl JsonCodec for CouponLine {
    open spec fn jv(self) -> JsonV {
        JsonV::Obj(
            seq![
                ("id"@, JsonV::Num(dec_of(self.id as int))),
                ("code"@, JsonV::Str(self.code@)),
                ("discount"@, JsonV::Str(self.discount@)),
                ("discount_tax"@, JsonV::Str(self.discount_tax@)),
                ("discount_type"@, JsonV::Str(self.discount_type@)),
                ("nominal_amount"@, JsonV::Num(self.nominal_amount@)),
            ],
        )
    }

    open spec fn agrees(self, j: JsonV) -> bool {
        &&& sp_get_i32(j, "id"@) == Some(self.id as int)
        &&& sp_get_str(j, "code"@) == Some(self.code@)
        &&& sp_get_str(j, "discount"@) == Some(self.discount@)
        &&& sp_get_str(j, "discount_tax"@) == Some(self.discount_tax@)
        &&& sp_get_str(j, "discount_type"@) == Some(self.discount_type@)
        &&& sp_get_numlit(j, "nominal_amount"@) == Some(self.nominal_amount@)
    }

    open spec fn shape_ok(j: JsonV) -> bool {
        &&& sp_get_i32(j, "id"@) is Some
        &&& sp_get_str(j, "code"@) is Some
        &&& sp_get_str(j, "discount"@) is Some
        &&& sp_get_str(j, "discount_tax"@) is Some
        &&& sp_get_str(j, "discount_type"@) is Some
        &&& sp_get_numlit(j, "nominal_amount"@) is Some
    }

    fn to_json(&self) -> (r: JsonValue) {
        let mut fields: Vec<(String, JsonValue)> = Vec::new();
        push_field(&mut fields, "id", num_i64(self.id as i64));
        push_field(&mut fields, "code", str_value(self.code.as_str()));
        push_field(&mut fields, "discount", str_value(self.discount.as_str()));
        push_field(&mut fields, "discount_tax", str_value(self.discount_tax.as_str()));
        push_field(&mut fields, "discount_type", str_value(self.discount_type.as_str()));
        push_field(&mut fields, "nominal_amount", JsonValue::Num(self.nominal_amount.clone()));
        proof {
            assert(obj_jv(fields@) =~= seq![
                ("id"@, JsonV::Num(dec_of(self.id as int))),
                ("code"@, JsonV::Str(self.code@)),
                ("discount"@, JsonV::Str(self.discount@)),
                ("discount_tax"@, JsonV::Str(self.discount_tax@)),
                ("discount_type"@, JsonV::Str(self.discount_type@)),
                ("nominal_amount"@, JsonV::Num(self.nominal_amount@)),
            ]);
        }
        JsonValue::Obj(fields)
    }

    fn from_json(v: &JsonValue) -> (r: Option<CouponLine>) {
        let id = match get_i32(v, "id") {
            Some(x) => x,
            None => {
                return None;
            },
        };
        let code = match get_string(v, "code") {
            Some(x) => x,
            None => {
                return None;
            },
        };
        let discount = match get_string(v, "discount") {
            Some(x) => x,
            None => {
                return None;
            },
        };
        let discount_tax = match get_string(v, "discount_tax") {
            Some(x) => x,
            None => {
                return None;
            },
        };
        let discount_type = match get_string(v, "discount_type") {
            Some(x) => x,
            None => {
                return None;
            },
        };
        let nominal_amount = match get_numlit(v, "nominal_amount") {
            Some(x) => x,
            None => {
                return None;
            },
        };
        Some(CouponLine {
            id,
            code,
            discount,
            discount_tax,
            discount_type,
            nominal_amount,
        })
    }
}

impl JsonCodec for CouponLineCreate {
    open spec fn jv(self) -> JsonV {
        JsonV::Obj(
            seq![
                ("code"@, JsonV::Str(self.code@)),
            ],
        )
    }

    open spec fn agrees(self, j: JsonV) -> bool {
        &&& sp_get_str(j, "code"@) == Some(self.code@)
    }

    open spec fn shape_ok(j: JsonV) -> bool {
        &&& sp_get_str(j, "code"@) is Some
    }

    fn to_json(&self) -> (r: JsonValue) {
        let mut fields: Vec<(String, JsonValue)> = Vec::new();
        push_field(&mut fields, "code", str_value(self.code.as_str()));
        proof {
            assert(obj_jv(fields@) =~= seq![
                ("code"@, JsonV::Str(self.code@)),
            ]);
        }
        JsonValue::Obj(fields)
    }

    fn from_json(v: &JsonValue) -> (r: Option<CouponLineCreate>) {
        let code = match get_string(v, "code") {
            Some(x) => x,
            None => {
                return None;
            },
        };
        Some(CouponLineCreate {
            code,
        })
    }
}

impl JsonCodec for Refund {
    open spec fn jv(self) -> JsonV {
        JsonV::Obj(
            seq![
                ("id"@, JsonV::Num(dec_of(self.id as int))),
                ("reason"@, JsonV::Str(self.reason@)),
                ("total"@, JsonV::Str(self.total@)),
            ],
        )
    }

    open spec fn agrees(self, j: JsonV) -> bool {
        &&& sp_get_i32(j, "id"@) == Some(self.id as int)
        &&& sp_get_str(j, "reason"@) == Some(self.reason@)
        &&& sp_get_str(j, "total"@) == Some(self.total@)
    }

    open spec fn shape_ok(j: JsonV) -> bool {
        &&& sp_get_i32(j, "id"@) is Some
        &&& sp_get_str(j, "reason"@) is Some
        &&& sp_get_str(j, "total"@) is Some
    }

    fn to_json(&self) -> (r: JsonValue) {
        let mut fields: Vec<(String, JsonValue)> = Vec::new();
        push_field(&mut fields, "id", num_i64(self.id as i64));
        push_field(&mut fields, "reason", str_value(self.reason.as_str()));
        push_field(&mut fields, "total", str_value(self.total.as_str()));
        proof {
            assert(obj_jv(fields@) =~= seq![
                ("id"@, JsonV::Num(dec_of(self.id as int))),
                ("reason"@, JsonV::Str(self.reason@)),
                ("total"@, JsonV::Str(self.total@)),
            ]);
        }
        JsonValue::Obj(fields)
    }

    fn from_json(v: &JsonValue) -> (r: Option<Refund>) {
        let id = match get_i32(v, "id") {
            Some(x) => x,
            None => {
                return None;
            },
        };
        let reason = match get_string(v, "reason") {
            Some(x) => x,
            None => {
                return None;
            },
        };
        let total = match get_string(v, "total") {
            Some(x) => x,
            None => {
                return None;
            },
        };
        Some(Refund {
            id,
            reason,
            total,
        })
    }
}

impl JsonCodec for GiftCard {
    open spec fn jv(self) -> JsonV {
        JsonV::Obj(
            seq![
                ("id"@, JsonV::Num(dec_of(self.id as int))),
                ("amount"@, JsonV::Str(self.amount@)),
                ("balance"@, JsonV::Str(self.balance@)),
            ],
        )
    }

    open spec fn agrees(self, j: JsonV) -> bool {
        &&& sp_get_i32(j, "id"@) == Some(self.id as int)
        &&& sp_get_str(j, "amount"@) == Some(self.amount@)
        &&& sp_get_str(j, "balance"@) == Some(self.balance@)
    }

    open spec fn shape_ok(j: JsonV) -> bool {
        &&& sp_get_i32(j, "id"@) is Some
        &&& sp_get_str(j, "amount"@) is Some
        &&& sp_get_str(j, "balance"@) is Some
    }

    fn to_json(&self) -> (r: JsonValue) {
        let mut fields: Vec<(String, JsonValue)> = Vec::new();
        push_field(&mut fields, "id", num_i64(self.id as i64));
        push_field(&mut fields, "amount", str_value(self.amount.as_str()));
        push_field(&mut fields, "balance", str_value(self.balance.as_str()));
        proof {
            assert(obj_jv(fields@) =~= seq![
                ("id"@, JsonV::Num(dec_of(self.id as int))),
                ("amount"@, JsonV::Str(self.amount@)),
                ("balance"@, JsonV::Str(self.balance@)),
            ]);
        }
        JsonValue::Obj(fields)
    }

    fn from_json(v: &JsonValue) -> (r: Option<GiftCard>) {
        let id = match get_i32(v, "id") {
            Some(x) => x,
            None => {
                return None;
            },
        };
        let amount = match get_string(v, "amount") {
            Some(x) => x,
            None => {
                return None;
            },
        };
        let balance = match get_string(v, "balance") {
            Some(x) => x,
            None => {
                return None;
            },
        };
        Some(GiftCard {
            id,
            amount,
            balance,
        })
    }
}

impl JsonCodec for CreateOrder {
    open spec fn jv(self) -> JsonV {
        JsonV::Obj(
            seq![
                ("set_paid"@, JsonV::Bool(self.set_paid)),
                ("billing"@, self.billing.jv()),
                ("meta_data"@, JsonV::Arr(seq_jv_of(self.meta_data@))),
                ("line_items"@, JsonV::Arr(seq_jv_of(self.line_items@))),
                ("customer_id"@, JsonV::Num(dec_of(self.customer_id as int))),
                ("coupon_lines"@, JsonV::Arr(seq_jv_of(self.coupon_lines@))),
            ],
        )
    }

    open spec fn agrees(self, j: JsonV) -> bool {
        &&& sp_get_bool(j, "set_paid"@) == Some(self.set_paid)
        &&& match jv_get(j, "billing"@) {
            Some(fj) => self.billing.agrees(fj),
            None => false,
        }
        &&& match sp_get_arr(j, "meta_data"@) {
            Some(items) => all_agree(self.meta_data@, items),
            None => false,
        }
        &&& match sp_get_arr(j, "line_items"@) {
            Some(items) => all_agree(self.line_items@, items),
            None => false,
        }
        &&& sp_get_i32(j, "customer_id"@) == Some(self.customer_id as int)
        &&& match sp_get_arr(j, "coupon_lines"@) {
            Some(items) => all_agree(self.coupon_lines@, items),
            None => false,
        }
    }

    open spec fn shape_ok(j: JsonV) -> bool {
        &&& sp_get_bool(j, "set_paid"@) is Some
        &&& match jv_get(j, "billing"@) {
            Some(fj) => ContactDetails::shape_ok(fj),
            None => false,
        }
        &&& match sp_get_arr(j, "meta_data"@) {
            Some(items) => all_shape_ok::<MetaData>(items),
            None => false,
        }
        &&& match sp_get_arr(j, "line_items"@) {
            Some(items) => all_shape_ok::<CreateLineItem>(items),
            None => false,
        }
        &&& sp_get_i32(j, "customer_id"@) is Some
        &&& match sp_get_arr(j, "coupon_lines"@) {
            Some(items) => all_shape_ok::<CouponLineCreate>(items),
            None => false,
        }
    }

    fn to_json(&self) -> (r: JsonValue) {
        let mut fields: Vec<(String, JsonValue)> = Vec::new();
        push_field(&mut fields, "set_paid", JsonValue::Bool(self.set_paid));
        push_field(&mut fields, "billing", self.billing.to_json());
        push_field(&mut fields, "meta_data", vec_to_json(&self.meta_data));
        push_field(&mut fields, "line_items", vec_to_json(&self.line_items));
        push_field(&mut fields, "customer_id", num_i64(self.customer_id as i64));
        push_field(&mut fields, "coupon_lines", vec_to_json(&self.coupon_lines));
        proof {
            assert(obj_jv(fields@) =~= seq![
                ("set_paid"@, JsonV::Bool(self.set_paid)),
                ("billing"@, self.billing.jv()),
                ("meta_data"@, JsonV::Arr(seq_jv_of(self.meta_data@))),
                ("line_items"@, JsonV::Arr(seq_jv_of(self.line_items@))),
                ("customer_id"@, JsonV::Num(dec_of(self.customer_id as int))),
                ("coupon_lines"@, JsonV::Arr(seq_jv_of(self.coupon_lines@))),
            ]);
        }
        JsonValue::Obj(fields)
    }

    fn from_json(v: &JsonValue) -> (r: Option<CreateOrder>) {
        let set_paid = match get_bool(v, "set_paid") {
            Some(x) => x,
            None => {
                return None;
            },
        };
        let billing = match v.get("billing") {
            Some(fj) => match ContactDetails::from_json(fj) {
                Some(x) => x,
                None => {
                    return None;
                },
            },
            None => {
                return None;
            },
        };
        let meta_data = match get_codec_arr::<MetaData>(v, "meta_data") {
            Some(x) => x,
            None => {
                return None;
            },
        };
        let line_items = match get_codec_arr::<CreateLineItem>(v, "line_items") {
            Some(x) => x,
            None => {
                return None;
            },
        };
        let customer_id = match get_i32(v, "customer_id") {
            Some(x) => x,
            None => {
                return None;
            },
        };
        let coupon_lines = match get_codec_arr::<CouponLineCreate>(v, "coupon_lines") {
            Some(x) => x,
            None => {
                return None;
            },
        };
        Some(CreateOrder {
            set_paid,
            billing,
            meta_data,
            line_items,
            customer_id,
            coupon_lines,
        })
    }
}

impl JsonCodec for Order {
    open spec fn jv(self) -> JsonV {
        JsonV::Obj(
            seq![
                ("id"@, JsonV::Num(dec_of(self.id as int))),
                ("parent_id"@, JsonV::Num(dec_of(self.parent_id as int))),
                ("status"@, self.status.jv()),
                ("currency"@, JsonV::Str(self.currency@)),
                ("version"@, JsonV::Str(self.version@)),
                ("prices_include_tax"@, JsonV::Bool(self.prices_include_tax)),
                ("date_created"@, JsonV::Str(self.date_created@)),
                ("date_modified"@, JsonV::Str(self.date_modified@)),
                ("discount_total"@, JsonV::Str(self.discount_total@)),
                ("discount_tax"@, JsonV::Str(self.discount_tax@)),
                ("shipping_total"@, JsonV::Str(self.shipping_total@)),
                ("shipping_tax"@, JsonV::Str(self.shipping_tax@)),
                ("cart_tax"@, JsonV::Str(self.cart_tax@)),
                ("total"@, JsonV::Str(self.total@)),
                ("total_tax"@, JsonV::Str(self.total_tax@)),
                ("customer_id"@, JsonV::Num(dec_of(self.customer_id as int))),
                ("order_key"@, JsonV::Str(self.order_key@)),
                ("billing"@, self.billing.jv()),
                ("shipping"@, self.shipping.jv()),
                ("payment_method"@, JsonV::Str(self.payment_method@)),
                ("payment_method_title"@, JsonV::Str(self.payment_method_title@)),
                ("transaction_id"@, JsonV::Str(self.transaction_id@)),
                ("customer_ip_address"@, JsonV::Str(self.customer_ip_address@)),
                ("customer_user_agent"@, JsonV::Str(self.customer_user_agent@)),
                ("created_via"@, JsonV::Str(self.created_via@)),
                ("customer_note"@, JsonV::Str(self.customer_note@)),
                ("date_completed"@, opt_str_jv(self.date_completed)),
                ("date_paid"@, opt_str_jv(self.date_paid)),
                ("cart_hash"@, JsonV::Str(self.cart_hash@)),
                ("number"@, JsonV::Str(self.number@)),
                ("meta_data"@, JsonV::Arr(seq_jv_of(self.meta_data@))),
                ("line_items"@, JsonV::Arr(seq_jv_of(self.line_items@))),
                ("tax_lines"@, JsonV::Arr(seq_jv_of(self.tax_lines@))),
                ("shipping_lines"@, JsonV::Arr(seq_jv_of(self.shipping_lines@))),
                ("fee_lines"@, JsonV::Arr(seq_jv_of(self.fee_lines@))),
                ("coupon_lines"@, JsonV::Arr(seq_jv_of(self.coupon_lines@))),
                ("refunds"@, JsonV::Arr(seq_jv_of(self.refunds@))),
                ("payment_url"@, JsonV::Str(self.payment_url@)),
                ("is_editable"@, JsonV::Bool(self.is_editable)),
                ("needs_payment"@, JsonV::Bool(self.needs_payment)),
                ("needs_processing"@, JsonV::Bool(self.needs_processing)),
                ("date_created_gmt"@, JsonV::Str(self.date_created_gmt@)),
                ("date_modified_gmt"@, JsonV::Str(self.date_modified_gmt@)),
                ("date_completed_gmt"@, opt_str_jv(self.date_completed_gmt)),
                ("date_paid_gmt"@, opt_str_jv(self.date_paid_gmt)),
                ("gift_cards"@, opt_seq_jv_of(self.gift_cards)),
                ("currency_symbol"@, JsonV::Str(self.currency_symbol@)),
                ("_links"@, self._links.jv()),
            ],
        )
    }

    open spec fn agrees(self, j: JsonV) -> bool {
        &&& sp_get_i32(j, "id"@) == Some(self.id as int)
        &&& sp_get_i32(j, "parent_id"@) == Some(self.parent_id as int)
        &&& match jv_get(j, "status"@) {
            Some(fj) => self.status.agrees(fj),
            None => false,
        }
        &&& sp_get_str(j, "currency"@) == Some(self.currency@)
        &&& sp_get_str(j, "version"@) == Some(self.version@)
        &&& sp_get_bool(j, "prices_include_tax"@) == Some(self.prices_include_tax)
        &&& sp_get_str(j, "date_created"@) == Some(self.date_created@)
        &&& sp_get_str(j, "date_modified"@) == Some(self.date_modified@)
        &&& sp_get_str(j, "discount_total"@) == Some(self.discount_total@)
        &&& sp_get_str(j, "discount_tax"@) == Some(self.discount_tax@)
        &&& sp_get_str(j, "shipping_total"@) == Some(self.shipping_total@)
        &&& sp_get_str(j, "shipping_tax"@) == Some(self.shipping_tax@)
        &&& sp_get_str(j, "cart_tax"@) == Some(self.cart_tax@)
        &&& sp_get_str(j, "total"@) == Some(self.total@)
        &&& sp_get_str(j, "total_tax"@) == Some(self.total_tax@)
        &&& sp_get_i32(j, "customer_id"@) == Some(self.customer_id as int)
        &&& sp_get_str(j, "order_key"@) == Some(self.order_key@)
        &&& match jv_get(j, "billing"@) {
            Some(fj) => self.billing.agrees(fj),
            None => false,
        }
        &&& match jv_get(j, "shipping"@) {
            Some(fj) => self.shipping.agrees(fj),
            None => false,
        }
        &&& sp_get_str(j, "payment_method"@) == Some(self.payment_method@)
        &&& sp_get_str(j, "payment_method_title"@) == Some(self.payment_method_title@)
        &&& sp_get_str(j, "transaction_id"@) == Some(self.transaction_id@)
        &&& sp_get_str(j, "customer_ip_address"@) == Some(self.customer_ip_address@)
        &&& sp_get_str(j, "customer_user_agent"@) == Some(self.customer_user_agent@)
        &&& sp_get_str(j, "created_via"@) == Some(self.created_via@)
        &&& sp_get_str(j, "customer_note"@) == Some(self.customer_note@)
        &&& sp_get_opt_str(j, "date_completed"@) == Some(opt_str_view(self.date_completed))
        &&& sp_get_opt_str(j, "date_paid"@) == Some(opt_str_view(self.date_paid))
        &&& sp_get_str(j, "cart_hash"@) == Some(self.cart_hash@)
        &&& sp_get_str(j, "number"@) == Some(self.number@)
        &&& match sp_get_arr(j, "meta_data"@) {
            Some(items) => all_agree(self.meta_data@, items),
            None => false,
        }
        &&& match sp_get_arr(j, "line_items"@) {
            Some(items) => all_agree(self.line_items@, items),
            None => false,
        }
        &&& match sp_get_arr(j, "tax_lines"@) {
            Some(items) => all_agree(self.tax_lines@, items),
            None => false,
        }
        &&& match sp_get_arr(j, "shipping_lines"@) {
            Some(items) => all_agree(self.shipping_lines@, items),
            None => false,
        }
        &&& match sp_get_arr(j, "fee_lines"@) {
            Some(items) => all_agree(self.fee_lines@, items),
            None => false,
        }
        &&& match sp_get_arr(j, "coupon_lines"@) {
            Some(items) => all_agree(self.coupon_lines@, items),
            None => false,
        }
        &&& match sp_get_arr(j, "refunds"@) {
            Some(items) => all_agree(self.refunds@, items),
            None => false,
        }
        &&& sp_get_str(j, "payment_url"@) == Some(self.payment_url@)
        &&& sp_get_bool(j, "is_editable"@) == Some(self.is_editable)
        &&& sp_get_bool(j, "needs_payment"@) == Some(self.needs_payment)
        &&& sp_get_bool(j, "needs_processing"@) == Some(self.needs_processing)
        &&& sp_get_str(j, "date_created_gmt"@) == Some(self.date_created_gmt@)
        &&& sp_get_str(j, "date_modified_gmt"@) == Some(self.date_modified_gmt@)
        &&& sp_get_opt_str(j, "date_completed_gmt"@) == Some(opt_str_view(self.date_completed_gmt))
        &&& sp_get_opt_str(j, "date_paid_gmt"@) == Some(opt_str_view(self.date_paid_gmt))
        &&& match sp_get_opt_arr(j, "gift_cards"@) {
            Some(Some(items)) => self.gift_cards matches Some(xs) && all_agree(xs@, items),
            Some(None) => self.gift_cards is None,
            None => false,
        }
        &&& sp_get_str(j, "currency_symbol"@) == Some(self.currency_symbol@)
        &&& match jv_get(j, "_links"@) {
            Some(fj) => self._links.agrees(fj),
            None => false,
        }
    }

    open spec fn shape_ok(j: JsonV) -> bool {
        &&& sp_get_i32(j, "id"@) is Some
        &&& sp_get_i32(j, "parent_id"@) is Some
        &&& match jv_get(j, "status"@) {
            Some(fj) => OrderStatus::shape_ok(fj),
            None => false,
        }
        &&& sp_get_str(j, "currency"@) is Some
        &&& sp_get_str(j, "version"@) is Some
        &&& sp_get_bool(j, "prices_include_tax"@) is Some
        &&& sp_get_str(j, "date_created"@) is Some
        &&& sp_get_str(j, "date_modified"@) is Some
        &&& sp_get_str(j, "discount_total"@) is Some
        &&& sp_get_str(j, "discount_tax"@) is Some
        &&& sp_get_str(j, "shipping_total"@) is Some
        &&& sp_get_str(j, "shipping_tax"@) is Some
        &&& sp_get_str(j, "cart_tax"@) is Some
        &&& sp_get_str(j, "total"@) is Some
        &&& sp_get_str(j, "total_tax"@) is Some
        &&& sp_get_i32(j, "customer_id"@) is Some
        &&& sp_get_str(j, "order_key"@) is Some
        &&& match jv_get(j, "billing"@) {
            Some(fj) => ContactDetails::shape_ok(fj),
            None => false,
        }
        &&& match jv_get(j, "shipping"@) {
            Some(fj) => ContactDetails::shape_ok(fj),
            None => false,
        }
        &&& sp_get_str(j, "payment_method"@) is Some
        &&& sp_get_str(j, "payment_method_title"@) is Some
        &&& sp_get_str(j, "transaction_id"@) is Some
        &&& sp_get_str(j, "customer_ip_address"@) is Some
        &&& sp_get_str(j, "customer_user_agent"@) is Some
        &&& sp_get_str(j, "created_via"@) is Some
        &&& sp_get_str(j, "customer_note"@) is Some
        &&& sp_get_opt_str(j, "date_completed"@) is Some
        &&& sp_get_opt_str(j, "date_paid"@) is Some
        &&& sp_get_str(j, "cart_hash"@) is Some
        &&& sp_get_str(j, "number"@) is Some
        &&& match sp_get_arr(j, "meta_data"@) {
            Some(items) => all_shape_ok::<MetaData>(items),
            None => false,
        }
        &&& match sp_get_arr(j, "line_items"@) {
            Some(items) => all_shape_ok::<LineItem>(items),
            None => false,
        }
        &&& match sp_get_arr(j, "tax_lines"@) {
            Some(items) => all_shape_ok::<TaxLine>(items),
            None => false,
        }
        &&& match sp_get_arr(j, "shipping_lines"@) {
            Some(items) => all_shape_ok::<ShippingLine>(items),
            None => false,
        }
        &&& match sp_get_arr(j, "fee_lines"@) {
            Some(items) => all_shape_ok::<FeeLine>(items),
            None => false,
        }
        &&& match sp_get_arr(j, "coupon_lines"@) {
            Some(items) => all_shape_ok::<CouponLine>(items),
            None => false,
        }
        &&& match sp_get_arr(j, "refunds"@) {
            Some(items) => all_shape_ok::<Refund>(items),
            None => false,
        }
        &&& sp_get_str(j, "payment_url"@) is Some
        &&& sp_get_bool(j, "is_editable"@) is Some
        &&& sp_get_bool(j, "needs_payment"@) is Some
        &&& sp_get_bool(j, "needs_processing"@) is Some
        &&& sp_get_str(j, "date_created_gmt"@) is Some
        &&& sp_get_str(j, "date_modified_gmt"@) is Some
        &&& sp_get_opt_str(j, "date_completed_gmt"@) is Some
        &&& sp_get_opt_str(j, "date_paid_gmt"@) is Some
        &&& match sp_get_opt_arr(j, "gift_cards"@) {
            Some(Some(items)) => all_shape_ok::<GiftCard>(items),
            Some(None) => true,
            None => false,
        }
        &&& sp_get_str(j, "currency_symbol"@) is Some
        &&& match jv_get(j, "_links"@) {
            Some(fj) => Links::shape_ok(fj),
            None => false,
        }
    }

    #[verifier::rlimit(100)]
    fn to_json(&self) -> (r: JsonValue) {
        let mut fields: Vec<(String, JsonValue)> = Vec::new();
        push_field(&mut fields, "id", num_i64(self.id as i64));
        push_field(&mut fields, "parent_id", num_i64(self.parent_id as i64));
        push_field(&mut fields, "status", self.status.to_json());
        push_field(&mut fields, "currency", str_value(self.currency.as_str()));
        push_field(&mut fields, "version", str_value(self.version.as_str()));
        push_field(&mut fields, "prices_include_tax", JsonValue::Bool(self.prices_include_tax));
        push_field(&mut fields, "date_created", str_value(self.date_created.as_str()));
        push_field(&mut fields, "date_modified", str_value(self.date_modified.as_str()));
        push_field(&mut fields, "discount_total", str_value(self.discount_total.as_str()));
        push_field(&mut fields, "discount_tax", str_value(self.discount_tax.as_str()));
        push_field(&mut fields, "shipping_total", str_value(self.shipping_total.as_str()));
        push_field(&mut fields, "shipping_tax", str_value(self.shipping_tax.as_str()));
        push_field(&mut fields, "cart_tax", str_value(self.cart_tax.as_str()));
        push_field(&mut fields, "total", str_value(self.total.as_str()));
        push_field(&mut fields, "total_tax", str_value(self.total_tax.as_str()));
        push_field(&mut fields, "customer_id", num_i64(self.customer_id as i64));
        push_field(&mut fields, "order_key", str_value(self.order_key.as_str()));
        push_field(&mut fields, "billing", self.billing.to_json());
        push_field(&mut fields, "shipping", self.shipping.to_json());
        push_field(&mut fields, "payment_method", str_value(self.payment_method.as_str()));
        push_field(&mut fields, "payment_method_title", str_value(self.payment_method_title.as_str()));
        push_field(&mut fields, "transaction_id", str_value(self.transaction_id.as_str()));
        push_field(&mut fields, "customer_ip_address", str_value(self.customer_ip_address.as_str()));
        push_field(&mut fields, "customer_user_agent", str_value(self.customer_user_agent.as_str()));
        push_field(&mut fields, "created_via", str_value(self.created_via.as_str()));
        push_field(&mut fields, "customer_note", str_value(self.customer_note.as_str()));
        push_field(&mut fields, "date_completed", opt_str_value(&self.date_completed));
        push_field(&mut fields, "date_paid", opt_str_value(&self.date_paid));
        push_field(&mut fields, "cart_hash", str_value(self.cart_hash.as_str()));
        push_field(&mut fields, "number", str_value(self.number.as_str()));
        push_field(&mut fields, "meta_data", vec_to_json(&self.meta_data));
        push_field(&mut fields, "line_items", vec_to_json(&self.line_items));
        push_field(&mut fields, "tax_lines", vec_to_json(&self.tax_lines));
        push_field(&mut fields, "shipping_lines", vec_to_json(&self.shipping_lines));
        push_field(&mut fields, "fee_lines", vec_to_json(&self.fee_lines));
        push_field(&mut fields, "coupon_lines", vec_to_json(&self.coupon_lines));
        push_field(&mut fields, "refunds", vec_to_json(&self.refunds));
        push_field(&mut fields, "payment_url", str_value(self.payment_url.as_str()));
        push_field(&mut fields, "is_editable", JsonValue::Bool(self.is_editable));
        push_field(&mut fields, "needs_payment", JsonValue::Bool(self.needs_payment));
        push_field(&mut fields, "needs_processing", JsonValue::Bool(self.needs_processing));
        push_field(&mut fields, "date_created_gmt", str_value(self.date_created_gmt.as_str()));
        push_field(&mut fields, "date_modified_gmt", str_value(self.date_modified_gmt.as_str()));
        push_field(&mut fields, "date_completed_gmt", opt_str_value(&self.date_completed_gmt));
        push_field(&mut fields, "date_paid_gmt", opt_str_value(&self.date_paid_gmt));
        push_field(&mut fields, "gift_cards", opt_vec_to_json(&self.gift_cards));
        push_field(&mut fields, "currency_symbol", str_value(self.currency_symbol.as_str()));
        push_field(&mut fields, "_links", self._links.to_json());
        proof {
            assert(obj_jv(fields@) =~= seq![
                ("id"@, JsonV::Num(dec_of(self.id as int))),
                ("parent_id"@, JsonV::Num(dec_of(self.parent_id as int))),
                ("status"@, self.status.jv()),
                ("currency"@, JsonV::Str(self.currency@)),
                ("version"@, JsonV::Str(self.version@)),
                ("prices_include_tax"@, JsonV::Bool(self.prices_include_tax)),
                ("date_created"@, JsonV::Str(self.date_created@)),
                ("date_modified"@, JsonV::Str(self.date_modified@)),
                ("discount_total"@, JsonV::Str(self.discount_total@)),
                ("discount_tax"@, JsonV::Str(self.discount_tax@)),
                ("shipping_total"@, JsonV::Str(self.shipping_total@)),
                ("shipping_tax"@, JsonV::Str(self.shipping_tax@)),
                ("cart_tax"@, JsonV::Str(self.cart_tax@)),
                ("total"@, JsonV::Str(self.total@)),
                ("total_tax"@, JsonV::Str(self.total_tax@)),
                ("customer_id"@, JsonV::Num(dec_of(self.customer_id as int))),
                ("order_key"@, JsonV::Str(self.order_key@)),
                ("billing"@, self.billing.jv()),
                ("shipping"@, self.shipping.jv()),
                ("payment_method"@, JsonV::Str(self.payment_method@)),
                ("payment_method_title"@, JsonV::Str(self.payment_method_title@)),
                ("transaction_id"@, JsonV::Str(self.transaction_id@)),
                ("customer_ip_address"@, JsonV::Str(self.customer_ip_address@)),
                ("customer_user_agent"@, JsonV::Str(self.customer_user_agent@)),
                ("created_via"@, JsonV::Str(self.created_via@)),
                ("customer_note"@, JsonV::Str(self.customer_note@)),
                ("date_completed"@, opt_str_jv(self.date_completed)),
                ("date_paid"@, opt_str_jv(self.date_paid)),
                ("cart_hash"@, JsonV::Str(self.cart_hash@)),
                ("number"@, JsonV::Str(self.number@)),
                ("meta_data"@, JsonV::Arr(seq_jv_of(self.meta_data@))),
                ("line_items"@, JsonV::Arr(seq_jv_of(self.line_items@))),
                ("tax_lines"@, JsonV::Arr(seq_jv_of(self.tax_lines@))),
                ("shipping_lines"@, JsonV::Arr(seq_jv_of(self.shipping_lines@))),
                ("fee_lines"@, JsonV::Arr(seq_jv_of(self.fee_lines@))),
                ("coupon_lines"@, JsonV::Arr(seq_jv_of(self.coupon_lines@))),
                ("refunds"@, JsonV::Arr(seq_jv_of(self.refunds@))),
                ("payment_url"@, JsonV::Str(self.payment_url@)),
                ("is_editable"@, JsonV::Bool(self.is_editable)),
                ("needs_payment"@, JsonV::Bool(self.needs_payment)),
                ("needs_processing"@, JsonV::Bool(self.needs_processing)),
                ("date_created_gmt"@, JsonV::Str(self.date_created_gmt@)),
                ("date_modified_gmt"@, JsonV::Str(self.date_modified_gmt@)),
                ("date_completed_gmt"@, opt_str_jv(self.date_completed_gmt)),
                ("date_paid_gmt"@, opt_str_jv(self.date_paid_gmt)),
                ("gift_cards"@, opt_seq_jv_of(self.gift_cards)),
                ("currency_symbol"@, JsonV::Str(self.currency_symbol@)),
                ("_links"@, self._links.jv()),
            ]);
        }
        JsonValue::Obj(fields)
    }

    #[verifier::rlimit(100)]
    fn from_json(v: &JsonValue) -> (r: Option<Order>) {
        let id = match get_i32(v, "id") {
            Some(x) => x,
            None => {
                return None;
            },
        };
        let parent_id = match get_i32(v, "parent_id") {
            Some(x) => x,
            None => {
                return None;
            },
        };
        let status = match v.get("status") {
            Some(fj) => match OrderStatus::from_json(fj) {
                Some(x) => x,
                None => {
                    return None;
                },
            },
            None => {
                return None;
            },
        };
        let currency = match get_string(v, "currency") {
            Some(x) => x,
            None => {
                return None;
            },
        };
        let version = match get_string(v, "version") {
            Some(x) => x,
            None => {
                return None;
            },
        };
        let prices_include_tax = match get_bool(v, "prices_include_tax") {
            Some(x) => x,
            None => {
                return None;
            },
        };
        let date_created = match get_string(v, "date_created") {
            Some(x) => x,
            None => {
                return None;
            },
        };
        let date_modified = match get_string(v, "date_modified") {
            Some(x) => x,
            None => {
                return None;
            },
        };
        let discount_total = match get_string(v, "discount_total") {
            Some(x) => x,
            None => {
                return None;
            },
        };
        let discount_tax = match get_string(v, "discount_tax") {
            Some(x) => x,
            None => {
                return None;
            },
        };
        let shipping_total = match get_string(v, "shipping_total") {
            Some(x) => x,
            None => {
                return None;
            },
        };
        let shipping_tax = match get_string(v, "shipping_tax") {
            Some(x) => x,
            None => {
                return None;
            },
        };
        let cart_tax = match get_string(v, "cart_tax") {
            Some(x) => x,
            None => {
                return None;
            },
        };
        let total = match get_string(v, "total") {
            Some(x) => x,
            None => {
                return None;
            },
        };
        let total_tax = match get_string(v, "total_tax") {
            Some(x) => x,
            None => {
                return None;
            },
        };
        let customer_id = match get_i32(v, "customer_id") {
            Some(x) => x,
            None => {
                return None;
            },
        };
        let order_key = match get_string(v, "order_key") {
            Some(x) => x,
            None => {
                return None;
            },
        };
        let billing = match v.get("billing") {
            Some(fj) => match ContactDetails::from_json(fj) {
                Some(x) => x,
                None => {
                    return None;
                },
            },
            None => {
                return None;
            },
        };
        let shipping = match v.get("shipping") {
            Some(fj) => match ContactDetails::from_json(fj) {
                Some(x) => x,
                None => {
                    return None;
                },
            },
            None => {
                return None;
            },
        };
        let payment_method = match get_string(v, "payment_method") {
            Some(x) => x,
            None => {
                return None;
            },
        };
        let payment_method_title = match get_string(v, "payment_method_title") {
            Some(x) => x,
            None => {
                return None;
            },
        };
        let transaction_id = match get_string(v, "transaction_id") {
            Some(x) => x,
            None => {
                return None;
            },
        };
        let customer_ip_address = match get_string(v, "customer_ip_address") {
            Some(x) => x,
            None => {
                return None;
            },
        };
        let customer_user_agent = match get_string(v, "customer_user_agent") {
            Some(x) => x,
            None => {
                return None;
            },
        };
        let created_via = match get_string(v, "created_via") {
            Some(x) => x,
            None => {
                return None;
            },
        };
        let customer_note = match get_string(v, "customer_note") {
            Some(x) => x,
            None => {
                return None;
            },
        };
        let date_completed = match get_opt_string(v, "date_completed") {
            Some(x) => x,
            None => {
                return None;
            },
        };
        let date_paid = match get_opt_string(v, "date_paid") {
            Some(x) => x,
            None => {
                return None;
            },
        };
        let cart_hash = match get_string(v, "cart_hash") {
            Some(x) => x,
            None => {
                return None;
            },
        };
        let number = match get_string(v, "number") {
            Some(x) => x,
            None => {
                return None;
            },
        };
        let meta_data = match get_codec_arr::<MetaData>(v, "meta_data") {
            Some(x) => x,
            None => {
                return None;
            },
        };
        let line_items = match get_codec_arr::<LineItem>(v, "line_items") {
            Some(x) => x,
            None => {
                return None;
            },
        };
        let tax_lines = match get_codec_arr::<TaxLine>(v, "tax_lines") {
            Some(x) => x,
            None => {
                return None;
            },
        };
        let shipping_lines = match get_codec_arr::<ShippingLine>(v, "shipping_lines") {
            Some(x) => x,
            None => {
                return None;
            },
        };
        let fee_lines = match get_codec_arr::<FeeLine>(v, "fee_lines") {
            Some(x) => x,
            None => {
                return None;
            },
        };
        let coupon_lines = match get_codec_arr::<CouponLine>(v, "coupon_lines") {
            Some(x) => x,
            None => {
                return None;
            },
        };
        let refunds = match get_codec_arr::<Refund>(v, "refunds") {
            Some(x) => x,
            None => {
                return None;
            },
        };
        let payment_url = match get_string(v, "payment_url") {
            Some(x) => x,
            None => {
                return None;
            },
        };
        let is_editable = match get_bool(v, "is_editable") {
            Some(x) => x,
            None => {
                return None;
            },
        };
        let needs_payment = match get_bool(v, "needs_payment") {
            Some(x) => x,
            None => {
                return None;
            },
        };
        let needs_processing = match get_bool(v, "needs_processing") {
            Some(x) => x,
            None => {
                return None;
            },
        };
        let date_created_gmt = match get_string(v, "date_created_gmt") {
            Some(x) => x,
            None => {
                return None;
            },
        };
        let date_modified_gmt = match get_string(v, "date_modified_gmt") {
            Some(x) => x,
            None => {
                return None;
            },
        };
        let date_completed_gmt = match get_opt_string(v, "date_completed_gmt") {
            Some(x) => x,
            None => {
                return None;
            },
        };
        let date_paid_gmt = match get_opt_string(v, "date_paid_gmt") {
            Some(x) => x,
            None => {
                return None;
            },
        };
        let gift_cards = match get_opt_codec_arr::<GiftCard>(v, "gift_cards") {
            Some(x) => x,
            None => {
                return None;
            },
        };
        let currency_symbol = match get_string(v, "currency_symbol") {
            Some(x) => x,
            None => {
                return None;
            },
        };
        let _links = match v.get("_links") {
            Some(fj) => match Links::from_json(fj) {
                Some(x) => x,
                None => {
                    return None;
                },
            },
            None => {
                return None;
            },
        };
        Some(Order {
            id,
            parent_id,
            status,
            currency,
            version,
            prices_include_tax,
            date_created,
            date_modified,
            discount_total,
            discount_tax,
            shipping_total,
            shipping_tax,
            cart_tax,
            total,
            total_tax,
            customer_id,
            order_key,
            billing,
            shipping,
            payment_method,
            payment_method_title,
            transaction_id,
            customer_ip_address,
            customer_user_agent,
            created_via,
            customer_note,
            date_completed,
            date_paid,
            cart_hash,
            number,
            meta_data,
            line_items,
            tax_lines,
            shipping_lines,
            fee_lines,
            coupon_lines,
            refunds,
            payment_url,
            is_editable,
            needs_payment,
            needs_processing,
            date_created_gmt,
            date_modified_gmt,
            date_completed_gmt,
            date_paid_gmt,
            gift_cards,
            currency_symbol,
            _links,
        })
    }
}

} // verus!
