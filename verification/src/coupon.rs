//! The coupon resource: creation payload, full record, and the update
//! record derived from it.  The update record omits the immutable `code`
//! field, which the remote API rejects on update.

use vstd::prelude::*;

use crate::codec::{
    all_agree, all_i32, all_shape_ok, all_str, arr_of_i32, arr_of_strings, get_bool,
    get_codec_arr, get_i32, get_i32_arr, get_opt_i32, get_opt_string, get_string,
    get_string_arr, i32_seq_jv, i32s_agree, num_i64, opt_i32_jv, opt_i32_value, opt_i32_view, opt_str_jv,
    opt_str_value, opt_str_view, push_field, seq_jv_of, sp_get_arr, sp_get_bool, sp_get_i32, sp_get_opt_i32,
    sp_get_opt_str, sp_get_str, str_seq_jv, str_value, strs_agree, vec_to_json, JsonCodec,
};
use crate::chars::{dec_of, str_eq};
use crate::common::{
    lemma_links_roundtrip, lemma_meta_roundtrip, links_eqv, meta_seq_eqv, Links, MetaData,
};
use crate::codec::jv_i32;
use crate::json::{jv_get, obj_jv, JsonV, JsonValue};

verus! {

broadcast use vstd::string::group_string_axioms;

/// How a coupon discounts: a fixed cart amount (the default), a
/// percentage, or a fixed per-product amount.
#[derive(Debug, PartialEq, Eq)]
pub enum DiscountType {
    FixedCart,
    Percent,
    FixedProduct,
}

impl Default for DiscountType {
    /// The default discount type is a fixed cart amount.
    fn default() -> (r: DiscountType)
        ensures
            r == DiscountType::FixedCart,
    {
        DiscountType::FixedCart
    }
}

impl DiscountType {
    /// The wire tag of each variant.
    pub open spec fn tag(self) -> Seq<char> {
        match self {
            DiscountType::FixedCart => "fixed_cart"@,
            DiscountType::Percent => "percent"@,
            DiscountType::FixedProduct => "fixed_product"@,
        }
    }
}

impl JsonCodec for DiscountType {
    open spec fn jv(self) -> JsonV {
        JsonV::Str(self.tag())
    }

    open spec fn agrees(self, j: JsonV) -> bool {
        j == JsonV::Str(self.tag())
    }

    open spec fn shape_ok(j: JsonV) -> bool {
        j == JsonV::Str("fixed_cart"@) || j == JsonV::Str("percent"@) || j == JsonV::Str(
            "fixed_product"@,
        )
    }

    fn to_json(&self) -> (r: JsonValue) {
        match self {
            DiscountType::FixedCart => str_value("fixed_cart"),
            DiscountType::Percent => str_value("percent"),
            DiscountType::FixedProduct => str_value("fixed_product"),
        }
    }

    /// Decoding fails on any unrecognized tag rather than defaulting.
    fn from_json(v: &JsonValue) -> (r: Option<DiscountType>) {
        let s = match v.as_string() {
            Some(s) => s,
            None => {
                return None;
            },
        };
        if str_eq(s.as_str(), "fixed_cart") {
            Some(DiscountType::FixedCart)
        } else if str_eq(s.as_str(), "percent") {
            Some(DiscountType::Percent)
        } else if str_eq(s.as_str(), "fixed_product") {
            Some(DiscountType::FixedProduct)
        } else {
            None
        }
    }
}

/// A discount type's encoding decodes, and only to the same variant.
pub proof fn lemma_discount_roundtrip(x: DiscountType, y: DiscountType)
    ensures
        DiscountType::shape_ok(x.jv()),
        y.agrees(x.jv()) ==> y == x,
{
    reveal_strlit("fixed_cart");
    reveal_strlit("percent");
    reveal_strlit("fixed_product");
    assert("fixed_cart"@.len() == 10);
    assert("percent"@.len() == 7);
    assert("fixed_product"@.len() == 13);
}

/// The minimal payload for creating a coupon.
#[derive(Debug)]
pub struct CreateCoupon {
    pub code: String,
    pub amount: String,
    pub discount_type: DiscountType,
    pub description: String,
    pub date_expires_gmt: Option<String>,
    pub individual_use: bool,
    pub product_ids: Vec<i32>,
    pub usage_limit: Option<i32>,
    pub usage_limit_per_user: Option<i32>,
    pub limit_usage_to_x_items: Option<i32>,
}

/// A coupon record, as the remote API returns it.
#[derive(Debug)]
pub struct Coupon {
    pub id: i32,
    pub code: String,
    pub amount: String,
    pub date_created: String,
    pub date_created_gmt: String,
    pub date_modified: String,
    pub date_modified_gmt: String,
    pub discount_type: DiscountType,
    pub description: String,
    pub date_expires: Option<String>,
    pub date_expires_gmt: Option<String>,
    pub usage_count: i32,
    pub individual_use: bool,
    pub product_ids: Vec<i32>,
    pub excluded_product_ids: Vec<i32>,
    pub usage_limit: Option<i32>,
    pub usage_limit_per_user: Option<i32>,
    pub limit_usage_to_x_items: Option<i32>,
    pub free_shipping: bool,
    pub product_categories: Vec<i32>,
    pub excluded_product_categories: Vec<i32>,
    pub exclude_sale_items: bool,
    pub minimum_amount: String,
    pub maximum_amount: String,
    pub email_restrictions: Vec<String>,
    pub used_by: Vec<String>,
    pub meta_data: Vec<MetaData>,
    pub _links: Links,
}

/// The update payload derived from a full coupon record; every field of
/// `Coupon` except the immutable `code`.
#[derive(Debug)]
pub struct UpdateCoupon {
    pub id: i32,
    pub amount: String,
    pub date_created: String,
    pub date_created_gmt: String,
    pub date_modified: String,
    pub date_modified_gmt: String,
    pub discount_type: DiscountType,
    pub description: String,
    pub date_expires: Option<String>,
    pub date_expires_gmt: Option<String>,
    pub usage_count: i32,
    pub individual_use: bool,
    pub product_ids: Vec<i32>,
    pub excluded_product_ids: Vec<i32>,
    pub usage_limit: Option<i32>,
    pub usage_limit_per_user: Option<i32>,
    pub limit_usage_to_x_items: Option<i32>,
    pub free_shipping: bool,
    pub product_categories: Vec<i32>,
    pub excluded_product_categories: Vec<i32>,
    pub exclude_sale_items: bool,
    pub minimum_amount: String,
    pub maximum_amount: String,
    pub email_restrictions: Vec<String>,
    pub used_by: Vec<String>,
    pub meta_data: Vec<MetaData>,
    pub _links: Links,
}

impl JsonCodec for CreateCoupon {
    open spec fn jv(self) -> JsonV {
        JsonV::Obj(
            seq![
                ("code"@, JsonV::Str(self.code@)),
                ("amount"@, JsonV::Str(self.amount@)),
                ("discount_type"@, self.discount_type.jv()),
                ("description"@, JsonV::Str(self.description@)),
                ("date_expires_gmt"@, opt_str_jv(self.date_expires_gmt)),
                ("individual_use"@, JsonV::Bool(self.individual_use)),
                ("product_ids"@, JsonV::Arr(i32_seq_jv(self.product_ids@))),
                ("usage_limit"@, opt_i32_jv(self.usage_limit)),
                ("usage_limit_per_user"@, opt_i32_jv(self.usage_limit_per_user)),
                ("limit_usage_to_x_items"@, opt_i32_jv(self.limit_usage_to_x_items)),
            ],
        )
    }

    open spec fn agrees(self, j: JsonV) -> bool {
        &&& sp_get_str(j, "code"@) == Some(self.code@)
        &&& sp_get_str(j, "amount"@) == Some(self.amount@)
        &&& match jv_get(j, "discount_type"@) {
            Some(fj) => self.discount_type.agrees(fj),
            None => false,
        }
        &&& sp_get_str(j, "description"@) == Some(self.description@)
        &&& sp_get_opt_str(j, "date_expires_gmt"@) == Some(opt_str_view(self.date_expires_gmt))
        &&& sp_get_bool(j, "individual_use"@) == Some(self.individual_use)
        &&& match sp_get_arr(j, "product_ids"@) {
            Some(items) => i32s_agree(self.product_ids@, items),
            None => false,
        }
        &&& sp_get_opt_i32(j, "usage_limit"@) == Some(opt_i32_view(self.usage_limit))
        &&& sp_get_opt_i32(j, "usage_limit_per_user"@) == Some(opt_i32_view(self.usage_limit_per_user))
        &&& sp_get_opt_i32(j, "limit_usage_to_x_items"@) == Some(opt_i32_view(self.limit_usage_to_x_items))
    }

    open spec fn shape_ok(j: JsonV) -> bool {
        &&& sp_get_str(j, "code"@) is Some
        &&& sp_get_str(j, "amount"@) is Some
        &&& match jv_get(j, "discount_type"@) {
            Some(fj) => DiscountType::shape_ok(fj),
            None => false,
        }
        &&& sp_get_str(j, "description"@) is Some
        &&& sp_get_opt_str(j, "date_expires_gmt"@) is Some
        &&& sp_get_bool(j, "individual_use"@) is Some
        &&& match sp_get_arr(j, "product_ids"@) {
            Some(items) => all_i32(items),
            None => false,
        }
        &&& sp_get_opt_i32(j, "usage_limit"@) is Some
        &&& sp_get_opt_i32(j, "usage_limit_per_user"@) is Some
        &&& sp_get_opt_i32(j, "limit_usage_to_x_items"@) is Some
    }

    fn to_json(&self) -> (r: JsonValue) {
        let mut fields: Vec<(String, JsonValue)> = Vec::new();
        push_field(&mut fields, "code", str_value(self.code.as_str()));
        push_field(&mut fields, "amount", str_value(self.amount.as_str()));
        push_field(&mut fields, "discount_type", self.discount_type.to_json());
        push_field(&mut fields, "description", str_value(self.description.as_str()));
        push_field(&mut fields, "date_expires_gmt", opt_str_value(&self.date_expires_gmt));
        push_field(&mut fields, "individual_use", JsonValue::Bool(self.individual_use));
        push_field(&mut fields, "product_ids", arr_of_i32(&self.product_ids));
        push_field(&mut fields, "usage_limit", opt_i32_value(&self.usage_limit));
        push_field(&mut fields, "usage_limit_per_user", opt_i32_value(&self.usage_limit_per_user));
        push_field(&mut fields, "limit_usage_to_x_items", opt_i32_value(&self.limit_usage_to_x_items));
        proof {
            assert(obj_jv(fields@) =~= seq![
                ("code"@, JsonV::Str(self.code@)),
                ("amount"@, JsonV::Str(self.amount@)),
                ("discount_type"@, self.discount_type.jv()),
                ("description"@, JsonV::Str(self.description@)),
                ("date_expires_gmt"@, opt_str_jv(self.date_expires_gmt)),
                ("individual_use"@, JsonV::Bool(self.individual_use)),
                ("product_ids"@, JsonV::Arr(i32_seq_jv(self.product_ids@))),
                ("usage_limit"@, opt_i32_jv(self.usage_limit)),
                ("usage_limit_per_user"@, opt_i32_jv(self.usage_limit_per_user)),
                ("limit_usage_to_x_items"@, opt_i32_jv(self.limit_usage_to_x_items)),
            ]);
        }
        JsonValue::Obj(fields)
    }

    fn from_json(v: &JsonValue) -> (r: Option<CreateCoupon>) {
        let code = match get_string(v, "code") {
            Some(x) => x,
            None => {
                return None;
            },
        };
        let amount = match get_string(v, "amount") {
            Some(x) => x,
            None => {
                return None;
            },
        };
        let discount_type = match v.get("discount_type") {
            Some(fj) => match DiscountType::from_json(fj) {
                Some(x) => x,
                None => {
                    return None;
                },
            },
            None => {
                return None;
            },
        };
        let description = match get_string(v, "description") {
            Some(x) => x,
            None => {
                return None;
            },
        };
        let date_expires_gmt = match get_opt_string(v, "date_expires_gmt") {
            Some(x) => x,
            None => {
                return None;
            },
        };
        let individual_use = match get_bool(v, "individual_use") {
            Some(x) => x,
            None => {
                return None;
            },
        };
        let product_ids = match get_i32_arr(v, "product_ids") {
            Some(x) => x,
            None => {
                return None;
            },
        };
        let usage_limit = match get_opt_i32(v, "usage_limit") {
            Some(x) => x,
            None => {
                return None;
            },
        };
        let usage_limit_per_user = match get_opt_i32(v, "usage_limit_per_user") {
            Some(x) => x,
            None => {
                return None;
            },
        };
        let limit_usage_to_x_items = match get_opt_i32(v, "limit_usage_to_x_items") {
            Some(x) => x,
            None => {
                return None;
            },
        };
        Some(CreateCoupon {
            code,
            amount,
            discount_type,
            description,
            date_expires_gmt,
            individual_use,
            product_ids,
            usage_limit,
            usage_limit_per_user,
            limit_usage_to_x_items,
        })
    }
}

impl JsonCodec for Coupon {
    open spec fn jv(self) -> JsonV {
        JsonV::Obj(
            seq![
                ("id"@, JsonV::Num(dec_of(self.id as int))),
                ("code"@, JsonV::Str(self.code@)),
                ("amount"@, JsonV::Str(self.amount@)),
                ("date_created"@, JsonV::Str(self.date_created@)),
                ("date_created_gmt"@, JsonV::Str(self.date_created_gmt@)),
                ("date_modified"@, JsonV::Str(self.date_modified@)),
                ("date_modified_gmt"@, JsonV::Str(self.date_modified_gmt@)),
                ("discount_type"@, self.discount_type.jv()),
                ("description"@, JsonV::Str(self.description@)),
                ("date_expires"@, opt_str_jv(self.date_expires)),
                ("date_expires_gmt"@, opt_str_jv(self.date_expires_gmt)),
                ("usage_count"@, JsonV::Num(dec_of(self.usage_count as int))),
                ("individual_use"@, JsonV::Bool(self.individual_use)),
                ("product_ids"@, JsonV::Arr(i32_seq_jv(self.product_ids@))),
                ("excluded_product_ids"@, JsonV::Arr(i32_seq_jv(self.excluded_product_ids@))),
                ("usage_limit"@, opt_i32_jv(self.usage_limit)),
                ("usage_limit_per_user"@, opt_i32_jv(self.usage_limit_per_user)),
                ("limit_usage_to_x_items"@, opt_i32_jv(self.limit_usage_to_x_items)),
                ("free_shipping"@, JsonV::Bool(self.free_shipping)),
                ("product_categories"@, JsonV::Arr(i32_seq_jv(self.product_categories@))),
                ("excluded_product_categories"@, JsonV::Arr(i32_seq_jv(self.excluded_product_categories@))),
                ("exclude_sale_items"@, JsonV::Bool(self.exclude_sale_items)),
                ("minimum_amount"@, JsonV::Str(self.minimum_amount@)),
                ("maximum_amount"@, JsonV::Str(self.maximum_amount@)),
                ("email_restrictions"@, JsonV::Arr(str_seq_jv(self.email_restrictions@))),
                ("used_by"@, JsonV::Arr(str_seq_jv(self.used_by@))),
                ("meta_data"@, JsonV::Arr(seq_jv_of(self.meta_data@))),
                ("_links"@, self._links.jv()),
            ],
        )
    }

    open spec fn agrees(self, j: JsonV) -> bool {
        &&& sp_get_i32(j, "id"@) == Some(self.id as int)
        &&& sp_get_str(j, "code"@) == Some(self.code@)
        &&& sp_get_str(j, "amount"@) == Some(self.amount@)
        &&& sp_get_str(j, "date_created"@) == Some(self.date_created@)
        &&& sp_get_str(j, "date_created_gmt"@) == Some(self.date_created_gmt@)
        &&& sp_get_str(j, "date_modified"@) == Some(self.date_modified@)
        &&& sp_get_str(j, "date_modified_gmt"@) == Some(self.date_modified_gmt@)
        &&& match jv_get(j, "discount_type"@) {
            Some(fj) => self.discount_type.agrees(fj),
            None => false,
        }
        &&& sp_get_str(j, "description"@) == Some(self.description@)
        &&& sp_get_opt_str(j, "date_expires"@) == Some(opt_str_view(self.date_expires))
        &&& sp_get_opt_str(j, "date_expires_gmt"@) == Some(opt_str_view(self.date_expires_gmt))
        &&& sp_get_i32(j, "usage_count"@) == Some(self.usage_count as int)
        &&& sp_get_bool(j, "individual_use"@) == Some(self.individual_use)
        &&& match sp_get_arr(j, "product_ids"@) {
            Some(items) => i32s_agree(self.product_ids@, items),
            None => false,
        }
        &&& match sp_get_arr(j, "excluded_product_ids"@) {
            Some(items) => i32s_agree(self.excluded_product_ids@, items),
            None => false,
        }
        &&& sp_get_opt_i32(j, "usage_limit"@) == Some(opt_i32_view(self.usage_limit))
        &&& sp_get_opt_i32(j, "usage_limit_per_user"@) == Some(opt_i32_view(self.usage_limit_per_user))
        &&& sp_get_opt_i32(j, "limit_usage_to_x_items"@) == Some(opt_i32_view(self.limit_usage_to_x_items))
        &&& sp_get_bool(j, "free_shipping"@) == Some(self.free_shipping)
        &&& match sp_get_arr(j, "product_categories"@) {
            Some(items) => i32s_agree(self.product_categories@, items),
            None => false,
        }
        &&& match sp_get_arr(j, "excluded_product_categories"@) {
            Some(items) => i32s_agree(self.excluded_product_categories@, items),
            None => false,
        }
        &&& sp_get_bool(j, "exclude_sale_items"@) == Some(self.exclude_sale_items)
        &&& sp_get_str(j, "minimum_amount"@) == Some(self.minimum_amount@)
        &&& sp_get_str(j, "maximum_amount"@) == Some(self.maximum_amount@)
        &&& match sp_get_arr(j, "email_restrictions"@) {
            Some(items) => strs_agree(self.email_restrictions@, items),
            None => false,
        }
        &&& match sp_get_arr(j, "used_by"@) {
            Some(items) => strs_agree(self.used_by@, items),
            None => false,
        }
        &&& match sp_get_arr(j, "meta_data"@) {
            Some(items) => all_agree(self.meta_data@, items),
            None => false,
        }
        &&& match jv_get(j, "_links"@) {
            Some(fj) => self._links.agrees(fj),
            None => false,
        }
    }

    open spec fn shape_ok(j: JsonV) -> bool {
        &&& sp_get_i32(j, "id"@) is Some
        &&& sp_get_str(j, "code"@) is Some
        &&& sp_get_str(j, "amount"@) is Some
        &&& sp_get_str(j, "date_created"@) is Some
        &&& sp_get_str(j, "date_created_gmt"@) is Some
        &&& sp_get_str(j, "date_modified"@) is Some
        &&& sp_get_str(j, "date_modified_gmt"@) is Some
        &&& match jv_get(j, "discount_type"@) {
            Some(fj) => DiscountType::shape_ok(fj),
            None => false,
        }
        &&& sp_get_str(j, "description"@) is Some
        &&& sp_get_opt_str(j, "date_expires"@) is Some
        &&& sp_get_opt_str(j, "date_expires_gmt"@) is Some
        &&& sp_get_i32(j, "usage_count"@) is Some
        &&& sp_get_bool(j, "individual_use"@) is Some
        &&& match sp_get_arr(j, "product_ids"@) {
            Some(items) => all_i32(items),
            None => false,
        }
        &&& match sp_get_arr(j, "excluded_product_ids"@) {
            Some(items) => all_i32(items),
            None => false,
        }
        &&& sp_get_opt_i32(j, "usage_limit"@) is Some
        &&& sp_get_opt_i32(j, "usage_limit_per_user"@) is Some
        &&& sp_get_opt_i32(j, "limit_usage_to_x_items"@) is Some
        &&& sp_get_bool(j, "free_shipping"@) is Some
        &&& match sp_get_arr(j, "product_categories"@) {
            Some(items) => all_i32(items),
            None => false,
        }
        &&& match sp_get_arr(j, "excluded_product_categories"@) {
            Some(items) => all_i32(items),
            None => false,
        }
        &&& sp_get_bool(j, "exclude_sale_items"@) is Some
        &&& sp_get_str(j, "minimum_amount"@) is Some
        &&& sp_get_str(j, "maximum_amount"@) is Some
        &&& match sp_get_arr(j, "email_restrictions"@) {
            Some(items) => all_str(items),
            None => false,
        }
        &&& match sp_get_arr(j, "used_by"@) {
            Some(items) => all_str(items),
            None => false,
        }
        &&& match sp_get_arr(j, "meta_data"@) {
            Some(items) => all_shape_ok::<MetaData>(items),
            None => false,
        }
        &&& match jv_get(j, "_links"@) {
            Some(fj) => Links::shape_ok(fj),
            None => false,
        }
    }

    fn to_json(&self) -> (r: JsonValue) {
        let mut fields: Vec<(String, JsonValue)> = Vec::new();
        push_field(&mut fields, "id", num_i64(self.id as i64));
        push_field(&mut fields, "code", str_value(self.code.as_str()));
        push_field(&mut fields, "amount", str_value(self.amount.as_str()));
        push_field(&mut fields, "date_created", str_value(self.date_created.as_str()));
        push_field(&mut fields, "date_created_gmt", str_value(self.date_created_gmt.as_str()));
        push_field(&mut fields, "date_modified", str_value(self.date_modified.as_str()));
        push_field(&mut fields, "date_modified_gmt", str_value(self.date_modified_gmt.as_str()));
        push_field(&mut fields, "discount_type", self.discount_type.to_json());
        push_field(&mut fields, "description", str_value(self.description.as_str()));
        push_field(&mut fields, "date_expires", opt_str_value(&self.date_expires));
        push_field(&mut fields, "date_expires_gmt", opt_str_value(&self.date_expires_gmt));
        push_field(&mut fields, "usage_count", num_i64(self.usage_count as i64));
        push_field(&mut fields, "individual_use", JsonValue::Bool(self.individual_use));
        push_field(&mut fields, "product_ids", arr_of_i32(&self.product_ids));
        push_field(&mut fields, "excluded_product_ids", arr_of_i32(&self.excluded_product_ids));
        push_field(&mut fields, "usage_limit", opt_i32_value(&self.usage_limit));
        push_field(&mut fields, "usage_limit_per_user", opt_i32_value(&self.usage_limit_per_user));
        push_field(&mut fields, "limit_usage_to_x_items", opt_i32_value(&self.limit_usage_to_x_items));
        push_field(&mut fields, "free_shipping", JsonValue::Bool(self.free_shipping));
        push_field(&mut fields, "product_categories", arr_of_i32(&self.product_categories));
        push_field(&mut fields, "excluded_product_categories", arr_of_i32(&self.excluded_product_categories));
        push_field(&mut fields, "exclude_sale_items", JsonValue::Bool(self.exclude_sale_items));
        push_field(&mut fields, "minimum_amount", str_value(self.minimum_amount.as_str()));
        push_field(&mut fields, "maximum_amount", str_value(self.maximum_amount.as_str()));
        push_field(&mut fields, "email_restrictions", arr_of_strings(&self.email_restrictions));
        push_field(&mut fields, "used_by", arr_of_strings(&self.used_by));
        push_field(&mut fields, "meta_data", vec_to_json(&self.meta_data));
        push_field(&mut fields, "_links", self._links.to_json());
        proof {
            assert(obj_jv(fields@) =~= seq![
                ("id"@, JsonV::Num(dec_of(self.id as int))),
                ("code"@, JsonV::Str(self.code@)),
                ("amount"@, JsonV::Str(self.amount@)),
                ("date_created"@, JsonV::Str(self.date_created@)),
                ("date_created_gmt"@, JsonV::Str(self.date_created_gmt@)),
                ("date_modified"@, JsonV::Str(self.date_modified@)),
                ("date_modified_gmt"@, JsonV::Str(self.date_modified_gmt@)),
                ("discount_type"@, self.discount_type.jv()),
                ("description"@, JsonV::Str(self.description@)),
                ("date_expires"@, opt_str_jv(self.date_expires)),
                ("date_expires_gmt"@, opt_str_jv(self.date_expires_gmt)),
                ("usage_count"@, JsonV::Num(dec_of(self.usage_count as int))),
                ("individual_use"@, JsonV::Bool(self.individual_use)),
                ("product_ids"@, JsonV::Arr(i32_seq_jv(self.product_ids@))),
                ("excluded_product_ids"@, JsonV::Arr(i32_seq_jv(self.excluded_product_ids@))),
                ("usage_limit"@, opt_i32_jv(self.usage_limit)),
                ("usage_limit_per_user"@, opt_i32_jv(self.usage_limit_per_user)),
                ("limit_usage_to_x_items"@, opt_i32_jv(self.limit_usage_to_x_items)),
                ("free_shipping"@, JsonV::Bool(self.free_shipping)),
                ("product_categories"@, JsonV::Arr(i32_seq_jv(self.product_categories@))),
                ("excluded_product_categories"@, JsonV::Arr(i32_seq_jv(self.excluded_product_categories@))),
                ("exclude_sale_items"@, JsonV::Bool(self.exclude_sale_items)),
                ("minimum_amount"@, JsonV::Str(self.minimum_amount@)),
                ("maximum_amount"@, JsonV::Str(self.maximum_amount@)),
                ("email_restrictions"@, JsonV::Arr(str_seq_jv(self.email_restrictions@))),
                ("used_by"@, JsonV::Arr(str_seq_jv(self.used_by@))),
                ("meta_data"@, JsonV::Arr(seq_jv_of(self.meta_data@))),
                ("_links"@, self._links.jv()),
            ]);
        }
        JsonValue::Obj(fields)
    }

    fn from_json(v: &JsonValue) -> (r: Option<Coupon>) {
        let id = match get_i32(v, "id") {
            Some(x) => x,
            None => {
                return None;
            },
        };
        let code = match get_string(v, "code") {
            Some(x) => x,
            None => {
                return None;
            },
        };
        let amount = match get_string(v, "amount") {
            Some(x) => x,
            None => {
                return None;
            },
        };
        let date_created = match get_string(v, "date_created") {
            Some(x) => x,
            None => {
                return None;
            },
        };
        let date_created_gmt = match get_string(v, "date_created_gmt") {
            Some(x) => x,
            None => {
                return None;
            },
        };
        let date_modified = match get_string(v, "date_modified") {
            Some(x) => x,
            None => {
                return None;
            },
        };
        let date_modified_gmt = match get_string(v, "date_modified_gmt") {
            Some(x) => x,
            None => {
                return None;
            },
        };
        let discount_type = match v.get("discount_type") {
            Some(fj) => match DiscountType::from_json(fj) {
                Some(x) => x,
                None => {
                    return None;
                },
            },
            None => {
                return None;
            },
        };
        let description = match get_string(v, "description") {
            Some(x) => x,
            None => {
                return None;
            },
        };
        let date_expires = match get_opt_string(v, "date_expires") {
            Some(x) => x,
            None => {
                return None;
            },
        };
        let date_expires_gmt = match get_opt_string(v, "date_expires_gmt") {
            Some(x) => x,
            None => {
                return None;
            },
        };
        let usage_count = match get_i32(v, "usage_count") {
            Some(x) => x,
            None => {
                return None;
            },
        };
        let individual_use = match get_bool(v, "individual_use") {
            Some(x) => x,
            None => {
                return None;
            },
        };
        let product_ids = match get_i32_arr(v, "product_ids") {
            Some(x) => x,
            None => {
                return None;
            },
        };
        let excluded_product_ids = match get_i32_arr(v, "excluded_product_ids") {
            Some(x) => x,
            None => {
                return None;
            },
        };
        let usage_limit = match get_opt_i32(v, "usage_limit") {
            Some(x) => x,
            None => {
                return None;
            },
        };
        let usage_limit_per_user = match get_opt_i32(v, "usage_limit_per_user") {
            Some(x) => x,
            None => {
                return None;
            },
        };
        let limit_usage_to_x_items = match get_opt_i32(v, "limit_usage_to_x_items") {
            Some(x) => x,
            None => {
                return None;
            },
        };
        let free_shipping = match get_bool(v, "free_shipping") {
            Some(x) => x,
            None => {
                return None;
            },
        };
        let product_categories = match get_i32_arr(v, "product_categories") {
            Some(x) => x,
            None => {
                return None;
            },
        };
        let excluded_product_categories = match get_i32_arr(v, "excluded_product_categories") {
            Some(x) => x,
            None => {
                return None;
            },
        };
        let exclude_sale_items = match get_bool(v, "exclude_sale_items") {
            Some(x) => x,
            None => {
                return None;
            },
        };
        let minimum_amount = match get_string(v, "minimum_amount") {
            Some(x) => x,
            None => {
                return None;
            },
        };
        let maximum_amount = match get_string(v, "maximum_amount") {
            Some(x) => x,
            None => {
                return None;
            },
        };
        let email_restrictions = match get_string_arr(v, "email_restrictions") {
            Some(x) => x,
            None => {
                return None;
            },
        };
        let used_by = match get_string_arr(v, "used_by") {
            Some(x) => x,
            None => {
                return None;
            },
        };
        let meta_data = match get_codec_arr::<MetaData>(v, "meta_data") {
            Some(x) => x,
            None => {
                return None;
            },
        };
        let _links = match v.get("_links") {
            Some(fj) => match Links::from_json(fj) {
                Some(x) => x,
                None => {
                    return None;
                },
            },
            None => {
                return None;
            },
        };
        Some(Coupon {
            id,
            code,
            amount,
            date_created,
            date_created_gmt,
            date_modified,
            date_modified_gmt,
            discount_type,
            description,
            date_expires,
            date_expires_gmt,
            usage_count,
            individual_use,
            product_ids,
            excluded_product_ids,
            usage_limit,
            usage_limit_per_user,
            limit_usage_to_x_items,
            free_shipping,
            product_categories,
            excluded_product_categories,
            exclude_sale_items,
            minimum_amount,
            maximum_amount,
            email_restrictions,
            used_by,
            meta_data,
            _links,
        })
    }
}

impl JsonCodec for UpdateCoupon {
    open spec fn jv(self) -> JsonV {
        JsonV::Obj(
            seq![
                ("id"@, JsonV::Num(dec_of(self.id as int))),
                ("amount"@, JsonV::Str(self.amount@)),
                ("date_created"@, JsonV::Str(self.date_created@)),
                ("date_created_gmt"@, JsonV::Str(self.date_created_gmt@)),
                ("date_modified"@, JsonV::Str(self.date_modified@)),
                ("date_modified_gmt"@, JsonV::Str(self.date_modified_gmt@)),
                ("discount_type"@, self.discount_type.jv()),
                ("description"@, JsonV::Str(self.description@)),
                ("date_expires"@, opt_str_jv(self.date_expires)),
                ("date_expires_gmt"@, opt_str_jv(self.date_expires_gmt)),
                ("usage_count"@, JsonV::Num(dec_of(self.usage_count as int))),
                ("individual_use"@, JsonV::Bool(self.individual_use)),
                ("product_ids"@, JsonV::Arr(i32_seq_jv(self.product_ids@))),
                ("excluded_product_ids"@, JsonV::Arr(i32_seq_jv(self.excluded_product_ids@))),
                ("usage_limit"@, opt_i32_jv(self.usage_limit)),
                ("usage_limit_per_user"@, opt_i32_jv(self.usage_limit_per_user)),
                ("limit_usage_to_x_items"@, opt_i32_jv(self.limit_usage_to_x_items)),
                ("free_shipping"@, JsonV::Bool(self.free_shipping)),
                ("product_categories"@, JsonV::Arr(i32_seq_jv(self.product_categories@))),
                ("excluded_product_categories"@, JsonV::Arr(i32_seq_jv(self.excluded_product_categories@))),
                ("exclude_sale_items"@, JsonV::Bool(self.exclude_sale_items)),
                ("minimum_amount"@, JsonV::Str(self.minimum_amount@)),
                ("maximum_amount"@, JsonV::Str(self.maximum_amount@)),
                ("email_restrictions"@, JsonV::Arr(str_seq_jv(self.email_restrictions@))),
                ("used_by"@, JsonV::Arr(str_seq_jv(self.used_by@))),
                ("meta_data"@, JsonV::Arr(seq_jv_of(self.meta_data@))),
                ("_links"@, self._links.jv()),
            ],
        )
    }

    open spec fn agrees(self, j: JsonV) -> bool {
        &&& sp_get_i32(j, "id"@) == Some(self.id as int)
        &&& sp_get_str(j, "amount"@) == Some(self.amount@)
        &&& sp_get_str(j, "date_created"@) == Some(self.date_created@)
        &&& sp_get_str(j, "date_created_gmt"@) == Some(self.date_created_gmt@)
        &&& sp_get_str(j, "date_modified"@) == Some(self.date_modified@)
        &&& sp_get_str(j, "date_modified_gmt"@) == Some(self.date_modified_gmt@)
        &&& match jv_get(j, "discount_type"@) {
            Some(fj) => self.discount_type.agrees(fj),
            None => false,
        }
        &&& sp_get_str(j, "description"@) == Some(self.description@)
        &&& sp_get_opt_str(j, "date_expires"@) == Some(opt_str_view(self.date_expires))
        &&& sp_get_opt_str(j, "date_expires_gmt"@) == Some(opt_str_view(self.date_expires_gmt))
        &&& sp_get_i32(j, "usage_count"@) == Some(self.usage_count as int)
        &&& sp_get_bool(j, "individual_use"@) == Some(self.individual_use)
        &&& match sp_get_arr(j, "product_ids"@) {
            Some(items) => i32s_agree(self.product_ids@, items),
            None => false,
        }
        &&& match sp_get_arr(j, "excluded_product_ids"@) {
            Some(items) => i32s_agree(self.excluded_product_ids@, items),
            None => false,
        }
        &&& sp_get_opt_i32(j, "usage_limit"@) == Some(opt_i32_view(self.usage_limit))
        &&& sp_get_opt_i32(j, "usage_limit_per_user"@) == Some(opt_i32_view(self.usage_limit_per_user))
        &&& sp_get_opt_i32(j, "limit_usage_to_x_items"@) == Some(opt_i32_view(self.limit_usage_to_x_items))
        &&& sp_get_bool(j, "free_shipping"@) == Some(self.free_shipping)
        &&& match sp_get_arr(j, "product_categories"@) {
            Some(items) => i32s_agree(self.product_categories@, items),
            None => false,
        }
        &&& match sp_get_arr(j, "excluded_product_categories"@) {
            Some(items) => i32s_agree(self.excluded_product_categories@, items),
            None => false,
        }
        &&& sp_get_bool(j, "exclude_sale_items"@) == Some(self.exclude_sale_items)
        &&& sp_get_str(j, "minimum_amount"@) == Some(self.minimum_amount@)
        &&& sp_get_str(j, "maximum_amount"@) == Some(self.maximum_amount@)
        &&& match sp_get_arr(j, "email_restrictions"@) {
            Some(items) => strs_agree(self.email_restrictions@, items),
            None => false,
        }
        &&& match sp_get_arr(j, "used_by"@) {
            Some(items) => strs_agree(self.used_by@, items),
            None => false,
        }
        &&& match sp_get_arr(j, "meta_data"@) {
            Some(items) => all_agree(self.meta_data@, items),
            None => false,
        }
        &&& match jv_get(j, "_links"@) {
            Some(fj) => self._links.agrees(fj),
            None => false,
        }
    }

    open spec fn shape_ok(j: JsonV) -> bool {
        &&& sp_get_i32(j, "id"@) is Some
        &&& sp_get_str(j, "amount"@) is Some
        &&& sp_get_str(j, "date_created"@) is Some
        &&& sp_get_str(j, "date_created_gmt"@) is Some
        &&& sp_get_str(j, "date_modified"@) is Some
        &&& sp_get_str(j, "date_modified_gmt"@) is Some
        &&& match jv_get(j, "discount_type"@) {
            Some(fj) => DiscountType::shape_ok(fj),
            None => false,
        }
        &&& sp_get_str(j, "description"@) is Some
        &&& sp_get_opt_str(j, "date_expires"@) is Some
        &&& sp_get_opt_str(j, "date_expires_gmt"@) is Some
        &&& sp_get_i32(j, "usage_count"@) is Some
        &&& sp_get_bool(j, "individual_use"@) is Some
        &&& match sp_get_arr(j, "product_ids"@) {
            Some(items) => all_i32(items),
            None => false,
        }
        &&& match sp_get_arr(j, "excluded_product_ids"@) {
            Some(items) => all_i32(items),
            None => false,
        }
        &&& sp_get_opt_i32(j, "usage_limit"@) is Some
        &&& sp_get_opt_i32(j, "usage_limit_per_user"@) is Some
        &&& sp_get_opt_i32(j, "limit_usage_to_x_items"@) is Some
        &&& sp_get_bool(j, "free_shipping"@) is Some
        &&& match sp_get_arr(j, "product_categories"@) {
            Some(items) => all_i32(items),
            None => false,
        }
        &&& match sp_get_arr(j, "excluded_product_categories"@) {
            Some(items) => all_i32(items),
            None => false,
        }
        &&& sp_get_bool(j, "exclude_sale_items"@) is Some
        &&& sp_get_str(j, "minimum_amount"@) is Some
        &&& sp_get_str(j, "maximum_amount"@) is Some
        &&& match sp_get_arr(j, "email_restrictions"@) {
            Some(items) => all_str(items),
            None => false,
        }
        &&& match sp_get_arr(j, "used_by"@) {
            Some(items) => all_str(items),
            None => false,
        }
        &&& match sp_get_arr(j, "meta_data"@) {
            Some(items) => all_shape_ok::<MetaData>(items),
            None => false,
        }
        &&& match jv_get(j, "_links"@) {
            Some(fj) => Links::shape_ok(fj),
            None => false,
        }
    }

    fn to_json(&self) -> (r: JsonValue) {
        let mut fields: Vec<(String, JsonValue)> = Vec::new();
        push_field(&mut fields, "id", num_i64(self.id as i64));
        push_field(&mut fields, "amount", str_value(self.amount.as_str()));
        push_field(&mut fields, "date_created", str_value(self.date_created.as_str()));
        push_field(&mut fields, "date_created_gmt", str_value(self.date_created_gmt.as_str()));
        push_field(&mut fields, "date_modified", str_value(self.date_modified.as_str()));
        push_field(&mut fields, "date_modified_gmt", str_value(self.date_modified_gmt.as_str()));
        push_field(&mut fields, "discount_type", self.discount_type.to_json());
        push_field(&mut fields, "description", str_value(self.description.as_str()));
        push_field(&mut fields, "date_expires", opt_str_value(&self.date_expires));
        push_field(&mut fields, "date_expires_gmt", opt_str_value(&self.date_expires_gmt));
        push_field(&mut fields, "usage_count", num_i64(self.usage_count as i64));
        push_field(&mut fields, "individual_use", JsonValue::Bool(self.individual_use));
        push_field(&mut fields, "product_ids", arr_of_i32(&self.product_ids));
        push_field(&mut fields, "excluded_product_ids", arr_of_i32(&self.excluded_product_ids));
        push_field(&mut fields, "usage_limit", opt_i32_value(&self.usage_limit));
        push_field(&mut fields, "usage_limit_per_user", opt_i32_value(&self.usage_limit_per_user));
        push_field(&mut fields, "limit_usage_to_x_items", opt_i32_value(&self.limit_usage_to_x_items));
        push_field(&mut fields, "free_shipping", JsonValue::Bool(self.free_shipping));
        push_field(&mut fields, "product_categories", arr_of_i32(&self.product_categories));
        push_field(&mut fields, "excluded_product_categories", arr_of_i32(&self.excluded_product_categories));
        push_field(&mut fields, "exclude_sale_items", JsonValue::Bool(self.exclude_sale_items));
        push_field(&mut fields, "minimum_amount", str_value(self.minimum_amount.as_str()));
        push_field(&mut fields, "maximum_amount", str_value(self.maximum_amount.as_str()));
        push_field(&mut fields, "email_restrictions", arr_of_strings(&self.email_restrictions));
        push_field(&mut fields, "used_by", arr_of_strings(&self.used_by));
        push_field(&mut fields, "meta_data", vec_to_json(&self.meta_data));
        push_field(&mut fields, "_links", self._links.to_json());
        proof {
            assert(obj_jv(fields@) =~= seq![
                ("id"@, JsonV::Num(dec_of(self.id as int))),
                ("amount"@, JsonV::Str(self.amount@)),
                ("date_created"@, JsonV::Str(self.date_created@)),
                ("date_created_gmt"@, JsonV::Str(self.date_created_gmt@)),
                ("date_modified"@, JsonV::Str(self.date_modified@)),
                ("date_modified_gmt"@, JsonV::Str(self.date_modified_gmt@)),
                ("discount_type"@, self.discount_type.jv()),
                ("description"@, JsonV::Str(self.description@)),
                ("date_expires"@, opt_str_jv(self.date_expires)),
                ("date_expires_gmt"@, opt_str_jv(self.date_expires_gmt)),
                ("usage_count"@, JsonV::Num(dec_of(self.usage_count as int))),
                ("individual_use"@, JsonV::Bool(self.individual_use)),
                ("product_ids"@, JsonV::Arr(i32_seq_jv(self.product_ids@))),
                ("excluded_product_ids"@, JsonV::Arr(i32_seq_jv(self.excluded_product_ids@))),
                ("usage_limit"@, opt_i32_jv(self.usage_limit)),
                ("usage_limit_per_user"@, opt_i32_jv(self.usage_limit_per_user)),
                ("limit_usage_to_x_items"@, opt_i32_jv(self.limit_usage_to_x_items)),
                ("free_shipping"@, JsonV::Bool(self.free_shipping)),
                ("product_categories"@, JsonV::Arr(i32_seq_jv(self.product_categories@))),
                ("excluded_product_categories"@, JsonV::Arr(i32_seq_jv(self.excluded_product_categories@))),
                ("exclude_sale_items"@, JsonV::Bool(self.exclude_sale_items)),
                ("minimum_amount"@, JsonV::Str(self.minimum_amount@)),
                ("maximum_amount"@, JsonV::Str(self.maximum_amount@)),
                ("email_restrictions"@, JsonV::Arr(str_seq_jv(self.email_restrictions@))),
                ("used_by"@, JsonV::Arr(str_seq_jv(self.used_by@))),
                ("meta_data"@, JsonV::Arr(seq_jv_of(self.meta_data@))),
                ("_links"@, self._links.jv()),
            ]);
        }
        JsonValue::Obj(fields)
    }

    fn from_json(v: &JsonValue) -> (r: Option<UpdateCoupon>) {
        let id = match get_i32(v, "id") {
            Some(x) => x,
            None => {
                return None;
            },
        };
        let amount = match get_string(v, "amount") {
            Some(x) => x,
            None => {
                return None;
            },
        };
        let date_created = match get_string(v, "date_created") {
            Some(x) => x,
            None => {
                return None;
            },
        };
        let date_created_gmt = match get_string(v, "date_created_gmt") {
            Some(x) => x,
            None => {
                return None;
            },
        };
        let date_modified = match get_string(v, "date_modified") {
            Some(x) => x,
            None => {
                return None;
            },
        };
        let date_modified_gmt = match get_string(v, "date_modified_gmt") {
            Some(x) => x,
            None => {
                return None;
            },
        };
        let discount_type = match v.get("discount_type") {
            Some(fj) => match DiscountType::from_json(fj) {
                Some(x) => x,
                None => {
                    return None;
                },
            },
            None => {
                return None;
            },
        };
        let description = match get_string(v, "description") {
            Some(x) => x,
            None => {
                return None;
            },
        };
        let date_expires = match get_opt_string(v, "date_expires") {
            Some(x) => x,
            None => {
                return None;
            },
        };
        let date_expires_gmt = match get_opt_string(v, "date_expires_gmt") {
            Some(x) => x,
            None => {
                return None;
            },
        };
        let usage_count = match get_i32(v, "usage_count") {
            Some(x) => x,
            None => {
                return None;
            },
        };
        let individual_use = match get_bool(v, "individual_use") {
            Some(x) => x,
            None => {
                return None;
            },
        };
        let product_ids = match get_i32_arr(v, "product_ids") {
            Some(x) => x,
            None => {
                return None;
            },
        };
        let excluded_product_ids = match get_i32_arr(v, "excluded_product_ids") {
            Some(x) => x,
            None => {
                return None;
            },
        };
        let usage_limit = match get_opt_i32(v, "usage_limit") {
            Some(x) => x,
            None => {
                return None;
            },
        };
        let usage_limit_per_user = match get_opt_i32(v, "usage_limit_per_user") {
            Some(x) => x,
            None => {
                return None;
            },
        };
        let limit_usage_to_x_items = match get_opt_i32(v, "limit_usage_to_x_items") {
            Some(x) => x,
            None => {
                return None;
            },
        };
        let free_shipping = match get_bool(v, "free_shipping") {
            Some(x) => x,
            None => {
                return None;
            },
        };
        let product_categories = match get_i32_arr(v, "product_categories") {
            Some(x) => x,
            None => {
                return None;
            },
        };
        let excluded_product_categories = match get_i32_arr(v, "excluded_product_categories") {
            Some(x) => x,
            None => {
                return None;
            },
        };
        let exclude_sale_items = match get_bool(v, "exclude_sale_items") {
            Some(x) => x,
            None => {
                return None;
            },
        };
        let minimum_amount = match get_string(v, "minimum_amount") {
            Some(x) => x,
            None => {
                return None;
            },
        };
        let maximum_amount = match get_string(v, "maximum_amount") {
            Some(x) => x,
            None => {
                return None;
            },
        };
        let email_restrictions = match get_string_arr(v, "email_restrictions") {
            Some(x) => x,
            None => {
                return None;
            },
        };
        let used_by = match get_string_arr(v, "used_by") {
            Some(x) => x,
            None => {
                return None;
            },
        };
        let meta_data = match get_codec_arr::<MetaData>(v, "meta_data") {
            Some(x) => x,
            None => {
                return None;
            },
        };
        let _links = match v.get("_links") {
            Some(fj) => match Links::from_json(fj) {
                Some(x) => x,
                None => {
                    return None;
                },
            },
            None => {
                return None;
            },
        };
        Some(UpdateCoupon {
            id,
            amount,
            date_created,
            date_created_gmt,
            date_modified,
            date_modified_gmt,
            discount_type,
            description,
            date_expires,
            date_expires_gmt,
            usage_count,
            individual_use,
            product_ids,
            excluded_product_ids,
            usage_limit,
            usage_limit_per_user,
            limit_usage_to_x_items,
            free_shipping,
            product_categories,
            excluded_product_categories,
            exclude_sale_items,
            minimum_amount,
            maximum_amount,
            email_restrictions,
            used_by,
            meta_data,
            _links,
        })
    }
}

impl From<Coupon> for UpdateCoupon {
    /// Narrow a full coupon record to its update payload: every shared
    /// field is moved over; the immutable `code` is dropped.
    fn from(c: Coupon) -> (r: UpdateCoupon) {
        UpdateCoupon {
            id: c.id,
            amount: c.amount,
            date_created: c.date_created,
            date_created_gmt: c.date_created_gmt,
            date_modified: c.date_modified,
            date_modified_gmt: c.date_modified_gmt,
            discount_type: c.discount_type,
            description: c.description,
            date_expires: c.date_expires,
            date_expires_gmt: c.date_expires_gmt,
            usage_count: c.usage_count,
            individual_use: c.individual_use,
            product_ids: c.product_ids,
            excluded_product_ids: c.excluded_product_ids,
            usage_limit: c.usage_limit,
            usage_limit_per_user: c.usage_limit_per_user,
            limit_usage_to_x_items: c.limit_usage_to_x_items,
            free_shipping: c.free_shipping,
            product_categories: c.product_categories,
            excluded_product_categories: c.excluded_product_categories,
            exclude_sale_items: c.exclude_sale_items,
            minimum_amount: c.minimum_amount,
            maximum_amount: c.maximum_amount,
            email_restrictions: c.email_restrictions,
            used_by: c.used_by,
            meta_data: c.meta_data,
            _links: c._links,
        }
    }
}

impl vstd::std_specs::convert::FromSpecImpl<Coupon> for UpdateCoupon {
    open spec fn obeys_from_spec() -> bool {
        true
    }

    open spec fn from_spec(c: Coupon) -> UpdateCoupon {
        UpdateCoupon {
            id: c.id,
            amount: c.amount,
            date_created: c.date_created,
            date_created_gmt: c.date_created_gmt,
            date_modified: c.date_modified,
            date_modified_gmt: c.date_modified_gmt,
            discount_type: c.discount_type,
            description: c.description,
            date_expires: c.date_expires,
            date_expires_gmt: c.date_expires_gmt,
            usage_count: c.usage_count,
            individual_use: c.individual_use,
            product_ids: c.product_ids,
            excluded_product_ids: c.excluded_product_ids,
            usage_limit: c.usage_limit,
            usage_limit_per_user: c.usage_limit_per_user,
            limit_usage_to_x_items: c.limit_usage_to_x_items,
            free_shipping: c.free_shipping,
            product_categories: c.product_categories,
            excluded_product_categories: c.excluded_product_categories,
            exclude_sale_items: c.exclude_sale_items,
            minimum_amount: c.minimum_amount,
            maximum_amount: c.maximum_amount,
            email_restrictions: c.email_restrictions,
            used_by: c.used_by,
            meta_data: c.meta_data,
            _links: c._links,
        }
    }
}

/// Two coupon records hold the same data in every shared field.
pub open spec fn coupon_eqv(a: Coupon, b: Coupon) -> bool {
    &&& a.id == b.id
    &&& a.code@ == b.code@
    &&& a.amount@ == b.amount@
    &&& a.date_created@ == b.date_created@
    &&& a.date_created_gmt@ == b.date_created_gmt@
    &&& a.date_modified@ == b.date_modified@
    &&& a.date_modified_gmt@ == b.date_modified_gmt@
    &&& a.discount_type == b.discount_type
    &&& a.description@ == b.description@
    &&& opt_str_view(a.date_expires) == opt_str_view(b.date_expires)
    &&& opt_str_view(a.date_expires_gmt) == opt_str_view(b.date_expires_gmt)
    &&& a.usage_count == b.usage_count
    &&& a.individual_use == b.individual_use
    &&& a.product_ids@ == b.product_ids@
    &&& a.excluded_product_ids@ == b.excluded_product_ids@
    &&& opt_i32_view(a.usage_limit) == opt_i32_view(b.usage_limit)
    &&& opt_i32_view(a.usage_limit_per_user) == opt_i32_view(b.usage_limit_per_user)
    &&& opt_i32_view(a.limit_usage_to_x_items) == opt_i32_view(b.limit_usage_to_x_items)
    &&& a.free_shipping == b.free_shipping
    &&& a.product_categories@ == b.product_categories@
    &&& a.excluded_product_categories@ == b.excluded_product_categories@
    &&& a.exclude_sale_items == b.exclude_sale_items
    &&& a.minimum_amount@ == b.minimum_amount@
    &&& a.maximum_amount@ == b.maximum_amount@
    &&& crate::codec::str_seq_eqv(a.email_restrictions@, b.email_restrictions@)
    &&& crate::codec::str_seq_eqv(a.used_by@, b.used_by@)
    &&& meta_seq_eqv(a.meta_data@, b.meta_data@)
    &&& links_eqv(a._links, b._links)
}

/// Round trip: a coupon record's encoding decodes, and any record that
/// decodes from it holds the same value in every field.
#[verifier::rlimit(100)]
pub proof fn lemma_coupon_roundtrip(x: Coupon, y: Coupon)
    ensures
        Coupon::shape_ok(x.jv()),
        y.agrees(x.jv()) ==> coupon_eqv(y, x),
{
    reveal_with_fuel(crate::json::lookup, 32);
    reveal_strlit("id");
    reveal_strlit("code");
    reveal_strlit("amount");
    reveal_strlit("date_created");
    reveal_strlit("date_created_gmt");
    reveal_strlit("date_modified");
    reveal_strlit("date_modified_gmt");
    reveal_strlit("discount_type");
    reveal_strlit("description");
    reveal_strlit("date_expires");
    reveal_strlit("date_expires_gmt");
    reveal_strlit("usage_count");
    reveal_strlit("individual_use");
    reveal_strlit("product_ids");
    reveal_strlit("excluded_product_ids");
    reveal_strlit("usage_limit");
    reveal_strlit("usage_limit_per_user");
    reveal_strlit("limit_usage_to_x_items");
    reveal_strlit("free_shipping");
    reveal_strlit("product_categories");
    reveal_strlit("excluded_product_categories");
    reveal_strlit("exclude_sale_items");
    reveal_strlit("minimum_amount");
    reveal_strlit("maximum_amount");
    reveal_strlit("email_restrictions");
    reveal_strlit("used_by");
    reveal_strlit("meta_data");
    reveal_strlit("_links");
    assert("id"@.len() == 2);
    assert("code"@.len() == 4);
    assert("amount"@.len() == 6);
    assert("date_created"@.len() == 12);
    assert("date_created_gmt"@.len() == 16);
    assert("date_modified"@.len() == 13);
    assert("date_modified_gmt"@.len() == 17);
    assert("discount_type"@.len() == 13);
    assert("description"@.len() == 11);
    assert("date_expires"@.len() == 12);
    assert("date_expires_gmt"@.len() == 16);
    assert("usage_count"@.len() == 11);
    assert("individual_use"@.len() == 14);
    assert("product_ids"@.len() == 11);
    assert("excluded_product_ids"@.len() == 20);
    assert("usage_limit"@.len() == 11);
    assert("usage_limit_per_user"@.len() == 20);
    assert("limit_usage_to_x_items"@.len() == 22);
    assert("free_shipping"@.len() == 13);
    assert("product_categories"@.len() == 18);
    assert("excluded_product_categories"@.len() == 27);
    assert("exclude_sale_items"@.len() == 18);
    assert("minimum_amount"@.len() == 14);
    assert("maximum_amount"@.len() == 14);
    assert("email_restrictions"@.len() == 18);
    assert("used_by"@.len() == 7);
    assert("meta_data"@.len() == 9);
    assert("_links"@.len() == 6);
    assert("_links"@[0] == '_');
    assert("amount"@[0] == 'a');
    assert("date_created"@[5] == 'c');
    assert("date_created_gmt"@[5] == 'c');
    assert("date_expires"@[5] == 'e');
    assert("date_expires_gmt"@[5] == 'e');
    assert("date_modified"@[0] == 'd');
    assert("date_modified"@[1] == 'a');
    assert("description"@[0] == 'd');
    assert("discount_type"@[0] == 'd');
    assert("discount_type"@[1] == 'i');
    assert("email_restrictions"@[0] == 'e');
    assert("email_restrictions"@[1] == 'm');
    assert("exclude_sale_items"@[0] == 'e');
    assert("exclude_sale_items"@[1] == 'x');
    assert("excluded_product_ids"@[0] == 'e');
    assert("free_shipping"@[0] == 'f');
    assert("individual_use"@[0] == 'i');
    assert("maximum_amount"@[0] == 'm');
    assert("maximum_amount"@[1] == 'a');
    assert("minimum_amount"@[0] == 'm');
    assert("minimum_amount"@[1] == 'i');
    assert("product_categories"@[0] == 'p');
    assert("product_ids"@[0] == 'p');
    assert("usage_count"@[0] == 'u');
    assert("usage_count"@[6] == 'c');
    assert("usage_limit"@[0] == 'u');
    assert("usage_limit"@[6] == 'l');
    assert("usage_limit_per_user"@[0] == 'u');
    let j = x.jv();
    assert(jv_get(j, "id"@) == Some(JsonV::Num(dec_of(x.id as int))));
    assert(jv_get(j, "code"@) == Some(JsonV::Str(x.code@)));
    assert(jv_get(j, "amount"@) == Some(JsonV::Str(x.amount@)));
    assert(jv_get(j, "date_created"@) == Some(JsonV::Str(x.date_created@)));
    assert(jv_get(j, "date_created_gmt"@) == Some(JsonV::Str(x.date_created_gmt@)));
    assert(jv_get(j, "date_modified"@) == Some(JsonV::Str(x.date_modified@)));
    assert(jv_get(j, "date_modified_gmt"@) == Some(JsonV::Str(x.date_modified_gmt@)));
    assert(jv_get(j, "discount_type"@) == Some(x.discount_type.jv()));
    assert(jv_get(j, "description"@) == Some(JsonV::Str(x.description@)));
    assert(jv_get(j, "date_expires"@) == Some(opt_str_jv(x.date_expires)));
    assert(jv_get(j, "date_expires_gmt"@) == Some(opt_str_jv(x.date_expires_gmt)));
    assert(jv_get(j, "usage_count"@) == Some(JsonV::Num(dec_of(x.usage_count as int))));
    assert(jv_get(j, "individual_use"@) == Some(JsonV::Bool(x.individual_use)));
    assert(jv_get(j, "product_ids"@) == Some(JsonV::Arr(i32_seq_jv(x.product_ids@))));
    assert(jv_get(j, "excluded_product_ids"@) == Some(JsonV::Arr(i32_seq_jv(x.excluded_product_ids@))));
    assert(jv_get(j, "usage_limit"@) == Some(opt_i32_jv(x.usage_limit)));
    assert(jv_get(j, "usage_limit_per_user"@) == Some(opt_i32_jv(x.usage_limit_per_user)));
    assert(jv_get(j, "limit_usage_to_x_items"@) == Some(opt_i32_jv(x.limit_usage_to_x_items)));
    assert(jv_get(j, "free_shipping"@) == Some(JsonV::Bool(x.free_shipping)));
    assert(jv_get(j, "product_categories"@) == Some(JsonV::Arr(i32_seq_jv(x.product_categories@))));
    assert(jv_get(j, "excluded_product_categories"@) == Some(JsonV::Arr(i32_seq_jv(x.excluded_product_categories@))));
    assert(jv_get(j, "exclude_sale_items"@) == Some(JsonV::Bool(x.exclude_sale_items)));
    assert(jv_get(j, "minimum_amount"@) == Some(JsonV::Str(x.minimum_amount@)));
    assert(jv_get(j, "maximum_amount"@) == Some(JsonV::Str(x.maximum_amount@)));
    assert(jv_get(j, "email_restrictions"@) == Some(JsonV::Arr(str_seq_jv(x.email_restrictions@))));
    assert(jv_get(j, "used_by"@) == Some(JsonV::Arr(str_seq_jv(x.used_by@))));
    assert(jv_get(j, "meta_data"@) == Some(JsonV::Arr(seq_jv_of(x.meta_data@))));
    assert(jv_get(j, "_links"@) == Some(x._links.jv()));
    crate::chars::lemma_parse_dec_of(x.id as int);
    crate::chars::lemma_parse_dec_of(x.usage_count as int);
    match x.usage_limit {
        Some(n) => crate::chars::lemma_parse_dec_of(n as int),
        None => (),
    }
    match x.usage_limit_per_user {
        Some(n) => crate::chars::lemma_parse_dec_of(n as int),
        None => (),
    }
    match x.limit_usage_to_x_items {
        Some(n) => crate::chars::lemma_parse_dec_of(n as int),
        None => (),
    }
    assert forall|k: int| 0 <= k < x.product_ids@.len() implies jv_i32(
        i32_seq_jv(x.product_ids@)[k],
    ) == Some(x.product_ids@[k] as int) by {
        crate::chars::lemma_parse_dec_of(x.product_ids@[k] as int);
    }
    assert forall|k: int| 0 <= k < x.excluded_product_ids@.len() implies jv_i32(
        i32_seq_jv(x.excluded_product_ids@)[k],
    ) == Some(x.excluded_product_ids@[k] as int) by {
        crate::chars::lemma_parse_dec_of(x.excluded_product_ids@[k] as int);
    }
    assert forall|k: int| 0 <= k < x.product_categories@.len() implies jv_i32(
        i32_seq_jv(x.product_categories@)[k],
    ) == Some(x.product_categories@[k] as int) by {
        crate::chars::lemma_parse_dec_of(x.product_categories@[k] as int);
    }
    assert forall|k: int| 0 <= k < x.excluded_product_categories@.len() implies jv_i32(
        i32_seq_jv(x.excluded_product_categories@)[k],
    ) == Some(x.excluded_product_categories@[k] as int) by {
        crate::chars::lemma_parse_dec_of(x.excluded_product_categories@[k] as int);
    }
    lemma_discount_roundtrip(x.discount_type, x.discount_type);
    assert forall|k: int| 0 <= k < x.meta_data@.len() implies MetaData::shape_ok(
        seq_jv_of(x.meta_data@)[k],
    ) by {
        lemma_meta_roundtrip(x.meta_data@[k], x.meta_data@[k]);
    }
    lemma_links_roundtrip(x._links, x._links);
    if y.agrees(j) {
        lemma_discount_roundtrip(x.discount_type, y.discount_type);
        lemma_links_roundtrip(x._links, y._links);
        assert forall|k: int| 0 <= k < x.meta_data@.len() implies crate::common::meta_eqv(
            y.meta_data@[k],
            x.meta_data@[k],
        ) by {
            assert(y.meta_data@[k].agrees(seq_jv_of(x.meta_data@)[k]));
            lemma_meta_roundtrip(x.meta_data@[k], y.meta_data@[k]);
        }
        assert(y.product_ids@ =~= x.product_ids@) by {
            assert forall|k: int| 0 <= k < x.product_ids@.len() implies y.product_ids@[k] == x.product_ids@[k] by {
                assert(jv_i32(i32_seq_jv(x.product_ids@)[k]) == Some(y.product_ids@[k] as int));
                assert(jv_i32(i32_seq_jv(x.product_ids@)[k]) == Some(x.product_ids@[k] as int));
            }
        }
        assert(y.excluded_product_ids@ =~= x.excluded_product_ids@) by {
            assert forall|k: int| 0 <= k < x.excluded_product_ids@.len() implies y.excluded_product_ids@[k] == x.excluded_product_ids@[k] by {
                assert(jv_i32(i32_seq_jv(x.excluded_product_ids@)[k]) == Some(y.excluded_product_ids@[k] as int));
                assert(jv_i32(i32_seq_jv(x.excluded_product_ids@)[k]) == Some(x.excluded_product_ids@[k] as int));
            }
        }
        assert(y.product_categories@ =~= x.product_categories@) by {
            assert forall|k: int| 0 <= k < x.product_categories@.len() implies y.product_categories@[k] == x.product_categories@[k] by {
                assert(jv_i32(i32_seq_jv(x.product_categories@)[k]) == Some(y.product_categories@[k] as int));
                assert(jv_i32(i32_seq_jv(x.product_categories@)[k]) == Some(x.product_categories@[k] as int));
            }
        }
        assert(y.excluded_product_categories@ =~= x.excluded_product_categories@) by {
            assert forall|k: int| 0 <= k < x.excluded_product_categories@.len() implies y.excluded_product_categories@[k] == x.excluded_product_categories@[k] by {
                assert(jv_i32(i32_seq_jv(x.excluded_product_categories@)[k]) == Some(y.excluded_product_categories@[k] as int));
                assert(jv_i32(i32_seq_jv(x.excluded_product_categories@)[k]) == Some(x.excluded_product_categories@[k] as int));
            }
        }
        assert(crate::codec::str_seq_eqv(y.email_restrictions@, x.email_restrictions@)) by {
            assert forall|k: int| 0 <= k < x.email_restrictions@.len() implies y.email_restrictions@[k]@
                == x.email_restrictions@[k]@ by {
                assert(crate::codec::jv_str(str_seq_jv(x.email_restrictions@)[k]) == Some(
                    y.email_restrictions@[k]@,
                ));
                assert(crate::codec::jv_str(str_seq_jv(x.email_restrictions@)[k]) == Some(
                    x.email_restrictions@[k]@,
                ));
            }
        }
        assert(crate::codec::str_seq_eqv(y.used_by@, x.used_by@)) by {
            assert forall|k: int| 0 <= k < x.used_by@.len() implies y.used_by@[k]@
                == x.used_by@[k]@ by {
                assert(crate::codec::jv_str(str_seq_jv(x.used_by@)[k]) == Some(y.used_by@[k]@));
                assert(crate::codec::jv_str(str_seq_jv(x.used_by@)[k]) == Some(x.used_by@[k]@));
            }
        }

    }
}

/// The update payload never carries the immutable `code` member.
pub proof fn lemma_update_coupon_omits_code(u: UpdateCoupon)
    ensures
        jv_get(u.jv(), "code"@) is None,
{
    reveal_with_fuel(crate::json::lookup, 32);
    reveal_strlit("id");
    reveal_strlit("amount");
    reveal_strlit("date_created");
    reveal_strlit("date_created_gmt");
    reveal_strlit("date_modified");
    reveal_strlit("date_modified_gmt");
    reveal_strlit("discount_type");
    reveal_strlit("description");
    reveal_strlit("date_expires");
    reveal_strlit("date_expires_gmt");
    reveal_strlit("usage_count");
    reveal_strlit("individual_use");
    reveal_strlit("product_ids");
    reveal_strlit("excluded_product_ids");
    reveal_strlit("usage_limit");
    reveal_strlit("usage_limit_per_user");
    reveal_strlit("limit_usage_to_x_items");
    reveal_strlit("free_shipping");
    reveal_strlit("product_categories");
    reveal_strlit("excluded_product_categories");
    reveal_strlit("exclude_sale_items");
    reveal_strlit("minimum_amount");
    reveal_strlit("maximum_amount");
    reveal_strlit("email_restrictions");
    reveal_strlit("used_by");
    reveal_strlit("meta_data");
    reveal_strlit("_links");
    reveal_strlit("code");
    assert("id"@.len() == 2);
    assert("amount"@.len() == 6);
    assert("date_created"@.len() == 12);
    assert("date_created_gmt"@.len() == 16);
    assert("date_modified"@.len() == 13);
    assert("date_modified_gmt"@.len() == 17);
    assert("discount_type"@.len() == 13);
    assert("description"@.len() == 11);
    assert("date_expires"@.len() == 12);
    assert("date_expires_gmt"@.len() == 16);
    assert("usage_count"@.len() == 11);
    assert("individual_use"@.len() == 14);
    assert("product_ids"@.len() == 11);
    assert("excluded_product_ids"@.len() == 20);
    assert("usage_limit"@.len() == 11);
    assert("usage_limit_per_user"@.len() == 20);
    assert("limit_usage_to_x_items"@.len() == 22);
    assert("free_shipping"@.len() == 13);
    assert("product_categories"@.len() == 18);
    assert("excluded_product_categories"@.len() == 27);
    assert("exclude_sale_items"@.len() == 18);
    assert("minimum_amount"@.len() == 14);
    assert("maximum_amount"@.len() == 14);
    assert("email_restrictions"@.len() == 18);
    assert("used_by"@.len() == 7);
    assert("meta_data"@.len() == 9);
    assert("_links"@.len() == 6);
    assert("code"@.len() == 4);
    assert("_links"@[0] == '_');
    assert("amount"@[0] == 'a');
    assert("date_created"@[5] == 'c');
    assert("date_created_gmt"@[5] == 'c');
    assert("date_expires"@[5] == 'e');
    assert("date_expires_gmt"@[5] == 'e');
    assert("date_modified"@[0] == 'd');
    assert("date_modified"@[1] == 'a');
    assert("description"@[0] == 'd');
    assert("discount_type"@[0] == 'd');
    assert("discount_type"@[1] == 'i');
    assert("email_restrictions"@[0] == 'e');
    assert("email_restrictions"@[1] == 'm');
    assert("exclude_sale_items"@[0] == 'e');
    assert("exclude_sale_items"@[1] == 'x');
    assert("excluded_product_ids"@[0] == 'e');
    assert("free_shipping"@[0] == 'f');
    assert("individual_use"@[0] == 'i');
    assert("maximum_amount"@[0] == 'm');
    assert("maximum_amount"@[1] == 'a');
    assert("minimum_amount"@[0] == 'm');
    assert("minimum_amount"@[1] == 'i');
    assert("product_categories"@[0] == 'p');
    assert("product_ids"@[0] == 'p');
    assert("usage_count"@[0] == 'u');
    assert("usage_count"@[6] == 'c');
    assert("usage_limit"@[0] == 'u');
    assert("usage_limit"@[6] == 'l');
    assert("usage_limit_per_user"@[0] == 'u');
}

/// Narrowing a coupon to its update payload copies every shared field.
pub proof fn lemma_update_of_coupon(c: Coupon)
    ensures
        ({
            let u = <UpdateCoupon as vstd::std_specs::convert::FromSpec<Coupon>>::from_spec(c);
            &&& u.id == c.id
            &&& u.amount == c.amount
            &&& u.date_created == c.date_created
            &&& u.date_created_gmt == c.date_created_gmt
            &&& u.date_modified == c.date_modified
            &&& u.date_modified_gmt == c.date_modified_gmt
            &&& u.discount_type == c.discount_type
            &&& u.description == c.description
            &&& u.date_expires == c.date_expires
            &&& u.date_expires_gmt == c.date_expires_gmt
            &&& u.usage_count == c.usage_count
            &&& u.individual_use == c.individual_use
            &&& u.product_ids == c.product_ids
            &&& u.excluded_product_ids == c.excluded_product_ids
            &&& u.usage_limit == c.usage_limit
            &&& u.usage_limit_per_user == c.usage_limit_per_user
            &&& u.limit_usage_to_x_items == c.limit_usage_to_x_items
            &&& u.free_shipping == c.free_shipping
            &&& u.product_categories == c.product_categories
            &&& u.excluded_product_categories == c.excluded_product_categories
            &&& u.exclude_sale_items == c.exclude_sale_items
            &&& u.minimum_amount == c.minimum_amount
            &&& u.maximum_amount == c.maximum_amount
            &&& u.email_restrictions == c.email_restrictions
            &&& u.used_by == c.used_by
            &&& u.meta_data == c.meta_data
            &&& u._links == c._links
        }),
{
}

/// Two update payloads hold the same data in every field.
pub open spec fn update_coupon_eqv(a: UpdateCoupon, b: UpdateCoupon) -> bool {
    &&& a.id == b.id
    &&& a.amount@ == b.amount@
    &&& a.date_created@ == b.date_created@
    &&& a.date_created_gmt@ == b.date_created_gmt@
    &&& a.date_modified@ == b.date_modified@
    &&& a.date_modified_gmt@ == b.date_modified_gmt@
    &&& a.discount_type == b.discount_type
    &&& a.description@ == b.description@
    &&& opt_str_view(a.date_expires) == opt_str_view(b.date_expires)
    &&& opt_str_view(a.date_expires_gmt) == opt_str_view(b.date_expires_gmt)
    &&& a.usage_count == b.usage_count
    &&& a.individual_use == b.individual_use
    &&& a.product_ids@ == b.product_ids@
    &&& a.excluded_product_ids@ == b.excluded_product_ids@
    &&& opt_i32_view(a.usage_limit) == opt_i32_view(b.usage_limit)
    &&& opt_i32_view(a.usage_limit_per_user) == opt_i32_view(b.usage_limit_per_user)
    &&& opt_i32_view(a.limit_usage_to_x_items) == opt_i32_view(b.limit_usage_to_x_items)
    &&& a.free_shipping == b.free_shipping
    &&& a.product_categories@ == b.product_categories@
    &&& a.excluded_product_categories@ == b.excluded_product_categories@
    &&& a.exclude_sale_items == b.exclude_sale_items
    &&& a.minimum_amount@ == b.minimum_amount@
    &&& a.maximum_amount@ == b.maximum_amount@
    &&& crate::codec::str_seq_eqv(a.email_restrictions@, b.email_restrictions@)
    &&& crate::codec::str_seq_eqv(a.used_by@, b.used_by@)
    &&& meta_seq_eqv(a.meta_data@, b.meta_data@)
    &&& links_eqv(a._links, b._links)
}

/// Round trip: an update payload's encoding decodes, and any payload
/// that decodes from it holds the same value in every field.
#[verifier::rlimit(100)]
pub proof fn lemma_update_coupon_roundtrip(x: UpdateCoupon, y: UpdateCoupon)
    ensures
        UpdateCoupon::shape_ok(x.jv()),
        y.agrees(x.jv()) ==> update_coupon_eqv(y, x),
{
    reveal_with_fuel(crate::json::lookup, 32);
    reveal_strlit("id");
    reveal_strlit("amount");
    reveal_strlit("date_created");
    reveal_strlit("date_created_gmt");
    reveal_strlit("date_modified");
    reveal_strlit("date_modified_gmt");
    reveal_strlit("discount_type");
    reveal_strlit("description");
    reveal_strlit("date_expires");
    reveal_strlit("date_expires_gmt");
    reveal_strlit("usage_count");
    reveal_strlit("individual_use");
    reveal_strlit("product_ids");
    reveal_strlit("excluded_product_ids");
    reveal_strlit("usage_limit");
    reveal_strlit("usage_limit_per_user");
    reveal_strlit("limit_usage_to_x_items");
    reveal_strlit("free_shipping");
    reveal_strlit("product_categories");
    reveal_strlit("excluded_product_categories");
    reveal_strlit("exclude_sale_items");
    reveal_strlit("minimum_amount");
    reveal_strlit("maximum_amount");
    reveal_strlit("email_restrictions");
    reveal_strlit("used_by");
    reveal_strlit("meta_data");
    reveal_strlit("_links");
    assert("id"@.len() == 2);
    assert("amount"@.len() == 6);
    assert("date_created"@.len() == 12);
    assert("date_created_gmt"@.len() == 16);
    assert("date_modified"@.len() == 13);
    assert("date_modified_gmt"@.len() == 17);
    assert("discount_type"@.len() == 13);
    assert("description"@.len() == 11);
    assert("date_expires"@.len() == 12);
    assert("date_expires_gmt"@.len() == 16);
    assert("usage_count"@.len() == 11);
    assert("individual_use"@.len() == 14);
    assert("product_ids"@.len() == 11);
    assert("excluded_product_ids"@.len() == 20);
    assert("usage_limit"@.len() == 11);
    assert("usage_limit_per_user"@.len() == 20);
    assert("limit_usage_to_x_items"@.len() == 22);
    assert("free_shipping"@.len() == 13);
    assert("product_categories"@.len() == 18);
    assert("excluded_product_categories"@.len() == 27);
    assert("exclude_sale_items"@.len() == 18);
    assert("minimum_amount"@.len() == 14);
    assert("maximum_amount"@.len() == 14);
    assert("email_restrictions"@.len() == 18);
    assert("used_by"@.len() == 7);
    assert("meta_data"@.len() == 9);
    assert("_links"@.len() == 6);
    assert("_links"@[0] == '_');
    assert("amount"@[0] == 'a');
    assert("date_created"@[5] == 'c');
    assert("date_created_gmt"@[5] == 'c');
    assert("date_expires"@[5] == 'e');
    assert("date_expires_gmt"@[5] == 'e');
    assert("date_modified"@[0] == 'd');
    assert("date_modified"@[1] == 'a');
    assert("description"@[0] == 'd');
    assert("discount_type"@[0] == 'd');
    assert("discount_type"@[1] == 'i');
    assert("email_restrictions"@[0] == 'e');
    assert("email_restrictions"@[1] == 'm');
    assert("exclude_sale_items"@[0] == 'e');
    assert("exclude_sale_items"@[1] == 'x');
    assert("excluded_product_ids"@[0] == 'e');
    assert("free_shipping"@[0] == 'f');
    assert("individual_use"@[0] == 'i');
    assert("maximum_amount"@[0] == 'm');
    assert("maximum_amount"@[1] == 'a');
    assert("minimum_amount"@[0] == 'm');
    assert("minimum_amount"@[1] == 'i');
    assert("product_categories"@[0] == 'p');
    assert("product_ids"@[0] == 'p');
    assert("usage_count"@[0] == 'u');
    assert("usage_count"@[6] == 'c');
    assert("usage_limit"@[0] == 'u');
    assert("usage_limit"@[6] == 'l');
    assert("usage_limit_per_user"@[0] == 'u');
    let j = x.jv();
    assert(jv_get(j, "id"@) == Some(JsonV::Num(dec_of(x.id as int))));
    assert(jv_get(j, "amount"@) == Some(JsonV::Str(x.amount@)));
    assert(jv_get(j, "date_created"@) == Some(JsonV::Str(x.date_created@)));
    assert(jv_get(j, "date_created_gmt"@) == Some(JsonV::Str(x.date_created_gmt@)));
    assert(jv_get(j, "date_modified"@) == Some(JsonV::Str(x.date_modified@)));
    assert(jv_get(j, "date_modified_gmt"@) == Some(JsonV::Str(x.date_modified_gmt@)));
    assert(jv_get(j, "discount_type"@) == Some(x.discount_type.jv()));
    assert(jv_get(j, "description"@) == Some(JsonV::Str(x.description@)));
    assert(jv_get(j, "date_expires"@) == Some(opt_str_jv(x.date_expires)));
    assert(jv_get(j, "date_expires_gmt"@) == Some(opt_str_jv(x.date_expires_gmt)));
    assert(jv_get(j, "usage_count"@) == Some(JsonV::Num(dec_of(x.usage_count as int))));
    assert(jv_get(j, "individual_use"@) == Some(JsonV::Bool(x.individual_use)));
    assert(jv_get(j, "product_ids"@) == Some(JsonV::Arr(i32_seq_jv(x.product_ids@))));
    assert(jv_get(j, "excluded_product_ids"@) == Some(JsonV::Arr(i32_seq_jv(x.excluded_product_ids@))));
    assert(jv_get(j, "usage_limit"@) == Some(opt_i32_jv(x.usage_limit)));
    assert(jv_get(j, "usage_limit_per_user"@) == Some(opt_i32_jv(x.usage_limit_per_user)));
    assert(jv_get(j, "limit_usage_to_x_items"@) == Some(opt_i32_jv(x.limit_usage_to_x_items)));
    assert(jv_get(j, "free_shipping"@) == Some(JsonV::Bool(x.free_shipping)));
    assert(jv_get(j, "product_categories"@) == Some(JsonV::Arr(i32_seq_jv(x.product_categories@))));
    assert(jv_get(j, "excluded_product_categories"@) == Some(JsonV::Arr(i32_seq_jv(x.excluded_product_categories@))));
    assert(jv_get(j, "exclude_sale_items"@) == Some(JsonV::Bool(x.exclude_sale_items)));
    assert(jv_get(j, "minimum_amount"@) == Some(JsonV::Str(x.minimum_amount@)));
    assert(jv_get(j, "maximum_amount"@) == Some(JsonV::Str(x.maximum_amount@)));
    assert(jv_get(j, "email_restrictions"@) == Some(JsonV::Arr(str_seq_jv(x.email_restrictions@))));
    assert(jv_get(j, "used_by"@) == Some(JsonV::Arr(str_seq_jv(x.used_by@))));
    assert(jv_get(j, "meta_data"@) == Some(JsonV::Arr(seq_jv_of(x.meta_data@))));
    assert(jv_get(j, "_links"@) == Some(x._links.jv()));
    crate::chars::lemma_parse_dec_of(x.id as int);
    crate::chars::lemma_parse_dec_of(x.usage_count as int);
    match x.usage_limit {
        Some(n) => crate::chars::lemma_parse_dec_of(n as int),
        None => (),
    }
    match x.usage_limit_per_user {
        Some(n) => crate::chars::lemma_parse_dec_of(n as int),
        None => (),
    }
    match x.limit_usage_to_x_items {
        Some(n) => crate::chars::lemma_parse_dec_of(n as int),
        None => (),
    }
    assert forall|k: int| 0 <= k < x.product_ids@.len() implies jv_i32(
        i32_seq_jv(x.product_ids@)[k],
    ) == Some(x.product_ids@[k] as int) by {
        crate::chars::lemma_parse_dec_of(x.product_ids@[k] as int);
    }
    assert forall|k: int| 0 <= k < x.excluded_product_ids@.len() implies jv_i32(
        i32_seq_jv(x.excluded_product_ids@)[k],
    ) == Some(x.excluded_product_ids@[k] as int) by {
        crate::chars::lemma_parse_dec_of(x.excluded_product_ids@[k] as int);
    }
    assert forall|k: int| 0 <= k < x.product_categories@.len() implies jv_i32(
        i32_seq_jv(x.product_categories@)[k],
    ) == Some(x.product_categories@[k] as int) by {
        crate::chars::lemma_parse_dec_of(x.product_categories@[k] as int);
    }
    assert forall|k: int| 0 <= k < x.excluded_product_categories@.len() implies jv_i32(
        i32_seq_jv(x.excluded_product_categories@)[k],
    ) == Some(x.excluded_product_categories@[k] as int) by {
        crate::chars::lemma_parse_dec_of(x.excluded_product_categories@[k] as int);
    }
    lemma_discount_roundtrip(x.discount_type, x.discount_type);
    assert forall|k: int| 0 <= k < x.meta_data@.len() implies MetaData::shape_ok(
        seq_jv_of(x.meta_data@)[k],
    ) by {
        lemma_meta_roundtrip(x.meta_data@[k], x.meta_data@[k]);
    }
    lemma_links_roundtrip(x._links, x._links);
    if y.agrees(j) {
        lemma_discount_roundtrip(x.discount_type, y.discount_type);
        lemma_links_roundtrip(x._links, y._links);
        assert forall|k: int| 0 <= k < x.meta_data@.len() implies crate::common::meta_eqv(
            y.meta_data@[k],
            x.meta_data@[k],
        ) by {
            assert(y.meta_data@[k].agrees(seq_jv_of(x.meta_data@)[k]));
            lemma_meta_roundtrip(x.meta_data@[k], y.meta_data@[k]);
        }
        assert(y.product_ids@ =~= x.product_ids@) by {
            assert forall|k: int| 0 <= k < x.product_ids@.len() implies y.product_ids@[k] == x.product_ids@[k] by {
                assert(jv_i32(i32_seq_jv(x.product_ids@)[k]) == Some(y.product_ids@[k] as int));
                assert(jv_i32(i32_seq_jv(x.product_ids@)[k]) == Some(x.product_ids@[k] as int));
            }
        }
        assert(y.excluded_product_ids@ =~= x.excluded_product_ids@) by {
            assert forall|k: int| 0 <= k < x.excluded_product_ids@.len() implies y.excluded_product_ids@[k] == x.excluded_product_ids@[k] by {
                assert(jv_i32(i32_seq_jv(x.excluded_product_ids@)[k]) == Some(y.excluded_product_ids@[k] as int));
                assert(jv_i32(i32_seq_jv(x.excluded_product_ids@)[k]) == Some(x.excluded_product_ids@[k] as int));
            }
        }
        assert(y.product_categories@ =~= x.product_categories@) by {
            assert forall|k: int| 0 <= k < x.product_categories@.len() implies y.product_categories@[k] == x.product_categories@[k] by {
                assert(jv_i32(i32_seq_jv(x.product_categories@)[k]) == Some(y.product_categories@[k] as int));
                assert(jv_i32(i32_seq_jv(x.product_categories@)[k]) == Some(x.product_categories@[k] as int));
            }
        }
        assert(y.excluded_product_categories@ =~= x.excluded_product_categories@) by {
            assert forall|k: int| 0 <= k < x.excluded_product_categories@.len() implies y.excluded_product_categories@[k] == x.excluded_product_categories@[k] by {
                assert(jv_i32(i32_seq_jv(x.excluded_product_categories@)[k]) == Some(y.excluded_product_categories@[k] as int));
                assert(jv_i32(i32_seq_jv(x.excluded_product_categories@)[k]) == Some(x.excluded_product_categories@[k] as int));
            }
        }
        assert(crate::codec::str_seq_eqv(y.email_restrictions@, x.email_restrictions@)) by {
            assert forall|k: int| 0 <= k < x.email_restrictions@.len() implies y.email_restrictions@[k]@
                == x.email_restrictions@[k]@ by {
                assert(crate::codec::jv_str(str_seq_jv(x.email_restrictions@)[k]) == Some(
                    y.email_restrictions@[k]@,
                ));
                assert(crate::codec::jv_str(str_seq_jv(x.email_restrictions@)[k]) == Some(
                    x.email_restrictions@[k]@,
                ));
            }
        }
        assert(crate::codec::str_seq_eqv(y.used_by@, x.used_by@)) by {
            assert forall|k: int| 0 <= k < x.used_by@.len() implies y.used_by@[k]@
                == x.used_by@[k]@ by {
                assert(crate::codec::jv_str(str_seq_jv(x.used_by@)[k]) == Some(y.used_by@[k]@));
                assert(crate::codec::jv_str(str_seq_jv(x.used_by@)[k]) == Some(x.used_by@[k]@));
            }
        }
    }
}

} // verus!
