//! The product resource: creation payload, full record, and the
//! substructures a product carries.  The wire names `type` and
//! `virtual` map to the `product_type` and `virtual_type` fields.

use vstd::prelude::*;

use crate::codec::{
    all_agree, all_i32, all_shape_ok, all_str, arr_of_i32, arr_of_strings, get_bool,
    get_codec_arr, get_defstr, get_i32, get_i32_arr, get_opt_i32, get_opt_string, get_string,
    get_string_arr, i32_seq_jv, i32s_agree, num_i64, opt_i32_jv, opt_i32_value, opt_i32_view,
    opt_str_jv, opt_str_value, opt_str_view, push_field, seq_jv_of, sp_get_arr, sp_get_bool,
    sp_get_defstr, sp_get_i32, sp_get_opt_i32, sp_get_opt_str, sp_get_str, str_seq_jv,
    str_value, strs_agree, vec_to_json, JsonCodec,
};
use crate::chars::dec_of;
use crate::common::{Links, MetaData};
use crate::json::{jv_get, obj_jv, JsonV, JsonValue};

verus! {

#[derive(Debug)]
pub struct CreateProduct {
    pub name: String,
    pub product_type: String,
    pub regular_price: String,
    pub price: String,
    pub virtual_type: bool,
    pub description: String,
    pub short_description: String,
    pub categories: Vec<Category>,
    pub images: Vec<Image>,
    pub meta_data: Vec<MetaData>,
}

#[derive(Debug)]
pub struct Product {
    pub id: i32,
    pub name: String,
    pub slug: String,
    pub permalink: String,
    pub date_created: String,
    pub date_created_gmt: String,
    pub date_modified: String,
    pub date_modified_gmt: String,
    pub product_type: String,
    pub status: String,
    pub featured: bool,
    pub catalog_visibility: String,
    pub description: String,
    pub short_description: String,
    pub sku: String,
    pub price: String,
    pub regular_price: String,
    pub sale_price: String,
    pub date_on_sale_from: Option<String>,
    pub date_on_sale_from_gmt: Option<String>,
    pub date_on_sale_to: Option<String>,
    pub date_on_sale_to_gmt: Option<String>,
    pub price_html: String,
    pub on_sale: bool,
    pub purchasable: bool,
    pub total_sales: i32,
    pub virtual_type: bool,
    pub downloadable: bool,
    pub downloads: Vec<Download>,
    pub download_limit: i32,
    pub download_expiry: i32,
    pub external_url: String,
    pub button_text: String,
    pub tax_status: String,
    pub tax_class: String,
    pub manage_stock: bool,
    pub stock_quantity: Option<i32>,
    pub stock_status: String,
    pub backorders: String,
    pub backorders_allowed: bool,
    pub backordered: bool,
    pub sold_individually: bool,
    pub weight: String,
    pub dimensions: Dimensions,
    pub shipping_required: bool,
    pub shipping_taxable: bool,
    pub shipping_class: String,
    pub shipping_class_id: i32,
    pub reviews_allowed: bool,
    pub average_rating: String,
    pub rating_count: i32,
    pub related_ids: Vec<i32>,
    pub upsell_ids: Vec<i32>,
    pub cross_sell_ids: Vec<i32>,
    pub parent_id: i32,
    pub purchase_note: String,
    pub categories: Vec<Category>,
    pub tags: Vec<Tag>,
    pub images: Vec<Image>,
    pub attributes: Vec<Attribute>,
    pub default_attributes: Vec<Attribute>,
    pub variations: Vec<i32>,
    pub grouped_products: Vec<i32>,
    pub menu_order: i32,
    pub meta_data: Vec<MetaData>,
    pub _links: Links,
}

#[derive(Debug)]
pub struct Download {
    pub id: i32,
    pub date_created: String,
    pub date_created_gmt: String,
    pub date_modified: String,
    pub date_modified_gmt: String,
    pub src: String,
    pub name: String,
    pub alt: String,
}

#[derive(Debug)]
pub struct Dimensions {
    pub length: String,
    pub width: String,
    pub height: String,
}

#[derive(Debug)]
pub struct Category {
    pub id: i32,
    pub name: String,
    pub slug: String,
}

#[derive(Debug)]
pub struct Tag {
    pub id: i32,
    pub name: String,
    pub slug: String,
}

#[derive(Debug)]
pub struct Image {
    pub id: i32,
    pub date_created: String,
    pub date_created_gmt: String,
    pub date_modified: String,
    pub date_modified_gmt: String,
    pub src: String,
    pub name: String,
    pub alt: String,
}

#[derive(Debug)]
pub struct Attribute {
    pub id: i32,
    pub name: String,
    pub position: i32,
    pub visible: bool,
    pub variation: bool,
    pub options: Vec<String>,
}

impl JsonCodec for CreateProduct {
    open spec fn jv(self) -> JsonV {
        JsonV::Obj(
            seq![
                ("name"@, JsonV::Str(self.name@)),
                ("type"@, JsonV::Str(self.product_type@)),
                ("regular_price"@, JsonV::Str(self.regular_price@)),
                ("price"@, JsonV::Str(self.price@)),
                ("virtual"@, JsonV::Bool(self.virtual_type)),
                ("description"@, JsonV::Str(self.description@)),
                ("short_description"@, JsonV::Str(self.short_description@)),
                ("categories"@, JsonV::Arr(seq_jv_of(self.categories@))),
                ("images"@, JsonV::Arr(seq_jv_of(self.images@))),
                ("meta_data"@, JsonV::Arr(seq_jv_of(self.meta_data@))),
            ],
        )
    }

    open spec fn agrees(self, j: JsonV) -> bool {
        &&& sp_get_str(j, "name"@) == Some(self.name@)
        &&& sp_get_str(j, "type"@) == Some(self.product_type@)
        &&& sp_get_str(j, "regular_price"@) == Some(self.regular_price@)
        &&& sp_get_str(j, "price"@) == Some(self.price@)
        &&& sp_get_bool(j, "virtual"@) == Some(self.virtual_type)
        &&& sp_get_str(j, "description"@) == Some(self.description@)
        &&& sp_get_str(j, "short_description"@) == Some(self.short_description@)
        &&& match sp_get_arr(j, "categories"@) {
            Some(items) => all_agree(self.categories@, items),
            None => false,
        }
        &&& match sp_get_arr(j, "images"@) {
            Some(items) => all_agree(self.images@, items),
            None => false,
        }
        &&& match sp_get_arr(j, "meta_data"@) {
            Some(items) => all_agree(self.meta_data@, items),
            None => false,
        }
    }

    open spec fn shape_ok(j: JsonV) -> bool {
        &&& sp_get_str(j, "name"@) is Some
        &&& sp_get_str(j, "type"@) is Some
        &&& sp_get_str(j, "regular_price"@) is Some
        &&& sp_get_str(j, "price"@) is Some
        &&& sp_get_bool(j, "virtual"@) is Some
        &&& sp_get_str(j, "description"@) is Some
        &&& sp_get_str(j, "short_description"@) is Some
        &&& match sp_get_arr(j, "categories"@) {
            Some(items) => all_shape_ok::<Category>(items),
            None => false,
        }
        &&& match sp_get_arr(j, "images"@) {
            Some(items) => all_shape_ok::<Image>(items),
            None => false,
        }
        &&& match sp_get_arr(j, "meta_data"@) {
            Some(items) => all_shape_ok::<MetaData>(items),
            None => false,
        }
    }

    fn to_json(&self) -> (r: JsonValue) {
        let mut fields: Vec<(String, JsonValue)> = Vec::new();
        push_field(&mut fields, "name", str_value(self.name.as_str()));
        push_field(&mut fields, "type", str_value(self.product_type.as_str()));
        push_field(&mut fields, "regular_price", str_value(self.regular_price.as_str()));
        push_field(&mut fields, "price", str_value(self.price.as_str()));
        push_field(&mut fields, "virtual", JsonValue::Bool(self.virtual_type));
        push_field(&mut fields, "description", str_value(self.description.as_str()));
        push_field(&mut fields, "short_description", str_value(self.short_description.as_str()));
        push_field(&mut fields, "categories", vec_to_json(&self.categories));
        push_field(&mut fields, "images", vec_to_json(&self.images));
        push_field(&mut fields, "meta_data", vec_to_json(&self.meta_data));
        proof {
            assert(obj_jv(fields@) =~= seq![
                ("name"@, JsonV::Str(self.name@)),
                ("type"@, JsonV::Str(self.product_type@)),
                ("regular_price"@, JsonV::Str(self.regular_price@)),
                ("price"@, JsonV::Str(self.price@)),
                ("virtual"@, JsonV::Bool(self.virtual_type)),
                ("description"@, JsonV::Str(self.description@)),
                ("short_description"@, JsonV::Str(self.short_description@)),
                ("categories"@, JsonV::Arr(seq_jv_of(self.categories@))),
                ("images"@, JsonV::Arr(seq_jv_of(self.images@))),
                ("meta_data"@, JsonV::Arr(seq_jv_of(self.meta_data@))),
            ]);
        }
        JsonValue::Obj(fields)
    }

    fn from_json(v: &JsonValue) -> (r: Option<CreateProduct>) {
        let name = match get_string(v, "name") {
            Some(x) => x,
            None => {
                return None;
            },
        };
        let product_type = match get_string(v, "type") {
            Some(x) => x,
            None => {
                return None;
            },
        };
        let regular_price = match get_string(v, "regular_price") {
            Some(x) => x,
            None => {
                return None;
            },
        };
        let price = match get_string(v, "price") {
            Some(x) => x,
            None => {
                return None;
            },
        };
        let virtual_type = match get_bool(v, "virtual") {
            Some(x) => x,
            None => {
                return None;
            },
        };
        let description = match get_string(v, "description") {
            Some(x) => x,
            None => {
                return None;
            },
        };
        let short_description = match get_string(v, "short_description") {
            Some(x) => x,
            None => {
                return None;
            },
        };
        let categories = match get_codec_arr::<Category>(v, "categories") {
            Some(x) => x,
            None => {
                return None;
            },
        };
        let images = match get_codec_arr::<Image>(v, "images") {
            Some(x) => x,
            None => {
                return None;
            },
        };
        let meta_data = match get_codec_arr::<MetaData>(v, "meta_data") {
            Some(x) => x,
            None => {
                return None;
            },
        };
        Some(CreateProduct {
            name,
            product_type,
            regular_price,
            price,
            virtual_type,
            description,
            short_description,
            categories,
            images,
            meta_data,
        })
    }
}

impl Product {
    fn jv_part1(&self, fields: &mut Vec<(String, JsonValue)>)
        ensures
            obj_jv(final(fields)@) == obj_jv(old(fields)@) + seq![
                ("id"@, JsonV::Num(dec_of(self.id as int))),
                ("name"@, JsonV::Str(self.name@)),
                ("slug"@, JsonV::Str(self.slug@)),
                ("permalink"@, JsonV::Str(self.permalink@)),
                ("date_created"@, JsonV::Str(self.date_created@)),
                ("date_created_gmt"@, JsonV::Str(self.date_created_gmt@)),
                ("date_modified"@, JsonV::Str(self.date_modified@)),
                ("date_modified_gmt"@, JsonV::Str(self.date_modified_gmt@)),
                ("type"@, JsonV::Str(self.product_type@)),
                ("status"@, JsonV::Str(self.status@)),
                ("featured"@, JsonV::Bool(self.featured)),
                ("catalog_visibility"@, JsonV::Str(self.catalog_visibility@)),
            ],
    {
        push_field(fields, "id", num_i64(self.id as i64));
        push_field(fields, "name", str_value(self.name.as_str()));
        push_field(fields, "slug", str_value(self.slug.as_str()));
        push_field(fields, "permalink", str_value(self.permalink.as_str()));
        push_field(fields, "date_created", str_value(self.date_created.as_str()));
        push_field(fields, "date_created_gmt", str_value(self.date_created_gmt.as_str()));
        push_field(fields, "date_modified", str_value(self.date_modified.as_str()));
        push_field(fields, "date_modified_gmt", str_value(self.date_modified_gmt.as_str()));
        push_field(fields, "type", str_value(self.product_type.as_str()));
        push_field(fields, "status", str_value(self.status.as_str()));
        push_field(fields, "featured", JsonValue::Bool(self.featured));
        push_field(fields, "catalog_visibility", str_value(self.catalog_visibility.as_str()));
        proof {
            assert(obj_jv(fields@) =~= obj_jv(old(fields)@) + seq![
                ("id"@, JsonV::Num(dec_of(self.id as int))),
                ("name"@, JsonV::Str(self.name@)),
                ("slug"@, JsonV::Str(self.slug@)),
                ("permalink"@, JsonV::Str(self.permalink@)),
                ("date_created"@, JsonV::Str(self.date_created@)),
                ("date_created_gmt"@, JsonV::Str(self.date_created_gmt@)),
                ("date_modified"@, JsonV::Str(self.date_modified@)),
                ("date_modified_gmt"@, JsonV::Str(self.date_modified_gmt@)),
                ("type"@, JsonV::Str(self.product_type@)),
                ("status"@, JsonV::Str(self.status@)),
                ("featured"@, JsonV::Bool(self.featured)),
                ("catalog_visibility"@, JsonV::Str(self.catalog_visibility@)),
            ]);
        }
    }

    fn jv_part2(&self, fields: &mut Vec<(String, JsonValue)>)
        ensures
            obj_jv(final(fields)@) == obj_jv(old(fields)@) + seq![
                ("description"@, JsonV::Str(self.description@)),
                ("short_description"@, JsonV::Str(self.short_description@)),
                ("sku"@, JsonV::Str(self.sku@)),
                ("price"@, JsonV::Str(self.price@)),
                ("regular_price"@, JsonV::Str(self.regular_price@)),
                ("sale_price"@, JsonV::Str(self.sale_price@)),
                ("date_on_sale_from"@, opt_str_jv(self.date_on_sale_from)),
                ("date_on_sale_from_gmt"@, opt_str_jv(self.date_on_sale_from_gmt)),
                ("date_on_sale_to"@, opt_str_jv(self.date_on_sale_to)),
                ("date_on_sale_to_gmt"@, opt_str_jv(self.date_on_sale_to_gmt)),
                ("price_html"@, JsonV::Str(self.price_html@)),
                ("on_sale"@, JsonV::Bool(self.on_sale)),
            ],
    {
        push_field(fields, "description", str_value(self.description.as_str()));
        push_field(fields, "short_description", str_value(self.short_description.as_str()));
        push_field(fields, "sku", str_value(self.sku.as_str()));
        push_field(fields, "price", str_value(self.price.as_str()));
        push_field(fields, "regular_price", str_value(self.regular_price.as_str()));
        push_field(fields, "sale_price", str_value(self.sale_price.as_str()));
        push_field(fields, "date_on_sale_from", opt_str_value(&self.date_on_sale_from));
        push_field(fields, "date_on_sale_from_gmt", opt_str_value(&self.date_on_sale_from_gmt));
        push_field(fields, "date_on_sale_to", opt_str_value(&self.date_on_sale_to));
        push_field(fields, "date_on_sale_to_gmt", opt_str_value(&self.date_on_sale_to_gmt));
        push_field(fields, "price_html", str_value(self.price_html.as_str()));
        push_field(fields, "on_sale", JsonValue::Bool(self.on_sale));
        proof {
            assert(obj_jv(fields@) =~= obj_jv(old(fields)@) + seq![
                ("description"@, JsonV::Str(self.description@)),
                ("short_description"@, JsonV::Str(self.short_description@)),
                ("sku"@, JsonV::Str(self.sku@)),
                ("price"@, JsonV::Str(self.price@)),
                ("regular_price"@, JsonV::Str(self.regular_price@)),
                ("sale_price"@, JsonV::Str(self.sale_price@)),
                ("date_on_sale_from"@, opt_str_jv(self.date_on_sale_from)),
                ("date_on_sale_from_gmt"@, opt_str_jv(self.date_on_sale_from_gmt)),
                ("date_on_sale_to"@, opt_str_jv(self.date_on_sale_to)),
                ("date_on_sale_to_gmt"@, opt_str_jv(self.date_on_sale_to_gmt)),
                ("price_html"@, JsonV::Str(self.price_html@)),
                ("on_sale"@, JsonV::Bool(self.on_sale)),
            ]);
        }
    }

    fn jv_part3(&self, fields: &mut Vec<(String, JsonValue)>)
        ensures
            obj_jv(final(fields)@) == obj_jv(old(fields)@) + seq![
                ("purchasable"@, JsonV::Bool(self.purchasable)),
                ("total_sales"@, JsonV::Num(dec_of(self.total_sales as int))),
                ("virtual"@, JsonV::Bool(self.virtual_type)),
                ("downloadable"@, JsonV::Bool(self.downloadable)),
                ("downloads"@, JsonV::Arr(seq_jv_of(self.downloads@))),
                ("download_limit"@, JsonV::Num(dec_of(self.download_limit as int))),
                ("download_expiry"@, JsonV::Num(dec_of(self.download_expiry as int))),
                ("external_url"@, JsonV::Str(self.external_url@)),
                ("button_text"@, JsonV::Str(self.button_text@)),
                ("tax_status"@, JsonV::Str(self.tax_status@)),
                ("tax_class"@, JsonV::Str(self.tax_class@)),
                ("manage_stock"@, JsonV::Bool(self.manage_stock)),
            ],
    {
        push_field(fields, "purchasable", JsonValue::Bool(self.purchasable));
        push_field(fields, "total_sales", num_i64(self.total_sales as i64));
        push_field(fields, "virtual", JsonValue::Bool(self.virtual_type));
        push_field(fields, "downloadable", JsonValue::Bool(self.downloadable));
        push_field(fields, "downloads", vec_to_json(&self.downloads));
        push_field(fields, "download_limit", num_i64(self.download_limit as i64));
        push_field(fields, "download_expiry", num_i64(self.download_expiry as i64));
        push_field(fields, "external_url", str_value(self.external_url.as_str()));
        push_field(fields, "button_text", str_value(self.button_text.as_str()));
        push_field(fields, "tax_status", str_value(self.tax_status.as_str()));
        push_field(fields, "tax_class", str_value(self.tax_class.as_str()));
        push_field(fields, "manage_stock", JsonValue::Bool(self.manage_stock));
        proof {
            assert(obj_jv(fields@) =~= obj_jv(old(fields)@) + seq![
                ("purchasable"@, JsonV::Bool(self.purchasable)),
                ("total_sales"@, JsonV::Num(dec_of(self.total_sales as int))),
                ("virtual"@, JsonV::Bool(self.virtual_type)),
                ("downloadable"@, JsonV::Bool(self.downloadable)),
                ("downloads"@, JsonV::Arr(seq_jv_of(self.downloads@))),
                ("download_limit"@, JsonV::Num(dec_of(self.download_limit as int))),
                ("download_expiry"@, JsonV::Num(dec_of(self.download_expiry as int))),
                ("external_url"@, JsonV::Str(self.external_url@)),
                ("button_text"@, JsonV::Str(self.button_text@)),
                ("tax_status"@, JsonV::Str(self.tax_status@)),
                ("tax_class"@, JsonV::Str(self.tax_class@)),
                ("manage_stock"@, JsonV::Bool(self.manage_stock)),
            ]);
        }
    }

    fn jv_part4(&self, fields: &mut Vec<(String, JsonValue)>)
        ensures
            obj_jv(final(fields)@) == obj_jv(old(fields)@) + seq![
                ("stock_quantity"@, opt_i32_jv(self.stock_quantity)),
                ("stock_status"@, JsonV::Str(self.stock_status@)),
                ("backorders"@, JsonV::Str(self.backorders@)),
                ("backorders_allowed"@, JsonV::Bool(self.backorders_allowed)),
                ("backordered"@, JsonV::Bool(self.backordered)),
                ("sold_individually"@, JsonV::Bool(self.sold_individually)),
                ("weight"@, JsonV::Str(self.weight@)),
                ("dimensions"@, self.dimensions.jv()),
                ("shipping_required"@, JsonV::Bool(self.shipping_required)),
                ("shipping_taxable"@, JsonV::Bool(self.shipping_taxable)),
                ("shipping_class"@, JsonV::Str(self.shipping_class@)),
                ("shipping_class_id"@, JsonV::Num(dec_of(self.shipping_class_id as int))),
            ],
    {
        push_field(fields, "stock_quantity", opt_i32_value(&self.stock_quantity));
        push_field(fields, "stock_status", str_value(self.stock_status.as_str()));
        push_field(fields, "backorders", str_value(self.backorders.as_str()));
        push_field(fields, "backorders_allowed", JsonValue::Bool(self.backorders_allowed));
        push_field(fields, "backordered", JsonValue::Bool(self.backordered));
        push_field(fields, "sold_individually", JsonValue::Bool(self.sold_individually));
        push_field(fields, "weight", str_value(self.weight.as_str()));
        push_field(fields, "dimensions", self.dimensions.to_json());
        push_field(fields, "shipping_required", JsonValue::Bool(self.shipping_required));
        push_field(fields, "shipping_taxable", JsonValue::Bool(self.shipping_taxable));
        push_field(fields, "shipping_class", str_value(self.shipping_class.as_str()));
        push_field(fields, "shipping_class_id", num_i64(self.shipping_class_id as i64));
        proof {
            assert(obj_jv(fields@) =~= obj_jv(old(fields)@) + seq![
                ("stock_quantity"@, opt_i32_jv(self.stock_quantity)),
                ("stock_status"@, JsonV::Str(self.stock_status@)),
                ("backorders"@, JsonV::Str(self.backorders@)),
                ("backorders_allowed"@, JsonV::Bool(self.backorders_allowed)),
                ("backordered"@, JsonV::Bool(self.backordered)),
                ("sold_individually"@, JsonV::Bool(self.sold_individually)),
                ("weight"@, JsonV::Str(self.weight@)),
                ("dimensions"@, self.dimensions.jv()),
                ("shipping_required"@, JsonV::Bool(self.shipping_required)),
                ("shipping_taxable"@, JsonV::Bool(self.shipping_taxable)),
                ("shipping_class"@, JsonV::Str(self.shipping_class@)),
                ("shipping_class_id"@, JsonV::Num(dec_of(self.shipping_class_id as int))),
            ]);
        }
    }

    fn jv_part5(&self, fields: &mut Vec<(String, JsonValue)>)
        ensures
            obj_jv(final(fields)@) == obj_jv(old(fields)@) + seq![
                ("reviews_allowed"@, JsonV::Bool(self.reviews_allowed)),
                ("average_rating"@, JsonV::Str(self.average_rating@)),
                ("rating_count"@, JsonV::Num(dec_of(self.rating_count as int))),
                ("related_ids"@, JsonV::Arr(i32_seq_jv(self.related_ids@))),
                ("upsell_ids"@, JsonV::Arr(i32_seq_jv(self.upsell_ids@))),
                ("cross_sell_ids"@, JsonV::Arr(i32_seq_jv(self.cross_sell_ids@))),
                ("parent_id"@, JsonV::Num(dec_of(self.parent_id as int))),
                ("purchase_note"@, JsonV::Str(self.purchase_note@)),
                ("categories"@, JsonV::Arr(seq_jv_of(self.categories@))),
                ("tags"@, JsonV::Arr(seq_jv_of(self.tags@))),
                ("images"@, JsonV::Arr(seq_jv_of(self.images@))),
                ("attributes"@, JsonV::Arr(seq_jv_of(self.attributes@))),
            ],
    {
        push_field(fields, "reviews_allowed", JsonValue::Bool(self.reviews_allowed));
        push_field(fields, "average_rating", str_value(self.average_rating.as_str()));
        push_field(fields, "rating_count", num_i64(self.rating_count as i64));
        push_field(fields, "related_ids", arr_of_i32(&self.related_ids));
        push_field(fields, "upsell_ids", arr_of_i32(&self.upsell_ids));
        push_field(fields, "cross_sell_ids", arr_of_i32(&self.cross_sell_ids));
        push_field(fields, "parent_id", num_i64(self.parent_id as i64));
        push_field(fields, "purchase_note", str_value(self.purchase_note.as_str()));
        push_field(fields, "categories", vec_to_json(&self.categories));
        push_field(fields, "tags", vec_to_json(&self.tags));
        push_field(fields, "images", vec_to_json(&self.images));
        push_field(fields, "attributes", vec_to_json(&self.attributes));
        proof {
            assert(obj_jv(fields@) =~= obj_jv(old(fields)@) + seq![
                ("reviews_allowed"@, JsonV::Bool(self.reviews_allowed)),
                ("average_rating"@, JsonV::Str(self.average_rating@)),
                ("rating_count"@, JsonV::Num(dec_of(self.rating_count as int))),
                ("related_ids"@, JsonV::Arr(i32_seq_jv(self.related_ids@))),
                ("upsell_ids"@, JsonV::Arr(i32_seq_jv(self.upsell_ids@))),
                ("cross_sell_ids"@, JsonV::Arr(i32_seq_jv(self.cross_sell_ids@))),
                ("parent_id"@, JsonV::Num(dec_of(self.parent_id as int))),
                ("purchase_note"@, JsonV::Str(self.purchase_note@)),
                ("categories"@, JsonV::Arr(seq_jv_of(self.categories@))),
                ("tags"@, JsonV::Arr(seq_jv_of(self.tags@))),
                ("images"@, JsonV::Arr(seq_jv_of(self.images@))),
                ("attributes"@, JsonV::Arr(seq_jv_of(self.attributes@))),
            ]);
        }
    }

    fn jv_part6(&self, fields: &mut Vec<(String, JsonValue)>)
        ensures
            obj_jv(final(fields)@) == obj_jv(old(fields)@) + seq![
                ("default_attributes"@, JsonV::Arr(seq_jv_of(self.default_attributes@))),
                ("variations"@, JsonV::Arr(i32_seq_jv(self.variations@))),
                ("grouped_products"@, JsonV::Arr(i32_seq_jv(self.grouped_products@))),
                ("menu_order"@, JsonV::Num(dec_of(self.menu_order as int))),
                ("meta_data"@, JsonV::Arr(seq_jv_of(self.meta_data@))),
                ("_links"@, self._links.jv()),
            ],
    {
        push_field(fields, "default_attributes", vec_to_json(&self.default_attributes));
        push_field(fields, "variations", arr_of_i32(&self.variations));
        push_field(fields, "grouped_products", arr_of_i32(&self.grouped_products));
        push_field(fields, "menu_order", num_i64(self.menu_order as i64));
        push_field(fields, "meta_data", vec_to_json(&self.meta_data));
        push_field(fields, "_links", self._links.to_json());
        proof {
            assert(obj_jv(fields@) =~= obj_jv(old(fields)@) + seq![
                ("default_attributes"@, JsonV::Arr(seq_jv_of(self.default_attributes@))),
                ("variations"@, JsonV::Arr(i32_seq_jv(self.variations@))),
                ("grouped_products"@, JsonV::Arr(i32_seq_jv(self.grouped_products@))),
                ("menu_order"@, JsonV::Num(dec_of(self.menu_order as int))),
                ("meta_data"@, JsonV::Arr(seq_jv_of(self.meta_data@))),
                ("_links"@, self._links.jv()),
            ]);
        }
    }
}

impl JsonCodec for Product {
    open spec fn jv(self) -> JsonV {
        JsonV::Obj(
            seq![
                ("id"@, JsonV::Num(dec_of(self.id as int))),
                ("name"@, JsonV::Str(self.name@)),
                ("slug"@, JsonV::Str(self.slug@)),
                ("permalink"@, JsonV::Str(self.permalink@)),
                ("date_created"@, JsonV::Str(self.date_created@)),
                ("date_created_gmt"@, JsonV::Str(self.date_created_gmt@)),
                ("date_modified"@, JsonV::Str(self.date_modified@)),
                ("date_modified_gmt"@, JsonV::Str(self.date_modified_gmt@)),
                ("type"@, JsonV::Str(self.product_type@)),
                ("status"@, JsonV::Str(self.status@)),
                ("featured"@, JsonV::Bool(self.featured)),
                ("catalog_visibility"@, JsonV::Str(self.catalog_visibility@)),
                ("description"@, JsonV::Str(self.description@)),
                ("short_description"@, JsonV::Str(self.short_description@)),
                ("sku"@, JsonV::Str(self.sku@)),
                ("price"@, JsonV::Str(self.price@)),
                ("regular_price"@, JsonV::Str(self.regular_price@)),
                ("sale_price"@, JsonV::Str(self.sale_price@)),
                ("date_on_sale_from"@, opt_str_jv(self.date_on_sale_from)),
                ("date_on_sale_from_gmt"@, opt_str_jv(self.date_on_sale_from_gmt)),
                ("date_on_sale_to"@, opt_str_jv(self.date_on_sale_to)),
                ("date_on_sale_to_gmt"@, opt_str_jv(self.date_on_sale_to_gmt)),
                ("price_html"@, JsonV::Str(self.price_html@)),
                ("on_sale"@, JsonV::Bool(self.on_sale)),
                ("purchasable"@, JsonV::Bool(self.purchasable)),
                ("total_sales"@, JsonV::Num(dec_of(self.total_sales as int))),
                ("virtual"@, JsonV::Bool(self.virtual_type)),
                ("downloadable"@, JsonV::Bool(self.downloadable)),
                ("downloads"@, JsonV::Arr(seq_jv_of(self.downloads@))),
                ("download_limit"@, JsonV::Num(dec_of(self.download_limit as int))),
                ("download_expiry"@, JsonV::Num(dec_of(self.download_expiry as int))),
                ("external_url"@, JsonV::Str(self.external_url@)),
                ("button_text"@, JsonV::Str(self.button_text@)),
                ("tax_status"@, JsonV::Str(self.tax_status@)),
                ("tax_class"@, JsonV::Str(self.tax_class@)),
                ("manage_stock"@, JsonV::Bool(self.manage_stock)),
                ("stock_quantity"@, opt_i32_jv(self.stock_quantity)),
                ("stock_status"@, JsonV::Str(self.stock_status@)),
                ("backorders"@, JsonV::Str(self.backorders@)),
                ("backorders_allowed"@, JsonV::Bool(self.backorders_allowed)),
                ("backordered"@, JsonV::Bool(self.backordered)),
                ("sold_individually"@, JsonV::Bool(self.sold_individually)),
                ("weight"@, JsonV::Str(self.weight@)),
                ("dimensions"@, self.dimensions.jv()),
                ("shipping_required"@, JsonV::Bool(self.shipping_required)),
                ("shipping_taxable"@, JsonV::Bool(self.shipping_taxable)),
                ("shipping_class"@, JsonV::Str(self.shipping_class@)),
                ("shipping_class_id"@, JsonV::Num(dec_of(self.shipping_class_id as int))),
                ("reviews_allowed"@, JsonV::Bool(self.reviews_allowed)),
                ("average_rating"@, JsonV::Str(self.average_rating@)),
                ("rating_count"@, JsonV::Num(dec_of(self.rating_count as int))),
                ("related_ids"@, JsonV::Arr(i32_seq_jv(self.related_ids@))),
                ("upsell_ids"@, JsonV::Arr(i32_seq_jv(self.upsell_ids@))),
                ("cross_sell_ids"@, JsonV::Arr(i32_seq_jv(self.cross_sell_ids@))),
                ("parent_id"@, JsonV::Num(dec_of(self.parent_id as int))),
                ("purchase_note"@, JsonV::Str(self.purchase_note@)),
                ("categories"@, JsonV::Arr(seq_jv_of(self.categories@))),
                ("tags"@, JsonV::Arr(seq_jv_of(self.tags@))),
                ("images"@, JsonV::Arr(seq_jv_of(self.images@))),
                ("attributes"@, JsonV::Arr(seq_jv_of(self.attributes@))),
                ("default_attributes"@, JsonV::Arr(seq_jv_of(self.default_attributes@))),
                ("variations"@, JsonV::Arr(i32_seq_jv(self.variations@))),
                ("grouped_products"@, JsonV::Arr(i32_seq_jv(self.grouped_products@))),
                ("menu_order"@, JsonV::Num(dec_of(self.menu_order as int))),
                ("meta_data"@, JsonV::Arr(seq_jv_of(self.meta_data@))),
                ("_links"@, self._links.jv()),
            ],
        )
    }

    open spec fn agrees(self, j: JsonV) -> bool {
        &&& sp_get_i32(j, "id"@) == Some(self.id as int)
        &&& sp_get_str(j, "name"@) == Some(self.name@)
        &&& sp_get_str(j, "slug"@) == Some(self.slug@)
        &&& sp_get_str(j, "permalink"@) == Some(self.permalink@)
        &&& sp_get_str(j, "date_created"@) == Some(self.date_created@)
        &&& sp_get_str(j, "date_created_gmt"@) == Some(self.date_created_gmt@)
        &&& sp_get_str(j, "date_modified"@) == Some(self.date_modified@)
        &&& sp_get_str(j, "date_modified_gmt"@) == Some(self.date_modified_gmt@)
        &&& sp_get_str(j, "type"@) == Some(self.product_type@)
        &&& sp_get_str(j, "status"@) == Some(self.status@)
        &&& sp_get_bool(j, "featured"@) == Some(self.featured)
        &&& sp_get_str(j, "catalog_visibility"@) == Some(self.catalog_visibility@)
        &&& sp_get_str(j, "description"@) == Some(self.description@)
        &&& sp_get_str(j, "short_description"@) == Some(self.short_description@)
        &&& sp_get_str(j, "sku"@) == Some(self.sku@)
        &&& sp_get_str(j, "price"@) == Some(self.price@)
        &&& sp_get_str(j, "regular_price"@) == Some(self.regular_price@)
        &&& sp_get_defstr(j, "sale_price"@) == Some(self.sale_price@)
        &&& sp_get_opt_str(j, "date_on_sale_from"@) == Some(opt_str_view(self.date_on_sale_from))
        &&& sp_get_opt_str(j, "date_on_sale_from_gmt"@) == Some(opt_str_view(self.date_on_sale_from_gmt))
        &&& sp_get_opt_str(j, "date_on_sale_to"@) == Some(opt_str_view(self.date_on_sale_to))
        &&& sp_get_opt_str(j, "date_on_sale_to_gmt"@) == Some(opt_str_view(self.date_on_sale_to_gmt))
        &&& sp_get_str(j, "price_html"@) == Some(self.price_html@)
        &&& sp_get_bool(j, "on_sale"@) == Some(self.on_sale)
        &&& sp_get_bool(j, "purchasable"@) == Some(self.purchasable)
        &&& sp_get_i32(j, "total_sales"@) == Some(self.total_sales as int)
        &&& sp_get_bool(j, "virtual"@) == Some(self.virtual_type)
        &&& sp_get_bool(j, "downloadable"@) == Some(self.downloadable)
        &&& match sp_get_arr(j, "downloads"@) {
            Some(items) => all_agree(self.downloads@, items),
            None => false,
        }
        &&& sp_get_i32(j, "download_limit"@) == Some(self.download_limit as int)
        &&& sp_get_i32(j, "download_expiry"@) == Some(self.download_expiry as int)
        &&& sp_get_str(j, "external_url"@) == Some(self.external_url@)
        &&& sp_get_str(j, "button_text"@) == Some(self.button_text@)
        &&& sp_get_str(j, "tax_status"@) == Some(self.tax_status@)
        &&& sp_get_str(j, "tax_class"@) == Some(self.tax_class@)
        &&& sp_get_bool(j, "manage_stock"@) == Some(self.manage_stock)
        &&& sp_get_opt_i32(j, "stock_quantity"@) == Some(opt_i32_view(self.stock_quantity))
        &&& sp_get_str(j, "stock_status"@) == Some(self.stock_status@)
        &&& sp_get_str(j, "backorders"@) == Some(self.backorders@)
        &&& sp_get_bool(j, "backorders_allowed"@) == Some(self.backorders_allowed)
        &&& sp_get_bool(j, "backordered"@) == Some(self.backordered)
        &&& sp_get_bool(j, "sold_individually"@) == Some(self.sold_individually)
        &&& sp_get_str(j, "weight"@) == Some(self.weight@)
        &&& match jv_get(j, "dimensions"@) {
            Some(fj) => self.dimensions.agrees(fj),
            None => false,
        }
        &&& sp_get_bool(j, "shipping_required"@) == Some(self.shipping_required)
        &&& sp_get_bool(j, "shipping_taxable"@) == Some(self.shipping_taxable)
        &&& sp_get_str(j, "shipping_class"@) == Some(self.shipping_class@)
        &&& sp_get_i32(j, "shipping_class_id"@) == Some(self.shipping_class_id as int)
        &&& sp_get_bool(j, "reviews_allowed"@) == Some(self.reviews_allowed)
        &&& sp_get_str(j, "average_rating"@) == Some(self.average_rating@)
        &&& sp_get_i32(j, "rating_count"@) == Some(self.rating_count as int)
        &&& match sp_get_arr(j, "related_ids"@) {
            Some(items) => i32s_agree(self.related_ids@, items),
            None => false,
        }
        &&& match sp_get_arr(j, "upsell_ids"@) {
            Some(items) => i32s_agree(self.upsell_ids@, items),
            None => false,
        }
        &&& match sp_get_arr(j, "cross_sell_ids"@) {
            Some(items) => i32s_agree(self.cross_sell_ids@, items),
            None => false,
        }
        &&& sp_get_i32(j, "parent_id"@) == Some(self.parent_id as int)
        &&& sp_get_str(j, "purchase_note"@) == Some(self.purchase_note@)
        &&& match sp_get_arr(j, "categories"@) {
            Some(items) => all_agree(self.categories@, items),
            None => false,
        }
        &&& match sp_get_arr(j, "tags"@) {
            Some(items) => all_agree(self.tags@, items),
            None => false,
        }
        &&& match sp_get_arr(j, "images"@) {
            Some(items) => all_agree(self.images@, items),
            None => false,
        }
        &&& match sp_get_arr(j, "attributes"@) {
            Some(items) => all_agree(self.attributes@, items),
            None => false,
        }
        &&& match sp_get_arr(j, "default_attributes"@) {
            Some(items) => all_agree(self.default_attributes@, items),
            None => false,
        }
        &&& match sp_get_arr(j, "variations"@) {
            Some(items) => i32s_agree(self.variations@, items),
            None => false,
        }
        &&& match sp_get_arr(j, "grouped_products"@) {
            Some(items) => i32s_agree(self.grouped_products@, items),
            None => false,
        }
        &&& sp_get_i32(j, "menu_order"@) == Some(self.menu_order as int)
        &&& match sp_get_arr(j, "meta_data"@) {
            Some(items) => all_agree(self.meta_data@, items),
            None => false,
        }
        &&& match jv_get(j, "_links"@) {
            Some(fj) => self._links.agrees(fj),
            None => false,
        }
    }

    open spec fn shape_ok(j: JsonV) -> bool {
        &&& sp_get_i32(j, "id"@) is Some
        &&& sp_get_str(j, "name"@) is Some
        &&& sp_get_str(j, "slug"@) is Some
        &&& sp_get_str(j, "permalink"@) is Some
        &&& sp_get_str(j, "date_created"@) is Some
        &&& sp_get_str(j, "date_created_gmt"@) is Some
        &&& sp_get_str(j, "date_modified"@) is Some
        &&& sp_get_str(j, "date_modified_gmt"@) is Some
        &&& sp_get_str(j, "type"@) is Some
        &&& sp_get_str(j, "status"@) is Some
        &&& sp_get_bool(j, "featured"@) is Some
        &&& sp_get_str(j, "catalog_visibility"@) is Some
        &&& sp_get_str(j, "description"@) is Some
        &&& sp_get_str(j, "short_description"@) is Some
        &&& sp_get_str(j, "sku"@) is Some
        &&& sp_get_str(j, "price"@) is Some
        &&& sp_get_str(j, "regular_price"@) is Some
        &&& sp_get_defstr(j, "sale_price"@) is Some
        &&& sp_get_opt_str(j, "date_on_sale_from"@) is Some
        &&& sp_get_opt_str(j, "date_on_sale_from_gmt"@) is Some
        &&& sp_get_opt_str(j, "date_on_sale_to"@) is Some
        &&& sp_get_opt_str(j, "date_on_sale_to_gmt"@) is Some
        &&& sp_get_str(j, "price_html"@) is Some
        &&& sp_get_bool(j, "on_sale"@) is Some
        &&& sp_get_bool(j, "purchasable"@) is Some
        &&& sp_get_i32(j, "total_sales"@) is Some
        &&& sp_get_bool(j, "virtual"@) is Some
        &&& sp_get_bool(j, "downloadable"@) is Some
        &&& match sp_get_arr(j, "downloads"@) {
            Some(items) => all_shape_ok::<Download>(items),
            None => false,
        }
        &&& sp_get_i32(j, "download_limit"@) is Some
        &&& sp_get_i32(j, "download_expiry"@) is Some
        &&& sp_get_str(j, "external_url"@) is Some
        &&& sp_get_str(j, "button_text"@) is Some
        &&& sp_get_str(j, "tax_status"@) is Some
        &&& sp_get_str(j, "tax_class"@) is Some
        &&& sp_get_bool(j, "manage_stock"@) is Some
        &&& sp_get_opt_i32(j, "stock_quantity"@) is Some
        &&& sp_get_str(j, "stock_status"@) is Some
        &&& sp_get_str(j, "backorders"@) is Some
        &&& sp_get_bool(j, "backorders_allowed"@) is Some
        &&& sp_get_bool(j, "backordered"@) is Some
        &&& sp_get_bool(j, "sold_individually"@) is Some
        &&& sp_get_str(j, "weight"@) is Some
        &&& match jv_get(j, "dimensions"@) {
            Some(fj) => Dimensions::shape_ok(fj),
            None => false,
        }
        &&& sp_get_bool(j, "shipping_required"@) is Some
        &&& sp_get_bool(j, "shipping_taxable"@) is Some
        &&& sp_get_str(j, "shipping_class"@) is Some
        &&& sp_get_i32(j, "shipping_class_id"@) is Some
        &&& sp_get_bool(j, "reviews_allowed"@) is Some
        &&& sp_get_str(j, "average_rating"@) is Some
        &&& sp_get_i32(j, "rating_count"@) is Some
        &&& match sp_get_arr(j, "related_ids"@) {
            Some(items) => all_i32(items),
            None => false,
        }
        &&& match sp_get_arr(j, "upsell_ids"@) {
            Some(items) => all_i32(items),
            None => false,
        }
        &&& match sp_get_arr(j, "cross_sell_ids"@) {
            Some(items) => all_i32(items),
            None => false,
        }
        &&& sp_get_i32(j, "parent_id"@) is Some
        &&& sp_get_str(j, "purchase_note"@) is Some
        &&& match sp_get_arr(j, "categories"@) {
            Some(items) => all_shape_ok::<Category>(items),
            None => false,
        }
        &&& match sp_get_arr(j, "tags"@) {
            Some(items) => all_shape_ok::<Tag>(items),
            None => false,
        }
        &&& match sp_get_arr(j, "images"@) {
            Some(items) => all_shape_ok::<Image>(items),
            None => false,
        }
        &&& match sp_get_arr(j, "attributes"@) {
            Some(items) => all_shape_ok::<Attribute>(items),
            None => false,
        }
        &&& match sp_get_arr(j, "default_attributes"@) {
            Some(items) => all_shape_ok::<Attribute>(items),
            None => false,
        }
        &&& match sp_get_arr(j, "variations"@) {
            Some(items) => all_i32(items),
            None => false,
        }
        &&& match sp_get_arr(j, "grouped_products"@) {
            Some(items) => all_i32(items),
            None => false,
        }
        &&& sp_get_i32(j, "menu_order"@) is Some
        &&& match sp_get_arr(j, "meta_data"@) {
            Some(items) => all_shape_ok::<MetaData>(items),
            None => false,
        }
        &&& match jv_get(j, "_links"@) {
            Some(fj) => Links::shape_ok(fj),
            None => false,
        }
    }

    #[verifier::rlimit(100)]
    fn to_json(&self) -> (r: JsonValue) {
        let mut fields: Vec<(String, JsonValue)> = Vec::new();
        self.jv_part1(&mut fields);
        self.jv_part2(&mut fields);
        self.jv_part3(&mut fields);
        self.jv_part4(&mut fields);
        self.jv_part5(&mut fields);
        self.jv_part6(&mut fields);
        proof {
            assert(obj_jv(fields@) =~= seq![
                ("id"@, JsonV::Num(dec_of(self.id as int))),
                ("name"@, JsonV::Str(self.name@)),
                ("slug"@, JsonV::Str(self.slug@)),
                ("permalink"@, JsonV::Str(self.permalink@)),
                ("date_created"@, JsonV::Str(self.date_created@)),
                ("date_created_gmt"@, JsonV::Str(self.date_created_gmt@)),
                ("date_modified"@, JsonV::Str(self.date_modified@)),
                ("date_modified_gmt"@, JsonV::Str(self.date_modified_gmt@)),
                ("type"@, JsonV::Str(self.product_type@)),
                ("status"@, JsonV::Str(self.status@)),
                ("featured"@, JsonV::Bool(self.featured)),
                ("catalog_visibility"@, JsonV::Str(self.catalog_visibility@)),
                ("description"@, JsonV::Str(self.description@)),
                ("short_description"@, JsonV::Str(self.short_description@)),
                ("sku"@, JsonV::Str(self.sku@)),
                ("price"@, JsonV::Str(self.price@)),
                ("regular_price"@, JsonV::Str(self.regular_price@)),
                ("sale_price"@, JsonV::Str(self.sale_price@)),
                ("date_on_sale_from"@, opt_str_jv(self.date_on_sale_from)),
                ("date_on_sale_from_gmt"@, opt_str_jv(self.date_on_sale_from_gmt)),
                ("date_on_sale_to"@, opt_str_jv(self.date_on_sale_to)),
                ("date_on_sale_to_gmt"@, opt_str_jv(self.date_on_sale_to_gmt)),
                ("price_html"@, JsonV::Str(self.price_html@)),
                ("on_sale"@, JsonV::Bool(self.on_sale)),
                ("purchasable"@, JsonV::Bool(self.purchasable)),
                ("total_sales"@, JsonV::Num(dec_of(self.total_sales as int))),
                ("virtual"@, JsonV::Bool(self.virtual_type)),
                ("downloadable"@, JsonV::Bool(self.downloadable)),
                ("downloads"@, JsonV::Arr(seq_jv_of(self.downloads@))),
                ("download_limit"@, JsonV::Num(dec_of(self.download_limit as int))),
                ("download_expiry"@, JsonV::Num(dec_of(self.download_expiry as int))),
                ("external_url"@, JsonV::Str(self.external_url@)),
                ("button_text"@, JsonV::Str(self.button_text@)),
                ("tax_status"@, JsonV::Str(self.tax_status@)),
                ("tax_class"@, JsonV::Str(self.tax_class@)),
                ("manage_stock"@, JsonV::Bool(self.manage_stock)),
                ("stock_quantity"@, opt_i32_jv(self.stock_quantity)),
                ("stock_status"@, JsonV::Str(self.stock_status@)),
                ("backorders"@, JsonV::Str(self.backorders@)),
                ("backorders_allowed"@, JsonV::Bool(self.backorders_allowed)),
                ("backordered"@, JsonV::Bool(self.backordered)),
                ("sold_individually"@, JsonV::Bool(self.sold_individually)),
                ("weight"@, JsonV::Str(self.weight@)),
                ("dimensions"@, self.dimensions.jv()),
                ("shipping_required"@, JsonV::Bool(self.shipping_required)),
                ("shipping_taxable"@, JsonV::Bool(self.shipping_taxable)),
                ("shipping_class"@, JsonV::Str(self.shipping_class@)),
                ("shipping_class_id"@, JsonV::Num(dec_of(self.shipping_class_id as int))),
                ("reviews_allowed"@, JsonV::Bool(self.reviews_allowed)),
                ("average_rating"@, JsonV::Str(self.average_rating@)),
                ("rating_count"@, JsonV::Num(dec_of(self.rating_count as int))),
                ("related_ids"@, JsonV::Arr(i32_seq_jv(self.related_ids@))),
                ("upsell_ids"@, JsonV::Arr(i32_seq_jv(self.upsell_ids@))),
                ("cross_sell_ids"@, JsonV::Arr(i32_seq_jv(self.cross_sell_ids@))),
                ("parent_id"@, JsonV::Num(dec_of(self.parent_id as int))),
                ("purchase_note"@, JsonV::Str(self.purchase_note@)),
                ("categories"@, JsonV::Arr(seq_jv_of(self.categories@))),
                ("tags"@, JsonV::Arr(seq_jv_of(self.tags@))),
                ("images"@, JsonV::Arr(seq_jv_of(self.images@))),
                ("attributes"@, JsonV::Arr(seq_jv_of(self.attributes@))),
                ("default_attributes"@, JsonV::Arr(seq_jv_of(self.default_attributes@))),
                ("variations"@, JsonV::Arr(i32_seq_jv(self.variations@))),
                ("grouped_products"@, JsonV::Arr(i32_seq_jv(self.grouped_products@))),
                ("menu_order"@, JsonV::Num(dec_of(self.menu_order as int))),
                ("meta_data"@, JsonV::Arr(seq_jv_of(self.meta_data@))),
                ("_links"@, self._links.jv()),
            ]);
        }
        JsonValue::Obj(fields)
    }

    #[verifier::rlimit(100)]
    fn from_json(v: &JsonValue) -> (r: Option<Product>) {
        let id = match get_i32(v, "id") {
            Some(x) => x,
            None => {
                return None;
            },
        };
        let name = match get_string(v, "name") {
            Some(x) => x,
            None => {
                return None;
            },
        };
        let slug = match get_string(v, "slug") {
            Some(x) => x,
            None => {
                return None;
            },
        };
        let permalink = match get_string(v, "permalink") {
            Some(x) => x,
            None => {
                return None;
            },
        };
        let date_created = match get_string(v, "date_created") {
            Some(x) => x,
            None => {
                return None;
            },
        };
        let date_created_gmt = match get_string(v, "date_created_gmt") {
            Some(x) => x,
            None => {
                return None;
            },
        };
        let date_modified = match get_string(v, "date_modified") {
            Some(x) => x,
            None => {
                return None;
            },
        };
        let date_modified_gmt = match get_string(v, "date_modified_gmt") {
            Some(x) => x,
            None => {
                return None;
            },
        };
        let product_type = match get_string(v, "type") {
            Some(x) => x,
            None => {
                return None;
            },
        };
        let status = match get_string(v, "status") {
            Some(x) => x,
            None => {
                return None;
            },
        };
        let featured = match get_bool(v, "featured") {
            Some(x) => x,
            None => {
                return None;
            },
        };
        let catalog_visibility = match get_string(v, "catalog_visibility") {
            Some(x) => x,
            None => {
                return None;
            },
        };
        let description = match get_string(v, "description") {
            Some(x) => x,
            None => {
                return None;
            },
        };
        let short_description = match get_string(v, "short_description") {
            Some(x) => x,
            None => {
                return None;
            },
        };
        let sku = match get_string(v, "sku") {
            Some(x) => x,
            None => {
                return None;
            },
        };
        let price = match get_string(v, "price") {
            Some(x) => x,
            None => {
                return None;
            },
        };
        let regular_price = match get_string(v, "regular_price") {
            Some(x) => x,
            None => {
                return None;
            },
        };
        let sale_price = match get_defstr(v, "sale_price") {
            Some(x) => x,
            None => {
                return None;
            },
        };
        let date_on_sale_from = match get_opt_string(v, "date_on_sale_from") {
            Some(x) => x,
            None => {
                return None;
            },
        };
        let date_on_sale_from_gmt = match get_opt_string(v, "date_on_sale_from_gmt") {
            Some(x) => x,
            None => {
                return None;
            },
        };
        let date_on_sale_to = match get_opt_string(v, "date_on_sale_to") {
            Some(x) => x,
            None => {
                return None;
            },
        };
        let date_on_sale_to_gmt = match get_opt_string(v, "date_on_sale_to_gmt") {
            Some(x) => x,
            None => {
                return None;
            },
        };
        let price_html = match get_string(v, "price_html") {
            Some(x) => x,
            None => {
                return None;
            },
        };
        let on_sale = match get_bool(v, "on_sale") {
            Some(x) => x,
            None => {
                return None;
            },
        };
        let purchasable = match get_bool(v, "purchasable") {
            Some(x) => x,
            None => {
                return None;
            },
        };
        let total_sales = match get_i32(v, "total_sales") {
            Some(x) => x,
            None => {
                return None;
            },
        };
        let virtual_type = match get_bool(v, "virtual") {
            Some(x) => x,
            None => {
                return None;
            },
        };
        let downloadable = match get_bool(v, "downloadable") {
            Some(x) => x,
            None => {
                return None;
            },
        };
        let downloads = match get_codec_arr::<Download>(v, "downloads") {
            Some(x) => x,
            None => {
                return None;
            },
        };
        let download_limit = match get_i32(v, "download_limit") {
            Some(x) => x,
            None => {
                return None;
            },
        };
        let download_expiry = match get_i32(v, "download_expiry") {
            Some(x) => x,
            None => {
                return None;
            },
        };
        let external_url = match get_string(v, "external_url") {
            Some(x) => x,
            None => {
                return None;
            },
        };
        let button_text = match get_string(v, "button_text") {
            Some(x) => x,
            None => {
                return None;
            },
        };
        let tax_status = match get_string(v, "tax_status") {
            Some(x) => x,
            None => {
                return None;
            },
        };
        let tax_class = match get_string(v, "tax_class") {
            Some(x) => x,
            None => {
                return None;
            },
        };
        let manage_stock = match get_bool(v, "manage_stock") {
            Some(x) => x,
            None => {
                return None;
            },
        };
        let stock_quantity = match get_opt_i32(v, "stock_quantity") {
            Some(x) => x,
            None => {
                return None;
            },
        };
        let stock_status = match get_string(v, "stock_status") {
            Some(x) => x,
            None => {
                return None;
            },
        };
        let backorders = match get_string(v, "backorders") {
            Some(x) => x,
            None => {
                return None;
            },
        };
        let backorders_allowed = match get_bool(v, "backorders_allowed") {
            Some(x) => x,
            None => {
                return None;
            },
        };
        let backordered = match get_bool(v, "backordered") {
            Some(x) => x,
            None => {
                return None;
            },
        };
        let sold_individually = match get_bool(v, "sold_individually") {
            Some(x) => x,
            None => {
                return None;
            },
        };
        let weight = match get_string(v, "weight") {
            Some(x) => x,
            None => {
                return None;
            },
        };
        let dimensions = match v.get("dimensions") {
            Some(fj) => match Dimensions::from_json(fj) {
                Some(x) => x,
                None => {
                    return None;
                },
            },
            None => {
                return None;
            },
        };
        let shipping_required = match get_bool(v, "shipping_required") {
            Some(x) => x,
            None => {
                return None;
            },
        };
        let shipping_taxable = match get_bool(v, "shipping_taxable") {
            Some(x) => x,
            None => {
                return None;
            },
        };
        let shipping_class = match get_string(v, "shipping_class") {
            Some(x) => x,
            None => {
                return None;
            },
        };
        let shipping_class_id = match get_i32(v, "shipping_class_id") {
            Some(x) => x,
            None => {
                return None;
            },
        };
        let reviews_allowed = match get_bool(v, "reviews_allowed") {
            Some(x) => x,
            None => {
                return None;
            },
        };
        let average_rating = match get_string(v, "average_rating") {
            Some(x) => x,
            None => {
                return None;
            },
        };
        let rating_count = match get_i32(v, "rating_count") {
            Some(x) => x,
            None => {
                return None;
            },
        };
        let related_ids = match get_i32_arr(v, "related_ids") {
            Some(x) => x,
            None => {
                return None;
            },
        };
        let upsell_ids = match get_i32_arr(v, "upsell_ids") {
            Some(x) => x,
            None => {
                return None;
            },
        };
        let cross_sell_ids = match get_i32_arr(v, "cross_sell_ids") {
            Some(x) => x,
            None => {
                return None;
            },
        };
        let parent_id = match get_i32(v, "parent_id") {
            Some(x) => x,
            None => {
                return None;
            },
        };
        let purchase_note = match get_string(v, "purchase_note") {
            Some(x) => x,
            None => {
                return None;
            },
        };
        let categories = match get_codec_arr::<Category>(v, "categories") {
            Some(x) => x,
            None => {
                return None;
            },
        };
        let tags = match get_codec_arr::<Tag>(v, "tags") {
            Some(x) => x,
            None => {
                return None;
            },
        };
        let images = match get_codec_arr::<Image>(v, "images") {
            Some(x) => x,
            None => {
                return None;
            },
        };
        let attributes = match get_codec_arr::<Attribute>(v, "attributes") {
            Some(x) => x,
            None => {
                return None;
            },
        };
        let default_attributes = match get_codec_arr::<Attribute>(v, "default_attributes") {
            Some(x) => x,
            None => {
                return None;
            },
        };
        let variations = match get_i32_arr(v, "variations") {
            Some(x) => x,
            None => {
                return None;
            },
        };
        let grouped_products = match get_i32_arr(v, "grouped_products") {
            Some(x) => x,
            None => {
                return None;
            },
        };
        let menu_order = match get_i32(v, "menu_order") {
            Some(x) => x,
            None => {
                return None;
            },
        };
        let meta_data = match get_codec_arr::<MetaData>(v, "meta_data") {
            Some(x) => x,
            None => {
                return None;
            },
        };
        let _links = match v.get("_links") {
            Some(fj) => match Links::from_json(fj) {
                Some(x) => x,
                None => {
                    return None;
                },
            },
            None => {
                return None;
            },
        };
        Some(Product {
            id,
            name,
            slug,
            permalink,
            date_created,
            date_created_gmt,
            date_modified,
            date_modified_gmt,
            product_type,
            status,
            featured,
            catalog_visibility,
            description,
            short_description,
            sku,
            price,
            regular_price,
            sale_price,
            date_on_sale_from,
            date_on_sale_from_gmt,
            date_on_sale_to,
            date_on_sale_to_gmt,
            price_html,
            on_sale,
            purchasable,
            total_sales,
            virtual_type,
            downloadable,
            downloads,
            download_limit,
            download_expiry,
            external_url,
            button_text,
            tax_status,
            tax_class,
            manage_stock,
            stock_quantity,
            stock_status,
            backorders,
            backorders_allowed,
            backordered,
            sold_individually,
            weight,
            dimensions,
            shipping_required,
            shipping_taxable,
            shipping_class,
            shipping_class_id,
            reviews_allowed,
            average_rating,
            rating_count,
            related_ids,
            upsell_ids,
            cross_sell_ids,
            parent_id,
            purchase_note,
            categories,
            tags,
            images,
            attributes,
            default_attributes,
            variations,
            grouped_products,
            menu_order,
            meta_data,
            _links,
        })
    }
}

impl JsonCodec for Download {
    open spec fn jv(self) -> JsonV {
        JsonV::Obj(
            seq![
                ("id"@, JsonV::Num(dec_of(self.id as int))),
                ("date_created"@, JsonV::Str(self.date_created@)),
                ("date_created_gmt"@, JsonV::Str(self.date_created_gmt@)),
                ("date_modified"@, JsonV::Str(self.date_modified@)),
                ("date_modified_gmt"@, JsonV::Str(self.date_modified_gmt@)),
                ("src"@, JsonV::Str(self.src@)),
                ("name"@, JsonV::Str(self.name@)),
                ("alt"@, JsonV::Str(self.alt@)),
            ],
        )
    }

    open spec fn agrees(self, j: JsonV) -> bool {
        &&& sp_get_i32(j, "id"@) == Some(self.id as int)
        &&& sp_get_str(j, "date_created"@) == Some(self.date_created@)
        &&& sp_get_str(j, "date_created_gmt"@) == Some(self.date_created_gmt@)
        &&& sp_get_str(j, "date_modified"@) == Some(self.date_modified@)
        &&& sp_get_str(j, "date_modified_gmt"@) == Some(self.date_modified_gmt@)
        &&& sp_get_str(j, "src"@) == Some(self.src@)
        &&& sp_get_str(j, "name"@) == Some(self.name@)
        &&& sp_get_str(j, "alt"@) == Some(self.alt@)
    }

    open spec fn shape_ok(j: JsonV) -> bool {
        &&& sp_get_i32(j, "id"@) is Some
        &&& sp_get_str(j, "date_created"@) is Some
        &&& sp_get_str(j, "date_created_gmt"@) is Some
        &&& sp_get_str(j, "date_modified"@) is Some
        &&& sp_get_str(j, "date_modified_gmt"@) is Some
        &&& sp_get_str(j, "src"@) is Some
        &&& sp_get_str(j, "name"@) is Some
        &&& sp_get_str(j, "alt"@) is Some
    }

    fn to_json(&self) -> (r: JsonValue) {
        let mut fields: Vec<(String, JsonValue)> = Vec::new();
        push_field(&mut fields, "id", num_i64(self.id as i64));
        push_field(&mut fields, "date_created", str_value(self.date_created.as_str()));
        push_field(&mut fields, "date_created_gmt", str_value(self.date_created_gmt.as_str()));
        push_field(&mut fields, "date_modified", str_value(self.date_modified.as_str()));
        push_field(&mut fields, "date_modified_gmt", str_value(self.date_modified_gmt.as_str()));
        push_field(&mut fields, "src", str_value(self.src.as_str()));
        push_field(&mut fields, "name", str_value(self.name.as_str()));
        push_field(&mut fields, "alt", str_value(self.alt.as_str()));
        proof {
            assert(obj_jv(fields@) =~= seq![
                ("id"@, JsonV::Num(dec_of(self.id as int))),
                ("date_created"@, JsonV::Str(self.date_created@)),
                ("date_created_gmt"@, JsonV::Str(self.date_created_gmt@)),
                ("date_modified"@, JsonV::Str(self.date_modified@)),
                ("date_modified_gmt"@, JsonV::Str(self.date_modified_gmt@)),
                ("src"@, JsonV::Str(self.src@)),
                ("name"@, JsonV::Str(self.name@)),
                ("alt"@, JsonV::Str(self.alt@)),
            ]);
        }
        JsonValue::Obj(fields)
    }

    fn from_json(v: &JsonValue) -> (r: Option<Download>) {
        let id = match get_i32(v, "id") {
            Some(x) => x,
            None => {
                return None;
            },
        };
        let date_created = match get_string(v, "date_created") {
            Some(x) => x,
            None => {
                return None;
            },
        };
        let date_created_gmt = match get_string(v, "date_created_gmt") {
            Some(x) => x,
            None => {
                return None;
            },
        };
        let date_modified = match get_string(v, "date_modified") {
            Some(x) => x,
            None => {
                return None;
            },
        };
        let date_modified_gmt = match get_string(v, "date_modified_gmt") {
            Some(x) => x,
            None => {
                return None;
            },
        };
        let src = match get_string(v, "src") {
            Some(x) => x,
            None => {
                return None;
            },
        };
        let name = match get_string(v, "name") {
            Some(x) => x,
            None => {
                return None;
            },
        };
        let alt = match get_string(v, "alt") {
            Some(x) => x,
            None => {
                return None;
            },
        };
        Some(Download {
            id,
            date_created,
            date_created_gmt,
            date_modified,
            date_modified_gmt,
            src,
            name,
            alt,
        })
    }
}

impl JsonCodec for Dimensions {
    open spec fn jv(self) -> JsonV {
        JsonV::Obj(
            seq![
                ("length"@, JsonV::Str(self.length@)),
                ("width"@, JsonV::Str(self.width@)),
                ("height"@, JsonV::Str(self.height@)),
            ],
        )
    }

    open spec fn agrees(self, j: JsonV) -> bool {
        &&& sp_get_str(j, "length"@) == Some(self.length@)
        &&& sp_get_str(j, "width"@) == Some(self.width@)
        &&& sp_get_str(j, "height"@) == Some(self.height@)
    }

    open spec fn shape_ok(j: JsonV) -> bool {
        &&& sp_get_str(j, "length"@) is Some
        &&& sp_get_str(j, "width"@) is Some
        &&& sp_get_str(j, "height"@) is Some
    }

    fn to_json(&self) -> (r: JsonValue) {
        let mut fields: Vec<(String, JsonValue)> = Vec::new();
        push_field(&mut fields, "length", str_value(self.length.as_str()));
        push_field(&mut fields, "width", str_value(self.width.as_str()));
        push_field(&mut fields, "height", str_value(self.height.as_str()));
        proof {
            assert(obj_jv(fields@) =~= seq![
                ("length"@, JsonV::Str(self.length@)),
                ("width"@, JsonV::Str(self.width@)),
                ("height"@, JsonV::Str(self.height@)),
            ]);
        }
        JsonValue::Obj(fields)
    }

    fn from_json(v: &JsonValue) -> (r: Option<Dimensions>) {
        let length = match get_string(v, "length") {
            Some(x) => x,
            None => {
                return None;
            },
        };
        let width = match get_string(v, "width") {
            Some(x) => x,
            None => {
                return None;
            },
        };
        let height = match get_string(v, "height") {
            Some(x) => x,
            None => {
                return None;
            },
        };
        Some(Dimensions {
            length,
            width,
            height,
        })
    }
}

impl JsonCodec for Category {
    open spec fn jv(self) -> JsonV {
        JsonV::Obj(
            seq![
                ("id"@, JsonV::Num(dec_of(self.id as int))),
                ("name"@, JsonV::Str(self.name@)),
                ("slug"@, JsonV::Str(self.slug@)),
            ],
        )
    }

    open spec fn agrees(self, j: JsonV) -> bool {
        &&& sp_get_i32(j, "id"@) == Some(self.id as int)
        &&& sp_get_str(j, "name"@) == Some(self.name@)
        &&& sp_get_str(j, "slug"@) == Some(self.slug@)
    }

    open spec fn shape_ok(j: JsonV) -> bool {
        &&& sp_get_i32(j, "id"@) is Some
        &&& sp_get_str(j, "name"@) is Some
        &&& sp_get_str(j, "slug"@) is Some
    }

    fn to_json(&self) -> (r: JsonValue) {
        let mut fields: Vec<(String, JsonValue)> = Vec::new();
        push_field(&mut fields, "id", num_i64(self.id as i64));
        push_field(&mut fields, "name", str_value(self.name.as_str()));
        push_field(&mut fields, "slug", str_value(self.slug.as_str()));
        proof {
            assert(obj_jv(fields@) =~= seq![
                ("id"@, JsonV::Num(dec_of(self.id as int))),
                ("name"@, JsonV::Str(self.name@)),
                ("slug"@, JsonV::Str(self.slug@)),
            ]);
        }
        JsonValue::Obj(fields)
    }

    fn from_json(v: &JsonValue) -> (r: Option<Category>) {
        let id = match get_i32(v, "id") {
            Some(x) => x,
            None => {
                return None;
            },
        };
        let name = match get_string(v, "name") {
            Some(x) => x,
            None => {
                return None;
            },
        };
        let slug = match get_string(v, "slug") {
            Some(x) => x,
            None => {
                return None;
            },
        };
        Some(Category {
            id,
            name,
            slug,
        })
    }
}

impl JsonCodec for Tag {
    open spec fn jv(self) -> JsonV {
        JsonV::Obj(
            seq![
                ("id"@, JsonV::Num(dec_of(self.id as int))),
                ("name"@, JsonV::Str(self.name@)),
                ("slug"@, JsonV::Str(self.slug@)),
            ],
        )
    }

    open spec fn agrees(self, j: JsonV) -> bool {
        &&& sp_get_i32(j, "id"@) == Some(self.id as int)
        &&& sp_get_str(j, "name"@) == Some(self.name@)
        &&& sp_get_str(j, "slug"@) == Some(self.slug@)
    }

    open spec fn shape_ok(j: JsonV) -> bool {
        &&& sp_get_i32(j, "id"@) is Some
        &&& sp_get_str(j, "name"@) is Some
        &&& sp_get_str(j, "slug"@) is Some
    }

    fn to_json(&self) -> (r: JsonValue) {
        let mut fields: Vec<(String, JsonValue)> = Vec::new();
        push_field(&mut fields, "id", num_i64(self.id as i64));
        push_field(&mut fields, "name", str_value(self.name.as_str()));
        push_field(&mut fields, "slug", str_value(self.slug.as_str()));
        proof {
            assert(obj_jv(fields@) =~= seq![
                ("id"@, JsonV::Num(dec_of(self.id as int))),
                ("name"@, JsonV::Str(self.name@)),
                ("slug"@, JsonV::Str(self.slug@)),
            ]);
        }
        JsonValue::Obj(fields)
    }

    fn from_json(v: &JsonValue) -> (r: Option<Tag>) {
        let id = match get_i32(v, "id") {
            Some(x) => x,
            None => {
                return None;
            },
        };
        let name = match get_string(v, "name") {
            Some(x) => x,
            None => {
                return None;
            },
        };
        let slug = match get_string(v, "slug") {
            Some(x) => x,
            None => {
                return None;
            },
        };
        Some(Tag {
            id,
            name,
            slug,
        })
    }
}

impl JsonCodec for Image {
    open spec fn jv(self) -> JsonV {
        JsonV::Obj(
            seq![
                ("id"@, JsonV::Num(dec_of(self.id as int))),
                ("date_created"@, JsonV::Str(self.date_created@)),
                ("date_created_gmt"@, JsonV::Str(self.date_created_gmt@)),
                ("date_modified"@, JsonV::Str(self.date_modified@)),
                ("date_modified_gmt"@, JsonV::Str(self.date_modified_gmt@)),
                ("src"@, JsonV::Str(self.src@)),
                ("name"@, JsonV::Str(self.name@)),
                ("alt"@, JsonV::Str(self.alt@)),
            ],
        )
    }

    open spec fn agrees(self, j: JsonV) -> bool {
        &&& sp_get_i32(j, "id"@) == Some(self.id as int)
        &&& sp_get_str(j, "date_created"@) == Some(self.date_created@)
        &&& sp_get_str(j, "date_created_gmt"@) == Some(self.date_created_gmt@)
        &&& sp_get_str(j, "date_modified"@) == Some(self.date_modified@)
        &&& sp_get_str(j, "date_modified_gmt"@) == Some(self.date_modified_gmt@)
        &&& sp_get_str(j, "src"@) == Some(self.src@)
        &&& sp_get_str(j, "name"@) == Some(self.name@)
        &&& sp_get_str(j, "alt"@) == Some(self.alt@)
    }

    open spec fn shape_ok(j: JsonV) -> bool {
        &&& sp_get_i32(j, "id"@) is Some
        &&& sp_get_str(j, "date_created"@) is Some
        &&& sp_get_str(j, "date_created_gmt"@) is Some
        &&& sp_get_str(j, "date_modified"@) is Some
        &&& sp_get_str(j, "date_modified_gmt"@) is Some
        &&& sp_get_str(j, "src"@) is Some
        &&& sp_get_str(j, "name"@) is Some
        &&& sp_get_str(j, "alt"@) is Some
    }

    fn to_json(&self) -> (r: JsonValue) {
        let mut fields: Vec<(String, JsonValue)> = Vec::new();
        push_field(&mut fields, "id", num_i64(self.id as i64));
        push_field(&mut fields, "date_created", str_value(self.date_created.as_str()));
        push_field(&mut fields, "date_created_gmt", str_value(self.date_created_gmt.as_str()));
        push_field(&mut fields, "date_modified", str_value(self.date_modified.as_str()));
        push_field(&mut fields, "date_modified_gmt", str_value(self.date_modified_gmt.as_str()));
        push_field(&mut fields, "src", str_value(self.src.as_str()));
        push_field(&mut fields, "name", str_value(self.name.as_str()));
        push_field(&mut fields, "alt", str_value(self.alt.as_str()));
        proof {
            assert(obj_jv(fields@) =~= seq![
                ("id"@, JsonV::Num(dec_of(self.id as int))),
                ("date_created"@, JsonV::Str(self.date_created@)),
                ("date_created_gmt"@, JsonV::Str(self.date_created_gmt@)),
                ("date_modified"@, JsonV::Str(self.date_modified@)),
                ("date_modified_gmt"@, JsonV::Str(self.date_modified_gmt@)),
                ("src"@, JsonV::Str(self.src@)),
                ("name"@, JsonV::Str(self.name@)),
                ("alt"@, JsonV::Str(self.alt@)),
            ]);
        }
        JsonValue::Obj(fields)
    }

    fn from_json(v: &JsonValue) -> (r: Option<Image>) {
        let id = match get_i32(v, "id") {
            Some(x) => x,
            None => {
                return None;
            },
        };
        let date_created = match get_string(v, "date_created") {
            Some(x) => x,
            None => {
                return None;
            },
        };
        let date_created_gmt = match get_string(v, "date_created_gmt") {
            Some(x) => x,
            None => {
                return None;
            },
        };
        let date_modified = match get_string(v, "date_modified") {
            Some(x) => x,
            None => {
                return None;
            },
        };
        let date_modified_gmt = match get_string(v, "date_modified_gmt") {
            Some(x) => x,
            None => {
                return None;
            },
        };
        let src = match get_string(v, "src") {
            Some(x) => x,
            None => {
                return None;
            },
        };
        let name = match get_string(v, "name") {
            Some(x) => x,
            None => {
                return None;
            },
        };
        let alt = match get_string(v, "alt") {
            Some(x) => x,
            None => {
                return None;
            },
        };
        Some(Image {
            id,
            date_created,
            date_created_gmt,
            date_modified,
            date_modified_gmt,
            src,
            name,
            alt,
        })
    }
}

impl JsonCodec for Attribute {
    open spec fn jv(self) -> JsonV {
        JsonV::Obj(
            seq![
                ("id"@, JsonV::Num(dec_of(self.id as int))),
                ("name"@, JsonV::Str(self.name@)),
                ("position"@, JsonV::Num(dec_of(self.position as int))),
                ("visible"@, JsonV::Bool(self.visible)),
                ("variation"@, JsonV::Bool(self.variation)),
                ("options"@, JsonV::Arr(str_seq_jv(self.options@))),
            ],
        )
    }

    open spec fn agrees(self, j: JsonV) -> bool {
        &&& sp_get_i32(j, "id"@) == Some(self.id as int)
        &&& sp_get_str(j, "name"@) == Some(self.name@)
        &&& sp_get_i32(j, "position"@) == Some(self.position as int)
        &&& sp_get_bool(j, "visible"@) == Some(self.visible)
        &&& sp_get_bool(j, "variation"@) == Some(self.variation)
        &&& match sp_get_arr(j, "options"@) {
            Some(items) => strs_agree(self.options@, items),
            None => false,
        }
    }

    open spec fn shape_ok(j: JsonV) -> bool {
        &&& sp_get_i32(j, "id"@) is Some
        &&& sp_get_str(j, "name"@) is Some
        &&& sp_get_i32(j, "position"@) is Some
        &&& sp_get_bool(j, "visible"@) is Some
        &&& sp_get_bool(j, "variation"@) is Some
        &&& match sp_get_arr(j, "options"@) {
            Some(items) => all_str(items),
            None => false,
        }
    }

    fn to_json(&self) -> (r: JsonValue) {
        let mut fields: Vec<(String, JsonValue)> = Vec::new();
        push_field(&mut fields, "id", num_i64(self.id as i64));
        push_field(&mut fields, "name", str_value(self.name.as_str()));
        push_field(&mut fields, "position", num_i64(self.position as i64));
        push_field(&mut fields, "visible", JsonValue::Bool(self.visible));
        push_field(&mut fields, "variation", JsonValue::Bool(self.variation));
        push_field(&mut fields, "options", arr_of_strings(&self.options));
        proof {
            assert(obj_jv(fields@) =~= seq![
                ("id"@, JsonV::Num(dec_of(self.id as int))),
                ("name"@, JsonV::Str(self.name@)),
                ("position"@, JsonV::Num(dec_of(self.position as int))),
                ("visible"@, JsonV::Bool(self.visible)),
                ("variation"@, JsonV::Bool(self.variation)),
                ("options"@, JsonV::Arr(str_seq_jv(self.options@))),
            ]);
        }
        JsonValue::Obj(fields)
    }

    fn from_json(v: &JsonValue) -> (r: Option<Attribute>) {
        let id = match get_i32(v, "id") {
            Some(x) => x,
            None => {
                return None;
            },
        };
        let name = match get_string(v, "name") {
            Some(x) => x,
            None => {
                return None;
            },
        };
        let position = match get_i32(v, "position") {
            Some(x) => x,
            None => {
                return None;
            },
        };
        let visible = match get_bool(v, "visible") {
            Some(x) => x,
            None => {
                return None;
            },
        };
        let variation = match get_bool(v, "variation") {
            Some(x) => x,
            None => {
                return None;
            },
        };
        let options = match get_string_arr(v, "options") {
            Some(x) => x,
            None => {
                return None;
            },
        };
        Some(Attribute {
            id,
            name,
            position,
            visible,
            variation,
            options,
        })
    }
}

} // verus!
