//! Substructures shared across the resource models: arbitrary metadata
//! entries and hypermedia links.

use vstd::prelude::*;

use crate::codec::{
    all_agree, all_shape_ok, get_codec_arr, get_i32, get_string, num_i64, push_field, seq_jv_of,
    sp_get_arr, sp_get_i32, sp_get_str, str_value, vec_to_json, JsonCodec,
};
use crate::chars::dec_of;
use crate::json::{clone_value, jv_get, obj_jv, JsonV, JsonValue};

verus! {

broadcast use vstd::string::group_string_axioms;

/// One metadata entry: an id, an arbitrary key, and an open-ended JSON
/// value, since the remote API returns heterogeneous metadata types.
#[derive(Debug)]
pub struct MetaData {
    pub id: i32,
    pub key: String,
    pub value: JsonValue,
}

/// Hypermedia links of a resource; the first field's wire name is `self`.
#[derive(Debug)]
pub struct Links {
    pub self_link: Vec<Link>,
    pub collection: Vec<Link>,
}

#[derive(Debug)]
pub struct Link {
    pub href: String,
}

impl JsonCodec for Link {
    open spec fn jv(self) -> JsonV {
        JsonV::Obj(seq![("href"@, JsonV::Str(self.href@))])
    }

    open spec fn agrees(self, j: JsonV) -> bool {
        sp_get_str(j, "href"@) == Some(self.href@)
    }

    open spec fn shape_ok(j: JsonV) -> bool {
        sp_get_str(j, "href"@) is Some
    }

    fn to_json(&self) -> (r: JsonValue) {
        let mut fields: Vec<(String, JsonValue)> = Vec::new();
        push_field(&mut fields, "href", str_value(self.href.as_str()));
        proof {
            assert(obj_jv(fields@) =~= seq![("href"@, JsonV::Str(self.href@))]);
        }
        JsonValue::Obj(fields)
    }

    fn from_json(v: &JsonValue) -> (r: Option<Link>) {
        let href = match get_string(v, "href") {
            Some(s) => s,
            None => {
                return None;
            },
        };
        Some(Link { href })
    }
}

/// Two links hold the same data.
pub open spec fn link_eqv(a: Link, b: Link) -> bool {
    a.href@ == b.href@
}

/// Two link vectors hold the same data.
pub open spec fn link_seq_eqv(a: Seq<Link>, b: Seq<Link>) -> bool {
    a.len() == b.len() && (forall|k: int| 0 <= k < a.len() ==> link_eqv(a[k], b[k]))
}

/// A link's encoding decodes, and only to the same data.
pub proof fn lemma_link_roundtrip(x: Link, y: Link)
    ensures
        Link::shape_ok(x.jv()),
        y.agrees(x.jv()) ==> link_eqv(y, x),
{
}

impl JsonCodec for Links {
    open spec fn jv(self) -> JsonV {
        JsonV::Obj(
            seq![
                ("self"@, JsonV::Arr(seq_jv_of(self.self_link@))),
                ("collection"@, JsonV::Arr(seq_jv_of(self.collection@))),
            ],
        )
    }

    open spec fn agrees(self, j: JsonV) -> bool {
        &&& match sp_get_arr(j, "self"@) {
            Some(items) => all_agree(self.self_link@, items),
            None => false,
        }
        &&& match sp_get_arr(j, "collection"@) {
            Some(items) => all_agree(self.collection@, items),
            None => false,
        }
    }

    open spec fn shape_ok(j: JsonV) -> bool {
        &&& match sp_get_arr(j, "self"@) {
            Some(items) => all_shape_ok::<Link>(items),
            None => false,
        }
        &&& match sp_get_arr(j, "collection"@) {
            Some(items) => all_shape_ok::<Link>(items),
            None => false,
        }
    }

    fn to_json(&self) -> (r: JsonValue) {
        let mut fields: Vec<(String, JsonValue)> = Vec::new();
        push_field(&mut fields, "self", vec_to_json(&self.self_link));
        push_field(&mut fields, "collection", vec_to_json(&self.collection));
        proof {
            assert(obj_jv(fields@) =~= seq![
                ("self"@, JsonV::Arr(seq_jv_of(self.self_link@))),
                ("collection"@, JsonV::Arr(seq_jv_of(self.collection@))),
            ]);
        }
        JsonValue::Obj(fields)
    }

    fn from_json(v: &JsonValue) -> (r: Option<Links>) {
        let self_link = match get_codec_arr::<Link>(v, "self") {
            Some(xs) => xs,
            None => {
                return None;
            },
        };
        let collection = match get_codec_arr::<Link>(v, "collection") {
            Some(xs) => xs,
            None => {
                return None;
            },
        };
        Some(Links { self_link, collection })
    }
}

/// Two `Links` hold the same data.
pub open spec fn links_eqv(a: Links, b: Links) -> bool {
    link_seq_eqv(a.self_link@, b.self_link@) && link_seq_eqv(a.collection@, b.collection@)
}

/// A `Links`' encoding decodes, and only to the same data.
pub proof fn lemma_links_roundtrip(x: Links, y: Links)
    ensures
        Links::shape_ok(x.jv()),
        y.agrees(x.jv()) ==> links_eqv(y, x),
{
    reveal_with_fuel(crate::json::lookup, 4);
    reveal_strlit("self");
    reveal_strlit("collection");
    assert("self"@.len() == 4);
    assert("collection"@.len() == 10);
    assert("self"@ != "collection"@);
    assert(sp_get_arr(x.jv(), "self"@) == Some(seq_jv_of(x.self_link@)));
    assert(sp_get_arr(x.jv(), "collection"@) == Some(seq_jv_of(x.collection@)));
    assert forall|k: int| 0 <= k < x.self_link@.len() implies Link::shape_ok(
        seq_jv_of(x.self_link@)[k],
    ) by {
        lemma_link_roundtrip(x.self_link@[k], x.self_link@[k]);
    }
    assert forall|k: int| 0 <= k < x.collection@.len() implies Link::shape_ok(
        seq_jv_of(x.collection@)[k],
    ) by {
        lemma_link_roundtrip(x.collection@[k], x.collection@[k]);
    }
    if y.agrees(x.jv()) {
        assert forall|k: int| 0 <= k < x.self_link@.len() implies link_eqv(
            y.self_link@[k],
            x.self_link@[k],
        ) by {
            assert(y.self_link@[k].agrees(seq_jv_of(x.self_link@)[k]));
            lemma_link_roundtrip(x.self_link@[k], y.self_link@[k]);
        }
        assert forall|k: int| 0 <= k < x.collection@.len() implies link_eqv(
            y.collection@[k],
            x.collection@[k],
        ) by {
            assert(y.collection@[k].agrees(seq_jv_of(x.collection@)[k]));
            lemma_link_roundtrip(x.collection@[k], y.collection@[k]);
        }
    }
}

impl JsonCodec for MetaData {
    open spec fn jv(self) -> JsonV {
        JsonV::Obj(
            seq![
                ("id"@, JsonV::Num(dec_of(self.id as int))),
                ("key"@, JsonV::Str(self.key@)),
                ("value"@, self.value.jv()),
            ],
        )
    }

    open spec fn agrees(self, j: JsonV) -> bool {
        &&& sp_get_i32(j, "id"@) == Some(self.id as int)
        &&& sp_get_str(j, "key"@) == Some(self.key@)
        &&& jv_get(j, "value"@) == Some(self.value.jv())
    }

    open spec fn shape_ok(j: JsonV) -> bool {
        &&& sp_get_i32(j, "id"@) is Some
        &&& sp_get_str(j, "key"@) is Some
        &&& jv_get(j, "value"@) is Some
    }

    fn to_json(&self) -> (r: JsonValue) {
        let mut fields: Vec<(String, JsonValue)> = Vec::new();
        push_field(&mut fields, "id", num_i64(self.id as i64));
        push_field(&mut fields, "key", str_value(self.key.as_str()));
        push_field(&mut fields, "value", clone_value(&self.value));
        proof {
            assert(obj_jv(fields@) =~= seq![
                ("id"@, JsonV::Num(dec_of(self.id as int))),
                ("key"@, JsonV::Str(self.key@)),
                ("value"@, self.value.jv()),
            ]);
        }
        JsonValue::Obj(fields)
    }

    fn from_json(v: &JsonValue) -> (r: Option<MetaData>) {
        let id = match get_i32(v, "id") {
            Some(n) => n,
            None => {
                return None;
            },
        };
        let key = match get_string(v, "key") {
            Some(s) => s,
            None => {
                return None;
            },
        };
        let value = match v.get("value") {
            Some(f) => clone_value(f),
            None => {
                return None;
            },
        };
        Some(MetaData { id, key, value })
    }
}

/// Two metadata entries hold the same data.
pub open spec fn meta_eqv(a: MetaData, b: MetaData) -> bool {
    a.id == b.id && a.key@ == b.key@ && a.value.jv() == b.value.jv()
}

/// Two metadata vectors hold the same data.
pub open spec fn meta_seq_eqv(a: Seq<MetaData>, b: Seq<MetaData>) -> bool {
    a.len() == b.len() && (forall|k: int| 0 <= k < a.len() ==> meta_eqv(a[k], b[k]))
}

/// A metadata entry's encoding decodes, and only to the same data.
pub proof fn lemma_meta_roundtrip(x: MetaData, y: MetaData)
    ensures
        MetaData::shape_ok(x.jv()),
        y.agrees(x.jv()) ==> meta_eqv(y, x),
{
    reveal_with_fuel(crate::json::lookup, 5);
    reveal_strlit("id");
    reveal_strlit("key");
    reveal_strlit("value");
    assert("id"@.len() == 2);
    assert("key"@.len() == 3);
    assert("value"@.len() == 5);
    assert("id"@ != "key"@ && "id"@ != "value"@ && "key"@ != "value"@);
    assert(jv_get(x.jv(), "id"@) == Some(JsonV::Num(dec_of(x.id as int))));
    assert(jv_get(x.jv(), "key"@) == Some(JsonV::Str(x.key@)));
    assert(jv_get(x.jv(), "value"@) == Some(x.value.jv()));
    crate::chars::lemma_parse_dec_of(x.id as int);
    if y.agrees(x.jv()) {
        assert(y.id == x.id);
    }
}

} // verus!
