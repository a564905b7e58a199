//! Encoding hierarchy nodes back into document values: the structural
//! inverse of decoding. A node encodes as its `name`, its `type`
//! discriminant, its `value` payload, its `children` (only when present),
//! and its `attributes` (only when present — attributes are emitted by
//! encoding but never read back by decoding).

use vstd::prelude::*;
use crate::asset::{AssetId, AssetIdView};
use crate::hierarchy::{
    elements_view, ColorData, ColorView, GameElementDTO, GameElementTypeDTO, GameElementTypeView,
    GameElementView, IVec3Data, PartDTO, PartView, PointLightDTO, PointLightView, PropDTO,
    PropView, QuatData, ScriptDTO, ScriptView, SpotLightDTO, SpotLightView, StructureDTO,
    StructureView, TransformData, Vec3Data,
};
use crate::types::{Type, TypeDTO, TypeDefView, TypeView};
use crate::value::{
    entries_view, pairs_view, values_view, DocValue, NumValue, ValueView,
};

verus! {

broadcast use {crate::value::group_value_views, crate::hierarchy::group_element_views};

/// A double-precision bit pattern as a numeric leaf.
pub open spec fn enc_f64(b: u64) -> ValueView {
    ValueView::Num(NumValue { int: None, float_bits: Some(b) })
}

/// An integer as a numeric leaf.
pub open spec fn enc_i64(i: i64) -> ValueView {
    ValueView::Num(NumValue { int: Some(i), float_bits: None })
}

/// A 3D vector as an array of three numeric leaves.
pub open spec fn enc_vec3(v: Vec3Data) -> ValueView {
    ValueView::Arr(seq![enc_f64(v.x), enc_f64(v.y), enc_f64(v.z)])
}

/// Encodes a 3D vector.
pub fn encode_vec3(v: &Vec3Data) -> (r: DocValue)
    ensures
        r@ == enc_vec3(*v),
{
    let mut items: Vec<DocValue> = Vec::new();
    items.push(DocValue::Num(NumValue { int: None, float_bits: Some(v.x) }));
    items.push(DocValue::Num(NumValue { int: None, float_bits: Some(v.y) }));
    items.push(DocValue::Num(NumValue { int: None, float_bits: Some(v.z) }));
    let r = DocValue::Arr(items);
    proof {
        assert(items@[0]@ == enc_f64(v.x));
        assert(items@[1]@ == enc_f64(v.y));
        assert(items@[2]@ == enc_f64(v.z));
        assert(values_view(items@) =~= seq![enc_f64(v.x), enc_f64(v.y), enc_f64(v.z)]);
    }
    r
}

/// A quaternion as an array of four numeric leaves.
pub open spec fn enc_quat(q: QuatData) -> ValueView {
    ValueView::Arr(seq![enc_f64(q.x), enc_f64(q.y), enc_f64(q.z), enc_f64(q.w)])
}

/// Encodes a quaternion.
pub fn encode_quat(q: &QuatData) -> (r: DocValue)
    ensures
        r@ == enc_quat(*q),
{
    let mut items: Vec<DocValue> = Vec::new();
    items.push(DocValue::Num(NumValue { int: None, float_bits: Some(q.x) }));
    items.push(DocValue::Num(NumValue { int: None, float_bits: Some(q.y) }));
    items.push(DocValue::Num(NumValue { int: None, float_bits: Some(q.z) }));
    items.push(DocValue::Num(NumValue { int: None, float_bits: Some(q.w) }));
    let r = DocValue::Arr(items);
    proof {
        assert(items@[0]@ == enc_f64(q.x));
        assert(items@[1]@ == enc_f64(q.y));
        assert(items@[2]@ == enc_f64(q.z));
        assert(items@[3]@ == enc_f64(q.w));
        assert(values_view(items@) =~= seq![
            enc_f64(q.x),
            enc_f64(q.y),
            enc_f64(q.z),
            enc_f64(q.w),
        ]);
    }
    r
}

/// An integer grid vector as an array of three integer leaves.
pub open spec fn enc_ivec3(v: IVec3Data) -> ValueView {
    ValueView::Arr(seq![enc_i64(v.x as i64), enc_i64(v.y as i64), enc_i64(v.z as i64)])
}

/// Encodes an integer grid vector.
pub fn encode_ivec3(v: &IVec3Data) -> (r: DocValue)
    ensures
        r@ == enc_ivec3(*v),
{
    let mut items: Vec<DocValue> = Vec::new();
    items.push(DocValue::Num(NumValue { int: Some(v.x as i64), float_bits: None }));
    items.push(DocValue::Num(NumValue { int: Some(v.y as i64), float_bits: None }));
    items.push(DocValue::Num(NumValue { int: Some(v.z as i64), float_bits: None }));
    let r = DocValue::Arr(items);
    proof {
        assert(items@[0]@ == enc_i64(v.x as i64));
        assert(items@[1]@ == enc_i64(v.y as i64));
        assert(items@[2]@ == enc_i64(v.z as i64));
        assert(values_view(items@) =~= seq![
            enc_i64(v.x as i64),
            enc_i64(v.y as i64),
            enc_i64(v.z as i64),
        ]);
    }
    r
}

/// A color as an object with one entry: the model's name mapped to its
/// components, each a numeric leaf.
pub open spec fn enc_color(c: ColorView) -> ValueView {
    ValueView::Obj(
        seq![
            (
                c.model,
                ValueView::Obj(c.components.map_values(|p: (Seq<char>, u64)| (p.0, enc_f64(p.1)))),
            ),
        ],
    )
}

/// Encodes a color.
pub fn encode_color(c: &ColorData) -> (r: DocValue)
    ensures
        r@ == enc_color(c@),
{
    let mut comps: Vec<(String, DocValue)> = Vec::new();
    let n = c.components.len();
    let mut k: usize = 0;
    while k < n
        invariant
            n == c.components@.len(),
            k <= n,
            entries_view(comps@) =~= c@.components.map_values(
                |p: (Seq<char>, u64)| (p.0, enc_f64(p.1)),
            ).subrange(0, k as int),
        decreases n - k,
    {
        let name = c.components[k].0.clone();
        let bits = c.components[k].1;
        comps.push((name, DocValue::Num(NumValue { int: None, float_bits: Some(bits) })));
        proof {
            let ghost ci = k as int;
            assert(c@.components[ci] == (c.components@[ci].0@, c.components@[ci].1));
            assert(entries_view(comps@) =~= c@.components.map_values(
                |p: (Seq<char>, u64)| (p.0, enc_f64(p.1)),
            ).subrange(0, k as int + 1));
        }
        k += 1;
    }
    let mut entries: Vec<(String, DocValue)> = Vec::new();
    entries.push((c.model.clone(), DocValue::Obj(comps)));
    let r = DocValue::Obj(entries);
    proof {
        let m = c@.components.map_values(|p: (Seq<char>, u64)| (p.0, enc_f64(p.1)));
        assert(entries_view(comps@) =~= m.subrange(0, n as int));
        assert(m.subrange(0, n as int) =~= m);
        assert(entries_view(entries@) =~= seq![(c@.model, ValueView::Obj(m))]);
    }
    r
}

/// A placement as an object with `translation`, `rotation` and `scale`.
pub open spec fn enc_transform(t: TransformData) -> ValueView {
    ValueView::Obj(
        seq![
            ("translation"@, enc_vec3(t.translation)),
            ("rotation"@, enc_quat(t.rotation)),
            ("scale"@, enc_vec3(t.scale)),
        ],
    )
}

/// Encodes a placement.
pub fn encode_transform(t: &TransformData) -> (r: DocValue)
    ensures
        r@ == enc_transform(*t),
{
    let mut entries: Vec<(String, DocValue)> = Vec::new();
    entries.push(("translation".to_owned(), encode_vec3(&t.translation)));
    entries.push(("rotation".to_owned(), encode_quat(&t.rotation)));
    entries.push(("scale".to_owned(), encode_vec3(&t.scale)));
    let r = DocValue::Obj(entries);
    proof {
        assert(entries_view(entries@) =~= seq![
            ("translation"@, enc_vec3(t.translation)),
            ("rotation"@, enc_quat(t.rotation)),
            ("scale"@, enc_vec3(t.scale)),
        ]);
    }
    r
}

/// An asset identifier as its `type` discriminant and `value` payload.
pub open spec fn enc_asset_id(a: AssetIdView) -> ValueView {
    match a {
        AssetIdView::PublicCloud(id) => ValueView::Obj(
            seq![("type"@, ValueView::Str("PublicCloud"@)), ("value"@, ValueView::Str(id))],
        ),
        AssetIdView::PrivateCloud { asset_id, version_id } => ValueView::Obj(
            seq![
                ("type"@, ValueView::Str("PrivateCloud"@)),
                (
                    "value"@,
                    ValueView::Obj(
                        seq![
                            ("asset_id"@, ValueView::Str(asset_id)),
                            ("version_id"@, ValueView::Str(version_id)),
                        ],
                    ),
                ),
            ],
        ),
        AssetIdView::Local(path) => ValueView::Obj(
            seq![("type"@, ValueView::Str("Local"@)), ("value"@, ValueView::Str(path))],
        ),
    }
}

/// Encodes an asset identifier.
pub fn encode_asset_id(a: &AssetId) -> (r: DocValue)
    ensures
        r@ == enc_asset_id(a@),
{
    match a {
        AssetId::PublicCloud(id) => {
            let mut entries: Vec<(String, DocValue)> = Vec::new();
            entries.push(("type".to_owned(), DocValue::Str("PublicCloud".to_owned())));
            entries.push(("value".to_owned(), DocValue::Str(id.clone())));
            let r = DocValue::Obj(entries);
            proof {
                assert(entries_view(entries@) =~= seq![
                    ("type"@, ValueView::Str("PublicCloud"@)),
                    ("value"@, ValueView::Str(id@)),
                ]);
            }
            r
        },
        AssetId::PrivateCloud { asset_id, version_id } => {
            let mut inner: Vec<(String, DocValue)> = Vec::new();
            inner.push(("asset_id".to_owned(), DocValue::Str(asset_id.clone())));
            inner.push(("version_id".to_owned(), DocValue::Str(version_id.clone())));
            let mut entries: Vec<(String, DocValue)> = Vec::new();
            entries.push(("type".to_owned(), DocValue::Str("PrivateCloud".to_owned())));
            entries.push(("value".to_owned(), DocValue::Obj(inner)));
            let r = DocValue::Obj(entries);
            proof {
                assert(inner@[0].1@ == ValueView::Str(asset_id@));
                assert(inner@[1].1@ == ValueView::Str(version_id@));
                assert(entries_view(inner@) =~= seq![
                    ("asset_id"@, ValueView::Str(asset_id@)),
                    ("version_id"@, ValueView::Str(version_id@)),
                ]);
                assert(entries@[1].1@ == ValueView::Obj(entries_view(inner@)));
                assert(entries_view(entries@) =~= seq![
                    ("type"@, ValueView::Str("PrivateCloud"@)),
                    (
                        "value"@,
                        ValueView::Obj(
                            seq![
                                ("asset_id"@, ValueView::Str(asset_id@)),
                                ("version_id"@, ValueView::Str(version_id@)),
                            ],
                        ),
                    ),
                ]);
            }
            r
        },
        AssetId::Local(path) => {
            let mut entries: Vec<(String, DocValue)> = Vec::new();
            entries.push(("type".to_owned(), DocValue::Str("Local".to_owned())));
            entries.push(("value".to_owned(), DocValue::Str(path.clone())));
            let r = DocValue::Obj(entries);
            proof {
                assert(entries_view(entries@) =~= seq![
                    ("type"@, ValueView::Str("Local"@)),
                    ("value"@, ValueView::Str(path@)),
                ]);
            }
            r
        },
    }
}

/// A field type as its `type` discriminant and optional `value` default
/// (the referenced name, for a custom reference).
pub open spec fn enc_field_type(t: TypeView) -> ValueView {
    let tag = match t {
        TypeView::Boolean(_) => "Boolean"@,
        TypeView::Byte(_) => "Byte"@,
        TypeView::Short(_) => "Short"@,
        TypeView::Int(_) => "Int"@,
        TypeView::Long(_) => "Long"@,
        TypeView::Float(_) => "Float"@,
        TypeView::Double(_) => "Double"@,
        TypeView::Str(_) => "String"@,
        TypeView::Custom(_) => "Custom"@,
    };
    let val = match t {
        TypeView::Boolean(d) => match d {
            Some(b) => ValueView::Bool(b),
            None => ValueView::Null,
        },
        TypeView::Byte(d) => match d {
            Some(i) => enc_i64(i as i64),
            None => ValueView::Null,
        },
        TypeView::Short(d) => match d {
            Some(i) => enc_i64(i as i64),
            None => ValueView::Null,
        },
        TypeView::Int(d) => match d {
            Some(i) => enc_i64(i as i64),
            None => ValueView::Null,
        },
        TypeView::Long(d) => match d {
            Some(i) => enc_i64(i),
            None => ValueView::Null,
        },
        TypeView::Float(d) => match d {
            Some(b) => enc_f64(b),
            None => ValueView::Null,
        },
        TypeView::Double(d) => match d {
            Some(b) => enc_f64(b),
            None => ValueView::Null,
        },
        TypeView::Str(d) => match d {
            Some(s) => ValueView::Str(s),
            None => ValueView::Null,
        },
        TypeView::Custom(name) => ValueView::Str(name),
    };
    ValueView::Obj(seq![("type"@, ValueView::Str(tag)), ("value"@, val)])
}

/// Encodes a field type.
pub fn encode_field_type(t: &Type) -> (r: DocValue)
    ensures
        r@ == enc_field_type(t@),
{
    let tag: &str = match t {
        Type::BOOLEAN(_) => "Boolean",
        Type::BYTE(_) => "Byte",
        Type::SHORT(_) => "Short",
        Type::INT(_) => "Int",
        Type::LONG(_) => "Long",
        Type::FLOAT(_) => "Float",
        Type::DOUBLE(_) => "Double",
        Type::STRING(_) => "String",
        Type::CUSTOM(_) => "Custom",
    };
    let val: DocValue = match t {
        Type::BOOLEAN(d) => match d {
            Some(b) => DocValue::Bool(*b),
            None => DocValue::Null,
        },
        Type::BYTE(d) => match d {
            Some(i) => DocValue::Num(NumValue { int: Some(*i as i64), float_bits: None }),
            None => DocValue::Null,
        },
        Type::SHORT(d) => match d {
            Some(i) => DocValue::Num(NumValue { int: Some(*i as i64), float_bits: None }),
            None => DocValue::Null,
        },
        Type::INT(d) => match d {
            Some(i) => DocValue::Num(NumValue { int: Some(*i as i64), float_bits: None }),
            None => DocValue::Null,
        },
        Type::LONG(d) => match d {
            Some(i) => DocValue::Num(NumValue { int: Some(*i), float_bits: None }),
            None => DocValue::Null,
        },
        Type::FLOAT(d) => match d {
            Some(b) => DocValue::Num(NumValue { int: None, float_bits: Some(*b) }),
            None => DocValue::Null,
        },
        Type::DOUBLE(d) => match d {
            Some(b) => DocValue::Num(NumValue { int: None, float_bits: Some(*b) }),
            None => DocValue::Null,
        },
        Type::STRING(d) => match d {
            Some(s) => DocValue::Str(s.clone()),
            None => DocValue::Null,
        },
        Type::CUSTOM(name) => DocValue::Str(name.clone()),
    };
    let mut entries: Vec<(String, DocValue)> = Vec::new();
    entries.push(("type".to_owned(), DocValue::Str(tag.to_owned())));
    entries.push(("value".to_owned(), val));
    let r = DocValue::Obj(entries);
    proof {
        assert(r@ matches ValueView::Obj(o) && o =~= entries_view(entries@));
        assert(enc_field_type(t@) matches ValueView::Obj(o2) && entries_view(entries@) =~= o2);
    }
    r
}

/// A type definition as an object mapping field names to encoded field
/// types.
pub open spec fn enc_typedef(d: TypeDefView) -> ValueView {
    ValueView::Obj(d.fields.map_values(|p: (Seq<char>, TypeView)| (p.0, enc_field_type(p.1))))
}

/// Encodes a type definition.
pub fn encode_typedef(d: &TypeDTO) -> (r: DocValue)
    ensures
        r@ == enc_typedef(d@),
{
    let ghost m = d@.fields.map_values(|p: (Seq<char>, TypeView)| (p.0, enc_field_type(p.1)));
    let mut entries: Vec<(String, DocValue)> = Vec::new();
    let n = d.fields.len();
    let mut k: usize = 0;
    while k < n
        invariant
            n == d.fields@.len(),
            k <= n,
            m == d@.fields.map_values(|p: (Seq<char>, TypeView)| (p.0, enc_field_type(p.1))),
            m.len() == n,
            entries_view(entries@) =~= m.subrange(0, k as int),
        decreases n - k,
    {
        let name = d.fields[k].0.clone();
        let tv = encode_field_type(&d.fields[k].1);
        entries.push((name, tv));
        proof {
            assert(d@.fields[k as int] == (d.fields@[k as int].0@, d.fields@[k as int].1@));
            assert(entries_view(entries@) =~= m.subrange(0, k as int + 1));
        }
        k += 1;
    }
    let r = DocValue::Obj(entries);
    proof {
        assert(m.subrange(0, n as int) =~= m);
        assert(entries_view(entries@) =~= m);
    }
    r
}

/// A part payload's encoding.
pub open spec fn enc_part(p: PartView) -> ValueView {
    ValueView::Obj(
        seq![
            ("size"@, enc_vec3(p.size)),
            ("color"@, enc_color(p.color)),
            ("position"@, enc_transform(p.position)),
            ("gravity"@, ValueView::Bool(p.gravity)),
        ],
    )
}

/// Encodes a part payload.
pub fn encode_part(p: &PartDTO) -> (r: DocValue)
    ensures
        r@ == enc_part(p@),
{
    let mut entries: Vec<(String, DocValue)> = Vec::new();
    entries.push(("size".to_owned(), encode_vec3(&p.size)));
    entries.push(("color".to_owned(), encode_color(&p.color)));
    entries.push(("position".to_owned(), encode_transform(&p.position)));
    entries.push(("gravity".to_owned(), DocValue::Bool(p.gravity)));
    let r = DocValue::Obj(entries);
    proof {
        assert(entries@[3].1@ == ValueView::Bool(p.gravity));
        assert(entries_view(entries@) =~= seq![
            ("size"@, enc_vec3(p@.size)),
            ("color"@, enc_color(p@.color)),
            ("position"@, enc_transform(p@.position)),
            ("gravity"@, ValueView::Bool(p@.gravity)),
        ]);
    }
    r
}

/// A script payload's encoding.
pub open spec fn enc_script(s: ScriptView) -> ValueView {
    ValueView::Obj(seq![("asset_id"@, enc_asset_id(s.asset_id))])
}

/// Encodes a script payload.
pub fn encode_script(s: &ScriptDTO) -> (r: DocValue)
    ensures
        r@ == enc_script(s@),
{
    let mut entries: Vec<(String, DocValue)> = Vec::new();
    entries.push(("asset_id".to_owned(), encode_asset_id(&s.asset_id)));
    let r = DocValue::Obj(entries);
    proof {
        assert(entries_view(entries@) =~= seq![("asset_id"@, enc_asset_id(s@.asset_id))]);
    }
    r
}

/// A spot light payload's encoding.
pub open spec fn enc_spot_light(l: SpotLightView) -> ValueView {
    ValueView::Obj(
        seq![
            ("color"@, enc_color(l.color)),
            ("intensity"@, enc_f64(l.intensity)),
            ("range"@, enc_f64(l.range)),
            ("radius"@, enc_f64(l.radius)),
            ("shadows_enabled"@, ValueView::Bool(l.shadows_enabled)),
            ("outer_angle"@, enc_f64(l.outer_angle)),
            ("inner_angle"@, enc_f64(l.inner_angle)),
            ("position"@, enc_transform(l.position)),
        ],
    )
}

/// Encodes a spot light payload.
pub fn encode_spot_light(l: &SpotLightDTO) -> (r: DocValue)
    ensures
        r@ == enc_spot_light(l@),
{
    let mut entries: Vec<(String, DocValue)> = Vec::new();
    entries.push(("color".to_owned(), encode_color(&l.color)));
    entries.push(
        ("intensity".to_owned(), DocValue::Num(NumValue { int: None, float_bits: Some(l.intensity) })),
    );
    entries.push(
        ("range".to_owned(), DocValue::Num(NumValue { int: None, float_bits: Some(l.range) })),
    );
    entries.push(
        ("radius".to_owned(), DocValue::Num(NumValue { int: None, float_bits: Some(l.radius) })),
    );
    entries.push(("shadows_enabled".to_owned(), DocValue::Bool(l.shadows_enabled)));
    entries.push(
        (
            "outer_angle".to_owned(),
            DocValue::Num(NumValue { int: None, float_bits: Some(l.outer_angle) }),
        ),
    );
    entries.push(
        (
            "inner_angle".to_owned(),
            DocValue::Num(NumValue { int: None, float_bits: Some(l.inner_angle) }),
        ),
    );
    entries.push(("position".to_owned(), encode_transform(&l.position)));
    let r = DocValue::Obj(entries);
    proof {
        assert(entries@[1].1@ == enc_f64(l.intensity));
        assert(entries@[2].1@ == enc_f64(l.range));
        assert(entries@[3].1@ == enc_f64(l.radius));
        assert(entries@[4].1@ == ValueView::Bool(l.shadows_enabled));
        assert(entries@[5].1@ == enc_f64(l.outer_angle));
        assert(entries@[6].1@ == enc_f64(l.inner_angle));
        assert(entries_view(entries@) =~= seq![
            ("color"@, enc_color(l@.color)),
            ("intensity"@, enc_f64(l@.intensity)),
            ("range"@, enc_f64(l@.range)),
            ("radius"@, enc_f64(l@.radius)),
            ("shadows_enabled"@, ValueView::Bool(l@.shadows_enabled)),
            ("outer_angle"@, enc_f64(l@.outer_angle)),
            ("inner_angle"@, enc_f64(l@.inner_angle)),
            ("position"@, enc_transform(l@.position)),
        ]);
    }
    r
}

/// A point light payload's encoding.
pub open spec fn enc_point_light(l: PointLightView) -> ValueView {
    ValueView::Obj(
        seq![
            ("color"@, enc_color(l.color)),
            ("intensity"@, enc_f64(l.intensity)),
            ("range"@, enc_f64(l.range)),
            ("radius"@, enc_f64(l.radius)),
            ("shadows_enabled"@, ValueView::Bool(l.shadows_enabled)),
            ("position"@, enc_transform(l.position)),
        ],
    )
}

/// Encodes a point light payload.
pub fn encode_point_light(l: &PointLightDTO) -> (r: DocValue)
    ensures
        r@ == enc_point_light(l@),
{
    let mut entries: Vec<(String, DocValue)> = Vec::new();
    entries.push(("color".to_owned(), encode_color(&l.color)));
    entries.push(
        ("intensity".to_owned(), DocValue::Num(NumValue { int: None, float_bits: Some(l.intensity) })),
    );
    entries.push(
        ("range".to_owned(), DocValue::Num(NumValue { int: None, float_bits: Some(l.range) })),
    );
    entries.push(
        ("radius".to_owned(), DocValue::Num(NumValue { int: None, float_bits: Some(l.radius) })),
    );
    entries.push(("shadows_enabled".to_owned(), DocValue::Bool(l.shadows_enabled)));
    entries.push(("position".to_owned(), encode_transform(&l.position)));
    let r = DocValue::Obj(entries);
    proof {
        assert(entries@[1].1@ == enc_f64(l.intensity));
        assert(entries@[2].1@ == enc_f64(l.range));
        assert(entries@[3].1@ == enc_f64(l.radius));
        assert(entries@[4].1@ == ValueView::Bool(l.shadows_enabled));
        assert(entries_view(entries@) =~= seq![
            ("color"@, enc_color(l@.color)),
            ("intensity"@, enc_f64(l@.intensity)),
            ("range"@, enc_f64(l@.range)),
            ("radius"@, enc_f64(l@.radius)),
            ("shadows_enabled"@, ValueView::Bool(l@.shadows_enabled)),
            ("position"@, enc_transform(l@.position)),
        ]);
    }
    r
}

/// A prop payload's encoding.
pub open spec fn enc_prop(p: PropView) -> ValueView {
    ValueView::Obj(
        seq![
            ("asset_id"@, enc_asset_id(p.asset_id)),
            ("position"@, enc_ivec3(p.position)),
            ("rotation"@, enc_ivec3(p.rotation)),
        ],
    )
}

/// Encodes a prop payload.
pub fn encode_prop(p: &PropDTO) -> (r: DocValue)
    ensures
        r@ == enc_prop(p@),
{
    let mut entries: Vec<(String, DocValue)> = Vec::new();
    entries.push(("asset_id".to_owned(), encode_asset_id(&p.asset_id)));
    entries.push(("position".to_owned(), encode_ivec3(&p.position)));
    entries.push(("rotation".to_owned(), encode_ivec3(&p.rotation)));
    let r = DocValue::Obj(entries);
    proof {
        assert(entries_view(entries@) =~= seq![
            ("asset_id"@, enc_asset_id(p@.asset_id)),
            ("position"@, enc_ivec3(p@.position)),
            ("rotation"@, enc_ivec3(p@.rotation)),
        ]);
    }
    r
}

/// A structure payload's encoding.
pub open spec fn enc_structure(p: StructureView) -> ValueView {
    ValueView::Obj(
        seq![
            ("asset_id"@, enc_asset_id(p.asset_id)),
            ("position"@, enc_ivec3(p.position)),
            ("rotation"@, enc_ivec3(p.rotation)),
        ],
    )
}

/// Encodes a structure payload.
pub fn encode_structure(p: &StructureDTO) -> (r: DocValue)
    ensures
        r@ == enc_structure(p@),
{
    let mut entries: Vec<(String, DocValue)> = Vec::new();
    entries.push(("asset_id".to_owned(), encode_asset_id(&p.asset_id)));
    entries.push(("position".to_owned(), encode_ivec3(&p.position)));
    entries.push(("rotation".to_owned(), encode_ivec3(&p.rotation)));
    let r = DocValue::Obj(entries);
    proof {
        assert(entries_view(entries@) =~= seq![
            ("asset_id"@, enc_asset_id(p@.asset_id)),
            ("position"@, enc_ivec3(p@.position)),
            ("rotation"@, enc_ivec3(p@.rotation)),
        ]);
    }
    r
}

/// The `type` discriminant a node kind encodes under.
pub open spec fn enc_node_tag(k: GameElementTypeView) -> Seq<char> {
    match k {
        GameElementTypeView::Part(_) => "Part"@,
        GameElementTypeView::Folder => "Folder"@,
        GameElementTypeView::Script(_) => "Script"@,
        GameElementTypeView::SpotLight(_) => "SpotLight"@,
        GameElementTypeView::PointLight(_) => "PointLight"@,
        GameElementTypeView::Prop(_) => "Prop"@,
        GameElementTypeView::Structure(_) => "Structure"@,
    }
}

/// The `value` payload a node kind encodes as.
pub open spec fn enc_node_payload(k: GameElementTypeView) -> ValueView {
    match k {
        GameElementTypeView::Part(p) => enc_part(p),
        GameElementTypeView::Folder => ValueView::Obj(Seq::empty()),
        GameElementTypeView::Script(s) => enc_script(s),
        GameElementTypeView::SpotLight(l) => enc_spot_light(l),
        GameElementTypeView::PointLight(l) => enc_point_light(l),
        GameElementTypeView::Prop(p) => enc_prop(p),
        GameElementTypeView::Structure(p) => enc_structure(p),
    }
}

/// A node's encoding: `name`, `type` and `value` entries, a `children`
/// entry only when the node has children, and an `attributes` entry only
/// when the node carries attributes.
pub open spec fn enc_element(e: GameElementView) -> ValueView
    decreases e,
{
    ValueView::Obj(
        seq![
            ("name"@, ValueView::Str(e.name)),
            ("type"@, ValueView::Str(enc_node_tag(e.value))),
            ("value"@, enc_node_payload(e.value)),
        ] + (match e.children {
            Some(cs) => seq![("children"@, ValueView::Arr(enc_elements(cs)))],
            None => Seq::empty(),
        }) + (match e.attributes {
            Some(ats) => seq![
                (
                    "attributes"@,
                    ValueView::Obj(
                        ats.map_values(|p: (Seq<char>, TypeDefView)| (p.0, enc_typedef(p.1))),
                    ),
                ),
            ],
            None => Seq::empty(),
        }),
    )
}

/// The encodings of a sequence of nodes, in order.
pub open spec fn enc_elements(s: Seq<GameElementView>) -> Seq<ValueView>
    decreases s,
{
    Seq::new(
        s.len(),
        |i: int|
            if 0 <= i < s.len() {
                enc_element(s[i])
            } else {
                ValueView::Null
            },
    )
}

/// Encodes a hierarchy node.
pub fn encode_element(e: &GameElementDTO) -> (r: DocValue)
    ensures
        r@ == enc_element(e@),
    decreases e,
{
    let tag: &str = match &e.value {
        GameElementTypeDTO::Part(_) => "Part",
        GameElementTypeDTO::Folder(_) => "Folder",
        GameElementTypeDTO::Script(_) => "Script",
        GameElementTypeDTO::SpotLight(_) => "SpotLight",
        GameElementTypeDTO::PointLight(_) => "PointLight",
        GameElementTypeDTO::Prop(_) => "Prop",
        GameElementTypeDTO::Structure(_) => "Structure",
    };
    let payload: DocValue = match &e.value {
        GameElementTypeDTO::Part(p) => encode_part(p),
        GameElementTypeDTO::Folder(_) => DocValue::Obj(Vec::new()),
        GameElementTypeDTO::Script(s) => encode_script(s),
        GameElementTypeDTO::SpotLight(l) => encode_spot_light(l),
        GameElementTypeDTO::PointLight(l) => encode_point_light(l),
        GameElementTypeDTO::Prop(p) => encode_prop(p),
        GameElementTypeDTO::Structure(p) => encode_structure(p),
    };
    proof {
        assert(tag@ == enc_node_tag(e@.value));
        assert(payload@ == enc_node_payload(e@.value)) by {
            if e.value is Folder {
                assert(payload@ matches ValueView::Obj(o) && o =~= Seq::<
                    (Seq<char>, ValueView),
                >::empty());
            }
        }
    }
    let mut entries: Vec<(String, DocValue)> = Vec::new();
    entries.push(("name".to_owned(), DocValue::Str(e.name.clone())));
    entries.push(("type".to_owned(), DocValue::Str(tag.to_owned())));
    entries.push(("value".to_owned(), payload));
    match &e.children {
        Some(cs) => {
            let encoded = encode_elements(cs);
            entries.push(("children".to_owned(), DocValue::Arr(encoded)));
        },
        None => {},
    }
    match &e.attributes {
        Some(ats) => {
            let ghost m = pairs_view(ats@).map_values(
                |p: (Seq<char>, TypeDefView)| (p.0, enc_typedef(p.1)),
            );
            let mut attr_entries: Vec<(String, DocValue)> = Vec::new();
            let n = ats.len();
            let mut k: usize = 0;
            while k < n
                invariant
                    n == ats@.len(),
                    k <= n,
                    m == pairs_view(ats@).map_values(
                        |p: (Seq<char>, TypeDefView)| (p.0, enc_typedef(p.1)),
                    ),
                    m.len() == n,
                    entries_view(attr_entries@) =~= m.subrange(0, k as int),
                decreases n - k,
            {
                let name = ats[k].0.clone();
                let tv = encode_typedef(&ats[k].1);
                attr_entries.push((name, tv));
                proof {
                    let ghost ki = k as int;
                    assert(pairs_view(ats@)[ki] == (ats@[ki].0@, ats@[ki].1@));
                    assert(m[ki] == (ats@[ki].0@, enc_typedef(ats@[ki].1@)));
                    assert(entries_view(attr_entries@) =~= m.subrange(0, ki + 1));
                }
                k += 1;
            }
            proof {
                assert(m.subrange(0, n as int) =~= m);
            }
            entries.push(("attributes".to_owned(), DocValue::Obj(attr_entries)));
        },
        None => {},
    }
    let r = DocValue::Obj(entries);
    proof {
        let base = seq![
            ("name"@, ValueView::Str(e@.name)),
            ("type"@, ValueView::Str(enc_node_tag(e@.value))),
            ("value"@, enc_node_payload(e@.value)),
        ];
        let withc = base + (match e@.children {
            Some(cs) => seq![("children"@, ValueView::Arr(enc_elements(cs)))],
            None => Seq::<(Seq<char>, ValueView)>::empty(),
        });
        let full = withc + (match e@.attributes {
            Some(ats) => seq![
                (
                    "attributes"@,
                    ValueView::Obj(
                        ats.map_values(|p: (Seq<char>, TypeDefView)| (p.0, enc_typedef(p.1))),
                    ),
                ),
            ],
            None => Seq::<(Seq<char>, ValueView)>::empty(),
        });
        assert(e@.children matches Some(cs) ==> cs == elements_view(e.children->Some_0@));
        assert(entries_view(entries@) =~= full);
        assert(r@ == enc_element(e@));
    }
    r
}

/// Encodes a list of hierarchy nodes, in order.
pub fn encode_elements(items: &Vec<GameElementDTO>) -> (r: Vec<DocValue>)
    ensures
        values_view(r@) == enc_elements(elements_view(items@)),
    decreases items,
{
    let ghost s = elements_view(items@);
    let mut acc: Vec<DocValue> = Vec::new();
    let n = items.len();
    let mut k: usize = 0;
    while k < n
        invariant
            n == items@.len(),
            k <= n,
            s == elements_view(items@),
            acc@.len() == k,
            forall|m: int| 0 <= m < k ==> (#[trigger] acc@[m])@ == enc_element(s[m]),
        decreases n - k,
    {
        proof {
            assert(s[k as int] == items@[k as int]@);
        }
        let encoded = encode_element(&items[k]);
        acc.push(encoded);
        k += 1;
    }
    proof {
        assert(values_view(acc@) =~= enc_elements(s));
    }
    acc
}

} // verus!
