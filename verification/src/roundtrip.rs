//! The encode/decode round trip: encoding any hierarchy node tree and
//! decoding the result yields the original tree with the encode-only
//! `attributes` maps cleared.

use vstd::prelude::*;
use crate::decode::{
    dec_asset_id, dec_color, dec_components, dec_i32, dec_ivec3, dec_transform, dec_vec3,
};
use crate::encode::{
    enc_asset_id, enc_color, enc_element, enc_elements, enc_f64, enc_ivec3, enc_node_payload,
    enc_node_tag, enc_part, enc_point_light, enc_prop, enc_quat, enc_script, enc_spot_light,
    enc_structure, enc_transform, enc_vec3,
};
use crate::error::ConfigErrorView;
use crate::hierarchy::{
    ColorView, GameElementTypeView, GameElementView, IVec3Data, PartView, PointLightView, PropView,
    QuatData, ScriptView, SpotLightView, StructureView, TransformData, Vec3Data,
};
use crate::nodes::{
    dec_elements, dec_element, dec_node_kind, dec_part, dec_placed, dec_point_light, dec_script,
    dec_spot_light,
};
use crate::asset::AssetIdView;
use crate::value::{lemma_lookup_idx, lookup, lookup_idx, ValueView};

verus! {

/// The node with its encode-only attributes cleared, recursively.
pub open spec fn strip_attributes(e: GameElementView) -> GameElementView
    decreases e,
{
    GameElementView {
        name: e.name,
        value: e.value,
        children: match e.children {
            Some(cs) => Some(strip_elements(cs)),
            None => None,
        },
        attributes: None,
    }
}

/// Each node of the sequence with its attributes cleared.
pub open spec fn strip_elements(s: Seq<GameElementView>) -> Seq<GameElementView>
    decreases s,
{
    Seq::new(
        s.len(),
        |i: int|
            if 0 <= i < s.len() {
                strip_attributes(s[i])
            } else {
                crate::hierarchy::arbitrary_element_view()
            },
    )
}


/// The lengths of the wire words, and the disequalities between the
/// same-length ones, so that key lookups over encoded objects resolve.
proof fn lemma_wire_words()
    ensures
        "name"@.len() == 4,
        "type"@.len() == 4,
        "value"@.len() == 5,
        "children"@.len() == 8,
        "attributes"@.len() == 10,
        "translation"@.len() == 11,
        "rotation"@.len() == 8,
        "scale"@.len() == 5,
        "size"@.len() == 4,
        "color"@.len() == 5,
        "position"@.len() == 8,
        "gravity"@.len() == 7,
        "asset_id"@.len() == 8,
        "version_id"@.len() == 10,
        "intensity"@.len() == 9,
        "range"@.len() == 5,
        "radius"@.len() == 6,
        "shadows_enabled"@.len() == 15,
        "outer_angle"@.len() == 11,
        "inner_angle"@.len() == 11,
        "Part"@.len() == 4,
        "Folder"@.len() == 6,
        "Script"@.len() == 6,
        "SpotLight"@.len() == 9,
        "PointLight"@.len() == 10,
        "Prop"@.len() == 4,
        "Structure"@.len() == 9,
        "PublicCloud"@.len() == 11,
        "PrivateCloud"@.len() == 12,
        "Local"@.len() == 5,
        "name"@ != "type"@,
        "color"@ != "range"@,
        "outer_angle"@ != "inner_angle"@,
        "position"@ != "asset_id"@,
        "rotation"@ != "asset_id"@,
        "rotation"@ != "position"@,
        "Part"@ != "Prop"@,
        "Folder"@ != "Script"@,
        "SpotLight"@ != "Structure"@,
{
    reveal_strlit("name");
    reveal_strlit("type");
    reveal_strlit("value");
    reveal_strlit("children");
    reveal_strlit("attributes");
    reveal_strlit("translation");
    reveal_strlit("rotation");
    reveal_strlit("scale");
    reveal_strlit("size");
    reveal_strlit("color");
    reveal_strlit("position");
    reveal_strlit("gravity");
    reveal_strlit("asset_id");
    reveal_strlit("version_id");
    reveal_strlit("intensity");
    reveal_strlit("range");
    reveal_strlit("radius");
    reveal_strlit("shadows_enabled");
    reveal_strlit("outer_angle");
    reveal_strlit("inner_angle");
    reveal_strlit("Part");
    reveal_strlit("Folder");
    reveal_strlit("Script");
    reveal_strlit("SpotLight");
    reveal_strlit("PointLight");
    reveal_strlit("Prop");
    reveal_strlit("Structure");
    reveal_strlit("PublicCloud");
    reveal_strlit("PrivateCloud");
    reveal_strlit("Local");
    assert("name"@[0] == 'n' && "type"@[0] == 't');
    assert("color"@[0] == 'c' && "range"@[0] == 'r');
    assert("outer_angle"@[0] == 'o' && "inner_angle"@[0] == 'i');
    assert("position"@[0] == 'p' && "asset_id"@[0] == 'a' && "rotation"@[0] == 'r');
    assert("Part"@[1] == 'a' && "Prop"@[1] == 'r');
    assert("Folder"@[0] == 'F' && "Script"@[0] == 'S');
    assert("SpotLight"@[1] == 'p' && "Structure"@[1] == 't');
}

proof fn lemma_vec3_rt(v: Vec3Data, ctx: Seq<char>, field: Seq<char>)
    ensures
        dec_vec3(enc_vec3(v), ctx, field) == Ok::<Vec3Data, ConfigErrorView>(v),
{
}

proof fn lemma_quat_rt(q: QuatData, ctx: Seq<char>, field: Seq<char>)
    ensures
        crate::decode::dec_quat(enc_quat(q), ctx, field) == Ok::<QuatData, ConfigErrorView>(q),
{
}

proof fn lemma_ivec3_rt(v: IVec3Data, ctx: Seq<char>, field: Seq<char>)
    ensures
        dec_ivec3(enc_ivec3(v), ctx, field) == Ok::<IVec3Data, ConfigErrorView>(v),
{
    assert(dec_i32(crate::encode::enc_i64(v.x as i64), ctx, field) == Ok::<i32, ConfigErrorView>(
        v.x,
    ));
    assert(dec_i32(crate::encode::enc_i64(v.y as i64), ctx, field) == Ok::<i32, ConfigErrorView>(
        v.y,
    ));
    assert(dec_i32(crate::encode::enc_i64(v.z as i64), ctx, field) == Ok::<i32, ConfigErrorView>(
        v.z,
    ));
}

proof fn lemma_components_rt(
    cs: Seq<(Seq<char>, u64)>,
    k: int,
    acc: Seq<(Seq<char>, u64)>,
    ctx: Seq<char>,
    field: Seq<char>,
)
    requires
        0 <= k <= cs.len(),
    ensures
        dec_components(
            cs.map_values(|p: (Seq<char>, u64)| (p.0, enc_f64(p.1))),
            k,
            acc,
            ctx,
            field,
        ) == Ok::<Seq<(Seq<char>, u64)>, ConfigErrorView>(acc + cs.subrange(k, cs.len() as int)),
    decreases cs.len() - k,
{
    let m = cs.map_values(|p: (Seq<char>, u64)| (p.0, enc_f64(p.1)));
    if k == cs.len() {
        assert(acc + cs.subrange(k, cs.len() as int) =~= acc);
    } else {
        assert(m[k] == (cs[k].0, enc_f64(cs[k].1)));
        lemma_components_rt(cs, k + 1, acc.push(cs[k]), ctx, field);
        assert(acc.push(cs[k]) + cs.subrange(k + 1, cs.len() as int) =~= acc + cs.subrange(
            k,
            cs.len() as int,
        ));
    }
}

proof fn lemma_color_rt(c: ColorView, ctx: Seq<char>, field: Seq<char>)
    ensures
        dec_color(enc_color(c), ctx, field) == Ok::<ColorView, ConfigErrorView>(c),
{
    lemma_components_rt(c.components, 0, Seq::empty(), ctx, field);
    assert(Seq::<(Seq<char>, u64)>::empty() + c.components.subrange(
        0,
        c.components.len() as int,
    ) =~= c.components);
}

proof fn lemma_transform_rt(t: TransformData, ctx: Seq<char>, field: Seq<char>)
    ensures
        dec_transform(enc_transform(t), ctx, field) == Ok::<TransformData, ConfigErrorView>(t),
{
    lemma_wire_words();
    let o = seq![
        ("translation"@, enc_vec3(t.translation)),
        ("rotation"@, enc_quat(t.rotation)),
        ("scale"@, enc_vec3(t.scale)),
    ];
    lemma_lookup_idx(o, "translation"@);
    assert(lookup_idx(o, "translation"@) == 0);
    lemma_lookup_idx(o, "rotation"@);
    assert(lookup_idx(o, "rotation"@) == 1);
    lemma_lookup_idx(o, "scale"@);
    assert(lookup_idx(o, "scale"@) == 2);
    lemma_vec3_rt(t.translation, ctx, "translation"@);
    lemma_quat_rt(t.rotation, ctx, "rotation"@);
    lemma_vec3_rt(t.scale, ctx, "scale"@);
}

proof fn lemma_asset_id_rt(a: AssetIdView, ctx: Seq<char>, field: Seq<char>)
    ensures
        dec_asset_id(enc_asset_id(a), ctx, field) == Ok::<AssetIdView, ConfigErrorView>(a),
{
    lemma_wire_words();
    match a {
        AssetIdView::PublicCloud(id) => {
            let o = seq![("type"@, ValueView::Str("PublicCloud"@)), ("value"@, ValueView::Str(id))];
            lemma_lookup_idx(o, "type"@);
            assert(lookup_idx(o, "type"@) == 0);
            lemma_lookup_idx(o, "value"@);
            assert(lookup_idx(o, "value"@) == 1);
        },
        AssetIdView::PrivateCloud { asset_id, version_id } => {
            let inner = seq![
                ("asset_id"@, ValueView::Str(asset_id)),
                ("version_id"@, ValueView::Str(version_id)),
            ];
            let o = seq![
                ("type"@, ValueView::Str("PrivateCloud"@)),
                ("value"@, ValueView::Obj(inner)),
            ];
            lemma_lookup_idx(o, "type"@);
            assert(lookup_idx(o, "type"@) == 0);
            lemma_lookup_idx(o, "value"@);
            assert(lookup_idx(o, "value"@) == 1);
            lemma_lookup_idx(inner, "asset_id"@);
            assert(lookup_idx(inner, "asset_id"@) == 0);
            lemma_lookup_idx(inner, "version_id"@);
            assert(lookup_idx(inner, "version_id"@) == 1);
            assert("PrivateCloud"@ != "PublicCloud"@);
        },
        AssetIdView::Local(path) => {
            let o = seq![("type"@, ValueView::Str("Local"@)), ("value"@, ValueView::Str(path))];
            lemma_lookup_idx(o, "type"@);
            assert(lookup_idx(o, "type"@) == 0);
            lemma_lookup_idx(o, "value"@);
            assert(lookup_idx(o, "value"@) == 1);
            assert("Local"@ != "PublicCloud"@ && "Local"@ != "PrivateCloud"@);
        },
    }
}

proof fn lemma_part_rt(p: PartView, nm: Seq<char>)
    ensures
        dec_part(crate::encode::enc_part(p), nm) == Ok::<PartView, ConfigErrorView>(p),
{
    lemma_wire_words();
    let o = seq![
        ("size"@, enc_vec3(p.size)),
        ("color"@, enc_color(p.color)),
        ("position"@, enc_transform(p.position)),
        ("gravity"@, ValueView::Bool(p.gravity)),
    ];
    lemma_lookup_idx(o, "size"@);
    assert(lookup_idx(o, "size"@) == 0);
    lemma_lookup_idx(o, "color"@);
    assert(lookup_idx(o, "color"@) == 1);
    lemma_lookup_idx(o, "position"@);
    assert(lookup_idx(o, "position"@) == 2);
    lemma_lookup_idx(o, "gravity"@);
    assert(lookup_idx(o, "gravity"@) == 3);
    lemma_vec3_rt(p.size, nm, "size"@);
    lemma_color_rt(p.color, nm, "color"@);
    lemma_transform_rt(p.position, nm, "position"@);
}

proof fn lemma_script_rt(s: ScriptView, nm: Seq<char>)
    ensures
        dec_script(enc_script(s), nm) == Ok::<ScriptView, ConfigErrorView>(s),
{
    lemma_wire_words();
    let o = seq![("asset_id"@, enc_asset_id(s.asset_id))];
    lemma_lookup_idx(o, "asset_id"@);
    assert(lookup_idx(o, "asset_id"@) == 0);
    lemma_asset_id_rt(s.asset_id, nm, "asset_id"@);
}

proof fn lemma_spot_light_rt(l: SpotLightView, nm: Seq<char>)
    ensures
        dec_spot_light(enc_spot_light(l), nm) == Ok::<SpotLightView, ConfigErrorView>(l),
{
    lemma_wire_words();
    let o = seq![
        ("color"@, enc_color(l.color)),
        ("intensity"@, enc_f64(l.intensity)),
        ("range"@, enc_f64(l.range)),
        ("radius"@, enc_f64(l.radius)),
        ("shadows_enabled"@, ValueView::Bool(l.shadows_enabled)),
        ("outer_angle"@, enc_f64(l.outer_angle)),
        ("inner_angle"@, enc_f64(l.inner_angle)),
        ("position"@, enc_transform(l.position)),
    ];
    lemma_lookup_idx(o, "color"@);
    assert(lookup_idx(o, "color"@) == 0);
    lemma_lookup_idx(o, "intensity"@);
    assert(lookup_idx(o, "intensity"@) == 1);
    lemma_lookup_idx(o, "range"@);
    assert(lookup_idx(o, "range"@) == 2);
    lemma_lookup_idx(o, "radius"@);
    assert(lookup_idx(o, "radius"@) == 3);
    lemma_lookup_idx(o, "shadows_enabled"@);
    assert(lookup_idx(o, "shadows_enabled"@) == 4);
    lemma_lookup_idx(o, "outer_angle"@);
    assert(lookup_idx(o, "outer_angle"@) == 5);
    lemma_lookup_idx(o, "inner_angle"@);
    assert(lookup_idx(o, "inner_angle"@) == 6);
    lemma_lookup_idx(o, "position"@);
    assert(lookup_idx(o, "position"@) == 7);
    lemma_color_rt(l.color, nm, "color"@);
    lemma_transform_rt(l.position, nm, "position"@);
}

proof fn lemma_point_light_rt(l: PointLightView, nm: Seq<char>)
    ensures
        dec_point_light(enc_point_light(l), nm) == Ok::<PointLightView, ConfigErrorView>(l),
{
    lemma_wire_words();
    let o = seq![
        ("color"@, enc_color(l.color)),
        ("intensity"@, enc_f64(l.intensity)),
        ("range"@, enc_f64(l.range)),
        ("radius"@, enc_f64(l.radius)),
        ("shadows_enabled"@, ValueView::Bool(l.shadows_enabled)),
        ("position"@, enc_transform(l.position)),
    ];
    lemma_lookup_idx(o, "color"@);
    assert(lookup_idx(o, "color"@) == 0);
    lemma_lookup_idx(o, "intensity"@);
    assert(lookup_idx(o, "intensity"@) == 1);
    lemma_lookup_idx(o, "range"@);
    assert(lookup_idx(o, "range"@) == 2);
    lemma_lookup_idx(o, "radius"@);
    assert(lookup_idx(o, "radius"@) == 3);
    lemma_lookup_idx(o, "shadows_enabled"@);
    assert(lookup_idx(o, "shadows_enabled"@) == 4);
    lemma_lookup_idx(o, "position"@);
    assert(lookup_idx(o, "position"@) == 5);
    lemma_color_rt(l.color, nm, "color"@);
    lemma_transform_rt(l.position, nm, "position"@);
}

proof fn lemma_placed_rt(asset_id: AssetIdView, position: IVec3Data, rotation: IVec3Data, nm: Seq<char>)
    ensures
        dec_placed(enc_prop(PropView { asset_id, position, rotation }), nm) == Ok::<
            PropView,
            ConfigErrorView,
        >(PropView { asset_id, position, rotation }),
        dec_placed(enc_structure(StructureView { asset_id, position, rotation }), nm) == Ok::<
            PropView,
            ConfigErrorView,
        >(PropView { asset_id, position, rotation }),
{
    lemma_wire_words();
    let o = seq![
        ("asset_id"@, enc_asset_id(asset_id)),
        ("position"@, enc_ivec3(position)),
        ("rotation"@, enc_ivec3(rotation)),
    ];
    lemma_lookup_idx(o, "asset_id"@);
    assert(lookup_idx(o, "asset_id"@) == 0);
    lemma_lookup_idx(o, "position"@);
    assert(lookup_idx(o, "position"@) == 1);
    lemma_lookup_idx(o, "rotation"@);
    assert(lookup_idx(o, "rotation"@) == 2);
    lemma_asset_id_rt(asset_id, nm, "asset_id"@);
    lemma_ivec3_rt(position, nm, "position"@);
    lemma_ivec3_rt(rotation, nm, "rotation"@);
}

proof fn lemma_node_kind_rt(k: GameElementTypeView, nm: Seq<char>)
    ensures
        dec_node_kind(enc_node_tag(k), enc_node_payload(k), nm) == Ok::<
            GameElementTypeView,
            ConfigErrorView,
        >(k),
{
    lemma_wire_words();
    match k {
        GameElementTypeView::Part(p) => {
            lemma_part_rt(p, nm);
        },
        GameElementTypeView::Folder => {
        },
        GameElementTypeView::Script(s) => {
            lemma_script_rt(s, nm);
        },
        GameElementTypeView::SpotLight(l) => {
            lemma_spot_light_rt(l, nm);
        },
        GameElementTypeView::PointLight(l) => {
            lemma_point_light_rt(l, nm);
        },
        GameElementTypeView::Prop(p) => {
            lemma_placed_rt(p.asset_id, p.position, p.rotation, nm);
            assert(p == PropView { asset_id: p.asset_id, position: p.position, rotation: p.rotation });
        },
        GameElementTypeView::Structure(p) => {
            lemma_placed_rt(p.asset_id, p.position, p.rotation, nm);
            assert(p == StructureView {
                asset_id: p.asset_id,
                position: p.position,
                rotation: p.rotation,
            });
        },
    }
}

/// Round trip: encoding any hierarchy node and decoding the result yields
/// the node unchanged in every field except the encode-only attributes
/// maps, which come back empty.
pub proof fn lemma_element_round_trip(e: GameElementView)
    ensures
        dec_element(enc_element(e)) == Ok::<GameElementView, ConfigErrorView>(strip_attributes(e)),
    decreases e, 0int,
{
    lemma_wire_words();
    let base = seq![
        ("name"@, ValueView::Str(e.name)),
        ("type"@, ValueView::Str(enc_node_tag(e.value))),
        ("value"@, enc_node_payload(e.value)),
    ];
    let withc = base + (match e.children {
        Some(cs) => seq![("children"@, ValueView::Arr(enc_elements(cs)))],
        None => Seq::<(Seq<char>, ValueView)>::empty(),
    });
    let o = withc + (match e.attributes {
        Some(ats) => seq![
            (
                "attributes"@,
                ValueView::Obj(
                    ats.map_values(
                        |p: (Seq<char>, crate::types::TypeDefView)| (
                            p.0,
                            crate::encode::enc_typedef(p.1),
                        ),
                    ),
                ),
            ),
        ],
        None => Seq::<(Seq<char>, ValueView)>::empty(),
    });
    assert(enc_element(e) == ValueView::Obj(o));
    lemma_lookup_idx(o, "name"@);
    assert(o[0].0 == "name"@);
    assert(lookup_idx(o, "name"@) == 0);
    lemma_lookup_idx(o, "type"@);
    assert(o[1].0 == "type"@);
    assert(lookup_idx(o, "type"@) == 1);
    lemma_lookup_idx(o, "value"@);
    assert(o[2].0 == "value"@);
    assert(lookup_idx(o, "value"@) == 2);
    lemma_node_kind_rt(e.value, e.name);
    lemma_lookup_idx(o, "children"@);
    match e.children {
        Some(cs) => {
            assert(o[3] == ("children"@, ValueView::Arr(enc_elements(cs))));
            assert(lookup_idx(o, "children"@) == 3);
            lemma_elements_round_trip(cs, 0, Seq::empty());
            assert(Seq::<GameElementView>::empty() + strip_elements(cs).subrange(
                0,
                cs.len() as int,
            ) =~= strip_elements(cs));
        },
        None => {
            assert(forall|m: int| 0 <= m < o.len() ==> o[m].0 != "children"@);
            assert(lookup_idx(o, "children"@) < 0);
            assert(lookup(o, "children"@) is None);
        },
    }
}

/// Round trip for a node list, from index `k` on, appended to what was
/// already gathered.
pub proof fn lemma_elements_round_trip(s: Seq<GameElementView>, k: int, acc: Seq<GameElementView>)
    requires
        0 <= k <= s.len(),
    ensures
        dec_elements(enc_elements(s), k, acc) == Ok::<Seq<GameElementView>, ConfigErrorView>(
            acc + strip_elements(s).subrange(k, s.len() as int),
        ),
    decreases s, s.len() - k,
{
    if k == s.len() {
        assert(acc + strip_elements(s).subrange(k, s.len() as int) =~= acc);
    } else {
        assert(enc_elements(s)[k] == enc_element(s[k]));
        lemma_element_round_trip(s[k]);
        lemma_elements_round_trip(s, k + 1, acc.push(strip_attributes(s[k])));
        assert(acc.push(strip_attributes(s[k])) + strip_elements(s).subrange(
            k + 1,
            s.len() as int,
        ) =~= acc + strip_elements(s).subrange(k, s.len() as int));
    }
}

/// Round trip for a whole hierarchy forest.
pub proof fn lemma_forest_round_trip(s: Seq<GameElementView>)
    ensures
        dec_elements(enc_elements(s), 0, Seq::empty()) == Ok::<
            Seq<GameElementView>,
            ConfigErrorView,
        >(strip_elements(s)),
{
    lemma_elements_round_trip(s, 0, Seq::empty());
    assert(Seq::<GameElementView>::empty() + strip_elements(s).subrange(0, s.len() as int)
        =~= strip_elements(s));
}

} // verus!
