//! Decoding document values into the configuration model.
//!
//! Every decoder is specified exactly: for each input value the
//! specification function names either the decoded result or the error,
//! and the executable decoder returns precisely that. A decoder reads only
//! the keys it knows; unknown keys are ignored, and the encode-only
//! `attributes` key of a hierarchy node is ignored too.

use vstd::prelude::*;
use crate::asset::{AssetDTO, AssetId, AssetIdView, AssetType, AssetView};
use crate::error::{ConfigError, ConfigErrorView};
use crate::hierarchy::{ColorData, ColorView, IVec3Data, QuatData, TransformData, Vec3Data};
use crate::value::{entries_view, lookup, pairs_view, str_eq, values_view, DocValue, ValueView};

verus! {

broadcast use crate::value::group_value_views;

/// The error for a missing required field, unrecognized tag, or
/// type-mismatched literal at `field` of `ctx`.
pub open spec fn st(ctx: Seq<char>, field: Seq<char>) -> ConfigErrorView {
    ConfigErrorView::StructuralDecodeError { context: ctx, field }
}

/// Builds the structural error for `field` of `ctx`.
pub fn st_err(ctx: &str, field: &str) -> (r: ConfigError)
    ensures
        r@ == st(ctx@, field@),
{
    ConfigError::StructuralDecodeError { context: ctx.to_owned(), field: field.to_owned() }
}

/// A numeric leaf read as a double-precision bit pattern.
pub open spec fn dec_f64(v: ValueView, ctx: Seq<char>, field: Seq<char>) -> Result<
    u64,
    ConfigErrorView,
> {
    match v {
        ValueView::Num(n) => match n.float_bits {
            Some(b) => Ok(b),
            None => Err(st(ctx, field)),
        },
        _ => Err(st(ctx, field)),
    }
}

/// Decodes a numeric leaf as a double-precision bit pattern.
pub fn decode_f64(v: &DocValue, ctx: &str, field: &str) -> (r: Result<u64, ConfigError>)
    ensures
        match r {
            Ok(b) => dec_f64(v@, ctx@, field@) == Ok::<u64, ConfigErrorView>(b),
            Err(e) => dec_f64(v@, ctx@, field@) == Err::<u64, ConfigErrorView>(e@),
        },
{
    match v {
        DocValue::Num(n) => match n.float_bits {
            Some(b) => Ok(b),
            None => Err(st_err(ctx, field)),
        },
        _ => Err(st_err(ctx, field)),
    }
}

/// A numeric leaf read as an integer.
pub open spec fn dec_i64(v: ValueView, ctx: Seq<char>, field: Seq<char>) -> Result<
    i64,
    ConfigErrorView,
> {
    match v {
        ValueView::Num(n) => match n.int {
            Some(i) => Ok(i),
            None => Err(st(ctx, field)),
        },
        _ => Err(st(ctx, field)),
    }
}

/// Decodes a numeric leaf as an integer.
pub fn decode_i64(v: &DocValue, ctx: &str, field: &str) -> (r: Result<i64, ConfigError>)
    ensures
        match r {
            Ok(i) => dec_i64(v@, ctx@, field@) == Ok::<i64, ConfigErrorView>(i),
            Err(e) => dec_i64(v@, ctx@, field@) == Err::<i64, ConfigErrorView>(e@),
        },
{
    match v {
        DocValue::Num(n) => match n.int {
            Some(i) => Ok(i),
            None => Err(st_err(ctx, field)),
        },
        _ => Err(st_err(ctx, field)),
    }
}

/// A numeric leaf read as a 32-bit integer, rejecting out-of-range values.
pub open spec fn dec_i32(v: ValueView, ctx: Seq<char>, field: Seq<char>) -> Result<
    i32,
    ConfigErrorView,
> {
    match dec_i64(v, ctx, field) {
        Ok(i) => if -0x8000_0000 <= i <= 0x7fff_ffff {
            Ok(i as i32)
        } else {
            Err(st(ctx, field))
        },
        Err(e) => Err(e),
    }
}

/// Decodes a numeric leaf as a 32-bit integer.
pub fn decode_i32(v: &DocValue, ctx: &str, field: &str) -> (r: Result<i32, ConfigError>)
    ensures
        match r {
            Ok(i) => dec_i32(v@, ctx@, field@) == Ok::<i32, ConfigErrorView>(i),
            Err(e) => dec_i32(v@, ctx@, field@) == Err::<i32, ConfigErrorView>(e@),
        },
{
    let i = match decode_i64(v, ctx, field) {
        Ok(i) => i,
        Err(e) => {
            return Err(e);
        },
    };
    if -0x8000_0000i64 <= i && i <= 0x7fff_ffffi64 {
        Ok(i as i32)
    } else {
        Err(st_err(ctx, field))
    }
}

/// A boolean leaf.
pub open spec fn dec_bool(v: ValueView, ctx: Seq<char>, field: Seq<char>) -> Result<
    bool,
    ConfigErrorView,
> {
    match v {
        ValueView::Bool(b) => Ok(b),
        _ => Err(st(ctx, field)),
    }
}

/// Decodes a boolean leaf.
pub fn decode_bool(v: &DocValue, ctx: &str, field: &str) -> (r: Result<bool, ConfigError>)
    ensures
        match r {
            Ok(b) => dec_bool(v@, ctx@, field@) == Ok::<bool, ConfigErrorView>(b),
            Err(e) => dec_bool(v@, ctx@, field@) == Err::<bool, ConfigErrorView>(e@),
        },
{
    match v {
        DocValue::Bool(b) => Ok(*b),
        _ => Err(st_err(ctx, field)),
    }
}

/// A string leaf.
pub open spec fn dec_str(v: ValueView, ctx: Seq<char>, field: Seq<char>) -> Result<
    Seq<char>,
    ConfigErrorView,
> {
    match v {
        ValueView::Str(s) => Ok(s),
        _ => Err(st(ctx, field)),
    }
}

/// Decodes a string leaf.
pub fn decode_str(v: &DocValue, ctx: &str, field: &str) -> (r: Result<String, ConfigError>)
    ensures
        match r {
            Ok(s) => dec_str(v@, ctx@, field@) == Ok::<Seq<char>, ConfigErrorView>(s@),
            Err(e) => dec_str(v@, ctx@, field@) == Err::<Seq<char>, ConfigErrorView>(e@),
        },
{
    match v {
        DocValue::Str(s) => Ok(s.clone()),
        _ => Err(st_err(ctx, field)),
    }
}

/// A 3D vector: an array of exactly three numeric leaves.
pub open spec fn dec_vec3(v: ValueView, ctx: Seq<char>, field: Seq<char>) -> Result<
    Vec3Data,
    ConfigErrorView,
> {
    match v {
        ValueView::Arr(s) => if s.len() == 3 {
            match dec_f64(s[0], ctx, field) {
                Ok(x) => match dec_f64(s[1], ctx, field) {
                    Ok(y) => match dec_f64(s[2], ctx, field) {
                        Ok(z) => Ok(Vec3Data { x, y, z }),
                        Err(e) => Err(e),
                    },
                    Err(e) => Err(e),
                },
                Err(e) => Err(e),
            }
        } else {
            Err(st(ctx, field))
        },
        _ => Err(st(ctx, field)),
    }
}

/// Decodes a 3D vector.
pub fn decode_vec3(v: &DocValue, ctx: &str, field: &str) -> (r: Result<Vec3Data, ConfigError>)
    ensures
        match r {
            Ok(x) => dec_vec3(v@, ctx@, field@) == Ok::<Vec3Data, ConfigErrorView>(x),
            Err(e) => dec_vec3(v@, ctx@, field@) == Err::<Vec3Data, ConfigErrorView>(e@),
        },
{
    match v {
        DocValue::Arr(items) => {
            if items.len() == 3 {
                proof {
                    let s = values_view(items@);
                    assert(v@ == ValueView::Arr(s));
                    assert(s[0] == items@[0]@ && s[1] == items@[1]@ && s[2] == items@[2]@);
                }
                let x = match decode_f64(&items[0], ctx, field) {
                    Ok(x) => x,
                    Err(e) => {
                        return Err(e);
                    },
                };
                let y = match decode_f64(&items[1], ctx, field) {
                    Ok(y) => y,
                    Err(e) => {
                        return Err(e);
                    },
                };
                let z = match decode_f64(&items[2], ctx, field) {
                    Ok(z) => z,
                    Err(e) => {
                        return Err(e);
                    },
                };
                proof {
                    let s = values_view(items@);
                    assert(dec_f64(s[0], ctx@, field@) == Ok::<u64, ConfigErrorView>(x));
                    assert(dec_f64(s[1], ctx@, field@) == Ok::<u64, ConfigErrorView>(y));
                    assert(dec_f64(s[2], ctx@, field@) == Ok::<u64, ConfigErrorView>(z));
                    assert(dec_vec3(v@, ctx@, field@) == Ok::<Vec3Data, ConfigErrorView>(
                        Vec3Data { x, y, z },
                    ));
                }
                Ok(Vec3Data { x, y, z })
            } else {
                assert(values_view(items@).len() != 3);
                assert(dec_vec3(v@, ctx@, field@) == Err::<Vec3Data, ConfigErrorView>(
                    st(ctx@, field@),
                ));
                Err(st_err(ctx, field))
            }
        },
        _ => {
            assert(!(v@ is Arr));
            assert(dec_vec3(v@, ctx@, field@) == Err::<Vec3Data, ConfigErrorView>(
                st(ctx@, field@),
            ));
            Err(st_err(ctx, field))
        },
    }
}

/// A quaternion: an array of exactly four numeric leaves.
pub open spec fn dec_quat(v: ValueView, ctx: Seq<char>, field: Seq<char>) -> Result<
    QuatData,
    ConfigErrorView,
> {
    match v {
        ValueView::Arr(s) => if s.len() == 4 {
            match dec_f64(s[0], ctx, field) {
                Ok(x) => match dec_f64(s[1], ctx, field) {
                    Ok(y) => match dec_f64(s[2], ctx, field) {
                        Ok(z) => match dec_f64(s[3], ctx, field) {
                            Ok(w) => Ok(QuatData { x, y, z, w }),
                            Err(e) => Err(e),
                        },
                        Err(e) => Err(e),
                    },
                    Err(e) => Err(e),
                },
                Err(e) => Err(e),
            }
        } else {
            Err(st(ctx, field))
        },
        _ => Err(st(ctx, field)),
    }
}

/// Decodes a quaternion.
pub fn decode_quat(v: &DocValue, ctx: &str, field: &str) -> (r: Result<QuatData, ConfigError>)
    ensures
        match r {
            Ok(x) => dec_quat(v@, ctx@, field@) == Ok::<QuatData, ConfigErrorView>(x),
            Err(e) => dec_quat(v@, ctx@, field@) == Err::<QuatData, ConfigErrorView>(e@),
        },
{
    match v {
        DocValue::Arr(items) => {
            if items.len() == 4 {
                proof {
                    let s = values_view(items@);
                    assert(v@ == ValueView::Arr(s));
                    assert(s[0] == items@[0]@ && s[1] == items@[1]@ && s[2] == items@[2]@ && s[3]
                        == items@[3]@);
                }
                let x = match decode_f64(&items[0], ctx, field) {
                    Ok(x) => x,
                    Err(e) => {
                        return Err(e);
                    },
                };
                let y = match decode_f64(&items[1], ctx, field) {
                    Ok(y) => y,
                    Err(e) => {
                        return Err(e);
                    },
                };
                let z = match decode_f64(&items[2], ctx, field) {
                    Ok(z) => z,
                    Err(e) => {
                        return Err(e);
                    },
                };
                let w = match decode_f64(&items[3], ctx, field) {
                    Ok(w) => w,
                    Err(e) => {
                        return Err(e);
                    },
                };
                proof {
                    assert(dec_quat(v@, ctx@, field@) == Ok::<QuatData, ConfigErrorView>(
                        QuatData { x, y, z, w },
                    ));
                }
                Ok(QuatData { x, y, z, w })
            } else {
                assert(values_view(items@).len() != 4);
                assert(dec_quat(v@, ctx@, field@) == Err::<QuatData, ConfigErrorView>(
                    st(ctx@, field@),
                ));
                Err(st_err(ctx, field))
            }
        },
        _ => {
            assert(!(v@ is Arr));
            assert(dec_quat(v@, ctx@, field@) == Err::<QuatData, ConfigErrorView>(
                st(ctx@, field@),
            ));
            Err(st_err(ctx, field))
        },
    }
}

/// An integer grid vector: an array of exactly three integer leaves.
pub open spec fn dec_ivec3(v: ValueView, ctx: Seq<char>, field: Seq<char>) -> Result<
    IVec3Data,
    ConfigErrorView,
> {
    match v {
        ValueView::Arr(s) => if s.len() == 3 {
            match dec_i32(s[0], ctx, field) {
                Ok(x) => match dec_i32(s[1], ctx, field) {
                    Ok(y) => match dec_i32(s[2], ctx, field) {
                        Ok(z) => Ok(IVec3Data { x, y, z }),
                        Err(e) => Err(e),
                    },
                    Err(e) => Err(e),
                },
                Err(e) => Err(e),
            }
        } else {
            Err(st(ctx, field))
        },
        _ => Err(st(ctx, field)),
    }
}

/// Decodes an integer grid vector.
pub fn decode_ivec3(v: &DocValue, ctx: &str, field: &str) -> (r: Result<IVec3Data, ConfigError>)
    ensures
        match r {
            Ok(x) => dec_ivec3(v@, ctx@, field@) == Ok::<IVec3Data, ConfigErrorView>(x),
            Err(e) => dec_ivec3(v@, ctx@, field@) == Err::<IVec3Data, ConfigErrorView>(e@),
        },
{
    match v {
        DocValue::Arr(items) => {
            if items.len() == 3 {
                proof {
                    let s = values_view(items@);
                    assert(v@ == ValueView::Arr(s));
                    assert(s[0] == items@[0]@ && s[1] == items@[1]@ && s[2] == items@[2]@);
                }
                let x = match decode_i32(&items[0], ctx, field) {
                    Ok(x) => x,
                    Err(e) => {
                        return Err(e);
                    },
                };
                let y = match decode_i32(&items[1], ctx, field) {
                    Ok(y) => y,
                    Err(e) => {
                        return Err(e);
                    },
                };
                let z = match decode_i32(&items[2], ctx, field) {
                    Ok(z) => z,
                    Err(e) => {
                        return Err(e);
                    },
                };
                proof {
                    assert(dec_ivec3(v@, ctx@, field@) == Ok::<IVec3Data, ConfigErrorView>(
                        IVec3Data { x, y, z },
                    ));
                }
                Ok(IVec3Data { x, y, z })
            } else {
                assert(values_view(items@).len() != 3);
                assert(dec_ivec3(v@, ctx@, field@) == Err::<IVec3Data, ConfigErrorView>(
                    st(ctx@, field@),
                ));
                Err(st_err(ctx, field))
            }
        },
        _ => {
            assert(!(v@ is Arr));
            assert(dec_ivec3(v@, ctx@, field@) == Err::<IVec3Data, ConfigErrorView>(
                st(ctx@, field@),
            ));
            Err(st_err(ctx, field))
        },
    }
}

/// Color components gathered from entry `k` on: each must be a numeric
/// leaf with a double-precision reading.
pub open spec fn dec_components(
    s: Seq<(Seq<char>, ValueView)>,
    k: int,
    acc: Seq<(Seq<char>, u64)>,
    ctx: Seq<char>,
    field: Seq<char>,
) -> Result<Seq<(Seq<char>, u64)>, ConfigErrorView>
    decreases s.len() - k,
{
    if k >= s.len() {
        Ok(acc)
    } else {
        match dec_f64(s[k].1, ctx, field) {
            Ok(b) => dec_components(s, k + 1, acc.push((s[k].0, b)), ctx, field),
            Err(e) => Err(e),
        }
    }
}

/// A color: an object with exactly one entry — the color model's name
/// mapped to an object of numeric components.
pub open spec fn dec_color(v: ValueView, ctx: Seq<char>, field: Seq<char>) -> Result<
    ColorView,
    ConfigErrorView,
> {
    match v {
        ValueView::Obj(o) => if o.len() == 1 {
            match o[0].1 {
                ValueView::Obj(comps) => match dec_components(comps, 0, Seq::empty(), ctx, field) {
                    Ok(cs) => Ok(ColorView { model: o[0].0, components: cs }),
                    Err(e) => Err(e),
                },
                _ => Err(st(ctx, field)),
            }
        } else {
            Err(st(ctx, field))
        },
        _ => Err(st(ctx, field)),
    }
}

/// Decodes a color.
pub fn decode_color(v: &DocValue, ctx: &str, field: &str) -> (r: Result<ColorData, ConfigError>)
    ensures
        match r {
            Ok(c) => dec_color(v@, ctx@, field@) == Ok::<ColorView, ConfigErrorView>(c@),
            Err(e) => dec_color(v@, ctx@, field@) == Err::<ColorView, ConfigErrorView>(e@),
        },
{
    match v {
        DocValue::Obj(entries) => {
            if entries.len() == 1 {
                proof {
                    let o = entries_view(entries@);
                    assert(v@ == ValueView::Obj(o));
                    assert(o[0] == (entries@[0].0@, entries@[0].1@));
                }
                let model = entries[0].0.clone();
                match &entries[0].1 {
                    DocValue::Obj(comp_entries) => {
                        let ghost cv = entries_view(comp_entries@);
                        proof {
                            assert(entries@[0].1@ == ValueView::Obj(cv));
                        }
                        let mut acc: Vec<(String, u64)> = Vec::new();
                        assert(pairs_view(acc@) =~= Seq::<(Seq<char>, u64)>::empty());
                        let n = comp_entries.len();
                        let mut k: usize = 0;
                        while k < n
                            invariant
                                n == comp_entries@.len(),
                                k <= n,
                                cv == entries_view(comp_entries@),
                                v@ == ValueView::Obj(entries_view(entries@)),
                                entries_view(entries@).len() == 1,
                                entries_view(entries@)[0].1 == ValueView::Obj(cv),
                                dec_components(cv, 0, Seq::empty(), ctx@, field@)
                                    == dec_components(cv, k as int, pairs_view(acc@), ctx@, field@),
                            decreases n - k,
                        {
                            proof {
                                assert(cv[k as int] == (
                                    comp_entries@[k as int].0@,
                                    comp_entries@[k as int].1@,
                                ));
                            }
                            let b = match decode_f64(&comp_entries[k].1, ctx, field) {
                                Ok(b) => b,
                                Err(e) => {
                                    proof {
                                        assert(dec_components(
                                            cv,
                                            k as int,
                                            pairs_view(acc@),
                                            ctx@,
                                            field@,
                                        ) == Err::<Seq<(Seq<char>, u64)>, ConfigErrorView>(e@));
                                        assert(dec_color(v@, ctx@, field@) == Err::<
                                            ColorView,
                                            ConfigErrorView,
                                        >(e@));
                                    }
                                    return Err(e);
                                },
                            };
                            let ghost old_acc = acc@;
                            acc.push((comp_entries[k].0.clone(), b));
                            proof {
                                assert(pairs_view(acc@) =~= pairs_view(old_acc).push(
                                    (cv[k as int].0, b),
                                ));
                            }
                            k += 1;
                        }
                        proof {
                            assert(dec_components(cv, n as int, pairs_view(acc@), ctx@, field@)
                                == Ok::<Seq<(Seq<char>, u64)>, ConfigErrorView>(pairs_view(acc@)));
                            assert(dec_color(v@, ctx@, field@) == Ok::<ColorView, ConfigErrorView>(
                                ColorView { model: model@, components: pairs_view(acc@) },
                            ));
                        }
                        Ok(ColorData { model, components: acc })
                    },
                    _ => {
                        assert(!(entries@[0].1@ is Obj));
                        assert(dec_color(v@, ctx@, field@) == Err::<ColorView, ConfigErrorView>(
                            st(ctx@, field@),
                        ));
                        Err(st_err(ctx, field))
                    },
                }
            } else {
                assert(entries_view(entries@).len() != 1);
                assert(dec_color(v@, ctx@, field@) == Err::<ColorView, ConfigErrorView>(
                    st(ctx@, field@),
                ));
                Err(st_err(ctx, field))
            }
        },
        _ => {
            assert(!(v@ is Obj));
            assert(dec_color(v@, ctx@, field@) == Err::<ColorView, ConfigErrorView>(
                st(ctx@, field@),
            ));
            Err(st_err(ctx, field))
        },
    }
}

/// A placement: an object with `translation`, `rotation` and `scale`.
pub open spec fn dec_transform(v: ValueView, ctx: Seq<char>, field: Seq<char>) -> Result<
    TransformData,
    ConfigErrorView,
> {
    match v {
        ValueView::Obj(o) => match lookup(o, "translation"@) {
            Some(tv) => match dec_vec3(tv, ctx, "translation"@) {
                Ok(translation) => match lookup(o, "rotation"@) {
                    Some(rv) => match dec_quat(rv, ctx, "rotation"@) {
                        Ok(rotation) => match lookup(o, "scale"@) {
                            Some(sv) => match dec_vec3(sv, ctx, "scale"@) {
                                Ok(scale) => Ok(TransformData { translation, rotation, scale }),
                                Err(e) => Err(e),
                            },
                            None => Err(st(ctx, "scale"@)),
                        },
                        Err(e) => Err(e),
                    },
                    None => Err(st(ctx, "rotation"@)),
                },
                Err(e) => Err(e),
            },
            None => Err(st(ctx, "translation"@)),
        },
        _ => Err(st(ctx, field)),
    }
}

/// Decodes a placement.
pub fn decode_transform(v: &DocValue, ctx: &str, field: &str) -> (r: Result<
    TransformData,
    ConfigError,
>)
    ensures
        match r {
            Ok(t) => dec_transform(v@, ctx@, field@) == Ok::<TransformData, ConfigErrorView>(t),
            Err(e) => dec_transform(v@, ctx@, field@) == Err::<TransformData, ConfigErrorView>(e@),
        },
{
    match v {
        DocValue::Obj(entries) => {
            let translation = match DocValue::obj_get(entries, "translation") {
                Some(tv) => match decode_vec3(tv, ctx, "translation") {
                    Ok(t) => t,
                    Err(e) => {
                        return Err(e);
                    },
                },
                None => {
                    return Err(st_err(ctx, "translation"));
                },
            };
            let rotation = match DocValue::obj_get(entries, "rotation") {
                Some(rv) => match decode_quat(rv, ctx, "rotation") {
                    Ok(q) => q,
                    Err(e) => {
                        return Err(e);
                    },
                },
                None => {
                    return Err(st_err(ctx, "rotation"));
                },
            };
            let scale = match DocValue::obj_get(entries, "scale") {
                Some(sv) => match decode_vec3(sv, ctx, "scale") {
                    Ok(s) => s,
                    Err(e) => {
                        return Err(e);
                    },
                },
                None => {
                    return Err(st_err(ctx, "scale"));
                },
            };
            Ok(TransformData { translation, rotation, scale })
        },
        _ => Err(st_err(ctx, field)),
    }
}

/// An asset kind: one of the declared names.
pub open spec fn dec_asset_type(v: ValueView, ctx: Seq<char>, field: Seq<char>) -> Result<
    AssetType,
    ConfigErrorView,
> {
    match v {
        ValueView::Str(s) => if s == "Image"@ {
            Ok(AssetType::Image)
        } else if s == "Script"@ {
            Ok(AssetType::Script)
        } else if s == "Props"@ {
            Ok(AssetType::Props)
        } else if s == "Structure"@ {
            Ok(AssetType::Structure)
        } else if s == "Sound"@ {
            Ok(AssetType::Sound)
        } else if s == "Music"@ {
            Ok(AssetType::Music)
        } else {
            Err(st(ctx, field))
        },
        _ => Err(st(ctx, field)),
    }
}

/// Decodes an asset kind.
pub fn decode_asset_type(v: &DocValue, ctx: &str, field: &str) -> (r: Result<
    AssetType,
    ConfigError,
>)
    ensures
        match r {
            Ok(t) => dec_asset_type(v@, ctx@, field@) == Ok::<AssetType, ConfigErrorView>(t),
            Err(e) => dec_asset_type(v@, ctx@, field@) == Err::<AssetType, ConfigErrorView>(e@),
        },
{
    match v {
        DocValue::Str(s) => {
            if str_eq(s.as_str(), "Image") {
                Ok(AssetType::Image)
            } else if str_eq(s.as_str(), "Script") {
                Ok(AssetType::Script)
            } else if str_eq(s.as_str(), "Props") {
                Ok(AssetType::Props)
            } else if str_eq(s.as_str(), "Structure") {
                Ok(AssetType::Structure)
            } else if str_eq(s.as_str(), "Sound") {
                Ok(AssetType::Sound)
            } else if str_eq(s.as_str(), "Music") {
                Ok(AssetType::Music)
            } else {
                Err(st_err(ctx, field))
            }
        },
        _ => Err(st_err(ctx, field)),
    }
}

/// An asset identifier: a `type` discriminant — `PublicCloud`,
/// `PrivateCloud` or `Local` — with a `value` payload of one identifier
/// string, a pair of identifier strings, or a path string.
pub open spec fn dec_asset_id(v: ValueView, ctx: Seq<char>, field: Seq<char>) -> Result<
    AssetIdView,
    ConfigErrorView,
> {
    match v {
        ValueView::Obj(o) => match lookup(o, "type"@) {
            Some(ValueView::Str(tag)) => match lookup(o, "value"@) {
                Some(pv) => if tag == "PublicCloud"@ {
                    match dec_str(pv, ctx, "value"@) {
                        Ok(id) => Ok(AssetIdView::PublicCloud(id)),
                        Err(e) => Err(e),
                    }
                } else if tag == "PrivateCloud"@ {
                    match pv {
                        ValueView::Obj(po) => match lookup(po, "asset_id"@) {
                            Some(av) => match dec_str(av, ctx, "asset_id"@) {
                                Ok(asset_id) => match lookup(po, "version_id"@) {
                                    Some(vv) => match dec_str(vv, ctx, "version_id"@) {
                                        Ok(version_id) => Ok(
                                            AssetIdView::PrivateCloud { asset_id, version_id },
                                        ),
                                        Err(e) => Err(e),
                                    },
                                    None => Err(st(ctx, "version_id"@)),
                                },
                                Err(e) => Err(e),
                            },
                            None => Err(st(ctx, "asset_id"@)),
                        },
                        _ => Err(st(ctx, "value"@)),
                    }
                } else if tag == "Local"@ {
                    match dec_str(pv, ctx, "value"@) {
                        Ok(path) => Ok(AssetIdView::Local(path)),
                        Err(e) => Err(e),
                    }
                } else {
                    Err(st(ctx, tag))
                },
                None => Err(st(ctx, "value"@)),
            },
            Some(_) => Err(st(ctx, "type"@)),
            None => Err(st(ctx, "type"@)),
        },
        _ => Err(st(ctx, field)),
    }
}

/// Decodes an asset identifier.
pub fn decode_asset_id(v: &DocValue, ctx: &str, field: &str) -> (r: Result<AssetId, ConfigError>)
    ensures
        match r {
            Ok(id) => dec_asset_id(v@, ctx@, field@) == Ok::<AssetIdView, ConfigErrorView>(id@),
            Err(e) => dec_asset_id(v@, ctx@, field@) == Err::<AssetIdView, ConfigErrorView>(e@),
        },
{
    match v {
        DocValue::Obj(entries) => {
            let tag = match DocValue::obj_get(entries, "type") {
                Some(DocValue::Str(tag)) => tag,
                Some(_) => {
                    return Err(st_err(ctx, "type"));
                },
                None => {
                    return Err(st_err(ctx, "type"));
                },
            };
            let pv = match DocValue::obj_get(entries, "value") {
                Some(pv) => pv,
                None => {
                    return Err(st_err(ctx, "value"));
                },
            };
            if str_eq(tag.as_str(), "PublicCloud") {
                match decode_str(pv, ctx, "value") {
                    Ok(id) => Ok(AssetId::PublicCloud(id)),
                    Err(e) => Err(e),
                }
            } else if str_eq(tag.as_str(), "PrivateCloud") {
                match pv {
                    DocValue::Obj(po) => {
                        let asset_id = match DocValue::obj_get(po, "asset_id") {
                            Some(av) => match decode_str(av, ctx, "asset_id") {
                                Ok(s) => s,
                                Err(e) => {
                                    return Err(e);
                                },
                            },
                            None => {
                                return Err(st_err(ctx, "asset_id"));
                            },
                        };
                        let version_id = match DocValue::obj_get(po, "version_id") {
                            Some(vv) => match decode_str(vv, ctx, "version_id") {
                                Ok(s) => s,
                                Err(e) => {
                                    return Err(e);
                                },
                            },
                            None => {
                                return Err(st_err(ctx, "version_id"));
                            },
                        };
                        Ok(AssetId::PrivateCloud { asset_id, version_id })
                    },
                    _ => Err(st_err(ctx, "value")),
                }
            } else if str_eq(tag.as_str(), "Local") {
                match decode_str(pv, ctx, "value") {
                    Ok(path) => Ok(AssetId::Local(path)),
                    Err(e) => Err(e),
                }
            } else {
                Err(st_err(ctx, tag.as_str()))
            }
        },
        _ => Err(st_err(ctx, field)),
    }
}

/// A declared asset: its identifier under `id` and its kind under `type`.
pub open spec fn dec_asset(v: ValueView, ctx: Seq<char>) -> Result<AssetView, ConfigErrorView> {
    match v {
        ValueView::Obj(o) => match lookup(o, "id"@) {
            Some(iv) => match dec_asset_id(iv, ctx, "id"@) {
                Ok(id) => match lookup(o, "type"@) {
                    Some(tv) => match dec_asset_type(tv, ctx, "type"@) {
                        Ok(asset_type) => Ok(AssetView { id, asset_type }),
                        Err(e) => Err(e),
                    },
                    None => Err(st(ctx, "type"@)),
                },
                Err(e) => Err(e),
            },
            None => Err(st(ctx, "id"@)),
        },
        _ => Err(st(ctx, "asset"@)),
    }
}

/// Decodes a declared asset.
pub fn decode_asset(v: &DocValue, ctx: &str) -> (r: Result<AssetDTO, ConfigError>)
    ensures
        match r {
            Ok(a) => dec_asset(v@, ctx@) == Ok::<AssetView, ConfigErrorView>(a@),
            Err(e) => dec_asset(v@, ctx@) == Err::<AssetView, ConfigErrorView>(e@),
        },
{
    match v {
        DocValue::Obj(entries) => {
            let id = match DocValue::obj_get(entries, "id") {
                Some(iv) => match decode_asset_id(iv, ctx, "id") {
                    Ok(id) => id,
                    Err(e) => {
                        return Err(e);
                    },
                },
                None => {
                    return Err(st_err(ctx, "id"));
                },
            };
            let asset_type = match DocValue::obj_get(entries, "type") {
                Some(tv) => match decode_asset_type(tv, ctx, "type") {
                    Ok(t) => t,
                    Err(e) => {
                        return Err(e);
                    },
                },
                None => {
                    return Err(st_err(ctx, "type"));
                },
            };
            Ok(AssetDTO { id, asset_type })
        },
        _ => Err(st_err(ctx, "asset")),
    }
}

// The part of the decoder for the remaining document sections: field
// types, type definitions, actions, key bindings and terrain settings.
/// Whether `acc` already holds an entry keyed `key`.
pub open spec fn keys_contain<T>(acc: Seq<(Seq<char>, T)>, key: Seq<char>) -> bool {
    exists|i: int| 0 <= i < acc.len() && (#[trigger] acc[i]).0 == key
}

/// Scans a named-value list for a key.
pub fn pairs_key_present<T: View>(v: &Vec<(String, T)>, key: &str) -> (r: bool)
    ensures
        r == keys_contain(pairs_view(v@), key@),
{
    let n = v.len();
    let mut i: usize = 0;
    while i < n
        invariant
            n == v@.len(),
            i <= n,
            forall|m: int| 0 <= m < i ==> (#[trigger] pairs_view(v@)[m]).0 != key@,
        decreases n - i,
    {
        if str_eq(v[i].0.as_str(), key) {
            assert(pairs_view(v@)[i as int].0 == key@);
            return true;
        }
        assert(pairs_view(v@)[i as int].0 != key@);
        i += 1;
    }
    false
}

/// A field type: an object with a `type` discriminant — one of `Boolean`,
/// `Byte`, `Short`, `Int`, `Long`, `Float`, `Double`, `String`, `Custom` —
/// and a `value` payload holding the optional default (required, and the
/// referenced type's name, for `Custom`). A missing or null `value` means
/// no default; an out-of-range or mismatched literal is rejected.
pub open spec fn dec_field_type(v: ValueView, ctx: Seq<char>, field: Seq<char>) -> Result<
    crate::types::TypeView,
    ConfigErrorView,
> {
    match v {
        ValueView::Obj(o) => match lookup(o, "type"@) {
            Some(ValueView::Str(tag)) => {
                let val = lookup(o, "value"@);
                if tag == "Boolean"@ {
                    match val {
                        None => Ok(crate::types::TypeView::Boolean(None)),
                        Some(ValueView::Null) => Ok(crate::types::TypeView::Boolean(None)),
                        Some(ValueView::Bool(b)) => Ok(crate::types::TypeView::Boolean(Some(b))),
                        Some(_) => Err(st(ctx, field)),
                    }
                } else if tag == "Byte"@ {
                    match val {
                        None => Ok(crate::types::TypeView::Byte(None)),
                        Some(ValueView::Null) => Ok(crate::types::TypeView::Byte(None)),
                        Some(ValueView::Num(n)) => match n.int {
                            Some(i) => if -128 <= i <= 127 {
                                Ok(crate::types::TypeView::Byte(Some(i as i8)))
                            } else {
                                Err(st(ctx, field))
                            },
                            None => Err(st(ctx, field)),
                        },
                        Some(_) => Err(st(ctx, field)),
                    }
                } else if tag == "Short"@ {
                    match val {
                        None => Ok(crate::types::TypeView::Short(None)),
                        Some(ValueView::Null) => Ok(crate::types::TypeView::Short(None)),
                        Some(ValueView::Num(n)) => match n.int {
                            Some(i) => if -32768 <= i <= 32767 {
                                Ok(crate::types::TypeView::Short(Some(i as i16)))
                            } else {
                                Err(st(ctx, field))
                            },
                            None => Err(st(ctx, field)),
                        },
                        Some(_) => Err(st(ctx, field)),
                    }
                } else if tag == "Int"@ {
                    match val {
                        None => Ok(crate::types::TypeView::Int(None)),
                        Some(ValueView::Null) => Ok(crate::types::TypeView::Int(None)),
                        Some(ValueView::Num(n)) => match n.int {
                            Some(i) => if -0x8000_0000 <= i <= 0x7fff_ffff {
                                Ok(crate::types::TypeView::Int(Some(i as i32)))
                            } else {
                                Err(st(ctx, field))
                            },
                            None => Err(st(ctx, field)),
                        },
                        Some(_) => Err(st(ctx, field)),
                    }
                } else if tag == "Long"@ {
                    match val {
                        None => Ok(crate::types::TypeView::Long(None)),
                        Some(ValueView::Null) => Ok(crate::types::TypeView::Long(None)),
                        Some(ValueView::Num(n)) => match n.int {
                            Some(i) => Ok(crate::types::TypeView::Long(Some(i))),
                            None => Err(st(ctx, field)),
                        },
                        Some(_) => Err(st(ctx, field)),
                    }
                } else if tag == "Float"@ {
                    match val {
                        None => Ok(crate::types::TypeView::Float(None)),
                        Some(ValueView::Null) => Ok(crate::types::TypeView::Float(None)),
                        Some(ValueView::Num(n)) => match n.float_bits {
                            Some(b) => Ok(crate::types::TypeView::Float(Some(b))),
                            None => Err(st(ctx, field)),
                        },
                        Some(_) => Err(st(ctx, field)),
                    }
                } else if tag == "Double"@ {
                    match val {
                        None => Ok(crate::types::TypeView::Double(None)),
                        Some(ValueView::Null) => Ok(crate::types::TypeView::Double(None)),
                        Some(ValueView::Num(n)) => match n.float_bits {
                            Some(b) => Ok(crate::types::TypeView::Double(Some(b))),
                            None => Err(st(ctx, field)),
                        },
                        Some(_) => Err(st(ctx, field)),
                    }
                } else if tag == "String"@ {
                    match val {
                        None => Ok(crate::types::TypeView::Str(None)),
                        Some(ValueView::Null) => Ok(crate::types::TypeView::Str(None)),
                        Some(ValueView::Str(s)) => Ok(crate::types::TypeView::Str(Some(s))),
                        Some(_) => Err(st(ctx, field)),
                    }
                } else if tag == "Custom"@ {
                    match val {
                        Some(ValueView::Str(s)) => Ok(crate::types::TypeView::Custom(s)),
                        _ => Err(st(ctx, field)),
                    }
                } else {
                    Err(st(ctx, tag))
                }
            },
            Some(_) => Err(st(ctx, "type"@)),
            None => Err(st(ctx, "type"@)),
        },
        _ => Err(st(ctx, field)),
    }
}

/// Decodes a field type.
pub fn decode_field_type(v: &DocValue, ctx: &str, field: &str) -> (r: Result<
    crate::types::Type,
    ConfigError,
>)
    ensures
        match r {
            Ok(t) => dec_field_type(v@, ctx@, field@) == Ok::<
                crate::types::TypeView,
                ConfigErrorView,
            >(t@),
            Err(e) => dec_field_type(v@, ctx@, field@) == Err::<
                crate::types::TypeView,
                ConfigErrorView,
            >(e@),
        },
{
    match v {
        DocValue::Obj(entries) => {
            let tag = match DocValue::obj_get(entries, "type") {
                Some(DocValue::Str(tag)) => tag,
                Some(_) => {
                    return Err(st_err(ctx, "type"));
                },
                None => {
                    return Err(st_err(ctx, "type"));
                },
            };
            let val = DocValue::obj_get(entries, "value");
            if str_eq(tag.as_str(), "Boolean") {
                match val {
                    None => Ok(crate::types::Type::BOOLEAN(None)),
                    Some(DocValue::Null) => Ok(crate::types::Type::BOOLEAN(None)),
                    Some(DocValue::Bool(b)) => Ok(crate::types::Type::BOOLEAN(Some(*b))),
                    Some(_) => Err(st_err(ctx, field)),
                }
            } else if str_eq(tag.as_str(), "Byte") {
                match val {
                    None => Ok(crate::types::Type::BYTE(None)),
                    Some(DocValue::Null) => Ok(crate::types::Type::BYTE(None)),
                    Some(DocValue::Num(n)) => match n.int {
                        Some(i) => if -128 <= i && i <= 127 {
                            Ok(crate::types::Type::BYTE(Some(i as i8)))
                        } else {
                            Err(st_err(ctx, field))
                        },
                        None => Err(st_err(ctx, field)),
                    },
                    Some(_) => Err(st_err(ctx, field)),
                }
            } else if str_eq(tag.as_str(), "Short") {
                match val {
                    None => Ok(crate::types::Type::SHORT(None)),
                    Some(DocValue::Null) => Ok(crate::types::Type::SHORT(None)),
                    Some(DocValue::Num(n)) => match n.int {
                        Some(i) => if -32768 <= i && i <= 32767 {
                            Ok(crate::types::Type::SHORT(Some(i as i16)))
                        } else {
                            Err(st_err(ctx, field))
                        },
                        None => Err(st_err(ctx, field)),
                    },
                    Some(_) => Err(st_err(ctx, field)),
                }
            } else if str_eq(tag.as_str(), "Int") {
                match val {
                    None => Ok(crate::types::Type::INT(None)),
                    Some(DocValue::Null) => Ok(crate::types::Type::INT(None)),
                    Some(DocValue::Num(n)) => match n.int {
                        Some(i) => if -0x8000_0000i64 <= i && i <= 0x7fff_ffffi64 {
                            Ok(crate::types::Type::INT(Some(i as i32)))
                        } else {
                            Err(st_err(ctx, field))
                        },
                        None => Err(st_err(ctx, field)),
                    },
                    Some(_) => Err(st_err(ctx, field)),
                }
            } else if str_eq(tag.as_str(), "Long") {
                match val {
                    None => Ok(crate::types::Type::LONG(None)),
                    Some(DocValue::Null) => Ok(crate::types::Type::LONG(None)),
                    Some(DocValue::Num(n)) => match n.int {
                        Some(i) => Ok(crate::types::Type::LONG(Some(i))),
                        None => Err(st_err(ctx, field)),
                    },
                    Some(_) => Err(st_err(ctx, field)),
                }
            } else if str_eq(tag.as_str(), "Float") {
                match val {
                    None => Ok(crate::types::Type::FLOAT(None)),
                    Some(DocValue::Null) => Ok(crate::types::Type::FLOAT(None)),
                    Some(DocValue::Num(n)) => match n.float_bits {
                        Some(b) => Ok(crate::types::Type::FLOAT(Some(b))),
                        None => Err(st_err(ctx, field)),
                    },
                    Some(_) => Err(st_err(ctx, field)),
                }
            } else if str_eq(tag.as_str(), "Double") {
                match val {
                    None => Ok(crate::types::Type::DOUBLE(None)),
                    Some(DocValue::Null) => Ok(crate::types::Type::DOUBLE(None)),
                    Some(DocValue::Num(n)) => match n.float_bits {
                        Some(b) => Ok(crate::types::Type::DOUBLE(Some(b))),
                        None => Err(st_err(ctx, field)),
                    },
                    Some(_) => Err(st_err(ctx, field)),
                }
            } else if str_eq(tag.as_str(), "String") {
                match val {
                    None => Ok(crate::types::Type::STRING(None)),
                    Some(DocValue::Null) => Ok(crate::types::Type::STRING(None)),
                    Some(DocValue::Str(s)) => Ok(crate::types::Type::STRING(Some(s.clone()))),
                    Some(_) => Err(st_err(ctx, field)),
                }
            } else if str_eq(tag.as_str(), "Custom") {
                match val {
                    Some(DocValue::Str(s)) => Ok(crate::types::Type::CUSTOM(s.clone())),
                    _ => Err(st_err(ctx, field)),
                }
            } else {
                Err(st_err(ctx, tag.as_str()))
            }
        },
        _ => Err(st_err(ctx, field)),
    }
}

/// A type definition: an object mapping field names to field types, with
/// duplicate field keys rejected. Fields are gathered from entry `k` on.
pub open spec fn dec_fields(
    s: Seq<(Seq<char>, ValueView)>,
    k: int,
    acc: Seq<(Seq<char>, crate::types::TypeView)>,
    ctx: Seq<char>,
) -> Result<Seq<(Seq<char>, crate::types::TypeView)>, ConfigErrorView>
    decreases s.len() - k,
{
    if k >= s.len() {
        Ok(acc)
    } else if keys_contain(acc, s[k].0) {
        Err(ConfigErrorView::DuplicateKey { section: ctx, key: s[k].0 })
    } else {
        match dec_field_type(s[k].1, ctx, s[k].0) {
            Ok(t) => dec_fields(s, k + 1, acc.push((s[k].0, t)), ctx),
            Err(e) => Err(e),
        }
    }
}

/// A type definition's object decoded whole.
pub open spec fn dec_typedef(v: ValueView, ctx: Seq<char>) -> Result<
    crate::types::TypeDefView,
    ConfigErrorView,
> {
    match v {
        ValueView::Obj(o) => match dec_fields(o, 0, Seq::empty(), ctx) {
            Ok(fields) => Ok(crate::types::TypeDefView { fields }),
            Err(e) => Err(e),
        },
        _ => Err(st(ctx, "fields"@)),
    }
}

/// Decodes a type definition.
pub fn decode_typedef(v: &DocValue, ctx: &str) -> (r: Result<crate::types::TypeDTO, ConfigError>)
    ensures
        match r {
            Ok(t) => dec_typedef(v@, ctx@) == Ok::<crate::types::TypeDefView, ConfigErrorView>(t@),
            Err(e) => dec_typedef(v@, ctx@) == Err::<crate::types::TypeDefView, ConfigErrorView>(
                e@,
            ),
        },
{
    match v {
        DocValue::Obj(entries) => {
            let ghost o = entries_view(entries@);
            let mut acc: Vec<(String, crate::types::Type)> = Vec::new();
            assert(pairs_view(acc@) =~= Seq::<(Seq<char>, crate::types::TypeView)>::empty());
            let n = entries.len();
            let mut k: usize = 0;
            while k < n
                invariant
                    n == entries@.len(),
                    k <= n,
                    o == entries_view(entries@),
                    v@ == ValueView::Obj(o),
                    dec_fields(o, 0, Seq::empty(), ctx@) == dec_fields(
                        o,
                        k as int,
                        pairs_view(acc@),
                        ctx@,
                    ),
                decreases n - k,
            {
                proof {
                    assert(o[k as int] == (entries@[k as int].0@, entries@[k as int].1@));
                }
                if pairs_key_present(&acc, entries[k].0.as_str()) {
                    let e = ConfigError::DuplicateKey {
                        section: ctx.to_owned(),
                        key: entries[k].0.clone(),
                    };
                    proof {
                        assert(dec_fields(o, k as int, pairs_view(acc@), ctx@) == Err::<
                            Seq<(Seq<char>, crate::types::TypeView)>,
                            ConfigErrorView,
                        >(e@));
                    }
                    return Err(e);
                }
                let t = match decode_field_type(&entries[k].1, ctx, entries[k].0.as_str()) {
                    Ok(t) => t,
                    Err(e) => {
                        proof {
                            assert(dec_fields(o, k as int, pairs_view(acc@), ctx@) == Err::<
                                Seq<(Seq<char>, crate::types::TypeView)>,
                                ConfigErrorView,
                            >(e@));
                        }
                        return Err(e);
                    },
                };
                let ghost old_acc = acc@;
                acc.push((entries[k].0.clone(), t));
                proof {
                    assert(pairs_view(acc@) =~= pairs_view(old_acc).push((o[k as int].0, t@)));
                }
                k += 1;
            }
            proof {
                assert(dec_fields(o, n as int, pairs_view(acc@), ctx@) == Ok::<
                    Seq<(Seq<char>, crate::types::TypeView)>,
                    ConfigErrorView,
                >(pairs_view(acc@)));
            }
            Ok(crate::types::TypeDTO { fields: acc })
        },
        _ => Err(st_err(ctx, "fields")),
    }
}

/// An action: an optional payload type name under `type` and a required
/// side under `side` — one of `Client`, `Server`, `Both`, `Debug`.
pub open spec fn dec_action(v: ValueView, ctx: Seq<char>) -> Result<
    crate::action::ActionView,
    ConfigErrorView,
> {
    match v {
        ValueView::Obj(o) => {
            let data_type = match lookup(o, "type"@) {
                None => Ok(None),
                Some(ValueView::Null) => Ok(None),
                Some(ValueView::Str(s)) => Ok(Some(s)),
                Some(_) => Err(st(ctx, "type"@)),
            };
            match data_type {
                Ok(data_type) => match lookup(o, "side"@) {
                    Some(ValueView::Str(tag)) => if tag == "Client"@ {
                        Ok(
                            crate::action::ActionView {
                                data_type,
                                side: crate::action::ActionSide::Client,
                            },
                        )
                    } else if tag == "Server"@ {
                        Ok(
                            crate::action::ActionView {
                                data_type,
                                side: crate::action::ActionSide::Server,
                            },
                        )
                    } else if tag == "Both"@ {
                        Ok(
                            crate::action::ActionView {
                                data_type,
                                side: crate::action::ActionSide::Both,
                            },
                        )
                    } else if tag == "Debug"@ {
                        Ok(
                            crate::action::ActionView {
                                data_type,
                                side: crate::action::ActionSide::Debug,
                            },
                        )
                    } else {
                        Err(st(ctx, tag))
                    },
                    Some(_) => Err(st(ctx, "side"@)),
                    None => Err(st(ctx, "side"@)),
                },
                Err(e) => Err(e),
            }
        },
        _ => Err(st(ctx, "action"@)),
    }
}

/// Decodes an action.
pub fn decode_action(v: &DocValue, ctx: &str) -> (r: Result<crate::action::ActionDTO, ConfigError>)
    ensures
        match r {
            Ok(a) => dec_action(v@, ctx@) == Ok::<crate::action::ActionView, ConfigErrorView>(a@),
            Err(e) => dec_action(v@, ctx@) == Err::<crate::action::ActionView, ConfigErrorView>(
                e@,
            ),
        },
{
    match v {
        DocValue::Obj(entries) => {
            let data_type = match DocValue::obj_get(entries, "type") {
                None => None,
                Some(DocValue::Null) => None,
                Some(DocValue::Str(s)) => Some(s.clone()),
                Some(_) => {
                    return Err(st_err(ctx, "type"));
                },
            };
            let tag = match DocValue::obj_get(entries, "side") {
                Some(DocValue::Str(tag)) => tag,
                Some(_) => {
                    return Err(st_err(ctx, "side"));
                },
                None => {
                    return Err(st_err(ctx, "side"));
                },
            };
            let side = if str_eq(tag.as_str(), "Client") {
                crate::action::ActionSide::Client
            } else if str_eq(tag.as_str(), "Server") {
                crate::action::ActionSide::Server
            } else if str_eq(tag.as_str(), "Both") {
                crate::action::ActionSide::Both
            } else if str_eq(tag.as_str(), "Debug") {
                crate::action::ActionSide::Debug
            } else {
                return Err(st_err(ctx, tag.as_str()));
            };
            Ok(crate::action::ActionDTO { data_type, side })
        },
        _ => Err(st_err(ctx, "action")),
    }
}

/// A key binding: an optional `description` string and a required `key`
/// code name.
pub open spec fn dec_keybind(v: ValueView, ctx: Seq<char>) -> Result<
    crate::keybind::KeyBindView,
    ConfigErrorView,
> {
    match v {
        ValueView::Obj(o) => {
            let description = match lookup(o, "description"@) {
                None => Ok(None),
                Some(ValueView::Null) => Ok(None),
                Some(ValueView::Str(s)) => Ok(Some(s)),
                Some(_) => Err(st(ctx, "description"@)),
            };
            match description {
                Ok(description) => match lookup(o, "key"@) {
                    Some(ValueView::Str(key)) => Ok(
                        crate::keybind::KeyBindView { description, key },
                    ),
                    Some(_) => Err(st(ctx, "key"@)),
                    None => Err(st(ctx, "key"@)),
                },
                Err(e) => Err(e),
            }
        },
        _ => Err(st(ctx, "keybind"@)),
    }
}

/// Decodes a key binding.
pub fn decode_keybind(v: &DocValue, ctx: &str) -> (r: Result<
    crate::keybind::KeyBindDTO,
    ConfigError,
>)
    ensures
        match r {
            Ok(k) => dec_keybind(v@, ctx@) == Ok::<crate::keybind::KeyBindView, ConfigErrorView>(
                k@,
            ),
            Err(e) => dec_keybind(v@, ctx@) == Err::<crate::keybind::KeyBindView, ConfigErrorView>(
                e@,
            ),
        },
{
    match v {
        DocValue::Obj(entries) => {
            let description = match DocValue::obj_get(entries, "description") {
                None => None,
                Some(DocValue::Null) => None,
                Some(DocValue::Str(s)) => Some(s.clone()),
                Some(_) => {
                    return Err(st_err(ctx, "description"));
                },
            };
            let key = match DocValue::obj_get(entries, "key") {
                Some(DocValue::Str(key)) => key.clone(),
                Some(_) => {
                    return Err(st_err(ctx, "key"));
                },
                None => {
                    return Err(st_err(ctx, "key"));
                },
            };
            Ok(crate::keybind::KeyBindDTO { description, key })
        },
        _ => Err(st_err(ctx, "keybind")),
    }
}

/// A cube map: a required `texture` string.
pub open spec fn dec_cube_map(v: ValueView, ctx: Seq<char>) -> Result<
    crate::terrain::CubeMapView,
    ConfigErrorView,
> {
    match v {
        ValueView::Obj(o) => match lookup(o, "texture"@) {
            Some(ValueView::Str(texture)) => Ok(crate::terrain::CubeMapView { texture }),
            Some(_) => Err(st(ctx, "texture"@)),
            None => Err(st(ctx, "texture"@)),
        },
        _ => Err(st(ctx, "cube_map"@)),
    }
}

/// Decodes a cube map.
pub fn decode_cube_map(v: &DocValue, ctx: &str) -> (r: Result<
    crate::terrain::CubeMapDTO,
    ConfigError,
>)
    ensures
        match r {
            Ok(c) => dec_cube_map(v@, ctx@) == Ok::<crate::terrain::CubeMapView, ConfigErrorView>(
                c@,
            ),
            Err(e) => dec_cube_map(v@, ctx@) == Err::<
                crate::terrain::CubeMapView,
                ConfigErrorView,
            >(e@),
        },
{
    match v {
        DocValue::Obj(entries) => match DocValue::obj_get(entries, "texture") {
            Some(DocValue::Str(texture)) => Ok(
                crate::terrain::CubeMapDTO { texture: texture.clone() },
            ),
            Some(_) => Err(st_err(ctx, "texture")),
            None => Err(st_err(ctx, "texture")),
        },
        _ => Err(st_err(ctx, "cube_map")),
    }
}

/// An environment map light: required `specular` and `diffuse` strings.
pub open spec fn dec_env_map(v: ValueView, ctx: Seq<char>) -> Result<
    crate::terrain::EnvironmentMapLightView,
    ConfigErrorView,
> {
    match v {
        ValueView::Obj(o) => match lookup(o, "specular"@) {
            Some(ValueView::Str(specular)) => match lookup(o, "diffuse"@) {
                Some(ValueView::Str(diffuse)) => Ok(
                    crate::terrain::EnvironmentMapLightView { specular, diffuse },
                ),
                Some(_) => Err(st(ctx, "diffuse"@)),
                None => Err(st(ctx, "diffuse"@)),
            },
            Some(_) => Err(st(ctx, "specular"@)),
            None => Err(st(ctx, "specular"@)),
        },
        _ => Err(st(ctx, "environment_map_light"@)),
    }
}

/// Decodes an environment map light.
pub fn decode_env_map(v: &DocValue, ctx: &str) -> (r: Result<
    crate::terrain::EnvironmentMapLightDTO,
    ConfigError,
>)
    ensures
        match r {
            Ok(c) => dec_env_map(v@, ctx@) == Ok::<
                crate::terrain::EnvironmentMapLightView,
                ConfigErrorView,
            >(c@),
            Err(e) => dec_env_map(v@, ctx@) == Err::<
                crate::terrain::EnvironmentMapLightView,
                ConfigErrorView,
            >(e@),
        },
{
    match v {
        DocValue::Obj(entries) => {
            let specular = match DocValue::obj_get(entries, "specular") {
                Some(DocValue::Str(s)) => s.clone(),
                Some(_) => {
                    return Err(st_err(ctx, "specular"));
                },
                None => {
                    return Err(st_err(ctx, "specular"));
                },
            };
            let diffuse = match DocValue::obj_get(entries, "diffuse") {
                Some(DocValue::Str(s)) => s.clone(),
                Some(_) => {
                    return Err(st_err(ctx, "diffuse"));
                },
                None => {
                    return Err(st_err(ctx, "diffuse"));
                },
            };
            Ok(crate::terrain::EnvironmentMapLightDTO { specular, diffuse })
        },
        _ => Err(st_err(ctx, "environment_map_light")),
    }
}

/// A skybox: a required `cube_map` and an optional
/// `environment_map_light`.
pub open spec fn dec_skybox(v: ValueView, ctx: Seq<char>) -> Result<
    crate::terrain::SkyboxView,
    ConfigErrorView,
> {
    match v {
        ValueView::Obj(o) => match lookup(o, "cube_map"@) {
            Some(cv) => match dec_cube_map(cv, ctx) {
                Ok(cube_map) => match lookup(o, "environment_map_light"@) {
                    None => Ok(
                        crate::terrain::SkyboxView { cube_map, environment_map_light: None },
                    ),
                    Some(ValueView::Null) => Ok(
                        crate::terrain::SkyboxView { cube_map, environment_map_light: None },
                    ),
                    Some(ev) => match dec_env_map(ev, ctx) {
                        Ok(e) => Ok(
                            crate::terrain::SkyboxView {
                                cube_map,
                                environment_map_light: Some(e),
                            },
                        ),
                        Err(e) => Err(e),
                    },
                },
                Err(e) => Err(e),
            },
            None => Err(st(ctx, "cube_map"@)),
        },
        _ => Err(st(ctx, "skybox"@)),
    }
}

/// Decodes a skybox.
pub fn decode_skybox(v: &DocValue, ctx: &str) -> (r: Result<
    crate::terrain::SkyboxDTO,
    ConfigError,
>)
    ensures
        match r {
            Ok(s) => dec_skybox(v@, ctx@) == Ok::<crate::terrain::SkyboxView, ConfigErrorView>(s@),
            Err(e) => dec_skybox(v@, ctx@) == Err::<crate::terrain::SkyboxView, ConfigErrorView>(
                e@,
            ),
        },
{
    match v {
        DocValue::Obj(entries) => {
            let cube_map = match DocValue::obj_get(entries, "cube_map") {
                Some(cv) => match decode_cube_map(cv, ctx) {
                    Ok(c) => c,
                    Err(e) => {
                        return Err(e);
                    },
                },
                None => {
                    return Err(st_err(ctx, "cube_map"));
                },
            };
            let environment_map_light = match DocValue::obj_get(
                entries,
                "environment_map_light",
            ) {
                None => None,
                Some(DocValue::Null) => None,
                Some(ev) => match decode_env_map(ev, ctx) {
                    Ok(e) => Some(e),
                    Err(e) => {
                        return Err(e);
                    },
                },
            };
            Ok(crate::terrain::SkyboxDTO { cube_map, environment_map_light })
        },
        _ => Err(st_err(ctx, "skybox")),
    }
}

/// Terrain settings: an optional `skybox`.
pub open spec fn dec_terrain(v: ValueView, ctx: Seq<char>) -> Result<
    crate::terrain::TerrainView,
    ConfigErrorView,
> {
    match v {
        ValueView::Obj(o) => match lookup(o, "skybox"@) {
            None => Ok(crate::terrain::TerrainView { skybox: None }),
            Some(ValueView::Null) => Ok(crate::terrain::TerrainView { skybox: None }),
            Some(sv) => match dec_skybox(sv, ctx) {
                Ok(s) => Ok(crate::terrain::TerrainView { skybox: Some(s) }),
                Err(e) => Err(e),
            },
        },
        _ => Err(st(ctx, "terrain"@)),
    }
}

/// Decodes terrain settings.
pub fn decode_terrain(v: &DocValue, ctx: &str) -> (r: Result<
    crate::terrain::TerrainDTO,
    ConfigError,
>)
    ensures
        match r {
            Ok(t) => dec_terrain(v@, ctx@) == Ok::<crate::terrain::TerrainView, ConfigErrorView>(
                t@,
            ),
            Err(e) => dec_terrain(v@, ctx@) == Err::<crate::terrain::TerrainView, ConfigErrorView>(
                e@,
            ),
        },
{
    match v {
        DocValue::Obj(entries) => {
            let skybox = match DocValue::obj_get(entries, "skybox") {
                None => None,
                Some(DocValue::Null) => None,
                Some(sv) => match decode_skybox(sv, ctx) {
                    Ok(s) => Some(s),
                    Err(e) => {
                        return Err(e);
                    },
                },
            };
            Ok(crate::terrain::TerrainDTO { skybox })
        },
        _ => Err(st_err(ctx, "terrain")),
    }
}

} // verus!
