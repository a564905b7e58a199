//! Decoding hierarchy nodes: a `name`, a `type` discriminant selecting one
//! node kind, a `value` payload with that kind's fields, and an optional
//! list of `children` decoded recursively. An `attributes` entry in the
//! input is ignored: attributes are encode-only. An unrecognized
//! discriminant is rejected, never defaulted.

use vstd::prelude::*;
use crate::decode::{
    dec_asset_id, dec_bool, dec_color, dec_f64, dec_ivec3, dec_transform, dec_vec3, decode_asset_id,
    decode_bool, decode_color, decode_f64, decode_ivec3, decode_transform, decode_vec3, st, st_err,
};
use crate::error::{ConfigError, ConfigErrorView};
use crate::hierarchy::{
    elements_view, FolderDTO, GameElementDTO, GameElementTypeDTO, GameElementTypeView,
    GameElementView, PartDTO, PartView, PointLightDTO, PointLightView, PropDTO, PropView,
    ScriptDTO, ScriptView, SpotLightDTO, SpotLightView, StructureDTO, StructureView,
};
use crate::value::{lookup, str_eq, values_view, DocValue, ValueView};

verus! {

broadcast use {crate::value::group_value_views, crate::hierarchy::group_element_views};

/// A part payload: required `size`, `color` and `position`; optional
/// `gravity`, `true` when left out.
pub open spec fn dec_part(v: ValueView, nm: Seq<char>) -> Result<PartView, ConfigErrorView> {
    match v {
        ValueView::Obj(o) => match lookup(o, "size"@) {
            Some(sv) => match dec_vec3(sv, nm, "size"@) {
                Ok(size) => match lookup(o, "color"@) {
                    Some(cv) => match dec_color(cv, nm, "color"@) {
                        Ok(color) => match lookup(o, "position"@) {
                            Some(pv) => match dec_transform(pv, nm, "position"@) {
                                Ok(position) => match lookup(o, "gravity"@) {
                                    None => Ok(PartView { size, color, position, gravity: true }),
                                    Some(gv) => match dec_bool(gv, nm, "gravity"@) {
                                        Ok(gravity) => Ok(
                                            PartView { size, color, position, gravity },
                                        ),
                                        Err(e) => Err(e),
                                    },
                                },
                                Err(e) => Err(e),
                            },
                            None => Err(st(nm, "position"@)),
                        },
                        Err(e) => Err(e),
                    },
                    None => Err(st(nm, "color"@)),
                },
                Err(e) => Err(e),
            },
            None => Err(st(nm, "size"@)),
        },
        _ => Err(st(nm, "value"@)),
    }
}

/// Decodes a part payload.
pub fn decode_part(v: &DocValue, nm: &str) -> (r: Result<PartDTO, ConfigError>)
    ensures
        match r {
            Ok(p) => dec_part(v@, nm@) == Ok::<PartView, ConfigErrorView>(p@),
            Err(e) => dec_part(v@, nm@) == Err::<PartView, ConfigErrorView>(e@),
        },
{
    match v {
        DocValue::Obj(entries) => {
            let size = match DocValue::obj_get(entries, "size") {
                Some(sv) => match decode_vec3(sv, nm, "size") {
                    Ok(s) => s,
                    Err(e) => {
                        return Err(e);
                    },
                },
                None => {
                    return Err(st_err(nm, "size"));
                },
            };
            let color = match DocValue::obj_get(entries, "color") {
                Some(cv) => match decode_color(cv, nm, "color") {
                    Ok(c) => c,
                    Err(e) => {
                        return Err(e);
                    },
                },
                None => {
                    return Err(st_err(nm, "color"));
                },
            };
            let position = match DocValue::obj_get(entries, "position") {
                Some(pv) => match decode_transform(pv, nm, "position") {
                    Ok(p) => p,
                    Err(e) => {
                        return Err(e);
                    },
                },
                None => {
                    return Err(st_err(nm, "position"));
                },
            };
            let gravity = match DocValue::obj_get(entries, "gravity") {
                None => true,
                Some(gv) => match decode_bool(gv, nm, "gravity") {
                    Ok(g) => g,
                    Err(e) => {
                        return Err(e);
                    },
                },
            };
            Ok(PartDTO { size, color, position, gravity })
        },
        _ => Err(st_err(nm, "value")),
    }
}

/// A script payload: a required `asset_id`.
pub open spec fn dec_script(v: ValueView, nm: Seq<char>) -> Result<ScriptView, ConfigErrorView> {
    match v {
        ValueView::Obj(o) => match lookup(o, "asset_id"@) {
            Some(av) => match dec_asset_id(av, nm, "asset_id"@) {
                Ok(asset_id) => Ok(ScriptView { asset_id }),
                Err(e) => Err(e),
            },
            None => Err(st(nm, "asset_id"@)),
        },
        _ => Err(st(nm, "value"@)),
    }
}

/// Decodes a script payload.
pub fn decode_script(v: &DocValue, nm: &str) -> (r: Result<ScriptDTO, ConfigError>)
    ensures
        match r {
            Ok(s) => dec_script(v@, nm@) == Ok::<ScriptView, ConfigErrorView>(s@),
            Err(e) => dec_script(v@, nm@) == Err::<ScriptView, ConfigErrorView>(e@),
        },
{
    match v {
        DocValue::Obj(entries) => match DocValue::obj_get(entries, "asset_id") {
            Some(av) => match decode_asset_id(av, nm, "asset_id") {
                Ok(asset_id) => Ok(ScriptDTO { asset_id }),
                Err(e) => Err(e),
            },
            None => Err(st_err(nm, "asset_id")),
        },
        _ => Err(st_err(nm, "value")),
    }
}

/// A spot light payload: required `color`, `intensity`, `range`, `radius`,
/// `shadows_enabled`, `outer_angle`, `inner_angle` and `position`.
pub open spec fn dec_spot_light(v: ValueView, nm: Seq<char>) -> Result<
    SpotLightView,
    ConfigErrorView,
> {
    match v {
        ValueView::Obj(o) => match lookup(o, "color"@) {
            Some(cv) => match dec_color(cv, nm, "color"@) {
                Ok(color) => match lookup(o, "intensity"@) {
                    Some(iv) => match dec_f64(iv, nm, "intensity"@) {
                        Ok(intensity) => match lookup(o, "range"@) {
                            Some(rv) => match dec_f64(rv, nm, "range"@) {
                                Ok(range) => match lookup(o, "radius"@) {
                                    Some(rd) => match dec_f64(rd, nm, "radius"@) {
                                        Ok(radius) => match lookup(o, "shadows_enabled"@) {
                                            Some(se) => match dec_bool(se, nm, "shadows_enabled"@) {
                                                Ok(shadows_enabled) => match lookup(
                                                    o,
                                                    "outer_angle"@,
                                                ) {
                                                    Some(oa) => match dec_f64(
                                                        oa,
                                                        nm,
                                                        "outer_angle"@,
                                                    ) {
                                                        Ok(outer_angle) => match lookup(
                                                            o,
                                                            "inner_angle"@,
                                                        ) {
                                                            Some(ia) => match dec_f64(
                                                                ia,
                                                                nm,
                                                                "inner_angle"@,
                                                            ) {
                                                                Ok(inner_angle) => match lookup(
                                                                    o,
                                                                    "position"@,
                                                                ) {
                                                                    Some(pv) => match dec_transform(
                                                                        pv,
                                                                        nm,
                                                                        "position"@,
                                                                    ) {
                                                                        Ok(position) => Ok(
                                                                            SpotLightView {
                                                                                color,
                                                                                intensity,
                                                                                range,
                                                                                radius,
                                                                                shadows_enabled,
                                                                                outer_angle,
                                                                                inner_angle,
                                                                                position,
                                                                            },
                                                                        ),
                                                                        Err(e) => Err(e),
                                                                    },
                                                                    None => Err(
                                                                        st(nm, "position"@),
                                                                    ),
                                                                },
                                                                Err(e) => Err(e),
                                                            },
                                                            None => Err(st(nm, "inner_angle"@)),
                                                        },
                                                        Err(e) => Err(e),
                                                    },
                                                    None => Err(st(nm, "outer_angle"@)),
                                                },
                                                Err(e) => Err(e),
                                            },
                                            None => Err(st(nm, "shadows_enabled"@)),
                                        },
                                        Err(e) => Err(e),
                                    },
                                    None => Err(st(nm, "radius"@)),
                                },
                                Err(e) => Err(e),
                            },
                            None => Err(st(nm, "range"@)),
                        },
                        Err(e) => Err(e),
                    },
                    None => Err(st(nm, "intensity"@)),
                },
                Err(e) => Err(e),
            },
            None => Err(st(nm, "color"@)),
        },
        _ => Err(st(nm, "value"@)),
    }
}

/// Decodes a spot light payload.
pub fn decode_spot_light(v: &DocValue, nm: &str) -> (r: Result<SpotLightDTO, ConfigError>)
    ensures
        match r {
            Ok(l) => dec_spot_light(v@, nm@) == Ok::<SpotLightView, ConfigErrorView>(l@),
            Err(e) => dec_spot_light(v@, nm@) == Err::<SpotLightView, ConfigErrorView>(e@),
        },
{
    match v {
        DocValue::Obj(entries) => {
            let color = match DocValue::obj_get(entries, "color") {
                Some(cv) => match decode_color(cv, nm, "color") {
                    Ok(c) => c,
                    Err(e) => {
                        return Err(e);
                    },
                },
                None => {
                    return Err(st_err(nm, "color"));
                },
            };
            let intensity = match DocValue::obj_get(entries, "intensity") {
                Some(iv) => match decode_f64(iv, nm, "intensity") {
                    Ok(x) => x,
                    Err(e) => {
                        return Err(e);
                    },
                },
                None => {
                    return Err(st_err(nm, "intensity"));
                },
            };
            let range = match DocValue::obj_get(entries, "range") {
                Some(rv) => match decode_f64(rv, nm, "range") {
                    Ok(x) => x,
                    Err(e) => {
                        return Err(e);
                    },
                },
                None => {
                    return Err(st_err(nm, "range"));
                },
            };
            let radius = match DocValue::obj_get(entries, "radius") {
                Some(rd) => match decode_f64(rd, nm, "radius") {
                    Ok(x) => x,
                    Err(e) => {
                        return Err(e);
                    },
                },
                None => {
                    return Err(st_err(nm, "radius"));
                },
            };
            let shadows_enabled = match DocValue::obj_get(entries, "shadows_enabled") {
                Some(se) => match decode_bool(se, nm, "shadows_enabled") {
                    Ok(b) => b,
                    Err(e) => {
                        return Err(e);
                    },
                },
                None => {
                    return Err(st_err(nm, "shadows_enabled"));
                },
            };
            let outer_angle = match DocValue::obj_get(entries, "outer_angle") {
                Some(oa) => match decode_f64(oa, nm, "outer_angle") {
                    Ok(x) => x,
                    Err(e) => {
                        return Err(e);
                    },
                },
                None => {
                    return Err(st_err(nm, "outer_angle"));
                },
            };
            let inner_angle = match DocValue::obj_get(entries, "inner_angle") {
                Some(ia) => match decode_f64(ia, nm, "inner_angle") {
                    Ok(x) => x,
                    Err(e) => {
                        return Err(e);
                    },
                },
                None => {
                    return Err(st_err(nm, "inner_angle"));
                },
            };
            let position = match DocValue::obj_get(entries, "position") {
                Some(pv) => match decode_transform(pv, nm, "position") {
                    Ok(p) => p,
                    Err(e) => {
                        return Err(e);
                    },
                },
                None => {
                    return Err(st_err(nm, "position"));
                },
            };
            Ok(
                SpotLightDTO {
                    color,
                    intensity,
                    range,
                    radius,
                    shadows_enabled,
                    outer_angle,
                    inner_angle,
                    position,
                },
            )
        },
        _ => Err(st_err(nm, "value")),
    }
}

/// A point light payload: required `color`, `intensity`, `range`,
/// `radius`, `shadows_enabled` and `position`.
pub open spec fn dec_point_light(v: ValueView, nm: Seq<char>) -> Result<
    PointLightView,
    ConfigErrorView,
> {
    match v {
        ValueView::Obj(o) => match lookup(o, "color"@) {
            Some(cv) => match dec_color(cv, nm, "color"@) {
                Ok(color) => match lookup(o, "intensity"@) {
                    Some(iv) => match dec_f64(iv, nm, "intensity"@) {
                        Ok(intensity) => match lookup(o, "range"@) {
                            Some(rv) => match dec_f64(rv, nm, "range"@) {
                                Ok(range) => match lookup(o, "radius"@) {
                                    Some(rd) => match dec_f64(rd, nm, "radius"@) {
                                        Ok(radius) => match lookup(o, "shadows_enabled"@) {
                                            Some(se) => match dec_bool(se, nm, "shadows_enabled"@) {
                                                Ok(shadows_enabled) => match lookup(
                                                    o,
                                                    "position"@,
                                                ) {
                                                    Some(pv) => match dec_transform(
                                                        pv,
                                                        nm,
                                                        "position"@,
                                                    ) {
                                                        Ok(position) => Ok(
                                                            PointLightView {
                                                                color,
                                                                intensity,
                                                                range,
                                                                radius,
                                                                shadows_enabled,
                                                                position,
                                                            },
                                                        ),
                                                        Err(e) => Err(e),
                                                    },
                                                    None => Err(st(nm, "position"@)),
                                                },
                                                Err(e) => Err(e),
                                            },
                                            None => Err(st(nm, "shadows_enabled"@)),
                                        },
                                        Err(e) => Err(e),
                                    },
                                    None => Err(st(nm, "radius"@)),
                                },
                                Err(e) => Err(e),
                            },
                            None => Err(st(nm, "range"@)),
                        },
                        Err(e) => Err(e),
                    },
                    None => Err(st(nm, "intensity"@)),
                },
                Err(e) => Err(e),
            },
            None => Err(st(nm, "color"@)),
        },
        _ => Err(st(nm, "value"@)),
    }
}

/// Decodes a point light payload.
pub fn decode_point_light(v: &DocValue, nm: &str) -> (r: Result<PointLightDTO, ConfigError>)
    ensures
        match r {
            Ok(l) => dec_point_light(v@, nm@) == Ok::<PointLightView, ConfigErrorView>(l@),
            Err(e) => dec_point_light(v@, nm@) == Err::<PointLightView, ConfigErrorView>(e@),
        },
{
    match v {
        DocValue::Obj(entries) => {
            let color = match DocValue::obj_get(entries, "color") {
                Some(cv) => match decode_color(cv, nm, "color") {
                    Ok(c) => c,
                    Err(e) => {
                        return Err(e);
                    },
                },
                None => {
                    return Err(st_err(nm, "color"));
                },
            };
            let intensity = match DocValue::obj_get(entries, "intensity") {
                Some(iv) => match decode_f64(iv, nm, "intensity") {
                    Ok(x) => x,
                    Err(e) => {
                        return Err(e);
                    },
                },
                None => {
                    return Err(st_err(nm, "intensity"));
                },
            };
            let range = match DocValue::obj_get(entries, "range") {
                Some(rv) => match decode_f64(rv, nm, "range") {
                    Ok(x) => x,
                    Err(e) => {
                        return Err(e);
                    },
                },
                None => {
                    return Err(st_err(nm, "range"));
                },
            };
            let radius = match DocValue::obj_get(entries, "radius") {
                Some(rd) => match decode_f64(rd, nm, "radius") {
                    Ok(x) => x,
                    Err(e) => {
                        return Err(e);
                    },
                },
                None => {
                    return Err(st_err(nm, "radius"));
                },
            };
            let shadows_enabled = match DocValue::obj_get(entries, "shadows_enabled") {
                Some(se) => match decode_bool(se, nm, "shadows_enabled") {
                    Ok(b) => b,
                    Err(e) => {
                        return Err(e);
                    },
                },
                None => {
                    return Err(st_err(nm, "shadows_enabled"));
                },
            };
            let position = match DocValue::obj_get(entries, "position") {
                Some(pv) => match decode_transform(pv, nm, "position") {
                    Ok(p) => p,
                    Err(e) => {
                        return Err(e);
                    },
                },
                None => {
                    return Err(st_err(nm, "position"));
                },
            };
            Ok(PointLightDTO { color, intensity, range, radius, shadows_enabled, position })
        },
        _ => Err(st_err(nm, "value")),
    }
}

/// A prop or structure payload: required `asset_id`, `position` and
/// `rotation` (integer grid vectors).
pub open spec fn dec_placed(v: ValueView, nm: Seq<char>) -> Result<PropView, ConfigErrorView> {
    match v {
        ValueView::Obj(o) => match lookup(o, "asset_id"@) {
            Some(av) => match dec_asset_id(av, nm, "asset_id"@) {
                Ok(asset_id) => match lookup(o, "position"@) {
                    Some(pv) => match dec_ivec3(pv, nm, "position"@) {
                        Ok(position) => match lookup(o, "rotation"@) {
                            Some(rv) => match dec_ivec3(rv, nm, "rotation"@) {
                                Ok(rotation) => Ok(PropView { asset_id, position, rotation }),
                                Err(e) => Err(e),
                            },
                            None => Err(st(nm, "rotation"@)),
                        },
                        Err(e) => Err(e),
                    },
                    None => Err(st(nm, "position"@)),
                },
                Err(e) => Err(e),
            },
            None => Err(st(nm, "asset_id"@)),
        },
        _ => Err(st(nm, "value"@)),
    }
}

/// Decodes a prop payload.
pub fn decode_prop(v: &DocValue, nm: &str) -> (r: Result<PropDTO, ConfigError>)
    ensures
        match r {
            Ok(p) => dec_placed(v@, nm@) == Ok::<PropView, ConfigErrorView>(p@),
            Err(e) => dec_placed(v@, nm@) == Err::<PropView, ConfigErrorView>(e@),
        },
{
    match v {
        DocValue::Obj(entries) => {
            let asset_id = match DocValue::obj_get(entries, "asset_id") {
                Some(av) => match decode_asset_id(av, nm, "asset_id") {
                    Ok(a) => a,
                    Err(e) => {
                        return Err(e);
                    },
                },
                None => {
                    return Err(st_err(nm, "asset_id"));
                },
            };
            let position = match DocValue::obj_get(entries, "position") {
                Some(pv) => match decode_ivec3(pv, nm, "position") {
                    Ok(p) => p,
                    Err(e) => {
                        return Err(e);
                    },
                },
                None => {
                    return Err(st_err(nm, "position"));
                },
            };
            let rotation = match DocValue::obj_get(entries, "rotation") {
                Some(rv) => match decode_ivec3(rv, nm, "rotation") {
                    Ok(p) => p,
                    Err(e) => {
                        return Err(e);
                    },
                },
                None => {
                    return Err(st_err(nm, "rotation"));
                },
            };
            Ok(PropDTO { asset_id, position, rotation })
        },
        _ => Err(st_err(nm, "value")),
    }
}

/// The node-kind payload selected by the `type` discriminant; an
/// unrecognized discriminant is an error naming it.
pub open spec fn dec_node_kind(tag: Seq<char>, pv: ValueView, nm: Seq<char>) -> Result<
    GameElementTypeView,
    ConfigErrorView,
> {
    if tag == "Part"@ {
        match dec_part(pv, nm) {
            Ok(p) => Ok(GameElementTypeView::Part(p)),
            Err(e) => Err(e),
        }
    } else if tag == "Folder"@ {
        match pv {
            ValueView::Obj(_) => Ok(GameElementTypeView::Folder),
            _ => Err(st(nm, "value"@)),
        }
    } else if tag == "Script"@ {
        match dec_script(pv, nm) {
            Ok(s) => Ok(GameElementTypeView::Script(s)),
            Err(e) => Err(e),
        }
    } else if tag == "SpotLight"@ {
        match dec_spot_light(pv, nm) {
            Ok(l) => Ok(GameElementTypeView::SpotLight(l)),
            Err(e) => Err(e),
        }
    } else if tag == "PointLight"@ {
        match dec_point_light(pv, nm) {
            Ok(l) => Ok(GameElementTypeView::PointLight(l)),
            Err(e) => Err(e),
        }
    } else if tag == "Prop"@ {
        match dec_placed(pv, nm) {
            Ok(p) => Ok(GameElementTypeView::Prop(p)),
            Err(e) => Err(e),
        }
    } else if tag == "Structure"@ {
        match dec_placed(pv, nm) {
            Ok(p) => Ok(
                GameElementTypeView::Structure(
                    StructureView {
                        asset_id: p.asset_id,
                        position: p.position,
                        rotation: p.rotation,
                    },
                ),
            ),
            Err(e) => Err(e),
        }
    } else {
        Err(st(nm, tag))
    }
}

/// Decodes a node-kind payload.
pub fn decode_node_kind(tag: &str, pv: &DocValue, nm: &str) -> (r: Result<
    GameElementTypeDTO,
    ConfigError,
>)
    ensures
        match r {
            Ok(k) => dec_node_kind(tag@, pv@, nm@) == Ok::<GameElementTypeView, ConfigErrorView>(
                k@,
            ),
            Err(e) => dec_node_kind(tag@, pv@, nm@) == Err::<GameElementTypeView, ConfigErrorView>(
                e@,
            ),
        },
{
    if str_eq(tag, "Part") {
        match decode_part(pv, nm) {
            Ok(p) => Ok(GameElementTypeDTO::Part(p)),
            Err(e) => Err(e),
        }
    } else if str_eq(tag, "Folder") {
        match pv {
            DocValue::Obj(_) => Ok(GameElementTypeDTO::Folder(FolderDTO {})),
            _ => Err(st_err(nm, "value")),
        }
    } else if str_eq(tag, "Script") {
        match decode_script(pv, nm) {
            Ok(s) => Ok(GameElementTypeDTO::Script(s)),
            Err(e) => Err(e),
        }
    } else if str_eq(tag, "SpotLight") {
        match decode_spot_light(pv, nm) {
            Ok(l) => Ok(GameElementTypeDTO::SpotLight(l)),
            Err(e) => Err(e),
        }
    } else if str_eq(tag, "PointLight") {
        match decode_point_light(pv, nm) {
            Ok(l) => Ok(GameElementTypeDTO::PointLight(l)),
            Err(e) => Err(e),
        }
    } else if str_eq(tag, "Prop") {
        match decode_prop(pv, nm) {
            Ok(p) => Ok(GameElementTypeDTO::Prop(p)),
            Err(e) => Err(e),
        }
    } else if str_eq(tag, "Structure") {
        match decode_prop(pv, nm) {
            Ok(p) => Ok(
                GameElementTypeDTO::Structure(
                    StructureDTO {
                        asset_id: p.asset_id,
                        position: p.position,
                        rotation: p.rotation,
                    },
                ),
            ),
            Err(e) => Err(e),
        }
    } else {
        Err(st_err(nm, tag))
    }
}

/// A hierarchy node: required `name`, `type` and `value`; optional
/// `children` decoded recursively; `attributes` never populated by decode.
pub open spec fn dec_element(v: ValueView) -> Result<GameElementView, ConfigErrorView>
    decreases v, 1int,
{
    match v {
        ValueView::Obj(o) => match lookup(o, "name"@) {
            Some(ValueView::Str(nm)) => match lookup(o, "type"@) {
                Some(ValueView::Str(tag)) => match lookup(o, "value"@) {
                    Some(pv) => match dec_node_kind(tag, pv, nm) {
                        Ok(value) => match lookup(o, "children"@) {
                            None => Ok(
                                GameElementView { name: nm, value, children: None, attributes: None },
                            ),
                            Some(ValueView::Null) => Ok(
                                GameElementView { name: nm, value, children: None, attributes: None },
                            ),
                            Some(ValueView::Arr(cs)) => match dec_elements(cs, 0, Seq::empty()) {
                                Ok(children) => Ok(
                                    GameElementView {
                                        name: nm,
                                        value,
                                        children: Some(children),
                                        attributes: None,
                                    },
                                ),
                                Err(e) => Err(e),
                            },
                            Some(_) => Err(st(nm, "children"@)),
                        },
                        Err(e) => Err(e),
                    },
                    None => Err(st(nm, "value"@)),
                },
                Some(_) => Err(st(nm, "type"@)),
                None => Err(st(nm, "type"@)),
            },
            Some(_) => Err(st("hierarchy"@, "name"@)),
            None => Err(st("hierarchy"@, "name"@)),
        },
        _ => Err(st("hierarchy"@, "node"@)),
    }
}

/// The nodes of a list decoded from index `k` on, in order.
pub open spec fn dec_elements(
    s: Seq<ValueView>,
    k: int,
    acc: Seq<GameElementView>,
) -> Result<Seq<GameElementView>, ConfigErrorView>
    decreases s, s.len() - k,
{
    if k < 0 || k >= s.len() {
        Ok(acc)
    } else {
        match dec_element(s[k]) {
            Ok(el) => dec_elements(s, k + 1, acc.push(el)),
            Err(e) => Err(e),
        }
    }
}

/// Decodes a hierarchy node.
pub fn decode_element(v: &DocValue) -> (r: Result<GameElementDTO, ConfigError>)
    ensures
        match r {
            Ok(el) => dec_element(v@) == Ok::<GameElementView, ConfigErrorView>(el@),
            Err(e) => dec_element(v@) == Err::<GameElementView, ConfigErrorView>(e@),
        },
    decreases v, 1int,
{
    match v {
        DocValue::Obj(entries) => {
            let nm = match DocValue::obj_get(entries, "name") {
                Some(DocValue::Str(nm)) => nm,
                Some(_) => {
                    return Err(st_err("hierarchy", "name"));
                },
                None => {
                    return Err(st_err("hierarchy", "name"));
                },
            };
            let tag = match DocValue::obj_get(entries, "type") {
                Some(DocValue::Str(tag)) => tag,
                Some(_) => {
                    return Err(st_err(nm.as_str(), "type"));
                },
                None => {
                    return Err(st_err(nm.as_str(), "type"));
                },
            };
            let pv = match DocValue::obj_get(entries, "value") {
                Some(pv) => pv,
                None => {
                    return Err(st_err(nm.as_str(), "value"));
                },
            };
            let value = match decode_node_kind(tag.as_str(), pv, nm.as_str()) {
                Ok(k) => k,
                Err(e) => {
                    return Err(e);
                },
            };
            let children = match DocValue::obj_get(entries, "children") {
                None => None,
                Some(DocValue::Null) => None,
                Some(cv) => match cv {
                    DocValue::Arr(cs) => match decode_elements(cs) {
                        Ok(children) => Some(children),
                        Err(e) => {
                            return Err(e);
                        },
                    },
                    _ => {
                        return Err(st_err(nm.as_str(), "children"));
                    },
                },
            };
            Ok(GameElementDTO { name: nm.clone(), value, children, attributes: None })
        },
        _ => Err(st_err("hierarchy", "node")),
    }
}

/// Decodes a list of hierarchy nodes, in order.
pub fn decode_elements(items: &Vec<DocValue>) -> (r: Result<Vec<GameElementDTO>, ConfigError>)
    ensures
        match r {
            Ok(els) => dec_elements(values_view(items@), 0, Seq::empty()) == Ok::<
                Seq<GameElementView>,
                ConfigErrorView,
            >(elements_view(els@)),
            Err(e) => dec_elements(values_view(items@), 0, Seq::empty()) == Err::<
                Seq<GameElementView>,
                ConfigErrorView,
            >(e@),
        },
    decreases items, 0int,
{
    let ghost s = values_view(items@);
    let mut acc: Vec<GameElementDTO> = Vec::new();
    assert(elements_view(acc@) =~= Seq::<GameElementView>::empty());
    let n = items.len();
    let mut k: usize = 0;
    while k < n
        invariant
            n == items@.len(),
            k <= n,
            s == values_view(items@),
            dec_elements(s, 0, Seq::empty()) == dec_elements(s, k as int, elements_view(acc@)),
        decreases n - k,
    {
        proof {
            assert(s[k as int] == items@[k as int]@);
        }
        let el = match decode_element(&items[k]) {
            Ok(el) => el,
            Err(e) => {
                proof {
                    assert(dec_elements(s, k as int, elements_view(acc@)) == Err::<
                        Seq<GameElementView>,
                        ConfigErrorView,
                    >(e@));
                }
                return Err(e);
            },
        };
        let ghost old_acc = acc@;
        acc.push(el);
        proof {
            assert(elements_view(acc@) =~= elements_view(old_acc).push(el@));
        }
        k += 1;
    }
    proof {
        assert(dec_elements(s, n as int, elements_view(acc@)) == Ok::<
            Seq<GameElementView>,
            ConfigErrorView,
        >(elements_view(acc@)));
    }
    Ok(acc)
}

/// A node whose discriminant is none of the declared kinds is rejected
/// with a structural decode error naming the node and the discriminant:
/// an unrecognized discriminant never decodes as some default kind.
pub proof fn lemma_unknown_discriminant_rejected(
    o: Seq<(Seq<char>, ValueView)>,
    nm: Seq<char>,
    tag: Seq<char>,
    pv: ValueView,
)
    requires
        lookup(o, "name"@) == Some(ValueView::Str(nm)),
        lookup(o, "type"@) == Some(ValueView::Str(tag)),
        lookup(o, "value"@) == Some(pv),
        tag != "Part"@,
        tag != "Folder"@,
        tag != "Script"@,
        tag != "SpotLight"@,
        tag != "PointLight"@,
        tag != "Prop"@,
        tag != "Structure"@,
    ensures
        dec_element(ValueView::Obj(o)) == Err::<GameElementView, ConfigErrorView>(st(nm, tag)),
{
}

} // verus!
