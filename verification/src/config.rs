//! The document model: the validated configuration document and its
//! assembly from a raw document value.
//!
//! Assembly decodes each section in order — assets, types (then the
//! dependency validator), actions, keybinds, hierarchy, terrain — and the
//! first failure rejects the whole document: no partial document is ever
//! returned. Every map-keyed section rejects duplicate keys.

use vstd::prelude::*;
use crate::action::{ActionDTO, ActionView};
use crate::asset::{AssetDTO, AssetView};
use crate::decode::{
    dec_action, dec_asset, dec_keybind, dec_terrain, dec_typedef, decode_action, decode_asset,
    decode_keybind, decode_terrain, decode_typedef, keys_contain, pairs_key_present, st, st_err,
};
use crate::error::{ConfigError, ConfigErrorView, GameConfigError};
use crate::hierarchy::{elements_view, GameElementDTO, GameElementView};
use crate::keybind::{KeyBindDTO, KeyBindView};
use crate::nodes::{dec_elements, decode_elements};
use crate::terrain::{TerrainDTO, TerrainView};
use crate::types::{TypeDTO, TypeDefView};
use crate::validate::{
    acyclic, has_edge, has_field_ref, reaches, refs_known, reg_contains, registry_view,
    validate_types,
};
use crate::value::{entries_view, lookup, pairs_view, DocValue, ValueView};

verus! {

broadcast use {crate::value::group_value_views, crate::hierarchy::group_element_views};

/// A validated configuration document: assets, the user-defined type
/// registry, actions, key bindings, the scene hierarchy forest, and
/// terrain settings. Each map is a list of entries with unique keys.
#[derive(Debug)]
pub struct ConfigDTO {
    pub assets: Vec<(String, AssetDTO)>,
    pub types: Vec<(String, TypeDTO)>,
    pub actions: Vec<(String, ActionDTO)>,
    pub keybinds: Vec<(String, KeyBindDTO)>,
    pub hierarchy: Vec<GameElementDTO>,
    pub terrain: TerrainDTO,
}

/// The mathematical model of a [`ConfigDTO`].
pub struct ConfigView {
    pub assets: Seq<(Seq<char>, AssetView)>,
    pub types: Seq<(Seq<char>, TypeDefView)>,
    pub actions: Seq<(Seq<char>, ActionView)>,
    pub keybinds: Seq<(Seq<char>, KeyBindView)>,
    pub hierarchy: Seq<GameElementView>,
    pub terrain: TerrainView,
}

impl View for ConfigDTO {
    type V = ConfigView;

    open spec fn view(&self) -> ConfigView {
        ConfigView {
            assets: pairs_view(self.assets@),
            types: pairs_view(self.types@),
            actions: pairs_view(self.actions@),
            keybinds: pairs_view(self.keybinds@),
            hierarchy: elements_view(self.hierarchy@),
            terrain: self.terrain@,
        }
    }
}

/// The assets section gathered from entry `k` on, rejecting duplicate
/// keys.
pub open spec fn dec_assets(
    s: Seq<(Seq<char>, ValueView)>,
    k: int,
    acc: Seq<(Seq<char>, AssetView)>,
) -> Result<Seq<(Seq<char>, AssetView)>, ConfigErrorView>
    decreases s.len() - k,
{
    if k < 0 || k >= s.len() {
        Ok(acc)
    } else if keys_contain(acc, s[k].0) {
        Err(ConfigErrorView::DuplicateKey { section: "assets"@, key: s[k].0 })
    } else {
        match dec_asset(s[k].1, s[k].0) {
            Ok(a) => dec_assets(s, k + 1, acc.push((s[k].0, a))),
            Err(e) => Err(e),
        }
    }
}

/// The types section gathered from entry `k` on, rejecting duplicate keys.
pub open spec fn dec_types(
    s: Seq<(Seq<char>, ValueView)>,
    k: int,
    acc: Seq<(Seq<char>, TypeDefView)>,
) -> Result<Seq<(Seq<char>, TypeDefView)>, ConfigErrorView>
    decreases s.len() - k,
{
    if k < 0 || k >= s.len() {
        Ok(acc)
    } else if keys_contain(acc, s[k].0) {
        Err(ConfigErrorView::DuplicateKey { section: "types"@, key: s[k].0 })
    } else {
        match dec_typedef(s[k].1, s[k].0) {
            Ok(t) => dec_types(s, k + 1, acc.push((s[k].0, t))),
            Err(e) => Err(e),
        }
    }
}

/// The actions section gathered from entry `k` on, rejecting duplicate
/// keys.
pub open spec fn dec_actions(
    s: Seq<(Seq<char>, ValueView)>,
    k: int,
    acc: Seq<(Seq<char>, ActionView)>,
) -> Result<Seq<(Seq<char>, ActionView)>, ConfigErrorView>
    decreases s.len() - k,
{
    if k < 0 || k >= s.len() {
        Ok(acc)
    } else if keys_contain(acc, s[k].0) {
        Err(ConfigErrorView::DuplicateKey { section: "actions"@, key: s[k].0 })
    } else {
        match dec_action(s[k].1, s[k].0) {
            Ok(a) => dec_actions(s, k + 1, acc.push((s[k].0, a))),
            Err(e) => Err(e),
        }
    }
}

/// The keybinds section gathered from entry `k` on, rejecting duplicate
/// keys.
pub open spec fn dec_keybinds(
    s: Seq<(Seq<char>, ValueView)>,
    k: int,
    acc: Seq<(Seq<char>, KeyBindView)>,
) -> Result<Seq<(Seq<char>, KeyBindView)>, ConfigErrorView>
    decreases s.len() - k,
{
    if k < 0 || k >= s.len() {
        Ok(acc)
    } else if keys_contain(acc, s[k].0) {
        Err(ConfigErrorView::DuplicateKey { section: "keybinds"@, key: s[k].0 })
    } else {
        match dec_keybind(s[k].1, s[k].0) {
            Ok(b) => dec_keybinds(s, k + 1, acc.push((s[k].0, b))),
            Err(e) => Err(e),
        }
    }
}


/// A whole document decoded section by section, in order: `assets`,
/// `types`, `actions`, `keybinds`, `hierarchy`, `terrain`. Every section
/// is required; the map sections must be objects and `hierarchy` an array.
/// This is the pure decoding contract; assembly additionally runs the
/// dependency validator on the decoded types (see [`ConfigDTO::load`]).
pub open spec fn dec_document(v: ValueView) -> Result<ConfigView, ConfigErrorView> {
    match v {
        ValueView::Obj(o) => match lookup(o, "assets"@) {
            Some(ValueView::Obj(ao)) => match dec_assets(ao, 0, Seq::empty()) {
                Ok(assets) => match lookup(o, "types"@) {
                    Some(ValueView::Obj(to)) => match dec_types(to, 0, Seq::empty()) {
                        Ok(types) => match lookup(o, "actions"@) {
                            Some(ValueView::Obj(co)) => match dec_actions(co, 0, Seq::empty()) {
                                Ok(actions) => match lookup(o, "keybinds"@) {
                                    Some(ValueView::Obj(ko)) => match dec_keybinds(
                                        ko,
                                        0,
                                        Seq::empty(),
                                    ) {
                                        Ok(keybinds) => match lookup(o, "hierarchy"@) {
                                            Some(ValueView::Arr(hs)) => match dec_elements(
                                                hs,
                                                0,
                                                Seq::empty(),
                                            ) {
                                                Ok(hierarchy) => match lookup(o, "terrain"@) {
                                                    Some(tv) => match dec_terrain(tv, "terrain"@) {
                                                        Ok(terrain) => Ok(
                                                            ConfigView {
                                                                assets,
                                                                types,
                                                                actions,
                                                                keybinds,
                                                                hierarchy,
                                                                terrain,
                                                            },
                                                        ),
                                                        Err(e) => Err(e),
                                                    },
                                                    None => Err(st("document"@, "terrain"@)),
                                                },
                                                Err(e) => Err(e),
                                            },
                                            Some(_) => Err(st("document"@, "hierarchy"@)),
                                            None => Err(st("document"@, "hierarchy"@)),
                                        },
                                        Err(e) => Err(e),
                                    },
                                    Some(_) => Err(st("document"@, "keybinds"@)),
                                    None => Err(st("document"@, "keybinds"@)),
                                },
                                Err(e) => Err(e),
                            },
                            Some(_) => Err(st("document"@, "actions"@)),
                            None => Err(st("document"@, "actions"@)),
                        },
                        Err(e) => Err(e),
                    },
                    Some(_) => Err(st("document"@, "types"@)),
                    None => Err(st("document"@, "types"@)),
                },
                Err(e) => Err(e),
            },
            Some(_) => Err(st("document"@, "assets"@)),
            None => Err(st("document"@, "assets"@)),
        },
        _ => Err(st("document"@, "document"@)),
    }
}

/// The decoded type registry of a document whose `assets` and `types`
/// sections decode, if they do: what the dependency validator runs on.
pub open spec fn doc_types_of(v: ValueView) -> Option<Seq<(Seq<char>, TypeDefView)>> {
    match v {
        ValueView::Obj(o) => match lookup(o, "assets"@) {
            Some(ValueView::Obj(ao)) => match dec_assets(ao, 0, Seq::empty()) {
                Ok(_) => match lookup(o, "types"@) {
                    Some(ValueView::Obj(to)) => match dec_types(to, 0, Seq::empty()) {
                        Ok(tr) => Some(tr),
                        Err(_) => None,
                    },
                    Some(_) => None,
                    None => None,
                },
                Err(_) => None,
            },
            Some(_) => None,
            None => None,
        },
        _ => None,
    }
}

impl ConfigDTO {
    /// Loads a configuration document from a raw document value.
    ///
    /// The sections decode in order — `assets`, `types`, `actions`,
    /// `keybinds`, `hierarchy`, `terrain` — except that the dependency
    /// validator runs on the decoded type registry right after `types`
    /// decodes, before the later sections are looked at. The first failure
    /// rejects the document. A document that decodes whole and whose type
    /// registry has every reference known and an acyclic dependency graph
    /// always loads; a rejection is either the exact decode error or a
    /// genuine validation error on the decoded registry.
    pub fn load(v: &DocValue) -> (r: Result<ConfigDTO, ConfigError>)
        ensures
            ({
                let dec = dec_document(v@);
                &&& (match r {
                    Ok(doc) => dec == Ok::<ConfigView, ConfigErrorView>(doc@) && refs_known(
                        doc@.types,
                    ),
                    Err(e) => dec == Err::<ConfigView, ConfigErrorView>(e@) || (doc_types_of(
                        v@,
                    ) matches Some(tr) && match e@ {
                        ConfigErrorView::UnknownTypeReference { from, field, to } => {
                            has_field_ref(tr, from, field, to) && !reg_contains(tr, to)
                        },
                        ConfigErrorView::CircularDependency { a, b } => {
                            has_edge(tr, b, a) && reaches(tr, a, b) && !acyclic(tr)
                        },
                        _ => false,
                    }),
                })
                &&& ((dec matches Ok(d) && refs_known(d.types) && acyclic(d.types)) ==> r is Ok)
            }),
    {
        let entries = match v {
            DocValue::Obj(entries) => entries,
            _ => {
                return Err(st_err("document", "document"));
            },
        };
        let ghost o = entries_view(entries@);

        // assets
        let asset_entries = match DocValue::obj_get(entries, "assets") {
            Some(DocValue::Obj(ae)) => ae,
            Some(_) => {
                return Err(st_err("document", "assets"));
            },
            None => {
                return Err(st_err("document", "assets"));
            },
        };
        let ghost ao = entries_view(asset_entries@);
        let mut assets: Vec<(String, AssetDTO)> = Vec::new();
        assert(pairs_view(assets@) =~= Seq::<(Seq<char>, AssetView)>::empty());
        let n = asset_entries.len();
        let mut k: usize = 0;
        while k < n
            invariant
                n == asset_entries@.len(),
                k <= n,
                o == entries_view(entries@),
                v@ == ValueView::Obj(o),
                ao == entries_view(asset_entries@),
                lookup(o, "assets"@) == Some(ValueView::Obj(ao)),
                dec_assets(ao, 0, Seq::empty()) == dec_assets(ao, k as int, pairs_view(assets@)),
            decreases n - k,
        {
            proof {
                assert(ao[k as int] == (asset_entries@[k as int].0@, asset_entries@[k as int].1@));
            }
            if pairs_key_present(&assets, asset_entries[k].0.as_str()) {
                let e = ConfigError::DuplicateKey {
                    section: "assets".to_owned(),
                    key: asset_entries[k].0.clone(),
                };
                proof {
                    assert(dec_assets(ao, k as int, pairs_view(assets@)) == Err::<
                        Seq<(Seq<char>, AssetView)>,
                        ConfigErrorView,
                    >(e@));
                }
                return Err(e);
            }
            let a = match decode_asset(&asset_entries[k].1, asset_entries[k].0.as_str()) {
                Ok(a) => a,
                Err(e) => {
                    proof {
                        assert(dec_assets(ao, k as int, pairs_view(assets@)) == Err::<
                            Seq<(Seq<char>, AssetView)>,
                            ConfigErrorView,
                        >(e@));
                    }
                    return Err(e);
                },
            };
            let ghost old_acc = assets@;
            assets.push((asset_entries[k].0.clone(), a));
            proof {
                assert(pairs_view(assets@) =~= pairs_view(old_acc).push((ao[k as int].0, a@)));
            }
            k += 1;
        }
        proof {
            assert(dec_assets(ao, n as int, pairs_view(assets@)) == Ok::<
                Seq<(Seq<char>, AssetView)>,
                ConfigErrorView,
            >(pairs_view(assets@)));
        }

        // types
        let type_entries = match DocValue::obj_get(entries, "types") {
            Some(DocValue::Obj(te)) => te,
            Some(_) => {
                return Err(st_err("document", "types"));
            },
            None => {
                return Err(st_err("document", "types"));
            },
        };
        let ghost to = entries_view(type_entries@);
        let mut types: Vec<(String, TypeDTO)> = Vec::new();
        assert(pairs_view(types@) =~= Seq::<(Seq<char>, TypeDefView)>::empty());
        let n2 = type_entries.len();
        let mut k2: usize = 0;
        while k2 < n2
            invariant
                n2 == type_entries@.len(),
                k2 <= n2,
                o == entries_view(entries@),
                v@ == ValueView::Obj(o),
                lookup(o, "assets"@) == Some(ValueView::Obj(ao)),
                dec_assets(ao, 0, Seq::empty()) == Ok::<Seq<(Seq<char>, AssetView)>, ConfigErrorView>(
                    pairs_view(assets@),
                ),
                to == entries_view(type_entries@),
                lookup(o, "types"@) == Some(ValueView::Obj(to)),
                dec_types(to, 0, Seq::empty()) == dec_types(to, k2 as int, pairs_view(types@)),
            decreases n2 - k2,
        {
            proof {
                assert(to[k2 as int] == (type_entries@[k2 as int].0@, type_entries@[k2 as int].1@));
            }
            if pairs_key_present(&types, type_entries[k2].0.as_str()) {
                let e = ConfigError::DuplicateKey {
                    section: "types".to_owned(),
                    key: type_entries[k2].0.clone(),
                };
                proof {
                    assert(dec_types(to, k2 as int, pairs_view(types@)) == Err::<
                        Seq<(Seq<char>, TypeDefView)>,
                        ConfigErrorView,
                    >(e@));
                }
                return Err(e);
            }
            let t = match decode_typedef(&type_entries[k2].1, type_entries[k2].0.as_str()) {
                Ok(t) => t,
                Err(e) => {
                    proof {
                        assert(dec_types(to, k2 as int, pairs_view(types@)) == Err::<
                            Seq<(Seq<char>, TypeDefView)>,
                            ConfigErrorView,
                        >(e@));
                    }
                    return Err(e);
                },
            };
            let ghost old_acc = types@;
            types.push((type_entries[k2].0.clone(), t));
            proof {
                assert(pairs_view(types@) =~= pairs_view(old_acc).push((to[k2 as int].0, t@)));
            }
            k2 += 1;
        }
        proof {
            assert(dec_types(to, n2 as int, pairs_view(types@)) == Ok::<
                Seq<(Seq<char>, TypeDefView)>,
                ConfigErrorView,
            >(pairs_view(types@)));
        }

        // the dependency validator runs before anything references the
        // registry
        proof {
            assert(registry_view(types@) =~= pairs_view(types@));
            assert(doc_types_of(v@) == Some(pairs_view(types@)));
        }
        match validate_types(&types) {
            Ok(_) => {},
            Err(e) => {
                proof {
                    assert(match dec_document(v@) {
                        Ok(d) => d.types == pairs_view(types@),
                        _ => true,
                    });
                }
                return Err(e);
            },
        }

        // actions
        let action_entries = match DocValue::obj_get(entries, "actions") {
            Some(DocValue::Obj(ae)) => ae,
            Some(_) => {
                return Err(st_err("document", "actions"));
            },
            None => {
                return Err(st_err("document", "actions"));
            },
        };
        let ghost co = entries_view(action_entries@);
        let mut actions: Vec<(String, ActionDTO)> = Vec::new();
        assert(pairs_view(actions@) =~= Seq::<(Seq<char>, ActionView)>::empty());
        let n3 = action_entries.len();
        let mut k3: usize = 0;
        while k3 < n3
            invariant
                n3 == action_entries@.len(),
                k3 <= n3,
                o == entries_view(entries@),
                v@ == ValueView::Obj(o),
                lookup(o, "assets"@) == Some(ValueView::Obj(ao)),
                dec_assets(ao, 0, Seq::empty()) == Ok::<Seq<(Seq<char>, AssetView)>, ConfigErrorView>(
                    pairs_view(assets@),
                ),
                lookup(o, "types"@) == Some(ValueView::Obj(to)),
                dec_types(to, 0, Seq::empty()) == Ok::<Seq<(Seq<char>, TypeDefView)>, ConfigErrorView>(
                    pairs_view(types@),
                ),
                refs_known(pairs_view(types@)),
                co == entries_view(action_entries@),
                lookup(o, "actions"@) == Some(ValueView::Obj(co)),
                dec_actions(co, 0, Seq::empty()) == dec_actions(
                    co,
                    k3 as int,
                    pairs_view(actions@),
                ),
            decreases n3 - k3,
        {
            proof {
                assert(co[k3 as int] == (action_entries@[k3 as int].0@, action_entries@[k3 as int].1@));
            }
            if pairs_key_present(&actions, action_entries[k3].0.as_str()) {
                let e = ConfigError::DuplicateKey {
                    section: "actions".to_owned(),
                    key: action_entries[k3].0.clone(),
                };
                proof {
                    assert(dec_actions(co, k3 as int, pairs_view(actions@)) == Err::<
                        Seq<(Seq<char>, ActionView)>,
                        ConfigErrorView,
                    >(e@));
                }
                return Err(e);
            }
            let a = match decode_action(&action_entries[k3].1, action_entries[k3].0.as_str()) {
                Ok(a) => a,
                Err(e) => {
                    proof {
                        assert(dec_actions(co, k3 as int, pairs_view(actions@)) == Err::<
                            Seq<(Seq<char>, ActionView)>,
                            ConfigErrorView,
                        >(e@));
                    }
                    return Err(e);
                },
            };
            let ghost old_acc = actions@;
            actions.push((action_entries[k3].0.clone(), a));
            proof {
                assert(pairs_view(actions@) =~= pairs_view(old_acc).push((co[k3 as int].0, a@)));
            }
            k3 += 1;
        }
        proof {
            assert(dec_actions(co, n3 as int, pairs_view(actions@)) == Ok::<
                Seq<(Seq<char>, ActionView)>,
                ConfigErrorView,
            >(pairs_view(actions@)));
        }

        // keybinds
        let keybind_entries = match DocValue::obj_get(entries, "keybinds") {
            Some(DocValue::Obj(ke)) => ke,
            Some(_) => {
                return Err(st_err("document", "keybinds"));
            },
            None => {
                return Err(st_err("document", "keybinds"));
            },
        };
        let ghost ko = entries_view(keybind_entries@);
        let mut keybinds: Vec<(String, KeyBindDTO)> = Vec::new();
        assert(pairs_view(keybinds@) =~= Seq::<(Seq<char>, KeyBindView)>::empty());
        let n4 = keybind_entries.len();
        let mut k4: usize = 0;
        while k4 < n4
            invariant
                n4 == keybind_entries@.len(),
                k4 <= n4,
                o == entries_view(entries@),
                v@ == ValueView::Obj(o),
                lookup(o, "assets"@) == Some(ValueView::Obj(ao)),
                dec_assets(ao, 0, Seq::empty()) == Ok::<Seq<(Seq<char>, AssetView)>, ConfigErrorView>(
                    pairs_view(assets@),
                ),
                lookup(o, "types"@) == Some(ValueView::Obj(to)),
                dec_types(to, 0, Seq::empty()) == Ok::<Seq<(Seq<char>, TypeDefView)>, ConfigErrorView>(
                    pairs_view(types@),
                ),
                refs_known(pairs_view(types@)),
                lookup(o, "actions"@) == Some(ValueView::Obj(co)),
                dec_actions(co, 0, Seq::empty()) == Ok::<Seq<(Seq<char>, ActionView)>, ConfigErrorView>(
                    pairs_view(actions@),
                ),
                ko == entries_view(keybind_entries@),
                lookup(o, "keybinds"@) == Some(ValueView::Obj(ko)),
                dec_keybinds(ko, 0, Seq::empty()) == dec_keybinds(
                    ko,
                    k4 as int,
                    pairs_view(keybinds@),
                ),
            decreases n4 - k4,
        {
            proof {
                assert(ko[k4 as int] == (keybind_entries@[k4 as int].0@, keybind_entries@[k4 as int].1@));
            }
            if pairs_key_present(&keybinds, keybind_entries[k4].0.as_str()) {
                let e = ConfigError::DuplicateKey {
                    section: "keybinds".to_owned(),
                    key: keybind_entries[k4].0.clone(),
                };
                proof {
                    assert(dec_keybinds(ko, k4 as int, pairs_view(keybinds@)) == Err::<
                        Seq<(Seq<char>, KeyBindView)>,
                        ConfigErrorView,
                    >(e@));
                }
                return Err(e);
            }
            let b = match decode_keybind(&keybind_entries[k4].1, keybind_entries[k4].0.as_str()) {
                Ok(b) => b,
                Err(e) => {
                    proof {
                        assert(dec_keybinds(ko, k4 as int, pairs_view(keybinds@)) == Err::<
                            Seq<(Seq<char>, KeyBindView)>,
                            ConfigErrorView,
                        >(e@));
                    }
                    return Err(e);
                },
            };
            let ghost old_acc = keybinds@;
            keybinds.push((keybind_entries[k4].0.clone(), b));
            proof {
                assert(pairs_view(keybinds@) =~= pairs_view(old_acc).push((ko[k4 as int].0, b@)));
            }
            k4 += 1;
        }
        proof {
            assert(dec_keybinds(ko, n4 as int, pairs_view(keybinds@)) == Ok::<
                Seq<(Seq<char>, KeyBindView)>,
                ConfigErrorView,
            >(pairs_view(keybinds@)));
        }

        // hierarchy
        let hierarchy = match DocValue::obj_get(entries, "hierarchy") {
            Some(DocValue::Arr(hs)) => match decode_elements(hs) {
                Ok(h) => h,
                Err(e) => {
                    return Err(e);
                },
            },
            Some(_) => {
                return Err(st_err("document", "hierarchy"));
            },
            None => {
                return Err(st_err("document", "hierarchy"));
            },
        };

        // terrain
        let terrain = match DocValue::obj_get(entries, "terrain") {
            Some(tv) => match decode_terrain(tv, "terrain") {
                Ok(t) => t,
                Err(e) => {
                    return Err(e);
                },
            },
            None => {
                return Err(st_err("document", "terrain"));
            },
        };

        Ok(ConfigDTO { assets, types, actions, keybinds, hierarchy, terrain })
    }

    /// Rejects a type registry with a custom-type reference to an
    /// undeclared type or with a detectable circular inclusion chain,
    /// surfacing the validator's error as a message.
    ///
    /// A registry with every reference known and an acyclic dependency
    /// graph is always accepted. A rejection carries the message of a
    /// genuine finding: an unknown reference that really occurs, or a pair
    /// of types that really lie on a cycle.
    pub fn check_circular_types(&self) -> (r: Result<(), GameConfigError>)
        ensures
            ({
                let reg = registry_view(self.types@);
                &&& (refs_known(reg) && acyclic(reg) ==> r is Ok)
                &&& (r is Ok ==> refs_known(reg))
                &&& (match r {
                    Ok(_) => true,
                    Err(e) => exists|ev: ConfigErrorView|
                        e.spec_message() == crate::error::spec_error_message(ev) && (match ev {
                            ConfigErrorView::UnknownTypeReference { from, field, to } => {
                                has_field_ref(reg, from, field, to) && !reg_contains(reg, to)
                            },
                            ConfigErrorView::CircularDependency { a, b } => {
                                has_edge(reg, b, a) && reaches(reg, a, b) && !acyclic(reg)
                            },
                            _ => false,
                        }),
                })
            }),
    {
        match validate_types(&self.types) {
            Ok(_) => Ok(()),
            Err(e) => {
                let ge = e.to_error();
                proof {
                    assert(ge.spec_message() == crate::error::spec_error_message(e@));
                }
                Err(ge)
            },
        }
    }
}

/// Once some later entry's key is already among the gathered ones, the
/// assets section can only be rejected.
proof fn lemma_assets_key_already_seen(
    s: Seq<(Seq<char>, ValueView)>,
    k: int,
    acc: Seq<(Seq<char>, AssetView)>,
    j: int,
)
    requires
        0 <= k <= j < s.len(),
        keys_contain(acc, s[j].0),
    ensures
        dec_assets(s, k, acc) is Err,
    decreases j - k,
{
    if keys_contain(acc, s[k].0) {
    } else {
        match dec_asset(s[k].1, s[k].0) {
            Ok(a) => {
                let acc2 = acc.push((s[k].0, a));
                let wi = choose|wi: int| 0 <= wi < acc.len() && (#[trigger] acc[wi]).0 == s[j].0;
                assert(acc2[wi] == acc[wi]);
                assert(keys_contain(acc2, s[j].0));
                lemma_assets_key_already_seen(s, k + 1, acc2, j);
            },
            Err(_) => {},
        }
    }
}

proof fn lemma_duplicate_asset_keys_from(
    s: Seq<(Seq<char>, ValueView)>,
    k: int,
    acc: Seq<(Seq<char>, AssetView)>,
    i: int,
    j: int,
)
    requires
        0 <= k <= i < j < s.len(),
        s[i].0 == s[j].0,
    ensures
        dec_assets(s, k, acc) is Err,
    decreases i - k,
{
    if keys_contain(acc, s[k].0) {
    } else {
        match dec_asset(s[k].1, s[k].0) {
            Ok(a) => {
                let acc2 = acc.push((s[k].0, a));
                if k == i {
                    assert(acc2[acc.len() as int] == (s[i].0, a));
                    assert(keys_contain(acc2, s[j].0));
                    lemma_assets_key_already_seen(s, k + 1, acc2, j);
                } else {
                    lemma_duplicate_asset_keys_from(s, k + 1, acc2, i, j);
                }
            },
            Err(_) => {},
        }
    }
}

/// Two assets entries sharing one key can only be rejected: the section
/// never decodes.
pub proof fn lemma_duplicate_asset_keys_reject(s: Seq<(Seq<char>, ValueView)>, i: int, j: int)
    requires
        0 <= i < j < s.len(),
        s[i].0 == s[j].0,
    ensures
        dec_assets(s, 0, Seq::empty()) is Err,
{
    lemma_duplicate_asset_keys_from(s, 0, Seq::empty(), i, j);
}

/// A document with two entries under `assets` sharing one key yields no
/// document: decoding rejects it, whatever the rest of the document holds.
pub proof fn lemma_duplicate_asset_keys_reject_document(
    o: Seq<(Seq<char>, ValueView)>,
    ao: Seq<(Seq<char>, ValueView)>,
    i: int,
    j: int,
)
    requires
        lookup(o, "assets"@) == Some(ValueView::Obj(ao)),
        0 <= i < j < ao.len(),
        ao[i].0 == ao[j].0,
    ensures
        dec_document(ValueView::Obj(o)) is Err,
{
    lemma_duplicate_asset_keys_reject(ao, i, j);
}

} // verus!
