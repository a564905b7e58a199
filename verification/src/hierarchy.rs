//! The scene-node model: a forest of named, tagged hierarchy nodes.
//!
//! Each node carries a name, one [`GameElementTypeDTO`] payload, an
//! optional ordered list of exclusively-owned children, and an optional
//! `attributes` map. The attributes map is encode-only: decoding never
//! populates it, and any attributes supplied in an input document are
//! ignored.
//!
//! Engine-native leaf values are carried as plain values: every
//! floating-point component is the bit pattern of its IEEE-754
//! double-precision reading.

use vstd::prelude::*;
use crate::asset::{AssetId, AssetIdView};
use crate::types::{TypeDTO, TypeDefView};

verus! {

/// A 3D vector: the double-precision bit patterns of its components.
#[derive(Debug, Clone, Copy, PartialEq, Eq, Structural)]
pub struct Vec3Data {
    pub x: u64,
    pub y: u64,
    pub z: u64,
}

/// A rotation quaternion: the double-precision bit patterns of its
/// components.
#[derive(Debug, Clone, Copy, PartialEq, Eq, Structural)]
pub struct QuatData {
    pub x: u64,
    pub y: u64,
    pub z: u64,
    pub w: u64,
}

/// An integer grid vector.
#[derive(Debug, Clone, Copy, PartialEq, Eq, Structural)]
pub struct IVec3Data {
    pub x: i32,
    pub y: i32,
    pub z: i32,
}

/// A placement: translation, rotation and scale.
#[derive(Debug, Clone, Copy, PartialEq, Eq, Structural)]
pub struct TransformData {
    pub translation: Vec3Data,
    pub rotation: QuatData,
    pub scale: Vec3Data,
}

/// An engine-native color: the color model's name (for example `Srgba`)
/// and its named components, each a double-precision bit pattern.
#[derive(Debug, Clone, PartialEq)]
pub struct ColorData {
    pub model: String,
    pub components: Vec<(String, u64)>,
}

/// The mathematical model of a [`ColorData`].
pub struct ColorView {
    pub model: Seq<char>,
    pub components: Seq<(Seq<char>, u64)>,
}

impl View for ColorData {
    type V = ColorView;

    open spec fn view(&self) -> ColorView {
        ColorView { model: self.model@, components: crate::value::pairs_view(self.components@) }
    }
}

/// A solid part: its size, color, placement, and whether gravity applies
/// to it. A document that leaves `gravity` out gets the default, `true`.
#[derive(Debug, Clone, PartialEq)]
pub struct PartDTO {
    pub size: Vec3Data,
    pub color: ColorData,
    pub position: TransformData,
    pub gravity: bool,
}

/// The mathematical model of a [`PartDTO`].
pub struct PartView {
    pub size: Vec3Data,
    pub color: ColorView,
    pub position: TransformData,
    pub gravity: bool,
}

impl View for PartDTO {
    type V = PartView;

    open spec fn view(&self) -> PartView {
        PartView {
            size: self.size,
            color: self.color@,
            position: self.position,
            gravity: self.gravity,
        }
    }
}

/// An empty grouping marker.
#[derive(Debug, Clone, PartialEq)]
pub struct FolderDTO {}

/// A script node: the asset holding its source.
#[derive(Debug, Clone, PartialEq)]
pub struct ScriptDTO {
    pub asset_id: AssetId,
}

/// The mathematical model of a [`ScriptDTO`].
pub struct ScriptView {
    pub asset_id: AssetIdView,
}

impl View for ScriptDTO {
    type V = ScriptView;

    open spec fn view(&self) -> ScriptView {
        ScriptView { asset_id: self.asset_id@ }
    }
}

/// A spot light: photometric and shadow parameters plus its placement.
#[derive(Debug, Clone, PartialEq)]
pub struct SpotLightDTO {
    pub color: ColorData,
    pub intensity: u64,
    pub range: u64,
    pub radius: u64,
    pub shadows_enabled: bool,
    pub outer_angle: u64,
    pub inner_angle: u64,
    pub position: TransformData,
}

/// The mathematical model of a [`SpotLightDTO`].
pub struct SpotLightView {
    pub color: ColorView,
    pub intensity: u64,
    pub range: u64,
    pub radius: u64,
    pub shadows_enabled: bool,
    pub outer_angle: u64,
    pub inner_angle: u64,
    pub position: TransformData,
}

impl View for SpotLightDTO {
    type V = SpotLightView;

    open spec fn view(&self) -> SpotLightView {
        SpotLightView {
            color: self.color@,
            intensity: self.intensity,
            range: self.range,
            radius: self.radius,
            shadows_enabled: self.shadows_enabled,
            outer_angle: self.outer_angle,
            inner_angle: self.inner_angle,
            position: self.position,
        }
    }
}

/// A point light: photometric and shadow parameters plus its placement.
#[derive(Debug, Clone, PartialEq)]
pub struct PointLightDTO {
    pub color: ColorData,
    pub intensity: u64,
    pub range: u64,
    pub radius: u64,
    pub shadows_enabled: bool,
    pub position: TransformData,
}

/// The mathematical model of a [`PointLightDTO`].
pub struct PointLightView {
    pub color: ColorView,
    pub intensity: u64,
    pub range: u64,
    pub radius: u64,
    pub shadows_enabled: bool,
    pub position: TransformData,
}

impl View for PointLightDTO {
    type V = PointLightView;

    open spec fn view(&self) -> PointLightView {
        PointLightView {
            color: self.color@,
            intensity: self.intensity,
            range: self.range,
            radius: self.radius,
            shadows_enabled: self.shadows_enabled,
            position: self.position,
        }
    }
}

/// A placed prop: its asset and its integer grid position and rotation.
#[derive(Debug, Clone, PartialEq)]
pub struct PropDTO {
    pub asset_id: AssetId,
    pub position: IVec3Data,
    pub rotation: IVec3Data,
}

/// The mathematical model of a [`PropDTO`].
pub struct PropView {
    pub asset_id: AssetIdView,
    pub position: IVec3Data,
    pub rotation: IVec3Data,
}

impl View for PropDTO {
    type V = PropView;

    open spec fn view(&self) -> PropView {
        PropView { asset_id: self.asset_id@, position: self.position, rotation: self.rotation }
    }
}

/// A placed structure: its asset and its integer grid position and
/// rotation.
#[derive(Debug, Clone, PartialEq)]
pub struct StructureDTO {
    pub asset_id: AssetId,
    pub position: IVec3Data,
    pub rotation: IVec3Data,
}

/// The mathematical model of a [`StructureDTO`].
pub struct StructureView {
    pub asset_id: AssetIdView,
    pub position: IVec3Data,
    pub rotation: IVec3Data,
}

impl View for StructureDTO {
    type V = StructureView;

    open spec fn view(&self) -> StructureView {
        StructureView {
            asset_id: self.asset_id@,
            position: self.position,
            rotation: self.rotation,
        }
    }
}

/// The tagged payload of a hierarchy node: exactly one of the declared
/// node kinds.
#[derive(Debug, PartialEq)]
pub enum GameElementTypeDTO {
    Part(PartDTO),
    Folder(FolderDTO),
    Script(ScriptDTO),
    SpotLight(SpotLightDTO),
    PointLight(PointLightDTO),
    Prop(PropDTO),
    Structure(StructureDTO),
}

/// The mathematical model of a [`GameElementTypeDTO`].
pub enum GameElementTypeView {
    Part(PartView),
    Folder,
    Script(ScriptView),
    SpotLight(SpotLightView),
    PointLight(PointLightView),
    Prop(PropView),
    Structure(StructureView),
}

impl View for GameElementTypeDTO {
    type V = GameElementTypeView;

    open spec fn view(&self) -> GameElementTypeView {
        match self {
            GameElementTypeDTO::Part(p) => GameElementTypeView::Part(p@),
            GameElementTypeDTO::Folder(_) => GameElementTypeView::Folder,
            GameElementTypeDTO::Script(s) => GameElementTypeView::Script(s@),
            GameElementTypeDTO::SpotLight(l) => GameElementTypeView::SpotLight(l@),
            GameElementTypeDTO::PointLight(l) => GameElementTypeView::PointLight(l@),
            GameElementTypeDTO::Prop(p) => GameElementTypeView::Prop(p@),
            GameElementTypeDTO::Structure(s) => GameElementTypeView::Structure(s@),
        }
    }
}

/// A hierarchy node: its name, its tagged payload, its children (an
/// ordered, exclusively-owned sequence forming a tree), and the
/// encode-only attributes map. Names need not be unique among siblings or
/// across the tree.
#[derive(Debug, PartialEq)]
pub struct GameElementDTO {
    pub name: String,
    pub value: GameElementTypeDTO,
    pub children: Option<Vec<GameElementDTO>>,
    pub attributes: Option<Vec<(String, TypeDTO)>>,
}

/// The mathematical model of a [`GameElementDTO`].
pub struct GameElementView {
    pub name: Seq<char>,
    pub value: GameElementTypeView,
    pub children: Option<Seq<GameElementView>>,
    pub attributes: Option<Seq<(Seq<char>, TypeDefView)>>,
}

/// The models of the elements of a sequence of hierarchy nodes.
pub open spec fn elements_view(s: Seq<GameElementDTO>) -> Seq<GameElementView>
    decreases s,
{
    Seq::new(
        s.len(),
        |i: int|
            if 0 <= i < s.len() {
                s[i]@
            } else {
                arbitrary_element_view()
            },
    )
}

/// A fixed filler node model, used only outside a sequence's bounds.
pub open spec fn arbitrary_element_view() -> GameElementView {
    GameElementView {
        name: Seq::<char>::empty(),
        value: GameElementTypeView::Folder,
        children: None,
        attributes: None,
    }
}

/// A node sequence's model has one node model per node.
pub broadcast proof fn lemma_elements_view_len(s: Seq<GameElementDTO>)
    ensures
        (#[trigger] elements_view(s)).len() == s.len(),
{
}

/// The model of a node in a sequence is the node's model.
pub broadcast proof fn lemma_elements_view_index(s: Seq<GameElementDTO>, i: int)
    requires
        0 <= i < s.len(),
    ensures
        #[trigger] elements_view(s)[i] == s[i]@,
{
}

/// The pointwise facts about node-sequence models.
pub broadcast group group_element_views {
    lemma_elements_view_len,
    lemma_elements_view_index,
}

impl View for GameElementDTO {
    type V = GameElementView;

    open spec fn view(&self) -> GameElementView
        decreases self,
    {
        GameElementView {
            name: self.name@,
            value: self.value@,
            children: match &self.children {
                Some(cs) => Some(elements_view(cs@)),
                None => None,
            },
            attributes: match &self.attributes {
                Some(attrs) => Some(crate::value::pairs_view(attrs@)),
                None => None,
            },
        }
    }
}

} // verus!
