//! Content assets: an opaque identifier naming a backing store, plus the
//! kind of content stored there.

use vstd::prelude::*;

verus! {

/// Identifies a content asset by one of several backing stores. The
/// identifiers are opaque to this crate: a cloud content UUID, a pair of
/// private-store object and version identifiers (hex strings), or a local
/// filesystem path, each carried as a string and resolved by collaborators
/// outside this crate.
#[derive(Debug, Clone, PartialEq)]
pub enum AssetId {
    PublicCloud(String),
    PrivateCloud { asset_id: String, version_id: String },
    Local(String),
}

/// The mathematical model of an [`AssetId`].
pub enum AssetIdView {
    PublicCloud(Seq<char>),
    PrivateCloud { asset_id: Seq<char>, version_id: Seq<char> },
    Local(Seq<char>),
}

impl View for AssetId {
    type V = AssetIdView;

    open spec fn view(&self) -> AssetIdView {
        match self {
            AssetId::PublicCloud(id) => AssetIdView::PublicCloud(id@),
            AssetId::PrivateCloud { asset_id, version_id } => {
                AssetIdView::PrivateCloud { asset_id: asset_id@, version_id: version_id@ }
            },
            AssetId::Local(path) => AssetIdView::Local(path@),
        }
    }
}

/// The kind of content an asset holds.
#[derive(Debug, Clone, Copy, PartialEq, Eq, Structural)]
pub enum AssetType {
    Image,
    Script,
    Props,
    Structure,
    Sound,
    Music,
}

/// A declared asset: its identifier and its content kind.
#[derive(Debug, Clone, PartialEq)]
pub struct AssetDTO {
    pub id: AssetId,
    pub asset_type: AssetType,
}

/// The mathematical model of an [`AssetDTO`].
pub struct AssetView {
    pub id: AssetIdView,
    pub asset_type: AssetType,
}

impl View for AssetDTO {
    type V = AssetView;

    open spec fn view(&self) -> AssetView {
        AssetView { id: self.id@, asset_type: self.asset_type }
    }
}

} // verus!
