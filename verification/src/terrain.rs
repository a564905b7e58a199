//! Terrain and environment settings: an optional skybox with its cube map
//! texture and an optional environment map light.

use vstd::prelude::*;

verus! {

/// The cube map a skybox draws.
#[derive(Debug, Clone, PartialEq)]
pub struct CubeMapDTO {
    pub texture: String,
}

/// The mathematical model of a [`CubeMapDTO`].
pub struct CubeMapView {
    pub texture: Seq<char>,
}

impl View for CubeMapDTO {
    type V = CubeMapView;

    open spec fn view(&self) -> CubeMapView {
        CubeMapView { texture: self.texture@ }
    }
}

/// An environment map light: its specular and diffuse map textures.
#[derive(Debug, Clone, PartialEq)]
pub struct EnvironmentMapLightDTO {
    pub specular: String,
    pub diffuse: String,
}

/// The mathematical model of an [`EnvironmentMapLightDTO`].
pub struct EnvironmentMapLightView {
    pub specular: Seq<char>,
    pub diffuse: Seq<char>,
}

impl View for EnvironmentMapLightDTO {
    type V = EnvironmentMapLightView;

    open spec fn view(&self) -> EnvironmentMapLightView {
        EnvironmentMapLightView { specular: self.specular@, diffuse: self.diffuse@ }
    }
}

/// A skybox: its cube map and an optional environment map light.
#[derive(Debug, Clone, PartialEq)]
pub struct SkyboxDTO {
    pub cube_map: CubeMapDTO,
    pub environment_map_light: Option<EnvironmentMapLightDTO>,
}

/// The mathematical model of a [`SkyboxDTO`].
pub struct SkyboxView {
    pub cube_map: CubeMapView,
    pub environment_map_light: Option<EnvironmentMapLightView>,
}

impl View for SkyboxDTO {
    type V = SkyboxView;

    open spec fn view(&self) -> SkyboxView {
        SkyboxView {
            cube_map: self.cube_map@,
            environment_map_light: match &self.environment_map_light {
                Some(e) => Some(e@),
                None => None,
            },
        }
    }
}

/// Terrain settings: an optional skybox.
#[derive(Debug, Clone, PartialEq)]
pub struct TerrainDTO {
    pub skybox: Option<SkyboxDTO>,
}

/// The mathematical model of a [`TerrainDTO`].
pub struct TerrainView {
    pub skybox: Option<SkyboxView>,
}

impl View for TerrainDTO {
    type V = TerrainView;

    open spec fn view(&self) -> TerrainView {
        TerrainView {
            skybox: match &self.skybox {
                Some(s) => Some(s@),
                None => None,
            },
        }
    }
}

} // verus!
