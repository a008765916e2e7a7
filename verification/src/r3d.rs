//! The modes that the game hands to the r3d renderer, and the integer codes
//! under which the renderer takes and reports them.

use vstd::prelude::*;

verus! {

/// The kind of a light.
#[derive(PartialEq, Eq, Structural, Copy, Clone, Debug)]
pub enum LightType {
    /// Directional light, affects the entire scene with parallel rays.
    Directional,
    /// Spot light, emits light in a cone shape.
    Spot,
    /// Omni light, emits light in all directions from a single point.
    Omnidirectional,
}

/// When a light's shadow map is drawn again.
#[derive(PartialEq, Eq, Structural, Copy, Clone, Debug)]
pub enum ShadowUpdateMode {
    /// Shadow maps update only when explicitly requested.
    Manual,
    /// Shadow maps update at defined time intervals.
    Interval,
    /// Shadow maps update every frame for real-time accuracy.
    Continuous,
}

/// How the bloom effect joins the scene.
#[derive(PartialEq, Eq, Structural, Copy, Clone, Debug)]
pub enum BloomMode {
    /// Bloom effect is disabled.
    Disabled,
    /// Blends the bloom effect with the unlit scene by linear interpolation.
    Mix,
    /// Adds the bloom effect to the scene, intensifying bright regions.
    Additive,
    /// Combines the scene and bloom by screen blending.
    Screen,
}

/// How fog thickens with distance.
#[derive(PartialEq, Eq, Structural, Copy, Clone, Debug)]
pub enum FogMode {
    /// Fog effect is disabled.
    Disabled,
    /// Density increases linearly with distance from the camera.
    Linear,
    /// Density increases exponentially (squared) with distance.
    Exponential2,
    /// Density increases exponentially with distance.
    Exponential,
}

impl Default for LightType {
    fn default() -> (light_type: Self)
        ensures
            light_type == LightType::Directional,
    {
        LightType::Directional
    }
}

impl Default for ShadowUpdateMode {
    fn default() -> (mode: Self)
        ensures
            mode == ShadowUpdateMode::Manual,
    {
        ShadowUpdateMode::Manual
    }
}

impl Default for BloomMode {
    fn default() -> (mode: Self)
        ensures
            mode == BloomMode::Disabled,
    {
        BloomMode::Disabled
    }
}

impl Default for FogMode {
    fn default() -> (mode: Self)
        ensures
            mode == FogMode::Disabled,
    {
        FogMode::Disabled
    }
}

impl LightType {
    /// The renderer's code of the light kind: its place in the declaration.
    pub open spec fn code_of(self) -> u32 {
        match self {
            LightType::Directional => 0,
            LightType::Spot => 1,
            LightType::Omnidirectional => 2,
        }
    }

    /// The light kind that the renderer reports by `code`; every code past
    /// the spot light's reads as an omnidirectional light.
    pub open spec fn of_code(code: u32) -> LightType {
        if code == 0 {
            LightType::Directional
        } else if code == 1 {
            LightType::Spot
        } else {
            LightType::Omnidirectional
        }
    }

    /// The code under which the renderer creates a light of this kind.
    pub fn code(&self) -> (code: u32)
        ensures
            code == self.code_of(),
    {
        match self {
            LightType::Directional => 0,
            LightType::Spot => 1,
            LightType::Omnidirectional => 2,
        }
    }

    /// The light kind of a code that the renderer reports.
    pub fn from_code(code: u32) -> (light_type: LightType)
        ensures
            light_type == LightType::of_code(code),
    {
        match code {
            0 => LightType::Directional,
            1 => LightType::Spot,
            _ => LightType::Omnidirectional,
        }
    }
}

impl ShadowUpdateMode {
    /// The renderer's code of the mode: its place in the declaration.
    pub open spec fn code_of(self) -> u32 {
        match self {
            ShadowUpdateMode::Manual => 0,
            ShadowUpdateMode::Interval => 1,
            ShadowUpdateMode::Continuous => 2,
        }
    }

    /// The mode that the renderer reports by `code`; every code past the
    /// interval mode's reads as continuous.
    pub open spec fn of_code(code: u32) -> ShadowUpdateMode {
        if code == 0 {
            ShadowUpdateMode::Manual
        } else if code == 1 {
            ShadowUpdateMode::Interval
        } else {
            ShadowUpdateMode::Continuous
        }
    }

    /// The code under which the renderer takes this mode.
    pub fn code(&self) -> (code: u32)
        ensures
            code == self.code_of(),
    {
        match self {
            ShadowUpdateMode::Manual => 0,
            ShadowUpdateMode::Interval => 1,
            ShadowUpdateMode::Continuous => 2,
        }
    }

    /// The mode of a code that the renderer reports.
    pub fn from_code(code: u32) -> (mode: ShadowUpdateMode)
        ensures
            mode == ShadowUpdateMode::of_code(code),
    {
        match code {
            0 => ShadowUpdateMode::Manual,
            1 => ShadowUpdateMode::Interval,
            _ => ShadowUpdateMode::Continuous,
        }
    }
}

impl BloomMode {
    /// The code under which the renderer takes this mode: its place in the
    /// declaration.
    pub fn code(&self) -> (code: u32)
        ensures
            code == (match *self {
                BloomMode::Disabled => 0u32,
                BloomMode::Mix => 1u32,
                BloomMode::Additive => 2u32,
                BloomMode::Screen => 3u32,
            }),
    {
        match self {
            BloomMode::Disabled => 0,
            BloomMode::Mix => 1,
            BloomMode::Additive => 2,
            BloomMode::Screen => 3,
        }
    }
}

impl FogMode {
    /// The code under which the renderer takes this mode: its place in the
    /// declaration.
    pub fn code(&self) -> (code: u32)
        ensures
            code == (match *self {
                FogMode::Disabled => 0u32,
                FogMode::Linear => 1u32,
                FogMode::Exponential2 => 2u32,
                FogMode::Exponential => 3u32,
            }),
    {
        match self {
            FogMode::Disabled => 0,
            FogMode::Linear => 1,
            FogMode::Exponential2 => 2,
            FogMode::Exponential => 3,
        }
    }
}

/// A light kind handed to the renderer comes back as the same kind.
pub proof fn light_type_round_trip(light_type: LightType)
    ensures
        LightType::of_code(light_type.code_of()) == light_type,
{
}

/// A shadow update mode handed to the renderer comes back as the same mode.
pub proof fn shadow_update_mode_round_trip(mode: ShadowUpdateMode)
    ensures
        ShadowUpdateMode::of_code(mode.code_of()) == mode,
{
}

/// The renderer's codes are the kinds' places in their declarations: the
/// directional light 0, the spot light 1, the omnidirectional light 2 (and
/// every larger code reads as omnidirectional); the manual shadow update
/// 0, the interval update 1, the continuous update 2 (and larger).
pub proof fn renderer_codes(code: u32)
    ensures
        LightType::Directional.code_of() == 0,
        LightType::Spot.code_of() == 1,
        LightType::Omnidirectional.code_of() == 2,
        code == 0 ==> LightType::of_code(code) == LightType::Directional,
        code == 1 ==> LightType::of_code(code) == LightType::Spot,
        code >= 2 ==> LightType::of_code(code) == LightType::Omnidirectional,
        ShadowUpdateMode::Manual.code_of() == 0,
        ShadowUpdateMode::Interval.code_of() == 1,
        ShadowUpdateMode::Continuous.code_of() == 2,
        code == 0 ==> ShadowUpdateMode::of_code(code) == ShadowUpdateMode::Manual,
        code == 1 ==> ShadowUpdateMode::of_code(code) == ShadowUpdateMode::Interval,
        code >= 2 ==> ShadowUpdateMode::of_code(code) == ShadowUpdateMode::Continuous,
{
}

} // verus!
