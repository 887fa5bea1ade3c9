//! Material scatter decisions.
//!
//! A surface interaction either continues the light path with a new ray or
//! absorbs it. The geometry of the new ray is floating-point work done by the
//! renderer; the *decision* — diffuse bounce, mirror reflection, refraction,
//! or absorption — depends only on the material model and on a few plain
//! facts the renderer reports about the interaction, and is made here.

use vstd::prelude::*;

verus! {

/// The closed set of material models a surface can carry.
#[derive(Clone, Copy, PartialEq, Eq, Structural, Debug)]
pub enum MaterialKind {
    /// Diffuse surface: always scatters toward a cosine-weighted direction.
    Lambertian,
    /// Mirror surface with roughness: scatters along the perturbed
    /// reflection, or absorbs when the perturbation dips below the surface.
    Metal,
    /// Glass-like surface: stochastically reflects or refracts, never absorbs.
    Dielectric,
    /// Placeholder bound to no real surface: absorbs everything.
    Null,
}

/// What the renderer must do with the path after a surface interaction.
#[derive(Clone, Copy, PartialEq, Eq, Structural, Debug)]
pub enum ScatterChoice {
    /// Continue with a diffuse bounce; attenuate by the albedo.
    Diffuse,
    /// Continue along the (perturbed) mirror reflection.
    Reflect,
    /// Continue along the refracted direction.
    Refract,
    /// Terminate the path with zero contribution.
    Absorb,
}

/// The scatter decision of each material model.
///
/// `reflection_above_surface` reports whether the perturbed reflected
/// direction has a positive dot product with the surface normal;
/// `refraction_possible` whether the Snell discriminant is positive; and
/// `draw_below_reflectance` whether the uniform draw in `[0, 1)` fell below
/// the Schlick reflectance probability.
pub open spec fn spec_scatter_choice(
    kind: MaterialKind,
    reflection_above_surface: bool,
    refraction_possible: bool,
    draw_below_reflectance: bool,
) -> ScatterChoice {
    match kind {
        MaterialKind::Lambertian => ScatterChoice::Diffuse,
        MaterialKind::Metal => (if reflection_above_surface {
            ScatterChoice::Reflect
        } else {
            ScatterChoice::Absorb
        }),
        MaterialKind::Dielectric => (if !refraction_possible || draw_below_reflectance {
            ScatterChoice::Reflect
        } else {
            ScatterChoice::Refract
        }),
        MaterialKind::Null => ScatterChoice::Absorb,
    }
}

/// Decide how a surface interaction continues the light path.
///
/// A diffuse surface always scatters; a metal surface scatters exactly when
/// the perturbed reflection points off the surface; a dielectric always
/// scatters, reflecting whenever refraction is geometrically impossible
/// (total internal reflection forces the reflectance probability to one) or
/// the stochastic draw chose reflection; the null material absorbs.
pub fn scatter_choice(
    kind: MaterialKind,
    reflection_above_surface: bool,
    refraction_possible: bool,
    draw_below_reflectance: bool,
) -> (c: ScatterChoice)
    ensures
        c == spec_scatter_choice(
            kind,
            reflection_above_surface,
            refraction_possible,
            draw_below_reflectance,
        ),
        kind == MaterialKind::Lambertian || kind == MaterialKind::Dielectric
            ==> c != ScatterChoice::Absorb,
        kind == MaterialKind::Null ==> c == ScatterChoice::Absorb,
{
    match kind {
        MaterialKind::Lambertian => ScatterChoice::Diffuse,
        MaterialKind::Metal => {
            if reflection_above_surface {
                ScatterChoice::Reflect
            } else {
                ScatterChoice::Absorb
            }
        },
        MaterialKind::Dielectric => {
            if !refraction_possible || draw_below_reflectance {
                ScatterChoice::Reflect
            } else {
                ScatterChoice::Refract
            }
        },
        MaterialKind::Null => ScatterChoice::Absorb,
    }
}

/// A metal surface absorbs the path whenever the perturbed reflected
/// direction does not point off the surface (its dot product with the
/// surface normal is not positive), whatever the other interaction facts
/// say.
pub proof fn lemma_metal_absorbs_below_surface(
    refraction_possible: bool,
    draw_below_reflectance: bool,
)
    ensures
        spec_scatter_choice(
            MaterialKind::Metal,
            false,
            refraction_possible,
            draw_below_reflectance,
        ) == ScatterChoice::Absorb,
{
}

/// The material bound to the aggregate's unused background slot: it is never
/// attached to a real surface and absorbs any path handed to it.
pub struct NullMaterial {}

impl NullMaterial {
    /// Create the placeholder material.
    pub fn new() -> (m: NullMaterial) {
        NullMaterial {}
    }

    /// A null surface never scatters: there is no continuation ray.
    pub fn scatter(&self) -> (r: Option<ScatterChoice>)
        ensures
            r is None,
    {
        None
    }
}

} // verus!
