//! The sky/atmosphere pass: scattering configuration and per-draw
//! uniforms.
//!
//! The sky dome is shaded with a closed-form single-scattering
//! approximation (Rayleigh and Mie terms) driven by a small set of
//! physical constants: wavelengths, scattering coefficients, planet and
//! atmosphere radii, sun brightness and the Mie asymmetry factor.  The
//! configuration is validated once at startup (`outer > inner` above
//! all, so that `1 / (outer - inner)` exists); each draw then derives
//! its uniform values deterministically from the constants and the
//! camera position handed in for the frame.

use crate::rational::Rat;
use vstd::prelude::*;

verus! {

/// Numerator of four times the 32-bit float value of pi.
pub const FOUR_PI_NUM: i64 = 13176795;

/// Denominator of four times the 32-bit float value of pi.
pub const FOUR_PI_DEN: i64 = 1048576;

/// Magnitude bound on the wavelength rationals: their fourth powers
/// must stay exact.
pub const WAVELENGTH_BOUND: i64 = 4096;

/// Magnitude bound on the remaining configuration rationals.
pub const SKY_PARAM_BOUND: i64 = 1048576;

/// Magnitude bound on the camera height handed in per frame.
pub const CAMERA_HEIGHT_BOUND: i64 = 1073741824;

/// Why a scattering configuration was rejected at startup.
#[derive(Clone, Copy, Debug, PartialEq, Eq, Structural)]
pub enum SkyConfigError {
    /// A constant is out of the exact model's range, has a non-positive
    /// denominator, a non-positive wavelength, or a non-positive
    /// Rayleigh scale depth.
    ParameterOutOfRange,
    /// The atmosphere does not enclose the planet: `outer <= inner`.
    RadiiOutOfOrder,
}

/// The sky pass subsystem: the fixed scattering constants.
#[derive(Clone, Copy, Debug)]
pub struct SkyRenderSystem {
    pub wavelength_r: Rat,
    pub wavelength_g: Rat,
    pub wavelength_b: Rat,
    pub inner_radius: Rat,
    pub outer_radius: Rat,
    pub kr: Rat,
    pub km: Rat,
    pub esun: Rat,
    pub g: Rat,
    pub rayleigh_scale_depth: Rat,
}

/// A wavelength is positive and small enough that its fourth power is
/// exact.
pub open spec fn wavelength_in_range(w: Rat) -> bool {
    &&& w.wf()
    &&& 1 <= w.num <= WAVELENGTH_BOUND
    &&& w.den <= WAVELENGTH_BOUND
}

impl SkyRenderSystem {
    /// All constants within range, wavelengths and the scale depth
    /// positive.
    pub open spec fn params_in_range(self) -> bool {
        &&& wavelength_in_range(self.wavelength_r)
        &&& wavelength_in_range(self.wavelength_g)
        &&& wavelength_in_range(self.wavelength_b)
        &&& self.inner_radius.wf() && self.inner_radius.bounded(SKY_PARAM_BOUND as int)
        &&& self.outer_radius.wf() && self.outer_radius.bounded(SKY_PARAM_BOUND as int)
        &&& self.kr.wf() && self.kr.bounded(SKY_PARAM_BOUND as int)
        &&& self.km.wf() && self.km.bounded(SKY_PARAM_BOUND as int)
        &&& self.esun.wf() && self.esun.bounded(SKY_PARAM_BOUND as int)
        &&& self.g.wf() && self.g.bounded(SKY_PARAM_BOUND as int)
        &&& self.rayleigh_scale_depth.wf() && self.rayleigh_scale_depth.num >= 1
        &&& self.rayleigh_scale_depth.bounded(SKY_PARAM_BOUND as int)
    }

    /// Valid configuration: constants in range and the atmosphere
    /// strictly enclosing the planet.
    pub open spec fn wf(self) -> bool {
        &&& self.params_in_range()
        &&& self.inner_radius.spec_lt(self.outer_radius)
    }

    /// Validates a configuration; failure is a startup error, never a
    /// per-frame one.
    pub fn new(
        wavelength_r: Rat, wavelength_g: Rat, wavelength_b: Rat, inner_radius: Rat,
        outer_radius: Rat, kr: Rat, km: Rat, esun: Rat, g: Rat, rayleigh_scale_depth: Rat,
    ) -> (r: Result<SkyRenderSystem, SkyConfigError>)
        ensures
            r is Ok <==> (SkyRenderSystem {
                wavelength_r, wavelength_g, wavelength_b, inner_radius, outer_radius, kr, km,
                esun, g, rayleigh_scale_depth,
            }).wf(),
            r is Ok ==> r.unwrap() == (SkyRenderSystem {
                wavelength_r, wavelength_g, wavelength_b, inner_radius, outer_radius, kr, km,
                esun, g, rayleigh_scale_depth,
            }),
            r == Result::<SkyRenderSystem, SkyConfigError>::Err(SkyConfigError::ParameterOutOfRange)
                <==> !(SkyRenderSystem {
                wavelength_r, wavelength_g, wavelength_b, inner_radius, outer_radius, kr, km,
                esun, g, rayleigh_scale_depth,
            }).params_in_range(),
            r == Result::<SkyRenderSystem, SkyConfigError>::Err(SkyConfigError::RadiiOutOfOrder)
                <==> ((SkyRenderSystem {
                wavelength_r, wavelength_g, wavelength_b, inner_radius, outer_radius, kr, km,
                esun, g, rayleigh_scale_depth,
            }).params_in_range() && !inner_radius.spec_lt(outer_radius)),
    {
        let sys = SkyRenderSystem {
            wavelength_r, wavelength_g, wavelength_b, inner_radius, outer_radius, kr, km, esun,
            g, rayleigh_scale_depth,
        };
        let wl_ok = wavelength_ok(wavelength_r) && wavelength_ok(wavelength_g) && wavelength_ok(
            wavelength_b);
        let params_ok = wl_ok && param_ok(inner_radius) && param_ok(outer_radius) && param_ok(kr)
            && param_ok(km) && param_ok(esun) && param_ok(g) && param_ok(rayleigh_scale_depth)
            && rayleigh_scale_depth.num >= 1;
        if !params_ok {
            Err(SkyConfigError::ParameterOutOfRange)
        } else if !crate::rational::rat_lt(inner_radius, outer_radius) {
            Err(SkyConfigError::RadiiOutOfOrder)
        } else {
            Ok(sys)
        }
    }

    /// The configuration the renderer ships with: the stock sky
    /// constants as exact rationals (wavelengths 0.650, 0.570 and 0.475;
    /// radii 1 and 10.25; Kr 0.0025; Km 0.001; sun brightness 20;
    /// Mie asymmetry -0.99; Rayleigh scale depth 0.25).
    pub fn standard() -> (r: SkyRenderSystem)
        ensures
            r.wf(),
            r.wavelength_r == (Rat { num: 13, den: 20 }),
            r.wavelength_g == (Rat { num: 57, den: 100 }),
            r.wavelength_b == (Rat { num: 19, den: 40 }),
            r.inner_radius == (Rat { num: 1, den: 1 }),
            r.outer_radius == (Rat { num: 41, den: 4 }),
            r.kr == (Rat { num: 1, den: 400 }),
            r.km == (Rat { num: 1, den: 1000 }),
            r.esun == (Rat { num: 20, den: 1 }),
            r.g == (Rat { num: -99i64, den: 100 }),
            r.rayleigh_scale_depth == (Rat { num: 1, den: 4 }),
    {
        SkyRenderSystem {
            wavelength_r: Rat { num: 13, den: 20 },
            wavelength_g: Rat { num: 57, den: 100 },
            wavelength_b: Rat { num: 19, den: 40 },
            inner_radius: Rat { num: 1, den: 1 },
            outer_radius: Rat { num: 41, den: 4 },
            kr: Rat { num: 1, den: 400 },
            km: Rat { num: 1, den: 1000 },
            esun: Rat { num: 20, den: 1 },
            g: Rat { num: -99, den: 100 },
            rayleigh_scale_depth: Rat { num: 1, den: 4 },
        }
    }

    /// Derives the per-draw uniform values for the current camera
    /// height, each an exact, well-defined rational.
    pub fn derive_uniforms(&self, camera_height: Rat) -> (r: SkyUniforms)
        requires
            self.wf(),
            camera_height.wf(),
            camera_height.bounded(CAMERA_HEIGHT_BOUND as int),
        ensures
            r.wf(),
            uniforms_match(r, *self, camera_height),
    {
        proof {
            lemma_sky_uniform_products(*self, camera_height);
            crate::matrix::lemma_mul_magnitude_bound(
                self.outer_radius.num as int, self.inner_radius.den as int,
                SKY_PARAM_BOUND as int, SKY_PARAM_BOUND as int);
            crate::matrix::lemma_mul_magnitude_bound(
                self.inner_radius.num as int, self.outer_radius.den as int,
                SKY_PARAM_BOUND as int, SKY_PARAM_BOUND as int);
        }
        let scale_den: i64 = ((self.outer_radius.num as i128) * (self.inner_radius.den as i128)
            - (self.inner_radius.num as i128) * (self.outer_radius.den as i128)) as i64;
        SkyUniforms {
            inv_wavelength4_r: fourth_power_recip(self.wavelength_r),
            inv_wavelength4_g: fourth_power_recip(self.wavelength_g),
            inv_wavelength4_b: fourth_power_recip(self.wavelength_b),
            camera_height,
            camera_height2: Rat {
                num: ((camera_height.num as i128) * (camera_height.num as i128)) as i64,
                den: ((camera_height.den as i128) * (camera_height.den as i128)) as i64,
            },
            outer_radius2: Rat {
                num: self.outer_radius.num * self.outer_radius.num,
                den: self.outer_radius.den * self.outer_radius.den,
            },
            inner_radius: self.inner_radius,
            kr_esun: Rat { num: self.kr.num * self.esun.num, den: self.kr.den * self.esun.den },
            km_esun: Rat { num: self.km.num * self.esun.num, den: self.km.den * self.esun.den },
            kr4pi: Rat { num: self.kr.num * FOUR_PI_NUM, den: self.kr.den * FOUR_PI_DEN },
            km4pi: Rat { num: self.km.num * FOUR_PI_NUM, den: self.km.den * FOUR_PI_DEN },
            scale: Rat {
                num: self.outer_radius.den * self.inner_radius.den,
                den: scale_den,
            },
            scale_depth: self.rayleigh_scale_depth,
            scale_over_scale_depth: Rat {
                num: (self.outer_radius.den * self.inner_radius.den)
                    * self.rayleigh_scale_depth.den,
                den: scale_den * self.rayleigh_scale_depth.num,
            },
            g_factor: self.g,
            g2: Rat { num: self.g.num * self.g.num, den: self.g.den * self.g.den },
        }
    }
}

/// Whether one wavelength passes startup validation.
fn wavelength_ok(w: Rat) -> (r: bool)
    ensures
        r == wavelength_in_range(w),
{
    w.den > 0 && w.den <= WAVELENGTH_BOUND && 1 <= w.num && w.num <= WAVELENGTH_BOUND
}

/// Whether one general constant passes startup validation.
fn param_ok(p: Rat) -> (r: bool)
    ensures
        r == (p.wf() && p.bounded(SKY_PARAM_BOUND as int)),
{
    p.den > 0 && p.den <= SKY_PARAM_BOUND && -SKY_PARAM_BOUND <= p.num && p.num <= SKY_PARAM_BOUND
}

/// The per-draw uniform values of the sky pass.
#[derive(Clone, Copy, Debug)]
pub struct SkyUniforms {
    pub inv_wavelength4_r: Rat,
    pub inv_wavelength4_g: Rat,
    pub inv_wavelength4_b: Rat,
    pub camera_height: Rat,
    pub camera_height2: Rat,
    pub outer_radius2: Rat,
    pub inner_radius: Rat,
    pub kr_esun: Rat,
    pub km_esun: Rat,
    pub kr4pi: Rat,
    pub km4pi: Rat,
    pub scale: Rat,
    pub scale_depth: Rat,
    pub scale_over_scale_depth: Rat,
    pub g_factor: Rat,
    pub g2: Rat,
}

impl SkyUniforms {
    /// Every uniform is a well-defined rational: no denominator is zero.
    pub open spec fn wf(self) -> bool {
        &&& self.inv_wavelength4_r.wf() && self.inv_wavelength4_g.wf()
        &&& self.inv_wavelength4_b.wf()
        &&& self.camera_height.wf() && self.camera_height2.wf()
        &&& self.outer_radius2.wf() && self.inner_radius.wf()
        &&& self.kr_esun.wf() && self.km_esun.wf() && self.kr4pi.wf() && self.km4pi.wf()
        &&& self.scale.wf() && self.scale_depth.wf() && self.scale_over_scale_depth.wf()
        &&& self.g_factor.wf() && self.g2.wf()
    }
}


/// The uniform values `derive_uniforms` owes for a configuration and a
/// camera height: each field pinned exactly.
pub open spec fn uniforms_match(r: SkyUniforms, sys: SkyRenderSystem, camera_height: Rat) -> bool {
    &&& r.inv_wavelength4_r == inv_fourth_power(sys.wavelength_r)
    &&& r.inv_wavelength4_g == inv_fourth_power(sys.wavelength_g)
    &&& r.inv_wavelength4_b == inv_fourth_power(sys.wavelength_b)
    &&& r.camera_height == camera_height
    &&& r.camera_height2.num == camera_height.num * camera_height.num
    &&& r.camera_height2.den == camera_height.den * camera_height.den
    &&& r.outer_radius2.num == sys.outer_radius.num * sys.outer_radius.num
    &&& r.outer_radius2.den == sys.outer_radius.den * sys.outer_radius.den
    &&& r.inner_radius == sys.inner_radius
    &&& r.kr_esun.num == sys.kr.num * sys.esun.num
    &&& r.kr_esun.den == sys.kr.den * sys.esun.den
    &&& r.km_esun.num == sys.km.num * sys.esun.num
    &&& r.km_esun.den == sys.km.den * sys.esun.den
    &&& r.kr4pi.num == sys.kr.num * FOUR_PI_NUM
    &&& r.kr4pi.den == sys.kr.den * FOUR_PI_DEN
    &&& r.km4pi.num == sys.km.num * FOUR_PI_NUM
    &&& r.km4pi.den == sys.km.den * FOUR_PI_DEN
    &&& r.scale == atmosphere_scale(sys.inner_radius, sys.outer_radius)
    &&& r.scale_depth == sys.rayleigh_scale_depth
    &&& r.scale_over_scale_depth.num == (sys.outer_radius.den * sys.inner_radius.den)
        * sys.rayleigh_scale_depth.den
    &&& r.scale_over_scale_depth.den == (sys.outer_radius.num * sys.inner_radius.den
        - sys.inner_radius.num * sys.outer_radius.den) * sys.rayleigh_scale_depth.num
    &&& r.g_factor == sys.g
    &&& r.g2.num == sys.g.num * sys.g.num
    &&& r.g2.den == sys.g.den * sys.g.den
}

/// The reciprocal fourth power of a wavelength: `1 / w^4`.
pub open spec fn inv_fourth_power(w: Rat) -> Rat {
    Rat {
        num: (((w.den * w.den) as int) * ((w.den * w.den) as int)) as i64,
        den: (((w.num * w.num) as int) * ((w.num * w.num) as int)) as i64,
    }
}

/// The atmosphere depth scale: `1 / (outer - inner)`.
pub open spec fn atmosphere_scale(inner: Rat, outer: Rat) -> Rat {
    Rat {
        num: (outer.den * inner.den) as i64,
        den: (outer.num * inner.den - inner.num * outer.den) as i64,
    }
}

/// `1 / w^4` computed exactly for an in-range wavelength.
fn fourth_power_recip(w: Rat) -> (r: Rat)
    requires
        wavelength_in_range(w),
    ensures
        r == inv_fourth_power(w),
        r.wf(),
{
    proof {
        crate::matrix::lemma_mul_magnitude_bound(
            w.den as int, w.den as int, WAVELENGTH_BOUND as int, WAVELENGTH_BOUND as int);
        crate::matrix::lemma_mul_magnitude_bound(
            (w.den * w.den) as int, (w.den * w.den) as int,
            (WAVELENGTH_BOUND * WAVELENGTH_BOUND) as int,
            (WAVELENGTH_BOUND * WAVELENGTH_BOUND) as int);
        crate::matrix::lemma_mul_magnitude_bound(
            w.num as int, w.num as int, WAVELENGTH_BOUND as int, WAVELENGTH_BOUND as int);
        crate::matrix::lemma_mul_magnitude_bound(
            (w.num * w.num) as int, (w.num * w.num) as int,
            (WAVELENGTH_BOUND * WAVELENGTH_BOUND) as int,
            (WAVELENGTH_BOUND * WAVELENGTH_BOUND) as int);
        crate::rational::lemma_pos_mul_pos(w.num as int, w.num as int);
        crate::rational::lemma_pos_mul_pos((w.num * w.num) as int, (w.num * w.num) as int);
    }
    let d2: i64 = w.den * w.den;
    let n2: i64 = w.num * w.num;
    Rat { num: d2 * d2, den: n2 * n2 }
}

/// All products of `derive_uniforms` fit the 64-bit components and keep
/// positive denominators.
proof fn lemma_sky_uniform_products(sys: SkyRenderSystem, h: Rat)
    requires
        sys.wf(),
        h.wf(),
        h.bounded(CAMERA_HEIGHT_BOUND as int),
    ensures
        i64::MIN <= h.num * h.num <= i64::MAX,
        0 < h.den * h.den <= i64::MAX,
        i64::MIN <= sys.outer_radius.num * sys.outer_radius.num <= i64::MAX,
        0 < sys.outer_radius.den * sys.outer_radius.den <= i64::MAX,
        i64::MIN <= sys.kr.num * sys.esun.num <= i64::MAX,
        0 < sys.kr.den * sys.esun.den <= i64::MAX,
        i64::MIN <= sys.km.num * sys.esun.num <= i64::MAX,
        0 < sys.km.den * sys.esun.den <= i64::MAX,
        i64::MIN <= sys.kr.num * FOUR_PI_NUM <= i64::MAX,
        0 < sys.kr.den * FOUR_PI_DEN <= i64::MAX,
        i64::MIN <= sys.km.num * FOUR_PI_NUM <= i64::MAX,
        0 < sys.km.den * FOUR_PI_DEN <= i64::MAX,
        0 < sys.outer_radius.den * sys.inner_radius.den <= i64::MAX,
        0 < sys.outer_radius.num * sys.inner_radius.den - sys.inner_radius.num
            * sys.outer_radius.den <= i64::MAX,
        0 < (sys.outer_radius.den * sys.inner_radius.den) * sys.rayleigh_scale_depth.den
            <= i64::MAX,
        0 < (sys.outer_radius.num * sys.inner_radius.den - sys.inner_radius.num
            * sys.outer_radius.den) * sys.rayleigh_scale_depth.num <= i64::MAX,
        i64::MIN <= sys.g.num * sys.g.num <= i64::MAX,
        0 < sys.g.den * sys.g.den <= i64::MAX,
{
    crate::matrix::lemma_mul_magnitude_bound(
        h.num as int, h.num as int, CAMERA_HEIGHT_BOUND as int, CAMERA_HEIGHT_BOUND as int);
    crate::matrix::lemma_mul_magnitude_bound(
        h.den as int, h.den as int, CAMERA_HEIGHT_BOUND as int, CAMERA_HEIGHT_BOUND as int);
    crate::rational::lemma_pos_mul_pos(h.den as int, h.den as int);
    crate::matrix::lemma_mul_magnitude_bound(
        sys.outer_radius.num as int, sys.outer_radius.num as int, SKY_PARAM_BOUND as int,
        SKY_PARAM_BOUND as int);
    crate::matrix::lemma_mul_magnitude_bound(
        sys.outer_radius.den as int, sys.outer_radius.den as int, SKY_PARAM_BOUND as int,
        SKY_PARAM_BOUND as int);
    crate::rational::lemma_pos_mul_pos(sys.outer_radius.den as int, sys.outer_radius.den as int);
    crate::matrix::lemma_mul_magnitude_bound(
        sys.kr.num as int, sys.esun.num as int, SKY_PARAM_BOUND as int, SKY_PARAM_BOUND as int);
    crate::matrix::lemma_mul_magnitude_bound(
        sys.kr.den as int, sys.esun.den as int, SKY_PARAM_BOUND as int, SKY_PARAM_BOUND as int);
    crate::rational::lemma_pos_mul_pos(sys.kr.den as int, sys.esun.den as int);
    crate::matrix::lemma_mul_magnitude_bound(
        sys.km.num as int, sys.esun.num as int, SKY_PARAM_BOUND as int, SKY_PARAM_BOUND as int);
    crate::matrix::lemma_mul_magnitude_bound(
        sys.km.den as int, sys.esun.den as int, SKY_PARAM_BOUND as int, SKY_PARAM_BOUND as int);
    crate::rational::lemma_pos_mul_pos(sys.km.den as int, sys.esun.den as int);
    crate::matrix::lemma_mul_magnitude_bound(
        sys.kr.num as int, FOUR_PI_NUM as int, SKY_PARAM_BOUND as int, FOUR_PI_NUM as int);
    crate::matrix::lemma_mul_magnitude_bound(
        sys.kr.den as int, FOUR_PI_DEN as int, SKY_PARAM_BOUND as int, FOUR_PI_DEN as int);
    crate::rational::lemma_pos_mul_pos(sys.kr.den as int, FOUR_PI_DEN as int);
    crate::matrix::lemma_mul_magnitude_bound(
        sys.km.num as int, FOUR_PI_NUM as int, SKY_PARAM_BOUND as int, FOUR_PI_NUM as int);
    crate::matrix::lemma_mul_magnitude_bound(
        sys.km.den as int, FOUR_PI_DEN as int, SKY_PARAM_BOUND as int, FOUR_PI_DEN as int);
    crate::rational::lemma_pos_mul_pos(sys.km.den as int, FOUR_PI_DEN as int);
    crate::matrix::lemma_mul_magnitude_bound(
        sys.outer_radius.den as int, sys.inner_radius.den as int, SKY_PARAM_BOUND as int,
        SKY_PARAM_BOUND as int);
    crate::rational::lemma_pos_mul_pos(sys.outer_radius.den as int, sys.inner_radius.den as int);
    crate::matrix::lemma_mul_magnitude_bound(
        sys.outer_radius.num as int, sys.inner_radius.den as int, SKY_PARAM_BOUND as int,
        SKY_PARAM_BOUND as int);
    crate::matrix::lemma_mul_magnitude_bound(
        sys.inner_radius.num as int, sys.outer_radius.den as int, SKY_PARAM_BOUND as int,
        SKY_PARAM_BOUND as int);
    crate::matrix::lemma_mul_magnitude_bound(
        (sys.outer_radius.den * sys.inner_radius.den) as int,
        sys.rayleigh_scale_depth.den as int,
        (SKY_PARAM_BOUND * SKY_PARAM_BOUND) as int, SKY_PARAM_BOUND as int);
    crate::rational::lemma_pos_mul_pos(
        (sys.outer_radius.den * sys.inner_radius.den) as int,
        sys.rayleigh_scale_depth.den as int);
    crate::matrix::lemma_mul_magnitude_bound(
        (sys.outer_radius.num * sys.inner_radius.den - sys.inner_radius.num
            * sys.outer_radius.den) as int,
        sys.rayleigh_scale_depth.num as int,
        (2 * (SKY_PARAM_BOUND * SKY_PARAM_BOUND)) as int, SKY_PARAM_BOUND as int);
    crate::rational::lemma_pos_mul_pos(
        (sys.outer_radius.num * sys.inner_radius.den - sys.inner_radius.num
            * sys.outer_radius.den) as int,
        sys.rayleigh_scale_depth.num as int);
    crate::matrix::lemma_mul_magnitude_bound(
        sys.g.num as int, sys.g.num as int, SKY_PARAM_BOUND as int, SKY_PARAM_BOUND as int);
    crate::matrix::lemma_mul_magnitude_bound(
        sys.g.den as int, sys.g.den as int, SKY_PARAM_BOUND as int, SKY_PARAM_BOUND as int);
    crate::rational::lemma_pos_mul_pos(sys.g.den as int, sys.g.den as int);
}

/// The sky uniforms stay finite at the horizon.
///
/// With the camera height exactly at the inner radius — the camera on
/// the planet surface, looking along the horizon — every denominator
/// that `derive_uniforms` divides by is still positive: the only
/// difference that matters is `outer - inner`, which the startup
/// invariant `outer > inner` keeps away from zero; no uniform depends
/// on `camera_height - inner_radius`.
pub proof fn lemma_sky_uniforms_finite_at_horizon(sys: SkyRenderSystem, h: Rat)
    requires
        sys.wf(),
        h.wf(),
        h.bounded(CAMERA_HEIGHT_BOUND as int),
        h.eqv(sys.inner_radius),
    ensures
        sys.outer_radius.num * sys.inner_radius.den - sys.inner_radius.num
            * sys.outer_radius.den > 0,
        atmosphere_scale(sys.inner_radius, sys.outer_radius).den > 0,
        h.den * h.den > 0,
        inv_fourth_power(sys.wavelength_r).den > 0,
        inv_fourth_power(sys.wavelength_g).den > 0,
        inv_fourth_power(sys.wavelength_b).den > 0,
{
    lemma_sky_uniform_products(sys, h);
    crate::matrix::lemma_mul_magnitude_bound(
        sys.wavelength_r.num as int, sys.wavelength_r.num as int, WAVELENGTH_BOUND as int,
        WAVELENGTH_BOUND as int);
    crate::matrix::lemma_mul_magnitude_bound(
        sys.wavelength_g.num as int, sys.wavelength_g.num as int, WAVELENGTH_BOUND as int,
        WAVELENGTH_BOUND as int);
    crate::matrix::lemma_mul_magnitude_bound(
        sys.wavelength_b.num as int, sys.wavelength_b.num as int, WAVELENGTH_BOUND as int,
        WAVELENGTH_BOUND as int);
    crate::matrix::lemma_mul_magnitude_bound(
        (sys.wavelength_r.num * sys.wavelength_r.num) as int,
        (sys.wavelength_r.num * sys.wavelength_r.num) as int, 16777216, 16777216);
    crate::matrix::lemma_mul_magnitude_bound(
        (sys.wavelength_g.num * sys.wavelength_g.num) as int,
        (sys.wavelength_g.num * sys.wavelength_g.num) as int, 16777216, 16777216);
    crate::matrix::lemma_mul_magnitude_bound(
        (sys.wavelength_b.num * sys.wavelength_b.num) as int,
        (sys.wavelength_b.num * sys.wavelength_b.num) as int, 16777216, 16777216);
    crate::rational::lemma_pos_mul_pos(
        sys.wavelength_r.num as int, sys.wavelength_r.num as int);
    crate::rational::lemma_pos_mul_pos(
        (sys.wavelength_r.num * sys.wavelength_r.num) as int,
        (sys.wavelength_r.num * sys.wavelength_r.num) as int);
    crate::rational::lemma_pos_mul_pos(
        sys.wavelength_g.num as int, sys.wavelength_g.num as int);
    crate::rational::lemma_pos_mul_pos(
        (sys.wavelength_g.num * sys.wavelength_g.num) as int,
        (sys.wavelength_g.num * sys.wavelength_g.num) as int);
    crate::rational::lemma_pos_mul_pos(
        sys.wavelength_b.num as int, sys.wavelength_b.num as int);
    crate::rational::lemma_pos_mul_pos(
        (sys.wavelength_b.num * sys.wavelength_b.num) as int,
        (sys.wavelength_b.num * sys.wavelength_b.num) as int);
}

} // verus!
