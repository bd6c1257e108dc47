use rendercore::rational::Rat;
use rendercore::sky_render_system::{SkyConfigError, SkyRenderSystem};

#[test]
fn standard_configuration_is_valid() {
    let sys = SkyRenderSystem::standard();
    assert_eq!(sys.inner_radius.num, 1);
    assert_eq!(sys.outer_radius.num, 41);
    assert_eq!(sys.outer_radius.den, 4);
    // Revalidating the shipped constants succeeds.
    let again = SkyRenderSystem::new(
        sys.wavelength_r,
        sys.wavelength_g,
        sys.wavelength_b,
        sys.inner_radius,
        sys.outer_radius,
        sys.kr,
        sys.km,
        sys.esun,
        sys.g,
        sys.rayleigh_scale_depth,
    );
    assert!(again.is_ok());
}

#[test]
fn configuration_rejects_radii_out_of_order() {
    let sys = SkyRenderSystem::standard();
    let r = SkyRenderSystem::new(
        sys.wavelength_r,
        sys.wavelength_g,
        sys.wavelength_b,
        Rat::new(41, 4),  // inner
        Rat::new(1, 1),   // outer <= inner
        sys.kr,
        sys.km,
        sys.esun,
        sys.g,
        sys.rayleigh_scale_depth,
    );
    assert_eq!(r.unwrap_err(), SkyConfigError::RadiiOutOfOrder);
}

#[test]
fn configuration_rejects_bad_parameters() {
    let sys = SkyRenderSystem::standard();
    // A non-positive wavelength cannot be inverted to 1 / lambda^4.
    let r = SkyRenderSystem::new(
        Rat::new(0, 20),
        sys.wavelength_g,
        sys.wavelength_b,
        sys.inner_radius,
        sys.outer_radius,
        sys.kr,
        sys.km,
        sys.esun,
        sys.g,
        sys.rayleigh_scale_depth,
    );
    assert_eq!(r.unwrap_err(), SkyConfigError::ParameterOutOfRange);
    // A non-positive Rayleigh scale depth cannot divide the scale.
    let r2 = SkyRenderSystem::new(
        sys.wavelength_r,
        sys.wavelength_g,
        sys.wavelength_b,
        sys.inner_radius,
        sys.outer_radius,
        sys.kr,
        sys.km,
        sys.esun,
        sys.g,
        Rat::new(0, 4),
    );
    assert_eq!(r2.unwrap_err(), SkyConfigError::ParameterOutOfRange);
}

#[test]
fn sky_uniforms_on_the_horizon_stay_finite() {
    // Camera height exactly at the inner radius: the startup invariant
    // outer > inner keeps every denominator positive.
    let sys = SkyRenderSystem::standard();
    let u = sys.derive_uniforms(Rat::new(1, 1));
    assert!(u.inv_wavelength4_r.den > 0);
    assert!(u.inv_wavelength4_g.den > 0);
    assert!(u.inv_wavelength4_b.den > 0);
    assert!(u.camera_height2.den > 0);
    assert!(u.outer_radius2.den > 0);
    assert!(u.kr_esun.den > 0);
    assert!(u.km_esun.den > 0);
    assert!(u.kr4pi.den > 0);
    assert!(u.km4pi.den > 0);
    assert!(u.scale.den > 0);
    assert!(u.scale_depth.den > 0);
    assert!(u.scale_over_scale_depth.den > 0);
    assert!(u.g2.den > 0);
}

#[test]
fn sky_uniform_values_are_exact() {
    let sys = SkyRenderSystem::standard();
    let u = sys.derive_uniforms(Rat::new(1, 1));
    // 1 / 0.65^4 == 160000 / 28561.
    assert_eq!(u.inv_wavelength4_r.num, 160000);
    assert_eq!(u.inv_wavelength4_r.den, 28561);
    // scale == 1 / (10.25 - 1) == 4 / 37.
    assert_eq!(u.scale.num, 4);
    assert_eq!(u.scale.den, 37);
    // scale / scaleDepth == (4/37) / (1/4) == 16 / 37.
    assert_eq!(u.scale_over_scale_depth.num, 16);
    assert_eq!(u.scale_over_scale_depth.den, 37);
    // Kr * 4 pi with the 32-bit float pi: (1/400) * 13176795/1048576.
    assert_eq!(u.kr4pi.num, 13176795);
    assert_eq!(u.kr4pi.den, 419430400);
    // g^2 == 0.9801.
    assert_eq!(u.g2.num, 9801);
    assert_eq!(u.g2.den, 10000);
    // Camera height passes through; its square is exact.
    assert_eq!(u.camera_height.num, 1);
    assert_eq!(u.camera_height2.num, 1);
    assert_eq!(u.camera_height2.den, 1);
    // outerRadius^2 == 1681 / 16.
    assert_eq!(u.outer_radius2.num, 1681);
    assert_eq!(u.outer_radius2.den, 16);
    // KrESun == 20/400, KmESun == 20/1000, exactly as represented.
    assert_eq!(u.kr_esun.num, 20);
    assert_eq!(u.kr_esun.den, 400);
    assert_eq!(u.km_esun.num, 20);
    assert_eq!(u.km_esun.den, 1000);
}

#[test]
fn sky_uniforms_are_deterministic() {
    let sys = SkyRenderSystem::standard();
    let h = Rat::new(207, 100);
    let a = sys.derive_uniforms(h);
    let b = sys.derive_uniforms(h);
    assert_eq!(a.camera_height2.num, b.camera_height2.num);
    assert_eq!(a.camera_height2.den, b.camera_height2.den);
    assert_eq!(a.scale.num, b.scale.num);
    assert_eq!(a.scale.den, b.scale.den);
    assert_eq!(a.kr4pi.num, b.kr4pi.num);
    assert_eq!(a.g2.num, b.g2.num);
}
