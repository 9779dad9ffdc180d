use lambert::{
    c, default_eps, eccentricity, meridian_longitude, n, ntf_to_wgs84, semi_major_axis, xs, ys,
    Ellipsoid, Exact, Meridian, Translation, Zone,
};

fn dec(num: i64, den: u64) -> Exact {
    Exact { pi_power: 0, num, den }
}

#[test]
fn lambert_i_constants() {
    assert_eq!(n(Zone::LambertI), dec(7604059656, 10000000000));
    assert_eq!(c(Zone::LambertI), dec(1160379698, 100));
    assert_eq!(xs(Zone::LambertI), dec(600000, 1));
    assert_eq!(ys(Zone::LambertI), dec(5657616674, 1000));
}

#[test]
fn lambert_ii_iii_constants() {
    assert_eq!(n(Zone::LambertII), dec(7289686274, 10000000000));
    assert_eq!(c(Zone::LambertII), dec(1174579339, 100));
    assert_eq!(ys(Zone::LambertII), dec(6199695768, 1000));
    assert_eq!(n(Zone::LambertIII), dec(6959127966, 10000000000));
    assert_eq!(c(Zone::LambertIII), dec(1194799252, 100));
    assert_eq!(xs(Zone::LambertIII), dec(600000, 1));
    assert_eq!(ys(Zone::LambertIII), dec(6791905085, 1000));
}

#[test]
fn lambert_iv_constants() {
    assert_eq!(n(Zone::LambertIV), dec(6712679322, 10000000000));
    assert_eq!(c(Zone::LambertIV), dec(1213628199, 100));
    assert_eq!(xs(Zone::LambertIV), dec(234358, 1000));
    assert_eq!(ys(Zone::LambertIV), dec(7239161542, 1000));
}

#[test]
fn lambert_iie_shares_cone_with_lambert_ii() {
    assert_eq!(n(Zone::LambertIIe), n(Zone::LambertII));
    assert_eq!(c(Zone::LambertIIe), c(Zone::LambertII));
    assert_eq!(xs(Zone::LambertIIe), xs(Zone::LambertII));
    assert_eq!(ys(Zone::LambertIIe), dec(8199695768, 1000));
}

#[test]
fn lambert93_constants() {
    assert_eq!(n(Zone::Lambert93), dec(7256077650, 10000000000));
    assert_eq!(c(Zone::Lambert93), dec(11754255426, 1000));
    assert_eq!(xs(Zone::Lambert93), dec(700000, 1));
    assert_eq!(ys(Zone::Lambert93), dec(12655612050, 1000));
}

#[test]
fn ellipsoid_constants() {
    assert_eq!(semi_major_axis(Ellipsoid::ClarkeIgn), dec(63782492, 10));
    assert_eq!(semi_major_axis(Ellipsoid::Wgs84), dec(6378137, 1));
    assert_eq!(eccentricity(Ellipsoid::ClarkeIgn), dec(8248325676, 100000000000));
    assert_eq!(eccentricity(Ellipsoid::Wgs84), dec(8181919106, 100000000000));
}

#[test]
fn meridians_and_shift() {
    assert_eq!(meridian_longitude(Meridian::Paris).num, 0);
    assert_eq!(meridian_longitude(Meridian::Greenwich), dec(4079234433, 100000000000));
    assert_eq!(meridian_longitude(Meridian::Iers), Exact { pi_power: 1, num: 3, den: 180 });
    assert_eq!(ntf_to_wgs84(), Translation { dx: -168, dy: -60, dz: 320 });
    assert_eq!(default_eps(), dec(1, 1000000000000000));
}
