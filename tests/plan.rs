use lambert::{
    projection_plan, AngleUnit, Ellipsoid, Meridian, Solver, Stage, Step, Translation, Zone,
    MAX_ITERATIONS,
};

const LEGACY: [Zone; 5] =
    [Zone::LambertI, Zone::LambertII, Zone::LambertIII, Zone::LambertIV, Zone::LambertIIe];

#[test]
fn lambert93_is_projected_directly_on_wgs84() {
    let p = projection_plan(AngleUnit::Meter, Zone::Lambert93);
    assert_eq!(
        p.stages,
        vec![Stage::PlaneToGeographic {
            zone: Zone::Lambert93,
            meridian: Meridian::Iers,
            ellipsoid: Ellipsoid::Wgs84
        }]
    );
    assert_eq!(p.unit, AngleUnit::Radian);
}

#[test]
fn legacy_zones_go_through_the_datum_shift() {
    for zone in LEGACY {
        let p = projection_plan(AngleUnit::Meter, zone);
        assert_eq!(
            p.stages,
            vec![
                Stage::PlaneToGeographic {
                    zone,
                    meridian: Meridian::Paris,
                    ellipsoid: Ellipsoid::ClarkeIgn
                },
                Stage::GeographicToCartesian { ellipsoid: Ellipsoid::ClarkeIgn },
                Stage::Translate { shift: Translation { dx: -168, dy: -60, dz: 320 } },
                Stage::CartesianToGeographic {
                    meridian: Meridian::Greenwich,
                    ellipsoid: Ellipsoid::Wgs84
                },
            ]
        );
        assert_eq!(p.unit, AngleUnit::Radian);
    }
}

#[test]
fn only_legacy_zones_translate() {
    let translates = |z: Zone| {
        projection_plan(AngleUnit::Meter, z)
            .stages
            .iter()
            .any(|s| matches!(s, Stage::Translate { .. }))
    };
    assert!(!translates(Zone::Lambert93));
    for zone in LEGACY {
        assert!(translates(zone));
    }
}

#[test]
fn geographic_points_are_left_alone() {
    for unit in [AngleUnit::Radian, AngleUnit::Degree, AngleUnit::Grad] {
        for zone in [Zone::Lambert93, Zone::LambertI, Zone::LambertIIe] {
            let p = projection_plan(unit, zone);
            assert!(p.stages.is_empty());
            assert_eq!(p.unit, unit);
        }
    }
}

#[test]
fn plan_is_the_same_on_every_call() {
    for zone in [Zone::Lambert93, Zone::LambertI, Zone::LambertIIe] {
        let a = projection_plan(AngleUnit::Meter, zone);
        let b = projection_plan(AngleUnit::Meter, zone);
        assert_eq!(a.stages, b.stages);
        assert_eq!(a.unit, b.unit);
    }
}

#[test]
fn solver_stops_on_convergence() {
    let mut s = Solver::new();
    assert_eq!(s.step(false), Step::Continue);
    assert_eq!(s.step(false), Step::Continue);
    assert_eq!(s.iterations, 2);
    assert_eq!(s.step(true), Step::Converged);
    assert_eq!(s.iterations, 2);
}

#[test]
fn solver_converges_at_first_test() {
    let mut s = Solver::new();
    assert_eq!(s.step(true), Step::Converged);
    assert_eq!(s.iterations, 0);
}

#[test]
fn solver_gives_up_at_the_cap() {
    let mut s = Solver::new();
    let mut tests: u32 = 0;
    loop {
        tests += 1;
        match s.step(false) {
            Step::Continue => {}
            Step::Diverged => break,
            Step::Converged => panic!("no test converged"),
        }
        assert!(tests <= MAX_ITERATIONS);
    }
    assert_eq!(tests, MAX_ITERATIONS + 1);
    assert_eq!(s.iterations, MAX_ITERATIONS);
    assert_eq!(MAX_ITERATIONS, 100);
}
