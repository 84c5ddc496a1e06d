use runner_core::lane::try_jump;
use runner_core::probe::CastHit;
use runner_core::probe::ColliderShape;
use runner_core::probe::ContactState;
use runner_core::probe::GroundProbe;
use runner_core::probe::Grounded;
use runner_core::ConfigError;

fn player_probe() -> GroundProbe {
    // A 0.5-radius, 2.0-height capsule in micro-units, probed with a
    // 0.02 skin, 0.02 travel tolerance and a 0.7 slope threshold.
    let capsule = ColliderShape::Capsule {
        radius: 500_000,
        half_height: 1_000_000,
    };
    GroundProbe::new(&capsule, 20_000, 20_000, 700).unwrap()
}

fn flat_hit() -> Option<CastHit> {
    Some(CastHit {
        distance: 5_000,
        normal_up_milli: 1_000,
    })
}

#[test]
fn probe_rejects_a_sphere() {
    let sphere = ColliderShape::Sphere { radius: 500_000 };
    assert_eq!(
        GroundProbe::new(&sphere, 20_000, 20_000, 700),
        Err(ConfigError::NonCapsuleCollider)
    );
}

#[test]
fn probe_rejects_a_cuboid() {
    let cuboid = ColliderShape::Cuboid {
        half_x: 10,
        half_y: 10,
        half_z: 10,
    };
    assert_eq!(
        GroundProbe::new(&cuboid, 20_000, 20_000, 700),
        Err(ConfigError::NonCapsuleCollider)
    );
}

#[test]
fn probe_derives_the_cast_from_the_capsule() {
    let probe = player_probe();
    // Cast sphere: nine tenths of the capsule radius.
    assert_eq!(probe.probe_radius, 450_000);
    // Cast origin: half height + radius below the body origin, pulled back
    // up by the skin.
    assert_eq!(probe.origin_drop, 1_480_000);
    assert_eq!(probe.max_distance, 20_000);
    assert_eq!(probe.slope_threshold_milli, 700);
}

#[test]
fn flat_contact_accumulates_dwell() {
    let probe = player_probe();
    let mut grounded = Grounded::new();
    for i in 1..=4u64 {
        let contact = probe.evaluate(&mut grounded, flat_hit(), 50_000);
        assert_eq!(contact, ContactState::Grounded);
        assert_eq!(grounded.time_since_grounded, i * 50_000);
    }
}

#[test]
fn steep_contact_counts_as_airborne() {
    let probe = player_probe();
    let mut grounded = Grounded::new();
    probe.evaluate(&mut grounded, flat_hit(), 200_000);
    // A wall-like surface: vertical normal component 0.6 fails the 0.7
    // slope filter and resets the dwell time.
    let steep = Some(CastHit {
        distance: 5_000,
        normal_up_milli: 600,
    });
    let contact = probe.evaluate(&mut grounded, steep, 50_000);
    assert_eq!(contact, ContactState::Airborne);
    assert_eq!(grounded.time_since_grounded, 0);
}

#[test]
fn missing_contact_resets_dwell() {
    let probe = player_probe();
    let mut grounded = Grounded::new();
    probe.evaluate(&mut grounded, flat_hit(), 200_000);
    let contact = probe.evaluate(&mut grounded, None, 50_000);
    assert_eq!(contact, ContactState::Airborne);
    assert_eq!(grounded.time_since_grounded, 0);
}

#[test]
fn grounded_hysteresis_gates_the_jump() {
    let probe = player_probe();
    let mut grounded = Grounded::new();
    // Grounded for 0.20 s: the jump passes the 0.15 s grace gate, and a
    // single command yields a single impulse.
    for _ in 0..4 {
        probe.evaluate(&mut grounded, flat_hit(), 50_000);
    }
    assert_eq!(grounded.time_since_grounded, 200_000);
    let impulse = try_jump(&grounded, 150_000, 6_000_000, 76);
    assert_eq!(impulse, Some(456_000_000));

    // Grounded for only 0.05 s after losing contact: no impulse.
    probe.evaluate(&mut grounded, None, 50_000);
    probe.evaluate(&mut grounded, flat_hit(), 50_000);
    assert_eq!(grounded.time_since_grounded, 50_000);
    assert_eq!(try_jump(&grounded, 150_000, 6_000_000, 76), None);
}
