use gravity_sim::scene::{scene_plan, Body, SceneStep, ShipPlan};

#[test]
fn scene_one_sun_and_earth() {
    let plan = scene_plan(1);
    assert_eq!(plan.title, "Sun, Earth");
    assert_eq!(
        plan.steps,
        vec![SceneStep::AtPlace(Body::Sun), SceneStep::InOrbit(Body::Earth, 0)]
    );
    assert_eq!(plan.seconds_per_orbit, None);
    assert!(plan.run_mode);
    assert_eq!(plan.ship, None);
}

#[test]
fn scene_two_double_star() {
    let plan = scene_plan(2);
    assert_eq!(plan.title, "double star");
    assert_eq!(
        plan.steps,
        vec![SceneStep::AtPlace(Body::Sun), SceneStep::InOrbit(Body::SunTwin, 0)]
    );
    assert!(plan.run_mode);
}

#[test]
fn scene_three_is_slower() {
    let plan = scene_plan(3);
    assert_eq!(plan.title, "Earth & Luna & Ship");
    assert_eq!(
        plan.steps,
        vec![SceneStep::AtPlace(Body::Earth), SceneStep::InOrbit(Body::Luna, 0)]
    );
    assert_eq!(plan.seconds_per_orbit, Some(60));
    assert_eq!(plan.ship, None);
}

#[test]
fn scene_four_moon_orbits_earth() {
    let plan = scene_plan(4);
    assert_eq!(plan.title, "Sun, Earth & Luna +");
    assert_eq!(
        plan.steps,
        vec![
            SceneStep::AtPlace(Body::Sun),
            SceneStep::InOrbit(Body::Earth, 0),
            SceneStep::InOrbit(Body::Luna, 1),
            SceneStep::InOrbit(Body::Comet, 0),
        ]
    );
}

#[test]
fn scene_five_starts_in_planning() {
    let plan = scene_plan(5);
    assert_eq!(plan.title, "Sun, Earth+Earth");
    assert_eq!(plan.steps.len(), 3);
    assert_eq!(plan.steps[2], SceneStep::InOrbit(Body::HeavyPlanetEccentric, 0));
    assert!(!plan.run_mode);
}

#[test]
fn other_numbers_are_test_scene_with_ship() {
    for scene in [0i16, 6, -1, i16::MAX] {
        let plan = scene_plan(scene);
        assert_eq!(plan.title, "Test");
        assert_eq!(
            plan.steps,
            vec![SceneStep::AtPlace(Body::Earth), SceneStep::InOrbit(Body::LunaClose, 0)]
        );
        assert!(!plan.run_mode);
        assert_eq!(
            plan.ship,
            Some(ShipPlan {
                body: Body::ShipClose,
                orbits: 0,
                burn_start_millis: 339,
                burn_time_millis: 1480,
            })
        );
    }
}

#[test]
fn every_scene_orbits_earlier_bodies() {
    for scene in -2i16..8 {
        let plan = scene_plan(scene);
        assert!(matches!(plan.steps[0], SceneStep::AtPlace(_)));
        for (k, step) in plan.steps.iter().enumerate() {
            if let SceneStep::InOrbit(_, orbits) = step {
                assert!(*orbits < k);
            }
        }
        if let Some(ship) = plan.ship {
            assert!(ship.orbits < plan.steps.len());
        }
    }
}
