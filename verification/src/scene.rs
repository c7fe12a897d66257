//! The table of scenes: which bodies each scene places, which of them orbit
//! which, how fast the simulation runs, and where the ship starts.
//!
//! A scene is described by a plan of plain values; the numbers of each body
//! (diameter, mass, orbit radius, eccentricity, colour) belong to the program
//! that carries the plan out.

use vstd::prelude::*;

verus! {

/// The bodies that the scenes place.
#[derive(Clone, Copy, Debug, PartialEq, Eq, Structural)]
pub enum Body {
    /// The sun, a fixed star.
    Sun,
    /// A second sun that orbits the first at half an astronomical unit.
    SunTwin,
    /// The earth, at one astronomical unit from what it orbits.
    Earth,
    /// A planet of a hundredth of a sun's mass at 0.1 AU on a circular orbit.
    HeavyPlanet,
    /// A planet of a hundredth of a sun's mass at 0.15 AU on an eccentric orbit.
    HeavyPlanetEccentric,
    /// The moon, at its real distance from the earth.
    Luna,
    /// The moon at a tenth of its real distance.
    LunaClose,
    /// A comet on an eccentric orbit at 1.3 AU.
    Comet,
    /// The ship at a tenth of its planned orbit radius.
    ShipClose,
}

/// One step of building a scene.
#[derive(Clone, Copy, Debug, PartialEq, Eq, Structural)]
pub enum SceneStep {
    /// Place the body where it stands, not moving.
    AtPlace(Body),
    /// Place the body in orbit around the body added by the step with the
    /// given index.
    InOrbit(Body, usize),
}

/// Where the ship of a scene starts and when its engine burns.
#[derive(Clone, Copy, Debug, PartialEq, Eq, Structural)]
pub struct ShipPlan {
    /// The body that stands for the ship.
    pub body: Body,
    /// The index of the step whose body the ship orbits.
    pub orbits: usize,
    /// Start of the burn, in thousandths of a user second.
    pub burn_start_millis: u32,
    /// Length of the burn, in thousandths of a user second.
    pub burn_time_millis: u32,
}

/// The plan of a scene.
#[derive(Debug)]
pub struct ScenePlan {
    /// The text shown in the corner of the screen.
    pub title: &'static str,
    /// The bodies, in the order in which they are added.
    pub steps: Vec<SceneStep>,
    /// Simulated orbits take this many user seconds, where the scene sets it.
    pub seconds_per_orbit: Option<u32>,
    /// Whether the simulation starts running (else it starts in planning mode).
    pub run_mode: bool,
    /// The ship, where the scene has one.
    pub ship: Option<ShipPlan>,
}

/// The steps of scene `scene`; every number not listed is the test scene.
pub open spec fn spec_scene_steps(scene: i16) -> Seq<SceneStep> {
    if scene == 1 {
        seq![SceneStep::AtPlace(Body::Sun), SceneStep::InOrbit(Body::Earth, 0)]
    } else if scene == 2 {
        seq![SceneStep::AtPlace(Body::Sun), SceneStep::InOrbit(Body::SunTwin, 0)]
    } else if scene == 3 {
        seq![SceneStep::AtPlace(Body::Earth), SceneStep::InOrbit(Body::Luna, 0)]
    } else if scene == 4 {
        seq![
            SceneStep::AtPlace(Body::Sun),
            SceneStep::InOrbit(Body::Earth, 0),
            SceneStep::InOrbit(Body::Luna, 1),
            SceneStep::InOrbit(Body::Comet, 0),
        ]
    } else if scene == 5 {
        seq![
            SceneStep::AtPlace(Body::Sun),
            SceneStep::InOrbit(Body::HeavyPlanet, 0),
            SceneStep::InOrbit(Body::HeavyPlanetEccentric, 0),
        ]
    } else {
        seq![SceneStep::AtPlace(Body::Earth), SceneStep::InOrbit(Body::LunaClose, 0)]
    }
}

/// The title of scene `scene`.
pub open spec fn spec_scene_title(scene: i16) -> Seq<char> {
    if scene == 1 {
        "Sun, Earth"@
    } else if scene == 2 {
        "double star"@
    } else if scene == 3 {
        "Earth & Luna & Ship"@
    } else if scene == 4 {
        "Sun, Earth & Luna +"@
    } else if scene == 5 {
        "Sun, Earth+Earth"@
    } else {
        "Test"@
    }
}

/// The pace that scene `scene` sets, where it sets one.
pub open spec fn spec_scene_seconds_per_orbit(scene: i16) -> Option<u32> {
    if scene == 3 {
        Some(60)
    } else {
        None
    }
}

/// Whether scene `scene` starts running.
pub open spec fn spec_scene_run_mode(scene: i16) -> bool {
    !(scene == 5 || !(1 <= scene <= 5))
}

/// The ship of scene `scene`, where it has one.
pub open spec fn spec_scene_ship(scene: i16) -> Option<ShipPlan> {
    if 1 <= scene <= 5 {
        None
    } else {
        Some(
            ShipPlan {
                body: Body::ShipClose,
                orbits: 0,
                burn_start_millis: 339,
                burn_time_millis: 1480,
            },
        )
    }
}

/// A plan can be carried out: its first step places a body where it stands,
/// every body in orbit orbits a body added by an earlier step, and the ship
/// orbits a body of the plan.
pub open spec fn plan_well_formed(steps: Seq<SceneStep>, ship: Option<ShipPlan>) -> bool {
    &&& steps.len() > 0
    &&& steps[0] is AtPlace
    &&& forall|k: int|
        0 <= k < steps.len() ==> match #[trigger] steps[k] {
            SceneStep::InOrbit(_, orbits) => orbits < k,
            SceneStep::AtPlace(_) => true,
        }
    &&& ship matches Some(s) ==> s.orbits < steps.len()
}

/// The plan of scene `scene`: scenes 1 to 5 are the sun and the earth, a
/// double star, the earth and the moon, the sun with the earth, the moon and a
/// comet, and the sun with two heavy planets; every other number is the test
/// scene with the earth, a close moon and the ship.
pub fn scene_plan(scene: i16) -> (plan: ScenePlan)
    ensures
        plan.title@ == spec_scene_title(scene),
        plan.steps@ == spec_scene_steps(scene),
        plan.seconds_per_orbit == spec_scene_seconds_per_orbit(scene),
        plan.run_mode == spec_scene_run_mode(scene),
        plan.ship == spec_scene_ship(scene),
{
    match scene {
        1 => ScenePlan {
            title: "Sun, Earth",
            steps: vec![SceneStep::AtPlace(Body::Sun), SceneStep::InOrbit(Body::Earth, 0)],
            seconds_per_orbit: None,
            run_mode: true,
            ship: None,
        },
        2 => ScenePlan {
            title: "double star",
            steps: vec![SceneStep::AtPlace(Body::Sun), SceneStep::InOrbit(Body::SunTwin, 0)],
            seconds_per_orbit: None,
            run_mode: true,
            ship: None,
        },
        3 => ScenePlan {
            title: "Earth & Luna & Ship",
            steps: vec![SceneStep::AtPlace(Body::Earth), SceneStep::InOrbit(Body::Luna, 0)],
            seconds_per_orbit: Some(60),
            run_mode: true,
            ship: None,
        },
        4 => ScenePlan {
            title: "Sun, Earth & Luna +",
            steps: vec![
                SceneStep::AtPlace(Body::Sun),
                SceneStep::InOrbit(Body::Earth, 0),
                SceneStep::InOrbit(Body::Luna, 1),
                SceneStep::InOrbit(Body::Comet, 0),
            ],
            seconds_per_orbit: None,
            run_mode: true,
            ship: None,
        },
        5 => ScenePlan {
            title: "Sun, Earth+Earth",
            steps: vec![
                SceneStep::AtPlace(Body::Sun),
                SceneStep::InOrbit(Body::HeavyPlanet, 0),
                SceneStep::InOrbit(Body::HeavyPlanetEccentric, 0),
            ],
            seconds_per_orbit: None,
            run_mode: false,
            ship: None,
        },
        _ => ScenePlan {
            title: "Test",
            steps: vec![SceneStep::AtPlace(Body::Earth), SceneStep::InOrbit(Body::LunaClose, 0)],
            seconds_per_orbit: None,
            run_mode: false,
            ship: Some(
                ShipPlan {
                    body: Body::ShipClose,
                    orbits: 0,
                    burn_start_millis: 339,
                    burn_time_millis: 1480,
                },
            ),
        },
    }
}

/// Every scene can be built: each body in orbit orbits a body placed before
/// it, and the ship orbits a body of the scene.
pub proof fn lemma_every_scene_well_formed(scene: i16)
    ensures
        plan_well_formed(spec_scene_steps(scene), spec_scene_ship(scene)),
{
    let steps = spec_scene_steps(scene);
    assert forall|k: int| 0 <= k < steps.len() implies match #[trigger] steps[k] {
        SceneStep::InOrbit(_, orbits) => orbits < k,
        SceneStep::AtPlace(_) => true,
    } by {}
}


/// The body that a step places.
pub open spec fn step_body(step: SceneStep) -> Body {
    match step {
        SceneStep::AtPlace(body) => body,
        SceneStep::InOrbit(body, _) => body,
    }
}

/// Whether one of `steps` places `body`.
pub open spec fn places(steps: Seq<SceneStep>, body: Body) -> bool {
    exists|k: int| 0 <= k < steps.len() && #[trigger] step_body(steps[k]) == body
}

/// Whether `body` is a moon.
pub open spec fn is_moon(body: Body) -> bool {
    body == Body::Luna || body == Body::LunaClose
}

/// The place of a body in the order in which the scenes add bodies: suns
/// first, then planets, then moons, then comets.
pub open spec fn body_rank(body: Body) -> int {
    match body {
        Body::Sun => 0,
        Body::SunTwin => 1,
        Body::Earth => 2,
        Body::HeavyPlanet => 3,
        Body::HeavyPlanetEccentric => 4,
        Body::Luna => 5,
        Body::LunaClose => 6,
        Body::Comet => 7,
        Body::ShipClose => 8,
    }
}

/// Whether the scene number is one of the five named scenes.
pub open spec fn is_named_scene(scene: i16) -> bool {
    1 <= scene <= 5
}

/// Only scene 5 and the test scene start in planning mode; scenes 1 to 4
/// start running.
pub proof fn lemma_scene_run_mode(scene: i16)
    ensures
        spec_scene_run_mode(scene) <==> (1 <= scene <= 4),
{
}

/// Only scene 3 sets its own pace, and it makes an orbit take 60 seconds.
pub proof fn lemma_scene_pace(scene: i16)
    ensures
        spec_scene_seconds_per_orbit(scene) is Some <==> scene == 3,
        spec_scene_seconds_per_orbit(scene) is Some ==> spec_scene_seconds_per_orbit(scene)->0
            == 60,
{
}

/// Only the test scene (every number outside 1 to 5) has a ship: the close
/// ship, in orbit round the earth, burning from 0.339 s for 1.48 s.
pub proof fn lemma_scene_ship(scene: i16)
    ensures
        spec_scene_ship(scene) is Some <==> !is_named_scene(scene),
        spec_scene_ship(scene) matches Some(ship) ==> {
            &&& ship.body == Body::ShipClose
            &&& ship.orbits < spec_scene_steps(scene).len()
            &&& step_body(spec_scene_steps(scene)[ship.orbits as int]) == Body::Earth
            &&& ship.burn_start_millis == 339
            &&& ship.burn_time_millis == 1480
        },
{
}

/// Which bodies each scene places: the sun in scenes 1, 2, 4 and 5, its twin
/// only in scene 2, the earth in scenes 1, 3, 4 and the test scene, the two
/// heavy planets only in scene 5, the moon in scenes 3 and 4, the close moon
/// only in the test scene, the comet only in scene 4, and the ship never as a
/// body of its own.
pub proof fn lemma_scene_bodies(scene: i16)
    ensures
        places(spec_scene_steps(scene), Body::Sun) <==> (scene == 1 || scene == 2 || scene == 4
            || scene == 5),
        places(spec_scene_steps(scene), Body::SunTwin) <==> scene == 2,
        places(spec_scene_steps(scene), Body::Earth) <==> (scene == 1 || scene == 3 || scene == 4
            || !is_named_scene(scene)),
        places(spec_scene_steps(scene), Body::HeavyPlanet) <==> scene == 5,
        places(spec_scene_steps(scene), Body::HeavyPlanetEccentric) <==> scene == 5,
        places(spec_scene_steps(scene), Body::Luna) <==> (scene == 3 || scene == 4),
        places(spec_scene_steps(scene), Body::LunaClose) <==> !is_named_scene(scene),
        places(spec_scene_steps(scene), Body::Comet) <==> scene == 4,
        !places(spec_scene_steps(scene), Body::ShipClose),
{
    let steps = spec_scene_steps(scene);
    if scene == 1 {
        assert(step_body(steps[0]) == Body::Sun);
        assert(step_body(steps[1]) == Body::Earth);
    } else if scene == 2 {
        assert(step_body(steps[0]) == Body::Sun);
        assert(step_body(steps[1]) == Body::SunTwin);
    } else if scene == 3 {
        assert(step_body(steps[0]) == Body::Earth);
        assert(step_body(steps[1]) == Body::Luna);
    } else if scene == 4 {
        assert(step_body(steps[0]) == Body::Sun);
        assert(step_body(steps[1]) == Body::Earth);
        assert(step_body(steps[2]) == Body::Luna);
        assert(step_body(steps[3]) == Body::Comet);
    } else if scene == 5 {
        assert(step_body(steps[0]) == Body::Sun);
        assert(step_body(steps[1]) == Body::HeavyPlanet);
        assert(step_body(steps[2]) == Body::HeavyPlanetEccentric);
    } else {
        assert(step_body(steps[0]) == Body::Earth);
        assert(step_body(steps[1]) == Body::LunaClose);
    }
}

/// How each scene is put together: only the first step places a body where it
/// stands, the bodies come in a fixed order (suns, planets, moons, comets), so
/// none is placed twice, and every body in orbit orbits the earth if it is a
/// moon and the sun otherwise.
pub proof fn lemma_scene_structure(scene: i16)
    ensures
        ({
            let steps = spec_scene_steps(scene);
            &&& steps.len() > 0
            &&& steps[0] is AtPlace
            &&& forall|k: int| 0 < k < steps.len() ==> #[trigger] steps[k] is InOrbit
            &&& forall|a: int, b: int|
                0 <= a < b < steps.len() ==> body_rank(step_body(#[trigger] steps[a])) < body_rank(
                    step_body(#[trigger] steps[b]),
                )
            &&& forall|k: int|
                0 <= k < steps.len() ==> match #[trigger] steps[k] {
                    SceneStep::InOrbit(body, orbits) => orbits < k && step_body(
                        steps[orbits as int],
                    ) == (if is_moon(body) {
                        Body::Earth
                    } else {
                        Body::Sun
                    }),
                    SceneStep::AtPlace(_) => true,
                }
        }),
{
}

/// Each of the six scenes shows its own title, and every number outside 1 to
/// 5 shows the title of the test scene.
pub proof fn lemma_scene_titles(scene: i16, other: i16)
    ensures
        !is_named_scene(scene) ==> spec_scene_title(scene) == "Test"@,
        (is_named_scene(scene) || is_named_scene(other)) && scene != other ==> spec_scene_title(
            scene,
        ) != spec_scene_title(other),
{
    reveal_strlit("Test");
    reveal_strlit("Sun, Earth");
    reveal_strlit("double star");
    reveal_strlit("Earth & Luna & Ship");
    reveal_strlit("Sun, Earth & Luna +");
    reveal_strlit("Sun, Earth+Earth");
    assert("Test"@.len() == 4);
    assert("Sun, Earth"@.len() == 10);
    assert("double star"@.len() == 11);
    assert("Earth & Luna & Ship"@.len() == 19);
    assert("Sun, Earth & Luna +"@.len() == 19);
    assert("Sun, Earth+Earth"@.len() == 16);
    assert("Earth & Luna & Ship"@[0] != "Sun, Earth & Luna +"@[0]);
}

} // verus!
