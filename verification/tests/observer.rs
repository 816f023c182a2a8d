use schwarzschild_raytracer::simulation::observer::{
    AberrationRule, FrameRule, Motion, Observer, ObserverState, PipelinePlan, VelocityRule,
    START_RADIUS,
};
use schwarzschild_raytracer::simulation::orbit::Orbit;

fn orbiting(central_fall: bool, has_hit_singularity: bool) -> Observer {
    Observer { state: ObserverState::Orbiting(Orbit { central_fall, has_hit_singularity }) }
}

#[test]
fn start_radius() {
    assert_eq!(START_RADIUS, 25);
}

#[test]
fn new_observer_falls() {
    assert_eq!(Observer::new().state, ObserverState::FrozenFall);
}

#[test]
fn mode_switches() {
    let mut observer = Observer::new();
    observer.start_unmoving();
    assert_eq!(observer.state, ObserverState::Unmoving);
    observer.start_frozen_fall();
    assert_eq!(observer.state, ObserverState::FrozenFall);
    observer.start_orbit(true, false);
    assert_eq!(observer, orbiting(false, false));
    observer.start_orbit(true, true);
    assert_eq!(observer, orbiting(true, false));
    observer.start_unmoving();
    assert_eq!(observer.state, ObserverState::Unmoving);
}

#[test]
fn failed_launch_changes_nothing() {
    let mut observer = Observer::new();
    observer.start_orbit(false, false);
    assert_eq!(observer.state, ObserverState::FrozenFall);
    observer.start_unmoving();
    observer.start_orbit(false, true);
    assert_eq!(observer.state, ObserverState::Unmoving);
    let mut observer = orbiting(false, true);
    observer.start_orbit(false, false);
    assert_eq!(observer, orbiting(false, true));
}

#[test]
fn new_launch_replaces_an_ended_orbit() {
    let mut observer = orbiting(false, true);
    observer.start_orbit(true, true);
    assert_eq!(observer, orbiting(true, false));
}

#[test]
fn reset_gives_up_the_orbit() {
    let mut observer = orbiting(false, false);
    observer.reset_to_start();
    assert_eq!(observer.state, ObserverState::FrozenFall);
    let mut observer = Observer { state: ObserverState::Unmoving };
    observer.reset_to_start();
    assert_eq!(observer.state, ObserverState::FrozenFall);
}

#[test]
fn what_moves_the_observer() {
    assert_eq!(Observer::new().update_position(), Motion::Steered);
    assert_eq!(Observer { state: ObserverState::Unmoving }.update_position(), Motion::Steered);
    assert_eq!(orbiting(false, false).update_position(), Motion::Orbital);
    assert_eq!(orbiting(true, true).update_position(), Motion::Orbital);
}

#[test]
fn velocity_at_rest() {
    assert_eq!(Observer::unmoving_velocity(true), VelocityRule::Static);
    assert_eq!(Observer::unmoving_velocity(false), VelocityRule::StaticInside);
    let observer = Observer { state: ObserverState::Unmoving };
    assert_eq!(observer.velocity(true, true), VelocityRule::Static);
    assert_eq!(observer.velocity(true, false), VelocityRule::Static);
    assert_eq!(observer.velocity(false, true), VelocityRule::StaticInside);
}

#[test]
fn velocity_of_the_fall() {
    assert_eq!(Observer::frozen_fall_velocity(true, true), VelocityRule::Infall);
    assert_eq!(Observer::frozen_fall_velocity(false, true), VelocityRule::Infall);
    assert_eq!(Observer::frozen_fall_velocity(true, false), VelocityRule::Static);
    assert_eq!(Observer::frozen_fall_velocity(false, false), VelocityRule::StaticInside);
    let observer = Observer::new();
    assert_eq!(observer.velocity(true, true), VelocityRule::Infall);
    assert_eq!(observer.velocity(true, false), VelocityRule::Static);
}

#[test]
fn velocity_on_an_orbit() {
    for outside in [false, true] {
        for sufficient in [false, true] {
            assert_eq!(orbiting(false, false).velocity(outside, sufficient), VelocityRule::Orbital);
            assert_eq!(orbiting(true, true).velocity(outside, sufficient), VelocityRule::Orbital);
        }
    }
}

#[test]
fn horizon_is_singular_in_every_mode() {
    for observer in [
        Observer::new(),
        Observer { state: ObserverState::Unmoving },
        orbiting(false, false),
        orbiting(true, false),
    ] {
        assert!(observer.is_singular(true, false));
        assert!(observer.is_singular(true, true));
        assert_eq!(observer.calc_transformation_pipeline(true, false, true), PipelinePlan::Keep);
    }
}

#[test]
fn centre_is_singular_unless_orbiting() {
    assert!(Observer::new().is_singular(false, true));
    assert!(Observer { state: ObserverState::Unmoving }.is_singular(false, true));
    assert!(!Observer::new().is_singular(false, false));
    assert!(!orbiting(false, false).is_singular(false, true));
    assert!(orbiting(false, true).is_singular(false, false));
}

#[test]
fn pipeline_of_radial_motion() {
    let outside = PipelinePlan::Refresh {
        aberration: AberrationRule::Outside,
        frame: FrameRule::Radial,
    };
    let inside = PipelinePlan::Refresh {
        aberration: AberrationRule::Inside,
        frame: FrameRule::Radial,
    };
    assert_eq!(Observer::new().calc_transformation_pipeline(false, false, true), outside);
    assert_eq!(Observer::new().calc_transformation_pipeline(false, false, false), inside);
    assert_eq!(orbiting(true, false).calc_transformation_pipeline(false, false, true), outside);
    assert_eq!(orbiting(true, false).calc_transformation_pipeline(false, true, false), inside);
}

#[test]
fn pipeline_of_sideways_motion() {
    assert_eq!(
        orbiting(false, false).calc_transformation_pipeline(false, false, true),
        PipelinePlan::Refresh { aberration: AberrationRule::Outside, frame: FrameRule::Tilted }
    );
    assert_eq!(
        orbiting(false, false).calc_transformation_pipeline(false, false, false),
        PipelinePlan::Refresh { aberration: AberrationRule::Inside, frame: FrameRule::Tilted }
    );
}

#[test]
fn pipeline_of_a_singular_observer_is_kept() {
    assert_eq!(Observer::new().calc_transformation_pipeline(false, true, false), PipelinePlan::Keep);
    assert_eq!(
        orbiting(false, true).calc_transformation_pipeline(false, false, true),
        PipelinePlan::Keep
    );
}

#[test]
fn orbiting_observer_follows_its_orbit() {
    let ended = Orbit { central_fall: false, has_hit_singularity: true };
    let mut observer = orbiting(false, false);
    observer.orbit_moved(ended);
    assert_eq!(observer, orbiting(false, true));
    assert!(observer.is_singular(false, false));
    let mut observer = Observer::new();
    observer.orbit_moved(ended);
    assert_eq!(observer, Observer::new());
    let mut observer = Observer { state: ObserverState::Unmoving };
    observer.orbit_moved(ended);
    assert_eq!(observer.state, ObserverState::Unmoving);
}
