use schwarzschild_raytracer::simulation::ray_connector::{
    AngleBranch, AngleRule, RayAngle, RayConnector, RayPlan, Separation, NR_INTERIOR_NODES,
    NR_NODES, RESET_ITERATIONS,
};

#[test]
fn profile_size() {
    assert_eq!(NR_NODES, 48);
    assert_eq!(NR_INTERIOR_NODES, NR_NODES - 2);
    assert_eq!(RESET_ITERATIONS, 5);
}

#[test]
fn new_connector_is_stale() {
    assert_eq!(RayConnector::new(true), RayConnector { less_than_180: true, needs_reset: true });
    assert_eq!(RayConnector::new(false), RayConnector { less_than_180: false, needs_reset: true });
}

#[test]
fn first_update_builds_the_profile() {
    let mut connector = RayConnector::new(true);
    let plan = connector.update_ray(Separation::Wide, false, 1);
    assert_eq!(plan, RayPlan { rebuild: true, angle: AngleRule::Profile { iterations: 5 } });
    assert!(!connector.needs_reset);
    assert!(connector.less_than_180);
}

#[test]
fn later_updates_continue_the_profile() {
    let mut connector = RayConnector::new(false);
    connector.update_ray(Separation::Wide, false, 1);
    for iterations in [0, 1, 5, 9] {
        let plan = connector.update_ray(Separation::Wide, false, iterations);
        assert_eq!(plan, RayPlan { rebuild: false, angle: AngleRule::Profile { iterations } });
        assert!(!connector.needs_reset);
    }
}

#[test]
fn jump_rebuilds_the_profile() {
    let mut connector = RayConnector { less_than_180: true, needs_reset: false };
    let plan = connector.update_ray(Separation::Wide, true, 1);
    assert_eq!(plan, RayPlan { rebuild: true, angle: AngleRule::Profile { iterations: 5 } });
    assert!(!connector.needs_reset);
}

#[test]
fn narrow_separation_uses_the_chord() {
    let mut connector = RayConnector { less_than_180: true, needs_reset: false };
    let plan = connector.update_ray(Separation::Narrow, true, 1);
    assert_eq!(plan, RayPlan { rebuild: false, angle: AngleRule::Chord });
    assert!(connector.needs_reset);
    let plan = connector.update_ray(Separation::Narrow, false, 1);
    assert_eq!(plan, RayPlan { rebuild: true, angle: AngleRule::Chord });
    assert!(connector.needs_reset);
}

#[test]
fn aligned_points_need_no_profile() {
    let mut connector = RayConnector { less_than_180: true, needs_reset: false };
    let plan = connector.update_ray(Separation::Aligned, false, 1);
    assert_eq!(plan, RayPlan { rebuild: false, angle: AngleRule::InLine });
    assert!(connector.needs_reset);
}

#[test]
fn profile_is_rebuilt_after_a_narrow_passage() {
    let mut connector = RayConnector::new(true);
    connector.update_ray(Separation::Wide, false, 1);
    connector.update_ray(Separation::Narrow, false, 1);
    let plan = connector.update_ray(Separation::Wide, false, 1);
    assert_eq!(plan, RayPlan { rebuild: true, angle: AngleRule::Profile { iterations: 5 } });
}

#[test]
fn reset_always_rebuilds() {
    for needs_reset in [false, true] {
        let mut connector = RayConnector { less_than_180: true, needs_reset };
        let plan = connector.reset_ray(Separation::Wide);
        assert_eq!(plan, RayPlan { rebuild: true, angle: AngleRule::Profile { iterations: 5 } });
        assert!(!connector.needs_reset);

        let mut connector = RayConnector { less_than_180: true, needs_reset };
        let plan = connector.reset_ray(Separation::Narrow);
        assert_eq!(plan, RayPlan { rebuild: true, angle: AngleRule::Chord });
        assert!(connector.needs_reset);

        let mut connector = RayConnector { less_than_180: false, needs_reset };
        let plan = connector.reset_ray(Separation::Aligned);
        assert_eq!(plan, RayPlan { rebuild: true, angle: AngleRule::InLine });
        assert!(connector.needs_reset);
        assert!(!connector.less_than_180);
    }
}

#[test]
fn unmoved_observer_is_a_fixed_point() {
    for separation in [Separation::Aligned, Separation::Narrow, Separation::Wide] {
        for needs_reset in [false, true] {
            let mut connector = RayConnector { less_than_180: true, needs_reset };
            connector.update_ray(separation, false, 1);
            let first = connector;
            connector.update_ray(separation, false, 1);
            assert_eq!(connector, first);
            connector.update_ray(separation, false, 1);
            assert_eq!(connector, first);
        }
    }
}

#[test]
fn closed_path_in_sixty_steps() {
    let mut incremental = RayConnector::new(true);
    let mut control = RayConnector::new(true);
    for step in 0..60 {
        let plan = incremental.update_ray(Separation::Wide, false, 1);
        let plan_control = control.update_ray(Separation::Wide, false, 5);
        if step == 0 {
            assert_eq!(plan, plan_control);
            assert!(plan.rebuild);
        } else {
            assert_eq!(plan, RayPlan { rebuild: false, angle: AngleRule::Profile { iterations: 1 } });
            assert_eq!(
                plan_control,
                RayPlan { rebuild: false, angle: AngleRule::Profile { iterations: 5 } }
            );
        }
    }
}

#[test]
fn angle_formula_and_sign() {
    let near = RayConnector::new(true);
    let far = RayConnector::new(false);
    assert_eq!(near.calc_ray_angle(true, false), RayAngle { branch: AngleBranch::Outside, sign: 1 });
    assert_eq!(near.calc_ray_angle(true, true), RayAngle { branch: AngleBranch::Outside, sign: 1 });
    assert_eq!(far.calc_ray_angle(true, true), RayAngle { branch: AngleBranch::Outside, sign: -1 });
    assert_eq!(near.calc_ray_angle(false, true), RayAngle { branch: AngleBranch::Inside, sign: 1 });
    assert_eq!(
        far.calc_ray_angle(false, false),
        RayAngle { branch: AngleBranch::InsideUnresolved, sign: -1 }
    );
}
