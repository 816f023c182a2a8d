//! Orbits integrated end to end: floating-point steps in the test, every
//! decision taken by the library.

use glam::{DMat3, DVec3};
use schwarzschild_raytracer::simulation::orbit as kernel;
use schwarzschild_raytracer::simulation::orbit::OrbitStability;


// Floating point: trigonometry on the components of a vector.
fn carthesic_to_polar(vec: DVec3) -> DVec3 {
    let mut polar = DVec3::ZERO;
    polar.x = vec.length();
    if polar.x != 0. {
        polar.y = f64::atan2(vec.y, vec.x);
        polar.z = (vec.z / polar.x).asin();
    }
    polar
}

// Floating point: trigonometry on the components of a vector.
fn polar_to_carthesic(polar: DVec3) -> DVec3 {
    DVec3::new(
        polar.x * polar.y.cos() * polar.z.cos(),
        polar.x * polar.y.sin() * polar.z.cos(),
        polar.x * polar.z.sin(),
    )
}

// Floating point: a rotation applied between two changes of coordinates.
fn trans_polar_vec(polar: DVec3, trans: DMat3) -> DVec3 {
    carthesic_to_polar(trans * polar_to_carthesic(polar))
}



struct Orbit {
    kernel: kernel::Orbit,
    schwarz_r: f64,
    start_phi: f64,
    tilt_angle: f64,
    orbit_angle: f64,
    plane_tilt_mat: DMat3,
    energy: f64,
    rotation: f64,
    r: f64,
    u: f64,
    u_bar: f64,
    last_r: f64,
}

impl Orbit {
    // Floating point: energy, plane and angles of the launch are measured
    // here; whether there is an orbit at all is the library's decision.
    fn new(
        schwarz_r: f64,
        position: DVec3,
        desired_direction: DVec3,
        mut rotation: f64,
    ) -> Option<Self> {
        let r = position.length();
        if rotation < schwarz_r * 1e-5 {
            rotation = 0.;
        }
        let kernel = kernel::Orbit::new(!(r <= schwarz_r), rotation == 0.)?;

        let u = 1. / r;
        let energy = ((1. - schwarz_r / r) * (1. + rotation * rotation / (r * r))).sqrt();
        let plane_normal = position.cross(desired_direction);
        let mut tilt_angle = plane_normal.angle_between(DVec3::Z);
        let pos_phi = f64::atan2(position.y, position.x);

        let start_phi;
        let orbit_angle;
        let plane_tilt_mat;
        match kernel::Orbit::plane(
            tilt_angle < 1e-10,
            std::f64::consts::PI - tilt_angle < 1e-10,
            position.z < 0.,
        ) {
            kernel::OrbitPlane::Equatorial => {
                tilt_angle = 0.;
                start_phi = 0.;
                orbit_angle = pos_phi;
                plane_tilt_mat = DMat3::IDENTITY;
            }
            kernel::OrbitPlane::Tilted { reflex } => {
                let horizontal_cut = DVec3::Z.cross(plane_normal);
                let angle = horizontal_cut.angle_between(position);
                orbit_angle = if reflex { std::f64::consts::TAU - angle } else { angle };
                start_phi = f64::atan2(horizontal_cut.y, horizontal_cut.x);
                plane_tilt_mat = DMat3::from_rotation_x(tilt_angle);
            }
        }

        Some(Self {
            kernel,
            schwarz_r,
            start_phi,
            tilt_angle,
            orbit_angle,
            plane_tilt_mat,
            energy,
            rotation,
            r,
            u,
            u_bar: 0.,
            last_r: r,
        })
    }

    /// The flags of the orbit as the library keeps them.
    fn flags(&self) -> kernel::Orbit {
        self.kernel
    }

    // Floating point: a Verlet step in the radius, or an estimate of the
    // swept angle followed by its Runge-Kutta fragments.
    fn do_step(&mut self, time_step: f64) {
        match self.kernel.do_step() {
            kernel::StepKind::Frozen => {}
            kernel::StepKind::Radial => {
                let next_r = 2. * self.r
                    - self.last_r
                    - time_step * time_step * self.schwarz_r / (2. * self.r * self.r);
                if self.kernel.do_radial_step(next_r < 0.) {
                    self.last_r = self.r;
                    self.r = next_r;
                }
            }
            kernel::StepKind::Angular => {
                let l = self.rotation;
                let u = self.u;
                let u_bar = self.u_bar;

                // The last refinement of the angle leaves the predicted
                // inverse radius as it is.
                let mut delta_phi = time_step * l * u * u / 2.;
                let mut next_u = u + delta_phi * u_bar;
                for _ in 1..kernel::ANGLE_ESTIMATE_REFINEMENTS {
                    delta_phi = time_step * l / 4. * (u * u + next_u * next_u);
                    next_u = u + delta_phi * u_bar;
                }
                delta_phi = time_step * l / 4. * (u * u + next_u * next_u);

                let fragments =
                    self.kernel.do_angular_step(
                    next_u > f64::from(kernel::DIVERGING_INVERSE_RADIUS),
                    (delta_phi * 100.).floor() as u32,
                );
                for _ in 0..fragments {
                    self.do_angle_step(delta_phi / fragments as f64);
                    if self.kernel.is_singular() {
                        return;
                    }
                }
            }
        }
    }

    // Floating point: one Runge-Kutta step of the orbit equation
    // u'' = -u + 3/2 R u^2 + R / (2 L^2).
    fn do_angle_step(&mut self, delta_phi: f64) {
        if self.kernel.is_singular() {
            return;
        }
        let l = self.rotation;
        let u = self.u;
        let u_bar = self.u_bar;
        let schwarz_r = self.schwarz_r;
        let slope = |u: f64| schwarz_r * (1. / (2. * l * l) + 3. / 2. * u * u) - u;

        let k1_u = u_bar;
        let k1_v = slope(u);
        let k2_u = u_bar + delta_phi / 2. * k1_v;
        let k2_v = slope(u + delta_phi / 2. * k1_u);
        let k3_u = u_bar + delta_phi / 2. * k2_v;
        let k3_v = slope(u + delta_phi / 2. * k2_u);
        let k4_u = u_bar + delta_phi * k3_v;
        let k4_v = slope(u + delta_phi * k1_u);

        self.u += delta_phi * (k1_u + 2. * k2_u + 2. * k3_u + k4_u) / 6.;
        self.u_bar += delta_phi * (k1_v + 2. * k2_v + 2. * k3_v + k4_v) / 6.;

        let escaped = self.u.is_infinite()
            || self.u > f64::from(kernel::LARGEST_INVERSE_RADIUS)
            || self.u < 0.;
        if self.kernel.do_angle_step(escaped) {
            self.r = 1. / self.u;
            self.orbit_angle += delta_phi;
        }
    }

    fn h_r(&self) -> f64 {
        1. - self.schwarz_r / self.r
    }

    // Floating point: the position in the orbital plane, tilted and turned
    // into place.
    fn get_position(&self) -> DVec3 {
        let mut polar_pos =
            trans_polar_vec(DVec3::new(self.r, self.orbit_angle, 0.), self.plane_tilt_mat);
        polar_pos.y += self.start_phi;
        polar_to_carthesic(polar_pos)
    }

    // Floating point: the velocity in terms of (t, r, phi), the sign of its
    // radial part taken from the direction in which the radius changes.
    fn get_velocity(&self) -> DVec3 {
        let falling = if self.kernel.is_central_fall() {
            -(self.r - self.last_r).signum()
        } else {
            self.u_bar.signum()
        };
        DVec3::new(
            self.energy / self.h_r(),
            -falling
                * f64::sqrt(
                    self.energy * self.energy
                        - self.h_r() * (1. + self.rotation * self.rotation / (self.r * self.r)),
                ),
            self.rotation / (self.r * self.r),
        )
    }

    // Floating point: the angle between the orbital plane and the plane
    // through the position and the z-axis.
    fn current_tilt_angle(&self) -> f64 {
        let polar_pos =
            trans_polar_vec(DVec3::new(self.r, self.orbit_angle, 0.), self.plane_tilt_mat);
        self.tilt_angle * polar_pos.y.cos()
    }

    // Floating point: the four comparisons of the effective-potential
    // analysis are measured here and classified by the library.
    fn is_stable(rotation: f64, schwarz_r: f64, r: f64) -> OrbitStability {
        let r1 = rotation.powi(2) / schwarz_r
            * (1. - f64::sqrt(1. - 3. * schwarz_r.powi(2) / rotation.powi(2)));
        let energy = ((1. - schwarz_r / r) * (1. + rotation * rotation / (r * r))).sqrt();
        kernel::Orbit::is_stable(
            rotation.powi(2) < 3. * schwarz_r.powi(2),
            r < r1,
            energy > 1.,
            energy.powi(2) - (1. - schwarz_r / r1) * (rotation.powi(2) / r1.powi(2) + 1.) < 0.,
        )
    }

    fn is_singular(&self) -> bool {
        self.kernel.is_singular()
    }

    fn is_central_fall(&self) -> bool {
        self.kernel.is_central_fall()
    }
}

fn launch(rotation: f64) -> Orbit {
    let position = DVec3::new(25., 0., 0.);
    let direction = DVec3::new(-position.y, position.x, 0.);
    Orbit::new(5., position, direction, rotation).unwrap()
}

#[test]
fn no_launch_from_the_horizon_or_below() {
    let direction = DVec3::new(0., 1., 0.);
    assert!(Orbit::new(5., DVec3::new(5., 0., 0.), direction, 18.).is_none());
    assert!(Orbit::new(5., DVec3::new(3., 0., 0.), direction, 18.).is_none());
    assert!(Orbit::new(5., DVec3::new(5.001, 0., 0.), direction, 18.).is_some());
}

#[test]
fn negligible_rotation_is_a_radial_fall() {
    assert!(launch(0.).is_central_fall());
    assert!(launch(4e-5).is_central_fall());
    assert!(!launch(6e-5).is_central_fall());
    assert!(!launch(18.).is_central_fall());
}

#[test]
fn radial_fall_ends_in_the_singularity_and_stays_there() {
    let mut orbit = launch(0.);
    let mut steps = 0;
    let mut last_r = 25.;
    while !orbit.is_singular() {
        orbit.do_step(1. / 60.);
        let r = orbit.get_position().length();
        assert!(r <= last_r + 1e-9);
        last_r = r;
        steps += 1;
        assert!(steps < 100_000);
    }
    assert_eq!(orbit.flags(), kernel::Orbit { central_fall: true, has_hit_singularity: true });
    let position = orbit.get_position();
    for _ in 0..10 {
        orbit.do_step(1. / 60.);
        assert!(orbit.is_singular());
        assert_eq!(orbit.get_position(), position);
    }
}

#[test]
fn stable_orbit_stays_between_its_turning_points() {
    assert_eq!(Orbit::is_stable(10., 5., 25.), OrbitStability::StableOrbit);
    let mut orbit = launch(10.);
    let mut farthest: f64 = 25.;
    for _ in 0..20_000 {
        orbit.do_step(1. / 60.);
        assert!(!orbit.is_singular());
        let position = orbit.get_position();
        assert!(position.z.abs() < 1e-9);
        let r = position.length();
        assert!(r > 24.999);
        assert!(r < 1000.);
        farthest = farthest.max(r);
    }
    assert!(farthest > 26.);
    assert!(orbit.current_tilt_angle().abs() < 1e-12);
}

#[test]
fn slow_launch_falls_into_the_singularity() {
    assert_eq!(Orbit::is_stable(8., 5., 25.), OrbitStability::HittingSingularity);
    let mut orbit = launch(8.);
    let mut steps = 0;
    while !orbit.is_singular() {
        orbit.do_step(1. / 60.);
        steps += 1;
        assert!(steps < 100_000);
    }
    let position = orbit.get_position();
    let velocity = orbit.get_velocity();
    orbit.do_step(1. / 60.);
    orbit.do_angle_step(0.01);
    assert_eq!(orbit.get_position(), position);
    assert_eq!(orbit.get_velocity(), velocity);
}

#[test]
fn fast_launch_escapes() {
    assert_eq!(Orbit::is_stable(40., 5., 25.), OrbitStability::EscapeTrajectory);
    let mut orbit = launch(40.);
    for _ in 0..20_000 {
        orbit.do_step(1. / 60.);
        assert!(!orbit.is_singular());
    }
    assert!(orbit.get_position().length() > 100.);
}

#[test]
fn tilted_orbit_starts_where_it_was_launched() {
    let position = DVec3::new(20., 5., -3.);
    let direction = DVec3::new(-1., 4., 2.);
    let orbit = Orbit::new(5., position, direction, 18.).unwrap();
    assert!((orbit.get_position() - position).length() < 1e-9);
    let equatorial = launch(18.);
    assert!((equatorial.get_position() - DVec3::new(25., 0., 0.)).length() < 1e-12);
}
