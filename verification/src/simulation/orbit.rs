//! A massive test particle on a geodesic through the centre's plane.
//!
//! The host integrates the orbit equation; [`Orbit`] keeps track of whether
//! the particle falls radially and whether it has reached the singularity,
//! and plans each time step. A particle that has reached the singularity
//! stays there: no later step moves it.
//!
//! For a time step the host asks [`Orbit::do_step`] for its kind. A radial
//! step is one Verlet step, closed by [`Orbit::do_radial_step`]. An angular
//! step starts with an estimate of the swept angle, which
//! [`Orbit::do_angular_step`] cuts into fragments; each fragment is one
//! Runge-Kutta step, closed by [`Orbit::do_angle_step`], and the first
//! fragment that is not taken over ends the time step.

use vstd::prelude::*;

verus! {

/// The fate of a particle launched sideways with a given angular momentum.
#[derive(Copy, Clone, PartialEq, Eq, Debug)]
pub enum OrbitStability {
    HittingSingularity,
    StableOrbit,
    EscapeTrajectory,
}

/// Orientation of the orbital plane at launch.
#[derive(Copy, Clone, PartialEq, Eq, Debug)]
pub enum OrbitPlane {
    /// The plane is the equatorial plane: no tilt, angles count from the
    /// x-axis.
    Equatorial,
    /// The plane is tilted about its line of nodes. `reflex` says that the
    /// launch point lies below the equator, so that its angle from the line
    /// of nodes is the reflex angle.
    Tilted { reflex: bool },
}

/// How the next time step is to be integrated.
#[derive(Copy, Clone, PartialEq, Eq, Debug)]
pub enum StepKind {
    /// The particle sits in the singularity; nothing is integrated.
    Frozen,
    /// Radial fall: one Verlet step in the radius.
    Radial,
    /// General orbit: Runge-Kutta steps in the orbital angle.
    Angular,
}

/// How often the estimate of the angle swept in a time step is refined. The
/// swept angle and the inverse radius at its end depend on each other, so
/// the estimate is iterated; an error in it changes the speed of the
/// simulation, not the shape of the orbit.
pub const ANGLE_ESTIMATE_REFINEMENTS: u32 = 3;

/// A time step whose predicted inverse radius exceeds this bound is not
/// integrated: the orbit has diverged into the singularity.
pub const DIVERGING_INVERSE_RADIUS: u8 = 50;

/// The orbit equation is integrated for inverse radii from zero to this
/// bound; a fragment that ends outside has escaped into the singularity.
pub const LARGEST_INVERSE_RADIUS: u8 = 100;

/// Largest number of angle fragments that one time step is cut into.
pub const MAX_STEP_FRAGMENTS: u32 = 1000;

/// Number of fragments for a time step that sweeps `hundredths` whole
/// hundredths of a radian: one more than that, capped.
pub open spec fn step_fragments(hundredths: u32) -> int {
    if 1 + hundredths <= MAX_STEP_FRAGMENTS {
        1 + hundredths
    } else {
        MAX_STEP_FRAGMENTS as int
    }
}

/// Effective-potential analysis of a launch. The four observations are, in
/// the order in which they are consulted: the angular momentum lies below
/// the photon-sphere bound; the launch radius lies inside the inner turning
/// radius; the energy exceeds the rest energy; the energy lies below the
/// potential barrier at the inner turning radius.
pub open spec fn stability(
    below_photon_bound: bool,
    inside_turning_radius: bool,
    unbound: bool,
    below_barrier: bool,
) -> OrbitStability {
    if below_photon_bound || inside_turning_radius {
        OrbitStability::HittingSingularity
    } else if unbound {
        OrbitStability::EscapeTrajectory
    } else if below_barrier {
        OrbitStability::StableOrbit
    } else {
        OrbitStability::HittingSingularity
    }
}

/// The discrete state of an orbit.
#[derive(Copy, Clone, PartialEq, Eq, Debug)]
pub struct Orbit {
    /// The particle falls radially, without angular momentum.
    pub central_fall: bool,
    /// The particle has reached the singularity.
    pub has_hit_singularity: bool,
}

impl Orbit {
    /// The orbit after a step or fragment in which the integrator did
    /// (`lost`) or did not lose the particle to the singularity.
    pub open spec fn after(self, lost: bool) -> Orbit {
        Orbit { has_hit_singularity: self.has_hit_singularity || lost, ..self }
    }

    /// The orbit after a run of steps and fragments, of which `run` tells
    /// one by one whether the integrator lost the particle in it.
    pub open spec fn after_run(self, run: Seq<bool>) -> Orbit
        decreases run.len(),
    {
        if run.len() == 0 {
            self
        } else {
            self.after_run(run.drop_last()).after(run.last())
        }
    }

    /// Launches a particle. There is no orbit from the horizon or from
    /// inside it. An angular momentum that is negligible against the
    /// Schwarzschild radius counts as none.
    pub fn new(outside_horizon: bool, rotation_negligible: bool) -> (orbit: Option<Self>)
        ensures
            orbit == if outside_horizon {
                Some(Orbit { central_fall: rotation_negligible, has_hit_singularity: false })
            } else {
                None
            },
    {
        if !outside_horizon {
            return None;
        }
        Some(Orbit { central_fall: rotation_negligible, has_hit_singularity: false })
    }

    /// Orientation of the orbital plane, from the angle between its normal
    /// and the z-axis: a normal along the axis, in either direction, gives
    /// the equatorial plane.
    pub fn plane(normal_along_axis: bool, normal_against_axis: bool, below_equator: bool) -> (plane:
        OrbitPlane)
        ensures
            plane == if normal_along_axis || normal_against_axis {
                OrbitPlane::Equatorial
            } else {
                OrbitPlane::Tilted { reflex: below_equator }
            },
    {
        if normal_along_axis || normal_against_axis {
            OrbitPlane::Equatorial
        } else {
            OrbitPlane::Tilted { reflex: below_equator }
        }
    }

    /// How the coming time step is integrated.
    pub fn do_step(&self) -> (kind: StepKind)
        ensures
            kind == if self.has_hit_singularity {
                StepKind::Frozen
            } else if self.central_fall {
                StepKind::Radial
            } else {
                StepKind::Angular
            },
    {
        if self.has_hit_singularity {
            StepKind::Frozen
        } else if self.central_fall {
            StepKind::Radial
        } else {
            StepKind::Angular
        }
    }

    /// Closes a radial step. A next radius below zero ends the fall in the
    /// singularity. The result says whether the host takes over the new
    /// radius.
    pub fn do_radial_step(&mut self, next_radius_negative: bool) -> (advance: bool)
        ensures
            *final(self) == old(self).after(next_radius_negative),
            advance == !final(self).has_hit_singularity,
    {
        if next_radius_negative {
            self.has_hit_singularity = true;
        }
        !self.has_hit_singularity
    }

    /// Opens an angular step. `diverging` says that the predicted inverse
    /// radius is beyond the integrator's range, which ends the orbit in the
    /// singularity. Otherwise the swept angle, of which `hundredths` is the
    /// number of whole hundredths of a radian, is cut into the returned
    /// number of equal fragments. No fragment is due once the singularity is
    /// reached.
    pub fn do_angular_step(&mut self, diverging: bool, hundredths: u32) -> (fragments: u32)
        ensures
            *final(self) == old(self).after(diverging),
            fragments == if final(self).has_hit_singularity {
                0
            } else {
                step_fragments(hundredths)
            },
    {
        if diverging {
            self.has_hit_singularity = true;
        }
        if self.has_hit_singularity {
            0
        } else if hundredths < MAX_STEP_FRAGMENTS {
            hundredths + 1
        } else {
            MAX_STEP_FRAGMENTS
        }
    }

    /// Closes one angle fragment. `escaped` says that the inverse radius
    /// left the range in which the orbit equation is integrated (it is
    /// infinite, too large or negative), which ends the orbit in the
    /// singularity. The result says whether the host takes over the new
    /// radius and angle and goes on with the next fragment.
    pub fn do_angle_step(&mut self, escaped: bool) -> (advance: bool)
        ensures
            *final(self) == old(self).after(escaped),
            advance == !final(self).has_hit_singularity,
    {
        if escaped {
            self.has_hit_singularity = true;
        }
        !self.has_hit_singularity
    }

    /// Classifies a launch without integrating it; see [`stability`] for the
    /// four observations. Too little angular momentum to pass the photon
    /// sphere always ends in the singularity.
    pub fn is_stable(
        below_photon_bound: bool,
        inside_turning_radius: bool,
        unbound: bool,
        below_barrier: bool,
    ) -> (fate: OrbitStability)
        ensures
            fate == stability(below_photon_bound, inside_turning_radius, unbound, below_barrier),
            below_photon_bound ==> fate == OrbitStability::HittingSingularity,
    {
        if below_photon_bound {
            return OrbitStability::HittingSingularity;
        }
        if inside_turning_radius {
            return OrbitStability::HittingSingularity;
        }
        if unbound {
            return OrbitStability::EscapeTrajectory;
        }
        if below_barrier {
            return OrbitStability::StableOrbit;
        }
        OrbitStability::HittingSingularity
    }

    /// Whether the particle has reached the singularity.
    pub fn is_singular(&self) -> (singular: bool)
        ensures
            singular == self.has_hit_singularity,
    {
        self.has_hit_singularity
    }

    /// Whether the particle falls radially.
    pub fn is_central_fall(&self) -> (central: bool)
        ensures
            central == self.central_fall,
    {
        self.central_fall
    }
}

/// The singularity is final: whatever the integrator reports of a particle
/// that has reached it, the orbit stays as it is.
pub proof fn lemma_singularity_is_final(orbit: Orbit, lost: bool)
    requires
        orbit.has_hit_singularity,
    ensures
        orbit.after(lost) == orbit,
{
}

/// Over any run of steps the particle is in the singularity at the end
/// exactly if it was there at the start or the integrator lost it on the
/// way; whether it falls radially never changes. In particular nothing
/// brings a particle back from the singularity.
pub proof fn lemma_run_ends_in_singularity(orbit: Orbit, run: Seq<bool>)
    ensures
        orbit.after_run(run).central_fall == orbit.central_fall,
        orbit.after_run(run).has_hit_singularity <==> orbit.has_hit_singularity || exists|i: int|
            0 <= i < run.len() && run[i],
        orbit.has_hit_singularity ==> orbit.after_run(run) == orbit,
    decreases run.len(),
{
    if run.len() > 0 {
        let before = run.drop_last();
        lemma_run_ends_in_singularity(orbit, before);
        if exists|i: int| 0 <= i < before.len() && before[i] {
            let i = choose|i: int| 0 <= i < before.len() && before[i];
            assert(run[i]);
        }
        if run.last() {
            assert(run[run.len() - 1]);
        }
        assert(forall|i: int| 0 <= i < before.len() ==> before[i] == run[i]);
    }
}

/// A time step is cut into at least one and at most
/// [`MAX_STEP_FRAGMENTS`] fragments.
pub proof fn lemma_step_fragments_bounded(hundredths: u32)
    ensures
        1 <= step_fragments(hundredths) <= MAX_STEP_FRAGMENTS,
{
}

/// An orbit is stable only if the particle has enough angular momentum to
/// pass the photon sphere, starts outside the inner turning radius, is bound
/// and stays below the potential barrier.
pub proof fn lemma_stable_orbit(
    below_photon_bound: bool,
    inside_turning_radius: bool,
    unbound: bool,
    below_barrier: bool,
)
    ensures
        stability(below_photon_bound, inside_turning_radius, unbound, below_barrier)
            == OrbitStability::StableOrbit <==> !below_photon_bound && !inside_turning_radius
            && !unbound && below_barrier,
        stability(below_photon_bound, inside_turning_radius, unbound, below_barrier)
            == OrbitStability::EscapeTrajectory <==> !below_photon_bound && !inside_turning_radius
            && unbound,
{
}

} // verus!
