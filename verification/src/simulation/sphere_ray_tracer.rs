//! The ray fan between the observer and a sphere around the black hole.
//!
//! For each direction of the observer's sky the host follows a light ray
//! until it meets the sphere. [`SphereRayTracer`] decides which rays need no
//! integration, because they meet the sphere head-on or cannot meet it at
//! all, and when the integration of the others ends.
//!
//! For an entry of the table the host asks
//! [`SphereRayTracer::solve_ray_fan`] how the ray leaves, measures the
//! [`Scene`] and the [`Ray`], and follows the [`GeodesicPlan`] of
//! [`SphereRayTracer::solve_geodesic`]. A ray that is integrated advances
//! step by step while [`SphereRayTracer::keep_integrating`] says so, and
//! [`SphereRayTracer::finish_step`] says after each step whether the ray has
//! crossed the sphere, is lost, or goes on.

use vstd::prelude::*;

verus! {

/// The travelled angle that stands for "the ray does not meet the sphere":
/// about five turns, far beyond any angle that a ray of the table travels.
pub const NO_VALUE: u8 = 10;

/// Newton refinements of the crossing angle once a step has passed through
/// the sphere.
pub const FINAL_NEWTON_REFINEMENTS: u32 = 3;

/// The formula for the conserved energy of an emitted ray.
#[derive(Copy, Clone, PartialEq, Eq, Debug)]
pub enum EnergyRule {
    /// Observer on or outside the horizon: the energy of a static observer.
    Outside,
    /// Observer inside the horizon: the energy depends on the direction and
    /// may be negative.
    Inside,
}

/// How a ray leaves the observer.
#[derive(Copy, Clone, PartialEq, Eq, Debug)]
pub struct Emission {
    /// The ray starts towards the centre.
    pub falling: bool,
    pub energy: EnergyRule,
}

/// Where the observer and the sphere lie with respect to each other, to the
/// horizon and to the photon sphere.
#[derive(Copy, Clone, PartialEq, Eq, Debug)]
pub struct Scene {
    /// There is no black hole: the Schwarzschild radius, which is never
    /// negative, is zero.
    pub flat: bool,
    /// The observer is outside the horizon.
    pub outside: bool,
    /// The sphere is outside the horizon.
    pub sphere_outside: bool,
    /// The observer is inside the sphere.
    pub inside_sphere: bool,
    /// The observer is below the photon sphere.
    pub below_photon_sphere: bool,
    /// The observer is above the photon sphere.
    pub above_photon_sphere: bool,
    /// The observer is off the photon sphere by more than the tolerance.
    pub off_photon_sphere: bool,
    /// The sphere is below the photon sphere.
    pub sphere_below_photon_sphere: bool,
}

/// One ray of the fan.
#[derive(Copy, Clone, PartialEq, Eq, Debug)]
pub struct Ray {
    /// The ray has no angular momentum to speak of: it points straight at
    /// the centre or straight away from it.
    pub radial: bool,
    /// The ray starts towards the centre.
    pub falling: bool,
    /// The conserved energy is above zero.
    pub energy_positive: bool,
    /// The conserved energy is below zero.
    pub energy_negative: bool,
    /// The ray's impact parameter is too large to pass the photon sphere.
    pub under_barrier: bool,
}

/// Where a ray that needs no integration meets the sphere.
#[derive(Copy, Clone, PartialEq, Eq, Debug)]
pub enum Arrival {
    /// After no turn at all.
    Ahead,
    /// After half a turn: straight through the centre.
    Behind,
}

/// What is to be done for a ray.
#[derive(Copy, Clone, PartialEq, Eq, Debug)]
pub enum GeodesicPlan {
    /// The ray meets the sphere at a known angle.
    Hit(Arrival),
    /// The ray does not meet the sphere: its travelled angle counts as
    /// [`NO_VALUE`].
    Miss,
    /// The ray is integrated.
    Integrate,
}

/// What follows from one step of the integration.
#[derive(Copy, Clone, PartialEq, Eq, Debug)]
pub enum StepOutcome {
    /// The step passed through the sphere: the crossing is refined and the
    /// integration ends.
    Crossed,
    /// The ray has come too far out to return: the integration ends without
    /// a crossing.
    Miss,
    /// The integration goes on from the end of the step.
    Advance,
}

/// The fate of a radial ray.
pub open spec fn radial_plan(scene: Scene, ray: Ray) -> GeodesicPlan {
    if scene.inside_sphere {
        if scene.outside {
            if !ray.falling {
                GeodesicPlan::Hit(Arrival::Ahead)
            } else if scene.flat {
                GeodesicPlan::Hit(Arrival::Behind)
            } else {
                GeodesicPlan::Miss
            }
        } else if scene.sphere_outside && !ray.energy_positive {
            GeodesicPlan::Miss
        } else {
            GeodesicPlan::Hit(Arrival::Ahead)
        }
    } else if scene.sphere_outside && ray.falling {
        GeodesicPlan::Hit(Arrival::Ahead)
    } else {
        GeodesicPlan::Miss
    }
}

/// The ray is caught behind the angular-momentum barrier at the photon
/// sphere while observer and sphere lie on different sides of it.
pub open spec fn barred(scene: Scene, ray: Ray) -> bool {
    &&& !scene.flat
    &&& ray.under_barrier
    &&& scene.below_photon_sphere != scene.sphere_below_photon_sphere
    &&& scene.off_photon_sphere
}

/// A ray with angular momentum that cannot meet the sphere.
pub open spec fn hopeless(scene: Scene, ray: Ray) -> bool {
    ||| scene.inside_sphere && !scene.sphere_outside
    ||| !scene.outside && scene.sphere_outside && ray.energy_negative
    ||| barred(scene, ray)
    ||| scene.below_photon_sphere && scene.inside_sphere && ray.falling
    ||| scene.above_photon_sphere && !scene.inside_sphere && !ray.falling
}

/// The plan for a ray.
pub open spec fn geodesic_plan(scene: Scene, ray: Ray) -> GeodesicPlan {
    if ray.radial {
        radial_plan(scene, ray)
    } else if hopeless(scene, ray) {
        GeodesicPlan::Miss
    } else {
        GeodesicPlan::Integrate
    }
}

/// The discrete parameters of a ray tracer.
#[derive(Copy, Clone, PartialEq, Eq, Debug)]
pub struct SphereRayTracer {
    /// Largest number of integration steps per ray.
    pub max_iter: u32,
    /// Number of entries of the table; even.
    pub nr_nodes: usize,
}

impl SphereRayTracer {
    /// Whether the integration goes on after `iteration` steps. It ends
    /// when the ray is inside the horizon and still inbound, when the step
    /// budget is used up, and when the inverse radius is no longer positive.
    pub open spec fn integrating(
        self,
        flat: bool,
        iteration: u32,
        beyond_horizon: bool,
        inbound: bool,
        u_positive: bool,
    ) -> bool {
        &&& !(!flat && beyond_horizon && inbound)
        &&& iteration < self.max_iter
        &&& u_positive
    }

    /// The table has as many entries for directions above the observer's
    /// horizontal plane as for directions below it.
    pub open spec fn wf(self) -> bool {
        self.nr_nodes % 2 == 0
    }

    /// A tracer whose table has two entries for each of `nr_nodes_half`.
    pub fn new(max_iter: u32, nr_nodes_half: usize) -> (tracer: Self)
        requires
            2 * nr_nodes_half <= usize::MAX,
        ensures
            tracer.wf(),
            tracer.max_iter == max_iter,
            tracer.nr_nodes == 2 * nr_nodes_half,
    {
        SphereRayTracer { max_iter, nr_nodes: nr_nodes_half * 2 }
    }

    /// How the ray of one table entry leaves the observer.
    /// `elevation_positive` says that the entry's direction points above
    /// the observer's horizontal plane, that is towards the centre. Inside
    /// the horizon no ray counts as falling: its direction is carried by the
    /// sign of its energy.
    pub fn solve_ray_fan(inside_horizon: bool, elevation_positive: bool) -> (emission: Emission)
        ensures
            emission == if inside_horizon {
                Emission { falling: false, energy: EnergyRule::Inside }
            } else {
                Emission { falling: elevation_positive, energy: EnergyRule::Outside }
            },
    {
        if inside_horizon {
            Emission { falling: false, energy: EnergyRule::Inside }
        } else {
            Emission { falling: elevation_positive, energy: EnergyRule::Outside }
        }
    }

    /// Decides what is to be done for a ray: radial rays are settled at
    /// once; of the others, those that cannot meet the sphere are sorted out
    /// and the rest is integrated.
    pub fn solve_geodesic(scene: Scene, ray: Ray) -> (plan: GeodesicPlan)
        ensures
            plan == geodesic_plan(scene, ray),
    {
        if ray.radial {
            if scene.inside_sphere {
                if scene.outside {
                    if ray.falling {
                        if scene.flat {
                            return GeodesicPlan::Hit(Arrival::Behind);
                        } else {
                            return GeodesicPlan::Miss;
                        }
                    } else {
                        return GeodesicPlan::Hit(Arrival::Ahead);
                    }
                } else {
                    if scene.sphere_outside {
                        if ray.energy_positive {
                            return GeodesicPlan::Hit(Arrival::Ahead);
                        } else {
                            return GeodesicPlan::Miss;
                        }
                    } else {
                        return GeodesicPlan::Hit(Arrival::Ahead);
                    }
                }
            } else {
                if scene.sphere_outside && ray.falling {
                    return GeodesicPlan::Hit(Arrival::Ahead);
                } else {
                    return GeodesicPlan::Miss;
                }
            }
        }
        let barrier = !scene.flat && ray.under_barrier;
        let different_sides = (scene.below_photon_sphere != scene.sphere_below_photon_sphere)
            && scene.off_photon_sphere;

        if (scene.inside_sphere && !scene.sphere_outside) || (!scene.outside
            && scene.sphere_outside && ray.energy_negative) || (barrier && different_sides) || (
        scene.below_photon_sphere && scene.inside_sphere && ray.falling) || (
        scene.above_photon_sphere && !scene.inside_sphere && !ray.falling) {
            return GeodesicPlan::Miss;
        }
        GeodesicPlan::Integrate
    }

    /// Whether another step is integrated after `iteration` steps.
    /// `beyond_horizon` and `inbound` say that the ray is inside the horizon
    /// radius and that its inverse radius still grows; `u_positive` that the
    /// inverse radius is above zero.
    pub fn keep_integrating(
        &self,
        flat: bool,
        iteration: u32,
        beyond_horizon: bool,
        inbound: bool,
        u_positive: bool,
    ) -> (go_on: bool)
        ensures
            go_on == self.integrating(flat, iteration, beyond_horizon, inbound, u_positive),
    {
        !(!flat && beyond_horizon && inbound) && iteration < self.max_iter && u_positive
    }

    /// What follows from one step. `crossed` says that the sphere's inverse
    /// radius lies between those at the two ends of the step; `undershot`
    /// that the inverse radius at its end is below the bound from which no
    /// ray returns. A crossing is looked for first.
    pub fn finish_step(crossed: bool, undershot: bool) -> (outcome: StepOutcome)
        ensures
            outcome == if crossed {
                StepOutcome::Crossed
            } else if undershot {
                StepOutcome::Miss
            } else {
                StepOutcome::Advance
            },
    {
        if crossed {
            StepOutcome::Crossed
        } else if undershot {
            StepOutcome::Miss
        } else {
            StepOutcome::Advance
        }
    }
}

/// No ray is integrated beyond the step budget.
pub proof fn lemma_integration_ends(
    tracer: SphereRayTracer,
    flat: bool,
    iteration: u32,
    beyond_horizon: bool,
    inbound: bool,
    u_positive: bool,
)
    requires
        iteration >= tracer.max_iter,
    ensures
        !tracer.integrating(flat, iteration, beyond_horizon, inbound, u_positive),
{
}

/// The radial rays that miss: from outside the horizon and inside the
/// sphere, those towards a black hole; from inside the horizon, those that
/// cannot reach a sphere outside it for want of energy; from outside the
/// sphere, all but those that fall onto a sphere outside the horizon. Every
/// other radial ray arrives, and none is integrated.
pub proof fn lemma_radial_rays(scene: Scene, ray: Ray)
    requires
        ray.radial,
    ensures
        geodesic_plan(scene, ray) != GeodesicPlan::Integrate,
        geodesic_plan(scene, ray) == GeodesicPlan::Miss <==> {
            ||| scene.inside_sphere && scene.outside && ray.falling && !scene.flat
            ||| scene.inside_sphere && !scene.outside && scene.sphere_outside
                && !ray.energy_positive
            ||| !scene.inside_sphere && !(scene.sphere_outside && ray.falling)
        },
        geodesic_plan(scene, ray) == GeodesicPlan::Hit(Arrival::Behind) <==> scene.inside_sphere
            && scene.outside && ray.falling && scene.flat,
{
}

/// A ray held back by the barrier at the photon sphere never meets a sphere
/// on the other side of it: such a ray is a miss, and none is integrated.
pub proof fn lemma_barred_ray_misses(scene: Scene, ray: Ray)
    requires
        !ray.radial,
        barred(scene, ray),
    ensures
        geodesic_plan(scene, ray) == GeodesicPlan::Miss,
{
}

/// Looking away from a sphere that lies wholly below an observer above the
/// photon sphere, no ray meets it, radial or not.
pub proof fn lemma_looking_away_misses(scene: Scene, ray: Ray)
    requires
        scene.above_photon_sphere,
        !scene.inside_sphere,
        !ray.falling,
    ensures
        geodesic_plan(scene, ray) == GeodesicPlan::Miss,
{
}

/// From below the photon sphere of a black hole, no ray that starts
/// inwards meets a sphere around the observer.
pub proof fn lemma_falling_below_photon_sphere_misses(scene: Scene, ray: Ray)
    requires
        !scene.flat,
        scene.outside,
        scene.below_photon_sphere,
        scene.inside_sphere,
        ray.falling,
    ensures
        geodesic_plan(scene, ray) == GeodesicPlan::Miss,
{
}

/// Without a black hole, an observer inside the sphere sees it along both
/// radial directions: ahead when looking out, and through the centre when
/// looking in.
pub proof fn lemma_flat_radial_rays_hit(scene: Scene, ray: Ray)
    requires
        scene.flat,
        scene.outside,
        scene.inside_sphere,
        ray.radial,
    ensures
        geodesic_plan(scene, ray) == GeodesicPlan::Hit(
            if ray.falling {
                Arrival::Behind
            } else {
                Arrival::Ahead
            },
        ),
{
}

} // verus!
