//! The observer: how it moves, and what follows from that for the picture.
//!
//! An observer rests, falls with a fixed energy, or rides an orbit. Only an
//! orbiting observer owns an [`Orbit`], so the orbit is part of that mode.
//!
//! In each frame the host asks [`Observer::update_position`] what moves the
//! observer; after a step of the orbit it reports the orbit's new state with
//! [`Observer::orbit_moved`]. It then builds the picture's transformations
//! as [`Observer::calc_transformation_pipeline`] plans them, with the
//! velocity formula of [`Observer::velocity`].

use vstd::prelude::*;
use crate::simulation::orbit::Orbit;

verus! {

/// Distance from the centre at which the observer starts, and to which a
/// reset takes it back; the start lies on the x-axis.
pub const START_RADIUS: u8 = 25;

/// The mode of motion.
#[derive(Copy, Clone, PartialEq, Eq, Debug)]
pub enum ObserverState {
    /// At rest against the black hole.
    Unmoving,
    /// Placed by the user, seeing what a radially falling observer sees.
    FrozenFall,
    /// Carried along a simulated orbit.
    Orbiting(Orbit),
}

/// The formula that gives the observer's velocity.
#[derive(Copy, Clone, PartialEq, Eq, Debug)]
pub enum VelocityRule {
    /// Static observer outside the horizon: pure time component.
    Static,
    /// "Static" observer inside the horizon, where nothing can rest: pure
    /// inward radial component.
    StaticInside,
    /// Radial fall with a conserved energy.
    Infall,
    /// The velocity of the orbit.
    Orbital,
}

/// What moves the observer in a frame.
#[derive(Copy, Clone, PartialEq, Eq, Debug)]
pub enum Motion {
    /// The user's direction input, turned into the camera's horizontal frame.
    Steered,
    /// One time step of the orbit.
    Orbital,
}

/// The formula that gives the aberration factor.
#[derive(Copy, Clone, PartialEq, Eq, Debug)]
pub enum AberrationRule {
    /// From the time component of the velocity.
    Outside,
    /// From the radial component of the velocity.
    Inside,
}

/// How the rotations between the standard, movement and central frames are
/// built.
#[derive(Copy, Clone, PartialEq, Eq, Debug)]
pub enum FrameRule {
    /// Radial motion: the movement frame looks at the centre, and the
    /// rotation from movement to centre is the identity.
    Radial,
    /// Sideways motion: both rotations are composed of the tilt of the orbital
    /// plane and an aberration angle each.
    Tilted,
}

/// What a frame's transformation pipeline is made from.
#[derive(Copy, Clone, PartialEq, Eq, Debug)]
pub enum PipelinePlan {
    /// The observer is singular: the rotations and the aberration factor of
    /// the last regular frame stay; only the camera direction is applied.
    Keep,
    /// Everything is computed afresh from position and velocity.
    Refresh { aberration: AberrationRule, frame: FrameRule },
}

/// Velocity of an observer at rest.
pub open spec fn unmoving_rule(outside_horizon: bool) -> VelocityRule {
    if outside_horizon {
        VelocityRule::Static
    } else {
        VelocityRule::StaticInside
    }
}

/// Velocity of a falling observer: an energy too small for the place falls
/// back on the observer at rest.
pub open spec fn frozen_fall_rule(outside_horizon: bool, energy_sufficient: bool) -> VelocityRule {
    if energy_sufficient {
        VelocityRule::Infall
    } else {
        unmoving_rule(outside_horizon)
    }
}

/// The observer as far as its mode of motion goes.
#[derive(Copy, Clone, PartialEq, Eq, Debug)]
pub struct Observer {
    pub state: ObserverState,
}

impl Observer {
    /// The orbit that the observer owns, if any.
    pub open spec fn orbit(self) -> Option<Orbit> {
        match self.state {
            ObserverState::Orbiting(orbit) => Some(orbit),
            _ => None,
        }
    }

    /// The velocity formula for the current mode.
    pub open spec fn velocity_rule(self, outside_horizon: bool, energy_sufficient: bool)
        -> VelocityRule {
        match self.state {
            ObserverState::Unmoving => unmoving_rule(outside_horizon),
            ObserverState::FrozenFall => frozen_fall_rule(outside_horizon, energy_sufficient),
            ObserverState::Orbiting(_) => VelocityRule::Orbital,
        }
    }

    /// Whether position and velocity give no usable frame: on the horizon
    /// always; otherwise at the centre, or where the orbit has ended.
    pub open spec fn singular(self, on_horizon: bool, at_center: bool) -> bool {
        on_horizon || match self.state {
            ObserverState::Orbiting(orbit) => orbit.has_hit_singularity,
            _ => at_center,
        }
    }

    /// Whether the observer moves sideways, so that the picture is rotated
    /// out of the radial direction.
    pub open spec fn sideways(self) -> bool {
        self.state matches ObserverState::Orbiting(orbit) && !orbit.central_fall
    }

    /// A new observer sees what a falling observer sees.
    pub fn new() -> (observer: Self)
        ensures
            observer.state == ObserverState::FrozenFall,
    {
        Observer { state: ObserverState::FrozenFall }
    }

    /// What moves the observer in this frame.
    pub fn update_position(&self) -> (motion: Motion)
        ensures
            motion == if self.orbit().is_some() {
                Motion::Orbital
            } else {
                Motion::Steered
            },
    {
        match self.state {
            ObserverState::Unmoving | ObserverState::FrozenFall => Motion::Steered,
            ObserverState::Orbiting(_) => Motion::Orbital,
        }
    }

    /// Takes note of the orbit as its last time step left it. An observer
    /// that is not orbiting has no orbit to take note of and stays as it is.
    pub fn orbit_moved(&mut self, orbit: Orbit)
        ensures
            final(self).state == if old(self).orbit().is_some() {
                ObserverState::Orbiting(orbit)
            } else {
                old(self).state
            },
    {
        match self.state {
            ObserverState::Orbiting(_) => {
                self.state = ObserverState::Orbiting(orbit);
            },
            _ => {},
        }
    }

    /// The velocity formula for the current mode. `energy_sufficient` says
    /// that the squared energy of the fall is at least the metric function
    /// at the observer's radius.
    pub fn velocity(&self, outside_horizon: bool, energy_sufficient: bool) -> (rule: VelocityRule)
        ensures
            rule == self.velocity_rule(outside_horizon, energy_sufficient),
    {
        match self.state {
            ObserverState::Unmoving => Self::unmoving_velocity(outside_horizon),
            ObserverState::FrozenFall => Self::frozen_fall_velocity(
                outside_horizon,
                energy_sufficient,
            ),
            ObserverState::Orbiting(_) => VelocityRule::Orbital,
        }
    }

    /// The velocity formula of an observer at rest.
    pub fn unmoving_velocity(outside_horizon: bool) -> (rule: VelocityRule)
        ensures
            rule == unmoving_rule(outside_horizon),
    {
        if outside_horizon {
            VelocityRule::Static
        } else {
            VelocityRule::StaticInside
        }
    }

    /// The velocity formula of a falling observer.
    pub fn frozen_fall_velocity(outside_horizon: bool, energy_sufficient: bool) -> (rule:
        VelocityRule)
        ensures
            rule == frozen_fall_rule(outside_horizon, energy_sufficient),
    {
        if !energy_sufficient {
            return Self::unmoving_velocity(outside_horizon);
        }
        VelocityRule::Infall
    }

    /// Puts the observer on an orbit launched from where it stands. Where no
    /// orbit can be launched (see [`Orbit::new`]) the observer stays as it
    /// is.
    pub fn start_orbit(&mut self, outside_horizon: bool, rotation_negligible: bool)
        ensures
            final(self).state == if outside_horizon {
                ObserverState::Orbiting(
                    Orbit { central_fall: rotation_negligible, has_hit_singularity: false },
                )
            } else {
                old(self).state
            },
    {
        match Orbit::new(outside_horizon, rotation_negligible) {
            Some(orbit) => {
                self.state = ObserverState::Orbiting(orbit);
            },
            None => {},
        }
    }

    /// Lets the observer see what a falling observer sees. An orbit is
    /// given up.
    pub fn start_frozen_fall(&mut self)
        ensures
            final(self).state == ObserverState::FrozenFall,
    {
        self.state = ObserverState::FrozenFall;
    }

    /// Puts the observer at rest. An orbit is given up.
    pub fn start_unmoving(&mut self)
        ensures
            final(self).state == ObserverState::Unmoving,
    {
        self.state = ObserverState::Unmoving;
    }

    /// Whether position and velocity give no usable frame. `on_horizon` and
    /// `at_center` say that the observer is within the tolerance of the
    /// horizon radius and of radius zero.
    pub fn is_singular(&self, on_horizon: bool, at_center: bool) -> (singular: bool)
        ensures
            singular == self.singular(on_horizon, at_center),
    {
        if on_horizon {
            return true;
        }
        match self.state {
            ObserverState::Unmoving | ObserverState::FrozenFall => at_center,
            ObserverState::Orbiting(orbit) => orbit.is_singular(),
        }
    }

    /// Plans the transformation pipeline of a frame. A singular observer
    /// keeps its last rotations; any other observer has them rebuilt, with
    /// the aberration formula of its side of the horizon and the frame rule
    /// of its motion.
    pub fn calc_transformation_pipeline(
        &self,
        on_horizon: bool,
        at_center: bool,
        outside_horizon: bool,
    ) -> (plan: PipelinePlan)
        ensures
            plan == if self.singular(on_horizon, at_center) {
                PipelinePlan::Keep
            } else {
                PipelinePlan::Refresh {
                    aberration: if outside_horizon {
                        AberrationRule::Outside
                    } else {
                        AberrationRule::Inside
                    },
                    frame: if self.sideways() {
                        FrameRule::Tilted
                    } else {
                        FrameRule::Radial
                    },
                }
            },
    {
        if self.is_singular(on_horizon, at_center) {
            return PipelinePlan::Keep;
        }
        let aberration = if outside_horizon {
            AberrationRule::Outside
        } else {
            AberrationRule::Inside
        };
        let frame = match self.state {
            ObserverState::Orbiting(orbit) => {
                if orbit.is_central_fall() {
                    FrameRule::Radial
                } else {
                    FrameRule::Tilted
                }
            },
            _ => FrameRule::Radial,
        };
        PipelinePlan::Refresh { aberration, frame }
    }

    /// Back to the start: a falling observer without an orbit.
    pub fn reset_to_start(&mut self)
        ensures
            final(self).state == ObserverState::FrozenFall,
    {
        self.start_frozen_fall();
    }
}

/// The observer owns an orbit exactly while it is orbiting, and then its
/// motion is that of the orbit.
pub proof fn lemma_orbit_iff_orbiting(observer: Observer, outside_horizon: bool, energy_sufficient: bool)
    ensures
        observer.orbit().is_some() <==> observer.state is Orbiting,
        observer.orbit().is_some() <==> observer.velocity_rule(outside_horizon, energy_sufficient)
            == VelocityRule::Orbital,
{
}

/// An observer whose orbit has ended is singular wherever it is, and stays
/// so under every further step of the orbit.
pub proof fn lemma_ended_orbit_is_singular(
    observer: Observer,
    lost: bool,
    on_horizon: bool,
    at_center: bool,
)
    requires
        observer.state matches ObserverState::Orbiting(orbit) && orbit.has_hit_singularity,
    ensures
        observer.singular(on_horizon, at_center),
        (Observer { state: ObserverState::Orbiting(observer.orbit().unwrap().after(lost)) })
            == observer,
{
}

} // verus!
