//! The light ray that connects a tracked point with the observer.
//!
//! The host keeps a discretised profile of the ray and improves it from
//! frame to frame. [`RayConnector`] decides, for each position of the
//! observer, whether that profile can be continued, has to be rebuilt, or is
//! not needed at all because the ray is nearly straight.
//!
//! For each position the host measures the [`Separation`] and whether the
//! observer has jumped, and follows the [`RayPlan`] that
//! [`RayConnector::update_ray`] returns: it rebuilds the profile if told so,
//! and finds the incoming angle by the plan's [`AngleRule`], with the formula
//! that [`RayConnector::calc_ray_angle`] picks.

use vstd::prelude::*;

verus! {

/// Number of nodes of the discretised profile, end points included.
pub const NR_NODES: usize = 48;

/// Number of interior nodes, the unknowns of each Newton step.
pub const NR_INTERIOR_NODES: usize = 46;

/// Newton iterations spent on a rebuilt profile; after that many the
/// discretisation error dominates.
pub const RESET_ITERATIONS: usize = 5;

/// The angle at the centre between the tracked point and the observer,
/// measured along the connector's side.
#[derive(Copy, Clone, PartialEq, Eq, Debug)]
pub enum Separation {
    /// Exactly zero: point, observer and centre are in line.
    Aligned,
    /// Below the smallest angle for which the profile is well conditioned.
    Narrow,
    /// Anything else.
    Wide,
}

/// Where the incoming angle at the observer comes from.
#[derive(Copy, Clone, PartialEq, Eq, Debug)]
pub enum AngleRule {
    /// The observer looks along the line through the centre: straight at
    /// the point, or straight away from it.
    InLine,
    /// A first-order estimate of the ray's slope from the two end points.
    Chord,
    /// The slope of the profile at the observer's end, after that many
    /// Newton iterations.
    Profile { iterations: usize },
}

/// What the host does with the profile for one position of the observer.
#[derive(Copy, Clone, PartialEq, Eq, Debug)]
pub struct RayPlan {
    /// The profile is first replaced by the straight line between its two
    /// end values.
    pub rebuild: bool,
    /// How the incoming angle is found.
    pub angle: AngleRule,
}

/// The formula that turns the ray's slope into the angle that a static
/// observer perceives.
#[derive(Copy, Clone, PartialEq, Eq, Debug)]
pub enum AngleBranch {
    /// Observer outside the horizon.
    Outside,
    /// Observer inside the horizon, slope steep enough for the formula.
    Inside,
    /// Observer inside the horizon, slope too flat for the formula. The
    /// perceived angle counts as zero there, which is known to be inexact; it
    /// concerns only points seen from inside the horizon.
    InsideUnresolved,
}

/// The angle formula together with the sign that tells the two sides apart.
#[derive(Copy, Clone, PartialEq, Eq, Debug)]
pub struct RayAngle {
    pub branch: AngleBranch,
    /// `1` on the near side, `-1` for rays that take the long way round.
    pub sign: i8,
}

/// The discrete state of a connector.
#[derive(Copy, Clone, PartialEq, Eq, Debug)]
pub struct RayConnector {
    /// The connector follows the ray that spans less than half a turn.
    pub less_than_180: bool,
    /// The profile is stale and must be rebuilt before it is used again.
    pub needs_reset: bool,
}

impl RayConnector {
    /// The angle rule for a separation, with `iterations` Newton iterations
    /// where the profile is used.
    pub open spec fn angle_rule(separation: Separation, iterations: usize) -> AngleRule {
        match separation {
            Separation::Aligned => AngleRule::InLine,
            Separation::Narrow => AngleRule::Chord,
            Separation::Wide => AngleRule::Profile { iterations },
        }
    }

    /// The plan for one position of the observer. A stale profile is rebuilt
    /// in any case. A current one is rebuilt only where it is both needed
    /// and invalid: at a wide separation after a jump of the observer's
    /// radius. A rebuilt profile gets [`RESET_ITERATIONS`] iterations, a
    /// continued one those that the caller asks for.
    pub open spec fn plan(self, separation: Separation, jumped: bool, iterations: usize)
        -> RayPlan {
        let rebuild = self.needs_reset || (separation == Separation::Wide && jumped);
        RayPlan {
            rebuild,
            angle: Self::angle_rule(
                separation,
                if rebuild {
                    RESET_ITERATIONS
                } else {
                    iterations
                },
            ),
        }
    }

    /// The connector after one position of the observer: the profile is
    /// current exactly if it was solved for.
    pub open spec fn after(self, separation: Separation) -> RayConnector {
        RayConnector { needs_reset: separation != Separation::Wide, ..self }
    }

    /// The connector after the observer has gone along `path`, of which
    /// each entry is the separation at one position.
    pub open spec fn after_path(self, path: Seq<Separation>) -> RayConnector
        decreases path.len(),
    {
        if path.len() == 0 {
            self
        } else {
            self.after_path(path.drop_last()).after(path.last())
        }
    }

    /// A connector for the near side (`true`) or the far side. Its profile
    /// is yet to be built.
    pub fn new(less_than_180: bool) -> (connector: Self)
        ensures
            connector == (RayConnector { less_than_180, needs_reset: true }),
    {
        RayConnector { less_than_180, needs_reset: true }
    }

    /// Rebuilds the profile from scratch for the observer's position.
    pub fn reset_ray(&mut self, separation: Separation) -> (plan: RayPlan)
        ensures
            *final(self) == old(self).after(separation),
            plan == (RayPlan {
                rebuild: true,
                angle: Self::angle_rule(separation, RESET_ITERATIONS),
            }),
    {
        self.needs_reset = false;
        let plan = self.update_ray(separation, false, RESET_ITERATIONS);
        RayPlan { rebuild: true, angle: plan.angle }
    }

    /// Plans the update for the observer's position. `jumped` says that the
    /// observer's radius is too far from the one that the profile was last
    /// solved for; it is looked at only where a current profile would be
    /// continued.
    pub fn update_ray(&mut self, separation: Separation, jumped: bool, iterations: usize) -> (plan:
        RayPlan)
        ensures
            *final(self) == old(self).after(separation),
            plan == old(self).plan(separation, jumped, iterations),
    {
        let stale = self.needs_reset;
        match separation {
            Separation::Aligned => {
                self.needs_reset = true;
                RayPlan { rebuild: stale, angle: AngleRule::InLine }
            },
            Separation::Narrow => {
                self.needs_reset = true;
                RayPlan { rebuild: stale, angle: AngleRule::Chord }
            },
            Separation::Wide => {
                self.needs_reset = false;
                if stale || jumped {
                    RayPlan {
                        rebuild: true,
                        angle: AngleRule::Profile { iterations: RESET_ITERATIONS },
                    }
                } else {
                    RayPlan { rebuild: false, angle: AngleRule::Profile { iterations } }
                }
            },
        }
    }

    /// The formula for the perceived angle. `resolvable` says that the slope
    /// is steep enough for the formula inside the horizon; it is not looked
    /// at outside.
    pub fn calc_ray_angle(&self, outside_horizon: bool, resolvable: bool) -> (angle: RayAngle)
        ensures
            angle.branch == if outside_horizon {
                AngleBranch::Outside
            } else if resolvable {
                AngleBranch::Inside
            } else {
                AngleBranch::InsideUnresolved
            },
            angle.sign == if self.less_than_180 {
                1i8
            } else {
                -1i8
            },
    {
        let branch = if outside_horizon {
            AngleBranch::Outside
        } else if resolvable {
            AngleBranch::Inside
        } else {
            AngleBranch::InsideUnresolved
        };
        let sign: i8 = if self.less_than_180 {
            1
        } else {
            -1
        };
        RayAngle { branch, sign }
    }
}

/// The profile has two end points around its interior nodes, and at least
/// one interior node.
pub proof fn lemma_profile_nodes()
    ensures
        NR_NODES == NR_INTERIOR_NODES + 2,
        NR_INTERIOR_NODES >= 1,
{
}

/// To rebuild the profile is to update a connector whose profile is stale,
/// with no regard to jumps or to the iterations asked for.
pub proof fn lemma_reset_is_stale_update(
    connector: RayConnector,
    separation: Separation,
    jumped: bool,
    iterations: usize,
)
    ensures
        (RayConnector { needs_reset: true, ..connector }).plan(separation, jumped, iterations) == (
        RayPlan {
            rebuild: true,
            angle: RayConnector::angle_rule(separation, RESET_ITERATIONS),
        }),
        (RayConnector { needs_reset: true, ..connector }).after(separation) == connector.after(
            separation,
        ),
{
}

/// An observer that does not move leaves the connector unchanged from the
/// second update on; and at a wide separation every update after the first
/// continues the profile, with exactly the iterations asked for.
pub proof fn lemma_no_motion_is_fixed_point(
    connector: RayConnector,
    separation: Separation,
    iterations: usize,
)
    ensures
        connector.after(separation).after(separation) == connector.after(separation),
        separation == Separation::Wide ==> connector.after(separation).plan(
            separation,
            false,
            iterations,
        ) == (RayPlan { rebuild: false, angle: AngleRule::Profile { iterations } }),
{
}

/// Wherever the observer has been, the profile is current exactly if the
/// last position was at a wide separation, and the connector keeps its side.
/// So along a path of wide separations that the observer follows without
/// jumps, the update at the first position is the only one that may rebuild
/// the profile.
pub proof fn lemma_profile_follows_the_path(
    connector: RayConnector,
    path: Seq<Separation>,
    iterations: usize,
)
    requires
        path.len() > 0,
    ensures
        connector.after_path(path).less_than_180 == connector.less_than_180,
        connector.after_path(path).needs_reset == (path.last() != Separation::Wide),
        path.last() == Separation::Wide ==> connector.after_path(path).plan(
            Separation::Wide,
            false,
            iterations,
        ) == (RayPlan { rebuild: false, angle: AngleRule::Profile { iterations } }),
    decreases path.len(),
{
    if path.len() > 1 {
        lemma_profile_follows_the_path(connector, path.drop_last(), iterations);
    } else {
        reveal_with_fuel(RayConnector::after_path, 2);
    }
}

/// A current profile is continued, never rebuilt, while the separation
/// stays wide and the observer does not jump: each update then starts from
/// the solution of the update before, with exactly the iterations asked
/// for.
pub proof fn lemma_warm_start_continues(connector: RayConnector, iterations: usize)
    requires
        !connector.needs_reset,
    ensures
        connector.plan(Separation::Wide, false, iterations) == (RayPlan {
            rebuild: false,
            angle: AngleRule::Profile { iterations },
        }),
        !connector.after(Separation::Wide).needs_reset,
{
}

} // verus!
