//! The waypoint sequencing abstraction the control policy consumes.

use vstd::prelude::*;
use crate::telemetry::{distance_spec, Meter, Point, MAX_COORDINATE};
use crate::math::abs_spec;

verus! {

/// Supplies the current target point and the reach/advance/done protocol.
///
/// The model is an immutable ordered list of waypoints and a cursor that
/// only moves forward, one waypoint per `next` call, and stops moving once
/// it has passed the last waypoint: from then on `done` stays true
/// forever.
pub trait WaypointGenerator {
    /// The full ordered list of waypoints.
    spec fn waypoints_spec(&self) -> Seq<Point>;

    /// The cursor: how many waypoints have been consumed.
    spec fn current_index_spec(&self) -> int;

    /// The distance below which a waypoint counts as reached.
    spec fn reach_distance_spec(&self) -> int;

    /// The generator's internal invariant.
    spec fn valid(&self) -> bool;

    /// What the invariant guarantees to every caller: the cursor stays
    /// within the list, the reach distance is a positive length, and every
    /// waypoint lies within the geometry's coordinate range.
    proof fn valid_properties(&self)
        requires
            self.valid(),
        ensures
            0 <= self.current_index_spec() <= self.waypoints_spec().len(),
            0 < self.reach_distance_spec() <= MAX_COORDINATE,
    ;

    /// Every waypoint of a valid generator lies within the geometry's
    /// coordinate range.
    proof fn waypoint_in_range(&self, i: int)
        requires
            self.valid(),
            0 <= i < self.waypoints_spec().len(),
        ensures
            abs_spec(self.waypoints_spec()[i].x as int) <= MAX_COORDINATE,
            abs_spec(self.waypoints_spec()[i].y as int) <= MAX_COORDINATE,
    ;

    /// Returns the current waypoint, if any is left.  The current position
    /// is passed in so that implementations can chase a moving target; the
    /// sequential generator ignores it.
    fn get_current_waypoint(&self, point: &Point) -> (waypoint: Option<Point>)
        requires
            self.valid(),
        ensures
            self.current_index_spec() < self.waypoints_spec().len() ==> waypoint == Some(
                self.waypoints_spec()[self.current_index_spec()],
            ),
            self.current_index_spec() >= self.waypoints_spec().len() ==> waypoint is None,
    ;

    /// Returns the absolute position of the current waypoint, if any is
    /// left.
    fn get_current_raw_waypoint(&self, point: &Point) -> (waypoint: Option<Point>)
        requires
            self.valid(),
        ensures
            self.current_index_spec() < self.waypoints_spec().len() ==> waypoint == Some(
                self.waypoints_spec()[self.current_index_spec()],
            ),
            self.current_index_spec() >= self.waypoints_spec().len() ==> waypoint is None,
    ;

    /// Moves to the next waypoint.  Once the generator is done, the cursor
    /// stays where it is, so `done` never reverts.
    fn next(&mut self)
        requires
            old(self).valid(),
        ensures
            final (self).valid(),
            final (self).waypoints_spec() == old(self).waypoints_spec(),
            final (self).reach_distance_spec() == old(self).reach_distance_spec(),
            final (self).current_index_spec() == if old(self).current_index_spec() >= old(
                self,
            ).waypoints_spec().len() {
                old(self).current_index_spec()
            } else {
                old(self).current_index_spec() + 1
            },
    ;

    /// Returns true if the current waypoint has been reached: a waypoint
    /// is left and the position is strictly within the reach distance of
    /// it.
    fn reached(&self, point: &Point) -> (r: bool)
        requires
            self.valid(),
            abs_spec(point.x as int) <= MAX_COORDINATE,
            abs_spec(point.y as int) <= MAX_COORDINATE,
        ensures
            r == (self.current_index_spec() < self.waypoints_spec().len() && distance_spec(
                self.waypoints_spec()[self.current_index_spec()],
                *point,
            ) < self.reach_distance_spec()),
    ;

    /// Returns true if there are no more waypoints.
    fn done(&self) -> (r: bool)
        requires
            self.valid(),
        ensures
            r == (self.current_index_spec() >= self.waypoints_spec().len()),
    ;

    /// Returns the distance required to consider a waypoint as reached.
    fn reach_distance(&self) -> (r: Meter)
        requires
            self.valid(),
        ensures
            r == self.reach_distance_spec(),
            0 < r <= MAX_COORDINATE,
    ;
}

} // verus!
