//! The snake's path, heading, progress and growth queue, and the transitions
//! that move them.
use vstd::prelude::*;

use crate::geometry::{move_fits, move_point, moved, one_step_apart, dot, Direction, Point};
use crate::random::random_in_range;

verus! {

/// Progress is counted in thousandths of a grid cell: elapsed milliseconds
/// times a speed in cells per second.
pub const UNITS_PER_CELL: u64 = 1000;

/// What the caller chooses: the size of a grid cell in world units, the
/// speed in cells per second, and the grid cells (inclusive) where food may
/// be placed.
#[derive(Clone, Copy, Debug, PartialEq, Eq, Structural)]
pub struct Config {
    pub grid_scale: i64,
    pub speed: u32,
    pub food_min_x: i64,
    pub food_max_x: i64,
    pub food_min_y: i64,
    pub food_max_y: i64,
}

/// `g * c` is within the range of `i64`.
pub open spec fn scaled_fits(g: int, c: int) -> bool {
    i64::MIN <= g * c <= i64::MAX
}

impl Config {
    /// A positive grid scale, non-empty food ranges, and every food cell
    /// expressible in world units.
    pub open spec fn wf(self) -> bool {
        &&& self.grid_scale > 0
        &&& self.food_min_x <= self.food_max_x
        &&& self.food_min_y <= self.food_max_y
        &&& scaled_fits(self.grid_scale as int, self.food_min_x as int)
        &&& scaled_fits(self.grid_scale as int, self.food_max_x as int)
        &&& scaled_fits(self.grid_scale as int, self.food_min_y as int)
        &&& scaled_fits(self.grid_scale as int, self.food_max_y as int)
    }

    /// `p` is the world position of a cell where food may be placed.
    pub open spec fn is_food_spot(self, p: Point) -> bool {
        exists|cx: int, cy: int|
            #![trigger self.grid_scale * cx, self.grid_scale * cy]
            self.food_min_x <= cx <= self.food_max_x && self.food_min_y <= cy <= self.food_max_y
                && p.x == self.grid_scale * cx && p.y == self.grid_scale * cy
    }
}

/// What one call of `advance` or `step` did.
#[derive(Clone, Copy, Debug, PartialEq, Eq, Structural)]
pub struct AdvanceResult {
    /// The path took a grid step.
    pub stepped: bool,
    /// The index of the segment that this step created, if it grew.
    pub segment_added: Option<usize>,
    /// The new head landed on the food.
    pub food_consumed: bool,
}

/// The state of one snake: its path, head first; the progress from
/// `path[1]` towards `path[0]`; its heading; the pending growth markers,
/// oldest first; the food position; and the configuration.
pub struct Simulation {
    path: Vec<Point>,
    progress: u64,
    heading: Direction,
    markers: Vec<usize>,
    food: Point,
    config: Config,
}

impl Simulation {
    /// The waypoints, head first.
    pub closed spec fn path_seq(&self) -> Seq<Point> {
        self.path@
    }

    /// Progress towards the head waypoint, in units of `UNITS_PER_CELL`.
    pub closed spec fn progress_units(&self) -> nat {
        self.progress as nat
    }

    pub closed spec fn heading_dir(&self) -> Direction {
        self.heading
    }

    /// The pending growth markers, oldest first.
    pub closed spec fn marker_seq(&self) -> Seq<usize> {
        self.markers@
    }

    pub closed spec fn food_pos(&self) -> Point {
        self.food
    }

    pub closed spec fn cfg(&self) -> Config {
        self.config
    }

    /// The number of body segments: one for each pair of consecutive
    /// waypoints.
    pub open spec fn segments(&self) -> int {
        self.path_seq().len() - 1
    }

    /// The index of the last segment boundary before the tail waypoint.
    pub open spec fn tail_index(&self) -> int {
        self.path_seq().len() - 2
    }

    /// The invariant of every reachable state: consecutive waypoints one grid
    /// step apart, progress below one cell, and growth markers strictly
    /// decreasing (oldest first) and never beyond the tail index.
    pub open spec fn wf(&self) -> bool {
        let p = self.path_seq();
        let m = self.marker_seq();
        &&& self.cfg().wf()
        &&& 2 <= p.len() <= usize::MAX
        &&& forall|i: int|
            0 <= i < p.len() - 1 ==> #[trigger] one_step_apart(
                p[i],
                p[i + 1],
                self.cfg().grid_scale as int,
            )
        &&& self.progress_units() < UNITS_PER_CELL
        &&& forall|i: int, j: int| 0 <= i < j < m.len() ==> m[i] > m[j]
        &&& forall|i: int| 0 <= i < m.len() ==> m[i] <= self.tail_index()
    }

    /// The head the next grid step reaches.
    pub open spec fn next_head(&self) -> Point {
        let h = moved(self.path_seq()[0], self.heading_dir(), self.cfg().grid_scale as int);
        Point { x: h.0 as i64, y: h.1 as i64 }
    }

    /// The next grid step stays within the range of `i64`.
    pub open spec fn can_step(&self) -> bool {
        move_fits(self.path_seq()[0], self.heading_dir(), self.cfg().grid_scale as int)
    }

    /// The next grid step resolves the oldest growth marker.
    pub open spec fn grows_next(&self) -> bool {
        self.marker_seq().len() > 0 && self.marker_seq()[0] == self.tail_index()
    }

    /// The path after the next grid step: the new head in front, and the tail
    /// waypoint dropped unless the path grows.
    pub open spec fn path_after_step(&self) -> Seq<Point> {
        if self.grows_next() {
            seq![self.next_head()] + self.path_seq()
        } else {
            seq![self.next_head()] + self.path_seq().drop_last()
        }
    }

    /// The markers after the next grid step: the oldest removed if resolved,
    /// every other one a step further from the head, and a fresh one at 0 if
    /// the food was reached.
    pub open spec fn markers_after_step(&self) -> Seq<usize> {
        let kept = if self.grows_next() {
            self.marker_seq().drop_first()
        } else {
            self.marker_seq()
        };
        let bumped = kept.map_values(|m: usize| (m + 1) as usize);
        if self.next_head() == self.food_pos() {
            bumped.push(0)
        } else {
            bumped
        }
    }

    /// What the next grid step reports.
    pub open spec fn step_result(&self) -> AdvanceResult {
        AdvanceResult {
            stepped: true,
            segment_added: if self.grows_next() {
                Some((self.tail_index() + 1) as usize)
            } else {
                None
            },
            food_consumed: self.next_head() == self.food_pos(),
        }
    }

    /// `post` is `pre` after one grid step, before any food relocation.
    pub open spec fn is_step(pre: &Simulation, post: &Simulation) -> bool {
        &&& post.path_seq() == pre.path_after_step()
        &&& post.marker_seq() == pre.markers_after_step()
        &&& post.progress_units() == pre.progress_units()
        &&& post.heading_dir() == pre.heading_dir()
        &&& post.food_pos() == pre.food_pos()
        &&& post.cfg() == pre.cfg()
    }

    /// A new snake: the seed path `[(g, 0), (0, 0)]`, heading right, no
    /// progress, no pending growth, and the food at `food`.
    pub fn new(config: Config, food: Point) -> (r: Simulation)
        requires
            config.wf(),
        ensures
            r.wf(),
            r.path_seq() == seq![(Point { x: config.grid_scale, y: 0 }), (Point { x: 0, y: 0 })],
            r.progress_units() == 0,
            r.heading_dir() == Direction::Right,
            r.marker_seq() == Seq::<usize>::empty(),
            r.food_pos() == food,
            r.cfg() == config,
    {
        let path = vec![Point { x: config.grid_scale, y: 0 }, Point { x: 0, y: 0 }];
        let r = Simulation {
            path,
            progress: 0,
            heading: Direction::Right,
            markers: Vec::new(),
            food,
            config,
        };
        assert(one_step_apart(r.path@[0], r.path@[1], config.grid_scale as int));
        r
    }

    /// Takes one grid step: puts the next head in front of the path and
    /// either resolves the oldest growth marker (the path grows by one
    /// waypoint and a segment is added) or drops the tail waypoint; then moves
    /// every pending marker one step further from the head, and enqueues a new
    /// marker at 0 when the new head is exactly the food position. The food is
    /// not moved.
    pub fn step(&mut self) -> (r: AdvanceResult)
        requires
            old(self).wf(),
            old(self).can_step(),
        ensures
            final(self).wf(),
            Self::is_step(&*old(self), &*final(self)),
            r == old(self).step_result(),
    {
        let ghost pre = *self;
        let g = self.config.grid_scale;
        let new_head = move_point(self.path[0], self.heading, g);
        assert(new_head == pre.next_head());
        let tail = self.path.len() - 2;
        let grows = self.markers.len() > 0 && self.markers[0] == tail;
        let segment_added: Option<usize>;
        if grows {
            self.path.insert(0, new_head);
            self.markers.remove(0);
            segment_added = Some(tail + 1);
        } else {
            self.path.insert(0, new_head);
            self.path.pop();
            segment_added = None;
        }
        assert(self.path@ == pre.path_after_step());
        let ghost kept = self.markers@;
        let path_len = self.path.len();
        assert(forall|i: int| 0 <= i < kept.len() ==> kept[i] < self.path@.len() - 1) by {
            if grows {
                assert forall|i: int| 0 <= i < kept.len() implies kept[i] < self.path@.len() - 1 by {
                    assert(kept[i] == pre.markers@[i + 1]);
                }
            }
        }
        let mut bumped: Vec<usize> = Vec::new();
        let mut i: usize = 0;
        while i < self.markers.len()
            invariant
                i <= self.markers@.len(),
                self.markers@ == kept,
                forall|k: int| 0 <= k < kept.len() ==> kept[k] < self.path@.len() - 1,
                self.path@.len() == path_len,
                bumped@.len() == i,
                forall|k: int| 0 <= k < i ==> bumped@[k] == kept[k] + 1,
            decreases self.markers@.len() - i,
        {
            let m = self.markers[i];
            bumped.push(m + 1);
            i = i + 1;
        }
        let food_consumed = new_head == self.food;
        if food_consumed {
            bumped.push(0);
        }
        self.markers = bumped;
        proof {
            let bumped_spec = kept.map_values(|m: usize| (m + 1) as usize);
            if food_consumed {
                assert(self.markers@ =~= bumped_spec.push(0));
            } else {
                assert(self.markers@ =~= bumped_spec);
            }
            assert forall|k: int| 0 <= k < self.path@.len() - 1 implies #[trigger] one_step_apart(
                self.path@[k],
                self.path@[k + 1],
                g as int,
            ) by {
                if k > 0 {
                    assert(self.path@[k] == pre.path@[k - 1]);
                    assert(self.path@[k + 1] == pre.path@[k]);
                    let j = k - 1;
                    assert(one_step_apart(pre.path@[j], pre.path@[j + 1], g as int));
                } else {
                    assert(self.path@[0] == new_head);
                    assert(self.path@[1] == pre.path@[0]);
                    match pre.heading {
                        Direction::Left => assert(-1 * g == -g),
                        Direction::Right => assert(1 * g == g),
                        Direction::Up => assert(0 * g == 0),
                        Direction::Down => assert(0 * g == 0),
                    }
                }
            }
        }
        AdvanceResult { stepped: true, segment_added, food_consumed }
    }

    /// The direction of travel `path[0] - path[1]` has a negative dot
    /// product with `d`: turning to `d` would reverse the snake.
    pub open spec fn reverses(&self, d: Direction) -> bool {
        let p = self.path_seq();
        dot(d.dx(), d.dy(), p[0].x - p[1].x, p[0].y - p[1].y) < 0
    }

    /// Replaces the heading with `candidate` unless that reverses the
    /// direction of travel; returns whether it did.
    pub fn set_heading(&mut self, candidate: Direction) -> (accepted: bool)
        requires
            old(self).wf(),
        ensures
            final(self).wf(),
            accepted == !old(self).reverses(candidate),
            final(self).heading_dir() == (if accepted {
                candidate
            } else {
                old(self).heading_dir()
            }),
            final(self).path_seq() == old(self).path_seq(),
            final(self).marker_seq() == old(self).marker_seq(),
            final(self).progress_units() == old(self).progress_units(),
            final(self).food_pos() == old(self).food_pos(),
            final(self).cfg() == old(self).cfg(),
    {
        let a = self.path[0];
        let b = self.path[1];
        let against = match candidate {
            Direction::Left => a.x > b.x,
            Direction::Right => a.x < b.x,
            Direction::Up => a.y < b.y,
            Direction::Down => a.y > b.y,
        };
        if !against {
            self.heading = candidate;
        }
        proof {
            assert(self.cfg().wf());
            assert(self.path_seq() == old(self).path_seq());
            assert(self.marker_seq() == old(self).marker_seq());
        }
        !against
    }

    /// Puts the food on grid cell `(cell_x, cell_y)`, which must lie within
    /// the configured food range.
    pub fn relocate_food(&mut self, cell_x: i64, cell_y: i64)
        requires
            old(self).wf(),
            old(self).cfg().food_min_x <= cell_x <= old(self).cfg().food_max_x,
            old(self).cfg().food_min_y <= cell_y <= old(self).cfg().food_max_y,
        ensures
            final(self).wf(),
            final(self).food_pos() == (Point {
                x: (old(self).cfg().grid_scale * cell_x) as i64,
                y: (old(self).cfg().grid_scale * cell_y) as i64,
            }),
            final(self).cfg().is_food_spot(final(self).food_pos()),
            final(self).path_seq() == old(self).path_seq(),
            final(self).marker_seq() == old(self).marker_seq(),
            final(self).progress_units() == old(self).progress_units(),
            final(self).heading_dir() == old(self).heading_dir(),
            final(self).cfg() == old(self).cfg(),
    {
        let c = self.config;
        let g = c.grid_scale;
        proof {
            lemma_scaled_between(g as int, c.food_min_x as int, cell_x as int, c.food_max_x as int);
            lemma_scaled_between(g as int, c.food_min_y as int, cell_y as int, c.food_max_y as int);
        }
        self.food = Point { x: g * cell_x, y: g * cell_y };
        assert(c.is_food_spot(self.food)) by {
            let cx = cell_x as int;
            let cy = cell_y as int;
            assert(self.food.x == c.grid_scale * cx && self.food.y == c.grid_scale * cy);
        }
        proof {
            assert(self.cfg().wf());
            assert(self.path_seq() == old(self).path_seq());
            assert(self.marker_seq() == old(self).marker_seq());
        }
    }

    /// Adds `dt_ms * speed` units of progress. Below one whole cell nothing
    /// else changes. On reaching a whole cell the remainder is kept, one grid
    /// step is taken (see `step`), never more than one, and if the food was
    /// reached it is moved to a random cell of the configured range.
    pub fn advance(&mut self, dt_ms: u32) -> (r: AdvanceResult)
        requires
            old(self).wf(),
            old(self).progress_units() + dt_ms * old(self).cfg().speed >= UNITS_PER_CELL
                ==> old(self).can_step(),
        ensures
            final(self).wf(),
            ({
                let total = old(self).progress_units() + dt_ms * old(self).cfg().speed;
                &&& final(self).progress_units() == total % (UNITS_PER_CELL as int)
                &&& r.stepped == (total >= UNITS_PER_CELL)
            }),
            final(self).path_seq().len() == old(self).path_seq().len()
                || final(self).path_seq().len() == old(self).path_seq().len() + 1,
            !r.stepped ==> r == (AdvanceResult {
                stepped: false,
                segment_added: None,
                food_consumed: false,
            }),
            !r.stepped ==> final(self).path_seq() == old(self).path_seq(),
            !r.stepped ==> final(self).marker_seq() == old(self).marker_seq(),
            !r.stepped ==> final(self).food_pos() == old(self).food_pos(),
            r.stepped ==> r == old(self).step_result(),
            r.stepped ==> final(self).path_seq() == old(self).path_after_step(),
            r.stepped ==> final(self).marker_seq() == old(self).markers_after_step(),
            r.stepped && !r.food_consumed ==> final(self).food_pos() == old(self).food_pos(),
            r.food_consumed ==> final(self).cfg().is_food_spot(final(self).food_pos()),
            final(self).heading_dir() == old(self).heading_dir(),
            final(self).cfg() == old(self).cfg(),
    {
        let speed = self.config.speed;
        assert(dt_ms as int * speed as int <= 0xffff_ffff * 0xffff_ffff) by (nonlinear_arith)
            requires
                dt_ms <= 0xffff_ffff,
                speed <= 0xffff_ffff,
        ;
        let gained = dt_ms as u64 * speed as u64;
        let total = self.progress + gained;
        self.progress = total % UNITS_PER_CELL;
        if total < UNITS_PER_CELL {
            return AdvanceResult { stepped: false, segment_added: None, food_consumed: false };
        }
        let r = self.step();
        if r.food_consumed {
            let cell_x = random_in_range(self.config.food_min_x, self.config.food_max_x);
            let cell_y = random_in_range(self.config.food_min_y, self.config.food_max_y);
            self.relocate_food(cell_x, cell_y);
        }
        r
    }

    /// The position of segment `segment`, between `path[segment + 1]` and
    /// `path[segment]` by the current progress, in thousandths of a world
    /// unit.
    pub fn interpolated_position(&self, segment: usize) -> (r: (i128, i128))
        requires
            self.wf(),
            segment < self.segments(),
        ensures
            ({
                let from = self.path_seq()[segment + 1];
                let to = self.path_seq()[segment as int];
                let f = self.progress_units() as int;
                &&& r.0 == from.x * UNITS_PER_CELL + (to.x - from.x) * f
                &&& r.1 == from.y * UNITS_PER_CELL + (to.y - from.y) * f
            }),
    {
        let n = self.path.len();
        let from = self.path[segment + 1];
        let to = self.path[segment];
        let f = self.progress as i128;
        let ex = lerp_scaled(from.x, to.x, f);
        let ey = lerp_scaled(from.y, to.y, f);
        (ex, ey)
    }

    /// The waypoint `path[index]`, as it is.
    pub fn marker_position(&self, index: usize) -> (r: Point)
        requires
            index < self.path_seq().len(),
        ensures
            r == self.path_seq()[index as int],
    {
        self.path[index]
    }

    pub fn heading(&self) -> (r: Direction)
        ensures
            r == self.heading_dir(),
    {
        self.heading
    }

    pub fn food(&self) -> (r: Point)
        ensures
            r == self.food_pos(),
    {
        self.food
    }

    /// Progress towards the head waypoint, in units of `UNITS_PER_CELL`.
    pub fn progress(&self) -> (r: u64)
        ensures
            r == self.progress_units(),
    {
        self.progress
    }

    pub fn config(&self) -> (r: Config)
        ensures
            r == self.cfg(),
    {
        self.config
    }

    pub fn path_len(&self) -> (r: usize)
        ensures
            r == self.path_seq().len(),
    {
        self.path.len()
    }

    /// The number of body segments, each drawn between two consecutive
    /// waypoints.
    pub fn segment_count(&self) -> (r: usize)
        requires
            self.wf(),
        ensures
            r == self.segments(),
    {
        self.path.len() - 1
    }

    /// A copy of the waypoints, head first.
    pub fn waypoints(&self) -> (r: Vec<Point>)
        ensures
            r@ == self.path_seq(),
    {
        copy_points(&self.path)
    }

    /// A copy of the pending growth markers, oldest first.
    pub fn pending_markers(&self) -> (r: Vec<usize>)
        ensures
            r@ == self.marker_seq(),
    {
        let mut out: Vec<usize> = Vec::new();
        let mut i: usize = 0;
        while i < self.markers.len()
            invariant
                i <= self.markers@.len(),
                out@ == self.markers@.subrange(0, i as int),
            decreases self.markers@.len() - i,
        {
            out.push(self.markers[i]);
            i = i + 1;
        }
        assert(out@ =~= self.markers@);
        out
    }
}

/// `g * x` lies between `g * lo` and `g * hi` when `g` is positive.
proof fn lemma_scaled_between(g: int, lo: int, x: int, hi: int)
    requires
        g > 0,
        lo <= x <= hi,
    ensures
        g * lo <= g * x <= g * hi,
{
    assert(g * lo <= g * x) by (nonlinear_arith)
        requires
            g > 0,
            lo <= x,
    ;
    assert(g * x <= g * hi) by (nonlinear_arith)
        requires
            g > 0,
            x <= hi,
    ;
}

/// `from * UNITS_PER_CELL + (to - from) * f`, for progress `f` below one cell.
fn lerp_scaled(from: i64, to: i64, f: i128) -> (r: i128)
    requires
        0 <= f < UNITS_PER_CELL,
    ensures
        r == from * UNITS_PER_CELL + (to - from) * f,
{
    let unit = UNITS_PER_CELL as i128;
    assert(unit == 1000);
    let base = from as i128 * unit;
    let span = to as i128 - from as i128;
    assert(-0x2_0000_0000_0000_0000 * 1000 <= span * f <= 0x2_0000_0000_0000_0000 * 1000)
        by (nonlinear_arith)
        requires
            -0x2_0000_0000_0000_0000 <= span <= 0x2_0000_0000_0000_0000,
            0 <= f < 1000,
    ;
    base + span * f
}

fn copy_points(v: &Vec<Point>) -> (r: Vec<Point>)
    ensures
        r@ == v@,
{
    let mut out: Vec<Point> = Vec::new();
    let mut i: usize = 0;
    while i < v.len()
        invariant
            i <= v@.len(),
            out@ == v@.subrange(0, i as int),
        decreases v@.len() - i,
    {
        out.push(v[i]);
        i = i + 1;
    }
    assert(out@ =~= v@);
    out
}

} // verus!
