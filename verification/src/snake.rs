//! One simulated creature: position, trailing body, life bookkeeping, and the
//! per-tick state machine (perceive, decide, move, eat, collide).

use vstd::prelude::*;
use std::collections::VecDeque;
use crate::apple::Apple;
use crate::brain::{Brain, BrainOutput, INPUT_COUNT};
use crate::direction::Direction;
use crate::error::SimError;
use rand::rngs::StdRng;
use crate::rng::rng_below;
use crate::settings::{CELL_AMOUNT_X, CELL_AMOUNT_Y};

verus! {

/// Draws tried by rejection sampling before food placement gives up.
pub const FOOD_PLACEMENT_ATTEMPTS: usize = 10000;

/// One trailing body segment.
#[derive(Debug, Clone, Copy, PartialEq, Eq, Structural)]
pub struct Tail {
    pub x: i32,
    pub y: i32,
}

impl Tail {
    /// A segment at the given cell.
    pub fn new(x: i32, y: i32) -> (t: Tail)
        ensures
            t.x == x,
            t.y == y,
    {
        Tail { x, y }
    }
}

/// One probe result. Each channel is an inverse-distance code: 0 encodes the
/// numeric value 0, and a code `k >= 1` encodes `1/k`; the apple channel only
/// uses 0 and 1.
#[derive(Debug, Clone, Copy, PartialEq, Eq, Structural)]
pub struct Ray {
    pub apple: u32,
    pub body: u32,
    pub wall: u32,
}

/// Whether the cell lies outside the board.
pub open spec fn spec_wall(px: int, py: int) -> bool {
    px < 0 || py < 0 || px >= CELL_AMOUNT_X as int || py >= CELL_AMOUNT_Y as int
}

/// Whether some body segment occupies the cell.
pub open spec fn tail_hit(t: Seq<Tail>, px: int, py: int) -> bool {
    exists|i: int| 0 <= i < t.len() && (#[trigger] t[i]).x == px && t[i].y == py
}

/// The index of the strictly greatest output, scanning in index order with a
/// running maximum that starts at 0; -1 when no output exceeds 0, so ties
/// favour the lowest index and an all-zero output picks nothing.
pub open spec fn best_index(o: BrainOutput) -> int {
    let m1 = if o.up > 0 { o.up } else { 0 };
    let i1 = if o.up > 0 { 0int } else { -1int };
    let m2 = if o.down > m1 { o.down } else { m1 };
    let i2 = if o.down > m1 { 1int } else { i1 };
    let m3 = if o.left > m2 { o.left } else { m2 };
    let i3 = if o.left > m2 { 2int } else { i2 };
    if o.right > m3 { 3int } else { i3 }
}

/// The heading proposed by the network output, if any output exceeds 0.
pub open spec fn decide(o: BrainOutput) -> Option<Direction> {
    let k = best_index(o);
    if k == 0 {
        Some(Direction::Up)
    } else if k == 1 {
        Some(Direction::Down)
    } else if k == 2 {
        Some(Direction::Left)
    } else if k == 3 {
        Some(Direction::Right)
    } else {
        None
    }
}

/// The heading after the decision step: the proposed heading is applied only
/// when the network picked one and it is not the inverse of the current one.
pub open spec fn direction_after(current: Direction, o: BrainOutput) -> Direction {
    match decide(o) {
        Option::None => current,
        Option::Some(d) => if d != current.invert() {
            d
        } else {
            current
        },
    }
}

/// The body after one movement step: the vacated head cell becomes the front
/// segment; unless the snake grows this tick, the oldest segment leaves.
pub open spec fn slithered_tail(pre: Snake) -> Seq<Tail> {
    let front = seq![Tail { x: pre.x, y: pre.y }];
    if pre.should_grow {
        front + pre.tail@
    } else {
        front + pre.tail@.drop_last()
    }
}

/// The agent.
#[derive(Debug)]
pub struct Snake {
    pub x: i32,
    pub y: i32,
    pub direction: Direction,
    pub tail: VecDeque<Tail>,
    pub should_grow: bool,
    pub score: u32,
    pub steps_left: u32,
    pub lifetime: u32,
    pub is_dead: bool,
    pub vision: Vec<u32>,
    pub brain: Brain,
    pub fitness: u128,
    pub replay: bool,
    pub apple: Apple,
    pub apples: VecDeque<Apple>,
}

/// A freshly constructed agent: centre of the board, heading up, two trailing
/// segments below the head, full step budget, nothing recorded yet.
pub open spec fn is_fresh(s: Snake) -> bool {
    &&& s.x == 16 && s.y == 16
    &&& s.direction == Direction::Up
    &&& s.tail@ == seq![Tail { x: 16, y: 17 }, Tail { x: 16, y: 18 }]
    &&& !s.should_grow
    &&& s.score == 0
    &&& s.steps_left == 100
    &&& s.lifetime == 0
    &&& !s.is_dead
    &&& s.vision@ == Seq::<u32>::empty()
    &&& s.fitness == 0
    &&& !s.replay
    &&& s.apples@ == Seq::<Apple>::empty()
    &&& s.apple.in_grid()
}

/// How one tick of an alive agent relates its pre- and post-states, given the
/// network output for this tick. The only freedom left open is the cell of a
/// randomly placed food item, which is pinned to be valid rather than equal
/// to a particular cell.
pub open spec fn tick_rel(pre: Snake, post: Snake, out: BrainOutput) -> bool {
    let dir = direction_after(pre.direction, out);
    let nx = pre.x as int + dir.step_x();
    let ny = pre.y as int + dir.step_y();
    let t2 = slithered_tail(pre);
    let ate = nx == pre.apple.x as int && ny == pre.apple.y as int;
    let steps1 = pre.steps_left as int + (if ate { 100int } else { 0int });
    let hit = spec_wall(nx, ny) || tail_hit(t2, nx, ny);
    let steps2 = if hit { steps1 } else { steps1 - 1 };
    let dead = hit || steps2 == 0;
    let q1 = if ate {
        if pre.replay {
            if pre.apples@.len() > 0 { pre.apples@.drop_first() } else { pre.apples@ }
        } else {
            pre.apples@.push(pre.apple)
        }
    } else {
        pre.apples@
    };
    let q2 = if dead && q1.len() == 0 { q1.push(post.apple) } else { q1 };
    &&& post.direction == dir
    &&& post.x as int == nx && post.y as int == ny
    &&& post.tail@ == t2
    &&& post.should_grow == ate
    &&& post.score as int == pre.score as int + (if ate { 1int } else { 0int })
    &&& post.steps_left as int == steps2
    &&& post.is_dead == dead
    &&& post.lifetime as int == pre.lifetime as int + 1
    &&& post.apples@ == q2
    &&& (ate ==> (if pre.replay && pre.apples@.len() > 0 {
        post.apple == pre.apples@[0]
    } else {
        post.apple.in_grid() && !(post.apple.x as int == nx && post.apple.y as int == ny)
            && !tail_hit(t2, post.apple.x as int, post.apple.y as int) && post.apple != pre.apple
    }))
    &&& (!ate ==> post.apple == pre.apple)
    &&& post.brain == pre.brain
    &&& post.replay == pre.replay
    &&& post.fitness == pre.fitness
    &&& post.vision == pre.vision
}

/// Whether this tick of `pre`, under the output `out`, needs a freshly
/// placed food item: the move lands on the food cell and no recorded item is
/// available to feed in. Only such a tick consults the random placement, so
/// only such a tick can fail.
pub open spec fn needs_placement(pre: Snake, out: BrainOutput) -> bool {
    let dir = direction_after(pre.direction, out);
    let nx = pre.x as int + dir.step_x();
    let ny = pre.y as int + dir.step_y();
    &&& nx == pre.apple.x as int && ny == pre.apple.y as int
    &&& !(pre.replay && pre.apples@.len() > 0)
}

/// The post-mortem fitness formula: below 10 food items, squared lifetime
/// weighted by squared score; from 10 on, squared lifetime times 1024 times
/// the score beyond 9.
pub open spec fn spec_fitness(score: int, lifetime: int) -> int {
    if score < 10 {
        lifetime * lifetime * score * score
    } else {
        lifetime * lifetime * 1024 * (score - 9)
    }
}

/// What one probe along `(dx, dy)` must report about the pre-state `s`: the
/// wall channel codes the distance of the first wall cell, the apple channel
/// says whether the food item lies on the ray before the wall, and the body
/// channel codes the distance of the first body segment, 0 when none.
pub open spec fn ray_ok(s: Snake, dx: int, dy: int, r: Ray) -> bool {
    let w = r.wall as int;
    &&& 1 <= w
    &&& spec_wall(s.x as int + w * dx, s.y as int + w * dy)
    &&& forall|d: int| 1 <= d < w ==> !spec_wall(s.x as int + #[trigger] (d * dx), s.y as int + d * dy)
    &&& (r.apple == 1 || r.apple == 0)
    &&& (r.apple == 1 <==> exists|d: int|
        1 <= d < w && s.x as int + #[trigger] (d * dx) == s.apple.x as int && s.y as int + d * dy
            == s.apple.y as int)
    &&& (r.body == 0 ==> forall|d: int|
        1 <= d < w ==> !tail_hit(s.tail@, s.x as int + #[trigger] (d * dx), s.y as int + d * dy))
    &&& (r.body != 0 ==> 1 <= r.body < r.wall && tail_hit(
        s.tail@,
        s.x as int + r.body as int * dx,
        s.y as int + r.body as int * dy,
    ) && forall|d: int|
        1 <= d < r.body ==> !tail_hit(s.tail@, s.x as int + #[trigger] (d * dx), s.y as int + d * dy))
}

/// The x component of scan direction `k`, in the fixed order W, NW, N, NE, E,
/// SE, S, SW.
pub open spec fn scan_dx(k: int) -> int {
    if k == 0 { -1 } else if k == 1 { -1 } else if k == 2 { 0 } else if k == 3 { 1 }
    else if k == 4 { 1 } else if k == 5 { 1 } else if k == 6 { 0 } else { -1 }
}

/// The y component of scan direction `k`, in the fixed order W, NW, N, NE, E,
/// SE, S, SW.
pub open spec fn scan_dy(k: int) -> int {
    if k == 0 { 0 } else if k == 1 { -1 } else if k == 2 { -1 } else if k == 3 { -1 }
    else if k == 4 { 0 } else if k == 5 { 1 } else if k == 6 { 1 } else { 1 }
}

/// A product by a factor in {-1, 0, 1}, spelled out so the reasoning around
/// ray walking stays linear.
proof fn lemma_unit_mul(d: int, u: int)
    requires
        -1 <= u <= 1,
    ensures
        d * u == (if u == 1 { d } else if u == -1 { -d } else { 0 }),
{
    assert(d * 1int == d) by (nonlinear_arith);
    assert(d * -1int == -d) by (nonlinear_arith);
    assert(d * 0int == 0) by (nonlinear_arith);
}

/// Whether some segment of `tail` occupies the cell.
fn tail_contains(tail: &VecDeque<Tail>, px: i32, py: i32) -> (b: bool)
    ensures
        b == tail_hit(tail@, px as int, py as int),
{
    let mut i: usize = 0;
    while i < tail.len()
        invariant
            i <= tail@.len(),
            forall|j: int| 0 <= j < i ==> !((#[trigger] tail@[j]).x == px && tail@[j].y == py),
        decreases tail@.len() - i,
    {
        let t = tail[i];
        if t.x == px && t.y == py {
            return true;
        }
        i += 1;
    }
    false
}

/// An exact copy of a body, segment by segment.
fn copy_tail(t: &VecDeque<Tail>) -> (r: VecDeque<Tail>)
    ensures
        r@ == t@,
{
    let mut r: VecDeque<Tail> = VecDeque::new();
    let mut i: usize = 0;
    while i < t.len()
        invariant
            i <= t@.len(),
            r@ == t@.subrange(0, i as int),
        decreases t@.len() - i,
    {
        r.push_back(t[i]);
        i += 1;
    }
    assert(r@ =~= t@);
    r
}

/// The heading for this tick, from the current heading and the network
/// output: the strict-argmax heading when one output exceeds 0, except that
/// the exact inverse of the current heading is refused.
pub fn choose_direction(current: Direction, output: &BrainOutput) -> (d: Direction)
    ensures
        d == direction_after(current, *output),
        d != current.invert(),
{
    let mut index: i32 = -1;
    let mut max: u32 = 0;
    if output.up > max {
        max = output.up;
        index = 0;
    }
    if output.down > max {
        max = output.down;
        index = 1;
    }
    if output.left > max {
        max = output.left;
        index = 2;
    }
    if output.right > max {
        max = output.right;
        index = 3;
    }
    let proposed = if index == 0 {
        Direction::Up
    } else if index == 1 {
        Direction::Down
    } else if index == 2 {
        Direction::Left
    } else if index == 3 {
        Direction::Right
    } else {
        current
    };
    if index >= 0 && proposed != current.inverted() {
        proposed
    } else {
        current
    }
}

/// A food cell that collides with nothing: not the head at `(hx, hy)`, no
/// body segment of `tail`, and not the cell of `avoid`, the item just eaten.
/// Rejection sampling with a bounded number of draws; only a nearly full
/// board can realistically exhaust them.
pub fn place_apple(rng: &mut StdRng, hx: i32, hy: i32, tail: &VecDeque<Tail>, avoid: Apple) -> (r:
    Result<Apple, SimError>)
    ensures
        (r matches Ok(a) ==> a.in_grid() && !(a.x == hx && a.y == hy) && !tail_hit(
            tail@,
            a.x as int,
            a.y as int,
        ) && a != avoid),
        (r matches Err(e) ==> e == SimError::FoodPlacementExhausted),
{
    let mut attempts: usize = 0;
    while attempts < FOOD_PLACEMENT_ATTEMPTS
        invariant
            true,
        decreases FOOD_PLACEMENT_ATTEMPTS - attempts,
    {
        let ax = rng_below(rng, CELL_AMOUNT_X as u32) as i32;
        let ay = rng_below(rng, CELL_AMOUNT_Y as u32) as i32;
        let clash = (ax == hx && ay == hy) || (ax == avoid.x && ay == avoid.y) || tail_contains(
            tail,
            ax,
            ay,
        );
        if !clash {
            return Ok(Apple { x: ax, y: ay });
        }
        attempts += 1;
    }
    Err(SimError::FoodPlacementExhausted)
}

impl Snake {
    /// The structural invariant of an agent: a well-shaped brain, the body
    /// length bookkeeping `segments + pending growth = score + 2`, every
    /// segment and food item on the board, the head on the board while
    /// alive (and at worst one step beyond it once dead), and a positive
    /// step budget while alive.
    pub open spec fn wf(self) -> bool {
        &&& self.brain.wf()
        &&& self.tail@.len() + (if self.should_grow { 1int } else { 0int }) == self.score as int + 2
        &&& forall|i: int|
            0 <= i < self.tail@.len() ==> !spec_wall(
                (#[trigger] self.tail@[i]).x as int,
                self.tail@[i].y as int,
            )
        &&& self.apple.in_grid()
        &&& forall|i: int| 0 <= i < self.apples@.len() ==> (#[trigger] self.apples@[i]).in_grid()
        &&& -1 <= self.x as int <= CELL_AMOUNT_X as int
        &&& -1 <= self.y as int <= CELL_AMOUNT_Y as int
        &&& !self.is_dead ==> !spec_wall(self.x as int, self.y as int) && self.steps_left >= 1
    }

    /// A fresh agent around the given brain, with a food item on a uniformly
    /// random cell.
    pub fn new(brain: Brain, rng: &mut StdRng) -> (s: Snake)
        requires
            brain.wf(),
        ensures
            s.wf(),
            is_fresh(s),
            s.brain == brain,
    {
        let mut tail: VecDeque<Tail> = VecDeque::new();
        tail.push_back(Tail { x: 16, y: 17 });
        tail.push_back(Tail { x: 16, y: 18 });
        let s = Snake {
            x: 16,
            y: 16,
            direction: Direction::Up,
            tail,
            should_grow: false,
            score: 0,
            steps_left: 100,
            lifetime: 0,
            is_dead: false,
            vision: Vec::new(),
            brain,
            fitness: 0,
            replay: false,
            apple: Apple::new(rng),
            apples: VecDeque::new(),
        };
        assert(s.tail@ =~= seq![Tail { x: 16, y: 17 }, Tail { x: 16, y: 18 }]);
        s
    }

    /// The head cell.
    #[inline]
    pub fn position(&self) -> (p: (i32, i32))
        ensures
            p.0 == self.x,
            p.1 == self.y,
    {
        (self.x, self.y)
    }

    /// Whether some body segment occupies the cell.
    pub fn body_collision(&self, position: (i32, i32)) -> (b: bool)
        ensures
            b == tail_hit(self.tail@, position.0 as int, position.1 as int),
    {
        tail_contains(&self.tail, position.0, position.1)
    }

    /// Whether the two cells coincide.
    pub fn collision(&self, position: (i32, i32), other: (i32, i32)) -> (b: bool)
        ensures
            b == (position.0 == other.0 && position.1 == other.1),
    {
        position.0 == other.0 && position.1 == other.1
    }

    /// Whether the cell lies outside the board.
    pub fn wall_collision(&self, position: (i32, i32)) -> (b: bool)
        ensures
            b == spec_wall(position.0 as int, position.1 as int),
    {
        position.0 < 0 || position.1 < 0 || position.0 >= CELL_AMOUNT_X || position.1
            >= CELL_AMOUNT_Y
    }

    /// Applies a heading, refusing the exact inverse of the current one.
    pub fn set_direction(&mut self, direction: Direction)
        ensures
            final(self).direction == (if direction != old(self).direction.invert() {
                direction
            } else {
                old(self).direction
            }),
            final(self).direction != old(self).direction.invert(),
            (*final(self) == Snake { direction: final(self).direction, ..*old(self) }),
    {
        if self.direction.inverted() != direction {
            self.direction = direction;
        }
    }

    /// One movement step: the body follows the head, growing by one segment
    /// when a food item was just eaten, and the head advances along the
    /// current heading.
    pub fn slither(&mut self)
        requires
            old(self).wf(),
            !old(self).is_dead,
        ensures
            final(self).x as int == old(self).x as int + old(self).direction.step_x(),
            final(self).y as int == old(self).y as int + old(self).direction.step_y(),
            final(self).tail@ == slithered_tail(*old(self)),
            !final(self).should_grow,
            (*final(self) == Snake {
                x: final(self).x,
                y: final(self).y,
                tail: final(self).tail,
                should_grow: false,
                ..*old(self)
            }),
    {
        if self.should_grow {
            self.tail.push_front(Tail { x: self.x, y: self.y });
            self.should_grow = false;
        } else {
            let back = self.tail.pop_back();
            if let Some(mut back) = back {
                back.x = self.x;
                back.y = self.y;
                self.tail.push_front(back);
            }
        }
        let (dx, dy) = self.direction.delta();
        self.x = self.x + dx;
        self.y = self.y + dy;
    }

    /// Decides this tick's heading from the network output; ties favour the
    /// lowest index, an all-zero output keeps the current heading, and the
    /// inverse of the current heading is refused.
    pub fn think(&mut self, output: &BrainOutput)
        ensures
            final(self).direction == direction_after(old(self).direction, *output),
            final(self).direction != old(self).direction.invert(),
            (*final(self) == Snake { direction: final(self).direction, ..*old(self) }),
    {
        let d = choose_direction(self.direction, output);
        self.direction = d;
    }

    /// Places a fresh food item that collides with neither the head, nor any
    /// body segment, nor the previous food cell; on failure the agent is left
    /// unchanged.
    pub fn randomize_apple(&mut self, rng: &mut StdRng) -> (r: Result<(), SimError>)
        ensures
            (r is Ok ==> final(self).apple.in_grid() && !(final(self).apple.x == old(self).x
                && final(self).apple.y == old(self).y) && !tail_hit(
                old(self).tail@,
                final(self).apple.x as int,
                final(self).apple.y as int,
            ) && final(self).apple != old(self).apple),
            (r is Ok ==> (*final(self) == Snake { apple: final(self).apple, ..*old(self) })),
            (r matches Err(e) ==> e == SimError::FoodPlacementExhausted && *final(self) == *old(
                self,
            )),
    {
        match place_apple(rng, self.x, self.y, &self.tail, self.apple) {
            Ok(a) => {
                self.apple = a;
                Ok(())
            },
            Err(e) => Err(e),
        }
    }

    /// One full tick of an alive agent, given this tick's network output:
    /// decide, move, eat, collide, and update the life bookkeeping. Only a
    /// tick that eats with no recorded item to feed in can fail: then the
    /// agent is left unchanged and the food-placement error is surfaced. The
    /// new heading is never the exact inverse of the old one.
    pub fn update(&mut self, output: &BrainOutput, rng: &mut StdRng) -> (r: Result<(), SimError>)
        requires
            old(self).wf(),
            !old(self).is_dead,
            old(self).lifetime < u32::MAX,
            old(self).score < u32::MAX,
            old(self).steps_left <= u32::MAX - 100,
        ensures
            final(self).wf(),
            (r is Ok ==> tick_rel(*old(self), *final(self), *output)),
            (r matches Err(e) ==> e == SimError::FoodPlacementExhausted && *final(self) == *old(
                self,
            ) && needs_placement(*old(self), *output)),
            final(self).direction != old(self).direction.invert(),
    {
        let new_dir = choose_direction(self.direction, output);
        let (dx, dy) = new_dir.delta();
        let nx = self.x + dx;
        let ny = self.y + dy;
        let mut t2 = copy_tail(&self.tail);
        if !self.should_grow {
            let _ = t2.pop_back();
        }
        t2.push_front(Tail { x: self.x, y: self.y });
        proof {
            assert(t2@ =~= slithered_tail(*old(self)));
        }
        let ate = nx == self.apple.x && ny == self.apple.y;
        let mut new_apple = self.apple;
        let mut from_queue = false;
        if ate {
            if self.replay && self.apples.len() > 0 {
                new_apple = self.apples[0];
                from_queue = true;
            } else {
                match place_apple(rng, nx, ny, &t2, self.apple) {
                    Ok(a) => {
                        new_apple = a;
                    },
                    Err(e) => {
                        return Err(e);
                    },
                }
            }
        }
        self.direction = new_dir;
        self.x = nx;
        self.y = ny;
        self.tail = t2;
        self.should_grow = false;
        if ate {
            self.should_grow = true;
            self.score = self.score + 1;
            self.steps_left = self.steps_left + 100;
            if self.replay {
                if from_queue {
                    let _ = self.apples.pop_front();
                }
            } else {
                let eaten = self.apple;
                self.apples.push_back(eaten);
            }
            self.apple = new_apple;
        }
        let hit = self.wall_collision((self.x, self.y)) || self.body_collision((self.x, self.y));
        if hit {
            self.is_dead = true;
        } else {
            self.steps_left = self.steps_left - 1;
        }
        if self.steps_left == 0 {
            self.is_dead = true;
        }
        if self.is_dead && self.apples.len() == 0 {
            self.apples.push_back(self.apple);
        }
        self.lifetime = self.lifetime + 1;
        Ok(())
    }

    /// One probe from the head along `(dx, dy)`, walking cell by cell from
    /// distance 1 until the first wall cell.
    fn cast_ray(&self, dx: i32, dy: i32) -> (r: Ray)
        requires
            self.wf(),
            !self.is_dead,
            -1 <= dx <= 1,
            -1 <= dy <= 1,
            !(dx == 0 && dy == 0),
        ensures
            ray_ok(*self, dx as int, dy as int, r),
    {
        let mut d: i32 = 1;
        let mut px = self.x + dx;
        let mut py = self.y + dy;
        let mut apple_c: u32 = 0;
        let mut body_c: u32 = 0;
        proof {
            lemma_unit_mul(1, dx as int);
            lemma_unit_mul(1, dy as int);
        }
        while !(px < 0 || py < 0 || px >= CELL_AMOUNT_X || py >= CELL_AMOUNT_Y)
            invariant
                self.wf(),
                !self.is_dead,
                -1 <= dx <= 1,
                -1 <= dy <= 1,
                !(dx == 0 && dy == 0),
                1 <= d <= 49,
                -1 <= px <= CELL_AMOUNT_X,
                -1 <= py <= CELL_AMOUNT_Y,
                px as int == self.x as int + d as int * dx as int,
                py as int == self.y as int + d as int * dy as int,
                forall|e: int|
                    1 <= e < d ==> !spec_wall(
                        self.x as int + #[trigger] (e * dx as int),
                        self.y as int + e * dy as int,
                    ),
                apple_c == 0 || apple_c == 1,
                (apple_c == 1 <==> exists|e: int|
                    1 <= e < d && self.x as int + #[trigger] (e * dx as int) == self.apple.x as int
                        && self.y as int + e * dy as int == self.apple.y as int),
                (body_c == 0 ==> forall|e: int|
                    1 <= e < d ==> !tail_hit(
                        self.tail@,
                        self.x as int + #[trigger] (e * dx as int),
                        self.y as int + e * dy as int,
                    )),
                (body_c != 0 ==> 1 <= body_c < d && tail_hit(
                    self.tail@,
                    self.x as int + body_c as int * dx as int,
                    self.y as int + body_c as int * dy as int,
                ) && forall|e: int|
                    1 <= e < body_c ==> !tail_hit(
                        self.tail@,
                        self.x as int + #[trigger] (e * dx as int),
                        self.y as int + e * dy as int,
                    )),
            decreases (if dx == 1 { CELL_AMOUNT_X - px } else if dx == -1 { px + 1 } else if dy == 1 { CELL_AMOUNT_Y - py } else { py + 1 }),
        {
            proof {
                lemma_unit_mul(d as int, dx as int);
                lemma_unit_mul(d as int, dy as int);
                lemma_unit_mul(d as int + 1, dx as int);
                lemma_unit_mul(d as int + 1, dy as int);
            }
            if apple_c == 0 && px == self.apple.x && py == self.apple.y {
                apple_c = 1;
            }
            if body_c == 0 && tail_contains(&self.tail, px, py) {
                body_c = d as u32;
            }
            px = px + dx;
            py = py + dy;
            d = d + 1;
        }
        proof {
            lemma_unit_mul(d as int, dx as int);
            lemma_unit_mul(d as int, dy as int);
        }
        Ray { apple: apple_c, body: body_c, wall: d as u32 }
    }

    /// Recomputes the 24-value vision vector: 8 probes in the fixed order W,
    /// NW, N, NE, E, SE, S, SW, each contributing its apple, body and wall
    /// channel in that order. The cycle over the eight compass directions is
    /// fixed once and for all, which is all the decision layer depends on;
    /// where it starts is a free choice, pinned here to west. The vector
    /// always has exactly 24 entries.
    #[verifier::rlimit(60)]
    pub fn observe(&mut self)
        requires
            old(self).wf(),
            !old(self).is_dead,
        ensures
            final(self).vision@.len() == INPUT_COUNT as int,
            (*final(self) == Snake { vision: final(self).vision, ..*old(self) }),
            forall|k: int|
                0 <= k < 8 ==> ray_ok(
                    *old(self),
                    scan_dx(k),
                    scan_dy(k),
                    (Ray {
                        apple: final(self).vision@[3 * k],
                        body: final(self).vision@[3 * k + 1],
                        wall: final(self).vision@[3 * k + 2],
                    }),
                ),
    {
        let r0 = self.cast_ray(-1, 0);
        let r1 = self.cast_ray(-1, -1);
        let r2 = self.cast_ray(0, -1);
        let r3 = self.cast_ray(1, -1);
        let r4 = self.cast_ray(1, 0);
        let r5 = self.cast_ray(1, 1);
        let r6 = self.cast_ray(0, 1);
        let r7 = self.cast_ray(-1, 1);
        let mut vision: Vec<u32> = Vec::new();
        vision.push(r0.apple);
        vision.push(r0.body);
        vision.push(r0.wall);
        vision.push(r1.apple);
        vision.push(r1.body);
        vision.push(r1.wall);
        vision.push(r2.apple);
        vision.push(r2.body);
        vision.push(r2.wall);
        vision.push(r3.apple);
        vision.push(r3.body);
        vision.push(r3.wall);
        vision.push(r4.apple);
        vision.push(r4.body);
        vision.push(r4.wall);
        vision.push(r5.apple);
        vision.push(r5.body);
        vision.push(r5.wall);
        vision.push(r6.apple);
        vision.push(r6.body);
        vision.push(r6.wall);
        vision.push(r7.apple);
        vision.push(r7.body);
        vision.push(r7.wall);
        self.vision = vision;
        proof {
            assert forall|k: int| 0 <= k < 8 implies ray_ok(
                *old(self),
                scan_dx(k),
                scan_dy(k),
                (Ray {
                    apple: final(self).vision@[3 * k],
                    body: final(self).vision@[3 * k + 1],
                    wall: final(self).vision@[3 * k + 2],
                }),
            ) by {
                if k == 0 {
                    assert(final(self).vision@[0] == r0.apple);
                    assert(final(self).vision@[1] == r0.body);
                    assert(final(self).vision@[2] == r0.wall);
                } else if k == 1 {
                    assert(final(self).vision@[3] == r1.apple);
                    assert(final(self).vision@[4] == r1.body);
                    assert(final(self).vision@[5] == r1.wall);
                } else if k == 2 {
                    assert(final(self).vision@[6] == r2.apple);
                    assert(final(self).vision@[7] == r2.body);
                    assert(final(self).vision@[8] == r2.wall);
                } else if k == 3 {
                    assert(final(self).vision@[9] == r3.apple);
                    assert(final(self).vision@[10] == r3.body);
                    assert(final(self).vision@[11] == r3.wall);
                } else if k == 4 {
                    assert(final(self).vision@[12] == r4.apple);
                    assert(final(self).vision@[13] == r4.body);
                    assert(final(self).vision@[14] == r4.wall);
                } else if k == 5 {
                    assert(final(self).vision@[15] == r5.apple);
                    assert(final(self).vision@[16] == r5.body);
                    assert(final(self).vision@[17] == r5.wall);
                } else if k == 6 {
                    assert(final(self).vision@[18] == r6.apple);
                    assert(final(self).vision@[19] == r6.body);
                    assert(final(self).vision@[20] == r6.wall);
                } else {
                    assert(final(self).vision@[21] == r7.apple);
                    assert(final(self).vision@[22] == r7.body);
                    assert(final(self).vision@[23] == r7.wall);
                }
            }
        }
    }

    /// Computes the post-mortem fitness from the recorded score and lifetime.
    pub fn determine_fitness(&mut self)
        ensures
            final(self).fitness as int == spec_fitness(old(self).score as int, old(self).lifetime as int),
            (*final(self) == Snake { fitness: final(self).fitness, ..*old(self) }),
    {
        let lifetime = self.lifetime as u128;
        let score = self.score as u128;
        proof {
            assert((lifetime as int) * (lifetime as int) < 0x1_0000_0000_0000_0000)
                by (nonlinear_arith)
                requires
                    0 <= (lifetime as int) && (lifetime as int) < 0x1_0000_0000;
            assert((score as int) * (score as int) < 0x1_0000_0000_0000_0000) by (nonlinear_arith)
                requires
                    0 <= (score as int) && (score as int) < 0x1_0000_0000;
        }
        if self.score < 10 {
            let ll = lifetime * lifetime;
            let ss = score * score;
            proof {
                assert((ll as int) * (ss as int)
                    < 0x1_0000_0000_0000_0000_0000_0000_0000_0000) by (nonlinear_arith)
                    requires
                        0 <= (ll as int) && (ll as int) < 0x1_0000_0000_0000_0000,
                        0 <= (ss as int) && (ss as int) < 0x1_0000_0000_0000_0000;
                assert((lifetime as int) * (lifetime as int) * ((score as int) * (score as int))
                    == (lifetime as int) * (lifetime as int) * (score as int) * (score as int))
                    by (nonlinear_arith);
            }
            self.fitness = ll * ss;
        } else {
            let ll = lifetime * lifetime;
            let extra = score - 9;
            proof {
                assert((ll as int) * 1024 < 0x1_0000_0000_0000_0000_0000_0000_0000_0000)
                    by (nonlinear_arith)
                    requires
                        0 <= (ll as int) && (ll as int) < 0x1_0000_0000_0000_0000;
                assert((ll as int) * 1024 * (extra as int)
                    < 0x1_0000_0000_0000_0000_0000_0000_0000_0000) by (nonlinear_arith)
                    requires
                        0 <= (ll as int) && (ll as int) < 0x1_0000_0000_0000_0000,
                        0 <= (extra as int) && (extra as int) < 0x1_0000_0000;
            }
            self.fitness = ll * 1024 * extra;
        }
    }
}

} // verus!
