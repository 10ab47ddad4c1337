use vstd::prelude::*;
use crate::geometry::{Direction, Point};

verus! {

/// What a snake is, as the contracts speak of it.
pub struct SnakeModel {
    /// The segments, head first.
    pub body: Seq<Point>,
    /// The direction applied on the last tick.
    pub direction: Direction,
    /// The direction that the next tick will apply.
    pub next_direction: Direction,
}

impl SnakeModel {
    /// The body is never empty, and no pending turn reverses the snake.
    pub open spec fn wf(self) -> bool {
        self.body.len() >= 1 && self.next_direction != self.direction.opposite()
    }

    /// The snake after a turn to `d` has been asked for: a reversal is dropped.
    pub open spec fn after_request(self, d: Direction) -> SnakeModel {
        if d == self.direction.opposite() {
            self
        } else {
            SnakeModel { next_direction: d, ..self }
        }
    }
}

/// The body that every game starts with: five segments moving right along the top row.
pub open spec fn canonical_body() -> Seq<Point> {
    seq![
        Point { x: 8, y: 0 },
        Point { x: 6, y: 0 },
        Point { x: 4, y: 0 },
        Point { x: 2, y: 0 },
        Point { x: 0, y: 0 },
    ]
}

/// The body before the shift: an apple eaten adds a copy of the tail.
pub open spec fn grown(body: Seq<Point>, grow: bool) -> Seq<Point> {
    if grow {
        body.push(body.last())
    } else {
        body
    }
}

/// The body after the shift: the new head in front, the last segment gone.
pub open spec fn shifted(body: Seq<Point>, head: Point) -> Seq<Point> {
    seq![head].add(body.drop_last())
}

/// The new head lands on a segment that has not yet moved out of its way:
/// any segment of the pre-shift body but the last.
pub open spec fn runs_into(body: Seq<Point>, head: Point) -> bool {
    exists|k: int| 0 <= k < body.len() - 1 && #[trigger] body[k] == head
}

pub struct Snake {
    body: Vec<Point>,
    direction: Direction,
    next_direction: Direction,
}

impl View for Snake {
    type V = SnakeModel;

    closed spec fn view(&self) -> SnakeModel {
        SnakeModel { body: self.body@, direction: self.direction, next_direction: self.next_direction }
    }
}

impl Snake {
    /// The snake that every game starts with, moving right.
    pub fn new() -> (r: Snake)
        ensures
            r@.wf(),
            r@.body == canonical_body(),
            r@.direction == Direction::Right,
            r@.next_direction == Direction::Right,
    {
        let body = vec![
            Point { x: 8, y: 0 },
            Point { x: 6, y: 0 },
            Point { x: 4, y: 0 },
            Point { x: 2, y: 0 },
            Point { x: 0, y: 0 },
        ];
        let r = Snake { body, direction: Direction::Right, next_direction: Direction::Right };
        assert(r@.body =~= canonical_body());
        r
    }

    /// The segments, head first.
    pub fn body(&self) -> (r: &Vec<Point>)
        ensures
            r@ == self@.body,
    {
        &self.body
    }

    pub fn head(&self) -> (r: Point)
        requires
            self@.wf(),
        ensures
            r == self@.body[0],
    {
        self.body[0]
    }

    pub fn direction(&self) -> (r: Direction)
        ensures
            r == self@.direction,
    {
        self.direction
    }

    pub fn next_direction(&self) -> (r: Direction)
        ensures
            r == self@.next_direction,
    {
        self.next_direction
    }

    /// Asks for a turn on the next tick; a turn back onto the body is dropped.
    pub fn request_direction(&mut self, d: Direction)
        requires
            old(self)@.wf(),
        ensures
            final(self)@ == old(self)@.after_request(d),
            final(self)@.wf(),
    {
        if d != self.direction.opposite() {
            self.next_direction = d;
        }
    }

    /// Applies the pending turn; afterwards the snake runs where it was asked to.
    pub fn commit_direction(&mut self)
        requires
            old(self)@.wf(),
        ensures
            final(self)@ == (SnakeModel { direction: old(self)@.next_direction, ..old(self)@ }),
            final(self)@.wf(),
            final(self)@.direction != old(self)@.direction.opposite(),
    {
        self.direction = self.next_direction;
    }

    /// Moves the body one step with `head` as its new first segment, first
    /// adding a copy of the tail where `grow` holds. Returns whether the head
    /// lands on a segment that is still in its way.
    pub fn advance(&mut self, head: Point, grow: bool) -> (hit: bool)
        requires
            old(self)@.wf(),
        ensures
            final(self)@.body == shifted(grown(old(self)@.body, grow), head),
            final(self)@.direction == old(self)@.direction,
            final(self)@.next_direction == old(self)@.next_direction,
            final(self)@.wf(),
            hit == runs_into(grown(old(self)@.body, grow), head),
    {
        if grow {
            let tail = self.body[self.body.len() - 1];
            self.body.push(tail);
        }
        let ghost before = self.body@;
        assert(before == grown(old(self)@.body, grow));
        let len = self.body.len();
        let mut hit = false;
        let mut i: usize = len - 1;
        while i > 0
            invariant
                len == before.len(),
                self.direction == old(self).direction,
                self.next_direction == old(self).next_direction,
                len >= 1,
                i < len,
                self.body@.len() == len,
                forall|j: int| i < j < len ==> #[trigger] self.body@[j] == before[j - 1],
                forall|j: int| 0 <= j <= i ==> #[trigger] self.body@[j] == before[j],
                hit == exists|k: int| i <= k < len - 1 && #[trigger] before[k] == head,
            decreases i,
        {
            let prev = self.body[i - 1];
            self.body[i] = prev;
            if head == prev {
                hit = true;
            }
            i = i - 1;
        }
        self.body[0] = head;
        assert(self.body@ =~= shifted(before, head));
        hit
    }
}

/// A turn straight back is never taken up: the request leaves the snake as
/// it was, and the next commit applies the turn that was pending before,
/// never the reversal.
pub proof fn lemma_reversal_rejected(m: SnakeModel, d: Direction)
    requires
        m.wf(),
        d == m.direction.opposite(),
    ensures
        m.after_request(d) == m,
        m.after_request(d).next_direction != d,
{
}

} // verus!
