use vstd::prelude::*;
use rand::Rng;
use crate::geometry::{Field, Point, BORDER};

verus! {

/// How many random cells are tried before the field is searched in order.
pub const RANDOM_ATTEMPTS: u32 = 64;

/// A cell where an apple may lie: strictly inside the walls, on an even column.
pub open spec fn apple_cell(field: Field, p: Point) -> bool {
    0 <= p.x < field.max_x() && 0 <= p.y < field.max_y() && p.x % 2 == 0
}

/// An apple cell that no segment of `body` covers.
pub open spec fn free_cell(field: Field, body: Seq<Point>, p: Point) -> bool {
    apple_cell(field, p) && !body.contains(p)
}

/// Every apple cell is covered by `body`.
pub open spec fn field_full(field: Field, body: Seq<Point>) -> bool {
    forall|p: Point| #[trigger] apple_cell(field, p) ==> body.contains(p)
}

/// A drawn column, moved up to the next even one where it is odd.
pub open spec fn snapped_x(rx: int) -> int {
    if rx % 2 == 0 {
        rx
    } else {
        rx + 1
    }
}

/// The cell that a draw of `(rx, ry)` proposes, where it lies inside the walls.
pub open spec fn proposed(field: Field, rx: int, ry: int) -> Option<Point> {
    if snapped_x(rx) < field.max_x() && ry < field.max_y() {
        Some(Point { x: snapped_x(rx) as i64, y: ry as i64 })
    } else {
        None
    }
}

/// Relies on rand::thread_rng and rand::Rng::gen_range: a value drawn from
/// `0..bound`. gen_range panics on an empty range.
#[verifier::external_body]
fn random_below(bound: u64) -> (r: u64)
    requires
        bound > 0,
    ensures
        r < bound,
{
    rand::thread_rng().gen_range(0..bound)
}

/// Whether `p` is one of the segments of `body`.
pub fn occupies(body: &Vec<Point>, p: Point) -> (r: bool)
    ensures
        r == body@.contains(p),
{
    let mut i: usize = 0;
    while i < body.len()
        invariant
            i <= body@.len(),
            forall|j: int| 0 <= j < i ==> body@[j] != p,
        decreases body@.len() - i,
    {
        if body[i] == p {
            assert(body@[i as int] == p);
            return true;
        }
        i = i + 1;
    }
    false
}

/// Judges one random draw: the proposed cell where it is free, else nothing.
pub fn try_candidate(field: Field, body: &Vec<Point>, rx: u64, ry: u64) -> (r: Option<Point>)
    ensures
        r == (match proposed(field, rx as int, ry as int) {
            Some(p) => if body@.contains(p) {
                None
            } else {
                Some(p)
            },
            None => None,
        }),
        r matches Some(p) ==> free_cell(field, body@, p),
{
    if field.width < BORDER || field.height < BORDER {
        return None;
    }
    let max_x = field.width as u64 - BORDER as u64;
    let max_y = field.height as u64 - BORDER as u64;
    if rx >= max_x || ry >= max_y {
        return None;
    }
    let x: u64 = if rx % 2 == 0 { rx } else { rx + 1 };
    if x >= max_x {
        return None;
    }
    let p = Point { x: x as i64, y: ry as i64 };
    if occupies(body, p) {
        None
    } else {
        Some(p)
    }
}

/// Searches the field row by row for a free apple cell.
pub fn scan_free_cell(field: Field, body: &Vec<Point>) -> (r: Option<Point>)
    ensures
        match r {
            Some(p) => free_cell(field, body@, p),
            None => field_full(field, body@),
        },
{
    let max_x: i64 = field.width as i64 - BORDER as i64;
    let max_y: i64 = field.height as i64 - BORDER as i64;
    let mut y: i64 = 0;
    while y < max_y
        invariant
            max_x == field.max_x(),
            max_y == field.max_y(),
            0 <= y,
            y == 0 || y <= max_y,
            forall|p: Point| #[trigger] apple_cell(field, p) && p.y < y ==> body@.contains(p),
        decreases max_y - y,
    {
        let mut x: i64 = 0;
        while x < max_x
            invariant
                max_x == field.max_x(),
                max_y == field.max_y(),
                0 <= y < max_y,
                0 <= x,
                x % 2 == 0,
                x == 0 || x <= max_x + 1,
                forall|p: Point| #[trigger] apple_cell(field, p) && p.y < y ==> body@.contains(p),
                forall|p: Point|
                    #[trigger] apple_cell(field, p) && p.y == y && p.x < x ==> body@.contains(p),
            decreases max_x + 1 - x,
        {
            let p = Point { x, y };
            if !occupies(body, p) {
                return Some(p);
            }
            assert forall|q: Point| #[trigger] apple_cell(field, q) && q.y == y && q.x < x + 2
                implies body@.contains(q) by {
                if q.x == x {
                    assert(q == p);
                }
            }
            x = x + 2;
        }
        y = y + 1;
    }
    None
}

/// Places an apple: a bounded number of random draws, then an ordered search.
/// Nothing is returned only where the field has no free apple cell.
pub fn generate_apple(field: Field, body: &Vec<Point>) -> (r: Option<Point>)
    ensures
        match r {
            Some(p) => free_cell(field, body@, p),
            None => field_full(field, body@),
        },
{
    if field.width > BORDER && field.height > BORDER {
        let max_x = field.width as u64 - BORDER as u64;
        let max_y = field.height as u64 - BORDER as u64;
        let mut n: u32 = 0;
        while n < RANDOM_ATTEMPTS
            invariant
                max_x > 0,
                max_y > 0,
            decreases RANDOM_ATTEMPTS - n,
        {
            let rx = random_below(max_x);
            let ry = random_below(max_y);
            if let Some(p) = try_candidate(field, body, rx, ry) {
                return Some(p);
            }
            n = n + 1;
        }
    }
    scan_free_cell(field, body)
}

} // verus!
