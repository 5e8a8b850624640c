use vstd::prelude::*;

use crate::colors::Color;

verus! {

/// A vertex of an indexed mesh, on the plane z = 0.
#[derive(Clone, Copy, Debug)]
pub struct Point {
    pub position: [i32; 3],
    pub color: Color,
}

impl Point {
    pub fn new(x: i32, y: i32, color: Color) -> (r: Point)
        ensures
            r.position@ == seq![x, y, 0i32],
            r.color == color,
    {
        let r = Point { position: [x, y, 0], color };
        assert(r.position@ =~= seq![x, y, 0i32]);
        r
    }
}

/// The identity index list `0, 1, ..., n - 1`.
pub open spec fn identity_order(n: nat) -> Seq<u32> {
    Seq::new(n, |i: int| i as u32)
}

/// A mesh of points drawn in the order that `point_order` lists their indices.
pub struct Entity {
    pub points: Vec<Point>,
    pub point_order: Vec<u32>,
}

impl Entity {
    fn point_order_from_points(points: &[Point]) -> (order: Vec<u32>)
        requires
            points@.len() <= u32::MAX + 1,
        ensures
            order@ == identity_order(points@.len()),
    {
        let mut order: Vec<u32> = Vec::with_capacity(points.len());
        let mut i: usize = 0;
        while i < points.len()
            invariant
                0 <= i <= points@.len() <= u32::MAX + 1,
                order@ == identity_order(i as nat),
            decreases points@.len() - i,
        {
            order.push(i as u32);
            i = i + 1;
            assert(order@ =~= identity_order(i as nat));
        }
        order
    }

    /// A mesh that draws its points in the order given, each once.
    pub fn from_points(points: Vec<Point>) -> (r: Entity)
        requires
            points@.len() <= u32::MAX + 1,
        ensures
            r.points@ == points@,
            r.point_order@ == identity_order(points@.len()),
    {
        let order = Entity::point_order_from_points(points.as_slice());
        Entity { points, point_order: order }
    }
}

} // verus!
