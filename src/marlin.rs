use vstd::prelude::*;

use crate::entities::{
    Entity,
    EntityBuilder,
    ShapeError,
    ShapeKind,
    Vertex,
    requisite_points_of,
    tessellation,
    vertex_count_error,
};

verus! {

/// The scenes the viewer can be in.
#[derive(Clone, Copy, Debug, PartialEq, Eq, Hash, Structural)]
pub enum SceneName {
    Home,
    RootPicker,
    Grapher,
    Simulation,
}

/// The scene after `s` in the ring Home, RootPicker, Grapher, Simulation.
pub open spec fn next_of(s: SceneName) -> SceneName {
    match s {
        SceneName::Home => SceneName::RootPicker,
        SceneName::RootPicker => SceneName::Grapher,
        SceneName::Grapher => SceneName::Simulation,
        SceneName::Simulation => SceneName::Home,
    }
}

/// The scene a "back" button of `s` leads to. Home leads to itself, so this is not the
/// inverse of `next_of`.
pub open spec fn previous_of(s: SceneName) -> SceneName {
    match s {
        SceneName::Home => SceneName::Home,
        SceneName::RootPicker => SceneName::Home,
        SceneName::Grapher => SceneName::RootPicker,
        SceneName::Simulation => SceneName::Grapher,
    }
}

/// The name of a scene as text.
pub open spec fn scene_label(s: SceneName) -> Seq<char> {
    match s {
        SceneName::Home => "Home"@,
        SceneName::RootPicker => "RootPicker"@,
        SceneName::Grapher => "Grapher"@,
        SceneName::Simulation => "Simulation"@,
    }
}

impl SceneName {
    /// The scene's name as text.
    pub fn name(&self) -> (r: String)
        ensures
            r@ == scene_label(*self),
    {
        match self {
            SceneName::Home => "Home".to_owned(),
            SceneName::RootPicker => "RootPicker".to_owned(),
            SceneName::Grapher => "Grapher".to_owned(),
            SceneName::Simulation => "Simulation".to_owned(),
        }
    }
}

/// `next_of` walks all four scenes in one cycle: four steps from any scene come back to it,
/// and no fewer do.
pub proof fn next_scene_is_a_four_cycle(s: SceneName)
    ensures
        next_of(next_of(next_of(next_of(s)))) == s,
        next_of(s) != s,
        next_of(next_of(s)) != s,
        next_of(next_of(next_of(s))) != s,
{
}

/// `next_of` is a bijection: distinct scenes have distinct successors, and every scene is
/// the successor of some scene.
pub proof fn next_scene_is_a_bijection(a: SceneName, b: SceneName)
    ensures
        next_of(a) == next_of(b) ==> a == b,
        exists|c: SceneName| next_of(c) == b,
{
    assert(next_of(next_of(next_of(next_of(b)))) == b);
}

/// `previous_of` follows its table: Home and RootPicker lead to Home, Grapher to
/// RootPicker, Simulation to Grapher.
pub proof fn previous_scene_table()
    ensures
        previous_of(SceneName::Home) == SceneName::Home,
        previous_of(SceneName::RootPicker) == SceneName::Home,
        previous_of(SceneName::Grapher) == SceneName::RootPicker,
        previous_of(SceneName::Simulation) == SceneName::Grapher,
        next_of(previous_of(SceneName::Home)) != SceneName::Home,
{
}

/// How far from the window's origin a stored pointer coordinate may lie.
pub const COORD_LIMIT: i64 = 0x1_0000_0000;

/// The pointer's position in window pixels (origin at the top left, y pointing down),
/// together with the window's width and height.
///
/// Canvas space puts its origin at the window pixel `(width / 2, height / 2)`, with integer
/// division, and points its y axis up.
pub struct MousePosition {
    x: i64,
    y: i64,
    window_dimensions: (u32, u32),
}

impl MousePosition {
    #[verifier::type_invariant]
    spec fn within_limits(self) -> bool {
        &&& -COORD_LIMIT <= self.x <= COORD_LIMIT
        &&& -COORD_LIMIT <= self.y <= COORD_LIMIT
    }

    /// The pointer's window x coordinate.
    pub closed spec fn x_spec(&self) -> int {
        self.x as int
    }

    /// The pointer's window y coordinate.
    pub closed spec fn y_spec(&self) -> int {
        self.y as int
    }

    /// The window's width and height.
    pub closed spec fn dims_spec(&self) -> (u32, u32) {
        self.window_dimensions
    }

    /// The pointer's canvas x coordinate.
    pub open spec fn canvas_x_spec(&self) -> int {
        self.x_spec() - self.dims_spec().0 / 2
    }

    /// The pointer's canvas y coordinate.
    pub open spec fn canvas_y_spec(&self) -> int {
        self.dims_spec().1 / 2 - self.y_spec()
    }

    pub fn new(x: i32, y: i32, window_width: u32, window_height: u32) -> (r: MousePosition)
        ensures
            r.x_spec() == x,
            r.y_spec() == y,
            r.dims_spec() == (window_width, window_height),
    {
        MousePosition { x: x as i64, y: y as i64, window_dimensions: (window_width, window_height) }
    }

    pub fn update_window_dimensions(&mut self, horizontal: u32, vertical: u32)
        ensures
            final(self).x_spec() == old(self).x_spec(),
            final(self).y_spec() == old(self).y_spec(),
            final(self).dims_spec() == (horizontal, vertical),
    {
        proof {
            use_type_invariant(&*self);
        }
        self.window_dimensions = (horizontal, vertical);
    }

    /// Places the pointer at the given canvas coordinates.
    pub fn update_from_canvas_coords(&mut self, new_x: i32, new_y: i32)
        ensures
            final(self).dims_spec() == old(self).dims_spec(),
            final(self).canvas_x_spec() == new_x,
            final(self).canvas_y_spec() == new_y,
    {
        let corrected_x = new_x as i64 + (self.window_dimensions.0 / 2) as i64;
        let corrected_y = (self.window_dimensions.1 / 2) as i64 - new_y as i64;
        *self = MousePosition {
            x: corrected_x,
            y: corrected_y,
            window_dimensions: self.window_dimensions,
        };
    }

    /// Places the pointer at the given window coordinates.
    pub fn update_from_window_coords(&mut self, new_x: i32, new_y: i32)
        ensures
            final(self).dims_spec() == old(self).dims_spec(),
            final(self).x_spec() == new_x,
            final(self).y_spec() == new_y,
    {
        *self = MousePosition {
            x: new_x as i64,
            y: new_y as i64,
            window_dimensions: self.window_dimensions,
        };
    }

    pub fn canvas_x(&self) -> (r: i64)
        ensures
            r == self.canvas_x_spec(),
    {
        proof {
            use_type_invariant(self);
        }
        self.x - (self.window_dimensions.0 / 2) as i64
    }

    pub fn canvas_y(&self) -> (r: i64)
        ensures
            r == self.canvas_y_spec(),
    {
        proof {
            use_type_invariant(self);
        }
        -(self.y - (self.window_dimensions.1 / 2) as i64)
    }

    fn within_horizontal_bounds(&self, x_left: i64, x_right: i64) -> (r: bool)
        ensures
            r == (x_left <= self.canvas_x_spec() <= x_right),
    {
        self.canvas_x() >= x_left && self.canvas_x() <= x_right
    }

    fn within_vertical_bounds(&self, y_bottom: i64, y_top: i64) -> (r: bool)
        ensures
            r == (y_bottom <= self.canvas_y_spec() <= y_top),
    {
        self.canvas_y() >= y_bottom && self.canvas_y() <= y_top
    }

    /// Whether the pointer's canvas position lies in the given box, bounds included.
    pub fn between(&self, x_left: i64, x_right: i64, y_bottom: i64, y_top: i64) -> (r: bool)
        ensures
            r == (x_left <= self.canvas_x_spec() <= x_right && y_bottom <= self.canvas_y_spec()
                <= y_top),
    {
        self.within_horizontal_bounds(x_left, x_right) && self.within_vertical_bounds(
            y_bottom,
            y_top,
        )
    }
}

/// Coordinate `a` (0 for x, 1 for y) of a vertex.
pub open spec fn coord(v: Vertex, a: int) -> int {
    v.position@[a] as int
}

/// The sum of coordinate `a` over a sequence of vertices.
pub open spec fn coord_sum(vs: Seq<Vertex>, a: int) -> int
    decreases vs.len(),
{
    if vs.len() == 0 {
        0
    } else {
        coord_sum(vs.drop_last(), a) + coord(vs.last(), a)
    }
}

/// The least coordinate `a` over a non-empty sequence of vertices.
pub open spec fn coord_min(vs: Seq<Vertex>, a: int) -> int
    decreases vs.len(),
{
    if vs.len() <= 1 {
        coord(vs[0], a)
    } else {
        let m = coord_min(vs.drop_last(), a);
        if coord(vs.last(), a) < m {
            coord(vs.last(), a)
        } else {
            m
        }
    }
}

/// The greatest coordinate `a` over a non-empty sequence of vertices.
pub open spec fn coord_max(vs: Seq<Vertex>, a: int) -> int
    decreases vs.len(),
{
    if vs.len() <= 1 {
        coord(vs[0], a)
    } else {
        let m = coord_max(vs.drop_last(), a);
        if coord(vs.last(), a) > m {
            coord(vs.last(), a)
        } else {
            m
        }
    }
}

/// The size along axis `a` of the bounding box of a non-empty sequence of vertices.
pub open spec fn extent(vs: Seq<Vertex>, a: int) -> int {
    coord_max(vs, a) - coord_min(vs, a)
}

/// The least integer `q` with `d * q >= a`, for `d > 0`.
spec fn ceil_div(a: int, d: int) -> int {
    -((-a) / d)
}

/// The exact value `num / den`, with `den > 0`.
#[derive(Clone, Copy, Debug, PartialEq, Eq, Structural)]
pub struct Ratio {
    pub num: i64,
    pub den: i64,
}

/// The horizontal and vertical size of a button.
pub struct ButtonDimensions {
    pub horizontal: u64,
    pub vertical: u64,
}

impl ButtonDimensions {
    pub fn new(horizontal: u64, vertical: u64) -> (r: ButtonDimensions)
        ensures
            r.horizontal == horizontal,
            r.vertical == vertical,
    {
        ButtonDimensions { horizontal, vertical }
    }
}

/// A clickable shape: shown in `inhabiting_scene`, a click on it sends the viewer to
/// `scene_request`.
///
/// Its hit region is centered on the mean of its control vertices and reaches `2/7` of the
/// control vertices' bounding box (its size divided by 3.5) to each side, along each axis.
pub struct Button {
    inhabiting_scene: SceneName,
    scene_request: SceneName,
    entity: Entity,
    center_sums: (i64, i64),
    points: i64,
    dimensions: ButtonDimensions,
}

impl Button {
    #[verifier::type_invariant]
    spec fn measured(self) -> bool {
        let vs = self.entity.control_spec();
        &&& 1 <= vs.len() <= 4
        &&& self.points == vs.len()
        &&& self.center_sums.0 == coord_sum(vs, 0)
        &&& self.center_sums.1 == coord_sum(vs, 1)
        &&& self.dimensions.horizontal == extent(vs, 0)
        &&& self.dimensions.vertical == extent(vs, 1)
        &&& -0x2_0000_0000 <= self.center_sums.0 <= 0x2_0000_0000
        &&& -0x2_0000_0000 <= self.center_sums.1 <= 0x2_0000_0000
        &&& self.dimensions.horizontal <= 0x4_0000_0000
        &&& self.dimensions.vertical <= 0x4_0000_0000
    }

    pub closed spec fn inhabiting_spec(&self) -> SceneName {
        self.inhabiting_scene
    }

    pub closed spec fn request_spec(&self) -> SceneName {
        self.scene_request
    }

    pub closed spec fn entity_spec(&self) -> &Entity {
        &self.entity
    }

    /// The number of control vertices.
    pub open spec fn points_spec(&self) -> int {
        self.entity_spec().control_spec().len() as int
    }

    /// The common denominator of the hit region's edges: the center is a sum over `points`
    /// vertices and the reach is `2/7` of a size, so `7 * points` makes both exact.
    pub open spec fn scale_spec(&self) -> int {
        7 * self.points_spec()
    }

    /// The numerator of the hit region's lower edge along axis `a`, over `scale_spec`:
    /// center minus size / 3.5.
    pub open spec fn low_edge_spec(&self, a: int) -> int {
        let vs = self.entity_spec().control_spec();
        7 * coord_sum(vs, a) - 2 * self.points_spec() * extent(vs, a)
    }

    /// The numerator of the hit region's upper edge along axis `a`, over `scale_spec`:
    /// center plus size / 3.5.
    pub open spec fn high_edge_spec(&self, a: int) -> int {
        let vs = self.entity_spec().control_spec();
        7 * coord_sum(vs, a) + 2 * self.points_spec() * extent(vs, a)
    }

    /// Whether the canvas point `(px, py)` lies in the hit region, edges included.
    pub open spec fn contains_spec(&self, px: int, py: int) -> bool {
        &&& self.low_edge_spec(0) <= self.scale_spec() * px <= self.high_edge_spec(0)
        &&& self.low_edge_spec(1) <= self.scale_spec() * py <= self.high_edge_spec(1)
    }

    pub fn new(inhabiting_scene: SceneName, scene_request: SceneName, entity: Entity) -> (r: Button)
        ensures
            r.inhabiting_spec() == inhabiting_scene,
            r.request_spec() == scene_request,
            *r.entity_spec() == entity,
    {
        let vs = entity.control();
        proof {
            assert(requisite_points_of(entity.kind_spec()) <= 4);
        }
        let (sum_x, left, right) = axis_stats(vs, 0);
        let (sum_y, bottom, top) = axis_stats(vs, 1);
        let dimensions = ButtonDimensions::new((right - left) as u64, (top - bottom) as u64);
        let points = vs.len() as i64;
        Button {
            inhabiting_scene,
            scene_request,
            entity,
            center_sums: (sum_x, sum_y),
            points,
            dimensions,
        }
    }

    pub fn inhabiting_scene(&self) -> (r: SceneName)
        ensures
            r == self.inhabiting_spec(),
    {
        self.inhabiting_scene
    }

    pub fn scene_request(&self) -> (r: SceneName)
        ensures
            r == self.request_spec(),
    {
        self.scene_request
    }

    pub fn entity(&self) -> (r: &Entity)
        ensures
            r == self.entity_spec(),
    {
        &self.entity
    }

    /// The size of the control vertices' bounding box.
    pub fn dimensions(&self) -> (r: &ButtonDimensions)
        ensures
            r.horizontal == extent(self.entity_spec().control_spec(), 0),
            r.vertical == extent(self.entity_spec().control_spec(), 1),
    {
        proof {
            use_type_invariant(self);
        }
        &self.dimensions
    }

    /// The exact left edge of the hit region: center x minus horizontal size / 3.5.
    pub fn left_bound(&self) -> (r: Ratio)
        ensures
            r.num == self.low_edge_spec(0),
            r.den == self.scale_spec(),
            r.den > 0,
            r.num <= self.high_edge_spec(0),
    {
        proof {
            use_type_invariant(self);
            button_edges_are_inclusive(*self, 0, 0);
        }
        Ratio { num: edges(self.center_sums.0, self.points, self.dimensions.horizontal).0, den: 7 * self.points }
    }

    /// The exact right edge of the hit region: center x plus horizontal size / 3.5.
    pub fn right_bound(&self) -> (r: Ratio)
        ensures
            r.num == self.high_edge_spec(0),
            r.den == self.scale_spec(),
            r.den > 0,
            self.low_edge_spec(0) <= r.num,
    {
        proof {
            use_type_invariant(self);
            button_edges_are_inclusive(*self, 0, 0);
        }
        Ratio { num: edges(self.center_sums.0, self.points, self.dimensions.horizontal).1, den: 7 * self.points }
    }

    /// The exact top edge of the hit region: center y plus vertical size / 3.5.
    pub fn top_bound(&self) -> (r: Ratio)
        ensures
            r.num == self.high_edge_spec(1),
            r.den == self.scale_spec(),
            r.den > 0,
            self.low_edge_spec(1) <= r.num,
    {
        proof {
            use_type_invariant(self);
            button_edges_are_inclusive(*self, 0, 0);
        }
        Ratio { num: edges(self.center_sums.1, self.points, self.dimensions.vertical).1, den: 7 * self.points }
    }

    /// The exact bottom edge of the hit region: center y minus vertical size / 3.5.
    pub fn bottom_bound(&self) -> (r: Ratio)
        ensures
            r.num == self.low_edge_spec(1),
            r.den == self.scale_spec(),
            r.den > 0,
            r.num <= self.high_edge_spec(1),
    {
        proof {
            use_type_invariant(self);
            button_edges_are_inclusive(*self, 0, 0);
        }
        Ratio { num: edges(self.center_sums.1, self.points, self.dimensions.vertical).0, den: 7 * self.points }
    }

    /// The integer canvas points of the hit region: its edges rounded inwards, as
    /// `(left, right, bottom, top)`.
    fn pixel_box(&self) -> (r: (i64, i64, i64, i64))
        ensures
            r.0 == ceil_div(self.low_edge_spec(0), self.scale_spec()),
            r.1 == self.high_edge_spec(0) / self.scale_spec(),
            r.2 == ceil_div(self.low_edge_spec(1), self.scale_spec()),
            r.3 == self.high_edge_spec(1) / self.scale_spec(),
    {
        proof {
            use_type_invariant(self);
        }
        let scale = 7 * self.points;
        let (low_x, high_x) = edges(self.center_sums.0, self.points, self.dimensions.horizontal);
        let (low_y, high_y) = edges(self.center_sums.1, self.points, self.dimensions.vertical);
        (
            -floor_div(-low_x, scale),
            floor_div(high_x, scale),
            -floor_div(-low_y, scale),
            floor_div(high_y, scale),
        )
    }
}

/// A button's hit region includes its edges, and its edges never cross: a canvas point on an
/// edge, within the span of the other axis, is inside, and a point one unit beyond an edge is
/// outside.
pub proof fn button_edges_are_inclusive(b: Button, px: int, py: int)
    requires
        b.points_spec() > 0,
    ensures
        b.low_edge_spec(0) <= b.high_edge_spec(0),
        b.low_edge_spec(1) <= b.high_edge_spec(1),
        b.low_edge_spec(1) <= b.scale_spec() * py <= b.high_edge_spec(1) ==> {
            &&& b.scale_spec() * px == b.low_edge_spec(0) ==> b.contains_spec(px, py)
            &&& b.scale_spec() * px == b.high_edge_spec(0) ==> b.contains_spec(px, py)
            &&& b.scale_spec() * (px + 1) == b.low_edge_spec(0) ==> !b.contains_spec(px, py)
            &&& b.scale_spec() * (px - 1) == b.high_edge_spec(0) ==> !b.contains_spec(px, py)
        },
        b.low_edge_spec(0) <= b.scale_spec() * px <= b.high_edge_spec(0) ==> {
            &&& b.scale_spec() * py == b.low_edge_spec(1) ==> b.contains_spec(px, py)
            &&& b.scale_spec() * py == b.high_edge_spec(1) ==> b.contains_spec(px, py)
            &&& b.scale_spec() * (py + 1) == b.low_edge_spec(1) ==> !b.contains_spec(px, py)
            &&& b.scale_spec() * (py - 1) == b.high_edge_spec(1) ==> !b.contains_spec(px, py)
        },
{
    let vs = b.entity_spec().control_spec();
    let n = b.points_spec();
    let d = b.scale_spec();
    lemma_min_le_max(vs, 0);
    lemma_min_le_max(vs, 1);
    let wx = extent(vs, 0);
    let wy = extent(vs, 1);
    assert(0 <= 2 * n * wx && 0 <= 2 * n * wy) by (nonlinear_arith)
        requires
            n > 0,
            wx >= 0,
            wy >= 0,
    ;
    assert(d * (px + 1) == d * px + d && d * (px - 1) == d * px - d && d * (py + 1) == d * py + d
        && d * (py - 1) == d * py - d) by (nonlinear_arith);
}

/// On integer canvas points, the hit region is the box between its edges rounded inwards.
proof fn lemma_pixel_box(b: Button, px: int, py: int)
    requires
        b.points_spec() > 0,
    ensures
        b.contains_spec(px, py) <==> (ceil_div(b.low_edge_spec(0), b.scale_spec()) <= px
            <= b.high_edge_spec(0) / b.scale_spec() && ceil_div(b.low_edge_spec(1), b.scale_spec())
            <= py <= b.high_edge_spec(1) / b.scale_spec()),
{
    let d = b.scale_spec();
    lemma_ceil_div(b.low_edge_spec(0), d, px);
    lemma_floor_div(b.high_edge_spec(0), d, px);
    lemma_ceil_div(b.low_edge_spec(1), d, py);
    lemma_floor_div(b.high_edge_spec(1), d, py);
}

proof fn lemma_min_le_max(vs: Seq<Vertex>, a: int)
    requires
        vs.len() >= 1,
    ensures
        coord_min(vs, a) <= coord_max(vs, a),
    decreases vs.len(),
{
    if vs.len() > 1 {
        lemma_min_le_max(vs.drop_last(), a);
    }
}

proof fn lemma_floor_div(a: int, d: int, x: int)
    requires
        d > 0,
    ensures
        x <= a / d <==> d * x <= a,
{
    let q = a / d;
    vstd::arithmetic::div_mod::lemma_fundamental_div_mod(a, d);
    if x <= q {
        assert(d * x <= d * q) by (nonlinear_arith)
            requires
                d > 0,
                x <= q,
        ;
    } else {
        assert(d * x >= d * q + d) by (nonlinear_arith)
            requires
                d > 0,
                x >= q + 1,
        ;
    }
}

proof fn lemma_ceil_div(a: int, d: int, x: int)
    requires
        d > 0,
    ensures
        x >= ceil_div(a, d) <==> d * x >= a,
{
    lemma_floor_div(-a, d, -x);
    assert(d * (-x) == -(d * x)) by (nonlinear_arith);
}

/// The numerators `7 * sum -+ 2 * points * dim` of a hit region's edges along one axis,
/// over `7 * points`.
fn edges(sum: i64, points: i64, dim: u64) -> (r: (i64, i64))
    requires
        1 <= points <= 4,
        -0x2_0000_0000 <= sum <= 0x2_0000_0000,
        dim <= 0x4_0000_0000,
    ensures
        r.0 == 7 * sum - 2 * points * dim,
        r.1 == 7 * sum + 2 * points * dim,
        -0x100_0000_0000 <= r.0 <= 0x100_0000_0000,
        -0x100_0000_0000 <= r.1 <= 0x100_0000_0000,
{
    let d = dim as i64;
    assert(0 <= 2 * points * d <= 8 * 0x4_0000_0000) by (nonlinear_arith)
        requires
            1 <= points <= 4,
            0 <= d <= 0x4_0000_0000,
    ;
    let reach = 2 * points * d;
    (7 * sum - reach, 7 * sum + reach)
}

/// The sum, least and greatest value of coordinate `a` over the vertices.
fn axis_stats(vs: &[Vertex], a: usize) -> (r: (i64, i64, i64))
    requires
        1 <= vs@.len() <= 4,
        a < 2,
    ensures
        r.0 == coord_sum(vs@, a as int),
        r.1 == coord_min(vs@, a as int),
        r.2 == coord_max(vs@, a as int),
        r.1 <= r.2,
        -0x2_0000_0000 <= r.0 <= 0x2_0000_0000,
        i32::MIN <= r.1 && r.2 <= i32::MAX,
{
    let first = vs[0].position[a] as i64;
    proof {
        assert(vs@.take(1).drop_last() =~= Seq::<Vertex>::empty());
        assert(coord_sum(Seq::<Vertex>::empty(), a as int) == 0);
        assert(vs@.take(1)[0] == vs@[0]);
    }
    let mut sum: i64 = first;
    let mut lo: i64 = first;
    let mut hi: i64 = first;
    let mut i: usize = 1;
    while i < vs.len()
        invariant
            1 <= i <= vs@.len() <= 4,
            a < 2,
            sum == coord_sum(vs@.take(i as int), a as int),
            lo == coord_min(vs@.take(i as int), a as int),
            hi == coord_max(vs@.take(i as int), a as int),
            lo <= hi,
            i32::MIN <= lo && hi <= i32::MAX,
            -0x8000_0000 * i <= sum <= 0x8000_0000 * i,
        decreases vs@.len() - i,
    {
        let c = vs[i].position[a] as i64;
        proof {
            assert(vs@.take(i + 1).drop_last() =~= vs@.take(i as int));
            assert(vs@.take(i + 1).last() == vs@[i as int]);
        }
        sum = sum + c;
        if c < lo {
            lo = c;
        }
        if c > hi {
            hi = c;
        }
        i = i + 1;
    }
    assert(vs@.take(vs@.len() as int) =~= vs@);
    (sum, lo, hi)
}

/// `a / d` rounded down, for `d > 0`.
fn floor_div(a: i64, d: i64) -> (q: i64)
    requires
        0 < d <= 0x100,
        -0x100_0000_0000 <= a <= 0x100_0000_0000,
    ensures
        q == a / d,
        -0x100_0000_0000 <= q <= 0x100_0000_0000,
{
    if a >= 0 {
        let q = a / d;
        assert(0 <= q <= a) by (nonlinear_arith)
            requires
                0 <= a,
                0 < d,
                q == a / d,
        ;
        q
    } else {
        let m = -a;
        let t = (m + d - 1) / d;
        proof {
            let n: int = m + d - 1;
            let dd: int = d as int;
            vstd::arithmetic::div_mod::lemma_fundamental_div_mod(n, dd);
            assert(t == n / dd);
            assert(n == dd * t + n % dd);
            assert(0 <= n % dd < dd);
            assert(-t * d == -(d * t)) by (nonlinear_arith);
            assert(0 <= t <= m) by (nonlinear_arith)
                requires
                    1 <= m,
                    n == m + dd - 1,
                    0 < dd,
                    n == dd * t + n % dd,
                    0 <= n % dd < dd,
            ;
            vstd::arithmetic::div_mod::lemma_fundamental_div_mod_converse(
                a as int,
                d as int,
                -t,
                a + d * t,
            );
        }
        -t
    }
}

/// A pointer button.
#[derive(Clone, Copy, Debug, PartialEq, Eq, Structural)]
pub enum PointerButton {
    Left,
    Right,
    Middle,
    Other,
}

/// A pointer event delivered by the windowing host; positions are in window pixels.
#[derive(Clone, Copy, Debug, PartialEq, Eq, Structural)]
pub enum InputEvent {
    PointerMoved { x: i32, y: i32 },
    PointerPressed(PointerButton),
    PointerReleased(PointerButton),
}

/// The entities drawn in each scene, in the order they are drawn. Every scene has a list,
/// empty at first.
pub struct SceneRegistry {
    home: Vec<Entity>,
    root_picker: Vec<Entity>,
    grapher: Vec<Entity>,
    simulation: Vec<Entity>,
}

impl SceneRegistry {
    /// The entities of `scene`, in drawing order.
    pub closed spec fn entities_spec(&self, scene: SceneName) -> Seq<Entity> {
        match scene {
            SceneName::Home => self.home@,
            SceneName::RootPicker => self.root_picker@,
            SceneName::Grapher => self.grapher@,
            SceneName::Simulation => self.simulation@,
        }
    }

    pub fn new() -> (r: SceneRegistry)
        ensures
            forall|s: SceneName| #[trigger] r.entities_spec(s) == Seq::<Entity>::empty(),
    {
        let r = SceneRegistry {
            home: Vec::new(),
            root_picker: Vec::new(),
            grapher: Vec::new(),
            simulation: Vec::new(),
        };
        assert forall|s: SceneName| #[trigger] r.entities_spec(s) == Seq::<Entity>::empty() by {
            assert(r.entities_spec(s) =~= Seq::<Entity>::empty());
        }
        r
    }

    pub fn entities(&self, scene: SceneName) -> (r: &[Entity])
        ensures
            r@ == self.entities_spec(scene),
    {
        match scene {
            SceneName::Home => self.home.as_slice(),
            SceneName::RootPicker => self.root_picker.as_slice(),
            SceneName::Grapher => self.grapher.as_slice(),
            SceneName::Simulation => self.simulation.as_slice(),
        }
    }

    /// Appends `entity` to the entities of `scene`; the other scenes keep theirs.
    pub fn push(&mut self, scene: SceneName, entity: Entity)
        ensures
            forall|s: SceneName|
                #[trigger] final(self).entities_spec(s) == if s == scene {
                    old(self).entities_spec(s).push(entity)
                } else {
                    old(self).entities_spec(s)
                },
    {
        match scene {
            SceneName::Home => self.home.push(entity),
            SceneName::RootPicker => self.root_picker.push(entity),
            SceneName::Grapher => self.grapher.push(entity),
            SceneName::Simulation => self.simulation.push(entity),
        }
    }
}

/// Whether a click at the canvas point `(px, py)` in `scene` lands on button `b`.
pub open spec fn button_hit(b: Button, scene: SceneName, px: int, py: int) -> bool {
    b.inhabiting_spec() == scene && b.contains_spec(px, py)
}

/// The index of the first button at or after `i` that a click at `(px, py)` in `scene` lands
/// on.
pub open spec fn first_hit_from(bs: Seq<Button>, scene: SceneName, px: int, py: int, i: int) -> Option<int>
    decreases bs.len() - i,
{
    if i < 0 || i >= bs.len() {
        None
    } else if button_hit(bs[i], scene, px, py) {
        Some(i)
    } else {
        first_hit_from(bs, scene, px, py, i + 1)
    }
}

/// The scene after a click at `(px, py)` in `scene`: the request of the first button, in
/// registration order, that the click lands on; `scene` itself when it lands on none.
pub open spec fn scene_after_click(bs: Seq<Button>, scene: SceneName, px: int, py: int) -> SceneName {
    match first_hit_from(bs, scene, px, py, 0) {
        Some(i) => bs[i].request_spec(),
        None => scene,
    }
}

/// The mesh handles of a list of entities.
pub open spec fn entity_handles(es: Seq<Entity>) -> Seq<usize> {
    es.map_values(|e: Entity| e.handle_spec())
}

/// The mesh handles of the buttons shown in `scene`, in registration order.
pub open spec fn button_handles(bs: Seq<Button>, scene: SceneName) -> Seq<usize>
    decreases bs.len(),
{
    if bs.len() == 0 {
        Seq::empty()
    } else {
        let rest = button_handles(bs.drop_last(), scene);
        if bs.last().inhabiting_spec() == scene {
            rest.push(bs.last().entity_spec().handle_spec())
        } else {
            rest
        }
    }
}

/// Whether `e` is the shape `kind` on the control vertices `vs`, bound to mesh `handle` and
/// normalized against `viewport`.
pub open spec fn entity_of(
    e: Entity,
    kind: ShapeKind,
    vs: Seq<Vertex>,
    handle: usize,
    viewport: (u32, u32),
) -> bool {
    &&& e.kind_spec() == kind
    &&& e.control_spec() == vs
    &&& e.mesh_spec() == tessellation(kind, vs)
    &&& e.handle_spec() == handle
    &&& e.viewport_spec() == viewport
}

/// The navigation state: the current scene, the scenes' entities, the buttons, the pointer
/// and the viewport size. Mesh handles are handed out in order, from 0.
pub struct MasterWindowState {
    size: (u32, u32),
    cur_scene: SceneName,
    buttons: Vec<Button>,
    scenes: SceneRegistry,
    mouse_position: MousePosition,
    meshes: usize,
}

impl MasterWindowState {
    pub closed spec fn size_spec(&self) -> (u32, u32) {
        self.size
    }

    pub closed spec fn current_spec(&self) -> SceneName {
        self.cur_scene
    }

    pub closed spec fn buttons_spec(&self) -> Seq<Button> {
        self.buttons@
    }

    pub closed spec fn registry_spec(&self) -> &SceneRegistry {
        &self.scenes
    }

    pub closed spec fn mouse_spec(&self) -> &MousePosition {
        &self.mouse_position
    }

    /// How many mesh handles have been handed out; the next one is this number.
    pub closed spec fn meshes_spec(&self) -> usize {
        self.meshes
    }

    /// The pointer always knows the current viewport size.
    pub open spec fn wf(&self) -> bool {
        self.mouse_spec().dims_spec() == self.size_spec()
    }

    /// A state for a viewport of the given size: Home is shown, no scene has entities, there
    /// are no buttons, and the pointer is at the window's origin.
    pub fn new(width: u32, height: u32) -> (r: MasterWindowState)
        ensures
            r.wf(),
            r.size_spec() == (width, height),
            r.current_spec() == SceneName::Home,
            r.buttons_spec() == Seq::<Button>::empty(),
            forall|s: SceneName| #[trigger] r.registry_spec().entities_spec(s) == Seq::<Entity>::empty(),
            r.mouse_spec().x_spec() == 0,
            r.mouse_spec().y_spec() == 0,
            r.meshes_spec() == 0,
    {
        MasterWindowState {
            size: (width, height),
            cur_scene: SceneName::Home,
            buttons: Vec::new(),
            scenes: SceneRegistry::new(),
            mouse_position: MousePosition::new(0, 0, width, height),
            meshes: 0,
        }
    }

    pub fn current_scene(&self) -> (r: SceneName)
        ensures
            r == self.current_spec(),
    {
        self.cur_scene
    }

    pub fn size(&self) -> (r: (u32, u32))
        ensures
            r == self.size_spec(),
    {
        self.size
    }

    pub fn buttons(&self) -> (r: &[Button])
        ensures
            r@ == self.buttons_spec(),
    {
        self.buttons.as_slice()
    }

    pub fn entities(&self, scene: SceneName) -> (r: &[Entity])
        ensures
            r@ == self.registry_spec().entities_spec(scene),
    {
        self.scenes.entities(scene)
    }

    pub fn mouse_position(&self) -> (r: &MousePosition)
        ensures
            r == self.mouse_spec(),
    {
        &self.mouse_position
    }

    pub fn meshes(&self) -> (r: usize)
        ensures
            r == self.meshes_spec(),
    {
        self.meshes
    }

    /// The scene after the current one in the ring of scenes.
    pub fn next_scene(&self) -> (r: SceneName)
        ensures
            r == next_of(self.current_spec()),
    {
        match self.cur_scene {
            SceneName::Home => SceneName::RootPicker,
            SceneName::RootPicker => SceneName::Grapher,
            SceneName::Grapher => SceneName::Simulation,
            SceneName::Simulation => SceneName::Home,
        }
    }

    /// The scene a "back" button of the current scene leads to.
    pub fn previous_scene(&self) -> (r: SceneName)
        ensures
            r == previous_of(self.current_spec()),
    {
        match self.cur_scene {
            SceneName::Home => SceneName::Home,
            SceneName::RootPicker => SceneName::Home,
            SceneName::Grapher => SceneName::RootPicker,
            SceneName::Simulation => SceneName::Grapher,
        }
    }

    /// Appends `entity` to the entities drawn in `scene`.
    pub fn add_entity(&mut self, scene: &SceneName, entity: Entity)
        requires
            old(self).wf(),
        ensures
            final(self).wf(),
            forall|s: SceneName|
                #[trigger] final(self).registry_spec().entities_spec(s) == if s == *scene {
                    old(self).registry_spec().entities_spec(s).push(entity)
                } else {
                    old(self).registry_spec().entities_spec(s)
                },
            final(self).size_spec() == old(self).size_spec(),
            final(self).current_spec() == old(self).current_spec(),
            final(self).buttons_spec() == old(self).buttons_spec(),
            final(self).mouse_spec() == old(self).mouse_spec(),
            final(self).meshes_spec() == old(self).meshes_spec(),
    {
        self.scenes.push(*scene, entity);
    }

    /// Tessellates a shape and appends it to the entities drawn in `scene`, under the next
    /// mesh handle, which it returns. A wrong number of control vertices changes nothing.
    pub fn add_shape(&mut self, scene: &SceneName, kind: &ShapeKind, vertices: Vec<Vertex>) -> (res:
        Result<usize, ShapeError>)
        requires
            old(self).wf(),
            old(self).meshes_spec() < usize::MAX,
        ensures
            final(self).wf(),
            vertex_count_error(*kind, vertices@.len()) matches Some(e) ==> res == Err::<
                usize,
                ShapeError,
            >(e) && *final(self) == *old(self),
            vertex_count_error(*kind, vertices@.len()) is None ==> {
                &&& res == Ok::<usize, ShapeError>(old(self).meshes_spec())
                &&& final(self).meshes_spec() == old(self).meshes_spec() + 1
                &&& final(self).registry_spec().entities_spec(*scene).len() == old(
                    self,
                ).registry_spec().entities_spec(*scene).len() + 1
                &&& final(self).registry_spec().entities_spec(*scene).drop_last() == old(
                    self,
                ).registry_spec().entities_spec(*scene)
                &&& entity_of(
                    final(self).registry_spec().entities_spec(*scene).last(),
                    *kind,
                    vertices@,
                    old(self).meshes_spec(),
                    old(self).size_spec(),
                )
                &&& forall|s: SceneName|
                    s != *scene ==> #[trigger] final(self).registry_spec().entities_spec(s) == old(
                        self,
                    ).registry_spec().entities_spec(s)
                &&& final(self).size_spec() == old(self).size_spec()
                &&& final(self).current_spec() == old(self).current_spec()
                &&& final(self).buttons_spec() == old(self).buttons_spec()
                &&& final(self).mouse_spec() == old(self).mouse_spec()
            },
    {
        let builder = match EntityBuilder::from_shape(*kind, vertices) {
            Ok(b) => b,
            Err(e) => return Err(e),
        };
        let handle = self.meshes;
        let entity = builder.build(handle, self.size.0, self.size.1);
        self.scenes.push(*scene, entity);
        self.meshes = handle + 1;
        proof {
            assert(self.scenes.entities_spec(*scene).drop_last() =~= old(
                self,
            ).scenes.entities_spec(*scene));
        }
        Ok(handle)
    }

    /// Tessellates a shape and registers it as a button shown in `scene` that leads to
    /// `scene_request`, under the next mesh handle, which it returns. A wrong number of
    /// control vertices changes nothing.
    pub fn add_button(
        &mut self,
        scene: &SceneName,
        shape: &ShapeKind,
        vertices: Vec<Vertex>,
        scene_request: SceneName,
    ) -> (res: Result<usize, ShapeError>)
        requires
            old(self).wf(),
            old(self).meshes_spec() < usize::MAX,
        ensures
            final(self).wf(),
            vertex_count_error(*shape, vertices@.len()) matches Some(e) ==> res == Err::<
                usize,
                ShapeError,
            >(e) && *final(self) == *old(self),
            vertex_count_error(*shape, vertices@.len()) is None ==> {
                &&& res == Ok::<usize, ShapeError>(old(self).meshes_spec())
                &&& final(self).meshes_spec() == old(self).meshes_spec() + 1
                &&& final(self).buttons_spec().len() == old(self).buttons_spec().len() + 1
                &&& final(self).buttons_spec().drop_last() == old(self).buttons_spec()
                &&& final(self).buttons_spec().last().inhabiting_spec() == *scene
                &&& final(self).buttons_spec().last().request_spec() == scene_request
                &&& entity_of(
                    *final(self).buttons_spec().last().entity_spec(),
                    *shape,
                    vertices@,
                    old(self).meshes_spec(),
                    old(self).size_spec(),
                )
                &&& final(self).registry_spec() == old(self).registry_spec()
                &&& final(self).size_spec() == old(self).size_spec()
                &&& final(self).current_spec() == old(self).current_spec()
                &&& final(self).mouse_spec() == old(self).mouse_spec()
            },
    {
        let builder = match EntityBuilder::from_shape(*shape, vertices) {
            Ok(b) => b,
            Err(e) => return Err(e),
        };
        let handle = self.meshes;
        let entity = builder.build(handle, self.size.0, self.size.1);
        let button = Button::new(*scene, scene_request, entity);
        self.buttons.push(button);
        self.meshes = handle + 1;
        proof {
            assert(self.buttons@.drop_last() =~= old(self).buttons@);
        }
        Ok(handle)
    }

    /// Takes on a new viewport size; a width or height of 0 is ignored. Returns whether the
    /// size was taken on.
    pub fn resize(&mut self, width: u32, height: u32) -> (applied: bool)
        requires
            old(self).wf(),
        ensures
            final(self).wf(),
            applied == (width > 0 && height > 0),
            applied ==> final(self).size_spec() == (width, height),
            !applied ==> final(self).size_spec() == old(self).size_spec(),
            final(self).mouse_spec().x_spec() == old(self).mouse_spec().x_spec(),
            final(self).mouse_spec().y_spec() == old(self).mouse_spec().y_spec(),
            final(self).current_spec() == old(self).current_spec(),
            final(self).buttons_spec() == old(self).buttons_spec(),
            final(self).registry_spec() == old(self).registry_spec(),
            final(self).meshes_spec() == old(self).meshes_spec(),
    {
        if width == 0 || height == 0 {
            return false;
        }
        self.size = (width, height);
        self.mouse_position.update_window_dimensions(width, height);
        true
    }

    /// The index of the first button, in registration order, that is shown in the current
    /// scene and whose hit region holds the pointer.
    fn clicked_button(&self) -> (r: Option<usize>)
        ensures
            r matches Some(i) ==> i < self.buttons_spec().len(),
            match r {
                Some(i) => first_hit_from(
                    self.buttons_spec(),
                    self.current_spec(),
                    self.mouse_spec().canvas_x_spec(),
                    self.mouse_spec().canvas_y_spec(),
                    0,
                ) == Some(i as int),
                None => first_hit_from(
                    self.buttons_spec(),
                    self.current_spec(),
                    self.mouse_spec().canvas_x_spec(),
                    self.mouse_spec().canvas_y_spec(),
                    0,
                ) is None,
            },
    {
        let ghost bs = self.buttons@;
        let ghost px = self.mouse_position.canvas_x_spec();
        let ghost py = self.mouse_position.canvas_y_spec();
        let mut i: usize = 0;
        while i < self.buttons.len()
            invariant
                bs == self.buttons@,
                px == self.mouse_position.canvas_x_spec(),
                py == self.mouse_position.canvas_y_spec(),
                0 <= i <= bs.len(),
                first_hit_from(bs, self.cur_scene, px, py, 0) == first_hit_from(
                    bs,
                    self.cur_scene,
                    px,
                    py,
                    i as int,
                ),
            decreases bs.len() - i,
        {
            let button = &self.buttons[i];
            proof {
                use_type_invariant(button);
                lemma_pixel_box(*button, px, py);
            }
            let (left, right, bottom, top) = button.pixel_box();
            if button.inhabiting_scene() == self.cur_scene && self.mouse_position.between(
                left,
                right,
                bottom,
                top,
            ) {
                return Some(i);
            }
            i = i + 1;
        }
        None
    }

    /// Handles a pointer event. A move places the pointer at the given window coordinates.
    /// A press of the left button switches to the request of the first button, in
    /// registration order, that is shown in the current scene and holds the pointer; if none
    /// does, the scene stays. Other events change nothing.
    pub fn input(&mut self, event: &InputEvent)
        requires
            old(self).wf(),
        ensures
            final(self).wf(),
            final(self).size_spec() == old(self).size_spec(),
            final(self).buttons_spec() == old(self).buttons_spec(),
            final(self).registry_spec() == old(self).registry_spec(),
            final(self).meshes_spec() == old(self).meshes_spec(),
            match *event {
                InputEvent::PointerMoved { x, y } => {
                    &&& final(self).mouse_spec().x_spec() == x
                    &&& final(self).mouse_spec().y_spec() == y
                    &&& final(self).mouse_spec().dims_spec() == old(self).mouse_spec().dims_spec()
                    &&& final(self).current_spec() == old(self).current_spec()
                },
                InputEvent::PointerPressed(PointerButton::Left) => {
                    &&& final(self).mouse_spec() == old(self).mouse_spec()
                    &&& final(self).current_spec() == scene_after_click(
                        old(self).buttons_spec(),
                        old(self).current_spec(),
                        old(self).mouse_spec().canvas_x_spec(),
                        old(self).mouse_spec().canvas_y_spec(),
                    )
                },
                _ => {
                    &&& final(self).mouse_spec() == old(self).mouse_spec()
                    &&& final(self).current_spec() == old(self).current_spec()
                },
            },
    {
        match event {
            InputEvent::PointerMoved { x, y } => {
                self.mouse_position.update_from_window_coords(*x, *y);
            },
            InputEvent::PointerPressed(PointerButton::Left) => {
                if let Some(i) = self.clicked_button() {
                    self.cur_scene = self.buttons[i].scene_request();
                }
            },
            _ => {},
        }
    }

    /// The mesh handles to draw for the current scene, in order: the scene's entities, then
    /// the buttons shown in it.
    pub fn draw_order(&self) -> (r: Vec<usize>)
        ensures
            r@ == entity_handles(self.registry_spec().entities_spec(self.current_spec()))
                + button_handles(self.buttons_spec(), self.current_spec()),
    {
        let entities = self.scenes.entities(self.cur_scene);
        let mut order: Vec<usize> = Vec::new();
        let mut i: usize = 0;
        while i < entities.len()
            invariant
                0 <= i <= entities@.len(),
                order@ == entity_handles(entities@.take(i as int)),
            decreases entities@.len() - i,
        {
            order.push(entities[i].mesh());
            i = i + 1;
            assert(order@ =~= entity_handles(entities@.take(i as int)));
        }
        assert(entities@.take(entities@.len() as int) =~= entities@);
        let ghost shown = order@;
        let mut j: usize = 0;
        while j < self.buttons.len()
            invariant
                0 <= j <= self.buttons@.len(),
                order@ == shown + button_handles(self.buttons@.take(j as int), self.cur_scene),
            decreases self.buttons@.len() - j,
        {
            let button = &self.buttons[j];
            proof {
                assert(self.buttons@.take(j + 1).drop_last() =~= self.buttons@.take(j as int));
            }
            if button.inhabiting_scene() == self.cur_scene {
                order.push(button.entity().mesh());
            }
            j = j + 1;
            assert(order@ =~= shown + button_handles(self.buttons@.take(j as int), self.cur_scene));
        }
        assert(self.buttons@.take(self.buttons@.len() as int) =~= self.buttons@);
        order
    }
}

} // verus!
