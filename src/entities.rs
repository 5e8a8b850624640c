use vstd::prelude::*;

use crate::colors::Color;

verus! {

/// A control vertex: a position in pixels, relative to the canvas center, and a color.
#[derive(Clone, Copy, Debug)]
pub struct Vertex {
    pub position: [i32; 3],
    pub color: Color,
}

impl Vertex {
    pub fn new(x: i32, y: i32, z: i32, color: Color) -> (r: Vertex)
        ensures
            r.position@ == seq![x, y, z],
            r.color == color,
    {
        let r = Vertex { position: [x, y, z], color };
        assert(r.position@ =~= seq![x, y, z]);
        r
    }
}

impl PartialEq for Vertex {
    fn eq(&self, other: &Vertex) -> (r: bool) {
        let r = self.position[0] == other.position[0] && self.position[1] == other.position[1]
            && self.position[2] == other.position[2] && self.color == other.color;
        assert(r == (self.position@ =~= other.position@ && self.color@ == other.color@));
        r
    }
}

impl vstd::std_specs::cmp::PartialEqSpecImpl for Vertex {
    open spec fn obeys_eq_spec() -> bool {
        true
    }

    open spec fn eq_spec(&self, other: &Vertex) -> bool {
        self.position@ == other.position@ && self.color@ == other.color@
    }
}

/// A vertex of a tessellated mesh.
///
/// A rim point of a circle lies on an irrational position, so it is kept by its
/// construction: the point at `degrees` degrees (counter-clockwise from the positive x axis)
/// on the circle of `radius` around `center`, with z equal to 0 and the center's color.
#[derive(Clone, Copy, Debug)]
pub enum MeshVertex {
    Control(Vertex),
    Rim { center: Vertex, radius: u32, degrees: u32 },
}

/// The primitive shapes that can be tessellated.
#[derive(Clone, Copy, Debug, PartialEq, Eq, Structural)]
pub enum ShapeKind {
    Triangle,
    Rectangle,
    /// A circle of the given radius, in pixels.
    Circle(u32),
}

/// How many control vertices a shape of this kind is described by.
pub open spec fn requisite_points_of(kind: ShapeKind) -> nat {
    match kind {
        ShapeKind::Triangle => 3,
        ShapeKind::Rectangle => 4,
        ShapeKind::Circle(_) => 1,
    }
}

impl ShapeKind {
    pub fn requisite_points(&self) -> (r: usize)
        ensures
            r == requisite_points_of(*self),
    {
        match self {
            ShapeKind::Triangle => 3,
            ShapeKind::Rectangle => 4,
            ShapeKind::Circle(_) => 1,
        }
    }
}

/// A shape was described by the wrong number of control vertices.
#[derive(Clone, Copy, Debug, PartialEq, Eq, Structural)]
pub enum ShapeError {
    VertexOverspecification(ShapeKind),
    VertexUnderspecification(ShapeKind),
}

/// What a shape error says, in words.
pub open spec fn shape_error_message(e: ShapeError) -> Seq<char> {
    match e {
        ShapeError::VertexOverspecification(ShapeKind::Triangle) =>
            "A triangle requires only three vertices"@,
        ShapeError::VertexOverspecification(ShapeKind::Rectangle) =>
            "A rectangle requires only four vertices"@,
        ShapeError::VertexOverspecification(ShapeKind::Circle(_)) =>
            "A circle requires only one vertex for its center"@,
        ShapeError::VertexUnderspecification(ShapeKind::Triangle) =>
            "A triangle requires at least three vertices"@,
        ShapeError::VertexUnderspecification(ShapeKind::Rectangle) =>
            "A rectangle requires at least four vertices"@,
        ShapeError::VertexUnderspecification(ShapeKind::Circle(_)) =>
            "A circle requires a vertex for its center"@,
    }
}

impl ShapeError {
    /// The error in words.
    pub fn message(&self) -> (r: String)
        ensures
            r@ == shape_error_message(*self),
    {
        match self {
            ShapeError::VertexOverspecification(ShapeKind::Triangle) => {
                "A triangle requires only three vertices".to_owned()
            },
            ShapeError::VertexOverspecification(ShapeKind::Rectangle) => {
                "A rectangle requires only four vertices".to_owned()
            },
            ShapeError::VertexOverspecification(ShapeKind::Circle(_)) => {
                "A circle requires only one vertex for its center".to_owned()
            },
            ShapeError::VertexUnderspecification(ShapeKind::Triangle) => {
                "A triangle requires at least three vertices".to_owned()
            },
            ShapeError::VertexUnderspecification(ShapeKind::Rectangle) => {
                "A rectangle requires at least four vertices".to_owned()
            },
            ShapeError::VertexUnderspecification(ShapeKind::Circle(_)) => {
                "A circle requires a vertex for its center".to_owned()
            },
        }
    }
}

/// The number of vertices of a circle's mesh: three for each degree.
pub const CIRCLE_MESH_LEN: usize = 1080;

/// The circle fan before it is reversed, at position `j` (`0 <= j < 1080`): the rim point at
/// 0 degrees, the center, then for each degree `d` from 1 to 359 the rim point at `d` twice
/// and the center, and once more the rim point at 0 degrees.
pub open spec fn circle_fan_point(center: Vertex, radius: u32, j: int) -> MeshVertex {
    if j == 0 || j == CIRCLE_MESH_LEN - 1 {
        MeshVertex::Rim { center, radius, degrees: 0 }
    } else if j % 3 == 1 {
        MeshVertex::Control(center)
    } else {
        MeshVertex::Rim { center, radius, degrees: ((j + 1) / 3) as u32 }
    }
}

/// The mesh of a circle: its fan in reverse order, so that its triangles face the viewer.
pub open spec fn circle_mesh(center: Vertex, radius: u32) -> Seq<MeshVertex> {
    Seq::new(
        CIRCLE_MESH_LEN as nat,
        |k: int| circle_fan_point(center, radius, CIRCLE_MESH_LEN - 1 - k),
    )
}

/// The triangle list that a shape's control vertices expand to.
pub open spec fn tessellation(kind: ShapeKind, vs: Seq<Vertex>) -> Seq<MeshVertex> {
    match kind {
        ShapeKind::Triangle => vs.map_values(|v: Vertex| MeshVertex::Control(v)),
        ShapeKind::Rectangle => seq![
            MeshVertex::Control(vs[0]),
            MeshVertex::Control(vs[1]),
            MeshVertex::Control(vs[2]),
            MeshVertex::Control(vs[2]),
            MeshVertex::Control(vs[3]),
            MeshVertex::Control(vs[0]),
        ],
        ShapeKind::Circle(radius) => circle_mesh(vs[0], radius),
    }
}

/// The number of mesh vertices that a shape of this kind tessellates into.
pub open spec fn mesh_len_of(kind: ShapeKind) -> nat {
    match kind {
        ShapeKind::Triangle => 3,
        ShapeKind::Rectangle => 6,
        ShapeKind::Circle(_) => CIRCLE_MESH_LEN as nat,
    }
}

/// The outcome of checking a vertex count against a shape kind.
pub open spec fn vertex_count_error(kind: ShapeKind, n: nat) -> Option<ShapeError> {
    if n < requisite_points_of(kind) {
        Some(ShapeError::VertexUnderspecification(kind))
    } else if n > requisite_points_of(kind) {
        Some(ShapeError::VertexOverspecification(kind))
    } else {
        None
    }
}

/// A tessellated shape that has not been bound to a viewport and a mesh handle yet.
pub struct EntityBuilder {
    kind: ShapeKind,
    control: Vec<Vertex>,
    vertices: Vec<MeshVertex>,
}

impl EntityBuilder {
    #[verifier::type_invariant]
    spec fn tessellated(self) -> bool {
        &&& self.control@.len() == requisite_points_of(self.kind)
        &&& self.vertices@ == tessellation(self.kind, self.control@)
    }

    /// The kind of shape this was built from.
    pub closed spec fn kind_spec(&self) -> ShapeKind {
        self.kind
    }

    /// The control vertices this was built from.
    pub closed spec fn control_spec(&self) -> Seq<Vertex> {
        self.control@
    }

    /// The tessellated mesh.
    pub closed spec fn mesh_spec(&self) -> Seq<MeshVertex> {
        self.vertices@
    }

    fn new(kind: ShapeKind, control: Vec<Vertex>, vertices: Vec<MeshVertex>) -> (r: EntityBuilder)
        requires
            control@.len() == requisite_points_of(kind),
            vertices@ == tessellation(kind, control@),
        ensures
            r.kind_spec() == kind,
            r.control_spec() == control@,
            r.mesh_spec() == vertices@,
    {
        EntityBuilder { kind, control, vertices }
    }

    fn valid_vertex_number(kind: &ShapeKind, num_vertices: usize) -> (r: Option<ShapeError>)
        ensures
            r == vertex_count_error(*kind, num_vertices as nat),
    {
        let required = kind.requisite_points();
        if num_vertices < required {
            Some(ShapeError::VertexUnderspecification(*kind))
        } else if num_vertices > required {
            Some(ShapeError::VertexOverspecification(*kind))
        } else {
            None
        }
    }

    /// Tessellates a shape from its control vertices, which must be exactly as many as the
    /// kind asks for.
    pub fn from_shape(kind: ShapeKind, vertices: Vec<Vertex>) -> (res: Result<
        EntityBuilder,
        ShapeError,
    >)
        ensures
            vertex_count_error(kind, vertices@.len()) matches Some(e) ==> res == Err::<
                EntityBuilder,
                ShapeError,
            >(e),
            vertex_count_error(kind, vertices@.len()) is None ==> (res matches Ok(b) && b.kind_spec()
                == kind && b.control_spec() == vertices@ && b.mesh_spec() == tessellation(
                kind,
                vertices@,
            )),
    {
        if let Some(err) = Self::valid_vertex_number(&kind, vertices.len()) {
            return Err(err);
        }
        let points = match kind {
            ShapeKind::Triangle => {
                let mut points: Vec<MeshVertex> = Vec::with_capacity(3);
                let mut i: usize = 0;
                while i < vertices.len()
                    invariant
                        vertices@.len() == 3,
                        0 <= i <= 3,
                        points@ == vertices@.take(i as int).map_values(
                            |v: Vertex| MeshVertex::Control(v),
                        ),
                    decreases 3 - i,
                {
                    points.push(MeshVertex::Control(vertices[i]));
                    i = i + 1;
                    assert(points@ =~= vertices@.take(i as int).map_values(
                        |v: Vertex| MeshVertex::Control(v),
                    ));
                }
                assert(vertices@.take(3) =~= vertices@);
                points
            },
            ShapeKind::Rectangle => {
                let points = vec![
                    MeshVertex::Control(vertices[0]),
                    MeshVertex::Control(vertices[1]),
                    MeshVertex::Control(vertices[2]),
                    MeshVertex::Control(vertices[2]),
                    MeshVertex::Control(vertices[3]),
                    MeshVertex::Control(vertices[0]),
                ];
                assert(points@ =~= tessellation(kind, vertices@));
                points
            },
            ShapeKind::Circle(radius) => Self::circle(vertices[0], radius),
        };
        Ok(EntityBuilder::new(kind, vertices, points))
    }

    fn circle(center: Vertex, radius: u32) -> (r: Vec<MeshVertex>)
        ensures
            r@ == circle_mesh(center, radius),
    {
        let mut fan: Vec<MeshVertex> = Vec::with_capacity(CIRCLE_MESH_LEN);
        fan.push(MeshVertex::Rim { center, radius, degrees: 0 });
        fan.push(MeshVertex::Control(center));
        let mut d: u32 = 1;
        while d < 360
            invariant
                1 <= d <= 360,
                fan@.len() == 3 * d - 1,
                forall|j: int| 0 <= j < fan@.len() ==> #[trigger] fan@[j] == circle_fan_point(center, radius, j),
            decreases 360 - d,
        {
            let rim = MeshVertex::Rim { center, radius, degrees: d };
            fan.push(rim);
            fan.push(rim);
            fan.push(MeshVertex::Control(center));
            d = d + 1;
        }
        fan.push(MeshVertex::Rim { center, radius, degrees: 0 });
        let mut points: Vec<MeshVertex> = Vec::with_capacity(CIRCLE_MESH_LEN);
        let mut k: usize = 0;
        while k < fan.len()
            invariant
                fan@.len() == CIRCLE_MESH_LEN,
                forall|j: int| 0 <= j < fan@.len() ==> #[trigger] fan@[j] == circle_fan_point(center, radius, j),
                0 <= k <= CIRCLE_MESH_LEN,
                points@.len() == k,
                forall|m: int| 0 <= m < k ==> #[trigger] points@[m] == circle_fan_point(center, radius, CIRCLE_MESH_LEN - 1 - m),
            decreases CIRCLE_MESH_LEN - k,
        {
            points.push(fan[CIRCLE_MESH_LEN - 1 - k]);
            k = k + 1;
        }
        assert(points@ =~= circle_mesh(center, radius));
        points
    }

    /// Binds the mesh to the render backend's handle `mesh` and to the viewport it is drawn
    /// in, whose width and height scale its coordinates into device coordinates.
    pub fn build(self, mesh: usize, width: u32, height: u32) -> (r: Entity)
        ensures
            r.kind_spec() == self.kind_spec(),
            r.control_spec() == self.control_spec(),
            r.mesh_spec() == self.mesh_spec(),
            r.viewport_spec() == (width, height),
            r.handle_spec() == mesh,
    {
        proof {
            use_type_invariant(&self);
        }
        Entity {
            kind: self.kind,
            control: self.control,
            vertices: self.vertices,
            width,
            height,
            mesh,
        }
    }
}

/// A tessellated shape, bound to a mesh of the render backend and to the viewport its
/// coordinates are normalized against: a mesh vertex at `(x, y, z)` is drawn at
/// `(x / width, y / height, z)`. It never changes once built.
pub struct Entity {
    kind: ShapeKind,
    control: Vec<Vertex>,
    vertices: Vec<MeshVertex>,
    width: u32,
    height: u32,
    mesh: usize,
}

impl Entity {
    #[verifier::type_invariant]
    spec fn tessellated(self) -> bool {
        &&& self.control@.len() == requisite_points_of(self.kind)
        &&& self.vertices@ == tessellation(self.kind, self.control@)
    }

    /// The kind of shape this was built from.
    pub closed spec fn kind_spec(&self) -> ShapeKind {
        self.kind
    }

    /// The control vertices this was built from.
    pub closed spec fn control_spec(&self) -> Seq<Vertex> {
        self.control@
    }

    /// The tessellated mesh, in pixel coordinates.
    pub closed spec fn mesh_spec(&self) -> Seq<MeshVertex> {
        self.vertices@
    }

    /// The width and height of the viewport the mesh is normalized against.
    pub closed spec fn viewport_spec(&self) -> (u32, u32) {
        (self.width, self.height)
    }

    /// The render backend's handle of the mesh.
    pub closed spec fn handle_spec(&self) -> usize {
        self.mesh
    }

    pub fn kind(&self) -> (r: ShapeKind)
        ensures
            r == self.kind_spec(),
    {
        self.kind
    }

    /// The control vertices, exactly as many as the kind asks for.
    pub fn control(&self) -> (r: &[Vertex])
        ensures
            r@ == self.control_spec(),
            r@.len() == requisite_points_of(self.kind_spec()),
    {
        proof {
            use_type_invariant(self);
        }
        self.control.as_slice()
    }

    /// The tessellated mesh, which is the tessellation of the control vertices.
    pub fn vertices(&self) -> (r: &[MeshVertex])
        ensures
            r@ == self.mesh_spec(),
            r@ == tessellation(self.kind_spec(), self.control_spec()),
            self.control_spec().len() == requisite_points_of(self.kind_spec()),
    {
        proof {
            use_type_invariant(self);
        }
        self.vertices.as_slice()
    }

    pub fn viewport(&self) -> (r: (u32, u32))
        ensures
            r == self.viewport_spec(),
    {
        (self.width, self.height)
    }

    pub fn mesh(&self) -> (r: usize)
        ensures
            r == self.handle_spec(),
    {
        self.mesh
    }

    pub fn num_vertices(&self) -> (r: u32)
        ensures
            r == self.mesh_spec().len(),
            r == mesh_len_of(self.kind_spec()),
    {
        proof {
            use_type_invariant(self);
            tessellation_len(self.kind, self.control@);
        }
        self.vertices.len() as u32
    }
}

/// Tessellation succeeds on exactly as many control vertices as the kind asks for, and the
/// mesh is never empty: its length depends on the kind alone (3 for a triangle, 6 for a
/// rectangle, 1080 for a circle).
pub proof fn tessellation_len(kind: ShapeKind, vs: Seq<Vertex>)
    requires
        vs.len() == requisite_points_of(kind),
    ensures
        vertex_count_error(kind, vs.len()) is None,
        tessellation(kind, vs).len() == mesh_len_of(kind),
        mesh_len_of(kind) > 0,
{
}

/// Every vertex of a circle's mesh is its center or a point on its rim, at the circle's
/// radius and at a whole number of degrees below 360; the mesh starts with the rim point at
/// 0 degrees, which lies `radius` to the right of the center.
pub proof fn circle_mesh_on_rim(center: Vertex, radius: u32)
    ensures
        forall|k: int|
            0 <= k < CIRCLE_MESH_LEN ==> {
                let p = #[trigger] circle_mesh(center, radius)[k];
                ||| p == MeshVertex::Control(center)
                ||| p matches MeshVertex::Rim { center: c, radius: r, degrees: d } && c == center
                    && r == radius && d < 360
            },
        circle_mesh(center, radius)[0] == (MeshVertex::Rim { center, radius, degrees: 0 }),
{
}

} // verus!
