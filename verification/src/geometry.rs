use vstd::prelude::*;

use crate::scalar::Frac;

verus! {

/// A point in logical coordinates.
#[derive(Clone, Copy, Debug, PartialEq, Eq, Structural)]
pub struct Position2D {
    pub x: Frac,
    pub y: Frac,
}

/// A width and height in logical units.
#[derive(Clone, Copy, Debug, PartialEq, Eq, Structural)]
pub struct Size2D {
    pub width: Frac,
    pub height: Frac,
}

/// An RGBA color with 8-bit channels; the backend maps each channel onto
/// its own color scale at the draw boundary.
#[derive(Clone, Copy, Debug, PartialEq, Eq, Structural)]
pub struct Color {
    pub r: u8,
    pub g: u8,
    pub b: u8,
    pub a: u8,
}

/// The join/cap style of a stroked line.
#[derive(Clone, Copy, Debug, PartialEq, Eq, Structural)]
pub enum LineShape {
    Square,
    Round,
    Bevel,
}

/// The corner treatment of a rectangle: square corners, rounded corners
/// with a radius and a resolution, or beveled corners with a size.
#[derive(Clone, Copy, Debug, PartialEq, Eq, Structural)]
pub enum CornerShape {
    Square,
    Round(Frac, u32),
    Bevel(Frac),
}

/// One affine step in a transformation chain. A chain is a `Vec` of these,
/// applied cumulatively: the first element is the innermost transformation,
/// and appending adds an outermost step.
#[derive(Clone, Copy, Debug, PartialEq, Eq, Structural)]
pub enum Transformation2D {
    Translation { x: Frac, y: Frac },
    Scale { x: Frac, y: Frac },
    /// A general affine map: `(x, y)` maps to
    /// `(xx*x + xy*y + tx, yx*x + yy*y + ty)`.
    Affine { xx: Frac, xy: Frac, yx: Frac, yy: Frac, tx: Frac, ty: Frac },
}

/// Where a texture's pixels come from: a filesystem path, or an in-memory
/// RGBA buffer with explicit dimensions. Sources key the texture cache.
#[derive(Debug)]
pub enum TextureSource {
    Path(String),
    Bytes { data: Vec<u8>, width: u32, height: u32 },
}

/// A scene-graph node. Every variant carries an ordered transformation
/// chain; a `Group` holds an ordered list of child nodes and its chain
/// accumulates onto each child's when the scene is rendered.
///
/// Nodes are immutable values, so a group can never contain itself and
/// every scene graph is finite.
#[derive(Debug)]
pub enum Geometry2D {
    Point {
        position: Position2D,
        color: Color,
        transformations: Vec<Transformation2D>,
    },
    Line {
        points: (Position2D, Position2D),
        line_color: Color,
        line_width: Frac,
        line_shape: LineShape,
        transformations: Vec<Transformation2D>,
    },
    Polyline {
        points: Vec<Position2D>,
        line_color: Color,
        line_width: Frac,
        line_shape: LineShape,
        transformations: Vec<Transformation2D>,
    },
    Triangle {
        points: (Position2D, Position2D, Position2D),
        fill_color: Color,
        border_color: Color,
        border_width: Frac,
        transformations: Vec<Transformation2D>,
    },
    Square {
        center_position: Position2D,
        edge_length: Frac,
        fill_color: Color,
        border_color: Color,
        border_width: Frac,
        corner_shape: CornerShape,
        transformations: Vec<Transformation2D>,
    },
    Rectangle {
        center_position: Position2D,
        size: Size2D,
        fill_color: Color,
        border_color: Color,
        border_width: Frac,
        corner_shape: CornerShape,
        transformations: Vec<Transformation2D>,
    },
    Polygon {
        points: Vec<Position2D>,
        fill_color: Color,
        border_color: Color,
        border_width: Frac,
        transformations: Vec<Transformation2D>,
    },
    Circle {
        center_position: Position2D,
        radius: Frac,
        fill_color: Color,
        border_color: Color,
        border_width: Frac,
        transformations: Vec<Transformation2D>,
    },
    Ellipse {
        center_position: Position2D,
        size: Size2D,
        fill_color: Color,
        border_color: Color,
        border_width: Frac,
        transformations: Vec<Transformation2D>,
    },
    Image {
        center_position: Position2D,
        size: Size2D,
        texture_source: TextureSource,
        source_rectangle: Option<(Position2D, Size2D)>,
        fill_color: Option<Color>,
        transformations: Vec<Transformation2D>,
    },
    Group {
        elements: Vec<Geometry2D>,
        transformations: Vec<Transformation2D>,
    },
}

/// The mathematical value of a `TextureSource`.
pub enum SpecTextureSource {
    Path(Seq<char>),
    Bytes { data: Seq<u8>, width: u32, height: u32 },
}

/// The mathematical value of a `Geometry2D` node: the same shape with
/// sequences in place of vectors. Structural equality of two nodes is
/// equality of their `SpecGeometry` values.
pub enum SpecGeometry {
    Point {
        position: Position2D,
        color: Color,
        transformations: Seq<Transformation2D>,
    },
    Line {
        points: (Position2D, Position2D),
        line_color: Color,
        line_width: Frac,
        line_shape: LineShape,
        transformations: Seq<Transformation2D>,
    },
    Polyline {
        points: Seq<Position2D>,
        line_color: Color,
        line_width: Frac,
        line_shape: LineShape,
        transformations: Seq<Transformation2D>,
    },
    Triangle {
        points: (Position2D, Position2D, Position2D),
        fill_color: Color,
        border_color: Color,
        border_width: Frac,
        transformations: Seq<Transformation2D>,
    },
    Square {
        center_position: Position2D,
        edge_length: Frac,
        fill_color: Color,
        border_color: Color,
        border_width: Frac,
        corner_shape: CornerShape,
        transformations: Seq<Transformation2D>,
    },
    Rectangle {
        center_position: Position2D,
        size: Size2D,
        fill_color: Color,
        border_color: Color,
        border_width: Frac,
        corner_shape: CornerShape,
        transformations: Seq<Transformation2D>,
    },
    Polygon {
        points: Seq<Position2D>,
        fill_color: Color,
        border_color: Color,
        border_width: Frac,
        transformations: Seq<Transformation2D>,
    },
    Circle {
        center_position: Position2D,
        radius: Frac,
        fill_color: Color,
        border_color: Color,
        border_width: Frac,
        transformations: Seq<Transformation2D>,
    },
    Ellipse {
        center_position: Position2D,
        size: Size2D,
        fill_color: Color,
        border_color: Color,
        border_width: Frac,
        transformations: Seq<Transformation2D>,
    },
    Image {
        center_position: Position2D,
        size: Size2D,
        texture_source: SpecTextureSource,
        source_rectangle: Option<(Position2D, Size2D)>,
        fill_color: Option<Color>,
        transformations: Seq<Transformation2D>,
    },
    Group {
        elements: Seq<SpecGeometry>,
        transformations: Seq<Transformation2D>,
    },
}

impl View for TextureSource {
    type V = SpecTextureSource;

    open spec fn view(&self) -> SpecTextureSource {
        match self {
            TextureSource::Path(p) => SpecTextureSource::Path(p@),
            TextureSource::Bytes { data, width, height } => SpecTextureSource::Bytes {
                data: data@,
                width: *width,
                height: *height,
            },
        }
    }
}

impl View for Geometry2D {
    type V = SpecGeometry;

    open spec fn view(&self) -> SpecGeometry
        decreases self,
    {
        match self {
            Geometry2D::Point { position, color, transformations } => SpecGeometry::Point {
                position: *position,
                color: *color,
                transformations: transformations@,
            },
            Geometry2D::Line { points, line_color, line_width, line_shape, transformations } => {
                SpecGeometry::Line {
                    points: *points,
                    line_color: *line_color,
                    line_width: *line_width,
                    line_shape: *line_shape,
                    transformations: transformations@,
                }
            },
            Geometry2D::Polyline {
                points,
                line_color,
                line_width,
                line_shape,
                transformations,
            } => SpecGeometry::Polyline {
                points: points@,
                line_color: *line_color,
                line_width: *line_width,
                line_shape: *line_shape,
                transformations: transformations@,
            },
            Geometry2D::Triangle {
                points,
                fill_color,
                border_color,
                border_width,
                transformations,
            } => SpecGeometry::Triangle {
                points: *points,
                fill_color: *fill_color,
                border_color: *border_color,
                border_width: *border_width,
                transformations: transformations@,
            },
            Geometry2D::Square {
                center_position,
                edge_length,
                fill_color,
                border_color,
                border_width,
                corner_shape,
                transformations,
            } => SpecGeometry::Square {
                center_position: *center_position,
                edge_length: *edge_length,
                fill_color: *fill_color,
                border_color: *border_color,
                border_width: *border_width,
                corner_shape: *corner_shape,
                transformations: transformations@,
            },
            Geometry2D::Rectangle {
                center_position,
                size,
                fill_color,
                border_color,
                border_width,
                corner_shape,
                transformations,
            } => SpecGeometry::Rectangle {
                center_position: *center_position,
                size: *size,
                fill_color: *fill_color,
                border_color: *border_color,
                border_width: *border_width,
                corner_shape: *corner_shape,
                transformations: transformations@,
            },
            Geometry2D::Polygon {
                points,
                fill_color,
                border_color,
                border_width,
                transformations,
            } => SpecGeometry::Polygon {
                points: points@,
                fill_color: *fill_color,
                border_color: *border_color,
                border_width: *border_width,
                transformations: transformations@,
            },
            Geometry2D::Circle {
                center_position,
                radius,
                fill_color,
                border_color,
                border_width,
                transformations,
            } => SpecGeometry::Circle {
                center_position: *center_position,
                radius: *radius,
                fill_color: *fill_color,
                border_color: *border_color,
                border_width: *border_width,
                transformations: transformations@,
            },
            Geometry2D::Ellipse {
                center_position,
                size,
                fill_color,
                border_color,
                border_width,
                transformations,
            } => SpecGeometry::Ellipse {
                center_position: *center_position,
                size: *size,
                fill_color: *fill_color,
                border_color: *border_color,
                border_width: *border_width,
                transformations: transformations@,
            },
            Geometry2D::Image {
                center_position,
                size,
                texture_source,
                source_rectangle,
                fill_color,
                transformations,
            } => SpecGeometry::Image {
                center_position: *center_position,
                size: *size,
                texture_source: texture_source@,
                source_rectangle: *source_rectangle,
                fill_color: *fill_color,
                transformations: transformations@,
            },
            Geometry2D::Group { elements, transformations } => SpecGeometry::Group {
                elements: spec_geometry_seq(elements@),
                transformations: transformations@,
            },
        }
    }
}

/// The mathematical values of a sequence of scene-graph nodes, in order.
pub open spec fn spec_geometry_seq(s: Seq<Geometry2D>) -> Seq<SpecGeometry>
    decreases s,
{
    if s.len() == 0 {
        Seq::empty()
    } else {
        spec_geometry_seq(s.drop_last()).push(s.last()@)
    }
}

/// `spec_geometry_seq` maps the view over the sequence, element by element.
pub proof fn lemma_spec_geometry_seq(s: Seq<Geometry2D>)
    ensures
        spec_geometry_seq(s).len() == s.len(),
        forall|i: int| 0 <= i < s.len() ==> spec_geometry_seq(s)[i] == s[i]@,
    decreases s.len(),
{
    if s.len() > 0 {
        lemma_spec_geometry_seq(s.drop_last());
        assert(spec_geometry_seq(s) == spec_geometry_seq(s.drop_last()).push(s.last()@));
        assert forall|i: int| 0 <= i < s.len() implies spec_geometry_seq(s)[i] == s[i]@ by {
            if i < s.len() - 1 {
                assert(s.drop_last()[i] == s[i]);
            }
        }
    }
}

/// Element-by-element equality of two byte vectors.
pub fn bytes_eq(a: &Vec<u8>, b: &Vec<u8>) -> (r: bool)
    ensures
        r == (a@ == b@),
{
    if a.len() != b.len() {
        return false;
    }
    let mut i: usize = 0;
    while i < a.len()
        invariant
            0 <= i <= a.len(),
            a@.len() == b@.len(),
            forall|j: int| 0 <= j < i ==> a@[j] == b@[j],
        decreases a.len() - i,
    {
        if a[i] != b[i] {
            return false;
        }
        i += 1;
    }
    proof {
        assert(a@ =~= b@);
    }
    true
}

/// Element-by-element equality of two transformation chains.
pub fn transformations_eq(a: &Vec<Transformation2D>, b: &Vec<Transformation2D>) -> (r: bool)
    ensures
        r == (a@ == b@),
{
    if a.len() != b.len() {
        return false;
    }
    let mut i: usize = 0;
    while i < a.len()
        invariant
            0 <= i <= a.len(),
            a@.len() == b@.len(),
            forall|j: int| 0 <= j < i ==> a@[j] == b@[j],
        decreases a.len() - i,
    {
        if a[i] != b[i] {
            return false;
        }
        i += 1;
    }
    proof {
        assert(a@ =~= b@);
    }
    true
}

/// Element-by-element equality of two point lists.
pub fn positions_eq(a: &Vec<Position2D>, b: &Vec<Position2D>) -> (r: bool)
    ensures
        r == (a@ == b@),
{
    if a.len() != b.len() {
        return false;
    }
    let mut i: usize = 0;
    while i < a.len()
        invariant
            0 <= i <= a.len(),
            a@.len() == b@.len(),
            forall|j: int| 0 <= j < i ==> a@[j] == b@[j],
        decreases a.len() - i,
    {
        if a[i] != b[i] {
            return false;
        }
        i += 1;
    }
    proof {
        assert(a@ =~= b@);
    }
    true
}

/// Structural equality of two texture sources: the cache-key relation.
pub fn texture_source_eq(a: &TextureSource, b: &TextureSource) -> (r: bool)
    ensures
        r == (a@ == b@),
{
    match (a, b) {
        (TextureSource::Path(p), TextureSource::Path(q)) => *p == *q,
        (
            TextureSource::Bytes { data: da, width: wa, height: ha },
            TextureSource::Bytes { data: db, width: wb, height: hb },
        ) => *wa == *wb && *ha == *hb && bytes_eq(da, db),
        _ => false,
    }
}

/// Equality of two optional source sub-rectangles.
fn source_rectangle_eq(a: &Option<(Position2D, Size2D)>, b: &Option<(Position2D, Size2D)>) -> (r:
    bool)
    ensures
        r == (a == b),
{
    match (a, b) {
        (None, None) => true,
        (Some((pa, sa)), Some((pb, sb))) => *pa == *pb && *sa == *sb,
        _ => false,
    }
}

/// Equality of two optional colors.
fn option_color_eq(a: &Option<Color>, b: &Option<Color>) -> (r: bool)
    ensures
        r == (a == b),
{
    match (a, b) {
        (None, None) => true,
        (Some(ca), Some(cb)) => *ca == *cb,
        _ => false,
    }
}

/// Structural equality of two scene-graph nodes: true exactly when their
/// mathematical values coincide. The producer-side deduplication check
/// compares consecutive scenes with this relation.
#[verifier::loop_isolation(false)]
pub fn geometry_eq(a: &Geometry2D, b: &Geometry2D) -> (r: bool)
    ensures
        r == (a@ == b@),
    decreases *a,
{
    match (a, b) {
        (
            Geometry2D::Point { position: pa, color: ca, transformations: ta },
            Geometry2D::Point { position: pb, color: cb, transformations: tb },
        ) => *pa == *pb && *ca == *cb && transformations_eq(ta, tb),
        (
            Geometry2D::Line {
                points: pa,
                line_color: ca,
                line_width: wa,
                line_shape: sa,
                transformations: ta,
            },
            Geometry2D::Line {
                points: pb,
                line_color: cb,
                line_width: wb,
                line_shape: sb,
                transformations: tb,
            },
        ) => pa.0 == pb.0 && pa.1 == pb.1 && *ca == *cb && *wa == *wb && *sa == *sb
            && transformations_eq(ta, tb),
        (
            Geometry2D::Polyline {
                points: pa,
                line_color: ca,
                line_width: wa,
                line_shape: sa,
                transformations: ta,
            },
            Geometry2D::Polyline {
                points: pb,
                line_color: cb,
                line_width: wb,
                line_shape: sb,
                transformations: tb,
            },
        ) => positions_eq(pa, pb) && *ca == *cb && *wa == *wb && *sa == *sb
            && transformations_eq(ta, tb),
        (
            Geometry2D::Triangle {
                points: pa,
                fill_color: fa,
                border_color: ca,
                border_width: wa,
                transformations: ta,
            },
            Geometry2D::Triangle {
                points: pb,
                fill_color: fb,
                border_color: cb,
                border_width: wb,
                transformations: tb,
            },
        ) => pa.0 == pb.0 && pa.1 == pb.1 && pa.2 == pb.2 && *fa == *fb && *ca == *cb && *wa == *wb
            && transformations_eq(ta, tb),
        (
            Geometry2D::Square {
                center_position: pa,
                edge_length: ea,
                fill_color: fa,
                border_color: ca,
                border_width: wa,
                corner_shape: sa,
                transformations: ta,
            },
            Geometry2D::Square {
                center_position: pb,
                edge_length: eb,
                fill_color: fb,
                border_color: cb,
                border_width: wb,
                corner_shape: sb,
                transformations: tb,
            },
        ) => *pa == *pb && *ea == *eb && *fa == *fb && *ca == *cb && *wa == *wb && *sa == *sb
            && transformations_eq(ta, tb),
        (
            Geometry2D::Rectangle {
                center_position: pa,
                size: za,
                fill_color: fa,
                border_color: ca,
                border_width: wa,
                corner_shape: sa,
                transformations: ta,
            },
            Geometry2D::Rectangle {
                center_position: pb,
                size: zb,
                fill_color: fb,
                border_color: cb,
                border_width: wb,
                corner_shape: sb,
                transformations: tb,
            },
        ) => *pa == *pb && *za == *zb && *fa == *fb && *ca == *cb && *wa == *wb && *sa == *sb
            && transformations_eq(ta, tb),
        (
            Geometry2D::Polygon {
                points: pa,
                fill_color: fa,
                border_color: ca,
                border_width: wa,
                transformations: ta,
            },
            Geometry2D::Polygon {
                points: pb,
                fill_color: fb,
                border_color: cb,
                border_width: wb,
                transformations: tb,
            },
        ) => positions_eq(pa, pb) && *fa == *fb && *ca == *cb && *wa == *wb
            && transformations_eq(ta, tb),
        (
            Geometry2D::Circle {
                center_position: pa,
                radius: ra,
                fill_color: fa,
                border_color: ca,
                border_width: wa,
                transformations: ta,
            },
            Geometry2D::Circle {
                center_position: pb,
                radius: rb,
                fill_color: fb,
                border_color: cb,
                border_width: wb,
                transformations: tb,
            },
        ) => *pa == *pb && *ra == *rb && *fa == *fb && *ca == *cb && *wa == *wb
            && transformations_eq(ta, tb),
        (
            Geometry2D::Ellipse {
                center_position: pa,
                size: za,
                fill_color: fa,
                border_color: ca,
                border_width: wa,
                transformations: ta,
            },
            Geometry2D::Ellipse {
                center_position: pb,
                size: zb,
                fill_color: fb,
                border_color: cb,
                border_width: wb,
                transformations: tb,
            },
        ) => *pa == *pb && *za == *zb && *fa == *fb && *ca == *cb && *wa == *wb
            && transformations_eq(ta, tb),
        (
            Geometry2D::Image {
                center_position: pa,
                size: za,
                texture_source: xa,
                source_rectangle: ra,
                fill_color: fa,
                transformations: ta,
            },
            Geometry2D::Image {
                center_position: pb,
                size: zb,
                texture_source: xb,
                source_rectangle: rb,
                fill_color: fb,
                transformations: tb,
            },
        ) => *pa == *pb && *za == *zb && texture_source_eq(xa, xb) && source_rectangle_eq(ra, rb)
            && option_color_eq(fa, fb) && transformations_eq(ta, tb),
        (
            Geometry2D::Group { elements: ea, transformations: ta },
            Geometry2D::Group { elements: eb, transformations: tb },
        ) => {
            proof {
                lemma_spec_geometry_seq(ea@);
                lemma_spec_geometry_seq(eb@);
            }
            if ea.len() != eb.len() {
                return false;
            }
            let mut i: usize = 0;
            while i < ea.len()
                invariant
                    0 <= i <= ea@.len(),
                    ea@.len() == eb@.len(),
                    a@ == (SpecGeometry::Group {
                        elements: spec_geometry_seq(ea@),
                        transformations: ta@,
                    }),
                    b@ == (SpecGeometry::Group {
                        elements: spec_geometry_seq(eb@),
                        transformations: tb@,
                    }),
                    spec_geometry_seq(ea@).len() == ea@.len(),
                    spec_geometry_seq(eb@).len() == eb@.len(),
                    forall|j: int| 0 <= j < ea@.len() ==> spec_geometry_seq(ea@)[j] == ea@[j]@,
                    forall|j: int| 0 <= j < eb@.len() ==> spec_geometry_seq(eb@)[j] == eb@[j]@,
                    forall|j: int| 0 <= j < i ==> ea@[j]@ == eb@[j]@,
                decreases ea@.len() - i,
            {
                proof {
                    assert(*a == (Geometry2D::Group { elements: *ea, transformations: *ta }));
                    assert(decreases_to!(*a => a->Group_elements));
                    assert(decreases_to!(a->Group_elements => a->Group_elements@));
                    vstd::seq::axiom_seq_index_decreases(a->Group_elements@, i as int);
                    assert(decreases_to!(*a => ea@[i as int]));
                }
                if !geometry_eq(&ea[i], &eb[i]) {
                    proof {
                        assert(spec_geometry_seq(ea@)[i as int] == ea@[i as int]@);
                        assert(spec_geometry_seq(eb@)[i as int] == eb@[i as int]@);
                    }
                    return false;
                }
                i += 1;
            }
            proof {
                assert(spec_geometry_seq(ea@) =~= spec_geometry_seq(eb@));
            }
            transformations_eq(ta, tb)
        },
        _ => false,
    }
}

/// Equality of two whole scenes, element by element.
#[verifier::loop_isolation(false)]
pub fn geometries_eq(a: &Vec<Geometry2D>, b: &Vec<Geometry2D>) -> (r: bool)
    ensures
        r == (spec_geometry_seq(a@) == spec_geometry_seq(b@)),
{
    proof {
        lemma_spec_geometry_seq(a@);
        lemma_spec_geometry_seq(b@);
    }
    if a.len() != b.len() {
        return false;
    }
    let mut i: usize = 0;
    while i < a.len()
        invariant
            0 <= i <= a@.len(),
            a@.len() == b@.len(),
            spec_geometry_seq(a@).len() == a@.len(),
            spec_geometry_seq(b@).len() == b@.len(),
            forall|j: int| 0 <= j < a@.len() ==> spec_geometry_seq(a@)[j] == a@[j]@,
            forall|j: int| 0 <= j < b@.len() ==> spec_geometry_seq(b@)[j] == b@[j]@,
            forall|j: int| 0 <= j < i ==> a@[j]@ == b@[j]@,
        decreases a@.len() - i,
    {
        if !geometry_eq(&a[i], &b[i]) {
            proof {
                assert(spec_geometry_seq(a@)[i as int] == a@[i as int]@);
                assert(spec_geometry_seq(b@)[i as int] == b@[i as int]@);
            }
            return false;
        }
        i += 1;
    }
    proof {
        assert(spec_geometry_seq(a@) =~= spec_geometry_seq(b@));
    }
    true
}

} // verus!

verus! {

/// Copy of a transformation chain.
pub fn copy_transformations(v: &Vec<Transformation2D>) -> (r: Vec<Transformation2D>)
    ensures
        r@ == v@,
{
    let mut r: Vec<Transformation2D> = Vec::new();
    let mut i: usize = 0;
    while i < v.len()
        invariant
            0 <= i <= v@.len(),
            r@ == v@.subrange(0, i as int),
        decreases v@.len() - i,
    {
        r.push(v[i]);
        proof {
            assert(r@ =~= v@.subrange(0, i + 1));
        }
        i += 1;
    }
    proof {
        assert(r@ =~= v@);
    }
    r
}

/// Copy of a point list.
pub fn copy_positions(v: &Vec<Position2D>) -> (r: Vec<Position2D>)
    ensures
        r@ == v@,
{
    let mut r: Vec<Position2D> = Vec::new();
    let mut i: usize = 0;
    while i < v.len()
        invariant
            0 <= i <= v@.len(),
            r@ == v@.subrange(0, i as int),
        decreases v@.len() - i,
    {
        r.push(v[i]);
        proof {
            assert(r@ =~= v@.subrange(0, i + 1));
        }
        i += 1;
    }
    proof {
        assert(r@ =~= v@);
    }
    r
}

/// Copy of a byte buffer.
pub fn copy_bytes(v: &Vec<u8>) -> (r: Vec<u8>)
    ensures
        r@ == v@,
{
    let mut r: Vec<u8> = Vec::new();
    let mut i: usize = 0;
    while i < v.len()
        invariant
            0 <= i <= v@.len(),
            r@ == v@.subrange(0, i as int),
        decreases v@.len() - i,
    {
        r.push(v[i]);
        proof {
            assert(r@ =~= v@.subrange(0, i + 1));
        }
        i += 1;
    }
    proof {
        assert(r@ =~= v@);
    }
    r
}

impl Clone for TextureSource {
    /// A clone carries the same mathematical value.
    fn clone(&self) -> (r: Self)
        ensures
            r@ == self@,
    {
        match self {
            TextureSource::Path(p) => TextureSource::Path(p.clone()),
            TextureSource::Bytes { data, width, height } => TextureSource::Bytes {
                data: copy_bytes(data),
                width: *width,
                height: *height,
            },
        }
    }
}

impl Clone for Geometry2D {
    /// A clone carries the same mathematical value.
    #[verifier::loop_isolation(false)]
    fn clone(&self) -> (r: Self)
        ensures
            r@ == self@,
        decreases *self,
    {
        match self {
            Geometry2D::Point { position, color, transformations } => Geometry2D::Point {
                position: *position,
                color: *color,
                transformations: copy_transformations(transformations),
            },
            Geometry2D::Line { points, line_color, line_width, line_shape, transformations } => {
                Geometry2D::Line {
                    points: *points,
                    line_color: *line_color,
                    line_width: *line_width,
                    line_shape: *line_shape,
                    transformations: copy_transformations(transformations),
                }
            },
            Geometry2D::Polyline {
                points,
                line_color,
                line_width,
                line_shape,
                transformations,
            } => Geometry2D::Polyline {
                points: copy_positions(points),
                line_color: *line_color,
                line_width: *line_width,
                line_shape: *line_shape,
                transformations: copy_transformations(transformations),
            },
            Geometry2D::Triangle {
                points,
                fill_color,
                border_color,
                border_width,
                transformations,
            } => Geometry2D::Triangle {
                points: *points,
                fill_color: *fill_color,
                border_color: *border_color,
                border_width: *border_width,
                transformations: copy_transformations(transformations),
            },
            Geometry2D::Square {
                center_position,
                edge_length,
                fill_color,
                border_color,
                border_width,
                corner_shape,
                transformations,
            } => Geometry2D::Square {
                center_position: *center_position,
                edge_length: *edge_length,
                fill_color: *fill_color,
                border_color: *border_color,
                border_width: *border_width,
                corner_shape: *corner_shape,
                transformations: copy_transformations(transformations),
            },
            Geometry2D::Rectangle {
                center_position,
                size,
                fill_color,
                border_color,
                border_width,
                corner_shape,
                transformations,
            } => Geometry2D::Rectangle {
                center_position: *center_position,
                size: *size,
                fill_color: *fill_color,
                border_color: *border_color,
                border_width: *border_width,
                corner_shape: *corner_shape,
                transformations: copy_transformations(transformations),
            },
            Geometry2D::Polygon {
                points,
                fill_color,
                border_color,
                border_width,
                transformations,
            } => Geometry2D::Polygon {
                points: copy_positions(points),
                fill_color: *fill_color,
                border_color: *border_color,
                border_width: *border_width,
                transformations: copy_transformations(transformations),
            },
            Geometry2D::Circle {
                center_position,
                radius,
                fill_color,
                border_color,
                border_width,
                transformations,
            } => Geometry2D::Circle {
                center_position: *center_position,
                radius: *radius,
                fill_color: *fill_color,
                border_color: *border_color,
                border_width: *border_width,
                transformations: copy_transformations(transformations),
            },
            Geometry2D::Ellipse {
                center_position,
                size,
                fill_color,
                border_color,
                border_width,
                transformations,
            } => Geometry2D::Ellipse {
                center_position: *center_position,
                size: *size,
                fill_color: *fill_color,
                border_color: *border_color,
                border_width: *border_width,
                transformations: copy_transformations(transformations),
            },
            Geometry2D::Image {
                center_position,
                size,
                texture_source,
                source_rectangle,
                fill_color,
                transformations,
            } => Geometry2D::Image {
                center_position: *center_position,
                size: *size,
                texture_source: texture_source.clone(),
                source_rectangle: *source_rectangle,
                fill_color: *fill_color,
                transformations: copy_transformations(transformations),
            },
            Geometry2D::Group { elements, transformations } => {
                proof {
                    lemma_spec_geometry_seq(elements@);
                }
                let mut child: Vec<Geometry2D> = Vec::new();
                let mut i: usize = 0;
                while i < elements.len()
                    invariant
                        0 <= i <= elements@.len(),
                        child@.len() == i,
                        forall|j: int| 0 <= j < i ==> child@[j]@ == elements@[j]@,
                    decreases elements@.len() - i,
                {
                    proof {
                        assert(*self == (Geometry2D::Group {
                            elements: *elements,
                            transformations: *transformations,
                        }));
                        assert(decreases_to!(*self => self->Group_elements));
                        assert(decreases_to!(self->Group_elements => self->Group_elements@));
                        vstd::seq::axiom_seq_index_decreases(self->Group_elements@, i as int);
                        assert(decreases_to!(*self => elements@[i as int]));
                    }
                    child.push(elements[i].clone());
                    i += 1;
                }
                proof {
                    lemma_spec_geometry_seq(child@);
                    assert(spec_geometry_seq(child@) =~= spec_geometry_seq(elements@));
                }
                Geometry2D::Group {
                    elements: child,
                    transformations: copy_transformations(transformations),
                }
            },
        }
    }
}

/// Copy of a whole scene, preserving each node's mathematical value.
pub fn clone_geometries(v: &Vec<Geometry2D>) -> (r: Vec<Geometry2D>)
    ensures
        spec_geometry_seq(r@) == spec_geometry_seq(v@),
{
    proof {
        lemma_spec_geometry_seq(v@);
    }
    let mut r: Vec<Geometry2D> = Vec::new();
    let mut i: usize = 0;
    #[verifier::loop_isolation(false)]
    while i < v.len()
        invariant
            0 <= i <= v@.len(),
            r@.len() == i,
            forall|j: int| 0 <= j < i ==> r@[j]@ == v@[j]@,
        decreases v@.len() - i,
    {
        r.push(v[i].clone());
        i += 1;
    }
    proof {
        lemma_spec_geometry_seq(r@);
        assert(spec_geometry_seq(r@) =~= spec_geometry_seq(v@));
    }
    r
}

} // verus!
