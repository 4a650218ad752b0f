use vstd::prelude::*;

use crate::geometry::{
    copy_positions, copy_transformations, lemma_spec_geometry_seq, spec_geometry_seq, Color,
    CornerShape, Geometry2D, LineShape, Position2D, Size2D, SpecGeometry, SpecTextureSource,
    TextureSource, Transformation2D,
};
use crate::mailbox::{SceneData, SpecSceneData};
use crate::scalar::Frac;
use crate::texture::TextureBuffer;
use crate::viewport::{
    fit_viewport, spec_fit, ScissorRect, SpecViewportFit, Viewport2D, Viewport2DModification,
    ViewportFit,
};

verus! {

/// One primitive operation for the drawing backend. Every command carries
/// the full transformation chain accumulated from its node up through the
/// groups that contained it, plus the frame's viewport fit.
#[derive(Debug)]
pub enum DrawCommand {
    /// The point special case: a 1-unit dot whose transformed position is
    /// mapped from the canonical [-1, 1] window straight onto surface
    /// pixels, outside the frame's scissor state.
    Point {
        position: Position2D,
        color: Color,
        transformations: Vec<Transformation2D>,
    },
    /// One stroked segment.
    Line {
        from: Position2D,
        to: Position2D,
        line_color: Color,
        line_width: Frac,
        line_shape: LineShape,
        transformations: Vec<Transformation2D>,
    },
    /// One filled convex polygon (non-convex input renders incorrectly and
    /// is unsupported).
    Polygon {
        points: Vec<Position2D>,
        fill_color: Color,
        transformations: Vec<Transformation2D>,
    },
    /// One filled, bordered, axis-aligned rectangle around its center.
    Rect {
        center_position: Position2D,
        size: Size2D,
        fill_color: Color,
        border_color: Color,
        border_width: Frac,
        corner_shape: CornerShape,
        transformations: Vec<Transformation2D>,
    },
    /// One filled, bordered circle around its center.
    Circle {
        center_position: Position2D,
        radius: Frac,
        fill_color: Color,
        border_color: Color,
        border_width: Frac,
        transformations: Vec<Transformation2D>,
    },
    /// One filled, bordered, axis-aligned ellipse.
    Ellipse {
        center_position: Position2D,
        size: Size2D,
        fill_color: Color,
        border_color: Color,
        border_width: Frac,
        transformations: Vec<Transformation2D>,
    },
    /// One textured rectangle; the texture is fetched from the cache by
    /// its source, which the frame has already primed.
    Image {
        center_position: Position2D,
        size: Size2D,
        texture_source: TextureSource,
        source_rectangle: Option<(Position2D, Size2D)>,
        fill_color: Option<Color>,
        transformations: Vec<Transformation2D>,
    },
}

/// The mathematical value of a `DrawCommand`.
pub enum SpecDrawCommand {
    Point {
        position: Position2D,
        color: Color,
        transformations: Seq<Transformation2D>,
    },
    Line {
        from: Position2D,
        to: Position2D,
        line_color: Color,
        line_width: Frac,
        line_shape: LineShape,
        transformations: Seq<Transformation2D>,
    },
    Polygon {
        points: Seq<Position2D>,
        fill_color: Color,
        transformations: Seq<Transformation2D>,
    },
    Rect {
        center_position: Position2D,
        size: Size2D,
        fill_color: Color,
        border_color: Color,
        border_width: Frac,
        corner_shape: CornerShape,
        transformations: Seq<Transformation2D>,
    },
    Circle {
        center_position: Position2D,
        radius: Frac,
        fill_color: Color,
        border_color: Color,
        border_width: Frac,
        transformations: Seq<Transformation2D>,
    },
    Ellipse {
        center_position: Position2D,
        size: Size2D,
        fill_color: Color,
        border_color: Color,
        border_width: Frac,
        transformations: Seq<Transformation2D>,
    },
    Image {
        center_position: Position2D,
        size: Size2D,
        texture_source: SpecTextureSource,
        source_rectangle: Option<(Position2D, Size2D)>,
        fill_color: Option<Color>,
        transformations: Seq<Transformation2D>,
    },
}

impl View for DrawCommand {
    type V = SpecDrawCommand;

    open spec fn view(&self) -> SpecDrawCommand {
        match self {
            DrawCommand::Point { position, color, transformations } => SpecDrawCommand::Point {
                position: *position,
                color: *color,
                transformations: transformations@,
            },
            DrawCommand::Line {
                from,
                to,
                line_color,
                line_width,
                line_shape,
                transformations,
            } => SpecDrawCommand::Line {
                from: *from,
                to: *to,
                line_color: *line_color,
                line_width: *line_width,
                line_shape: *line_shape,
                transformations: transformations@,
            },
            DrawCommand::Polygon { points, fill_color, transformations } => {
                SpecDrawCommand::Polygon {
                    points: points@,
                    fill_color: *fill_color,
                    transformations: transformations@,
                }
            },
            DrawCommand::Rect {
                center_position,
                size,
                fill_color,
                border_color,
                border_width,
                corner_shape,
                transformations,
            } => SpecDrawCommand::Rect {
                center_position: *center_position,
                size: *size,
                fill_color: *fill_color,
                border_color: *border_color,
                border_width: *border_width,
                corner_shape: *corner_shape,
                transformations: transformations@,
            },
            DrawCommand::Circle {
                center_position,
                radius,
                fill_color,
                border_color,
                border_width,
                transformations,
            } => SpecDrawCommand::Circle {
                center_position: *center_position,
                radius: *radius,
                fill_color: *fill_color,
                border_color: *border_color,
                border_width: *border_width,
                transformations: transformations@,
            },
            DrawCommand::Ellipse {
                center_position,
                size,
                fill_color,
                border_color,
                border_width,
                transformations,
            } => SpecDrawCommand::Ellipse {
                center_position: *center_position,
                size: *size,
                fill_color: *fill_color,
                border_color: *border_color,
                border_width: *border_width,
                transformations: transformations@,
            },
            DrawCommand::Image {
                center_position,
                size,
                texture_source,
                source_rectangle,
                fill_color,
                transformations,
            } => SpecDrawCommand::Image {
                center_position: *center_position,
                size: *size,
                texture_source: texture_source@,
                source_rectangle: *source_rectangle,
                fill_color: *fill_color,
                transformations: transformations@,
            },
        }
    }
}

/// The mathematical values of a command list, in order.
pub open spec fn spec_command_seq(s: Seq<DrawCommand>) -> Seq<SpecDrawCommand>
    decreases s,
{
    if s.len() == 0 {
        Seq::empty()
    } else {
        spec_command_seq(s.drop_last()).push(s.last()@)
    }
}

/// Appending a command appends its value.
pub proof fn lemma_spec_command_seq_push(s: Seq<DrawCommand>, c: DrawCommand)
    ensures
        spec_command_seq(s.push(c)) == spec_command_seq(s).push(c@),
{
    assert(s.push(c).drop_last() =~= s);
    assert(s.push(c).last() == c);
}

/// The mathematical values of a texture-source list, in order.
pub open spec fn spec_source_seq(s: Seq<TextureSource>) -> Seq<SpecTextureSource>
    decreases s,
{
    if s.len() == 0 {
        Seq::empty()
    } else {
        spec_source_seq(s.drop_last()).push(s.last()@)
    }
}

/// Appending a source appends its value.
pub proof fn lemma_spec_source_seq_push(s: Seq<TextureSource>, c: TextureSource)
    ensures
        spec_source_seq(s.push(c)) == spec_source_seq(s).push(c@),
{
    assert(s.push(c).drop_last() =~= s);
    assert(s.push(c).last() == c);
}

/// The border of a filled polygon: one round-capped stroked segment per
/// point, each to the next point around, the last closing back to the
/// first.
pub open spec fn spec_border_commands(
    points: Seq<Position2D>,
    border_color: Color,
    border_width: Frac,
    chain: Seq<Transformation2D>,
) -> Seq<SpecDrawCommand> {
    Seq::new(
        points.len(),
        |i: int|
            SpecDrawCommand::Line {
                from: points[i],
                to: points[if i + 1 == points.len() { 0int } else { i + 1 }],
                line_color: border_color,
                line_width: border_width,
                line_shape: LineShape::Round,
                transformations: chain,
            },
    )
}

/// What rendering one node emits: the commands, in order, and the sources
/// of the image nodes that were skipped because the cache did not hold
/// them (`avail` is what the cache holds). Every emitted command carries
/// `base` appended to the chain accumulated inside the node.
pub open spec fn spec_render_node(
    g: SpecGeometry,
    base: Seq<Transformation2D>,
    avail: Set<SpecTextureSource>,
) -> (Seq<SpecDrawCommand>, Seq<SpecTextureSource>)
    decreases g,
{
    match g {
        SpecGeometry::Point { position, color, transformations } => (
            seq![
                SpecDrawCommand::Point {
                    position,
                    color,
                    transformations: transformations + base,
                },
            ],
            Seq::empty(),
        ),
        SpecGeometry::Line { points, line_color, line_width, line_shape, transformations } => (
            seq![
                SpecDrawCommand::Line {
                    from: points.0,
                    to: points.1,
                    line_color,
                    line_width,
                    line_shape,
                    transformations: transformations + base,
                },
            ],
            Seq::empty(),
        ),
        SpecGeometry::Polyline { points, line_color, line_width, line_shape, transformations } => (
            if points.len() == 0 {
                Seq::empty()
            } else {
                Seq::new(
                    (points.len() - 1) as nat,
                    |i: int|
                        SpecDrawCommand::Line {
                            from: points[i],
                            to: points[i + 1],
                            line_color,
                            line_width,
                            line_shape,
                            transformations: transformations + base,
                        },
                )
            },
            Seq::empty(),
        ),
        SpecGeometry::Triangle { points, fill_color, border_color, border_width, transformations } => (
            seq![
                SpecDrawCommand::Polygon {
                    points: seq![points.0, points.1, points.2],
                    fill_color,
                    transformations: transformations + base,
                },
            ] + spec_border_commands(
                seq![points.0, points.1, points.2],
                border_color,
                border_width,
                transformations + base,
            ),
            Seq::empty(),
        ),
        SpecGeometry::Square {
            center_position,
            edge_length,
            fill_color,
            border_color,
            border_width,
            corner_shape,
            transformations,
        } => (
            seq![
                SpecDrawCommand::Rect {
                    center_position,
                    size: Size2D { width: edge_length, height: edge_length },
                    fill_color,
                    border_color,
                    border_width,
                    corner_shape,
                    transformations: transformations + base,
                },
            ],
            Seq::empty(),
        ),
        SpecGeometry::Rectangle {
            center_position,
            size,
            fill_color,
            border_color,
            border_width,
            corner_shape,
            transformations,
        } => (
            seq![
                SpecDrawCommand::Rect {
                    center_position,
                    size,
                    fill_color,
                    border_color,
                    border_width,
                    corner_shape,
                    transformations: transformations + base,
                },
            ],
            Seq::empty(),
        ),
        SpecGeometry::Polygon { points, fill_color, border_color, border_width, transformations } => (
            seq![
                SpecDrawCommand::Polygon {
                    points,
                    fill_color,
                    transformations: transformations + base,
                },
            ] + spec_border_commands(points, border_color, border_width, transformations + base),
            Seq::empty(),
        ),
        SpecGeometry::Circle {
            center_position,
            radius,
            fill_color,
            border_color,
            border_width,
            transformations,
        } => (
            seq![
                SpecDrawCommand::Circle {
                    center_position,
                    radius,
                    fill_color,
                    border_color,
                    border_width,
                    transformations: transformations + base,
                },
            ],
            Seq::empty(),
        ),
        SpecGeometry::Ellipse {
            center_position,
            size,
            fill_color,
            border_color,
            border_width,
            transformations,
        } => (
            seq![
                SpecDrawCommand::Ellipse {
                    center_position,
                    size,
                    fill_color,
                    border_color,
                    border_width,
                    transformations: transformations + base,
                },
            ],
            Seq::empty(),
        ),
        SpecGeometry::Image {
            center_position,
            size,
            texture_source,
            source_rectangle,
            fill_color,
            transformations,
        } => {
            if avail.contains(texture_source) {
                (
                    seq![
                        SpecDrawCommand::Image {
                            center_position,
                            size,
                            texture_source,
                            source_rectangle,
                            fill_color,
                            transformations: transformations + base,
                        },
                    ],
                    Seq::empty(),
                )
            } else {
                (Seq::empty(), seq![texture_source])
            }
        },
        SpecGeometry::Group { elements, transformations } => spec_render_nodes(
            elements,
            transformations + base,
            avail,
        ),
    }
}

/// What rendering a node list emits: each node's commands and skipped
/// sources, concatenated in order.
pub open spec fn spec_render_nodes(
    gs: Seq<SpecGeometry>,
    base: Seq<Transformation2D>,
    avail: Set<SpecTextureSource>,
) -> (Seq<SpecDrawCommand>, Seq<SpecTextureSource>)
    decreases gs,
{
    if gs.len() == 0 {
        (Seq::empty(), Seq::empty())
    } else {
        let rest = spec_render_nodes(gs.drop_last(), base, avail);
        let last = spec_render_node(gs.last(), base, avail);
        (rest.0 + last.0, rest.1 + last.1)
    }
}

/// Law: a group renders exactly its children, in order, each under the
/// group's chain accumulated onto the base chain; the group itself adds no
/// command.
pub proof fn lemma_group_renders_children(
    elements: Seq<SpecGeometry>,
    transformations: Seq<Transformation2D>,
    base: Seq<Transformation2D>,
    avail: Set<SpecTextureSource>,
)
    ensures
        spec_render_node(SpecGeometry::Group { elements, transformations }, base, avail)
            == spec_render_nodes(elements, transformations + base, avail),
        elements.len() > 0 ==> spec_render_nodes(elements, transformations + base, avail).0
            == spec_render_nodes(elements.drop_last(), transformations + base, avail).0
            + spec_render_node(elements.last(), transformations + base, avail).0,
        elements.len() == 0 ==> spec_render_nodes(elements, transformations + base, avail).0
            == Seq::<SpecDrawCommand>::empty(),
{
}

} // verus!

verus! {

/// One chain appended to another: `own` first (innermost), then `base`.
pub fn chain_concat(own: &Vec<Transformation2D>, base: &Vec<Transformation2D>) -> (r: Vec<
    Transformation2D,
>)
    ensures
        r@ == own@ + base@,
{
    let mut r = copy_transformations(own);
    let mut i: usize = 0;
    #[verifier::loop_isolation(false)]
    while i < base.len()
        invariant
            0 <= i <= base@.len(),
            r@ == own@ + base@.subrange(0, i as int),
        decreases base@.len() - i,
    {
        r.push(base[i]);
        proof {
            assert(r@ =~= own@ + base@.subrange(0, i + 1));
        }
        i += 1;
    }
    proof {
        assert(base@.subrange(0, base@.len() as int) =~= base@);
    }
    r
}

/// Emits the border of a filled polygon: one round-capped segment per
/// point, each to the next around the loop.
pub fn draw_polygon_border(
    points: &Vec<Position2D>,
    border_color: Color,
    border_width: Frac,
    chain: &Vec<Transformation2D>,
    out: &mut Vec<DrawCommand>,
)
    ensures
        spec_command_seq(final(out)@) == spec_command_seq(old(out)@) + spec_border_commands(
            points@,
            border_color,
            border_width,
            chain@,
        ),
{
    let ghost full = spec_border_commands(points@, border_color, border_width, chain@);
    let mut i: usize = 0;
    #[verifier::loop_isolation(false)]
    while i < points.len()
        invariant
            0 <= i <= points@.len(),
            spec_command_seq(out@) == spec_command_seq(old(out)@) + full.subrange(0, i as int),
        decreases points@.len() - i,
    {
        let next: usize = if i + 1 == points.len() {
            0
        } else {
            i + 1
        };
        let ghost before = out@;
        let cmd = DrawCommand::Line {
            from: points[i],
            to: points[next],
            line_color: border_color,
            line_width: border_width,
            line_shape: LineShape::Round,
            transformations: copy_transformations(chain),
        };
        proof {
            assert(cmd@ == full[i as int]);
        }
        out.push(cmd);
        proof {
            lemma_spec_command_seq_push(before, cmd);
            assert(full.subrange(0, i + 1) =~= full.subrange(0, i as int).push(full[i as int]));
            assert(spec_command_seq(out@) =~= spec_command_seq(old(out)@) + full.subrange(
                0,
                i + 1,
            ));
        }
        i += 1;
    }
    proof {
        assert(full.subrange(0, points@.len() as int) =~= full);
    }
}

/// Emits the commands for one scene-graph node into `out`, appending
/// `base` to every chain, and records in `missing` the image sources the
/// cache does not hold (those nodes are skipped and reported rather than
/// drawn).
#[verifier::loop_isolation(false)]
pub fn render_geometry_2d<T>(
    geometry_2d: &Geometry2D,
    base: &Vec<Transformation2D>,
    texture_buffer: &TextureBuffer<T>,
    out: &mut Vec<DrawCommand>,
    missing: &mut Vec<TextureSource>,
)
    requires
        texture_buffer.wf(),
    ensures
        spec_command_seq(final(out)@) == spec_command_seq(old(out)@) + spec_render_node(
            geometry_2d@,
            base@,
            texture_buffer@.dom(),
        ).0,
        spec_source_seq(final(missing)@) == spec_source_seq(old(missing)@) + spec_render_node(
            geometry_2d@,
            base@,
            texture_buffer@.dom(),
        ).1,
    decreases *geometry_2d,
{
    let ghost avail = texture_buffer@.dom();
    match geometry_2d {
        Geometry2D::Point { position, color, transformations } => {
            let ghost before = out@;
            let cmd = DrawCommand::Point {
                position: *position,
                color: *color,
                transformations: chain_concat(transformations, base),
            };
            out.push(cmd);
            proof {
                lemma_spec_command_seq_push(before, cmd);
                assert(spec_command_seq(out@) =~= spec_command_seq(before) + seq![cmd@]);
                assert(spec_source_seq(missing@) =~= spec_source_seq(missing@) + Seq::empty());
            }
        },
        Geometry2D::Line { points, line_color, line_width, line_shape, transformations } => {
            let ghost before = out@;
            let cmd = DrawCommand::Line {
                from: points.0,
                to: points.1,
                line_color: *line_color,
                line_width: *line_width,
                line_shape: *line_shape,
                transformations: chain_concat(transformations, base),
            };
            out.push(cmd);
            proof {
                lemma_spec_command_seq_push(before, cmd);
                assert(spec_command_seq(out@) =~= spec_command_seq(before) + seq![cmd@]);
                assert(spec_source_seq(missing@) =~= spec_source_seq(missing@) + Seq::empty());
            }
        },
        Geometry2D::Polyline { points, line_color, line_width, line_shape, transformations } => {
            let chain = chain_concat(transformations, base);
            let ghost full = spec_render_node(geometry_2d@, base@, avail).0;
            let mut i: usize = 0;
            if points.len() > 0 {
                while i + 1 < points.len()
                    invariant
                        0 <= i,
                        points@.len() > 0,
                        i + 1 <= points@.len(),
                        chain@ == transformations@ + base@,
                        spec_command_seq(out@) == spec_command_seq(old(out)@) + full.subrange(
                            0,
                            i as int,
                        ),
                    decreases points@.len() - i,
                {
                    let ghost before = out@;
                    let cmd = DrawCommand::Line {
                        from: points[i],
                        to: points[i + 1],
                        line_color: *line_color,
                        line_width: *line_width,
                        line_shape: *line_shape,
                        transformations: copy_transformations(&chain),
                    };
                    proof {
                        assert(cmd@ == full[i as int]);
                    }
                    out.push(cmd);
                    proof {
                        lemma_spec_command_seq_push(before, cmd);
                        assert(full.subrange(0, i + 1) =~= full.subrange(0, i as int).push(
                            full[i as int],
                        ));
                        assert(spec_command_seq(out@) =~= spec_command_seq(old(out)@)
                            + full.subrange(0, i + 1));
                    }
                    i += 1;
                }
            }
            proof {
                assert(full.subrange(0, full.len() as int) =~= full);
                assert(spec_command_seq(out@) =~= spec_command_seq(old(out)@) + full);
                assert(spec_source_seq(missing@) =~= spec_source_seq(missing@) + Seq::empty());
            }
        },
        Geometry2D::Triangle { points, fill_color, border_color, border_width, transformations } => {
            let chain = chain_concat(transformations, base);
            let mut pts: Vec<Position2D> = Vec::new();
            pts.push(points.0);
            pts.push(points.1);
            pts.push(points.2);
            proof {
                assert(pts@ =~= seq![points.0, points.1, points.2]);
            }
            let ghost before = out@;
            let cmd = DrawCommand::Polygon {
                points: copy_positions(&pts),
                fill_color: *fill_color,
                transformations: copy_transformations(&chain),
            };
            out.push(cmd);
            proof {
                lemma_spec_command_seq_push(before, cmd);
            }
            draw_polygon_border(&pts, *border_color, *border_width, &chain, out);
            proof {
                assert(spec_command_seq(out@) =~= spec_command_seq(old(out)@)
                    + spec_render_node(geometry_2d@, base@, avail).0);
                assert(spec_source_seq(missing@) =~= spec_source_seq(missing@) + Seq::empty());
            }
        },
        Geometry2D::Square {
            center_position,
            edge_length,
            fill_color,
            border_color,
            border_width,
            corner_shape,
            transformations,
        } => {
            let ghost before = out@;
            let cmd = DrawCommand::Rect {
                center_position: *center_position,
                size: Size2D { width: *edge_length, height: *edge_length },
                fill_color: *fill_color,
                border_color: *border_color,
                border_width: *border_width,
                corner_shape: *corner_shape,
                transformations: chain_concat(transformations, base),
            };
            out.push(cmd);
            proof {
                lemma_spec_command_seq_push(before, cmd);
                assert(spec_command_seq(out@) =~= spec_command_seq(before) + seq![cmd@]);
                assert(spec_source_seq(missing@) =~= spec_source_seq(missing@) + Seq::empty());
            }
        },
        Geometry2D::Rectangle {
            center_position,
            size,
            fill_color,
            border_color,
            border_width,
            corner_shape,
            transformations,
        } => {
            let ghost before = out@;
            let cmd = DrawCommand::Rect {
                center_position: *center_position,
                size: *size,
                fill_color: *fill_color,
                border_color: *border_color,
                border_width: *border_width,
                corner_shape: *corner_shape,
                transformations: chain_concat(transformations, base),
            };
            out.push(cmd);
            proof {
                lemma_spec_command_seq_push(before, cmd);
                assert(spec_command_seq(out@) =~= spec_command_seq(before) + seq![cmd@]);
                assert(spec_source_seq(missing@) =~= spec_source_seq(missing@) + Seq::empty());
            }
        },
        Geometry2D::Polygon { points, fill_color, border_color, border_width, transformations } => {
            let chain = chain_concat(transformations, base);
            let ghost before = out@;
            let cmd = DrawCommand::Polygon {
                points: copy_positions(points),
                fill_color: *fill_color,
                transformations: copy_transformations(&chain),
            };
            out.push(cmd);
            proof {
                lemma_spec_command_seq_push(before, cmd);
            }
            draw_polygon_border(points, *border_color, *border_width, &chain, out);
            proof {
                assert(spec_command_seq(out@) =~= spec_command_seq(old(out)@)
                    + spec_render_node(geometry_2d@, base@, avail).0);
                assert(spec_source_seq(missing@) =~= spec_source_seq(missing@) + Seq::empty());
            }
        },
        Geometry2D::Circle {
            center_position,
            radius,
            fill_color,
            border_color,
            border_width,
            transformations,
        } => {
            let ghost before = out@;
            let cmd = DrawCommand::Circle {
                center_position: *center_position,
                radius: *radius,
                fill_color: *fill_color,
                border_color: *border_color,
                border_width: *border_width,
                transformations: chain_concat(transformations, base),
            };
            out.push(cmd);
            proof {
                lemma_spec_command_seq_push(before, cmd);
                assert(spec_command_seq(out@) =~= spec_command_seq(before) + seq![cmd@]);
                assert(spec_source_seq(missing@) =~= spec_source_seq(missing@) + Seq::empty());
            }
        },
        Geometry2D::Ellipse {
            center_position,
            size,
            fill_color,
            border_color,
            border_width,
            transformations,
        } => {
            let ghost before = out@;
            let cmd = DrawCommand::Ellipse {
                center_position: *center_position,
                size: *size,
                fill_color: *fill_color,
                border_color: *border_color,
                border_width: *border_width,
                transformations: chain_concat(transformations, base),
            };
            out.push(cmd);
            proof {
                lemma_spec_command_seq_push(before, cmd);
                assert(spec_command_seq(out@) =~= spec_command_seq(before) + seq![cmd@]);
                assert(spec_source_seq(missing@) =~= spec_source_seq(missing@) + Seq::empty());
            }
        },
        Geometry2D::Image {
            center_position,
            size,
            texture_source,
            source_rectangle,
            fill_color,
            transformations,
        } => {
            if !texture_buffer.needs_load(texture_source) {
                let ghost before = out@;
                let cmd = DrawCommand::Image {
                    center_position: *center_position,
                    size: *size,
                    texture_source: texture_source.clone(),
                    source_rectangle: *source_rectangle,
                    fill_color: *fill_color,
                    transformations: chain_concat(transformations, base),
                };
                out.push(cmd);
                proof {
                    lemma_spec_command_seq_push(before, cmd);
                    assert(spec_command_seq(out@) =~= spec_command_seq(before) + seq![cmd@]);
                    assert(spec_source_seq(missing@) =~= spec_source_seq(missing@) + Seq::empty());
                }
            } else {
                let ghost mbefore = missing@;
                missing.push(texture_source.clone());
                proof {
                    lemma_spec_source_seq_push(mbefore, missing@.last());
                    assert(missing@.drop_last() =~= mbefore);
                    assert(spec_source_seq(missing@) =~= spec_source_seq(mbefore) + seq![
                        texture_source@,
                    ]);
                    assert(spec_command_seq(out@) =~= spec_command_seq(out@) + Seq::empty());
                }
            }
        },
        Geometry2D::Group { elements, transformations } => {
            let chain = chain_concat(transformations, base);
            let ghost gs = spec_geometry_seq(elements@);
            proof {
                lemma_spec_geometry_seq(elements@);
            }
            let mut i: usize = 0;
            while i < elements.len()
                invariant
                    0 <= i <= elements@.len(),
                    chain@ == transformations@ + base@,
                    spec_command_seq(out@) == spec_command_seq(old(out)@) + spec_render_nodes(
                        gs.subrange(0, i as int),
                        chain@,
                        avail,
                    ).0,
                    spec_source_seq(missing@) == spec_source_seq(old(missing)@)
                        + spec_render_nodes(gs.subrange(0, i as int), chain@, avail).1,
                decreases elements@.len() - i,
            {
                proof {
                    assert(*geometry_2d == (Geometry2D::Group {
                        elements: *elements,
                        transformations: *transformations,
                    }));
                    assert(decreases_to!(*geometry_2d => geometry_2d->Group_elements));
                    assert(decreases_to!(geometry_2d->Group_elements
                        => geometry_2d->Group_elements@));
                    vstd::seq::axiom_seq_index_decreases(
                        geometry_2d->Group_elements@,
                        i as int,
                    );
                    assert(decreases_to!(*geometry_2d => elements@[i as int]));
                }
                let ghost out_before = out@;
                let ghost missing_before = missing@;
                render_geometry_2d(&elements[i], &chain, texture_buffer, out, missing);
                proof {
                    assert(gs[i as int] == elements@[i as int]@);
                    assert(gs.subrange(0, i + 1).drop_last() =~= gs.subrange(0, i as int));
                    assert(gs.subrange(0, i + 1).last() == gs[i as int]);
                    assert(spec_command_seq(out@) =~= spec_command_seq(old(out)@)
                        + spec_render_nodes(gs.subrange(0, i + 1), chain@, avail).0);
                    assert(spec_source_seq(missing@) =~= spec_source_seq(old(missing)@)
                        + spec_render_nodes(gs.subrange(0, i + 1), chain@, avail).1);
                }
                i += 1;
            }
            proof {
                assert(gs.subrange(0, gs.len() as int) =~= gs);
            }
        },
    }
}

/// A frame, planned: the optional clear color, the optional scissor
/// region, the backend commands in draw order, and the image sources that
/// had to be skipped for want of a cached texture.
#[derive(Debug)]
pub struct FramePlan {
    pub background_color: Option<Color>,
    pub scissor: Option<ScissorRect>,
    pub commands: Vec<DrawCommand>,
    pub missing_textures: Vec<TextureSource>,
}

/// The mathematical value of a `FramePlan`.
pub struct SpecFramePlan {
    pub background_color: Option<Color>,
    pub scissor: Option<ScissorRect>,
    pub commands: Seq<SpecDrawCommand>,
    pub missing_textures: Seq<SpecTextureSource>,
}

impl View for FramePlan {
    type V = SpecFramePlan;

    open spec fn view(&self) -> SpecFramePlan {
        SpecFramePlan {
            background_color: self.background_color,
            scissor: self.scissor,
            commands: spec_command_seq(self.commands@),
            missing_textures: spec_source_seq(self.missing_textures@),
        }
    }
}

/// What a whole frame renders to: the viewport preference (or, absent one,
/// the identity fit) gives the chain appended to every top-level node and
/// the scissor; the nodes then emit their commands in order; the
/// background color is passed through for the clear.
pub open spec fn spec_plan_frame(
    s: SpecSceneData,
    avail: Set<SpecTextureSource>,
    sw: u32,
    sh: u32,
) -> SpecFramePlan {
    let fit = match s.preferred_view {
        Some((vp, m)) => spec_fit(vp, m, sw, sh),
        None => SpecViewportFit { transform: Seq::empty(), scissor: None },
    };
    let rendered = spec_render_nodes(s.geometries, fit.transform, avail);
    SpecFramePlan {
        background_color: s.background_color,
        scissor: fit.scissor,
        commands: rendered.0,
        missing_textures: rendered.1,
    }
}

/// Plans one frame of the scene against the current cache and surface.
#[verifier::loop_isolation(false)]
pub fn render<T>(scene: &SceneData, texture_buffer: &TextureBuffer<T>, sw: u32, sh: u32) -> (plan:
    FramePlan)
    requires
        texture_buffer.wf(),
    ensures
        plan@ == spec_plan_frame(scene@, texture_buffer@.dom(), sw, sh),
{
    let ghost avail = texture_buffer@.dom();
    let fit: ViewportFit = match &scene.preferred_view {
        Some((vp, m)) => fit_viewport(vp, *m, sw, sh),
        None => ViewportFit { transform: Vec::new(), scissor: None },
    };
    let ghost gs = spec_geometry_seq(scene.geometries@);
    proof {
        lemma_spec_geometry_seq(scene.geometries@);
    }
    let mut commands: Vec<DrawCommand> = Vec::new();
    let mut missing: Vec<TextureSource> = Vec::new();
    let mut i: usize = 0;
    while i < scene.geometries.len()
        invariant
            0 <= i <= scene.geometries@.len(),
            spec_command_seq(commands@) == spec_render_nodes(
                gs.subrange(0, i as int),
                fit.transform@,
                avail,
            ).0,
            spec_source_seq(missing@) == spec_render_nodes(
                gs.subrange(0, i as int),
                fit.transform@,
                avail,
            ).1,
        decreases scene.geometries@.len() - i,
    {
        render_geometry_2d(&scene.geometries[i], &fit.transform, texture_buffer, &mut commands, &mut missing);
        proof {
            assert(gs[i as int] == scene.geometries@[i as int]@);
            assert(gs.subrange(0, i + 1).drop_last() =~= gs.subrange(0, i as int));
            assert(gs.subrange(0, i + 1).last() == gs[i as int]);
        }
        i += 1;
    }
    proof {
        assert(gs.subrange(0, gs.len() as int) =~= gs);
    }
    FramePlan {
        background_color: scene.background_color,
        scissor: fit.scissor,
        commands,
        missing_textures: missing,
    }
}

/// The sources of every image node in a node's subtree, in traversal
/// order, whether or not the cache holds them.
pub open spec fn spec_sources_of(g: SpecGeometry) -> Seq<SpecTextureSource>
    decreases g,
{
    match g {
        SpecGeometry::Image { texture_source, .. } => seq![texture_source],
        SpecGeometry::Group { elements, .. } => spec_sources_of_seq(elements),
        _ => Seq::empty(),
    }
}

/// The sources of every image node under a node list, in order.
pub open spec fn spec_sources_of_seq(gs: Seq<SpecGeometry>) -> Seq<SpecTextureSource>
    decreases gs,
{
    if gs.len() == 0 {
        Seq::empty()
    } else {
        spec_sources_of_seq(gs.drop_last()) + spec_sources_of(gs.last())
    }
}

/// Gathers into `out` the source of every image node in the subtree of
/// one node, groups included.
#[verifier::loop_isolation(false)]
pub fn collect_node_sources(geometry_2d: &Geometry2D, out: &mut Vec<TextureSource>)
    ensures
        spec_source_seq(final(out)@) == spec_source_seq(old(out)@) + spec_sources_of(
            geometry_2d@,
        ),
    decreases *geometry_2d,
{
    match geometry_2d {
        Geometry2D::Image { texture_source, .. } => {
            let ghost before = out@;
            out.push(texture_source.clone());
            proof {
                lemma_spec_source_seq_push(before, out@.last());
                assert(out@.drop_last() =~= before);
                assert(spec_source_seq(out@) =~= spec_source_seq(before) + seq![texture_source@]);
            }
        },
        Geometry2D::Group { elements, transformations } => {
            let ghost gs = spec_geometry_seq(elements@);
            proof {
                lemma_spec_geometry_seq(elements@);
            }
            let mut i: usize = 0;
            while i < elements.len()
                invariant
                    0 <= i <= elements@.len(),
                    spec_source_seq(out@) == spec_source_seq(old(out)@) + spec_sources_of_seq(
                        gs.subrange(0, i as int),
                    ),
                decreases elements@.len() - i,
            {
                proof {
                    assert(*geometry_2d == (Geometry2D::Group {
                        elements: *elements,
                        transformations: *transformations,
                    }));
                    assert(decreases_to!(*geometry_2d => geometry_2d->Group_elements));
                    assert(decreases_to!(geometry_2d->Group_elements
                        => geometry_2d->Group_elements@));
                    vstd::seq::axiom_seq_index_decreases(
                        geometry_2d->Group_elements@,
                        i as int,
                    );
                    assert(decreases_to!(*geometry_2d => elements@[i as int]));
                }
                collect_node_sources(&elements[i], out);
                proof {
                    assert(gs[i as int] == elements@[i as int]@);
                    assert(gs.subrange(0, i + 1).drop_last() =~= gs.subrange(0, i as int));
                    assert(gs.subrange(0, i + 1).last() == gs[i as int]);
                    assert(spec_source_seq(out@) =~= spec_source_seq(old(out)@)
                        + spec_sources_of_seq(gs.subrange(0, i + 1)));
                }
                i += 1;
            }
            proof {
                assert(gs.subrange(0, gs.len() as int) =~= gs);
            }
        },
        _ => {
            proof {
                assert(spec_source_seq(out@) =~= spec_source_seq(out@) + Seq::empty());
            }
        },
    }
}

/// The source of every image node in the whole scene, in traversal order:
/// what the frame must mark or load in the texture cache before drawing.
#[verifier::loop_isolation(false)]
pub fn collect_texture_sources(geometry_2ds: &Vec<Geometry2D>) -> (r: Vec<TextureSource>)
    ensures
        spec_source_seq(r@) == spec_sources_of_seq(spec_geometry_seq(geometry_2ds@)),
{
    let ghost gs = spec_geometry_seq(geometry_2ds@);
    proof {
        lemma_spec_geometry_seq(geometry_2ds@);
    }
    let mut out: Vec<TextureSource> = Vec::new();
    let mut i: usize = 0;
    while i < geometry_2ds.len()
        invariant
            0 <= i <= geometry_2ds@.len(),
            spec_source_seq(out@) == spec_sources_of_seq(gs.subrange(0, i as int)),
        decreases geometry_2ds@.len() - i,
    {
        collect_node_sources(&geometry_2ds[i], &mut out);
        proof {
            assert(gs[i as int] == geometry_2ds@[i as int]@);
            assert(gs.subrange(0, i + 1).drop_last() =~= gs.subrange(0, i as int));
            assert(gs.subrange(0, i + 1).last() == gs[i as int]);
        }
        i += 1;
    }
    proof {
        assert(gs.subrange(0, gs.len() as int) =~= gs);
    }
    out
}

} // verus!

verus! {

/// Law: a node whose image sources are all cached renders completely —
/// nothing is skipped, so priming every collected source before the frame
/// guarantees a full frame.
pub proof fn lemma_primed_node_skips_nothing(
    g: SpecGeometry,
    base: Seq<Transformation2D>,
    avail: Set<SpecTextureSource>,
)
    requires
        forall|i: int|
            0 <= i < spec_sources_of(g).len() ==> avail.contains(#[trigger] spec_sources_of(g)[i]),
    ensures
        spec_render_node(g, base, avail).1 == Seq::<SpecTextureSource>::empty(),
    decreases g,
{
    match g {
        SpecGeometry::Image { texture_source, .. } => {
            assert(spec_sources_of(g)[0] == texture_source);
            assert(avail.contains(texture_source));
        },
        SpecGeometry::Group { elements, transformations } => {
            lemma_primed_nodes_skip_nothing(elements, transformations + base, avail);
        },
        _ => {},
    }
}

/// Law: a node list whose image sources are all cached renders completely.
pub proof fn lemma_primed_nodes_skip_nothing(
    gs: Seq<SpecGeometry>,
    base: Seq<Transformation2D>,
    avail: Set<SpecTextureSource>,
)
    requires
        forall|i: int|
            0 <= i < spec_sources_of_seq(gs).len() ==> avail.contains(
                #[trigger] spec_sources_of_seq(gs)[i],
            ),
    ensures
        spec_render_nodes(gs, base, avail).1 == Seq::<SpecTextureSource>::empty(),
    decreases gs,
{
    if gs.len() > 0 {
        let front = spec_sources_of_seq(gs.drop_last());
        let back = spec_sources_of(gs.last());
        assert(spec_sources_of_seq(gs) == front + back);
        assert forall|i: int| 0 <= i < front.len() implies avail.contains(#[trigger] front[i]) by {
            assert(spec_sources_of_seq(gs)[i] == front[i]);
        }
        assert forall|i: int| 0 <= i < back.len() implies avail.contains(#[trigger] back[i]) by {
            assert(spec_sources_of_seq(gs)[front.len() + i] == back[i]);
        }
        lemma_primed_nodes_skip_nothing(gs.drop_last(), base, avail);
        lemma_primed_node_skips_nothing(gs.last(), base, avail);
        assert(spec_render_nodes(gs, base, avail).1 =~= Seq::<SpecTextureSource>::empty());
    }
}

} // verus!
