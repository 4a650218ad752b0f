use gymnarium_visualisers_piston::geometry::{
    Color, Geometry2D, LineShape, Position2D, Size2D, TextureSource, Transformation2D,
};
use gymnarium_visualisers_piston::mailbox::SceneData;
use gymnarium_visualisers_piston::renderer::{render, DrawCommand};
use gymnarium_visualisers_piston::scalar::Frac;
use gymnarium_visualisers_piston::texture::TextureBuffer;
use gymnarium_visualisers_piston::viewport::{
    fit_viewport, window_viewport, ScissorRect, Viewport2D, Viewport2DModification,
};

fn f(n: i64) -> Frac {
    Frac::from_int(n)
}

fn logical_viewport(width: i64, height: i64) -> Viewport2D {
    Viewport2D {
        center: Position2D { x: f(0), y: f(0) },
        size: Size2D { width: f(width), height: f(height) },
    }
}

fn red() -> Color {
    Color { r: 255, g: 0, b: 0, a: 255 }
}

fn mark(n: i64) -> Transformation2D {
    Transformation2D::Translation { x: f(n), y: f(n) }
}

fn empty_cache() -> TextureBuffer<u32> {
    TextureBuffer::new(180)
}

#[test]
fn window_viewport_is_the_two_by_two_canonical_space() {
    let v = window_viewport();
    assert_eq!(v.center.x, f(0));
    assert_eq!(v.center.y, f(0));
    assert_eq!(v.size.width, f(2));
    assert_eq!(v.size.height, f(2));
}

#[test]
fn fit_wide_viewport_letterboxes_to_half_height() {
    // A 4-by-2 logical viewport on an 800-by-800 surface: the fitted
    // rectangle is 800 by 400, centered, so the scale pair is (1, 1/2).
    let fit = fit_viewport(
        &logical_viewport(4, 2),
        Viewport2DModification::KeepAspectRatioAndScissorRemains,
        800,
        800,
    );
    assert_eq!(fit.transform.len(), 3);
    assert_eq!(fit.transform[0], Transformation2D::Translation { x: f(0), y: f(0) });
    assert_eq!(fit.transform[2], Transformation2D::Translation { x: f(0), y: f(0) });
    match fit.transform[1] {
        Transformation2D::Scale { x, y } => {
            // x is 800/800 = 1 and y is 1600/3200 = 1/2, exactly.
            assert_eq!(x, Frac::new(800, 800));
            assert!(x.le(&Frac::new(1, 1)) && Frac::new(1, 1).le(&x));
            assert_eq!(y, Frac::new(1600, 3200));
            assert!(y.le(&Frac::new(1, 2)) && Frac::new(1, 2).le(&y));
        }
        ref other => panic!("expected a scale, got {:?}", other),
    }
    assert_eq!(fit.scissor, Some(ScissorRect { x: 0, y: 200, width: 800, height: 400 }));
}

#[test]
fn fit_without_clip_has_no_scissor() {
    let fit = fit_viewport(
        &logical_viewport(4, 2),
        Viewport2DModification::KeepAspectRatio,
        800,
        800,
    );
    assert_eq!(fit.transform.len(), 3);
    assert_eq!(fit.scissor, None);
}

#[test]
fn fit_tall_viewport_letterboxes_to_half_width() {
    let fit = fit_viewport(
        &logical_viewport(2, 4),
        Viewport2DModification::KeepAspectRatioAndScissorRemains,
        800,
        800,
    );
    assert_eq!(fit.scissor, Some(ScissorRect { x: 200, y: 0, width: 400, height: 800 }));
}

#[test]
fn fit_stretch_to_fill_is_the_identity() {
    let fit = fit_viewport(
        &logical_viewport(4, 2),
        Viewport2DModification::LooseAspectRatio,
        800,
        800,
    );
    assert!(fit.transform.is_empty());
    assert_eq!(fit.scissor, None);
}

#[test]
fn fit_degenerate_viewport_falls_back_to_identity() {
    let fit = fit_viewport(
        &logical_viewport(0, 2),
        Viewport2DModification::KeepAspectRatio,
        800,
        800,
    );
    assert!(fit.transform.is_empty());
    assert_eq!(fit.scissor, None);
}

fn plan_of(geometries: Vec<Geometry2D>) -> Vec<DrawCommand> {
    let scene = SceneData { geometries, preferred_view: None, background_color: None };
    render(&scene, &empty_cache(), 800, 600).commands
}

#[test]
fn group_recursion_renders_point_and_line_with_accumulated_chains() {
    // A group holding a point, a nested group holding a line, and an empty
    // group: exactly the point and the line render, each carrying its own
    // chain extended by every enclosing group's chain, outermost last.
    let point = Geometry2D::Point {
        position: Position2D { x: f(1), y: f(2) },
        color: red(),
        transformations: vec![mark(10)],
    };
    let line = Geometry2D::Line {
        points: (Position2D { x: f(0), y: f(0) }, Position2D { x: f(1), y: f(1) }),
        line_color: red(),
        line_width: f(1),
        line_shape: LineShape::Round,
        transformations: vec![mark(20)],
    };
    let inner = Geometry2D::Group { elements: vec![line], transformations: vec![mark(2)] };
    let empty = Geometry2D::Group { elements: Vec::new(), transformations: vec![mark(3)] };
    let outer = Geometry2D::Group {
        elements: vec![point, inner, empty],
        transformations: vec![mark(1)],
    };
    let commands = plan_of(vec![outer]);
    assert_eq!(commands.len(), 2);
    match &commands[0] {
        DrawCommand::Point { position, transformations, .. } => {
            assert_eq!(position.x, f(1));
            assert_eq!(*transformations, vec![mark(10), mark(1)]);
        }
        other => panic!("expected the point first, got {:?}", other),
    }
    match &commands[1] {
        DrawCommand::Line { from, to, transformations, .. } => {
            assert_eq!(from.x, f(0));
            assert_eq!(to.x, f(1));
            assert_eq!(*transformations, vec![mark(20), mark(2), mark(1)]);
        }
        other => panic!("expected the line second, got {:?}", other),
    }
}

#[test]
fn empty_polyline_draws_nothing_and_three_points_give_two_segments() {
    let empty_polyline = Geometry2D::Polyline {
        points: Vec::new(),
        line_color: red(),
        line_width: f(1),
        line_shape: LineShape::Square,
        transformations: Vec::new(),
    };
    assert!(plan_of(vec![empty_polyline]).is_empty());

    let polyline = Geometry2D::Polyline {
        points: vec![
            Position2D { x: f(0), y: f(0) },
            Position2D { x: f(1), y: f(0) },
            Position2D { x: f(2), y: f(0) },
        ],
        line_color: red(),
        line_width: f(1),
        line_shape: LineShape::Square,
        transformations: Vec::new(),
    };
    let commands = plan_of(vec![polyline]);
    assert_eq!(commands.len(), 2);
    match (&commands[0], &commands[1]) {
        (DrawCommand::Line { from: f0, to: t0, .. }, DrawCommand::Line { from: f1, to: t1, .. }) => {
            assert_eq!((f0.x, t0.x), (f(0), f(1)));
            assert_eq!((f1.x, t1.x), (f(1), f(2)));
        }
        other => panic!("expected two segments, got {:?}", other),
    }
}

#[test]
fn triangle_renders_fill_and_closed_border_loop() {
    let triangle = Geometry2D::Triangle {
        points: (
            Position2D { x: f(0), y: f(0) },
            Position2D { x: f(1), y: f(0) },
            Position2D { x: f(0), y: f(1) },
        ),
        fill_color: red(),
        border_color: Color { r: 0, g: 0, b: 255, a: 255 },
        border_width: f(1),
        transformations: Vec::new(),
    };
    let commands = plan_of(vec![triangle]);
    assert_eq!(commands.len(), 4);
    assert!(matches!(commands[0], DrawCommand::Polygon { .. }));
    // The border closes the loop: the last segment returns to the first point.
    match &commands[3] {
        DrawCommand::Line { from, to, line_shape, .. } => {
            assert_eq!(from.y, f(1));
            assert_eq!((to.x, to.y), (f(0), f(0)));
            assert_eq!(*line_shape, LineShape::Round);
        }
        other => panic!("expected a border segment, got {:?}", other),
    }
}

#[test]
fn square_renders_as_rect_with_equal_sides() {
    let square = Geometry2D::Square {
        center_position: Position2D { x: f(5), y: f(5) },
        edge_length: f(4),
        fill_color: red(),
        border_color: red(),
        border_width: f(1),
        corner_shape: gymnarium_visualisers_piston::geometry::CornerShape::Square,
        transformations: Vec::new(),
    };
    let commands = plan_of(vec![square]);
    assert_eq!(commands.len(), 1);
    match &commands[0] {
        DrawCommand::Rect { size, .. } => {
            assert_eq!(size.width, f(4));
            assert_eq!(size.height, f(4));
        }
        other => panic!("expected a rect, got {:?}", other),
    }
}

#[test]
fn frame_passes_background_and_scissor_through() {
    let scene = SceneData {
        geometries: Vec::new(),
        preferred_view: Some((
            logical_viewport(4, 2),
            Viewport2DModification::KeepAspectRatioAndScissorRemains,
        )),
        background_color: Some(red()),
    };
    let plan = render(&scene, &empty_cache(), 800, 800);
    assert_eq!(plan.background_color, Some(red()));
    assert_eq!(plan.scissor, Some(ScissorRect { x: 0, y: 200, width: 800, height: 400 }));
    assert!(plan.commands.is_empty());
    assert!(plan.missing_textures.is_empty());
}

#[test]
fn single_point_polyline_draws_nothing() {
    let polyline = Geometry2D::Polyline {
        points: vec![Position2D { x: f(1), y: f(1) }],
        line_color: red(),
        line_width: f(1),
        line_shape: LineShape::Round,
        transformations: Vec::new(),
    };
    assert!(plan_of(vec![polyline]).is_empty());
}

#[test]
fn circle_and_ellipse_emit_their_own_commands() {
    let circle = Geometry2D::Circle {
        center_position: Position2D { x: f(3), y: f(4) },
        radius: f(2),
        fill_color: red(),
        border_color: red(),
        border_width: f(1),
        transformations: Vec::new(),
    };
    let ellipse = Geometry2D::Ellipse {
        center_position: Position2D { x: f(3), y: f(4) },
        size: Size2D { width: f(2), height: f(1) },
        fill_color: red(),
        border_color: red(),
        border_width: f(1),
        transformations: Vec::new(),
    };
    let commands = plan_of(vec![circle, ellipse]);
    assert_eq!(commands.len(), 2);
    match &commands[0] {
        DrawCommand::Circle { radius, .. } => assert_eq!(*radius, f(2)),
        other => panic!("expected a circle, got {:?}", other),
    }
    match &commands[1] {
        DrawCommand::Ellipse { size, .. } => assert_eq!(size.height, f(1)),
        other => panic!("expected an ellipse, got {:?}", other),
    }
}

#[test]
fn image_command_carries_subrectangle_and_tint() {
    let mut cache: TextureBuffer<u32> = TextureBuffer::new(180);
    cache.load_or_mark_use(TextureSource::Path(String::from("a.png")), Some(9));
    let image = Geometry2D::Image {
        center_position: Position2D { x: f(0), y: f(0) },
        size: Size2D { width: f(8), height: f(4) },
        texture_source: TextureSource::Path(String::from("a.png")),
        source_rectangle: Some((
            Position2D { x: f(1), y: f(1) },
            Size2D { width: f(2), height: f(2) },
        )),
        fill_color: Some(red()),
        transformations: Vec::new(),
    };
    let scene = SceneData { geometries: vec![image], preferred_view: None, background_color: None };
    let plan = render(&scene, &cache, 640, 480);
    assert!(plan.missing_textures.is_empty());
    assert_eq!(plan.commands.len(), 1);
    match &plan.commands[0] {
        DrawCommand::Image { size, source_rectangle, fill_color, .. } => {
            assert_eq!(size.width, f(8));
            assert_eq!(*fill_color, Some(red()));
            let (sp, ss) = source_rectangle.expect("the sub-rectangle must pass through");
            assert_eq!((sp.x, ss.width), (f(1), f(2)));
        }
        other => panic!("expected the image, got {:?}", other),
    }
}
