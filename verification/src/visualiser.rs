use vstd::prelude::*;

use crate::geometry::{Color, Geometry2D, SpecGeometry, spec_geometry_seq, Transformation2D};
use crate::mailbox::{scene_eq, Mailbox, SceneData, SpecSceneData, spec_empty_scene};
use crate::renderer::{
    chain_concat, collect_texture_sources, render, FramePlan, spec_plan_frame,
    spec_sources_of_seq, spec_source_seq,
};
use crate::scalar::Frac;
use crate::texture::TextureBuffer;
use crate::viewport::{
    spec_window_viewport, window_viewport, Viewport2D, Viewport2DModification,
};

verus! {

/// What can go wrong on the handle's own lifecycle: the render thread
/// ended abnormally when it was joined on close.
#[derive(Debug)]
pub enum PistonVisualiserError {
    CloseCouldNotJoinRenderThread(String),
}

/// What can go wrong while rendering on behalf of a drawable environment:
/// the environment itself failed to produce a scene, or the shared state's
/// lock was poisoned.
#[derive(Debug)]
pub enum FurtherPistonVisualiserError<DrawableEnvironmentError> {
    RenderingEnvironmentError(DrawableEnvironmentError),
    LockingFailedInternally(String),
}

impl<DrawableEnvironmentError> From<DrawableEnvironmentError> for FurtherPistonVisualiserError<DrawableEnvironmentError> {
    /// An environment error wraps into the rendering-error variant.
    fn from(error: DrawableEnvironmentError) -> (r: Self) {
        FurtherPistonVisualiserError::RenderingEnvironmentError(error)
    }
}

impl<DrawableEnvironmentError> vstd::std_specs::convert::FromSpecImpl<DrawableEnvironmentError> for FurtherPistonVisualiserError<DrawableEnvironmentError> {
    open spec fn obeys_from_spec() -> bool {
        true
    }

    open spec fn from_spec(error: DrawableEnvironmentError) -> Self {
        FurtherPistonVisualiserError::RenderingEnvironmentError(error)
    }
}

/// The bound within which the producer-side viewport normalization is
/// computed exactly; a viewport outside it falls back to the identity, as
/// a degenerate (zero or negative sized) viewport does.
pub open spec fn viewport_map_inputs_ok(from: Viewport2D, to: Viewport2D) -> bool {
    &&& -32768 <= from.center.x.num <= 32768
    &&& 0 < from.center.x.den <= 32768
    &&& -32768 <= from.center.y.num <= 32768
    &&& 0 < from.center.y.den <= 32768
    &&& 0 < from.size.width.num <= 32768
    &&& 0 < from.size.width.den <= 32768
    &&& 0 < from.size.height.num <= 32768
    &&& 0 < from.size.height.den <= 32768
    &&& -32768 <= to.center.x.num <= 32768
    &&& 0 < to.center.x.den <= 32768
    &&& -32768 <= to.center.y.num <= 32768
    &&& 0 < to.center.y.den <= 32768
    &&& 0 < to.size.width.num <= 32768
    &&& 0 < to.size.width.den <= 32768
    &&& 0 < to.size.height.num <= 32768
    &&& 0 < to.size.height.den <= 32768
}

/// The chain mapping one viewport's coordinates onto another's: translate
/// the source center to the origin, scale each axis by the size ratio,
/// translate out to the target center. Out-of-range or degenerate
/// viewports map by the identity (the empty chain).
pub open spec fn spec_viewport_map(from: Viewport2D, to: Viewport2D) -> Seq<Transformation2D> {
    if viewport_map_inputs_ok(from, to) {
        seq![
            Transformation2D::Translation {
                x: Frac { num: (-from.center.x.num) as i64, den: from.center.x.den },
                y: Frac { num: (-from.center.y.num) as i64, den: from.center.y.den },
            },
            Transformation2D::Scale {
                x: Frac {
                    num: (to.size.width.num * from.size.width.den) as i64,
                    den: (to.size.width.den * from.size.width.num) as i64,
                },
                y: Frac {
                    num: (to.size.height.num * from.size.height.den) as i64,
                    den: (to.size.height.den * from.size.height.num) as i64,
                },
            },
            Transformation2D::Translation { x: to.center.x, y: to.center.y },
        ]
    } else {
        Seq::empty()
    }
}

/// Decides `viewport_map_inputs_ok` at run time.
fn viewport_map_inputs_ok_exec(from: &Viewport2D, to: &Viewport2D) -> (b: bool)
    ensures
        b == viewport_map_inputs_ok(*from, *to),
{
    -32768 <= from.center.x.num && from.center.x.num <= 32768 && 0 < from.center.x.den
        && from.center.x.den <= 32768 && -32768 <= from.center.y.num && from.center.y.num <= 32768
        && 0 < from.center.y.den && from.center.y.den <= 32768 && 0 < from.size.width.num
        && from.size.width.num <= 32768 && 0 < from.size.width.den && from.size.width.den <= 32768
        && 0 < from.size.height.num && from.size.height.num <= 32768 && 0 < from.size.height.den
        && from.size.height.den <= 32768 && -32768 <= to.center.x.num && to.center.x.num <= 32768
        && 0 < to.center.x.den && to.center.x.den <= 32768 && -32768 <= to.center.y.num
        && to.center.y.num <= 32768 && 0 < to.center.y.den && to.center.y.den <= 32768 && 0
        < to.size.width.num && to.size.width.num <= 32768 && 0 < to.size.width.den
        && to.size.width.den <= 32768 && 0 < to.size.height.num && to.size.height.num <= 32768 && 0
        < to.size.height.den && to.size.height.den <= 32768
}

/// Computes the viewport-to-viewport chain of `spec_viewport_map`.
pub fn viewport_map_chain(from: &Viewport2D, to: &Viewport2D) -> (r: Vec<Transformation2D>)
    ensures
        r@ == spec_viewport_map(*from, *to),
{
    let mut r: Vec<Transformation2D> = Vec::new();
    if !viewport_map_inputs_ok_exec(from, to) {
        return r;
    }
    proof {
        lemma_viewport_map_products(
            to.size.width.num as int,
            from.size.width.den as int,
            to.size.width.den as int,
            from.size.width.num as int,
        );
        lemma_viewport_map_products(
            to.size.height.num as int,
            from.size.height.den as int,
            to.size.height.den as int,
            from.size.height.num as int,
        );
    }
    r.push(
        Transformation2D::Translation {
            x: Frac { num: -from.center.x.num, den: from.center.x.den },
            y: Frac { num: -from.center.y.num, den: from.center.y.den },
        },
    );
    r.push(
        Transformation2D::Scale {
            x: Frac {
                num: to.size.width.num * from.size.width.den,
                den: to.size.width.den * from.size.width.num,
            },
            y: Frac {
                num: to.size.height.num * from.size.height.den,
                den: to.size.height.den * from.size.height.num,
            },
        },
    );
    r.push(Transformation2D::Translation { x: to.center.x, y: to.center.y });
    proof {
        assert(r@ =~= spec_viewport_map(*from, *to));
    }
    r
}

/// The size-ratio products stay within 64 bits on bounded inputs.
proof fn lemma_viewport_map_products(a: int, b: int, c: int, d: int)
    requires
        0 < a <= 32768,
        0 < b <= 32768,
        0 < c <= 32768,
        0 < d <= 32768,
    ensures
        0 < a * b <= 0x4000_0000,
        0 < c * d <= 0x4000_0000,
{
    assert(0 < a * b <= 0x4000_0000 && 0 < c * d <= 0x4000_0000) by (nonlinear_arith)
        requires
            0 < a <= 32768,
            0 < b <= 32768,
            0 < c <= 32768,
            0 < d <= 32768,
    ;
}

/// One node with a chain appended to its own transformation chain, after
/// everything the node carried already.
pub open spec fn spec_append_node(g: SpecGeometry, extra: Seq<Transformation2D>) -> SpecGeometry {
    match g {
        SpecGeometry::Point { position, color, transformations } => SpecGeometry::Point {
            position,
            color,
            transformations: transformations + extra,
        },
        SpecGeometry::Line { points, line_color, line_width, line_shape, transformations } => {
            SpecGeometry::Line {
                points,
                line_color,
                line_width,
                line_shape,
                transformations: transformations + extra,
            }
        },
        SpecGeometry::Polyline { points, line_color, line_width, line_shape, transformations } => {
            SpecGeometry::Polyline {
                points,
                line_color,
                line_width,
                line_shape,
                transformations: transformations + extra,
            }
        },
        SpecGeometry::Triangle {
            points,
            fill_color,
            border_color,
            border_width,
            transformations,
        } => SpecGeometry::Triangle {
            points,
            fill_color,
            border_color,
            border_width,
            transformations: transformations + extra,
        },
        SpecGeometry::Square {
            center_position,
            edge_length,
            fill_color,
            border_color,
            border_width,
            corner_shape,
            transformations,
        } => SpecGeometry::Square {
            center_position,
            edge_length,
            fill_color,
            border_color,
            border_width,
            corner_shape,
            transformations: transformations + extra,
        },
        SpecGeometry::Rectangle {
            center_position,
            size,
            fill_color,
            border_color,
            border_width,
            corner_shape,
            transformations,
        } => SpecGeometry::Rectangle {
            center_position,
            size,
            fill_color,
            border_color,
            border_width,
            corner_shape,
            transformations: transformations + extra,
        },
        SpecGeometry::Polygon {
            points,
            fill_color,
            border_color,
            border_width,
            transformations,
        } => SpecGeometry::Polygon {
            points,
            fill_color,
            border_color,
            border_width,
            transformations: transformations + extra,
        },
        SpecGeometry::Circle {
            center_position,
            radius,
            fill_color,
            border_color,
            border_width,
            transformations,
        } => SpecGeometry::Circle {
            center_position,
            radius,
            fill_color,
            border_color,
            border_width,
            transformations: transformations + extra,
        },
        SpecGeometry::Ellipse {
            center_position,
            size,
            fill_color,
            border_color,
            border_width,
            transformations,
        } => SpecGeometry::Ellipse {
            center_position,
            size,
            fill_color,
            border_color,
            border_width,
            transformations: transformations + extra,
        },
        SpecGeometry::Image {
            center_position,
            size,
            texture_source,
            source_rectangle,
            fill_color,
            transformations,
        } => SpecGeometry::Image {
            center_position,
            size,
            texture_source,
            source_rectangle,
            fill_color,
            transformations: transformations + extra,
        },
        SpecGeometry::Group { elements, transformations } => SpecGeometry::Group {
            elements,
            transformations: transformations + extra,
        },
    }
}

/// Appends `extra` to one node's own chain.
pub fn append_transformations(g: Geometry2D, extra: &Vec<Transformation2D>) -> (r: Geometry2D)
    ensures
        r@ == spec_append_node(g@, extra@),
{
    match g {
        Geometry2D::Point { position, color, transformations } => Geometry2D::Point {
            position,
            color,
            transformations: chain_concat(&transformations, extra),
        },
        Geometry2D::Line { points, line_color, line_width, line_shape, transformations } => {
            Geometry2D::Line {
                points,
                line_color,
                line_width,
                line_shape,
                transformations: chain_concat(&transformations, extra),
            }
        },
        Geometry2D::Polyline { points, line_color, line_width, line_shape, transformations } => {
            Geometry2D::Polyline {
                points,
                line_color,
                line_width,
                line_shape,
                transformations: chain_concat(&transformations, extra),
            }
        },
        Geometry2D::Triangle {
            points,
            fill_color,
            border_color,
            border_width,
            transformations,
        } => Geometry2D::Triangle {
            points,
            fill_color,
            border_color,
            border_width,
            transformations: chain_concat(&transformations, extra),
        },
        Geometry2D::Square {
            center_position,
            edge_length,
            fill_color,
            border_color,
            border_width,
            corner_shape,
            transformations,
        } => Geometry2D::Square {
            center_position,
            edge_length,
            fill_color,
            border_color,
            border_width,
            corner_shape,
            transformations: chain_concat(&transformations, extra),
        },
        Geometry2D::Rectangle {
            center_position,
            size,
            fill_color,
            border_color,
            border_width,
            corner_shape,
            transformations,
        } => Geometry2D::Rectangle {
            center_position,
            size,
            fill_color,
            border_color,
            border_width,
            corner_shape,
            transformations: chain_concat(&transformations, extra),
        },
        Geometry2D::Polygon {
            points,
            fill_color,
            border_color,
            border_width,
            transformations,
        } => Geometry2D::Polygon {
            points,
            fill_color,
            border_color,
            border_width,
            transformations: chain_concat(&transformations, extra),
        },
        Geometry2D::Circle {
            center_position,
            radius,
            fill_color,
            border_color,
            border_width,
            transformations,
        } => Geometry2D::Circle {
            center_position,
            radius,
            fill_color,
            border_color,
            border_width,
            transformations: chain_concat(&transformations, extra),
        },
        Geometry2D::Ellipse {
            center_position,
            size,
            fill_color,
            border_color,
            border_width,
            transformations,
        } => Geometry2D::Ellipse {
            center_position,
            size,
            fill_color,
            border_color,
            border_width,
            transformations: chain_concat(&transformations, extra),
        },
        Geometry2D::Image {
            center_position,
            size,
            texture_source,
            source_rectangle,
            fill_color,
            transformations,
        } => Geometry2D::Image {
            center_position,
            size,
            texture_source,
            source_rectangle,
            fill_color,
            transformations: chain_concat(&transformations, extra),
        },
        Geometry2D::Group { elements, transformations } => Geometry2D::Group {
            elements,
            transformations: chain_concat(&transformations, extra),
        },
    }
}

/// The scene a producer hand-off denotes: every top-level node gets the
/// chain normalizing the preferred viewport (or, absent one, the canonical
/// window) onto the canonical window; the viewport preference and
/// background pass through unchanged.
pub open spec fn spec_producer_scene(
    gs: Seq<SpecGeometry>,
    preferred_view: Option<(Viewport2D, Viewport2DModification)>,
    background_color: Option<Color>,
) -> SpecSceneData {
    let from = match preferred_view {
        Some((vp, _)) => vp,
        None => spec_window_viewport(),
    };
    let chain = spec_viewport_map(from, spec_window_viewport());
    SpecSceneData {
        geometries: Seq::new(gs.len(), |i: int| spec_append_node(gs[i], chain)),
        preferred_view,
        background_color,
    }
}

/// One render hand-off as a state transition: from the last-published
/// scene and the mailbox slot, with the normalized new scene, to the new
/// last-published scene, the new slot, and whether a publish happened.
pub open spec fn render_step(
    last: SpecSceneData,
    slot: Option<SpecSceneData>,
    scene: SpecSceneData,
) -> (SpecSceneData, Option<SpecSceneData>, bool) {
    if scene != last {
        (scene, Some(scene), true)
    } else {
        (last, slot, false)
    }
}

/// One close request as a state transition: from whether the thread is
/// still joinable to whether the caller must join now, and the state
/// after (never joinable again).
pub open spec fn close_step(joinable: bool) -> (bool, bool) {
    (joinable, false)
}

/// The producer-side state of a visualiser: the last tuple it published
/// (for the deduplication check) and whether the render thread is still
/// joinable. The thread itself, the shared flags and the lock around the
/// mailbox belong to the embedding program; every decision about them is
/// made here.
pub struct VisualiserCore {
    last_geometries_2d: Vec<Geometry2D>,
    last_preferred_view: Option<(Viewport2D, Viewport2DModification)>,
    last_preferred_background_color: Option<Color>,
    joinable: bool,
}

impl VisualiserCore {
    /// The last scene this producer published.
    pub closed spec fn last_scene(&self) -> SpecSceneData {
        SpecSceneData {
            geometries: spec_geometry_seq(self.last_geometries_2d@),
            preferred_view: self.last_preferred_view,
            background_color: self.last_preferred_background_color,
        }
    }

    /// Whether the render thread has not been joined yet.
    pub closed spec fn joinable(&self) -> bool {
        self.joinable
    }

    /// The state a freshly opened visualiser starts in: nothing published
    /// yet beyond the initial empty scene, thread joinable.
    pub fn new() -> (c: Self)
        ensures
            c.last_scene() == spec_empty_scene(),
            c.joinable(),
    {
        VisualiserCore {
            last_geometries_2d: Vec::new(),
            last_preferred_view: None,
            last_preferred_background_color: None,
            joinable: true,
        }
    }

    /// Renders on behalf of the scene source: normalizes the geometry into
    /// the canonical window, skips the publish when the scene equals the
    /// last published one, and otherwise publishes it whole. Returns
    /// whether a publish happened.
    pub fn render_two_dimensional(
        &mut self,
        geometry_2ds: Vec<Geometry2D>,
        preferred_view: Option<(Viewport2D, Viewport2DModification)>,
        background_color: Option<Color>,
        mailbox: &mut Mailbox,
    ) -> (published: bool)
        ensures
            ({
                let scene = spec_producer_scene(
                    spec_geometry_seq(geometry_2ds@),
                    preferred_view,
                    background_color,
                );
                let (last2, slot2, p) = render_step(old(self).last_scene(), old(mailbox)@, scene);
                &&& published == p
                &&& final(self).last_scene() == last2
                &&& final(mailbox)@ == slot2
                &&& final(self).last_scene() == scene
                &&& final(self).joinable() == old(self).joinable()
            }),
    {
        let ghost gs = spec_geometry_seq(geometry_2ds@);
        proof {
            crate::geometry::lemma_spec_geometry_seq(geometry_2ds@);
        }
        let pref_viewport: Viewport2D = match &preferred_view {
            Some((vp, _)) => *vp,
            None => window_viewport(),
        };
        let target = window_viewport();
        let chain = viewport_map_chain(&pref_viewport, &target);
        let mut mapped: Vec<Geometry2D> = Vec::new();
        let mut remaining = geometry_2ds;
        let ghost total = gs.len();
        #[verifier::loop_isolation(false)]
        while remaining.len() > 0
            invariant
                spec_geometry_seq(remaining@) =~= gs.subrange(
                    (total - remaining@.len()) as int,
                    total as int,
                ),
                remaining@.len() <= total,
                chain@ == spec_viewport_map(pref_viewport, spec_window_viewport()),
                spec_geometry_seq(mapped@) =~= Seq::new(
                    (total - remaining@.len()) as nat,
                    |i: int| spec_append_node(gs[i], chain@),
                ),
            decreases remaining@.len(),
        {
            let ghost k = total - remaining@.len();
            let ghost rem0 = remaining@;
            let g = remaining.remove(0);
            proof {
                crate::geometry::lemma_spec_geometry_seq(rem0);
                crate::geometry::lemma_spec_geometry_seq(remaining@);
                assert(g@ == spec_geometry_seq(rem0)[0]);
                assert(g@ == gs[k as int]);
                assert forall|j: int| 0 <= j < remaining@.len() implies spec_geometry_seq(
                    remaining@,
                )[j] == gs.subrange(k + 1, total as int)[j] by {
                    assert(remaining@[j] == rem0[j + 1]);
                    assert(spec_geometry_seq(rem0)[j + 1] == rem0[j + 1]@);
                }
                assert(spec_geometry_seq(remaining@) =~= gs.subrange(k + 1, total as int));
            }
            let ghost mapped0 = mapped@;
            let m = append_transformations(g, &chain);
            mapped.push(m);
            proof {
                crate::geometry::lemma_spec_geometry_seq(mapped0);
                crate::geometry::lemma_spec_geometry_seq(mapped@);
                assert forall|j: int| 0 <= j < mapped@.len() implies spec_geometry_seq(mapped@)[j]
                    == Seq::new((k + 1) as nat, |i: int| spec_append_node(gs[i], chain@))[j] by {
                    if j < k {
                        assert(mapped@[j] == mapped0[j]);
                        assert(spec_geometry_seq(mapped0)[j] == mapped0[j]@);
                    } else {
                        assert(mapped@[j] == m);
                    }
                }
                assert(spec_geometry_seq(mapped@) =~= Seq::new(
                    (k + 1) as nat,
                    |i: int| spec_append_node(gs[i], chain@),
                ));
            }
        }
        let scene = SceneData {
            geometries: mapped,
            preferred_view,
            background_color,
        };
        let mut taken_last: Vec<Geometry2D> = Vec::new();
        core::mem::swap(&mut self.last_geometries_2d, &mut taken_last);
        let last = SceneData {
            geometries: taken_last,
            preferred_view: self.last_preferred_view,
            background_color: self.last_preferred_background_color,
        };
        let changed = !scene_eq(&scene, &last);
        if changed {
            let kept = scene.clone();
            mailbox.publish(scene);
            self.last_geometries_2d = kept.geometries;
            self.last_preferred_view = kept.preferred_view;
            self.last_preferred_background_color = kept.background_color;
            true
        } else {
            self.last_geometries_2d = last.geometries;
            false
        }
    }

    /// Decides whether the visualiser is still open from the shared closed
    /// flag, as far as it is still observable: open exactly when the flag
    /// can be read and reads false.
    pub fn is_open(observed_closed: Option<bool>) -> (r: bool)
        ensures
            r == (observed_closed == Some(false)),
    {
        match observed_closed {
            Some(closed) => !closed,
            None => false,
        }
    }

    /// Requests the visualiser to close: the first call hands the join
    /// duty to the caller, every later call is a successful no-op.
    pub fn close(&mut self) -> (do_join: bool)
        ensures
            (do_join, final(self).joinable()) == close_step(old(self).joinable()),
            final(self).last_scene() == old(self).last_scene(),
    {
        let j = self.joinable;
        self.joinable = false;
        j
    }
}

/// Law: rendering the same scene twice publishes exactly once — whatever
/// the first hand-off did, the second one with an identical scene neither
/// publishes nor changes the slot.
pub proof fn lemma_render_dedup_publishes_once(
    last: SpecSceneData,
    slot: Option<SpecSceneData>,
    scene: SpecSceneData,
)
    ensures
        ({
            let (last1, slot1, p1) = render_step(last, slot, scene);
            let (last2, slot2, p2) = render_step(last1, slot1, scene);
            &&& !p2
            &&& slot2 == slot1
            &&& last2 == last1
            &&& (p1 <==> scene != last)
        }),
{
}

/// Law: closing twice joins at most once — the second close never hands
/// out the join duty, so both calls return success.
pub proof fn lemma_close_idempotent(joinable: bool)
    ensures
        !close_step(close_step(joinable).1).0,
        close_step(close_step(joinable).1).1 == false,
{
}

/// The render loop's working state: the scene it is currently showing,
/// with its viewport preference and background. The loop primes it from
/// the mailbox once on startup and replaces it whenever a take yields a
/// newer scene.
pub struct RenderLoopState {
    scene: SceneData,
}

impl View for RenderLoopState {
    type V = SpecSceneData;

    closed spec fn view(&self) -> SpecSceneData {
        self.scene@
    }
}

impl RenderLoopState {
    /// Primes the state from the first mailbox take, falling back to the
    /// empty scene when nothing was published yet.
    pub fn new(taken: Option<SceneData>) -> (s: Self)
        ensures
            s@ == match taken {
                Some(d) => d@,
                None => spec_empty_scene(),
            },
    {
        match taken {
            Some(d) => RenderLoopState { scene: d },
            None => RenderLoopState { scene: SceneData::empty() },
        }
    }

    /// Replaces the held scene when a newer one was taken; keeps it
    /// otherwise.
    pub fn absorb(&mut self, taken: Option<SceneData>)
        ensures
            final(self)@ == match taken {
                Some(d) => d@,
                None => old(self)@,
            },
    {
        match taken {
            Some(d) => {
                self.scene = d;
            },
            None => {},
        }
    }

    /// The source of every image node in the held scene, in order: what
    /// the frame marks or loads in the texture cache before drawing.
    pub fn texture_sources(&self) -> (r: Vec<crate::geometry::TextureSource>)
        ensures
            spec_source_seq(r@) == spec_sources_of_seq(self@.geometries),
    {
        collect_texture_sources(&self.scene.geometries)
    }

    /// Plans one frame of the held scene against the cache and surface.
    pub fn frame<T>(&self, texture_buffer: &TextureBuffer<T>, sw: u32, sh: u32) -> (plan:
        FramePlan)
        requires
            texture_buffer.wf(),
        ensures
            plan@ == spec_plan_frame(self@, texture_buffer@.dom(), sw, sh),
    {
        render(&self.scene, texture_buffer, sw, sh)
    }
}

} // verus!
