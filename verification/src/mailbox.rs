use vstd::prelude::*;

use crate::geometry::{
    clone_geometries, geometries_eq, Color, Geometry2D, SpecGeometry, spec_geometry_seq,
};
use crate::viewport::{Viewport2D, Viewport2DModification};

verus! {

/// One frame's worth of producer output: the scene's geometry list, the
/// optionally preferred viewport and fit policy, and the optional
/// background color (absent means "do not clear").
#[derive(Debug)]
pub struct SceneData {
    pub geometries: Vec<Geometry2D>,
    pub preferred_view: Option<(Viewport2D, Viewport2DModification)>,
    pub background_color: Option<Color>,
}

/// The mathematical value of a `SceneData`.
pub struct SpecSceneData {
    pub geometries: Seq<SpecGeometry>,
    pub preferred_view: Option<(Viewport2D, Viewport2DModification)>,
    pub background_color: Option<Color>,
}

impl View for SceneData {
    type V = SpecSceneData;

    open spec fn view(&self) -> SpecSceneData {
        SpecSceneData {
            geometries: spec_geometry_seq(self.geometries@),
            preferred_view: self.preferred_view,
            background_color: self.background_color,
        }
    }
}

/// The scene a render loop starts from before anything is published: no
/// geometry, no viewport preference, no background.
pub open spec fn spec_empty_scene() -> SpecSceneData {
    SpecSceneData {
        geometries: Seq::empty(),
        preferred_view: None,
        background_color: None,
    }
}

impl SceneData {
    /// The empty scene.
    pub fn empty() -> (s: SceneData)
        ensures
            s@ == spec_empty_scene(),
    {
        SceneData { geometries: Vec::new(), preferred_view: None, background_color: None }
    }
}

impl Clone for SceneData {
    /// A clone carries the same mathematical value.
    fn clone(&self) -> (r: Self)
        ensures
            r@ == self@,
    {
        SceneData {
            geometries: clone_geometries(&self.geometries),
            preferred_view: self.preferred_view,
            background_color: self.background_color,
        }
    }
}

/// Equality of two optional viewport preferences.
pub fn preferred_view_eq(
    a: &Option<(Viewport2D, Viewport2DModification)>,
    b: &Option<(Viewport2D, Viewport2DModification)>,
) -> (r: bool)
    ensures
        r == (a == b),
{
    match (a, b) {
        (None, None) => true,
        (Some((va, ma)), Some((vb, mb))) => *va == *vb && *ma == *mb,
        _ => false,
    }
}

/// Equality of two optional background colors.
pub fn background_color_eq(a: &Option<Color>, b: &Option<Color>) -> (r: bool)
    ensures
        r == (a == b),
{
    match (a, b) {
        (None, None) => true,
        (Some(ca), Some(cb)) => *ca == *cb,
        _ => false,
    }
}

/// Structural equality of two scenes: the deduplication relation the
/// producer applies before publishing.
pub fn scene_eq(a: &SceneData, b: &SceneData) -> (r: bool)
    ensures
        r == (a@ == b@),
{
    geometries_eq(&a.geometries, &b.geometries) && preferred_view_eq(
        &a.preferred_view,
        &b.preferred_view,
    ) && background_color_eq(&a.background_color, &b.background_color)
}

/// The mathematical value of an optional scene.
pub open spec fn spec_scene_opt(o: Option<SceneData>) -> Option<SpecSceneData> {
    match o {
        Some(s) => Some(s@),
        None => None,
    }
}

/// What a publish leaves in the slot: the new scene, whatever was there.
pub open spec fn publish_spec(slot: Option<SpecSceneData>, d: SpecSceneData) -> Option<
    SpecSceneData,
> {
    Some(d)
}

/// What a take observes and what it leaves behind: the whole slot, and an
/// empty slot.
pub open spec fn take_spec(slot: Option<SpecSceneData>) -> (Option<SpecSceneData>, Option<
    SpecSceneData,
>) {
    (slot, None)
}

/// The single-slot scene mailbox: the producer overwrites it, the render
/// loop empties it. At most one scene is ever pending; an unread scene is
/// replaced whole, never queued and never mixed with a newer one.
///
/// The slot itself is a sequential value; the render loop and the producer
/// share it under a mutual-exclusion lock owned by the embedding program.
#[derive(Debug)]
pub struct Mailbox {
    slot: Option<SceneData>,
}

impl View for Mailbox {
    type V = Option<SpecSceneData>;

    closed spec fn view(&self) -> Option<SpecSceneData> {
        spec_scene_opt(self.slot)
    }
}

impl Mailbox {
    /// A fresh mailbox holds the empty scene, so a render loop that starts
    /// before the first publish still primes itself.
    pub fn new() -> (m: Mailbox)
        ensures
            m@ == Some(spec_empty_scene()),
    {
        Mailbox { slot: Some(SceneData::empty()) }
    }

    /// Overwrites the slot with `data`, whatever it held.
    pub fn publish(&mut self, data: SceneData)
        ensures
            final(self)@ == publish_spec(old(self)@, data@),
    {
        self.slot = Some(data);
    }

    /// Empties the slot and hands back what it held, if anything.
    pub fn try_take(&mut self) -> (r: Option<SceneData>)
        ensures
            spec_scene_opt(r) == take_spec(old(self)@).0,
            final(self)@ == take_spec(old(self)@).1,
    {
        self.slot.take()
    }
}

/// Law: when two publishes complete before any take, the take observes the
/// second one and only it, and leaves the slot empty; a take on an empty
/// slot observes nothing.
pub proof fn lemma_mailbox_last_writer_wins(
    slot: Option<SpecSceneData>,
    a: SpecSceneData,
    b: SpecSceneData,
)
    ensures
        take_spec(publish_spec(publish_spec(slot, a), b)).0 == Some(b),
        take_spec(publish_spec(publish_spec(slot, a), b)).1 == None::<SpecSceneData>,
        take_spec(None::<SpecSceneData>).0 == None::<SpecSceneData>,
{
}

} // verus!
