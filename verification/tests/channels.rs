use gymnarium_visualisers_piston::geometry::{Color, Geometry2D, Position2D, Size2D, Transformation2D};
use gymnarium_visualisers_piston::viewport::{Viewport2D, Viewport2DModification};
use gymnarium_visualisers_piston::mailbox::{scene_eq, Mailbox, SceneData};
use gymnarium_visualisers_piston::input::PistonVisualiserInputProvider;
use gymnarium_visualisers_piston::scalar::Frac;
use gymnarium_visualisers_piston::visualiser::VisualiserCore;

fn point_at(n: i64) -> Geometry2D {
    Geometry2D::Point {
        position: Position2D { x: Frac::from_int(n), y: Frac::from_int(n) },
        color: Color { r: 255, g: 0, b: 0, a: 255 },
        transformations: Vec::new(),
    }
}

fn scene_with_point(n: i64) -> SceneData {
    SceneData {
        geometries: vec![point_at(n)],
        preferred_view: None,
        background_color: None,
    }
}

#[test]
fn mailbox_starts_primed_with_empty_scene() {
    let mut mailbox = Mailbox::new();
    let first = mailbox.try_take();
    assert!(first.is_some());
    let scene = first.unwrap();
    assert!(scene.geometries.is_empty());
    assert!(scene.preferred_view.is_none());
    assert!(scene.background_color.is_none());
}

#[test]
fn mailbox_take_on_empty_slot_yields_empty() {
    let mut mailbox = Mailbox::new();
    let _ = mailbox.try_take();
    assert!(mailbox.try_take().is_none());
    assert!(mailbox.try_take().is_none());
}

#[test]
fn mailbox_last_writer_wins() {
    let mut mailbox = Mailbox::new();
    let _ = mailbox.try_take();
    mailbox.publish(scene_with_point(1));
    mailbox.publish(scene_with_point(2));
    let observed = mailbox.try_take().expect("second publish must be observable");
    assert!(scene_eq(&observed, &scene_with_point(2)));
    assert!(!scene_eq(&observed, &scene_with_point(1)));
    assert!(mailbox.try_take().is_none());
}

#[test]
fn queue_pop_all_preserves_fifo_order() {
    let mut queue: PistonVisualiserInputProvider<i32> = PistonVisualiserInputProvider::new();
    queue.push_back(1);
    queue.push_back(2);
    queue.push_back(3);
    let drained = queue.pop_all();
    assert_eq!(drained, vec![1, 2, 3]);
    assert!(queue.pop_all().is_empty());
    assert!(queue.pop().is_none());
}

#[test]
fn queue_clear_leaves_no_residual_elements() {
    let mut queue: PistonVisualiserInputProvider<i32> = PistonVisualiserInputProvider::new();
    queue.push_back(10);
    queue.push_back(20);
    queue.clear();
    assert!(queue.peek().is_none());
    assert!(queue.pop().is_none());
    assert!(queue.pop_all().is_empty());
}

#[test]
fn queue_peek_and_pop_see_the_front() {
    let mut queue: PistonVisualiserInputProvider<i32> = PistonVisualiserInputProvider::default();
    queue.push_back(7);
    queue.push_back(8);
    assert_eq!(queue.peek(), Some(&7));
    assert_eq!(queue.pop(), Some(7));
    assert_eq!(queue.pop(), Some(8));
    assert_eq!(queue.pop(), None);
}

#[test]
fn render_dedup_publishes_identical_scene_once() {
    let mut core = VisualiserCore::new();
    let mut mailbox = Mailbox::new();
    let _ = mailbox.try_take();
    let first = core.render_two_dimensional(vec![point_at(3)], None, None, &mut mailbox);
    assert!(first);
    assert!(mailbox.try_take().is_some());
    let second = core.render_two_dimensional(vec![point_at(3)], None, None, &mut mailbox);
    assert!(!second);
    assert!(mailbox.try_take().is_none());
}

#[test]
fn render_publishes_again_when_the_scene_changes() {
    let mut core = VisualiserCore::new();
    let mut mailbox = Mailbox::new();
    let _ = mailbox.try_take();
    assert!(core.render_two_dimensional(vec![point_at(3)], None, None, &mut mailbox));
    assert!(core.render_two_dimensional(vec![point_at(4)], None, None, &mut mailbox));
    let observed = mailbox.try_take().expect("the newer scene must be pending");
    assert_eq!(observed.geometries.len(), 1);
}

#[test]
fn render_skips_publish_of_initial_empty_scene() {
    let mut core = VisualiserCore::new();
    let mut mailbox = Mailbox::new();
    let _ = mailbox.try_take();
    let published = core.render_two_dimensional(Vec::new(), None, None, &mut mailbox);
    assert!(!published);
    assert!(mailbox.try_take().is_none());
}

#[test]
fn close_twice_joins_at_most_once() {
    let mut core = VisualiserCore::new();
    let first = core.close();
    let second = core.close();
    assert!(first);
    assert!(!second);
    let third = core.close();
    assert!(!third);
}

#[test]
fn is_open_follows_the_observed_flag() {
    assert!(VisualiserCore::is_open(Some(false)));
    assert!(!VisualiserCore::is_open(Some(true)));
    assert!(!VisualiserCore::is_open(None));
}

#[test]
fn render_normalizes_the_scene_into_the_canonical_window() {
    let mut core = VisualiserCore::new();
    let mut mailbox = Mailbox::new();
    let _ = mailbox.try_take();
    let viewport = Viewport2D {
        center: Position2D { x: Frac::from_int(1), y: Frac::from_int(1) },
        size: Size2D { width: Frac::from_int(4), height: Frac::from_int(2) },
    };
    let published = core.render_two_dimensional(
        vec![point_at(0)],
        Some((viewport, Viewport2DModification::KeepAspectRatio)),
        None,
        &mut mailbox,
    );
    assert!(published);
    let scene = mailbox.try_take().expect("the scene must be pending");
    assert_eq!(scene.geometries.len(), 1);
    match &scene.geometries[0] {
        Geometry2D::Point { transformations, .. } => {
            assert_eq!(
                *transformations,
                vec![
                    Transformation2D::Translation {
                        x: Frac { num: -1, den: 1 },
                        y: Frac { num: -1, den: 1 },
                    },
                    // The canonical window is 2 by 2, so the scale pair is
                    // (2/4, 2/2), carried exactly.
                    Transformation2D::Scale {
                        x: Frac { num: 2, den: 4 },
                        y: Frac { num: 2, den: 2 },
                    },
                    Transformation2D::Translation {
                        x: Frac { num: 0, den: 1 },
                        y: Frac { num: 0, den: 1 },
                    },
                ]
            );
        }
        other => panic!("expected the point, got {:?}", other),
    }
    assert!(scene.preferred_view.is_some());
}
