use gymnarium_visualisers_piston::geometry::{
    bytes_eq, geometry_eq, texture_source_eq, Color, Geometry2D, Position2D, TextureSource,
};
use gymnarium_visualisers_piston::mailbox::SceneData;
use gymnarium_visualisers_piston::renderer::{render, DrawCommand};
use gymnarium_visualisers_piston::scalar::Frac;
use gymnarium_visualisers_piston::texture::TextureBuffer;
use gymnarium_visualisers_piston::visualiser::FurtherPistonVisualiserError;

fn f(n: i64) -> Frac {
    Frac::from_int(n)
}

fn path_source(name: &str) -> TextureSource {
    TextureSource::Path(String::from(name))
}

fn image_of(source: TextureSource) -> Geometry2D {
    Geometry2D::Image {
        center_position: Position2D { x: f(0), y: f(0) },
        size: gymnarium_visualisers_piston::geometry::Size2D { width: f(1), height: f(1) },
        texture_source: source,
        source_rectangle: None,
        fill_color: None,
        transformations: Vec::new(),
    }
}

#[test]
fn cache_serves_what_was_loaded() {
    let mut cache: TextureBuffer<u32> = TextureBuffer::new(180);
    let source = path_source("a.png");
    assert!(cache.needs_load(&source));
    cache.load_or_mark_use(path_source("a.png"), Some(7));
    assert!(!cache.needs_load(&source));
    assert_eq!(cache.get(&source), Some(&7));
    assert_eq!(cache.get(&path_source("b.png")), None);
}

#[test]
fn cache_entry_referenced_once_evicts_after_exactly_the_lease() {
    let mut cache: TextureBuffer<u32> = TextureBuffer::new(3);
    let source = path_source("a.png");
    cache.load_or_mark_use(path_source("a.png"), Some(7));
    cache.decrease_and_drop();
    assert_eq!(cache.get(&source), Some(&7), "alive after 1 of 3 decays");
    cache.decrease_and_drop();
    assert_eq!(cache.get(&source), Some(&7), "alive after 2 of 3 decays");
    cache.decrease_and_drop();
    assert_eq!(cache.get(&source), None, "evicted by the 3rd decay");
}

#[test]
fn cache_entry_referenced_every_frame_never_evicts() {
    let mut cache: TextureBuffer<u32> = TextureBuffer::new(3);
    let source = path_source("a.png");
    cache.load_or_mark_use(path_source("a.png"), Some(7));
    for frame in 0..10 {
        cache.decrease_and_drop();
        assert_eq!(cache.get(&source), Some(&7), "alive in frame {}", frame);
        assert!(!cache.needs_load(&source));
        cache.load_or_mark_use(path_source("a.png"), None);
    }
}

#[test]
fn cache_lease_is_at_least_one_frame() {
    let mut cache: TextureBuffer<u32> = TextureBuffer::new(0);
    let source = path_source("a.png");
    cache.load_or_mark_use(path_source("a.png"), Some(1));
    assert_eq!(cache.get(&source), Some(&1));
    cache.decrease_and_drop();
    assert_eq!(cache.get(&source), None);
}

#[test]
fn cache_decay_only_touches_leases_not_other_entries() {
    let mut cache: TextureBuffer<u32> = TextureBuffer::new(2);
    cache.load_or_mark_use(path_source("a.png"), Some(1));
    cache.decrease_and_drop();
    cache.load_or_mark_use(path_source("b.png"), Some(2));
    cache.decrease_and_drop();
    // "a" spent its two frames, "b" only one of them.
    assert_eq!(cache.get(&path_source("a.png")), None);
    assert_eq!(cache.get(&path_source("b.png")), Some(&2));
}

#[test]
fn frame_skips_and_reports_unloaded_textures() {
    let mut cache: TextureBuffer<u32> = TextureBuffer::new(180);
    cache.load_or_mark_use(path_source("loaded.png"), Some(1));
    let scene = SceneData {
        geometries: vec![image_of(path_source("loaded.png")), image_of(path_source("missing.png"))],
        preferred_view: None,
        background_color: None,
    };
    let plan = render(&scene, &cache, 800, 600);
    assert_eq!(plan.commands.len(), 1);
    match &plan.commands[0] {
        DrawCommand::Image { texture_source, .. } => {
            assert!(texture_source_eq(texture_source, &path_source("loaded.png")));
        }
        other => panic!("expected the loaded image, got {:?}", other),
    }
    assert_eq!(plan.missing_textures.len(), 1);
    assert!(texture_source_eq(&plan.missing_textures[0], &path_source("missing.png")));
}

#[test]
fn texture_sources_compare_by_content() {
    assert!(texture_source_eq(&path_source("a.png"), &path_source("a.png")));
    assert!(!texture_source_eq(&path_source("a.png"), &path_source("b.png")));
    let bytes_a = TextureSource::Bytes { data: vec![1, 2, 3], width: 1, height: 3 };
    let bytes_b = TextureSource::Bytes { data: vec![1, 2, 3], width: 1, height: 3 };
    let bytes_c = TextureSource::Bytes { data: vec![1, 2, 4], width: 1, height: 3 };
    assert!(texture_source_eq(&bytes_a, &bytes_b));
    assert!(!texture_source_eq(&bytes_a, &bytes_c));
    assert!(!texture_source_eq(&bytes_a, &path_source("a.png")));
    assert!(bytes_eq(&vec![9, 9], &vec![9, 9]));
    assert!(!bytes_eq(&vec![9, 9], &vec![9]));
}

#[test]
fn geometry_equality_is_structural_and_deep() {
    let a = Geometry2D::Group {
        elements: vec![image_of(path_source("a.png"))],
        transformations: Vec::new(),
    };
    let b = Geometry2D::Group {
        elements: vec![image_of(path_source("a.png"))],
        transformations: Vec::new(),
    };
    let c = Geometry2D::Group {
        elements: vec![image_of(path_source("c.png"))],
        transformations: Vec::new(),
    };
    let empty = Geometry2D::Group { elements: Vec::new(), transformations: Vec::new() };
    assert!(geometry_eq(&a, &b));
    assert!(!geometry_eq(&a, &c));
    assert!(!geometry_eq(&a, &empty));
}

#[test]
fn geometry_clone_preserves_structure() {
    let original = Geometry2D::Group {
        elements: vec![
            image_of(TextureSource::Bytes { data: vec![5, 6], width: 2, height: 1 }),
            Geometry2D::Point {
                position: Position2D { x: f(1), y: f(2) },
                color: Color { r: 1, g: 2, b: 3, a: 4 },
                transformations: Vec::new(),
            },
        ],
        transformations: Vec::new(),
    };
    let copy = original.clone();
    assert!(geometry_eq(&original, &copy));
}

#[test]
fn frac_comparisons_follow_the_ratios() {
    assert!(Frac::new(1, 2).lt(&Frac::new(2, 3)));
    assert!(!Frac::new(2, 3).lt(&Frac::new(1, 2)));
    assert!(Frac::new(1, 2).le(&Frac::new(2, 4)));
    assert!(Frac::new(2, 4).le(&Frac::new(1, 2)));
    assert!(Frac::new(1, 1).is_positive());
    assert!(!Frac::new(-1, 1).is_positive());
}

#[test]
fn environment_errors_wrap_into_the_rendering_variant() {
    let wrapped: FurtherPistonVisualiserError<&str> = FurtherPistonVisualiserError::from("boom");
    assert!(matches!(
        wrapped,
        FurtherPistonVisualiserError::RenderingEnvironmentError("boom")
    ));
    let locking: FurtherPistonVisualiserError<&str> =
        FurtherPistonVisualiserError::LockingFailedInternally(String::from("poisoned"));
    assert!(matches!(
        locking,
        FurtherPistonVisualiserError::LockingFailedInternally(_)
    ));
}

#[test]
fn cache_reference_rearms_the_full_lease() {
    let mut cache: TextureBuffer<u32> = TextureBuffer::new(3);
    let source = path_source("a.png");
    cache.load_or_mark_use(path_source("a.png"), Some(7));
    cache.decrease_and_drop();
    // Re-marking does not merely add a frame: it re-arms the lease to its
    // full three frames.
    cache.load_or_mark_use(path_source("a.png"), None);
    cache.decrease_and_drop();
    cache.decrease_and_drop();
    assert_eq!(cache.get(&source), Some(&7), "alive for two frames after the re-arm");
    cache.decrease_and_drop();
    assert_eq!(cache.get(&source), None, "evicted three frames after the re-arm");
}
