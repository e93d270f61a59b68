use iced_toasts::alignment::{Horizontal, Vertical};
use iced_toasts::stack::{self, is_over, layout};
use iced_toasts::toast::Level;
use iced_toasts::{Point, Size, StackConfiguration, ToastStore};

fn cfg_plain() -> StackConfiguration {
    StackConfiguration::new().padding(0).spacing(5).min_height(20)
}

#[test]
fn empty_store_yields_empty_layout() {
    let sizes: Vec<Size> = Vec::new();
    let placements = layout(
        &sizes,
        &StackConfiguration::new(),
        Size { width: 800, height: 600 },
        Point { x: 0, y: 0 },
    );
    assert!(placements.is_empty());
}

#[test]
fn bottom_alignment_places_newest_nearest_bottom_edge() {
    let sizes = vec![
        Size { width: 100, height: 60 },
        Size { width: 100, height: 60 },
        Size { width: 100, height: 60 },
    ];
    let cfg = cfg_plain();
    let placements = layout(&sizes, &cfg, Size { width: 200, height: 600 }, Point { x: 0, y: 0 });
    assert_eq!(placements.len(), 3);
    // placements come newest first: the newest touches the bottom edge
    assert_eq!(placements[0].y + placements[0].height, 600);
    assert_eq!(placements[1].y + placements[1].height, 535);
    assert_eq!(placements[2].y + placements[2].height, 470);
}

#[test]
fn top_alignment_places_newest_nearest_top_edge() {
    let sizes = vec![Size { width: 100, height: 60 }, Size { width: 100, height: 40 }];
    let cfg = cfg_plain().alignment_y(Vertical::Top).padding(10);
    let placements = layout(&sizes, &cfg, Size { width: 200, height: 600 }, Point { x: 0, y: 0 });
    assert_eq!(placements.len(), 2);
    // newest (the 40-high toast) sits right under the padded top edge
    assert_eq!(placements[0].y, 10);
    assert_eq!(placements[0].height, 40);
    assert_eq!(placements[1].y, 55);
    assert_eq!(placements[1].height, 60);
}

#[test]
fn overflow_skips_oldest_but_keeps_them_active() {
    // container height fits exactly 2 of 3 toasts of height 60 with spacing 5
    let mut store: ToastStore<u32> = ToastStore::new();
    let _ = store.push(Level::Info, None, "oldest".to_string(), None, 1, 0, 5000);
    let _ = store.push(Level::Info, None, "mid".to_string(), None, 2, 0, 5000);
    let _ = store.push(Level::Info, None, "newest".to_string(), None, 3, 0, 5000);
    let sizes: Vec<Size> = store.active().iter().map(|_| Size { width: 100, height: 60 }).collect();
    let cfg = cfg_plain();
    let placements = layout(&sizes, &cfg, Size { width: 200, height: 125 }, Point { x: 0, y: 0 });
    assert_eq!(placements.len(), 2);
    // the two placed ones are the two most recently pushed
    assert_eq!(placements[0].y, 65);
    assert_eq!(placements[1].y, 0);
    // the oldest toast was skipped, not dropped: still active, still expires
    assert_eq!(store.active().len(), 3);
    assert_eq!(store.active()[0].message, "oldest");
    let tokens = store.expire(5000);
    assert_eq!(tokens, vec![1, 2, 3]);
}

#[test]
fn measured_sizes_are_clamped_to_caps() {
    let sizes = vec![Size { width: 900, height: 900 }];
    let cfg = StackConfiguration::new().padding(0).max_width(500).max_height(240).min_height(1);
    let placements = layout(&sizes, &cfg, Size { width: 1000, height: 1000 }, Point { x: 0, y: 0 });
    assert_eq!(placements.len(), 1);
    assert_eq!(placements[0].width, 500);
    assert_eq!(placements[0].height, 240);
}

#[test]
fn horizontal_alignment_anchors_within_container() {
    let sizes = vec![Size { width: 100, height: 60 }];
    let container = Size { width: 400, height: 300 };
    let origin = Point { x: 50, y: 20 };
    let left = layout(
        &sizes,
        &cfg_plain().padding(5).alignment_x(Horizontal::Left),
        container,
        origin,
    );
    assert_eq!(left[0].x, 55);
    let center = layout(
        &sizes,
        &cfg_plain().padding(5).alignment_x(Horizontal::Center),
        container,
        origin,
    );
    assert_eq!(center[0].x, 50 + 150);
    let right = layout(
        &sizes,
        &cfg_plain().padding(5).alignment_x(Horizontal::Right),
        container,
        origin,
    );
    assert_eq!(right[0].x, 50 + 400 - 5 - 100);
}

#[test]
fn container_too_small_for_one_toast_yields_nothing() {
    let sizes = vec![Size { width: 100, height: 60 }];
    let cfg = cfg_plain().min_height(30);
    let placements = layout(&sizes, &cfg, Size { width: 200, height: 25 }, Point { x: 0, y: 0 });
    assert!(placements.is_empty());
}

#[test]
fn placements_are_translated_by_origin() {
    let sizes = vec![Size { width: 100, height: 60 }];
    let cfg = cfg_plain().alignment_y(Vertical::Top).alignment_x(Horizontal::Left).padding(0);
    let placements = layout(&sizes, &cfg, Size { width: 200, height: 300 }, Point { x: 30, y: 40 });
    assert_eq!(placements[0].x, 30);
    assert_eq!(placements[0].y, 40);
}

#[test]
fn is_over_detects_pointer_in_any_placement() {
    let sizes = vec![Size { width: 100, height: 60 }, Size { width: 100, height: 60 }];
    let cfg = cfg_plain();
    let placements = layout(&sizes, &cfg, Size { width: 200, height: 600 }, Point { x: 0, y: 0 });
    // inside the newest toast
    assert!(is_over(&placements, Point { x: 150, y: 580 }));
    // inside the older toast
    assert!(is_over(&placements, Point { x: 150, y: 500 }));
    // in the spacing gap between them
    assert!(!is_over(&placements, Point { x: 150, y: 537 }));
    // outside the stack entirely
    assert!(!is_over(&placements, Point { x: 10, y: 10 }));
}

#[test]
fn tick_hover_extends_before_expiry_check() {
    let mut store: ToastStore<u32> = ToastStore::new();
    let _ = store.push(Level::Info, None, "read me".to_string(), None, 7, 0, 1000);
    let sizes = vec![Size { width: 100, height: 60 }];
    let cfg = cfg_plain();
    let container = Size { width: 200, height: 600 };
    let placements = layout(&sizes, &cfg, container, Point { x: 0, y: 0 });
    // at the very instant the toast would expire, the pointer rests on it:
    // the extension must win over the expiry check of the same tick
    let over = Point { x: 150, y: 580 };
    let tokens = store.tick(&placements, Some(over), 1000, 2000);
    assert!(tokens.is_empty());
    assert_eq!(store.active().len(), 1);
    assert_eq!(store.active()[0].expiry, 3000);
    // next tick without hover, past the extended expiry: now it goes
    let tokens = store.tick(&placements, None, 3000, 2000);
    assert_eq!(tokens, vec![7]);
    assert!(store.active().is_empty());
}

#[test]
fn tick_without_pointer_only_expires() {
    let mut store: ToastStore<u32> = ToastStore::new();
    let _ = store.push(Level::Info, None, "a".to_string(), None, 1, 0, 1000);
    let _ = store.push(Level::Info, None, "b".to_string(), None, 2, 0, 5000);
    let placements = Vec::new();
    let tokens = store.tick(&placements, None, 1500, 2000);
    assert_eq!(tokens, vec![1]);
    assert_eq!(store.active().len(), 1);
}

#[test]
fn configuration_builders_replace_single_fields() {
    let cfg = StackConfiguration::new();
    assert!(matches!(cfg.alignment_x, Horizontal::Right));
    assert!(matches!(cfg.alignment_y, Vertical::Bottom));
    assert_eq!(cfg.padding, 5);
    assert_eq!(cfg.spacing, 5);
    assert_eq!(cfg.max_width, 500);
    assert_eq!(cfg.max_height, 240);
    assert_eq!(cfg.min_height, 1);
    let cfg = cfg
        .alignment_x(Horizontal::Left)
        .alignment_y(Vertical::Top)
        .padding(8)
        .spacing(12)
        .max_width(600)
        .max_height(300)
        .min_height(40);
    assert!(matches!(cfg.alignment_x, Horizontal::Left));
    assert!(matches!(cfg.alignment_y, Vertical::Top));
    assert_eq!(cfg.padding, 8);
    assert_eq!(cfg.spacing, 12);
    assert_eq!(cfg.max_width, 600);
    assert_eq!(cfg.max_height, 300);
    assert_eq!(cfg.min_height, 40);
}

#[test]
fn stack_module_reachable_through_crate_root() {
    let sizes: Vec<Size> = Vec::new();
    let placements = stack::layout(
        &sizes,
        &StackConfiguration::new(),
        Size { width: 100, height: 100 },
        Point { x: 0, y: 0 },
    );
    assert_eq!(placements.len(), 0);
}
