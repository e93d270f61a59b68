use vstd::prelude::*;

use crate::alignment::{Horizontal, Vertical};

verus! {

/// A width and height in whole pixels.
#[derive(Copy, Clone, Debug, PartialEq, Eq, Structural)]
pub struct Size {
    pub width: u64,
    pub height: u64,
}

/// An absolute position in whole pixels.
#[derive(Copy, Clone, Debug, PartialEq, Eq, Structural)]
pub struct Point {
    pub x: u64,
    pub y: u64,
}

/// The rectangle a rendered toast is given on screen.
#[derive(Copy, Clone, Debug, PartialEq, Eq, Structural)]
pub struct Placement {
    pub x: u64,
    pub y: u64,
    pub width: u64,
    pub height: u64,
}

/// How the toast stack is arranged within its container.
#[derive(Copy, Clone, Debug, PartialEq, Eq, Structural)]
pub struct StackConfiguration {
    /// Horizontal anchoring of each toast within the container.
    pub alignment_x: Horizontal,
    /// Vertical edge the stack grows away from.
    pub alignment_y: Vertical,
    /// Space kept between the stack and the container's edges.
    pub padding: u64,
    /// Space kept between two rendered toasts.
    pub spacing: u64,
    /// Upper bound a toast's measured width is clamped to.
    pub max_width: u64,
    /// Upper bound a toast's measured height is clamped to.
    pub max_height: u64,
    /// A toast allotted less height than this is not rendered at all.
    pub min_height: u64,
}

/// The measured width clamped to the configured cap.
pub open spec fn clamped_width(s: Size, cfg: StackConfiguration) -> u64 {
    if s.width <= cfg.max_width {
        s.width
    } else {
        cfg.max_width
    }
}

/// The measured height clamped to the configured cap.
pub open spec fn clamped_height(s: Size, cfg: StackConfiguration) -> u64 {
    if s.height <= cfg.max_height {
        s.height
    } else {
        cfg.max_height
    }
}

/// The vertical extent left for toasts once the padding at both edges is
/// taken out of the container.
pub open spec fn stack_avail(container: Size, cfg: StackConfiguration) -> int {
    if container.height >= cfg.padding + cfg.padding {
        container.height - cfg.padding - cfg.padding
    } else {
        0
    }
}

/// The horizontal position of a toast of clamped width `width`, anchored
/// within the container width by the configured alignment.  A toast wider
/// than the container falls back to the container's own left edge.
pub open spec fn placed_x(width: u64, container: Size, origin: Point, cfg: StackConfiguration) -> int {
    match cfg.alignment_x {
        Horizontal::Left => origin.x + (if cfg.padding <= container.width {
            cfg.padding as int
        } else {
            container.width as int
        }),
        Horizontal::Center => if width <= container.width {
            origin.x + (container.width - width) / 2
        } else {
            origin.x as int
        },
        Horizontal::Right => if cfg.padding + width <= container.width {
            origin.x + container.width - cfg.padding - width
        } else {
            origin.x as int
        },
    }
}

/// The vertical position of a toast allotted `allotted` pixels whose running
/// offset from the anchored edge is `offset`: measured down from the top
/// edge for `Top`, up from the bottom edge for `Bottom`.
pub open spec fn placed_y(
    offset: int,
    allotted: int,
    container: Size,
    origin: Point,
    cfg: StackConfiguration,
) -> int {
    match cfg.alignment_y {
        Vertical::Top => origin.y + cfg.padding + offset,
        Vertical::Bottom => origin.y + container.height - cfg.padding - offset - allotted,
    }
}

/// The placements produced by walking `sizes` from index `i` downward (that
/// is, from newest to oldest), with `offset` pixels of the stack already
/// taken.  Placement stops at the first toast whose allotted height falls
/// under the configured minimum; later toasts are not placed at all.
pub open spec fn spec_stack(
    sizes: Seq<Size>,
    cfg: StackConfiguration,
    container: Size,
    origin: Point,
    i: int,
    offset: int,
) -> Seq<Placement>
    decreases i + 1,
{
    if i < 0 {
        Seq::empty()
    } else {
        let w = clamped_width(sizes[i], cfg);
        let h = clamped_height(sizes[i], cfg);
        let avail = stack_avail(container, cfg);
        let remaining = if offset < avail {
            avail - offset
        } else {
            0
        };
        let allotted = if h <= remaining {
            h as int
        } else {
            remaining
        };
        if remaining <= 0 || allotted < cfg.min_height {
            Seq::empty()
        } else {
            seq![
                (Placement {
                    x: placed_x(w, container, origin, cfg) as u64,
                    y: placed_y(offset, allotted, container, origin, cfg) as u64,
                    width: w,
                    height: allotted as u64,
                }),
            ] + spec_stack(sizes, cfg, container, origin, i - 1, offset + allotted + cfg.spacing)
        }
    }
}

/// The full arrangement: newest toast first, anchored to the configured
/// edge, already translated by the container's on-screen origin.
pub open spec fn spec_layout(
    sizes: Seq<Size>,
    cfg: StackConfiguration,
    container: Size,
    origin: Point,
) -> Seq<Placement> {
    spec_stack(sizes, cfg, container, origin, sizes.len() - 1, 0)
}

impl StackConfiguration {
    /// The default arrangement: anchored to the bottom right corner.
    pub fn new() -> (cfg: StackConfiguration)
        ensures
            cfg == (StackConfiguration {
                alignment_x: Horizontal::Right,
                alignment_y: Vertical::Bottom,
                padding: 5,
                spacing: 5,
                max_width: 500,
                max_height: 240,
                min_height: 1,
            }),
    {
        StackConfiguration {
            alignment_x: Horizontal::Right,
            alignment_y: Vertical::Bottom,
            padding: 5,
            spacing: 5,
            max_width: 500,
            max_height: 240,
            min_height: 1,
        }
    }

    /// Replaces the horizontal anchoring.
    pub fn alignment_x(self, alignment: Horizontal) -> (cfg: StackConfiguration)
        ensures
            cfg == (StackConfiguration { alignment_x: alignment, ..self }),
    {
        StackConfiguration { alignment_x: alignment, ..self }
    }

    /// Replaces the vertical anchoring.
    pub fn alignment_y(self, alignment: Vertical) -> (cfg: StackConfiguration)
        ensures
            cfg == (StackConfiguration { alignment_y: alignment, ..self }),
    {
        StackConfiguration { alignment_y: alignment, ..self }
    }

    /// Replaces the padding kept between the stack and the container edges.
    pub fn padding(self, padding: u64) -> (cfg: StackConfiguration)
        ensures
            cfg == (StackConfiguration { padding, ..self }),
    {
        StackConfiguration { padding, ..self }
    }

    /// Replaces the spacing kept between rendered toasts.
    pub fn spacing(self, spacing: u64) -> (cfg: StackConfiguration)
        ensures
            cfg == (StackConfiguration { spacing, ..self }),
    {
        StackConfiguration { spacing, ..self }
    }

    /// Replaces the cap on a toast's rendered width.
    pub fn max_width(self, max_width: u64) -> (cfg: StackConfiguration)
        ensures
            cfg == (StackConfiguration { max_width, ..self }),
    {
        StackConfiguration { max_width, ..self }
    }

    /// Replaces the cap on a toast's rendered height.
    pub fn max_height(self, max_height: u64) -> (cfg: StackConfiguration)
        ensures
            cfg == (StackConfiguration { max_height, ..self }),
    {
        StackConfiguration { max_height, ..self }
    }

    /// Replaces the least height a toast must be allotted to be rendered.
    pub fn min_height(self, min_height: u64) -> (cfg: StackConfiguration)
        ensures
            cfg == (StackConfiguration { min_height, ..self }),
    {
        StackConfiguration { min_height, ..self }
    }
}

/// Computes the on-screen rectangle of every rendered toast.
///
/// `sizes` holds the host-measured size of each active toast, in store
/// (insertion) order.  The result walks the toasts from newest to oldest:
/// the newest toast is placed adjacent to the anchored vertical edge and
/// older ones are pushed away from it, separated by the configured spacing.
/// Measured sizes are clamped to the configured caps.  Once the remaining
/// extent would give a toast less than the minimum renderable height, that
/// toast and all older ones are excluded from the result — they stay in the
/// store and merely go undrawn.  Positions are already translated by
/// `origin`, the container's on-screen position.
///
/// The bounds in the `requires` only keep every computed coordinate within
/// the machine word; they do not restrict any geometry a host can draw.
pub fn layout(
    sizes: &Vec<Size>,
    cfg: &StackConfiguration,
    container: Size,
    origin: Point,
) -> (placements: Vec<Placement>)
    requires
        origin.x + container.width <= u64::MAX,
        origin.y + container.height <= u64::MAX,
        container.height + cfg.spacing <= u64::MAX,
    ensures
        placements@ == spec_layout(sizes@, *cfg, container, origin),
{
    let mut placements: Vec<Placement> = Vec::new();
    let avail: u64 = if container.height >= cfg.padding && container.height - cfg.padding
        >= cfg.padding {
        container.height - cfg.padding - cfg.padding
    } else {
        0
    };
    proof {
        assert(avail as int == stack_avail(container, *cfg));
        assert(placements@ + spec_stack(sizes@, *cfg, container, origin, sizes@.len() - 1, 0)
            =~= spec_layout(sizes@, *cfg, container, origin));
    }
    let mut i: usize = sizes.len();
    let mut offset: u64 = 0;
    while i > 0
        invariant_except_break
            i as int <= sizes@.len(),
            avail as int == stack_avail(container, *cfg),
            origin.x + container.width <= u64::MAX,
            origin.y + container.height <= u64::MAX,
            container.height + cfg.spacing <= u64::MAX,
            spec_layout(sizes@, *cfg, container, origin) == placements@ + spec_stack(
                sizes@,
                *cfg,
                container,
                origin,
                i as int - 1,
                offset as int,
            ),
        ensures
            placements@ == spec_layout(sizes@, *cfg, container, origin),
        decreases i,
    {
        let idx = i - 1;
        let s = *sizes.get(idx).unwrap();
        let w: u64 = if s.width <= cfg.max_width {
            s.width
        } else {
            cfg.max_width
        };
        let h: u64 = if s.height <= cfg.max_height {
            s.height
        } else {
            cfg.max_height
        };
        let remaining: u64 = if offset < avail {
            avail - offset
        } else {
            0
        };
        let allotted: u64 = if h <= remaining {
            h
        } else {
            remaining
        };
        if remaining == 0 || allotted < cfg.min_height {
            proof {
                assert(spec_stack(sizes@, *cfg, container, origin, idx as int, offset as int)
                    =~= Seq::<Placement>::empty());
                assert(placements@ + Seq::<Placement>::empty() =~= placements@);
            }
            break;
        }
        let x: u64 = match cfg.alignment_x {
            Horizontal::Left => {
                if cfg.padding <= container.width {
                    origin.x + cfg.padding
                } else {
                    origin.x + container.width
                }
            },
            Horizontal::Center => {
                if w <= container.width {
                    origin.x + (container.width - w) / 2
                } else {
                    origin.x
                }
            },
            Horizontal::Right => {
                if w <= container.width && cfg.padding <= container.width - w {
                    origin.x + (container.width - w - cfg.padding)
                } else {
                    origin.x
                }
            },
        };
        let y: u64 = match cfg.alignment_y {
            Vertical::Top => origin.y + cfg.padding + offset,
            Vertical::Bottom => origin.y + (container.height - cfg.padding - offset - allotted),
        };
        let ghost pl0 = placements@;
        let ghost off0 = offset as int;
        placements.push(Placement { x, y, width: w, height: allotted });
        proof {
            assert(x as int == placed_x(w, container, origin, *cfg));
            assert(y as int == placed_y(off0, allotted as int, container, origin, *cfg));
            assert(spec_stack(sizes@, *cfg, container, origin, idx as int, off0) =~= seq![
                (Placement { x, y, width: w, height: allotted }),
            ] + spec_stack(
                sizes@,
                *cfg,
                container,
                origin,
                idx as int - 1,
                off0 + allotted + cfg.spacing,
            ));
            assert(pl0 + spec_stack(sizes@, *cfg, container, origin, idx as int, off0)
                =~= placements@ + spec_stack(
                sizes@,
                *cfg,
                container,
                origin,
                idx as int - 1,
                off0 + allotted + cfg.spacing,
            ));
        }
        offset = offset + allotted + cfg.spacing;
        i = idx;
    }
    placements
}

/// Every placement produced from running offset `offset` keeps at least
/// `offset` pixels of distance from the anchored edge (inside the padding),
/// and the first produced placement sits exactly at that distance.
proof fn lemma_stack_edge(
    sizes: Seq<Size>,
    cfg: StackConfiguration,
    container: Size,
    origin: Point,
    i: int,
    offset: int,
)
    requires
        origin.y + container.height <= u64::MAX,
        0 <= offset,
    ensures
        cfg.alignment_y == Vertical::Bottom ==> forall|k: int|
            0 <= k < spec_stack(sizes, cfg, container, origin, i, offset).len() ==> (
            #[trigger] spec_stack(sizes, cfg, container, origin, i, offset)[k]).y + spec_stack(
                sizes,
                cfg,
                container,
                origin,
                i,
                offset,
            )[k].height <= origin.y + container.height - cfg.padding - offset,
        cfg.alignment_y == Vertical::Top ==> forall|k: int|
            0 <= k < spec_stack(sizes, cfg, container, origin, i, offset).len() ==> (
            #[trigger] spec_stack(sizes, cfg, container, origin, i, offset)[k]).y >= origin.y
                + cfg.padding + offset,
        spec_stack(sizes, cfg, container, origin, i, offset).len() > 0 && cfg.alignment_y
            == Vertical::Bottom ==> spec_stack(sizes, cfg, container, origin, i, offset)[0].y
            + spec_stack(sizes, cfg, container, origin, i, offset)[0].height == origin.y
            + container.height - cfg.padding - offset,
        spec_stack(sizes, cfg, container, origin, i, offset).len() > 0 && cfg.alignment_y
            == Vertical::Top ==> spec_stack(sizes, cfg, container, origin, i, offset)[0].y
            == origin.y + cfg.padding + offset,
    decreases i + 1,
{
    let r = spec_stack(sizes, cfg, container, origin, i, offset);
    if i >= 0 {
        let h = clamped_height(sizes[i], cfg);
        let avail = stack_avail(container, cfg);
        let remaining = if offset < avail {
            avail - offset
        } else {
            0
        };
        let allotted = if h <= remaining {
            h as int
        } else {
            remaining
        };
        if !(remaining <= 0 || allotted < cfg.min_height) {
            let off2 = offset + allotted + cfg.spacing;
            lemma_stack_edge(sizes, cfg, container, origin, i - 1, off2);
            let rest = spec_stack(sizes, cfg, container, origin, i - 1, off2);
            let yy = placed_y(offset, allotted, container, origin, cfg);
            assert(0 <= yy <= origin.y + container.height);
            assert(r[0].y == yy);
            assert(r[0].height == allotted);
            assert(forall|k: int| 1 <= k < r.len() ==> r[k] == #[trigger] rest[k - 1]);
        }
    }
}

/// Stacking order: the most recently pushed toast is always the one placed
/// nearest the anchored edge.  For `Bottom` the first placement's lower edge
/// sits exactly one padding above the container's bottom and every other
/// placement lies at least one spacing above it; for `Top` the first
/// placement's upper edge sits exactly one padding below the container's top
/// and every other placement lies at least one spacing below it.
pub proof fn lemma_newest_nearest_edge(
    sizes: Seq<Size>,
    cfg: StackConfiguration,
    container: Size,
    origin: Point,
)
    requires
        origin.y + container.height <= u64::MAX,
    ensures
        spec_layout(sizes, cfg, container, origin).len() > 0 && cfg.alignment_y
            == Vertical::Bottom ==> spec_layout(sizes, cfg, container, origin)[0].y + spec_layout(
            sizes,
            cfg,
            container,
            origin,
        )[0].height == origin.y + container.height - cfg.padding,
        cfg.alignment_y == Vertical::Bottom ==> forall|k: int|
            1 <= k < spec_layout(sizes, cfg, container, origin).len() ==> (#[trigger] spec_layout(
                sizes,
                cfg,
                container,
                origin,
            )[k]).y + spec_layout(sizes, cfg, container, origin)[k].height + cfg.spacing
                <= spec_layout(sizes, cfg, container, origin)[0].y,
        spec_layout(sizes, cfg, container, origin).len() > 0 && cfg.alignment_y == Vertical::Top
            ==> spec_layout(sizes, cfg, container, origin)[0].y == origin.y + cfg.padding,
        cfg.alignment_y == Vertical::Top ==> forall|k: int|
            1 <= k < spec_layout(sizes, cfg, container, origin).len() ==> spec_layout(
                sizes,
                cfg,
                container,
                origin,
            )[0].y + spec_layout(sizes, cfg, container, origin)[0].height + cfg.spacing <= (
            #[trigger] spec_layout(sizes, cfg, container, origin)[k]).y,
{
    let n = sizes.len() as int;
    let r = spec_layout(sizes, cfg, container, origin);
    lemma_stack_edge(sizes, cfg, container, origin, n - 1, 0);
    if r.len() > 0 {
        let i = n - 1;
        let h = clamped_height(sizes[i], cfg);
        let avail = stack_avail(container, cfg);
        let remaining = if 0 < avail {
            avail
        } else {
            0
        };
        let allotted = if h <= remaining {
            h as int
        } else {
            remaining
        };
        let off2 = allotted + cfg.spacing;
        lemma_stack_edge(sizes, cfg, container, origin, i - 1, off2);
        let rest = spec_stack(sizes, cfg, container, origin, i - 1, off2);
        let yy = placed_y(0, allotted, container, origin, cfg);
        assert(0 <= yy <= origin.y + container.height);
        assert(r[0].y == yy);
        assert(r[0].height == allotted);
        assert(forall|k: int| 1 <= k < r.len() ==> r[k] == #[trigger] rest[k - 1]);
    }
}

/// Overflow skips, it does not drop: the arrangement is a prefix of the
/// newest-first traversal, pairing placement `k` with the `k`-th newest
/// toast, and never holds more placements than there are toasts.  The
/// excluded tail exists only in the result being short — `layout` never
/// touches the store, so an undrawn toast stays active and still expires on
/// schedule.
pub proof fn lemma_overflow_skips_tail(
    sizes: Seq<Size>,
    cfg: StackConfiguration,
    container: Size,
    origin: Point,
)
    ensures
        spec_layout(sizes, cfg, container, origin).len() <= sizes.len(),
        forall|k: int|
            0 <= k < spec_layout(sizes, cfg, container, origin).len() ==> (#[trigger] spec_layout(
                sizes,
                cfg,
                container,
                origin,
            )[k]).width == clamped_width(sizes[sizes.len() - 1 - k], cfg) && spec_layout(
                sizes,
                cfg,
                container,
                origin,
            )[k].height <= clamped_height(sizes[sizes.len() - 1 - k], cfg),
{
    if sizes.len() > 0 {
        lemma_stack_pairing(sizes, cfg, container, origin, sizes.len() - 1, 0);
    }
}

/// The placements from index `i` downward pair up with the sizes they were
/// computed from: placement `k` has the clamped width of size `i - k` and at
/// most its clamped height.
proof fn lemma_stack_pairing(
    sizes: Seq<Size>,
    cfg: StackConfiguration,
    container: Size,
    origin: Point,
    i: int,
    offset: int,
)
    requires
        -1 <= i < sizes.len(),
        0 <= offset,
    ensures
        spec_stack(sizes, cfg, container, origin, i, offset).len() <= i + 1,
        forall|k: int|
            0 <= k < spec_stack(sizes, cfg, container, origin, i, offset).len() ==> (
            #[trigger] spec_stack(sizes, cfg, container, origin, i, offset)[k]).width
                == clamped_width(sizes[i - k], cfg) && spec_stack(
                sizes,
                cfg,
                container,
                origin,
                i,
                offset,
            )[k].height <= clamped_height(sizes[i - k], cfg),
    decreases i + 1,
{
    let r = spec_stack(sizes, cfg, container, origin, i, offset);
    if i >= 0 {
        let h = clamped_height(sizes[i], cfg);
        let avail = stack_avail(container, cfg);
        let remaining = if offset < avail {
            avail - offset
        } else {
            0
        };
        let allotted = if h <= remaining {
            h as int
        } else {
            remaining
        };
        if !(remaining <= 0 || allotted < cfg.min_height) {
            let off2 = offset + allotted + cfg.spacing;
            lemma_stack_pairing(sizes, cfg, container, origin, i - 1, off2);
            let rest = spec_stack(sizes, cfg, container, origin, i - 1, off2);
            assert(r[0].width == clamped_width(sizes[i], cfg));
            assert(r[0].height == allotted);
            assert(forall|k: int| 1 <= k < r.len() ==> r[k] == #[trigger] rest[k - 1]);
        }
    }
}

/// Whether the point lies within the placement's rectangle.
pub open spec fn spec_contains_point(p: Placement, q: Point) -> bool {
    &&& p.x <= q.x < p.x + p.width
    &&& p.y <= q.y < p.y + p.height
}

/// Whether the point lies within at least one of the placements.
pub open spec fn spec_over_any(ps: Seq<Placement>, q: Point) -> bool {
    exists|k: int| 0 <= k < ps.len() && spec_contains_point(ps[k], q)
}

/// Whether the cursor is over the rendered stack: the pointer containment
/// test of the hover-extension policy.
pub fn is_over(placements: &Vec<Placement>, cursor: Point) -> (r: bool)
    ensures
        r == spec_over_any(placements@, cursor),
{
    let mut i: usize = 0;
    while i < placements.len()
        invariant
            0 <= i as int <= placements@.len(),
            forall|k: int|
                0 <= k < i as int ==> !#[trigger] spec_contains_point(placements@[k], cursor),
        decreases placements@.len() - i as int,
    {
        let p = *placements.get(i).unwrap();
        if cursor.x >= p.x && cursor.x - p.x < p.width && cursor.y >= p.y && cursor.y - p.y
            < p.height {
            proof {
                assert(spec_contains_point(placements@[i as int], cursor));
            }
            return true;
        }
        i = i + 1;
    }
    false
}

} // verus!
