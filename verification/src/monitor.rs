//! Monitor descriptors and the monitor registry: normalizing
//! platform-reported geometry into the shared virtual-desktop space,
//! filtering monitors against a requested region, and aggregate queries
//! over the selected set.
use vstd::prelude::*;

use crate::geometry::ElementRect;
use crate::scale::{clamp_to_i32, lemma_scaled_monotonic, scale_saturating, spec_scaled};

verus! {

/// One monitor's geometry as the platform reports it. Platforms that
/// already speak desktop-relative physical pixels use `Physical`;
/// platforms that report logical (scale-independent) units use
/// `Logical`, whose coordinates are multiplied by the monitor's scale
/// factor `scale_num / scale_den` during normalization.
#[derive(Clone, Copy, Debug)]
pub enum MonitorGeometry {
    Physical { x: i32, y: i32, width: u32, height: u32 },
    Logical { x: i32, y: i32, width: u32, height: u32, scale_num: u32, scale_den: u32 },
}

impl MonitorGeometry {
    /// What a usable geometry report satisfies: physical extents stay in
    /// coordinate range, and a scale factor has a positive denominator.
    pub open spec fn wf(self) -> bool {
        match self {
            MonitorGeometry::Physical { x, y, width, height } => {
                x + width <= i32::MAX && y + height <= i32::MAX
            },
            MonitorGeometry::Logical { scale_den, .. } => scale_den > 0,
        }
    }

    /// The normalized rectangle in shared virtual-desktop physical
    /// pixels: physical geometry is used directly; logical geometry has
    /// position and extent multiplied by the scale factor.
    pub open spec fn spec_normalized_rect(self) -> ElementRect {
        match self {
            MonitorGeometry::Physical { x, y, width, height } => ElementRect {
                min_x: x,
                min_y: y,
                max_x: (x + width) as i32,
                max_y: (y + height) as i32,
            },
            MonitorGeometry::Logical { x, y, width, height, scale_num, scale_den } => ElementRect {
                min_x: clamp_to_i32(
                    spec_scaled(x as int, scale_num as int, scale_den as int),
                ) as i32,
                min_y: clamp_to_i32(
                    spec_scaled(y as int, scale_num as int, scale_den as int),
                ) as i32,
                max_x: clamp_to_i32(
                    spec_scaled(x + width, scale_num as int, scale_den as int),
                ) as i32,
                max_y: clamp_to_i32(
                    spec_scaled(y + height, scale_num as int, scale_den as int),
                ) as i32,
            },
        }
    }

    /// The geometry a monitor contributes when its platform query fails:
    /// a degenerate rectangle at the origin, so one bad handle never
    /// fails the whole registry.
    pub fn fallback() -> (r: MonitorGeometry)
        ensures
            r.wf(),
            r.spec_normalized_rect() == (ElementRect { min_x: 0, min_y: 0, max_x: 0, max_y: 0 }),
    {
        MonitorGeometry::Physical { x: 0, y: 0, width: 0, height: 0 }
    }
}

/// One monitor at enumeration time: its normalized bounding rectangle in
/// the shared coordinate space, computed once at construction and
/// immutable thereafter. Captured images are paired back to descriptors
/// positionally, so the descriptor itself carries no platform handle.
#[derive(Clone, Copy, Debug)]
pub struct MonitorInfo {
    pub rect: ElementRect,
}

impl MonitorInfo {
    /// Builds the descriptor for one monitor, normalizing the reported
    /// geometry into shared virtual-desktop physical pixels.
    pub fn new(geometry: MonitorGeometry) -> (r: MonitorInfo)
        requires
            geometry.wf(),
        ensures
            r.rect == geometry.spec_normalized_rect(),
            r.rect.wf(),
    {
        match geometry {
            MonitorGeometry::Physical { x, y, width, height } => {
                let max_x: i32 = ((x as i64) + (width as i64)) as i32;
                let max_y: i32 = ((y as i64) + (height as i64)) as i32;
                MonitorInfo { rect: ElementRect { min_x: x, min_y: y, max_x, max_y } }
            },
            MonitorGeometry::Logical { x, y, width, height, scale_num, scale_den } => {
                let min_x: i32 = scale_saturating(x as i64, scale_num, scale_den);
                let min_y: i32 = scale_saturating(y as i64, scale_num, scale_den);
                let max_x: i32 = scale_saturating(
                    (x as i64) + (width as i64),
                    scale_num,
                    scale_den,
                );
                let max_y: i32 = scale_saturating(
                    (y as i64) + (height as i64),
                    scale_num,
                    scale_den,
                );
                proof {
                    lemma_scaled_monotonic(
                        x as int,
                        x + width,
                        scale_num as int,
                        scale_den as int,
                    );
                    lemma_scaled_monotonic(
                        y as int,
                        y + height,
                        scale_num as int,
                        scale_den as int,
                    );
                }
                MonitorInfo { rect: ElementRect { min_x, min_y, max_x, max_y } }
            },
        }
    }

    /// The caller-requested crop region cut down to this monitor and
    /// translated into the monitor's local coordinates, so that the
    /// monitor's own origin becomes `(0, 0)`. Degenerate when the crop
    /// region misses this monitor.
    pub fn get_monitor_crop_region(&self, crop_region: ElementRect) -> (r: ElementRect)
        requires
            spec_local_crop_fits(self.rect, crop_region),
        ensures
            r == spec_local_crop(self.rect, crop_region),
            r.wf(),
            r.min_x >= 0,
            r.min_y >= 0,
    {
        let monitor_crop_region = self.rect.clip_rect(&crop_region);
        ElementRect {
            min_x: monitor_crop_region.min_x - self.rect.min_x,
            min_y: monitor_crop_region.min_y - self.rect.min_y,
            max_x: monitor_crop_region.max_x - self.rect.min_x,
            max_y: monitor_crop_region.max_y - self.rect.min_y,
        }
    }
}

/// Whether the crop region, clipped to the monitor, stays within `i32`
/// range once translated to the monitor's local coordinates; a machine
/// limit, trivially met by real screen geometry.
pub open spec fn spec_local_crop_fits(monitor: ElementRect, crop: ElementRect) -> bool {
    &&& monitor.spec_clip(crop).max_x - monitor.min_x <= i32::MAX
    &&& monitor.spec_clip(crop).max_y - monitor.min_y <= i32::MAX
}

/// The crop region clipped to the monitor and translated into the
/// monitor's local coordinates.
pub open spec fn spec_local_crop(monitor: ElementRect, crop: ElementRect) -> ElementRect {
    let clipped = monitor.spec_clip(crop);
    ElementRect {
        min_x: (clipped.min_x - monitor.min_x) as i32,
        min_y: (clipped.min_y - monitor.min_y) as i32,
        max_x: (clipped.max_x - monitor.min_x) as i32,
        max_y: (clipped.max_y - monitor.min_y) as i32,
    }
}

/// The region standing for "the entire virtual desktop": every
/// rectangle overlaps it.
pub open spec fn spec_everything() -> ElementRect {
    ElementRect {
        min_x: i32::MIN,
        min_y: i32::MIN,
        max_x: i32::MAX,
        max_y: i32::MAX,
    }
}

/// The requested region, or the entire virtual desktop when none was
/// requested.
pub open spec fn spec_region_or_everything(region: Option<ElementRect>) -> ElementRect {
    match region {
        Some(r) => r,
        None => spec_everything(),
    }
}

/// The descriptors whose rectangle overlaps `region`, in their original
/// order.
pub open spec fn spec_filtered_monitors(s: Seq<MonitorInfo>, region: ElementRect) -> Seq<
    MonitorInfo,
>
    decreases s.len(),
{
    if s.len() == 0 {
        Seq::empty()
    } else {
        let rest = spec_filtered_monitors(s.drop_last(), region);
        if s.last().rect.spec_overlaps(region) {
            rest.push(s.last())
        } else {
            rest
        }
    }
}

/// Every rectangle overlaps the entire virtual desktop, so filtering
/// against it keeps the whole sequence.
pub proof fn lemma_filtered_by_everything(s: Seq<MonitorInfo>)
    ensures
        spec_filtered_monitors(s, spec_everything()) == s,
    decreases s.len(),
{
    if s.len() == 0 {
        assert(spec_filtered_monitors(s, spec_everything()) =~= s);
    } else {
        lemma_filtered_by_everything(s.drop_last());
        assert(spec_filtered_monitors(s, spec_everything()) =~= s);
    }
}

/// The region a capture request resolves to before the registry is
/// built. An explicit region is used as given. Otherwise the whole
/// desktop is in scope, except where the platform only composites
/// monitors of one scale factor safely: when the factors disagree, the
/// capture falls back to the single monitor under the pointer, selected
/// through a 1-by-1 region at the pointer position.
pub fn capture_scope_region(
    region: Option<ElementRect>,
    scale_factors_consistent: bool,
    pointer_x: i32,
    pointer_y: i32,
) -> (r: Option<ElementRect>)
    requires
        pointer_x < i32::MAX,
        pointer_y < i32::MAX,
    ensures
        region is Some ==> r == region,
        region is None && scale_factors_consistent ==> r is None,
        region is None && !scale_factors_consistent ==> r == Some(
            ElementRect {
                min_x: pointer_x,
                min_y: pointer_y,
                max_x: (pointer_x + 1) as i32,
                max_y: (pointer_y + 1) as i32,
            },
        ),
{
    match region {
        Some(given) => Some(given),
        None => {
            if scale_factors_consistent {
                None
            } else {
                Some(
                    ElementRect {
                        min_x: pointer_x,
                        min_y: pointer_y,
                        max_x: pointer_x + 1,
                        max_y: pointer_y + 1,
                    },
                )
            }
        },
    }
}

/// `acc` grown just enough to contain `r`.
pub open spec fn spec_bbox_extend(acc: ElementRect, r: ElementRect) -> ElementRect {
    ElementRect {
        min_x: if r.min_x < acc.min_x { r.min_x } else { acc.min_x },
        min_y: if r.min_y < acc.min_y { r.min_y } else { acc.min_y },
        max_x: if r.max_x > acc.max_x { r.max_x } else { acc.max_x },
        max_y: if r.max_y > acc.max_y { r.max_y } else { acc.max_y },
    }
}

/// `acc` grown to contain the rectangles of `s` from index `i` on.
pub open spec fn spec_bbox_from(s: Seq<MonitorInfo>, acc: ElementRect, i: int) -> ElementRect
    decreases s.len() - i,
{
    if i < 0 || i >= s.len() {
        acc
    } else {
        spec_bbox_from(s, spec_bbox_extend(acc, s[i].rect), i + 1)
    }
}

/// The minimal rectangle containing every monitor's rectangle; the zero
/// rectangle for an empty set.
pub open spec fn spec_bbox(s: Seq<MonitorInfo>) -> ElementRect {
    if s.len() == 0 {
        ElementRect { min_x: 0, min_y: 0, max_x: 0, max_y: 0 }
    } else {
        spec_bbox_from(s, s[0].rect, 1)
    }
}

/// The registry: the monitors participating in one capture request, in
/// a stable order that pairs captured frames back to their source
/// monitor positionally. Built fresh per request; never mutated after
/// construction.
#[derive(Debug)]
pub struct MonitorList(pub Vec<MonitorInfo>);

impl MonitorList {
    /// The descriptors, in registry order.
    pub open spec fn monitors(self) -> Seq<MonitorInfo> {
        self.0@
    }

    /// Builds the registry from freshly enumerated descriptors,
    /// retaining those whose rectangle overlaps `region`; absent a
    /// region, all of them.
    pub fn get_monitors(descriptors: Vec<MonitorInfo>, region: Option<ElementRect>) -> (r:
        MonitorList)
        ensures
            r.monitors() == spec_filtered_monitors(
                descriptors@,
                spec_region_or_everything(region),
            ),
    {
        let region = match region {
            Some(r) => r,
            None => ElementRect {
                min_x: i32::MIN,
                min_y: i32::MIN,
                max_x: i32::MAX,
                max_y: i32::MAX,
            },
        };
        let mut kept: Vec<MonitorInfo> = Vec::new();
        let mut i: usize = 0;
        while i < descriptors.len()
            invariant
                i <= descriptors@.len(),
                kept@ == spec_filtered_monitors(descriptors@.take(i as int), region),
            decreases descriptors@.len() - i,
        {
            let ghost prefix = descriptors@.take(i as int);
            let ghost next_prefix = descriptors@.take(i + 1);
            assert(next_prefix.drop_last() =~= prefix);
            assert(next_prefix.last() == descriptors@[i as int]);
            let descriptor = descriptors[i];
            if descriptor.rect.overlaps(&region) {
                kept.push(descriptor);
            }
            i = i + 1;
        }
        assert(descriptors@.take(descriptors@.len() as int) =~= descriptors@);
        MonitorList(kept)
    }

    /// The registry of every monitor present at enumeration time.
    pub fn all(descriptors: Vec<MonitorInfo>) -> (r: MonitorList)
        ensures
            r.monitors() == descriptors@,
    {
        let ghost s = descriptors@;
        let r = Self::get_monitors(descriptors, None);
        proof {
            lemma_filtered_by_everything(s);
        }
        r
    }

    /// The registry of the monitors overlapping `region`.
    pub fn get_by_region(descriptors: Vec<MonitorInfo>, region: ElementRect) -> (r: MonitorList)
        ensures
            r.monitors() == spec_filtered_monitors(descriptors@, region),
    {
        Self::get_monitors(descriptors, Some(region))
    }

    /// The minimal rectangle containing every monitor's rectangle; the
    /// zero rectangle when the registry is empty.
    pub fn get_monitors_bounding_box(&self) -> (r: ElementRect)
        ensures
            r == spec_bbox(self.monitors()),
            self.monitors().len() == 0 ==> r == (ElementRect {
                min_x: 0,
                min_y: 0,
                max_x: 0,
                max_y: 0,
            }),
            self.monitors().len() > 0 ==> {
                &&& forall|i: int|
                    0 <= i < self.monitors().len() ==> {
                        &&& r.min_x <= #[trigger] self.monitors()[i].rect.min_x
                        &&& r.min_y <= self.monitors()[i].rect.min_y
                        &&& r.max_x >= self.monitors()[i].rect.max_x
                        &&& r.max_y >= self.monitors()[i].rect.max_y
                    }
                &&& exists|i: int|
                    0 <= i < self.monitors().len() && r.min_x == #[trigger] self.monitors()[i].rect.min_x
                &&& exists|i: int|
                    0 <= i < self.monitors().len() && r.min_y == #[trigger] self.monitors()[i].rect.min_y
                &&& exists|i: int|
                    0 <= i < self.monitors().len() && r.max_x == #[trigger] self.monitors()[i].rect.max_x
                &&& exists|i: int|
                    0 <= i < self.monitors().len() && r.max_y == #[trigger] self.monitors()[i].rect.max_y
            },
    {
        if self.0.len() == 0 {
            return ElementRect { min_x: 0, min_y: 0, max_x: 0, max_y: 0 };
        }
        let first = self.0[0];
        let mut min_x: i32 = first.rect.min_x;
        let mut min_y: i32 = first.rect.min_y;
        let mut max_x: i32 = first.rect.max_x;
        let mut max_y: i32 = first.rect.max_y;
        let mut i: usize = 1;
        while i < self.0.len()
            invariant
                1 <= i <= self.monitors().len(),
                forall|j: int|
                    0 <= j < i ==> {
                        &&& min_x <= #[trigger] self.monitors()[j].rect.min_x
                        &&& min_y <= self.monitors()[j].rect.min_y
                        &&& max_x >= self.monitors()[j].rect.max_x
                        &&& max_y >= self.monitors()[j].rect.max_y
                    },
                exists|j: int| 0 <= j < i && min_x == #[trigger] self.monitors()[j].rect.min_x,
                exists|j: int| 0 <= j < i && min_y == #[trigger] self.monitors()[j].rect.min_y,
                exists|j: int| 0 <= j < i && max_x == #[trigger] self.monitors()[j].rect.max_x,
                exists|j: int| 0 <= j < i && max_y == #[trigger] self.monitors()[j].rect.max_y,
                spec_bbox_from(
                    self.monitors(),
                    ElementRect { min_x, min_y, max_x, max_y },
                    i as int,
                ) == spec_bbox(self.monitors()),
            decreases self.monitors().len() - i,
        {
            let ghost acc_before = ElementRect { min_x, min_y, max_x, max_y };
            let monitor = self.0[i];
            if monitor.rect.min_x < min_x {
                min_x = monitor.rect.min_x;
            }
            if monitor.rect.min_y < min_y {
                min_y = monitor.rect.min_y;
            }
            if monitor.rect.max_x > max_x {
                max_x = monitor.rect.max_x;
            }
            if monitor.rect.max_y > max_y {
                max_y = monitor.rect.max_y;
            }
            assert(ElementRect { min_x, min_y, max_x, max_y } == spec_bbox_extend(
                acc_before,
                self.monitors()[i as int].rect,
            ));
            i = i + 1;
        }
        ElementRect { min_x, min_y, max_x, max_y }
    }

    /// One rectangle per descriptor, in registry order.
    pub fn monitor_rect_list(&self) -> (r: Vec<ElementRect>)
        ensures
            r@.len() == self.monitors().len(),
            forall|i: int|
                0 <= i < self.monitors().len() ==> r@[i] == #[trigger] self.monitors()[i].rect,
    {
        let mut rects: Vec<ElementRect> = Vec::new();
        let mut i: usize = 0;
        while i < self.0.len()
            invariant
                i <= self.monitors().len(),
                rects@.len() == i,
                forall|j: int|
                    0 <= j < i ==> rects@[j] == #[trigger] self.monitors()[j].rect,
            decreases self.monitors().len() - i,
        {
            rects.push(self.0[i].rect);
            i = i + 1;
        }
        rects
    }

    /// How many monitors are in scope for this request.
    pub fn len(&self) -> (r: usize)
        ensures
            r == self.monitors().len(),
    {
        self.0.len()
    }

    /// The descriptor at `index`, in registry order.
    pub fn get(&self, index: usize) -> (r: &MonitorInfo)
        requires
            index < self.monitors().len(),
        ensures
            *r == self.monitors()[index as int],
    {
        &self.0[index]
    }
}

} // verus!
