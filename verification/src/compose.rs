//! The compositor: planning which sub-rectangle each monitor must
//! capture, and merging the frames that came back into one output
//! canvas, each pasted at its offset in the shared coordinate space.
//!
//! Capture itself is platform work: the caller performs one capture per
//! monitor, in registry order, following the requests planned here, and
//! hands the results back positionally (`None` for a monitor that was
//! skipped or failed). Everything on either side of those calls is
//! verified.
use vstd::prelude::*;

use crate::geometry::ElementRect;
use crate::channels::{bgra_to_rgba, spec_channel_swapped};
use crate::imaging::{
    overlay_of, overlay_onto, pixel_bytes_of, spec_blank_bytes, width_of, height_of, PixelBuffer,
};
use crate::monitor::{
    spec_bbox, spec_local_crop, spec_local_crop_fits, spec_region_or_everything, MonitorInfo,
    MonitorList,
};
use crate::text::{decimal_string, spec_decimal_chars};
use vstd::string::StringExecFns;

verus! {

/// What one monitor is asked to capture: nothing (it lies outside the
/// requested region), its whole frame, or a sub-rectangle given in the
/// monitor's own local coordinates.
#[derive(Clone, Copy, Debug, PartialEq, Eq, Structural)]
pub enum CaptureRequest {
    Skip,
    Whole,
    Cropped(ElementRect),
}

/// The request owed to monitor `i` of the registry: a single monitor is
/// always captured (cropped locally when a region was given); with
/// several monitors, one whose rectangle misses the region is skipped.
pub open spec fn spec_capture_request(
    monitors: Seq<MonitorInfo>,
    i: int,
    crop_region: Option<ElementRect>,
) -> CaptureRequest {
    if monitors.len() != 1 && !monitors[i].rect.spec_overlaps(
        spec_region_or_everything(crop_region),
    ) {
        CaptureRequest::Skip
    } else {
        match crop_region {
            Some(c) => CaptureRequest::Cropped(spec_local_crop(monitors[i].rect, c)),
            None => CaptureRequest::Whole,
        }
    }
}

/// A rectangle whose dimensions can size a pixel buffer: well-formed,
/// each extent in `u32` range, and a byte count that fits in `usize`.
/// A machine limit, met by any real screen geometry.
pub open spec fn spec_rect_sized(r: ElementRect) -> bool {
    &&& r.wf()
    &&& r.spec_width() <= u32::MAX
    &&& r.spec_height() <= u32::MAX
    &&& 4 * r.spec_width() * r.spec_height() <= usize::MAX
}

/// The rectangle the output canvas is sized to: the explicit crop
/// region when one was given, else the bounding box of the registry.
pub open spec fn spec_canvas_rect(
    monitors: Seq<MonitorInfo>,
    crop_region: Option<ElementRect>,
) -> ElementRect {
    match crop_region {
        Some(c) => c,
        None => spec_bbox(monitors),
    }
}

/// The horizontal offset at which monitor `m`'s frame is pasted into
/// the canvas: relative to the crop region when one was given (the
/// frame then starts where the clipped region starts), else relative to
/// the bounding box that sized the canvas.
pub open spec fn spec_paste_x(
    m: MonitorInfo,
    crop_region: Option<ElementRect>,
    bbox: ElementRect,
) -> int {
    match crop_region {
        Some(c) => m.rect.spec_clip(c).min_x - c.min_x,
        None => m.rect.min_x - bbox.min_x,
    }
}

/// The vertical paste offset; see `spec_paste_x`.
pub open spec fn spec_paste_y(
    m: MonitorInfo,
    crop_region: Option<ElementRect>,
    bbox: ElementRect,
) -> int {
    match crop_region {
        Some(c) => m.rect.spec_clip(c).min_y - c.min_y,
        None => m.rect.min_y - bbox.min_y,
    }
}

/// The canvas bytes after the frames from index `i` on have been
/// overlaid in registry order, each at its paste offset; monitors that
/// contributed no frame leave the canvas unchanged. Later frames
/// overwrite earlier ones where they overlap.
pub open spec fn spec_composited_from(
    monitors: Seq<MonitorInfo>,
    frames: Seq<Option<PixelBuffer>>,
    crop_region: Option<ElementRect>,
    bbox: ElementRect,
    canvas: Seq<u8>,
    canvas_width: u32,
    canvas_height: u32,
    i: int,
) -> Seq<u8>
    decreases monitors.len() - i,
{
    if i < 0 || i >= monitors.len() {
        canvas
    } else {
        let next = match frames[i] {
            Some(f) => overlay_of(
                canvas,
                canvas_width,
                canvas_height,
                pixel_bytes_of(f),
                width_of(f),
                height_of(f),
                spec_paste_x(monitors[i], crop_region, bbox) as i64,
                spec_paste_y(monitors[i], crop_region, bbox) as i64,
            ),
            None => canvas,
        };
        spec_composited_from(
            monitors,
            frames,
            crop_region,
            bbox,
            next,
            canvas_width,
            canvas_height,
            i + 1,
        )
    }
}

/// The finished multi-monitor composite: a blank canvas sized to the
/// crop region (or bounding box), with every delivered frame overlaid
/// in registry order at its paste offset.
pub open spec fn spec_composited(
    monitors: Seq<MonitorInfo>,
    frames: Seq<Option<PixelBuffer>>,
    crop_region: Option<ElementRect>,
) -> Seq<u8> {
    let canvas_rect = spec_canvas_rect(monitors, crop_region);
    let cw = canvas_rect.spec_width() as u32;
    let ch = canvas_rect.spec_height() as u32;
    spec_composited_from(
        monitors,
        frames,
        crop_region,
        spec_bbox(monitors),
        spec_blank_bytes(cw, ch),
        cw,
        ch,
        0,
    )
}

/// The rectangle's four coordinates as text.
pub open spec fn spec_rect_text(r: ElementRect) -> Seq<char> {
    "("@ + spec_decimal_chars(r.min_x as int) + ", "@ + spec_decimal_chars(r.min_y as int)
        + ", "@ + spec_decimal_chars(r.max_x as int) + ", "@ + spec_decimal_chars(r.max_y as int)
        + ")"@
}

/// The error reported when the only monitor in scope fails to capture:
/// it names the failing monitor's rectangle.
pub open spec fn spec_single_capture_failure_message(r: ElementRect) -> Seq<char> {
    "failed to capture the only monitor in scope, monitor rect: "@ + spec_rect_text(r)
}

/// Builds the single-monitor failure message, coordinates included.
fn single_capture_failure_message(rect: &ElementRect) -> (r: String)
    ensures
        r@ == spec_single_capture_failure_message(*rect),
        r@.len() > 0,
{
    proof {
        reveal_strlit("failed to capture the only monitor in scope, monitor rect: ");
    }
    let mut s: String = "failed to capture the only monitor in scope, monitor rect: ".to_owned();
    s.append("(");
    let min_x = decimal_string(rect.min_x);
    s.append(min_x.as_str());
    s.append(", ");
    let min_y = decimal_string(rect.min_y);
    s.append(min_y.as_str());
    s.append(", ");
    let max_x = decimal_string(rect.max_x);
    s.append(max_x.as_str());
    s.append(", ");
    let max_y = decimal_string(rect.max_y);
    s.append(max_y.as_str());
    s.append(")");
    assert(s@ =~= spec_single_capture_failure_message(*rect));
    s
}

/// What the compositor owes for one set of frames. With exactly one
/// monitor: a missing frame is an error; a delivered 1-by-1 sentinel
/// becomes a fully transparent image of the monitor's full dimensions;
/// any other frame is returned as captured. With any other number of
/// monitors: an error exactly when no frame was delivered, else a
/// canvas sized to the crop region (or bounding box) with every
/// delivered frame overlaid in registry order at its paste offset.
pub open spec fn spec_capture_post(
    monitors: Seq<MonitorInfo>,
    frames: Seq<Option<PixelBuffer>>,
    crop_region: Option<ElementRect>,
    r: Result<PixelBuffer, String>,
) -> bool {
    if monitors.len() == 1 {
        &&& (r is Err <==> frames[0] is None)
        &&& r is Err ==> r->Err_0@ == spec_single_capture_failure_message(monitors[0].rect)
        &&& (frames[0] is Some && width_of(frames[0]->0) == 1 && height_of(frames[0]->0) == 1)
            ==> {
            &&& r is Ok
            &&& width_of(r->Ok_0) == monitors[0].rect.spec_width()
            &&& height_of(r->Ok_0) == monitors[0].rect.spec_height()
            &&& pixel_bytes_of(r->Ok_0) == spec_blank_bytes(
                width_of(r->Ok_0),
                height_of(r->Ok_0),
            )
        }
        &&& (frames[0] is Some && !(width_of(frames[0]->0) == 1 && height_of(frames[0]->0)
            == 1)) ==> (r is Ok && r->Ok_0 == frames[0]->0)
    } else {
        &&& (r is Err <==> (forall|i: int| 0 <= i < frames.len() ==> frames[i] is None))
        &&& r is Err ==> r->Err_0@ == "no monitor frame was captured"@
        &&& r is Ok ==> {
            &&& width_of(r->Ok_0) == spec_canvas_rect(monitors, crop_region).spec_width()
            &&& height_of(r->Ok_0) == spec_canvas_rect(monitors, crop_region).spec_height()
            &&& pixel_bytes_of(r->Ok_0) == spec_composited(monitors, frames, crop_region)
        }
    }
}

impl MonitorList {
    /// Plans one capture request per monitor, in registry order. A
    /// single monitor is always captured, with the crop region
    /// translated into its local coordinates when one was given; with
    /// several monitors, those missing the region are skipped.
    pub fn capture_requests(&self, crop_region: Option<ElementRect>) -> (r: Vec<CaptureRequest>)
        requires
            crop_region matches Some(c) ==> forall|i: int|
                0 <= i < self.monitors().len() ==> spec_local_crop_fits(
                    #[trigger] self.monitors()[i].rect,
                    c,
                ),
        ensures
            r@.len() == self.monitors().len(),
            forall|i: int|
                0 <= i < self.monitors().len() ==> r@[i] == spec_capture_request(
                    self.monitors(),
                    i,
                    crop_region,
                ),
    {
        let single = self.len() == 1;
        let everything = ElementRect {
            min_x: i32::MIN,
            min_y: i32::MIN,
            max_x: i32::MAX,
            max_y: i32::MAX,
        };
        let mut requests: Vec<CaptureRequest> = Vec::new();
        let mut i: usize = 0;
        while i < self.len()
            invariant
                i <= self.monitors().len(),
                single == (self.monitors().len() == 1),
                everything == crate::monitor::spec_everything(),
                crop_region matches Some(c) ==> forall|j: int|
                    0 <= j < self.monitors().len() ==> spec_local_crop_fits(
                        #[trigger] self.monitors()[j].rect,
                        c,
                    ),
                requests@.len() == i,
                forall|j: int|
                    0 <= j < i ==> requests@[j] == spec_capture_request(
                        self.monitors(),
                        j,
                        crop_region,
                    ),
            decreases self.monitors().len() - i,
        {
            let monitor = self.get(i);
            let region = match crop_region {
                Some(c) => c,
                None => everything,
            };
            let request = if !single && !monitor.rect.overlaps(&region) {
                CaptureRequest::Skip
            } else {
                match crop_region {
                    Some(c) => CaptureRequest::Cropped(monitor.get_monitor_crop_region(c)),
                    None => CaptureRequest::Whole,
                }
            };
            requests.push(request);
            i = i + 1;
        }
        requests
    }

    /// Merges the frames captured for this registry, in registry order,
    /// into one output image; see `spec_capture_post` for exactly what
    /// comes back.
    pub fn capture_core(
        &self,
        frames: Vec<Option<PixelBuffer>>,
        crop_region: Option<ElementRect>,
    ) -> (r: Result<PixelBuffer, String>)
        requires
            frames@.len() == self.monitors().len(),
            self.monitors().len() == 1 ==> spec_rect_sized(self.monitors()[0].rect),
            self.monitors().len() > 1 ==> spec_rect_sized(
                spec_canvas_rect(self.monitors(), crop_region),
            ),
        ensures
            spec_capture_post(self.monitors(), frames@, crop_region, r),
            r matches Err(e) ==> e@.len() > 0,
    {
        let n = self.len();
        if n == 1 {
            let mut frames = frames;
            let first = frames.pop();
            match first {
                None => Err(single_capture_failure_message(&self.get(0).rect)),
                Some(None) => Err(single_capture_failure_message(&self.get(0).rect)),
                Some(Some(frame)) => {
                    let (w, h) = frame.dimensions();
                    if w == 1 && h == 1 {
                        let rect = self.get(0).rect;
                        let full_w: u32 = ((rect.max_x as i64) - (rect.min_x as i64)) as u32;
                        let full_h: u32 = ((rect.max_y as i64) - (rect.min_y as i64)) as u32;
                        Ok(PixelBuffer::blank(full_w, full_h))
                    } else {
                        Ok(frame)
                    }
                },
            }
        } else {
            let mut any_frame = false;
            let mut i: usize = 0;
            while i < frames.len()
                invariant
                    i <= frames@.len(),
                    any_frame == exists|j: int| 0 <= j < i && frames@[j] is Some,
                decreases frames@.len() - i,
            {
                if frames[i].is_some() {
                    any_frame = true;
                }
                i = i + 1;
            }
            if !any_frame {
                proof {
                    reveal_strlit("no monitor frame was captured");
                }
                return Err("no monitor frame was captured".to_owned());
            }
            let bbox = self.get_monitors_bounding_box();
            let canvas_rect = match crop_region {
                Some(c) => c,
                None => bbox,
            };
            let cw: u32 = ((canvas_rect.max_x as i64) - (canvas_rect.min_x as i64)) as u32;
            let ch: u32 = ((canvas_rect.max_y as i64) - (canvas_rect.min_y as i64)) as u32;
            let mut canvas = PixelBuffer::blank(cw, ch);
            let ghost target = spec_composited(self.monitors(), frames@, crop_region);
            let mut i: usize = 0;
            while i < frames.len()
                invariant
                    i <= frames@.len(),
                    frames@.len() == self.monitors().len(),
                    width_of(canvas) == cw,
                    height_of(canvas) == ch,
                    bbox == spec_bbox(self.monitors()),
                    cw == spec_canvas_rect(self.monitors(), crop_region).spec_width(),
                    ch == spec_canvas_rect(self.monitors(), crop_region).spec_height(),
                    target == spec_composited(self.monitors(), frames@, crop_region),
                    spec_composited_from(
                        self.monitors(),
                        frames@,
                        crop_region,
                        spec_bbox(self.monitors()),
                        pixel_bytes_of(canvas),
                        cw,
                        ch,
                        i as int,
                    ) == target,
                decreases frames@.len() - i,
            {
                match &frames[i] {
                    None => {},
                    Some(frame) => {
                        let monitor = self.get(i);
                        let (offset_x, offset_y): (i64, i64) = match crop_region {
                            Some(c) => {
                                let clipped = monitor.rect.clip_rect(&c);
                                (
                                    (clipped.min_x as i64) - (c.min_x as i64),
                                    (clipped.min_y as i64) - (c.min_y as i64),
                                )
                            },
                            None => (
                                (monitor.rect.min_x as i64) - (bbox.min_x as i64),
                                (monitor.rect.min_y as i64) - (bbox.min_y as i64),
                            ),
                        };
                        overlay_onto(&mut canvas, frame, offset_x, offset_y);
                    },
                }
                i = i + 1;
            }
            Ok(canvas)
        }
    }

    /// Captures the whole registry: merges one frame per monitor, sized
    /// to the registry's bounding box in the multi-monitor case.
    pub fn capture(&self, frames: Vec<Option<PixelBuffer>>) -> (r: Result<PixelBuffer, String>)
        requires
            frames@.len() == self.monitors().len(),
            self.monitors().len() == 1 ==> spec_rect_sized(self.monitors()[0].rect),
            self.monitors().len() > 1 ==> spec_rect_sized(spec_bbox(self.monitors())),
        ensures
            spec_capture_post(self.monitors(), frames@, None, r),
            r matches Err(e) ==> e@.len() > 0,
    {
        self.capture_core(frames, None)
    }

    /// Captures the registry restricted to `region`: merges one frame
    /// per monitor into a canvas sized to the region.
    pub fn capture_region(&self, region: ElementRect, frames: Vec<Option<PixelBuffer>>) -> (r:
        Result<PixelBuffer, String>)
        requires
            frames@.len() == self.monitors().len(),
            self.monitors().len() == 1 ==> spec_rect_sized(self.monitors()[0].rect),
            self.monitors().len() > 1 ==> spec_rect_sized(region),
        ensures
            spec_capture_post(self.monitors(), frames@, Some(region), r),
            r matches Err(e) ==> e@.len() > 0,
    {
        self.capture_core(frames, Some(region))
    }
}

/// Whether the monitor is the known virtual display that the streaming
/// backend cannot capture; for it the capturer returns the 1-by-1
/// transparent sentinel instead of attempting a real capture.
pub fn is_virtual_placeholder_monitor(name: &String) -> (r: bool)
    ensures
        r == (name@ == "DeskPad Display"@),
{
    let placeholder: String = "DeskPad Display".to_owned();
    name.eq(&placeholder)
}

/// Converts one streamed frame from the backend's BGRA byte order into
/// an RGBA pixel buffer ready for compositing; `None` when the frame
/// data is too short for the claimed dimensions.
pub fn convert_bgra_frame(width: u32, height: u32, bgra_data: &[u8]) -> (r: Option<PixelBuffer>)
    ensures
        r is Some <==> (4 * width * height <= usize::MAX && 4 * width * height <= (
        bgra_data@.len() / 4) * 4),
        r is Some ==> {
            &&& width_of(r->0) == width
            &&& height_of(r->0) == height
            &&& pixel_bytes_of(r->0) == spec_channel_swapped(bgra_data@)
        },
{
    let rgba = bgra_to_rgba(bgra_data);
    PixelBuffer::from_rgba_bytes(width, height, rgba)
}

/// The sub-rectangle handed to the platform capture call: the local
/// crop when one was planned, else the monitor's own full rectangle.
pub fn capture_area(crop_area: Option<ElementRect>, monitor_rect: ElementRect) -> (r: ElementRect)
    ensures
        crop_area matches Some(c) ==> r == c,
        crop_area is None ==> r == monitor_rect,
{
    match crop_area {
        Some(c) => c,
        None => monitor_rect,
    }
}

} // verus!
