//! The capture service: a registry of screens, the desktop-space geometry
//! around it, and the validated cropping of captured screens.

use crate::fixed::Fixed;
use crate::geometry::{Pos2, Rect, Vec2};
use crate::imaging::{
    crop_image, decode_image, decoded_image, image_error_text, is_cutout, PixelRect,
};
use crate::error::CaptureError;
use crate::types::{CaptureArea, ScreenDescriptor, ScreenInfo};
use image::DynamicImage;
use image::ImageError;
use std::collections::HashMap;
use vstd::prelude::*;
use vstd::std_specs::hash::spec_values_iter;
use vstd::std_specs::iter::IteratorSpec;

verus! {

broadcast use vstd::std_specs::hash::group_hash_axioms;

/// The registry of screens and the platform's list of displays behind it.
pub struct CaptureService {
    screens: Vec<ScreenDescriptor>,
    screen_cache: HashMap<usize, ScreenInfo>,
}

/// The registry that a refresh builds from the enumerated displays: the
/// display at position `k` is registered under index `k`.
pub open spec fn registry_of(screens: Seq<ScreenDescriptor>) -> Map<usize, ScreenInfo> {
    Map::new(
        |k: usize| k < screens.len(),
        |k: usize| ScreenInfo::from_descriptor(k, screens[k as int]),
    )
}

/// The registry after a refresh from `screens`, whatever it held `before`.
pub open spec fn refreshed(
    before: Map<usize, ScreenInfo>,
    screens: Seq<ScreenDescriptor>,
) -> Map<usize, ScreenInfo> {
    registry_of(screens)
}

/// The answer of a lookup by index.
pub open spec fn lookup(registry: Map<usize, ScreenInfo>, index: usize) -> Result<
    ScreenInfo,
    CaptureError,
> {
    if registry.contains_key(index) {
        Ok(registry[index])
    } else {
        Err(CaptureError::ScreenNotFound(index))
    }
}

/// `result` answers which screen of `registry` is primary: some registered
/// screen that is marked so, or `NoPrimaryScreen` when none is.
pub open spec fn is_primary_of(
    registry: Map<usize, ScreenInfo>,
    result: Result<ScreenInfo, CaptureError>,
) -> bool {
    match result {
        Ok(screen) => {
            &&& registry.contains_key(screen.index)
            &&& registry[screen.index] == screen
            &&& screen.is_primary
        },
        Err(error) => {
            &&& error == CaptureError::NoPrimaryScreen
            &&& forall|k: usize| #[trigger] registry.contains_key(k) ==> !registry[k].is_primary
        },
    }
}

/// `screens` lists every screen of `registry` once, in some order.
pub open spec fn lists_registry(registry: Map<usize, ScreenInfo>, screens: Seq<ScreenInfo>) -> bool {
    &&& screens.len() == registry.len()
    &&& forall|i: int|
        0 <= i < screens.len() ==> registry.contains_key((#[trigger] screens[i]).index)
            && registry[screens[i].index] == screens[i]
    &&& forall|k: usize| #[trigger] registry.contains_key(k) ==> screens.contains(registry[k])
}

/// The desktop that is assumed while no screen is registered.
pub open spec fn default_desktop() -> Rect {
    Rect::from_min_size(Pos2::zero(), Vec2::new(Fixed::from_int(1920), Fixed::from_int(1080)))
}

/// `bounds` is the desktop of `registry`: the smallest rectangle whose
/// corners enclose the bounds of every registered screen, or the default
/// desktop when no screen is registered.
pub open spec fn is_desktop_bounds(registry: Map<usize, ScreenInfo>, bounds: Rect) -> bool {
    if forall|k: usize| !registry.contains_key(k) {
        bounds == default_desktop()
    } else {
        &&& forall|k: usize| #[trigger] registry.contains_key(k) ==> bounds.covers(registry[k].bounds)
        &&& exists|k: usize| #[trigger]
            registry.contains_key(k) && registry[k].bounds.min.x == bounds.min.x
        &&& exists|k: usize| #[trigger]
            registry.contains_key(k) && registry[k].bounds.min.y == bounds.min.y
        &&& exists|k: usize| #[trigger]
            registry.contains_key(k) && registry[k].bounds.max.x == bounds.max.x
        &&& exists|k: usize| #[trigger]
            registry.contains_key(k) && registry[k].bounds.max.y == bounds.max.y
    }
}

/// `found` answers which screen of `registry` holds `point`: some
/// registered screen whose bounds contain it, or nothing when none does.
pub open spec fn is_screen_at(
    registry: Map<usize, ScreenInfo>,
    point: Pos2,
    found: Option<ScreenInfo>,
) -> bool {
    match found {
        Some(screen) => {
            &&& registry.contains_key(screen.index)
            &&& registry[screen.index] == screen
            &&& screen.bounds.contains(point)
        },
        None => forall|k: usize| #[trigger]
            registry.contains_key(k) ==> !registry[k].bounds.contains(point),
    }
}

/// The rectangle spanned by two points, whichever way it was dragged.
pub open spec fn normalized(start: Pos2, end: Pos2) -> Rect {
    Rect::from_min_max(
        Pos2::new(start.x.min(end.x), start.y.min(end.y)),
        Pos2::new(start.x.max(end.x), start.y.max(end.y)),
    )
}

/// The capture request for a desktop-space `selection` that belongs to
/// `screen`: the selection relative to the screen's corner, with the
/// screen's index and DPI factors.
pub open spec fn area_on_screen(screen: ScreenInfo, selection: Rect) -> CaptureArea {
    CaptureArea::with_dpi_scaling(
        Rect::from_min_max(
            Pos2::new(
                selection.min.x.minus(screen.bounds.min.x),
                selection.min.y.minus(screen.bounds.min.y),
            ),
            Pos2::new(
                selection.max.x.minus(screen.bounds.min.x),
                selection.max.y.minus(screen.bounds.min.y),
            ),
        ),
        screen.index,
        screen.dpi_scale_x,
        screen.dpi_scale_y,
    )
}

/// `result` is a correct answer to a drag from `start` to `end`: the area
/// on a screen that holds the center of the selection, or
/// `SelectionNotOnScreen` when no screen holds it.
pub open spec fn is_capture_area_for(
    registry: Map<usize, ScreenInfo>,
    start: Pos2,
    end: Pos2,
    result: Result<CaptureArea, CaptureError>,
) -> bool {
    let selection = normalized(start, end);
    match result {
        Ok(area) => exists|screen: ScreenInfo| #[trigger]
            is_screen_at(registry, selection.center(), Some(screen)) && area == area_on_screen(
                screen,
                selection,
            ),
        Err(error) => error == CaptureError::SelectionNotOnScreen && is_screen_at(
            registry,
            selection.center(),
            None,
        ),
    }
}

/// `physical` leaves the physical extent of `screen`: it starts before the
/// origin, or ends after the screen's far corner scaled by the screen's own
/// DPI factors.
pub open spec fn exceeds_screen(physical: Rect, screen: ScreenInfo) -> bool {
    ||| physical.min.x.raw < 0
    ||| physical.min.y.raw < 0
    ||| physical.max.x.raw > screen.bounds.max.x.times(screen.dpi_scale_x).raw
    ||| physical.max.y.raw > screen.bounds.max.y.times(screen.dpi_scale_y).raw
}

/// The whole pixels of a physical rectangle: its corner and its size, each
/// with the fraction cut off.
pub open spec fn truncated(physical: Rect) -> PixelRect {
    PixelRect {
        x: physical.min.x.to_pixels(),
        y: physical.min.y.to_pixels(),
        width: physical.width().to_pixels(),
        height: physical.height().to_pixels(),
    }
}

/// The pixels to cut out of a capture of the area's screen, or why the
/// area is refused.
pub open spec fn crop_request(registry: Map<usize, ScreenInfo>, area: CaptureArea) -> Result<
    PixelRect,
    CaptureError,
> {
    if !registry.contains_key(area.screen_index) {
        Err(CaptureError::ScreenNotFound(area.screen_index))
    } else if exceeds_screen(area.physical_bounds(), registry[area.screen_index]) {
        Err(CaptureError::AreaOutOfBounds)
    } else {
        Ok(truncated(area.physical_bounds()))
    }
}

/// `result` is what cropping the capture `full` to `area` gives: the cutout
/// at the area's pixels, or the reason why the area is refused.
pub open spec fn is_crop_of(
    registry: Map<usize, ScreenInfo>,
    area: CaptureArea,
    full: DynamicImage,
    result: Result<DynamicImage, CaptureError>,
) -> bool {
    match crop_request(registry, area) {
        Ok(rect) => result is Ok && is_cutout(result->Ok_0, full, rect),
        Err(error) => result is Err && result->Err_0 == error,
    }
}

/// `result` is what the capture of screen `screen_index` gives when the
/// platform knows `display_count` displays and answered with `captured`.
pub open spec fn is_capture_of(
    display_count: nat,
    screen_index: usize,
    captured: Option<Seq<u8>>,
    result: Result<DynamicImage, CaptureError>,
) -> bool {
    if screen_index >= display_count {
        result is Err && result->Err_0 == CaptureError::ScreenNotFound(screen_index)
    } else {
        match captured {
            None => result is Err && result->Err_0 == CaptureError::CaptureFailed(screen_index),
            Some(bytes) => match decoded_image(bytes) {
                Some(image) => result is Ok && result->Ok_0 == image,
                None => result is Err && result->Err_0 is DecodeFailed,
            },
        }
    }
}

/// `result` is what the capture of `area` gives: a failed capture of its
/// screen is passed on, a successful one is cropped to the area.
pub open spec fn is_area_capture_of(
    display_count: nat,
    registry: Map<usize, ScreenInfo>,
    area: CaptureArea,
    captured: Option<Seq<u8>>,
    result: Result<DynamicImage, CaptureError>,
) -> bool {
    if area.screen_index < display_count && captured is Some && decoded_image(captured->0) is Some {
        is_crop_of(registry, area, decoded_image(captured->0)->0, result)
    } else {
        is_capture_of(display_count, area.screen_index, captured, result)
    }
}

/// The bytes that the platform handed over, as a sequence.
pub open spec fn captured_bytes(captured: Option<&[u8]>) -> Option<Seq<u8>> {
    match captured {
        Some(bytes) => Some(bytes@),
        None => None,
    }
}

/// Turns the outcome of decoding into the outcome of a capture.
pub fn decoded_capture(decoded: Result<DynamicImage, ImageError>) -> (r: Result<
    DynamicImage,
    CaptureError,
>)
    ensures
        match decoded {
            Ok(image) => r is Ok && r->Ok_0 == image,
            Err(_) => r is Err && r->Err_0 is DecodeFailed,
        },
{
    match decoded {
        Ok(image) => Ok(image),
        Err(error) => Err(CaptureError::DecodeFailed(image_error_text(&error))),
    }
}

/// The screens that the iteration over a registry yields are a list of
/// the registry.
proof fn lemma_iteration_lists_registry(registry: Map<usize, ScreenInfo>, values: Seq<ScreenInfo>)
    requires
        values.to_set() == registry.values(),
        values.len() == registry.len(),
        forall|k: usize| #[trigger] registry.contains_key(k) ==> registry[k].index == k,
    ensures
        lists_registry(registry, values),
{
    assert forall|i: int| 0 <= i < values.len() implies registry.contains_key(
        (#[trigger] values[i]).index,
    ) && registry[values[i].index] == values[i] by {
        assert(values.to_set().contains(values[i]));
    }
    assert forall|k: usize| #[trigger] registry.contains_key(k) implies values.contains(
        registry[k],
    ) by {
        assert(registry.values().contains(registry[k]));
        assert(values.to_set().contains(registry[k]));
    }
}

impl Default for CaptureService {
    /// A service that knows no display and no screen.
    fn default() -> (r: CaptureService)
        ensures
            r.descriptors() == Seq::<ScreenDescriptor>::empty(),
            r.registry() == Map::<usize, ScreenInfo>::empty(),
    {
        CaptureService { screens: Vec::new(), screen_cache: HashMap::new() }
    }
}

impl CaptureService {
    /// The registered screens by index.
    pub closed spec fn registry(&self) -> Map<usize, ScreenInfo> {
        self.screen_cache@
    }

    /// The displays that the platform enumerated last.
    pub closed spec fn descriptors(&self) -> Seq<ScreenDescriptor> {
        self.screens@
    }

    /// Every registered screen is filed under its own index.
    #[verifier::type_invariant]
    spec fn keyed_by_index(&self) -> bool {
        forall|k: usize| #[trigger]
            self.screen_cache@.contains_key(k) ==> self.screen_cache@[k].index == k
    }

    /// A service for the displays that the platform enumerated. Without a
    /// display there is no service.
    pub fn new(screens: Vec<ScreenDescriptor>) -> (r: Result<CaptureService, CaptureError>)
        ensures
            match r {
                Ok(service) => {
                    &&& screens@.len() > 0
                    &&& service.descriptors() == screens@
                    &&& service.registry() == registry_of(screens@)
                },
                Err(error) => screens@.len() == 0 && error == CaptureError::NoDisplays,
            },
    {
        if screens.len() == 0 {
            return Err(CaptureError::NoDisplays);
        }
        let mut service = CaptureService { screens: Vec::new(), screen_cache: HashMap::new() };
        match service.refresh_screen_info(screens) {
            Ok(()) => Ok(service),
            Err(error) => Err(error),
        }
    }

    /// Replaces the registry by the one for the displays that the platform
    /// enumerates now. Nothing of the earlier registry is kept. Reports
    /// `NoDisplays` when there is no display; the registry is then empty.
    pub fn refresh_screen_info(&mut self, screens: Vec<ScreenDescriptor>) -> (r: Result<
        (),
        CaptureError,
    >)
        ensures
            final(self).descriptors() == screens@,
            final(self).registry() == refreshed(old(self).registry(), screens@),
            r == if screens@.len() == 0 {
                Err::<(), CaptureError>(CaptureError::NoDisplays)
            } else {
                Ok::<(), CaptureError>(())
            },
    {
        let mut cache: HashMap<usize, ScreenInfo> = HashMap::new();

        let count = screens.len();
        let mut index: usize = 0;
        while index < count
            invariant
                count == screens@.len(),
                index <= count,
                forall|k: usize| cache@.contains_key(k) <==> k < index,
                forall|k: usize|
                    k < index ==> #[trigger] cache@[k] == ScreenInfo::from_descriptor(
                        k,
                        screens@[k as int],
                    ),
            decreases count - index,
        {
            let screen_info = ScreenInfo::from_descriptor(index, screens[index]);
            cache.insert(index, screen_info);
            index = index + 1;
        }
        assert(cache@ =~= registry_of(screens@));
        self.screen_cache = cache;
        self.screens = screens;
        if count == 0 {
            Err(CaptureError::NoDisplays)
        } else {
            Ok(())
        }
    }

    /// Registers `screen` under its index, in place of any screen that was
    /// registered under it.
    pub fn insert_screen(&mut self, screen: ScreenInfo)
        ensures
            final(self).registry() == old(self).registry().insert(screen.index, screen),
            final(self).descriptors() == old(self).descriptors(),
    {
        proof {
            use_type_invariant(&*self);
        }
        let mut cache: HashMap<usize, ScreenInfo> = HashMap::new();
        std::mem::swap(&mut self.screen_cache, &mut cache);
        cache.insert(screen.index, screen);
        std::mem::swap(&mut self.screen_cache, &mut cache);
    }

    /// A copy of every registered screen, in no particular order.
    pub fn get_screens(&self) -> (r: Vec<ScreenInfo>)
        ensures
            lists_registry(self.registry(), r@),
    {
        let ghost values = spec_values_iter(&self.screen_cache).remaining().unref();
        let ghost mut examined: int = 0;
        let mut out: Vec<ScreenInfo> = Vec::new();
        for info in it: self.screen_cache.values()
            invariant
                it.seq().unref() == values,
                examined == it.index(),
                out@ == values.subrange(0, examined),
        {
            assert(values[examined] == *info);
            out.push(*info);
            proof {
                examined = examined + 1;
            }
        }
        proof {
            use_type_invariant(self);
            assert(out@ == values);
            lemma_iteration_lists_registry(self.screen_cache@, values);
        }
        out
    }

    /// The screen registered under `screen_index`.
    pub fn get_screen_info(&self, screen_index: usize) -> (r: Result<&ScreenInfo, CaptureError>)
        ensures
            lookup(self.registry(), screen_index) == match r {
                Ok(screen) => Ok::<ScreenInfo, CaptureError>(*screen),
                Err(error) => Err::<ScreenInfo, CaptureError>(error),
            },
    {
        match self.screen_cache.get(&screen_index) {
            Some(screen) => Ok(screen),
            None => Err(CaptureError::ScreenNotFound(screen_index)),
        }
    }

    /// A registered screen that is marked as primary.
    pub fn get_primary_screen(&self) -> (r: Result<&ScreenInfo, CaptureError>)
        ensures
            is_primary_of(
                self.registry(),
                match r {
                    Ok(screen) => Ok(*screen),
                    Err(error) => Err(error),
                },
            ),
    {
        let ghost values = spec_values_iter(&self.screen_cache).remaining().unref();
        let ghost mut examined: int = 0;
        proof {
            use_type_invariant(self);
            lemma_iteration_lists_registry(self.screen_cache@, values);
        }
        for info in it: self.screen_cache.values()
            invariant
                it.seq().unref() == values,
                examined == it.index(),
                lists_registry(self.screen_cache@, values),
                forall|i: int| 0 <= i < examined ==> !(#[trigger] values[i]).is_primary,
        {
            assert(values[examined] == *info);
            if info.is_primary {
                return Ok(info);
            }
            proof {
                examined = examined + 1;
            }
        }
        assert forall|k: usize| #[trigger] self.registry().contains_key(k) implies !self.registry()[k].is_primary by {
            let i = values.index_of(self.registry()[k]);
            assert(!values[i].is_primary);
        }
        Err(CaptureError::NoPrimaryScreen)
    }

    /// The rectangle that spans all registered screens.
    pub fn get_desktop_bounds(&self) -> (r: Rect)
        ensures
            is_desktop_bounds(self.registry(), r),
    {
        let ghost values = spec_values_iter(&self.screen_cache).remaining().unref();
        let ghost mut examined: int = 0;
        // Where in `values` each side of the span was found.
        let ghost mut at_min_x: int = 0;
        let ghost mut at_min_y: int = 0;
        let ghost mut at_max_x: int = 0;
        let ghost mut at_max_y: int = 0;
        let mut span: Option<Rect> = None;
        for info in it: self.screen_cache.values()
            invariant
                it.seq().unref() == values,
                examined == it.index(),
                span is Some <==> examined > 0,
                span is Some ==> {
                    &&& forall|i: int|
                        0 <= i < examined ==> span->0.covers((#[trigger] values[i]).bounds)
                    &&& 0 <= at_min_x < examined && values[at_min_x].bounds.min.x == span->0.min.x
                    &&& 0 <= at_min_y < examined && values[at_min_y].bounds.min.y == span->0.min.y
                    &&& 0 <= at_max_x < examined && values[at_max_x].bounds.max.x == span->0.max.x
                    &&& 0 <= at_max_y < examined && values[at_max_y].bounds.max.y == span->0.max.y
                },
        {
            assert(values[examined] == *info);
            let next = match span {
                None => {
                    proof {
                        at_min_x = examined;
                        at_min_y = examined;
                        at_max_x = examined;
                        at_max_y = examined;
                    }
                    info.bounds
                },
                Some(so_far) => {
                    proof {
                        if info.bounds.min.x.raw < so_far.min.x.raw {
                            at_min_x = examined;
                        }
                        if info.bounds.min.y.raw < so_far.min.y.raw {
                            at_min_y = examined;
                        }
                        if info.bounds.max.x.raw > so_far.max.x.raw {
                            at_max_x = examined;
                        }
                        if info.bounds.max.y.raw > so_far.max.y.raw {
                            at_max_y = examined;
                        }
                    }
                    Rect::from_min_max(
                        Pos2::new(
                            so_far.min.x.min(info.bounds.min.x),
                            so_far.min.y.min(info.bounds.min.y),
                        ),
                        Pos2::new(
                            so_far.max.x.max(info.bounds.max.x),
                            so_far.max.y.max(info.bounds.max.y),
                        ),
                    )
                },
            };
            span = Some(next);
            proof {
                examined = examined + 1;
            }
        }
        proof {
            use_type_invariant(self);
            lemma_iteration_lists_registry(self.screen_cache@, values);
        }
        match span {
            None => Rect::from_min_size(
                Pos2::zero(),
                Vec2::new(Fixed::from_int(1920), Fixed::from_int(1080)),
            ),
            Some(bounds) => {
                proof {
                    let registry = self.registry();
                    assert(registry.contains_key(values[at_min_x].index));
                    assert(registry.contains_key(values[at_min_y].index));
                    assert(registry.contains_key(values[at_max_x].index));
                    assert(registry.contains_key(values[at_max_y].index));
                    assert forall|k: usize| #[trigger] registry.contains_key(k) implies bounds.covers(
                        registry[k].bounds,
                    ) by {
                        let i = values.index_of(registry[k]);
                        assert(bounds.covers(values[i].bounds));
                    }
                }
                bounds
            },
        }
    }

    /// The screen that holds `point`, if any does. Where screens overlap,
    /// any one of those that hold the point may be returned.
    pub fn find_screen_at_point(&self, point: Pos2) -> (r: Option<&ScreenInfo>)
        ensures
            is_screen_at(
                self.registry(),
                point,
                match r {
                    Some(screen) => Some(*screen),
                    None => None,
                },
            ),
    {
        let ghost values = spec_values_iter(&self.screen_cache).remaining().unref();
        let ghost mut examined: int = 0;
        proof {
            use_type_invariant(self);
            lemma_iteration_lists_registry(self.screen_cache@, values);
        }
        for info in it: self.screen_cache.values()
            invariant
                it.seq().unref() == values,
                examined == it.index(),
                lists_registry(self.screen_cache@, values),
                forall|i: int| 0 <= i < examined ==> !(#[trigger] values[i]).bounds.contains(point),
        {
            assert(values[examined] == *info);
            if info.bounds.contains(point) {
                return Some(info);
            }
            proof {
                examined = examined + 1;
            }
        }
        assert forall|k: usize| #[trigger] self.registry().contains_key(k) implies !self.registry()[k].bounds.contains(
            point,
        ) by {
            let i = values.index_of(self.registry()[k]);
            assert(!values[i].bounds.contains(point));
        }
        None
    }

    /// Turns a drag between two desktop-space points into a capture request
    /// on the screen that holds the center of the dragged rectangle.
    pub fn create_capture_area(&self, start: Pos2, end: Pos2) -> (r: Result<
        CaptureArea,
        CaptureError,
    >)
        ensures
            is_capture_area_for(self.registry(), start, end, r),
    {
        let min_x = start.x.min(end.x);
        let min_y = start.y.min(end.y);
        let max_x = start.x.max(end.x);
        let max_y = start.y.max(end.y);

        let bounds = Rect::from_min_max(Pos2::new(min_x, min_y), Pos2::new(max_x, max_y));

        let center = bounds.center();
        let screen_info = match self.find_screen_at_point(center) {
            Some(screen) => screen,
            None => {
                return Err(CaptureError::SelectionNotOnScreen);
            },
        };

        let relative_bounds = Rect::from_min_max(
            Pos2::new(
                bounds.min.x.minus(screen_info.bounds.min.x),
                bounds.min.y.minus(screen_info.bounds.min.y),
            ),
            Pos2::new(
                bounds.max.x.minus(screen_info.bounds.min.x),
                bounds.max.y.minus(screen_info.bounds.min.y),
            ),
        );

        let area = CaptureArea::with_dpi_scaling(
            relative_bounds,
            screen_info.index,
            screen_info.dpi_scale_x,
            screen_info.dpi_scale_y,
        );
        assert(is_screen_at(self.registry(), normalized(start, end).center(), Some(*screen_info)));
        Ok(area)
    }

    /// The image of the primary screen, from what the platform answered to
    /// the request to capture it.
    pub fn capture_primary_screen(&self, captured: Option<&[u8]>) -> (r: Result<
        DynamicImage,
        CaptureError,
    >)
        ensures
            is_primary_of(self.registry(), Err(CaptureError::NoPrimaryScreen)) ==> r is Err
                && r->Err_0 == CaptureError::NoPrimaryScreen,
            !is_primary_of(self.registry(), Err(CaptureError::NoPrimaryScreen)) ==> exists|
                primary: ScreenInfo,
            | #[trigger]
                is_primary_of(self.registry(), Ok(primary)) && is_capture_of(
                    self.descriptors().len(),
                    primary.index,
                    captured_bytes(captured),
                    r,
                ),
    {
        let primary_index = match self.get_primary_screen() {
            Ok(primary_screen) => {
                assert(is_primary_of(self.registry(), Ok(*primary_screen)));
                primary_screen.index
            },
            Err(error) => {
                return Err(error);
            },
        };
        self.capture_screen_by_index(primary_index, captured)
    }

    /// The image of the screen at `screen_index`, from what the platform
    /// answered to the request to capture it: encoded bytes, or nothing
    /// when it declined.
    pub fn capture_screen_by_index(&self, screen_index: usize, captured: Option<&[u8]>) -> (r:
        Result<DynamicImage, CaptureError>)
        ensures
            is_capture_of(self.descriptors().len(), screen_index, captured_bytes(captured), r),
    {
        if screen_index >= self.screens.len() {
            return Err(CaptureError::ScreenNotFound(screen_index));
        }
        let buffer = match captured {
            Some(buffer) => buffer,
            None => {
                return Err(CaptureError::CaptureFailed(screen_index));
            },
        };
        decoded_capture(decode_image(buffer))
    }

    /// The image of `area`, from what the platform answered to the request
    /// to capture the area's screen.
    pub fn capture_area(&self, area: &CaptureArea, captured: Option<&[u8]>) -> (r: Result<
        DynamicImage,
        CaptureError,
    >)
        ensures
            is_area_capture_of(
                self.descriptors().len(),
                self.registry(),
                *area,
                captured_bytes(captured),
                r,
            ),
    {
        let full_image = match self.capture_screen_by_index(area.screen_index, captured) {
            Ok(full_image) => full_image,
            Err(error) => {
                return Err(error);
            },
        };
        self.crop_captured(area, &full_image)
    }

    /// The pixels of a capture that `area` asks for. The area is held
    /// against the physical extent of its screen as the registry has it.
    pub fn crop_rectangle(&self, area: &CaptureArea) -> (r: Result<PixelRect, CaptureError>)
        ensures
            r == crop_request(self.registry(), *area),
    {
        let physical_bounds = area.physical_bounds();

        let screen_info = match self.get_screen_info(area.screen_index) {
            Ok(screen_info) => screen_info,
            Err(error) => {
                return Err(error);
            },
        };
        if physical_bounds.min.x.raw < 0 || physical_bounds.min.y.raw < 0
            || physical_bounds.max.x.raw > screen_info.bounds.max.x.times(
            screen_info.dpi_scale_x,
        ).raw || physical_bounds.max.y.raw > screen_info.bounds.max.y.times(
            screen_info.dpi_scale_y,
        ).raw {
            return Err(CaptureError::AreaOutOfBounds);
        }
        Ok(
            PixelRect {
                x: physical_bounds.min.x.to_pixels(),
                y: physical_bounds.min.y.to_pixels(),
                width: physical_bounds.width().to_pixels(),
                height: physical_bounds.height().to_pixels(),
            },
        )
    }

    /// Cuts `area` out of `full_image`, a capture of the area's screen.
    pub fn crop_captured(&self, area: &CaptureArea, full_image: &DynamicImage) -> (r: Result<
        DynamicImage,
        CaptureError,
    >)
        ensures
            is_crop_of(self.registry(), *area, *full_image, r),
    {
        match self.crop_rectangle(area) {
            Ok(rect) => Ok(crop_image(full_image, rect)),
            Err(error) => Err(error),
        }
    }
}

} // verus!
