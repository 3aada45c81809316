//! What holds of the capture service and of the editor's view as a whole,
//! stated over the specifications of their operations and proved from them.

use crate::capture::{
    crop_request, default_desktop, exceeds_screen, is_capture_area_for, is_crop_of,
    is_desktop_bounds, is_primary_of, is_screen_at, lookup, normalized, refreshed, registry_of,
};
use crate::editor_app::{
    constrained_pan, max_zoom, min_visible_size, min_zoom, scrolled_zoom, zoomed_in, zoomed_out,
};
use crate::error::CaptureError;
use crate::fixed::Fixed;
use crate::geometry::{Pos2, Rect, Vec2};
use crate::types::{CaptureArea, ScreenDescriptor, ScreenInfo};
use image::DynamicImage;
use vstd::prelude::*;

verus! {

/// The desktop is at least as large as any well-formed screen on it, and
/// so as the largest of them.
pub proof fn lemma_desktop_area_dominates(
    registry: Map<usize, ScreenInfo>,
    bounds: Rect,
    index: usize,
)
    requires
        is_desktop_bounds(registry, bounds),
        registry.contains_key(index),
        registry[index].well_formed(),
    ensures
        bounds.covers(registry[index].bounds),
        bounds.area() >= registry[index].bounds.area(),
{
    let screen = registry[index].bounds;
    let desktop_width = bounds.max.x.raw - bounds.min.x.raw;
    let desktop_height = bounds.max.y.raw - bounds.min.y.raw;
    let width = screen.max.x.raw - screen.min.x.raw;
    let height = screen.max.y.raw - screen.min.y.raw;
    assert(desktop_width * desktop_height >= width * height) by (nonlinear_arith)
        requires
            desktop_width >= width > 0,
            desktop_height >= height > 0,
    ;
}

/// A registry has one desktop only.
pub proof fn lemma_desktop_bounds_are_unique(
    registry: Map<usize, ScreenInfo>,
    first: Rect,
    second: Rect,
)
    requires
        is_desktop_bounds(registry, first),
        is_desktop_bounds(registry, second),
    ensures
        first == second,
{
}

/// Without a screen the desktop is the default one: 1920 by 1080 units
/// at the origin.
pub proof fn lemma_empty_desktop_is_default(bounds: Rect)
    requires
        is_desktop_bounds(Map::<usize, ScreenInfo>::empty(), bounds),
    ensures
        bounds == default_desktop(),
        bounds.min == Pos2::zero(),
        bounds.size() == Vec2::new(Fixed::from_int(1920), Fixed::from_int(1080)),
{
}

/// Where no two screens share a point, a point on a screen resolves to
/// that screen and to no other, and a point on no screen resolves to none.
pub proof fn lemma_disjoint_screens_resolve_uniquely(
    registry: Map<usize, ScreenInfo>,
    point: Pos2,
    found: Option<ScreenInfo>,
)
    requires
        is_screen_at(registry, point, found),
        forall|a: usize, b: usize|
            registry.contains_key(a) && registry.contains_key(b) && a != b
                ==> #[trigger] registry[a].bounds.disjoint(#[trigger] registry[b].bounds),
    ensures
        forall|k: usize|
            registry.contains_key(k) && #[trigger] registry[k].bounds.contains(point) ==> found
                == Some(registry[k]),
        found is None <==> forall|k: usize| #[trigger]
            registry.contains_key(k) ==> !registry[k].bounds.contains(point),
{
    assert forall|k: usize|
        registry.contains_key(k) && #[trigger] registry[k].bounds.contains(point) implies found
        == Some(registry[k]) by {
        let screen = found->0;
        if screen.index != k {
            assert(registry[screen.index].bounds.disjoint(registry[k].bounds));
            assert(registry[k].bounds.contains(point));
        }
    }
}

/// A drag and the reverse drag span the same rectangle, whose corners are
/// the smaller and the larger coordinates of the two points, and are
/// answered alike.
pub proof fn lemma_drag_direction_is_irrelevant(
    registry: Map<usize, ScreenInfo>,
    start: Pos2,
    end: Pos2,
    result: Result<CaptureArea, CaptureError>,
)
    ensures
        normalized(start, end) == normalized(end, start),
        normalized(start, end).min.x.raw <= normalized(start, end).max.x.raw,
        normalized(start, end).min.y.raw <= normalized(start, end).max.y.raw,
        is_capture_area_for(registry, start, end, result) <==> is_capture_area_for(
            registry,
            end,
            start,
            result,
        ),
{
    assert(start.x.min(end.x) == end.x.min(start.x));
    assert(start.y.min(end.y) == end.y.min(start.y));
    assert(start.x.max(end.x) == end.x.max(start.x));
    assert(start.y.max(end.y) == end.y.max(start.y));
    assert(normalized(start, end) == normalized(end, start));
}

/// A selection is refused as not on any screen exactly when its center
/// lies on no screen, and is then never answered with an area.
pub proof fn lemma_selection_off_screen_is_refused(
    registry: Map<usize, ScreenInfo>,
    start: Pos2,
    end: Pos2,
    result: Result<CaptureArea, CaptureError>,
)
    requires
        is_capture_area_for(registry, start, end, result),
    ensures
        result is Err <==> is_screen_at(registry, normalized(start, end).center(), None),
        result is Err ==> result == Err::<CaptureArea, CaptureError>(
            CaptureError::SelectionNotOnScreen,
        ),
{
    let center = normalized(start, end).center();
    if result is Ok {
        let screen = choose|screen: ScreenInfo| #[trigger]
            is_screen_at(registry, center, Some(screen));
        assert(registry.contains_key(screen.index));
    }
}

/// An area made from a selection names a registered screen and carries
/// that screen's DPI factors, so the bounds it is later held against are
/// those of the screen it was made for.
pub proof fn lemma_created_area_names_its_screen(
    registry: Map<usize, ScreenInfo>,
    start: Pos2,
    end: Pos2,
    area: CaptureArea,
)
    requires
        is_capture_area_for(registry, start, end, Ok(area)),
    ensures
        registry.contains_key(area.screen_index),
        registry[area.screen_index].bounds.contains(normalized(start, end).center()),
        area.dpi_scale_x == registry[area.screen_index].dpi_scale_x,
        area.dpi_scale_y == registry[area.screen_index].dpi_scale_y,
        crop_request(registry, area) != Err::<crate::imaging::PixelRect, CaptureError>(
            CaptureError::ScreenNotFound(area.screen_index),
        ),
{
    let center = normalized(start, end).center();
    let screen = choose|screen: ScreenInfo| #[trigger]
        is_screen_at(registry, center, Some(screen)) && area == crate::capture::area_on_screen(
            screen,
            normalized(start, end),
        );
    assert(area.screen_index == screen.index);
}

/// An area that leaves the physical extent of its screen is refused as out
/// of bounds: nothing is cut out of the capture.
pub proof fn lemma_area_beyond_screen_is_refused(
    registry: Map<usize, ScreenInfo>,
    area: CaptureArea,
    full: DynamicImage,
    result: Result<DynamicImage, CaptureError>,
)
    requires
        registry.contains_key(area.screen_index),
        exceeds_screen(area.physical_bounds(), registry[area.screen_index]),
        is_crop_of(registry, area, full, result),
    ensures
        crop_request(registry, area) == Err::<crate::imaging::PixelRect, CaptureError>(
            CaptureError::AreaOutOfBounds,
        ),
        result == Err::<DynamicImage, CaptureError>(CaptureError::AreaOutOfBounds),
{
}

/// An empty registry answers every lookup by index with `ScreenNotFound`
/// and the question for the primary screen with `NoPrimaryScreen`.
pub proof fn lemma_empty_registry_lookups_fail(
    index: usize,
    primary: Result<ScreenInfo, CaptureError>,
)
    requires
        is_primary_of(Map::<usize, ScreenInfo>::empty(), primary),
    ensures
        lookup(Map::<usize, ScreenInfo>::empty(), index) == Err::<ScreenInfo, CaptureError>(
            CaptureError::ScreenNotFound(index),
        ),
        primary == Err::<ScreenInfo, CaptureError>(CaptureError::NoPrimaryScreen),
{
}

/// Refreshing again from the same displays changes nothing: the registry
/// depends on the enumerated displays alone.
pub proof fn lemma_refresh_is_idempotent(
    before: Map<usize, ScreenInfo>,
    screens: Seq<ScreenDescriptor>,
)
    ensures
        refreshed(refreshed(before, screens), screens) == refreshed(before, screens),
        refreshed(before, screens) == registry_of(screens),
{
}

/// A refreshed registry holds one screen for each display, under the
/// position of the display, and exactly the first of them is primary.
pub proof fn lemma_refreshed_registry_has_one_primary(screens: Seq<ScreenDescriptor>, index: usize)
    requires
        index < screens.len(),
    ensures
        registry_of(screens).contains_key(index),
        registry_of(screens)[index].index == index,
        registry_of(screens)[index].is_primary <==> index == 0,
        forall|k: usize| registry_of(screens).contains_key(k) <==> k < screens.len(),
{
}

/// A display of positive size is registered as a well-formed screen with
/// the position and the size of the display.
pub proof fn lemma_refreshed_screen_is_well_formed(index: usize, screen: ScreenDescriptor)
    requires
        screen.width > 0,
        screen.height > 0,
    ensures
        ScreenInfo::from_descriptor(index, screen).well_formed(),
        ScreenInfo::from_descriptor(index, screen).bounds.min.x.raw == screen.x * 65536,
        ScreenInfo::from_descriptor(index, screen).bounds.min.y.raw == screen.y * 65536,
        ScreenInfo::from_descriptor(index, screen).bounds.max.x.raw == (screen.x + screen.width)
            * 65536,
        ScreenInfo::from_descriptor(index, screen).bounds.max.y.raw == (screen.y + screen.height)
            * 65536,
{
}

/// Within the range in which no product or sum is clamped, the physical
/// bounds are the logical ones scaled exactly: each coordinate of `min` and
/// each extent is multiplied by the DPI factor of its axis and rounded down
/// to a multiple of `1 / 65536`.
pub proof fn lemma_physical_bounds_are_scaled(area: CaptureArea)
    requires
        -0x4000_0000_0000 <= area.bounds.min.x.raw <= 0x4000_0000_0000,
        -0x4000_0000_0000 <= area.bounds.min.y.raw <= 0x4000_0000_0000,
        -0x4000_0000_0000 <= area.bounds.max.x.raw <= 0x4000_0000_0000,
        -0x4000_0000_0000 <= area.bounds.max.y.raw <= 0x4000_0000_0000,
        0 <= area.dpi_scale_x.raw <= 0x100_0000,
        0 <= area.dpi_scale_y.raw <= 0x100_0000,
    ensures
        area.physical_bounds().min.x.raw == (area.bounds.min.x.raw * area.dpi_scale_x.raw) / 65536,
        area.physical_bounds().min.y.raw == (area.bounds.min.y.raw * area.dpi_scale_y.raw) / 65536,
        area.physical_bounds().width().raw == ((area.bounds.max.x.raw - area.bounds.min.x.raw)
            * area.dpi_scale_x.raw) / 65536,
        area.physical_bounds().height().raw == ((area.bounds.max.y.raw - area.bounds.min.y.raw)
            * area.dpi_scale_y.raw) / 65536,
{
    lemma_scaled_stays_in_range(area.bounds.min.x.raw as int, area.dpi_scale_x.raw as int);
    lemma_scaled_stays_in_range(area.bounds.min.y.raw as int, area.dpi_scale_y.raw as int);
    lemma_scaled_stays_in_range(
        area.bounds.max.x.raw - area.bounds.min.x.raw,
        area.dpi_scale_x.raw as int,
    );
    lemma_scaled_stays_in_range(
        area.bounds.max.y.raw - area.bounds.min.y.raw,
        area.dpi_scale_y.raw as int,
    );
}

/// A coordinate of moderate size, scaled by a moderate factor, stays of
/// moderate size.
proof fn lemma_scaled_stays_in_range(value: int, factor: int)
    requires
        -0x8000_0000_0000 <= value <= 0x8000_0000_0000,
        0 <= factor <= 0x100_0000,
    ensures
        -0x80_0000_0000_0000 <= (value * factor) / 65536 <= 0x80_0000_0000_0000,
{
    let product = value * factor;
    assert(-0x8000_0000_0000 * 0x100_0000 <= product <= 0x8000_0000_0000 * 0x100_0000)
        by (nonlinear_arith)
        requires
            product == value * factor,
            -0x8000_0000_0000 <= value <= 0x8000_0000_0000,
            0 <= factor <= 0x100_0000,
    ;
    vstd::arithmetic::div_mod::lemma_fundamental_div_mod(product, 65536);
}

/// An unscaled area within that range takes the same rectangle in physical
/// pixels as in logical units.
pub proof fn lemma_unscaled_area_is_physical(bounds: Rect, screen_index: usize)
    requires
        -0x4000_0000_0000 <= bounds.min.x.raw <= 0x4000_0000_0000,
        -0x4000_0000_0000 <= bounds.min.y.raw <= 0x4000_0000_0000,
        -0x4000_0000_0000 <= bounds.max.x.raw <= 0x4000_0000_0000,
        -0x4000_0000_0000 <= bounds.max.y.raw <= 0x4000_0000_0000,
    ensures
        CaptureArea::new(bounds, screen_index).physical_bounds() == bounds,
{
    let area = CaptureArea::new(bounds, screen_index);
    lemma_physical_bounds_are_scaled(area);
    assert(area.physical_bounds().min.x.raw == bounds.min.x.raw);
    assert(area.physical_bounds().min.y.raw == bounds.min.y.raw);
    assert(area.physical_bounds().max.x.raw == bounds.max.x.raw);
    assert(area.physical_bounds().max.y.raw == bounds.max.y.raw);
}

/// The zoom controls never leave the range from a tenth to ten: a zoom
/// within it stays within it on a step in, a step out and a turn of the
/// wheel.
pub proof fn lemma_zoom_stays_within_limits(zoom: Fixed, scroll_delta: Fixed)
    requires
        min_zoom().raw <= zoom.raw <= max_zoom().raw,
    ensures
        min_zoom().raw <= zoomed_in(zoom).raw <= max_zoom().raw,
        min_zoom().raw <= zoomed_out(zoom).raw <= max_zoom().raw,
        min_zoom().raw <= scrolled_zoom(zoom, scroll_delta).raw <= max_zoom().raw,
        zoom.raw <= zoomed_in(zoom).raw,
        zoomed_out(zoom).raw <= zoom.raw,
{
    let raw = zoom.raw as int;
    assert(min_zoom().raw == 6553);
    assert(max_zoom().raw == 655360);
    let step = Fixed::from_ratio(6, 5).raw as int;
    assert(step == 78643);
    let grown = (raw * step) / 65536;
    assert(raw <= grown) by {
        assert(raw * 78643 >= raw * 65536) by (nonlinear_arith)
            requires
                raw >= 0,
        ;
        vstd::arithmetic::div_mod::lemma_fundamental_div_mod(raw * 78643, 65536);
    }
    let shrunk = (raw * 65536) / step;
    assert(0 <= shrunk <= raw) by {
        vstd::arithmetic::div_mod::lemma_fundamental_div_mod(raw * 65536, 78643);
    }
}

/// A constrained pan lies between the two limits that keep fifty units of
/// the image on the canvas, and a pan between them is left as it is.
pub proof fn lemma_constrained_pan_is_within_limits(
    pan: Vec2,
    canvas_size: Vec2,
    display_size: Vec2,
)
    ensures
        display_size.x.minus(min_visible_size()).max(Fixed::zero()).negated().raw
            <= constrained_pan(pan, canvas_size, display_size).x.raw <= canvas_size.x.minus(
            min_visible_size(),
        ).max(Fixed::zero()).raw,
        display_size.y.minus(min_visible_size()).max(Fixed::zero()).negated().raw
            <= constrained_pan(pan, canvas_size, display_size).y.raw <= canvas_size.y.minus(
            min_visible_size(),
        ).max(Fixed::zero()).raw,
        constrained_pan(constrained_pan(pan, canvas_size, display_size), canvas_size, display_size)
            == constrained_pan(pan, canvas_size, display_size),
{
}

} // verus!
