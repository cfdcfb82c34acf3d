use vstd::prelude::*;

use crate::view_context::{queued, Effect, TuiViewContext};

verus! {

/// The UI zoom levels, in percent, from smallest to largest.
pub open spec fn zoom_levels() -> Seq<u16> {
    seq![50u16, 67, 75, 80, 90, 100, 110, 125, 150, 175, 200, 250, 300, 350]
}

/// The zoom levels as an array.
pub fn zoom_level_values() -> (values: [u16; 14])
    ensures
        values@ == zoom_levels(),
{
    let values: [u16; 14] = [50, 67, 75, 80, 90, 100, 110, 125, 150, 175, 200, 250, 300, 350];
    assert(values@ =~= zoom_levels());
    values
}

/// The zoom level one step up or down from `current_zoom`, clamped at the ends of the
/// range; `None` when `current_zoom` is not one of the levels.
pub open spec fn adjusted_zoom(current_zoom: u16, increase: bool) -> Option<u16> {
    if zoom_levels().contains(current_zoom) {
        let index = zoom_levels().index_of(current_zoom);
        let next = if increase {
            if index + 1 < zoom_levels().len() { index + 1 } else { index }
        } else {
            if index > 0 { index - 1 } else { 0 }
        };
        Some(zoom_levels()[next])
    } else {
        None
    }
}

pub fn adjusted_zoom_level(current_zoom: u16, increase: bool) -> (next: Option<u16>)
    ensures
        next == adjusted_zoom(current_zoom, increase),
{
    let values = zoom_level_values();
    let mut position: Option<usize> = None;
    let mut i: usize = 0;
    while i < 14
        invariant_except_break
            position is None,
        invariant
            0 <= i <= 14,
            values@ == zoom_levels(),
            forall|j: int| 0 <= j < i ==> zoom_levels()[j] != current_zoom,
        ensures
            match position {
                Some(k) => k < 14 && zoom_levels()[k as int] == current_zoom && forall|j: int|
                    0 <= j < k ==> zoom_levels()[j] != current_zoom,
                None => forall|j: int| 0 <= j < 14 ==> zoom_levels()[j] != current_zoom,
            },
        decreases 14 - i,
    {
        if values[i] == current_zoom {
            position = Some(i);
            break;
        }
        i = i + 1;
    }
    let current_index = match position {
        None => {
            assert(!zoom_levels().contains(current_zoom));
            return None;
        },
        Some(k) => k,
    };
    proof {
        assert(zoom_levels().contains(current_zoom));
        lemma_zoom_levels_strictly_increase();
        let found = zoom_levels().index_of(current_zoom);
        assert(zoom_levels()[found] == current_zoom);
        assert(found == current_index as int);
    }
    let next_index = if increase {
        if current_index + 1 < 14 { current_index + 1 } else { 13 }
    } else {
        if current_index > 0 { current_index - 1 } else { 0 }
    };
    Some(values[next_index])
}

/// Stepping the zoom never leaves the set of levels, moves at most one level, and moves in
/// the requested direction.
pub proof fn lemma_adjusted_zoom_stays_on_the_scale(current_zoom: u16, increase: bool)
    requires
        zoom_levels().contains(current_zoom),
    ensures
        adjusted_zoom(current_zoom, increase) is Some,
        zoom_levels().contains(adjusted_zoom(current_zoom, increase).unwrap()),
        increase ==> adjusted_zoom(current_zoom, increase).unwrap() >= current_zoom,
        !increase ==> adjusted_zoom(current_zoom, increase).unwrap() <= current_zoom,
{
    lemma_zoom_levels_strictly_increase();
    let index = zoom_levels().index_of(current_zoom);
    let next = if increase {
        if index + 1 < zoom_levels().len() { index + 1 } else { index }
    } else {
        if index > 0 { index - 1 } else { 0 }
    };
    assert(zoom_levels().contains(zoom_levels()[next]));
}

/// A level of the scale sits at exactly one position of it.
proof fn lemma_zoom_level_position(zoom: u16, position: int)
    requires
        0 <= position < 14,
        zoom_levels()[position] == zoom,
    ensures
        zoom_levels().contains(zoom),
        zoom_levels().index_of(zoom) == position,
{
    lemma_zoom_levels_strictly_increase();
    assert(zoom_levels().contains(zoom));
    let found = zoom_levels().index_of(zoom);
    assert(0 <= found < 14 && zoom_levels()[found] == zoom);
}

/// One step up and one step down undo each other away from the ends of the scale, and a
/// step stays put exactly at the end it points to: 350 going up, 50 going down.
pub proof fn lemma_zoom_steps_undo_each_other(current_zoom: u16)
    requires
        zoom_levels().contains(current_zoom),
    ensures
        current_zoom != 350 ==> adjusted_zoom(adjusted_zoom(current_zoom, true).unwrap(), false)
            == Some(current_zoom),
        current_zoom != 50 ==> adjusted_zoom(adjusted_zoom(current_zoom, false).unwrap(), true)
            == Some(current_zoom),
        (adjusted_zoom(current_zoom, true) == Some(current_zoom)) <==> current_zoom == 350,
        (adjusted_zoom(current_zoom, false) == Some(current_zoom)) <==> current_zoom == 50,
{
    lemma_zoom_levels_strictly_increase();
    let levels = zoom_levels();
    let index = levels.index_of(current_zoom);
    assert(0 <= index < 14 && levels[index] == current_zoom);
    if index + 1 < 14 {
        lemma_zoom_level_position(levels[index + 1], index + 1);
    }
    if index > 0 {
        lemma_zoom_level_position(levels[index - 1], index - 1);
    }
}

/// The levels are listed in strictly increasing order.
proof fn lemma_zoom_levels_strictly_increase()
    ensures
        zoom_levels().len() == 14,
        forall|a: int, b: int| 0 <= a < b < 14 ==> #[trigger] zoom_levels()[a] < #[trigger] zoom_levels()[b],
{
    let z = zoom_levels();
    assert(z[0] == 50 && z[1] == 67 && z[2] == 75 && z[3] == 80 && z[4] == 90 && z[5] == 100 && z[6] == 110);
    assert(z[7] == 125 && z[8] == 150 && z[9] == 175 && z[10] == 200 && z[11] == 250 && z[12] == 300 && z[13] == 350);
}

/// The transient zoom indicator shown after a zoom keybinding.
#[derive(Clone, Copy, Debug, PartialEq, Eq, Structural)]
pub struct ZoomLevelHud {
    visible_zoom_level: Option<u16>,
    dismiss_pending: bool,
}

/// How long the indicator stays on screen, in milliseconds.
pub const ZOOM_LEVEL_HUD_TIMEOUT_MS: u64 = 1000;

impl ZoomLevelHud {
    pub closed spec fn spec_visible(self) -> Option<u16> {
        self.visible_zoom_level
    }

    pub closed spec fn spec_dismiss_pending(self) -> bool {
        self.dismiss_pending
    }

    /// A hidden indicator with no dismissal scheduled.
    pub fn new() -> (hud: ZoomLevelHud)
        ensures
            hud.spec_visible() is None,
            !hud.spec_dismiss_pending(),
    {
        ZoomLevelHud { visible_zoom_level: None, dismiss_pending: false }
    }

    /// Shows `zoom_level` and re-renders; any scheduled dismissal is replaced by a new one,
    /// due `ZOOM_LEVEL_HUD_TIMEOUT_MS` from now.
    pub fn show_zoom_level<Ev, Ac, Cb>(&mut self, zoom_level: u16, ctx: &mut TuiViewContext<'_, Ev, Ac, Cb>)
        ensures
            final(self).spec_visible() == Some(zoom_level),
            final(self).spec_dismiss_pending(),
            queued(old(ctx).app@, final(ctx).app@, Effect::ViewNotification { window_id: old(ctx).window_id, view_id: old(ctx).view_id }),
            *final(final(ctx).app) == *final(old(ctx).app),
            final(ctx).window_id == old(ctx).window_id,
            final(ctx).view_id == old(ctx).view_id,
    {
        self.visible_zoom_level = Some(zoom_level);
        self.dismiss_pending = true;
        ctx.notify();
    }

    /// The scheduled dismissal fired: the indicator hides and re-renders.
    pub fn dismiss<Ev, Ac, Cb>(&mut self, ctx: &mut TuiViewContext<'_, Ev, Ac, Cb>)
        ensures
            final(self).spec_visible() is None,
            !final(self).spec_dismiss_pending(),
            queued(old(ctx).app@, final(ctx).app@, Effect::ViewNotification { window_id: old(ctx).window_id, view_id: old(ctx).view_id }),
            *final(final(ctx).app) == *final(old(ctx).app),
            final(ctx).window_id == old(ctx).window_id,
            final(ctx).view_id == old(ctx).view_id,
    {
        self.visible_zoom_level = None;
        self.dismiss_pending = false;
        ctx.notify();
    }

    /// Whether a dismissal is scheduled.
    pub fn dismiss_pending(&self) -> (pending: bool)
        ensures
            pending == self.spec_dismiss_pending(),
    {
        self.dismiss_pending
    }

    /// The zoom level on screen, if any.
    pub fn visible_zoom_level(&self) -> (level: Option<u16>)
        ensures
            level == self.spec_visible(),
    {
        self.visible_zoom_level
    }
}

} // verus!
