//! Built-in widgets' input behaviour (tab bar, checkbox, slider, switch,
//! text input, ...) and the handlers of the gallery demos.
use vstd::prelude::*;

use crate::ecs::{Entity, World};
use crate::event::focus::{FocusState, KeyCallback, KeyHandler};
use crate::event::gesture::event::GestureEvent;
use crate::event::input::InputEvent;
use crate::types::{div_raw, mul_raw, wrap32, Dimension, Fixed, Rect};
use crate::view::{ViewAttach, ViewRegistry, WidgetView};
use crate::event::GestureCallback;
use crate::gallery::demos::click::Toggle;
use crate::gallery::demos::custom_view::{next_palette_color, palette_after, Diamond};
use crate::gallery::demos::disabled::ClickCount;
use crate::gallery::demos::gesture::TapCount;
use crate::widget::{moved_entity, set_position, UserState};

verus! {

/// Tag numbers of marker components, used by view filters.
pub const TAG_BUTTON: u32 = 1;

pub const TAG_CHECKBOX: u32 = 2;

pub const TAG_TABBAR: u32 = 3;

pub const TAG_SLIDER: u32 = 4;

pub const TAG_SWITCH: u32 = 5;

pub const TAG_TEXT_INPUT: u32 = 6;

pub const TAG_PROGRESS_BAR: u32 = 7;

/// Gallery: the card the "disabled" demo toggles.
pub const TAG_TARGET_CARD: u32 = 100;

/// Gallery: the row of tiles of the "custom view" demo.
pub const TAG_CUSTOM_VIEW_TILES: u32 = 101;

#[derive(Clone, Copy, Debug, PartialEq, Eq, Structural)]
pub struct Button {
    pub pressed: bool,
}

#[derive(Clone, Copy, Debug, PartialEq, Eq, Structural)]
pub struct Checkbox {
    pub checked: bool,
}

#[derive(Clone, Copy, Debug, PartialEq, Eq, Structural)]
pub struct TabBar {
    pub count: u8,
    pub selected: u8,
}

#[derive(Clone, Copy, Debug, PartialEq, Eq, Structural)]
pub struct Slider {
    pub min: Fixed,
    pub max: Fixed,
    pub value: Fixed,
}

#[derive(Clone, Copy, Debug, PartialEq, Eq, Structural)]
pub struct Switch {
    pub on: bool,
}

#[derive(Clone, Copy, Debug, PartialEq, Eq, Structural)]
pub struct ProgressBar {
    pub value: Fixed,
}

#[derive(Clone, Copy, Debug, PartialEq, Eq, Structural)]
pub struct TextInput {
    pub cursor: u32,
}

/// A page of a tabbed container: shown while `tab_bar` selects `index`.
#[derive(Clone, Copy, Debug, PartialEq, Eq, Structural)]
pub struct TabContent {
    pub tab_bar: Entity,
    pub index: u8,
}

/// Widget components an entity may carry.
pub struct WidgetComponents {
    pub button: Option<Button>,
    pub checkbox: Option<Checkbox>,
    pub tabbar: Option<TabBar>,
    pub slider: Option<Slider>,
    pub switch: Option<Switch>,
    pub progress_bar: Option<ProgressBar>,
    pub text_input: Option<TextInput>,
    pub tab_content: Option<TabContent>,
    pub toggle: Option<Toggle>,
    pub tap_count: Option<TapCount>,
    pub click_count: Option<ClickCount>,
    pub diamond: Option<Diamond>,
    /// Background colour, `0xRRGGBB`.
    pub bg_color: Option<u32>,
    /// Text content (UTF-8).
    pub text: Option<Vec<u8>>,
}

impl WidgetComponents {
    pub open spec fn empty() -> WidgetComponents {
        WidgetComponents {
            button: None,
            checkbox: None,
            tabbar: None,
            slider: None,
            switch: None,
            progress_bar: None,
            text_input: None,
            tab_content: None,
            toggle: None,
            tap_count: None,
            click_count: None,
            diamond: None,
            bg_color: None,
            text: None,
        }
    }

    pub fn none() -> (w: WidgetComponents)
        ensures
            w == WidgetComponents::empty(),
    {
        WidgetComponents {
            button: None,
            checkbox: None,
            tabbar: None,
            slider: None,
            switch: None,
            progress_bar: None,
            text_input: None,
            tab_content: None,
            toggle: None,
            tap_count: None,
            click_count: None,
            diamond: None,
            bg_color: None,
            text: None,
        }
    }
}

/// Spec: `wc` holds the widget component that marker `tag` names.
pub open spec fn component_marker(wc: WidgetComponents, tag: u32) -> bool {
    ||| tag == TAG_BUTTON && wc.button is Some
    ||| tag == TAG_CHECKBOX && wc.checkbox is Some
    ||| tag == TAG_TABBAR && wc.tabbar is Some
    ||| tag == TAG_SLIDER && wc.slider is Some
    ||| tag == TAG_SWITCH && wc.switch is Some
    ||| tag == TAG_TEXT_INPUT && wc.text_input is Some
    ||| tag == TAG_PROGRESS_BAR && wc.progress_bar is Some
}

pub fn has_component_marker(wc: &WidgetComponents, tag: u32) -> (r: bool)
    ensures
        r == component_marker(*wc, tag),
{
    (tag == TAG_BUTTON && wc.button.is_some()) || (tag == TAG_CHECKBOX && wc.checkbox.is_some()) || (
    tag == TAG_TABBAR && wc.tabbar.is_some()) || (tag == TAG_SLIDER && wc.slider.is_some()) || (tag
        == TAG_SWITCH && wc.switch.is_some()) || (tag == TAG_TEXT_INPUT && wc.text_input.is_some()) || (
    tag == TAG_PROGRESS_BAR && wc.progress_bar.is_some())
}

impl TabBar {
    pub fn new(count: u8) -> (t: TabBar)
        ensures
            t == (TabBar { count, selected: 0 }),
    {
        TabBar { count, selected: 0 }
    }
}

impl Checkbox {
    pub fn new() -> (c: Checkbox)
        ensures
            !c.checked,
    {
        Checkbox { checked: false }
    }
}

impl Switch {
    pub fn new() -> (s: Switch)
        ensures
            !s.on,
    {
        Switch { on: false }
    }
}

impl Button {
    pub fn new() -> (b: Button)
        ensures
            !b.pressed,
    {
        Button { pressed: false }
    }
}

impl TextInput {
    pub fn new() -> (t: TextInput)
        ensures
            t.cursor == 0,
    {
        TextInput { cursor: 0 }
    }
}

/// Spec: a slider value's position in `[min, max]` as a ratio (zero for
/// an empty range).
pub open spec fn slider_ratio_spec(s: Slider) -> i32 {
    let span = wrap32(s.max.raw - s.min.raw);
    if span == 0 {
        0
    } else {
        div_raw(wrap32(s.value.raw - s.min.raw), span)
    }
}

impl Slider {
    pub fn new(min: Fixed, max: Fixed) -> (s: Slider)
        ensures
            s == (Slider { min, max, value: min }),
    {
        Slider { min, max, value: min }
    }

    pub fn ratio(&self) -> (r: Fixed)
        ensures
            r.raw == slider_ratio_spec(*self),
    {
        let span = self.max.sub(self.min);
        if span.raw == 0 {
            Fixed::zero()
        } else {
            self.value.sub(self.min).div(span)
        }
    }
}

/// Library gesture handlers, addressable from a `GestureCallback`.
#[derive(Clone, Copy, Debug, PartialEq, Eq, Structural)]
pub enum BuiltinGesture {
    Button,
    Checkbox,
    TabBar,
    Slider,
    Switch,
    ProgressBar,
    TextInput,
    /// Gallery "click": flip a [`Toggle`] card's colour.
    DemoToggle,
    /// Gallery "gesture": count taps and cycle the colour.
    DemoTapCounter,
    /// Gallery "gesture": follow drags, snap back on release.
    DemoDragBox,
    /// Gallery "gesture": turn red on long press, back on tap.
    DemoLongPressBox,
    /// Gallery "disabled": count taps into the card's text.
    DemoClickCounter,
    /// Gallery "disabled": toggle `Disabled` on the target card.
    DemoDisableToggle,
    /// Gallery "custom view": recolour a diamond tile.
    DemoDiamond,
}

/// Library key handlers.
#[derive(Clone, Copy, Debug, PartialEq, Eq, Structural)]
pub enum BuiltinKey {
    TextInput,
}

/// Spec: `w2` is `w` with only entity `e`'s widget components (and dirty
/// flag, when `dirty`) replaced by `wc`.
pub open spec fn widgets_updated(w: &World, w2: &World, e: Entity, wc: WidgetComponents, dirty: bool) -> bool {
    &&& w2.res == w.res
    &&& w2.entities@ == w.entities@.update(
        e.id as int,
        crate::ecs::EntityData { widgets: wc, dirty: dirty || w.data(e).dirty, ..w.data(e) },
    )
}

/// Spec: the tab a tap at `x` picks on a bar `rect` of `count` tabs.
pub open spec fn tab_at_spec(rect: Rect, count: u8, x: Fixed) -> u8 {
    let rel = wrap32(x.raw - rect.x.raw) as int;
    let idx = crate::types::div_trunc(rel * count as int, rect.w.raw as int);
    if idx < 0 {
        0
    } else if idx >= count as int {
        (count - 1) as u8
    } else {
        idx as u8
    }
}

/// Spec: the slider position a tap at `x` on track `rect` picks, as a
/// ratio in `[0, 1]`.
pub open spec fn track_ratio_spec(rect: Rect, x: Fixed) -> i32 {
    let r = div_raw(wrap32(x.raw - rect.x.raw), rect.w.raw);
    if r < 0 {
        0
    } else if r > 256 {
        256
    } else {
        r
    }
}

fn track_ratio(rect: Rect, x: Fixed) -> (r: Fixed)
    requires
        rect.w.raw != 0,
    ensures
        r.raw == track_ratio_spec(rect, x),
        0 <= r.raw <= 256,
{
    x.sub(rect.x).div(rect.w).clamp(Fixed::zero(), Fixed::one())
}

fn take_widgets(world: &mut World, e: Entity) -> (wc: WidgetComponents)
    requires
        old(world).has(e),
    ensures
        wc == old(world).data(e).widgets,
        final(world).res == old(world).res,
        final(world).entities@ == old(world).entities@.update(
            e.id as int,
            crate::ecs::EntityData { widgets: WidgetComponents::empty(), ..old(world).data(e) },
        ),
{
    let mut wc = WidgetComponents::none();
    std::mem::swap(&mut wc, &mut world.entities[e.id as usize].widgets);
    proof {
        assert(world.entities@ =~= old(world).entities@.update(
            e.id as int,
            crate::ecs::EntityData { widgets: WidgetComponents::empty(), ..old(world).data(e) },
        ));
    }
    wc
}

fn put_widgets(world: &mut World, e: Entity, wc: WidgetComponents, dirty: bool, Ghost(w0): Ghost<World>)
    requires
        w0.has(e),
        old(world).res == w0.res,
        old(world).entities@ == w0.entities@.update(
            e.id as int,
            crate::ecs::EntityData { widgets: WidgetComponents::empty(), ..w0.data(e) },
        ),
    ensures
        widgets_updated(&w0, final(world), e, wc, dirty),
{
    let i = e.id as usize;
    world.entities[i].widgets = wc;
    if dirty {
        world.entities[i].dirty = true;
    }
    proof {
        assert(world.entities@ =~= w0.entities@.update(
            e.id as int,
            crate::ecs::EntityData { widgets: wc, dirty: dirty || w0.data(e).dirty, ..w0.data(e) },
        ));
    }
}

/// Spec: the checkbox handler's effect: a Tap on a checkbox toggles it.
pub open spec fn checkbox_ok(w: &World, w2: &World, e: Entity, ev: GestureEvent, r: bool) -> bool {
    if ev is Tap && w.has(e) && w.data(e).widgets.checkbox is Some {
        &&& r
        &&& widgets_updated(
            w,
            w2,
            e,
            WidgetComponents {
                checkbox: Some(Checkbox { checked: !w.data(e).widgets.checkbox.unwrap().checked }),
                ..w.data(e).widgets
            },
            true,
        )
    } else {
        !r && *w2 == *w
    }
}

/// Tap toggles the checkbox.
pub fn checkbox_handler(world: &mut World, entity: Entity, event: &GestureEvent) -> (r: bool)
    ensures
        checkbox_ok(old(world), final(world), entity, *event, r),
{
    if !(event.is_tap()) || !world.contains(entity) {
        return false;
    }
    let c = match world.entities[entity.id as usize].widgets.checkbox {
        Some(c) => c,
        None => {
            return false;
        },
    };
    let ghost w0 = *world;
    let wc = take_widgets(world, entity);
    put_widgets(world, entity, WidgetComponents { checkbox: Some(Checkbox { checked: !c.checked }), ..wc }, true, Ghost(w0));
    true
}

/// Spec: the tab bar handler's effect: a Tap on a laid-out bar selects the
/// tab under the pointer.
pub open spec fn tabbar_ok(w: &World, w2: &World, e: Entity, ev: GestureEvent, r: bool) -> bool {
    match ev {
        GestureEvent::Tap { x, .. } => if w.has(e) && w.data(e).widgets.tabbar is Some && w.data(
            e,
        ).computed_rect is Some && w.data(e).computed_rect.unwrap().w.raw > 0 && w.data(
            e,
        ).widgets.tabbar.unwrap().count > 0 {
            let tb = w.data(e).widgets.tabbar.unwrap();
            &&& r
            &&& widgets_updated(
                w,
                w2,
                e,
                WidgetComponents {
                    tabbar: Some(TabBar { selected: tab_at_spec(w.data(e).computed_rect.unwrap(), tb.count, x), ..tb }),
                    ..w.data(e).widgets
                },
                true,
            )
        } else {
            !r && *w2 == *w
        },
        _ => !r && *w2 == *w,
    }
}

/// Tap selects the tab under the pointer (tabs share the bar's width).
pub fn tabbar_handler(world: &mut World, entity: Entity, event: &GestureEvent) -> (r: bool)
    ensures
        tabbar_ok(old(world), final(world), entity, *event, r),
{
    let x = match event {
        GestureEvent::Tap { x, .. } => *x,
        _ => {
            return false;
        },
    };
    if !world.contains(entity) {
        return false;
    }
    let tb = match world.entities[entity.id as usize].widgets.tabbar {
        Some(t) => t,
        None => {
            return false;
        },
    };
    let rect = match world.entities[entity.id as usize].computed_rect {
        Some(r) => r,
        None => {
            return false;
        },
    };
    if rect.w.raw <= 0 || tb.count == 0 {
        return false;
    }
    let rel = x.sub(rect.x).raw as i64;
    assert(-0x8000_0000 * 255 <= rel * (tb.count as i64) <= 0x7fff_ffff * 255) by (nonlinear_arith)
        requires
            -0x8000_0000 <= rel <= 0x7fff_ffff,
            0 <= tb.count <= 255,
    ;
    let idx = crate::types::div_i64(rel * (tb.count as i64), rect.w.raw as i64);
    let sel: u8 = if idx < 0 {
        0
    } else if idx >= tb.count as i64 {
        tb.count - 1
    } else {
        idx as u8
    };
    let ghost w0 = *world;
    let wc = take_widgets(world, entity);
    put_widgets(world, entity, WidgetComponents { tabbar: Some(TabBar { selected: sel, ..tb }), ..wc }, true, Ghost(w0));
    true
}

/// Spec: the slider handler's effect: a Tap or drag on a laid-out slider
/// moves its value to the pointer's position on the track.
pub open spec fn slider_ok(w: &World, w2: &World, e: Entity, ev: GestureEvent, r: bool) -> bool {
    let x = match ev {
        GestureEvent::Tap { x, .. } => Some(x),
        GestureEvent::DragStart { x, .. } => Some(x),
        GestureEvent::DragMove { x, .. } => Some(x),
        _ => None,
    };
    if x is Some && w.has(e) && w.data(e).widgets.slider is Some && w.data(e).computed_rect is Some
        && w.data(e).computed_rect.unwrap().w.raw != 0 {
        let s = w.data(e).widgets.slider.unwrap();
        let ratio = track_ratio_spec(w.data(e).computed_rect.unwrap(), x.unwrap());
        let value = wrap32(s.min.raw + mul_raw(ratio, wrap32(s.max.raw - s.min.raw)));
        &&& r
        &&& widgets_updated(
            w,
            w2,
            e,
            WidgetComponents { slider: Some(Slider { value: Fixed { raw: value }, ..s }), ..w.data(e).widgets },
            true,
        )
    } else {
        !r && *w2 == *w
    }
}

/// Tap or drag moves the slider to the pointer, clamped to the track.
pub fn slider_handler(world: &mut World, entity: Entity, event: &GestureEvent) -> (r: bool)
    ensures
        slider_ok(old(world), final(world), entity, *event, r),
{
    let x = match event {
        GestureEvent::Tap { x, .. } => *x,
        GestureEvent::DragStart { x, .. } => *x,
        GestureEvent::DragMove { x, .. } => *x,
        _ => {
            return false;
        },
    };
    if !world.contains(entity) {
        return false;
    }
    let s = match world.entities[entity.id as usize].widgets.slider {
        Some(s) => s,
        None => {
            return false;
        },
    };
    let rect = match world.entities[entity.id as usize].computed_rect {
        Some(r) => r,
        None => {
            return false;
        },
    };
    if rect.w.raw == 0 {
        return false;
    }
    let ratio = track_ratio(rect, x);
    let value = s.min.add(ratio.mul(s.max.sub(s.min)));
    let ghost w0 = *world;
    let wc = take_widgets(world, entity);
    put_widgets(world, entity, WidgetComponents { slider: Some(Slider { value, ..s }), ..wc }, true, Ghost(w0));
    true
}

/// Spec: the switch handler's effect: a Tap flips the switch.
pub open spec fn switch_ok(w: &World, w2: &World, e: Entity, ev: GestureEvent, r: bool) -> bool {
    if ev is Tap && w.has(e) && w.data(e).widgets.switch is Some {
        &&& r
        &&& widgets_updated(
            w,
            w2,
            e,
            WidgetComponents { switch: Some(Switch { on: !w.data(e).widgets.switch.unwrap().on }), ..w.data(e).widgets },
            true,
        )
    } else {
        !r && *w2 == *w
    }
}

/// Tap flips the switch.
pub fn switch_handler(world: &mut World, entity: Entity, event: &GestureEvent) -> (r: bool)
    ensures
        switch_ok(old(world), final(world), entity, *event, r),
{
    if !(event.is_tap()) || !world.contains(entity) {
        return false;
    }
    let s = match world.entities[entity.id as usize].widgets.switch {
        Some(s) => s,
        None => {
            return false;
        },
    };
    let ghost w0 = *world;
    let wc = take_widgets(world, entity);
    put_widgets(world, entity, WidgetComponents { switch: Some(Switch { on: !s.on }), ..wc }, true, Ghost(w0));
    true
}

/// Spec: the button's internal handler: press feedback on Tap and
/// LongPress (redraw), never consuming, so the user handler still runs.
pub open spec fn button_ok(w: &World, w2: &World, e: Entity, ev: GestureEvent, r: bool) -> bool {
    &&& !r
    &&& if (ev is Tap || ev is LongPress) && w.has(e) && w.data(e).widgets.button is Some {
        widgets_updated(w, w2, e, w.data(e).widgets, true)
    } else {
        *w2 == *w
    }
}

fn button_handler(world: &mut World, entity: Entity, event: &GestureEvent) -> (r: bool)
    ensures
        button_ok(old(world), final(world), entity, *event, r),
{
    let relevant = match event {
        GestureEvent::Tap { .. } => true,
        GestureEvent::LongPress { .. } => true,
        _ => false,
    };
    if !relevant || !world.contains(entity) {
        return false;
    }
    if world.entities[entity.id as usize].widgets.button.is_none() {
        return false;
    }
    let ghost w0 = *world;
    let wc = take_widgets(world, entity);
    put_widgets(world, entity, wc, true, Ghost(w0));
    false
}

/// Spec: the progress bar's internal handler: a Tap on a laid-out bar
/// seeks to the pointer.
pub open spec fn progress_ok(w: &World, w2: &World, e: Entity, ev: GestureEvent, r: bool) -> bool {
    match ev {
        GestureEvent::Tap { x, .. } => if w.has(e) && w.data(e).widgets.progress_bar is Some && w.data(
            e,
        ).computed_rect is Some && w.data(e).computed_rect.unwrap().w.raw != 0 {
            &&& r
            &&& widgets_updated(
                w,
                w2,
                e,
                WidgetComponents {
                    progress_bar: Some(ProgressBar { value: Fixed { raw: track_ratio_spec(w.data(e).computed_rect.unwrap(), x) } }),
                    ..w.data(e).widgets
                },
                true,
            )
        } else {
            !r && *w2 == *w
        },
        _ => !r && *w2 == *w,
    }
}

fn progress_handler(world: &mut World, entity: Entity, event: &GestureEvent) -> (r: bool)
    ensures
        progress_ok(old(world), final(world), entity, *event, r),
{
    let x = match event {
        GestureEvent::Tap { x, .. } => *x,
        _ => {
            return false;
        },
    };
    if !world.contains(entity) || world.entities[entity.id as usize].widgets.progress_bar.is_none() {
        return false;
    }
    let rect = match world.entities[entity.id as usize].computed_rect {
        Some(r) => r,
        None => {
            return false;
        },
    };
    if rect.w.raw == 0 {
        return false;
    }
    let v = track_ratio(rect, x);
    let ghost w0 = *world;
    let wc = take_widgets(world, entity);
    put_widgets(world, entity, WidgetComponents { progress_bar: Some(ProgressBar { value: v }), ..wc }, true, Ghost(w0));
    true
}

/// Spec: the text input's internal handler: a Tap focuses the input.
pub open spec fn text_input_tap_ok(w: &World, w2: &World, e: Entity, ev: GestureEvent, r: bool) -> bool {
    if ev is Tap && w.has(e) && w.data(e).widgets.text_input is Some && w.res.focus is Some {
        &&& r
        &&& w2.entities@ == w.entities@
        &&& w2.res == (crate::ecs::Resources { focus: Some(FocusState { focused: Some(e) }), ..w.res })
    } else {
        !r && *w2 == *w
    }
}

fn text_input_tap(world: &mut World, entity: Entity, event: &GestureEvent) -> (r: bool)
    ensures
        text_input_tap_ok(old(world), final(world), entity, *event, r),
{
    if !(event.is_tap()) || !world.contains(entity) {
        return false;
    }
    if world.entities[entity.id as usize].widgets.text_input.is_none() || world.res.focus.is_none() {
        return false;
    }
    world.res.focus = Some(FocusState { focused: Some(entity) });
    true
}

/// Spec: gallery "click": a Tap flips the card and shows the matching colour.
pub open spec fn demo_toggle_ok(w: &World, w2: &World, e: Entity, ev: GestureEvent, r: bool) -> bool {
    if ev is Tap && w.has(e) && w.data(e).widgets.toggle is Some {
        let t = w.data(e).widgets.toggle.unwrap();
        let on = !t.on;
        &&& r
        &&& widgets_updated(
            w,
            w2,
            e,
            WidgetComponents {
                toggle: Some(Toggle { on, ..t }),
                bg_color: Some(if on { t.accent } else { t.base }),
                ..w.data(e).widgets
            },
            true,
        )
    } else {
        r && *w2 == *w
    }
}

fn demo_toggle(world: &mut World, entity: Entity, event: &GestureEvent) -> (r: bool)
    ensures
        demo_toggle_ok(old(world), final(world), entity, *event, r),
{
    if !(event.is_tap()) || !world.contains(entity) {
        return true;
    }
    let t = match world.entities[entity.id as usize].widgets.toggle {
        Some(t) => t,
        None => {
            return true;
        },
    };
    let on = !t.on;
    let ghost w0 = *world;
    let wc = take_widgets(world, entity);
    put_widgets(
        world,
        entity,
        WidgetComponents { toggle: Some(Toggle { on, ..t }), bg_color: Some(if on { t.accent } else { t.base }), ..wc },
        true,
        Ghost(w0),
    );
    true
}

/// Spec: the colours the gallery "gesture" tap box cycles through.
pub open spec fn tap_color_spec(i: int) -> u32 {
    if i == 0 {
        0x3FB950
    } else if i == 1 {
        0xF85149
    } else if i == 2 {
        0xD2A8FF
    } else if i == 3 {
        0x58A6FF
    } else {
        0xFFC832
    }
}

fn tap_color(i: u32) -> (c: u32)
    requires
        i < 5,
    ensures
        c == tap_color_spec(i as int),
{
    if i == 0 {
        0x3FB950
    } else if i == 1 {
        0xF85149
    } else if i == 2 {
        0xD2A8FF
    } else if i == 3 {
        0x58A6FF
    } else {
        0xFFC832
    }
}

/// Spec: `n + 1` on the wrapping `u32` counter.
pub open spec fn count_next(n: u32) -> u32 {
    if n == u32::MAX {
        0
    } else {
        (n + 1) as u32
    }
}

/// Spec: gallery "gesture" tap box: a Tap bumps the count and picks the
/// next colour.
pub open spec fn demo_tap_counter_ok(w: &World, w2: &World, e: Entity, ev: GestureEvent, r: bool) -> bool {
    if ev is Tap && w.has(e) {
        let n = count_next(
            match w.data(e).widgets.tap_count {
                Some(c) => c.0,
                None => u32::MAX,
            },
        );
        &&& r
        &&& widgets_updated(
            w,
            w2,
            e,
            WidgetComponents {
                tap_count: match w.data(e).widgets.tap_count {
                    Some(_) => Some(TapCount(n)),
                    None => None,
                },
                bg_color: Some(tap_color_spec((n % 5) as int)),
                ..w.data(e).widgets
            },
            true,
        )
    } else {
        !r && *w2 == *w
    }
}

fn demo_tap_counter(world: &mut World, entity: Entity, event: &GestureEvent) -> (r: bool)
    ensures
        demo_tap_counter_ok(old(world), final(world), entity, *event, r),
{
    if !(event.is_tap()) || !world.contains(entity) {
        return false;
    }
    let ghost w0 = *world;
    let wc = take_widgets(world, entity);
    let cur: u32 = match wc.tap_count {
        Some(c) => c.0,
        None => u32::MAX,
    };
    let n: u32 = if cur == u32::MAX { 0 } else { cur + 1 };
    let tc = match wc.tap_count {
        Some(_) => Some(TapCount(n)),
        None => None,
    };
    let color = tap_color(n % 5);
    put_widgets(world, entity, WidgetComponents { tap_count: tc, bg_color: Some(color), ..wc }, true, Ghost(w0));
    true
}

/// Spec: gallery "gesture" drag box: follows a drag from its home
/// `(90, 90)` and snaps back when the drag ends.
pub open spec fn demo_drag_box_ok(w: &World, w2: &World, e: Entity, ev: GestureEvent, r: bool) -> bool {
    let home = 23040i32;
    match ev {
        GestureEvent::DragMove { dx, dy, .. } => if w.has(e) {
            &&& r
            &&& w2.res == w.res
            &&& w2.entities@ == w.entities@.update(
                e.id as int,
                moved_entity(w.data(e), Fixed { raw: wrap32(home + dx.raw) }, Fixed { raw: wrap32(home + dy.raw) }),
            )
        } else {
            r && *w2 == *w
        },
        GestureEvent::DragEnd { .. } => if w.has(e) {
            &&& r
            &&& w2.res == w.res
            &&& w2.entities@ == w.entities@.update(
                e.id as int,
                moved_entity(w.data(e), Fixed { raw: home as i32 }, Fixed { raw: home as i32 }),
            )
        } else {
            r && *w2 == *w
        },
        _ => !r && *w2 == *w,
    }
}

fn demo_drag_box(world: &mut World, entity: Entity, event: &GestureEvent) -> (r: bool)
    ensures
        demo_drag_box_ok(old(world), final(world), entity, *event, r),
{
    let home = Fixed::from_int(90);
    match event {
        GestureEvent::DragMove { dx, dy, .. } => {
            if world.contains(entity) {
                set_position(world, entity, home.add(*dx), home.add(*dy));
            }
            true
        },
        GestureEvent::DragEnd { .. } => {
            if world.contains(entity) {
                set_position(world, entity, home, home);
            }
            true
        },
        _ => false,
    }
}

/// Spec: gallery "gesture" long-press box: red after a long press, its
/// own colour again after a tap.
pub open spec fn demo_long_press_ok(w: &World, w2: &World, e: Entity, ev: GestureEvent, r: bool) -> bool {
    let color = match ev {
        GestureEvent::LongPress { .. } => Some(0xFF3232u32),
        GestureEvent::Tap { .. } => Some(0xD2A8FFu32),
        _ => None,
    };
    match color {
        Some(c) => if w.has(e) {
            &&& r
            &&& widgets_updated(w, w2, e, WidgetComponents { bg_color: Some(c), ..w.data(e).widgets }, true)
        } else {
            r && *w2 == *w
        },
        None => !r && *w2 == *w,
    }
}

fn demo_long_press(world: &mut World, entity: Entity, event: &GestureEvent) -> (r: bool)
    ensures
        demo_long_press_ok(old(world), final(world), entity, *event, r),
{
    let color: u32 = match event {
        GestureEvent::LongPress { .. } => 0xFF3232,
        GestureEvent::Tap { .. } => 0xD2A8FF,
        _ => {
            return false;
        },
    };
    if world.contains(entity) {
        let ghost w0 = *world;
        let wc = take_widgets(world, entity);
        put_widgets(world, entity, WidgetComponents { bg_color: Some(color), ..wc }, true, Ghost(w0));
    }
    true
}

/// Spec: the decimal digits of `n`, most significant first.
pub open spec fn decimal_spec(n: nat) -> Seq<u8>
    decreases n,
{
    if n < 10 {
        seq![(48 + n) as u8]
    } else {
        decimal_spec(n / 10).push((48 + n % 10) as u8)
    }
}

/// Decimal digits of `n`, most significant first.
pub fn decimal(n: u32) -> (out: Vec<u8>)
    ensures
        out@ == decimal_spec(n as nat),
    decreases n,
{
    if n < 10 {
        let mut v = Vec::new();
        v.push((48 + n) as u8);
        v
    } else {
        let mut v = decimal(n / 10);
        v.push((48 + n % 10) as u8);
        v
    }
}

/// Spec: the UTF-8 text "Clicked: " followed by `n` in decimal.
pub open spec fn clicked_text_spec(n: nat) -> Seq<u8> {
    seq![67u8, 108, 105, 99, 107, 101, 100, 58, 32] + decimal_spec(n)
}

/// The text "Clicked: n".
pub fn clicked_text(n: u32) -> (out: Vec<u8>)
    ensures
        out@ == clicked_text_spec(n as nat),
{
    let mut v: Vec<u8> = Vec::new();
    v.push(67);
    v.push(108);
    v.push(105);
    v.push(99);
    v.push(107);
    v.push(101);
    v.push(100);
    v.push(58);
    v.push(32);
    let mut d = decimal(n);
    v.append(&mut d);
    proof {
        assert(v@ =~= clicked_text_spec(n as nat));
    }
    v
}

/// Spec: gallery "disabled" card: a Tap bumps its count and shows it.
pub open spec fn demo_click_counter_ok(w: &World, w2: &World, e: Entity, ev: GestureEvent, r: bool) -> bool {
    if ev is Tap && w.has(e) && w.data(e).widgets.click_count is Some {
        let n = count_next(w.data(e).widgets.click_count.unwrap().0);
        &&& r
        &&& widgets_updated(
            w,
            w2,
            e,
            WidgetComponents {
                click_count: Some(ClickCount(n)),
                text: w2.data(e).widgets.text,
                ..w.data(e).widgets
            },
            true,
        )
        &&& w2.data(e).widgets.text matches Some(t) && t@ == clicked_text_spec(n as nat)
    } else {
        r && *w2 == *w
    }
}

fn demo_click_counter(world: &mut World, entity: Entity, event: &GestureEvent) -> (r: bool)
    ensures
        demo_click_counter_ok(old(world), final(world), entity, *event, r),
{
    if !(event.is_tap()) || !world.contains(entity) {
        return true;
    }
    let c = match world.entities[entity.id as usize].widgets.click_count {
        Some(c) => c.0,
        None => {
            return true;
        },
    };
    let n: u32 = if c == u32::MAX { 0 } else { c + 1 };
    let text = clicked_text(n);
    let ghost w0 = *world;
    let wc = take_widgets(world, entity);
    put_widgets(world, entity, WidgetComponents { click_count: Some(ClickCount(n)), text: Some(text), ..wc }, true, Ghost(w0));
    true
}

/// Spec: the first entity (lowest id) carrying `tag`.
pub open spec fn first_tagged_spec(w: &World, tag: u32) -> Option<Entity> {
    first_tagged_from(w, tag, 0)
}

pub open spec fn first_tagged_from(w: &World, tag: u32, i: int) -> Option<Entity>
    decreases w.entities@.len() - i,
{
    if i < 0 || i >= w.entities@.len() || i > u32::MAX {
        None
    } else if crate::ecs::has_marker(w.entities@[i], tag) {
        Some(Entity { id: i as u32, generation: w.entities@[i].generation })
    } else {
        first_tagged_from(w, tag, i + 1)
    }
}

/// The first entity (lowest id) carrying the marker `tag`.
pub fn find_tagged(world: &World, tag: u32) -> (r: Option<Entity>)
    ensures
        r == first_tagged_spec(world, tag),
        r matches Some(e) ==> world.has(e),
{
    let mut i: usize = 0;
    while i < world.entities.len() && i <= u32::MAX as usize
        invariant
            i <= world.entities@.len(),
            first_tagged_spec(world, tag) == first_tagged_from(world, tag, i as int),
        decreases world.entities@.len() - i,
    {
        let e = Entity { id: i as u32, generation: world.entities[i].generation };
        if world.has_tag(e, tag) {
            return Some(e);
        }
        i = i + 1;
    }
    None
}

/// Spec: gallery "disabled" toggle button: a Tap toggles `Disabled` on
/// the target card.
pub open spec fn demo_disable_toggle_ok(w: &World, w2: &World, e: Entity, ev: GestureEvent, r: bool) -> bool {
    &&& r
    &&& match (ev, first_tagged_spec(w, TAG_TARGET_CARD)) {
        (GestureEvent::Tap { .. }, Some(t)) => {
            let d = w.data(t);
            &&& w2.res == w.res
            &&& w2.entities@ == w.entities@.update(
                t.id as int,
                crate::ecs::EntityData {
                    user_state: if d.user_state == Some(UserState::Disabled) {
                        None
                    } else {
                        Some(UserState::Disabled)
                    },
                    dirty: true,
                    ..d
                },
            )
        },
        _ => *w2 == *w,
    }
}

fn demo_disable_toggle(world: &mut World, entity: Entity, event: &GestureEvent) -> (r: bool)
    ensures
        demo_disable_toggle_ok(old(world), final(world), entity, *event, r),
{
    if !(event.is_tap()) {
        return true;
    }
    let t = match find_tagged(world, TAG_TARGET_CARD) {
        Some(t) => t,
        None => {
            return true;
        },
    };
    let i = t.id as usize;
    let next = match world.entities[i].user_state {
        Some(UserState::Disabled) => None,
        _ => Some(UserState::Disabled),
    };
    world.entities[i].user_state = next;
    world.entities[i].dirty = true;
    proof {
        let d = old(world).data(t);
        assert(world.entities@ =~= old(world).entities@.update(
            t.id as int,
            crate::ecs::EntityData {
                user_state: if d.user_state == Some(UserState::Disabled) {
                    None
                } else {
                    Some(UserState::Disabled)
                },
                dirty: true,
                ..d
            },
        ));
    }
    true
}

/// Spec: what running library handler `b` on `e` does.
pub open spec fn builtin_ok(b: BuiltinGesture, w: &World, w2: &World, e: Entity, ev: GestureEvent, r: bool) -> bool {
    match b {
        BuiltinGesture::Button => button_ok(w, w2, e, ev, r),
        BuiltinGesture::Checkbox => checkbox_ok(w, w2, e, ev, r),
        BuiltinGesture::TabBar => tabbar_ok(w, w2, e, ev, r),
        BuiltinGesture::Slider => slider_ok(w, w2, e, ev, r),
        BuiltinGesture::Switch => switch_ok(w, w2, e, ev, r),
        BuiltinGesture::ProgressBar => progress_ok(w, w2, e, ev, r),
        BuiltinGesture::TextInput => text_input_tap_ok(w, w2, e, ev, r),
        BuiltinGesture::DemoToggle => demo_toggle_ok(w, w2, e, ev, r),
        BuiltinGesture::DemoTapCounter => demo_tap_counter_ok(w, w2, e, ev, r),
        BuiltinGesture::DemoDragBox => demo_drag_box_ok(w, w2, e, ev, r),
        BuiltinGesture::DemoLongPressBox => demo_long_press_ok(w, w2, e, ev, r),
        BuiltinGesture::DemoClickCounter => demo_click_counter_ok(w, w2, e, ev, r),
        BuiltinGesture::DemoDisableToggle => demo_disable_toggle_ok(w, w2, e, ev, r),
        BuiltinGesture::DemoDiamond => demo_diamond_ok(w, w2, e, ev, r),
    }
}

/// Spec: gallery "custom view": a Tap gives a diamond tile the next
/// palette colour; the tapped widget is redrawn either way.
pub open spec fn demo_diamond_ok(w: &World, w2: &World, e: Entity, ev: GestureEvent, r: bool) -> bool {
    &&& r
    &&& if ev is Tap && w.has(e) {
        match w.data(e).widgets.diamond {
            Some(d) => widgets_updated(
                w,
                w2,
                e,
                WidgetComponents { diamond: Some(Diamond { color: palette_after(d.color), ..d }), ..w.data(e).widgets },
                true,
            ),
            None => widgets_updated(w, w2, e, w.data(e).widgets, true),
        }
    } else {
        *w2 == *w
    }
}

fn demo_diamond(world: &mut World, entity: Entity, event: &GestureEvent) -> (r: bool)
    ensures
        demo_diamond_ok(old(world), final(world), entity, *event, r),
{
    if !(event.is_tap()) || !world.contains(entity) {
        return true;
    }
    let ghost w0 = *world;
    let wc = take_widgets(world, entity);
    let recoloured = match wc.diamond {
        Some(d) => Some(Diamond { color: next_palette_color(d.color), ..d }),
        None => None,
    };
    put_widgets(world, entity, WidgetComponents { diamond: recoloured, ..wc }, true, Ghost(w0));
    true
}

/// Runs library gesture handler `b` on `entity`; `true` consumes the event.
pub fn run_builtin_gesture(b: BuiltinGesture, world: &mut World, entity: Entity, event: &GestureEvent) -> (r: bool)
    ensures
        builtin_ok(b, old(world), final(world), entity, *event, r),
{
    match b {
        BuiltinGesture::Button => button_handler(world, entity, event),
        BuiltinGesture::Checkbox => checkbox_handler(world, entity, event),
        BuiltinGesture::TabBar => tabbar_handler(world, entity, event),
        BuiltinGesture::Slider => slider_handler(world, entity, event),
        BuiltinGesture::Switch => switch_handler(world, entity, event),
        BuiltinGesture::ProgressBar => progress_handler(world, entity, event),
        BuiltinGesture::TextInput => text_input_tap(world, entity, event),
        BuiltinGesture::DemoToggle => demo_toggle(world, entity, event),
        BuiltinGesture::DemoTapCounter => demo_tap_counter(world, entity, event),
        BuiltinGesture::DemoDragBox => demo_drag_box(world, entity, event),
        BuiltinGesture::DemoLongPressBox => demo_long_press(world, entity, event),
        BuiltinGesture::DemoClickCounter => demo_click_counter(world, entity, event),
        BuiltinGesture::DemoDisableToggle => demo_disable_toggle(world, entity, event),
        BuiltinGesture::DemoDiamond => demo_diamond(world, entity, event),
    }
}

/// Spec: the text input key handler: Backspace and Delete step the cursor
/// back, Left/Right move it, Home/End jump; other keys are taken as typed
/// text and advance the cursor.
pub open spec fn text_key_ok(w: &World, w2: &World, e: Entity, ev: InputEvent, r: bool) -> bool {
    if w.has(e) && w.data(e).widgets.text_input is Some {
        let t = w.data(e).widgets.text_input.unwrap();
        let c = t.cursor;
        let next: Option<u32> = match ev {
            InputEvent::CharInput { .. } => Some(if c == u32::MAX { c } else { (c + 1) as u32 }),
            InputEvent::Key { code, pressed } => if !pressed {
                None
            } else if code == crate::event::input::KEY_BACKSPACE || code == crate::event::input::KEY_LEFT {
                Some(if c == 0 { 0 } else { (c - 1) as u32 })
            } else if code == crate::event::input::KEY_RIGHT {
                Some(if c == u32::MAX { c } else { (c + 1) as u32 })
            } else if code == crate::event::input::KEY_HOME {
                Some(0)
            } else {
                None
            },
            _ => None,
        };
        match next {
            Some(n) => r && widgets_updated(
                w,
                w2,
                e,
                WidgetComponents { text_input: Some(TextInput { cursor: n }), ..w.data(e).widgets },
                true,
            ),
            None => !r && *w2 == *w,
        }
    } else {
        !r && *w2 == *w
    }
}

fn text_input_key(world: &mut World, entity: Entity, event: &InputEvent) -> (r: bool)
    ensures
        text_key_ok(old(world), final(world), entity, *event, r),
{
    if !world.contains(entity) {
        return false;
    }
    let t = match world.entities[entity.id as usize].widgets.text_input {
        Some(t) => t,
        None => {
            return false;
        },
    };
    let c = t.cursor;
    let next: Option<u32> = match event {
        InputEvent::CharInput { .. } => Some(if c == u32::MAX { c } else { c + 1 }),
        InputEvent::Key { code, pressed } => {
            if !*pressed {
                None
            } else if *code == crate::event::input::KEY_BACKSPACE || *code == crate::event::input::KEY_LEFT {
                Some(if c == 0 { 0 } else { c - 1 })
            } else if *code == crate::event::input::KEY_RIGHT {
                Some(if c == u32::MAX { c } else { c + 1 })
            } else if *code == crate::event::input::KEY_HOME {
                Some(0)
            } else {
                None
            }
        },
        _ => None,
    };
    match next {
        Some(n) => {
            let ghost w0 = *world;
            let wc = take_widgets(world, entity);
            put_widgets(world, entity, WidgetComponents { text_input: Some(TextInput { cursor: n }), ..wc }, true, Ghost(w0));
            true
        },
        None => false,
    }
}

/// Runs library key handler `b` on `entity`.
pub fn run_builtin_key(b: BuiltinKey, world: &mut World, entity: Entity, event: &InputEvent) -> (r: bool)
    ensures
        b == BuiltinKey::TextInput ==> text_key_ok(old(world), final(world), entity, *event, r),
{
    match b {
        BuiltinKey::TextInput => text_input_key(world, entity, event),
    }
}

/// Spec: pages of a tab bar show only while their tab is selected: page
/// `i` ends up hidden exactly when its bar exists and selects another tab.
pub open spec fn tab_page_hidden(w: &World, d: crate::ecs::EntityData) -> bool {
    match d.widgets.tab_content {
        Some(tc) => if w.has(tc.tab_bar) && w.data(tc.tab_bar).widgets.tabbar is Some {
            w.data(tc.tab_bar).widgets.tabbar.unwrap().selected != tc.index
        } else {
            d.hidden
        },
        None => d.hidden,
    }
}

/// Shows the page of each tab bar's selected tab and hides the others.
pub fn tab_pages_system(world: &mut World)
    ensures
        final(world).res == old(world).res,
        final(world).entities@.len() == old(world).entities@.len(),
        forall|i: int|
            0 <= i < old(world).entities@.len() ==> #[trigger] final(world).entities@[i] == (crate::ecs::EntityData {
                hidden: tab_page_hidden(old(world), old(world).entities@[i]),
                dirty: old(world).entities@[i].dirty || tab_page_hidden(old(world), old(world).entities@[i])
                    != old(world).entities@[i].hidden,
                ..old(world).entities@[i]
            }),
{
    let n = world.entities.len();
    let mut hidden: Vec<bool> = Vec::new();
    let mut i: usize = 0;
    while i < n
        invariant
            n == world.entities@.len(),
            *world == *old(world),
            i <= n,
            hidden@.len() == i,
            forall|j: int| 0 <= j < i ==> hidden@[j] == tab_page_hidden(old(world), old(world).entities@[j]),
        decreases n - i,
    {
        let d = &world.entities[i];
        let h = match d.widgets.tab_content {
            Some(tc) => {
                let bar_sel = if world.contains(tc.tab_bar) {
                    match world.entities[tc.tab_bar.id as usize].widgets.tabbar {
                        Some(tb) => Some(tb.selected),
                        None => None,
                    }
                } else {
                    None
                };
                match bar_sel {
                    Some(sel) => sel != tc.index,
                    None => d.hidden,
                }
            },
            None => d.hidden,
        };
        hidden.push(h);
        i = i + 1;
    }
    let mut j: usize = 0;
    while j < n
        invariant
            n == world.entities@.len(),
            n == old(world).entities@.len(),
            hidden@.len() == n,
            world.res == old(world).res,
            j <= n,
            forall|k: int| 0 <= k < n ==> hidden@[k] == tab_page_hidden(old(world), old(world).entities@[k]),
            forall|k: int|
                0 <= k < j ==> #[trigger] world.entities@[k] == (crate::ecs::EntityData {
                    hidden: tab_page_hidden(old(world), old(world).entities@[k]),
                    dirty: old(world).entities@[k].dirty || tab_page_hidden(old(world), old(world).entities@[k])
                        != old(world).entities@[k].hidden,
                    ..old(world).entities@[k]
                }),
            forall|k: int| j <= k < n ==> #[trigger] world.entities@[k] == old(world).entities@[k],
        decreases n - j,
    {
        let h = hidden[j];
        if world.entities[j].hidden != h {
            world.entities[j].hidden = h;
            world.entities[j].dirty = true;
        }
        j = j + 1;
    }
}


/// Spec: the view a built-in widget registers: filtered on its marker,
/// with its library gesture handler.
pub open spec fn widget_view_spec(priority: u8, tag: u32, b: BuiltinGesture) -> WidgetView {
    WidgetView {
        name: "",
        priority,
        filter: Some(tag),
        internal: Some(GestureCallback::Builtin(b)),
        attach: None,
    }
}

fn widget_view(name: &'static str, priority: u8, tag: u32, b: BuiltinGesture) -> (v: WidgetView)
    ensures
        v == (WidgetView { name, ..widget_view_spec(priority, tag, b) }),
{
    WidgetView::new(name, priority).with_filter(tag).with_internal_gesture(GestureCallback::Builtin(b))
}

/// The button's view: its internal handler tracks the pressed state.
pub fn button_view() -> (v: WidgetView)
    ensures
        v == (WidgetView { name: v.name, ..widget_view_spec(10, TAG_BUTTON, BuiltinGesture::Button) }),
{
    widget_view("button", 10, TAG_BUTTON, BuiltinGesture::Button)
}

/// The checkbox's view: a tap toggles it.
pub fn checkbox_view() -> (v: WidgetView)
    ensures
        v == (WidgetView { name: v.name, ..widget_view_spec(11, TAG_CHECKBOX, BuiltinGesture::Checkbox) }),
{
    widget_view("checkbox", 11, TAG_CHECKBOX, BuiltinGesture::Checkbox)
}

/// The tab bar's view: a tap selects the tab under the pointer.
pub fn tabbar_view() -> (v: WidgetView)
    ensures
        v == (WidgetView { name: v.name, ..widget_view_spec(12, TAG_TABBAR, BuiltinGesture::TabBar) }),
{
    widget_view("tabbar", 12, TAG_TABBAR, BuiltinGesture::TabBar)
}

/// The slider's view: taps and drags move the value.
pub fn slider_view() -> (v: WidgetView)
    ensures
        v == (WidgetView { name: v.name, ..widget_view_spec(13, TAG_SLIDER, BuiltinGesture::Slider) }),
{
    widget_view("slider", 13, TAG_SLIDER, BuiltinGesture::Slider)
}

/// The switch's view: a tap flips it.
pub fn switch_view() -> (v: WidgetView)
    ensures
        v == (WidgetView { name: v.name, ..widget_view_spec(14, TAG_SWITCH, BuiltinGesture::Switch) }),
{
    widget_view("switch", 14, TAG_SWITCH, BuiltinGesture::Switch)
}

/// The progress bar's view.
pub fn progress_bar_view() -> (v: WidgetView)
    ensures
        v == (WidgetView {
            name: v.name,
            ..widget_view_spec(15, TAG_PROGRESS_BAR, BuiltinGesture::ProgressBar)
        }),
{
    widget_view("progress_bar", 15, TAG_PROGRESS_BAR, BuiltinGesture::ProgressBar)
}

/// The text input's view: tap-to-focus, plus the attach step that makes
/// text inputs focusable with the text key handler.
pub fn text_input_view() -> (v: WidgetView)
    ensures
        v == (WidgetView {
            name: v.name,
            attach: Some(ViewAttach::TextInput),
            ..widget_view_spec(16, TAG_TEXT_INPUT, BuiltinGesture::TextInput)
        }),
{
    widget_view("text_input", 16, TAG_TEXT_INPUT, BuiltinGesture::TextInput).with_auto_attach(
        ViewAttach::TextInput,
    )
}

/// The views of every built-in widget, in registration order.
pub fn default_views() -> (r: ViewRegistry)
    ensures
        r.views@.len() == 7,
        r.views@[0].internal == Some(GestureCallback::Builtin(BuiltinGesture::Button)),
        r.views@[1].internal == Some(GestureCallback::Builtin(BuiltinGesture::Checkbox)),
        r.views@[2].internal == Some(GestureCallback::Builtin(BuiltinGesture::TabBar)),
        r.views@[3].internal == Some(GestureCallback::Builtin(BuiltinGesture::Slider)),
        r.views@[4].internal == Some(GestureCallback::Builtin(BuiltinGesture::Switch)),
        r.views@[5].internal == Some(GestureCallback::Builtin(BuiltinGesture::ProgressBar)),
        r.views@[6].internal == Some(GestureCallback::Builtin(BuiltinGesture::TextInput)),
        r.views@[0].filter == Some(TAG_BUTTON),
        r.views@[1].filter == Some(TAG_CHECKBOX),
        r.views@[2].filter == Some(TAG_TABBAR),
        r.views@[3].filter == Some(TAG_SLIDER),
        r.views@[4].filter == Some(TAG_SWITCH),
        r.views@[5].filter == Some(TAG_PROGRESS_BAR),
        r.views@[6].filter == Some(TAG_TEXT_INPUT),
        forall|i: int| 0 <= i < 6 ==> r.views@[i].attach is None,
        r.views@[6].attach == Some(ViewAttach::TextInput),
{
    let mut r = ViewRegistry::new();
    r.insert(button_view());
    r.insert(checkbox_view());
    r.insert(tabbar_view());
    r.insert(slider_view());
    r.insert(switch_view());
    r.insert(progress_bar_view());
    r.insert(text_input_view());
    r
}

/// Registers the built-in widgets' views with the world.
pub fn with_default_widgets(world: &mut World)
    ensures
        final(world).entities@ == old(world).entities@,
        final(world).res.views matches Some(r) && r.views@.len() == 7,
        final(world).res == (crate::ecs::Resources { views: final(world).res.views, ..old(world).res }),
{
    world.res.views = Some(default_views());
}

} // verus!
