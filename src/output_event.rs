//! Resolved outputs: each carries what it needs to produce concrete events
//! without further lookups.
use crate::config::FilteredKeyMapping;
use crate::types::{AbsInfo, AbsoluteAxisType, InputEvent, KeyCode, EV_ABS, EV_KEY, EV_SYN, SYN_REPORT};
use vstd::prelude::*;

verus! {

/// An axis passed through under `axis_type`, with the calibration captured
/// from the input axis.
#[derive(Clone, Copy, Debug, PartialEq, Eq, Structural)]
pub struct AbsAxisOutputEvent {
    pub axis_type: AbsoluteAxisType,
    pub axis_info: AbsInfo,
}

impl AbsAxisOutputEvent {
    pub fn clone_set_value(&self, value: i32) -> (r: AbsAxisOutputEvent)
        ensures
            r == (AbsAxisOutputEvent {
                axis_type: self.axis_type,
                axis_info: self.axis_info.with_value(value),
            }),
    {
        AbsAxisOutputEvent { axis_type: self.axis_type, axis_info: self.axis_info.clone_set_value(value) }
    }

    pub fn to_evdev_event(&self) -> (r: InputEvent)
        ensures
            r == (InputEvent {
                event_type: EV_ABS,
                code: self.axis_type.0,
                value: self.axis_info.value,
            }),
    {
        InputEvent::new(EV_ABS, self.axis_type.0, self.axis_info.value)
    }
}

/// A key with the value to emit.
#[derive(Clone, Copy, Debug, PartialEq, Eq, Structural)]
pub struct KeyOutputEvent {
    pub code: KeyCode,
    pub value: i32,
}

impl KeyOutputEvent {
    pub fn new(code: KeyCode, value: i32) -> (r: KeyOutputEvent)
        ensures
            r == (KeyOutputEvent { code, value }),
    {
        KeyOutputEvent { code, value }
    }

    pub fn code(&self) -> (r: KeyCode)
        ensures
            r == self.code,
    {
        self.code
    }

    pub fn value(&self) -> (r: i32)
        ensures
            r == self.value,
    {
        self.value
    }

    pub fn to_evdev_event(&self) -> (r: InputEvent)
        ensures
            r == (InputEvent { event_type: EV_KEY, code: self.code.0, value: self.value }),
    {
        InputEvent::new(EV_KEY, self.code.0, self.value)
    }
}

impl From<KeyCode> for KeyOutputEvent {
    fn from(code: KeyCode) -> (r: KeyOutputEvent)
        ensures
            r == (KeyOutputEvent { code, value: 0 }),
    {
        KeyOutputEvent { code, value: 0 }
    }
}

impl vstd::std_specs::convert::FromSpecImpl<KeyCode> for KeyOutputEvent {
    open spec fn obeys_from_spec() -> bool {
        true
    }

    open spec fn from_spec(code: KeyCode) -> KeyOutputEvent {
        KeyOutputEvent { code, value: 0 }
    }
}

/// A synchronization event that closes a frame.
#[derive(Clone, Copy, Debug, PartialEq, Eq, Structural)]
pub struct SyncOutputEvent {
    pub code: u16,
    pub value: i32,
}

impl SyncOutputEvent {
    pub fn new() -> (r: SyncOutputEvent)
        ensures
            r == (SyncOutputEvent { code: SYN_REPORT, value: 0 }),
    {
        SyncOutputEvent { code: SYN_REPORT, value: 0 }
    }

    pub fn clone_set_value(&self, value: i32) -> (r: SyncOutputEvent)
        ensures
            r == (SyncOutputEvent { code: self.code, value }),
    {
        SyncOutputEvent { code: self.code, value }
    }

    pub fn code(&self) -> (r: u16)
        ensures
            r == self.code,
    {
        self.code
    }

    pub fn value(&self) -> (r: i32)
        ensures
            r == self.value,
    {
        self.value
    }

    pub fn to_evdev_event(&self) -> (r: InputEvent)
        ensures
            r == (InputEvent { event_type: EV_SYN, code: self.code, value: self.value }),
    {
        InputEvent::new(EV_SYN, self.code, self.value)
    }
}

/// The key event that one window produces for an axis value: down (1) when
/// the value lies in `[min, max]`, up (0) otherwise.
pub open spec fn window_event(axis_value: i32, m: FilteredKeyMapping) -> InputEvent {
    InputEvent {
        event_type: EV_KEY,
        code: m.key.0,
        value: if m.min <= axis_value && axis_value <= m.max {
            1
        } else {
            0
        },
    }
}

/// An axis fanned out into one key per window.
#[derive(Clone, Debug, PartialEq, Eq)]
pub struct FilteredAbsAxisOutputEvent {
    pub axis_type: AbsoluteAxisType,
    pub axis_info: AbsInfo,
    pub mappings: Vec<FilteredKeyMapping>,
}

pub struct FilteredAbsAxisView {
    pub axis_type: AbsoluteAxisType,
    pub axis_info: AbsInfo,
    pub mappings: Seq<FilteredKeyMapping>,
}

impl View for FilteredAbsAxisOutputEvent {
    type V = FilteredAbsAxisView;

    open spec fn view(&self) -> FilteredAbsAxisView {
        FilteredAbsAxisView {
            axis_type: self.axis_type,
            axis_info: self.axis_info,
            mappings: self.mappings@,
        }
    }
}

impl FilteredAbsAxisView {
    /// The key events for the current axis value, one per window, in order.
    pub open spec fn events(self) -> Seq<InputEvent> {
        self.mappings.map_values(|m: FilteredKeyMapping| window_event(self.axis_info.value, m))
    }
}

/// A copy of `v` with the same elements.
pub(crate) fn copy_windows(v: &Vec<FilteredKeyMapping>) -> (r: Vec<FilteredKeyMapping>)
    ensures
        r@ == v@,
{
    let mut r: Vec<FilteredKeyMapping> = Vec::new();
    let mut i: usize = 0;
    while i < v.len()
        invariant
            i <= v.len(),
            r@ == v@.take(i as int),
        decreases v.len() - i,
    {
        r.push(v[i]);
        i = i + 1;
        assert(r@ =~= v@.take(i as int));
    }
    assert(v@.take(v.len() as int) =~= v@);
    r
}

impl FilteredAbsAxisOutputEvent {
    pub fn new(input_axis_type: AbsoluteAxisType, info: AbsInfo, mappings: Vec<FilteredKeyMapping>) -> (r:
        FilteredAbsAxisOutputEvent)
        ensures
            r@ == (FilteredAbsAxisView {
                axis_type: input_axis_type,
                axis_info: info,
                mappings: mappings@,
            }),
    {
        FilteredAbsAxisOutputEvent { axis_type: input_axis_type, axis_info: info, mappings }
    }

    /// The keys that the windows drive, in order.
    pub fn codes(&self) -> (r: Vec<KeyCode>)
        ensures
            r@ == self.mappings@.map_values(|m: FilteredKeyMapping| m.key),
    {
        let mut r: Vec<KeyCode> = Vec::new();
        let mut i: usize = 0;
        while i < self.mappings.len()
            invariant
                i <= self.mappings.len(),
                r@ == self.mappings@.take(i as int).map_values(|m: FilteredKeyMapping| m.key),
            decreases self.mappings.len() - i,
        {
            r.push(self.mappings[i].key);
            i = i + 1;
            assert(r@ =~= self.mappings@.take(i as int).map_values(|m: FilteredKeyMapping| m.key));
        }
        assert(self.mappings@.take(i as int) =~= self.mappings@);
        r
    }

    pub fn clone_set_value(&self, value: i32) -> (r: FilteredAbsAxisOutputEvent)
        ensures
            r@ == (FilteredAbsAxisView {
                axis_type: self.axis_type,
                axis_info: self.axis_info.with_value(value),
                mappings: self.mappings@,
            }),
    {
        FilteredAbsAxisOutputEvent {
            axis_type: self.axis_type,
            axis_info: self.axis_info.clone_set_value(value),
            mappings: copy_windows(&self.mappings),
        }
    }

    fn mapping_to_evdev_event(&self, mapping: &FilteredKeyMapping) -> (r: InputEvent)
        ensures
            r == window_event(self.axis_info.value, *mapping),
    {
        let axis_value = self.axis_info.value;
        let mut out_value: i32 = 0;
        if axis_value >= mapping.min && axis_value <= mapping.max {
            out_value = 1;
        }
        InputEvent::new(EV_KEY, mapping.key.0, out_value)
    }

    /// One key event per window, in the order of the windows.
    pub fn to_evdev_events(&self) -> (r: Vec<InputEvent>)
        ensures
            r@ == self@.events(),
    {
        let mut r: Vec<InputEvent> = Vec::new();
        let mut i: usize = 0;
        while i < self.mappings.len()
            invariant
                i <= self.mappings.len(),
                r@ == self@.events().take(i as int),
            decreases self.mappings.len() - i,
        {
            let e = self.mapping_to_evdev_event(&self.mappings[i]);
            r.push(e);
            i = i + 1;
            assert(r@ =~= self@.events().take(i as int));
        }
        assert(self@.events().take(i as int) =~= self@.events());
        r
    }
}

/// A resolved output, ready to produce concrete events for a value.
#[derive(Clone, Debug, PartialEq, Eq)]
pub enum OutputEvent {
    AbsAxis(AbsAxisOutputEvent),
    Key(KeyOutputEvent),
    Synchronization(SyncOutputEvent),
    FilteredAbsAxis(FilteredAbsAxisOutputEvent),
}

pub enum OutputEventView {
    AbsAxis(AbsAxisOutputEvent),
    Key(KeyOutputEvent),
    Synchronization(SyncOutputEvent),
    FilteredAbsAxis(FilteredAbsAxisView),
}

impl View for OutputEvent {
    type V = OutputEventView;

    open spec fn view(&self) -> OutputEventView {
        match self {
            OutputEvent::AbsAxis(a) => OutputEventView::AbsAxis(*a),
            OutputEvent::Key(k) => OutputEventView::Key(*k),
            OutputEvent::Synchronization(s) => OutputEventView::Synchronization(*s),
            OutputEvent::FilteredAbsAxis(f) => OutputEventView::FilteredAbsAxis(f@),
        }
    }
}

impl OutputEventView {
    /// The same output driven by `value`; axis calibration is kept.
    pub open spec fn with_value(self, value: i32) -> OutputEventView {
        match self {
            OutputEventView::AbsAxis(a) => OutputEventView::AbsAxis(
                AbsAxisOutputEvent { axis_type: a.axis_type, axis_info: a.axis_info.with_value(value) },
            ),
            OutputEventView::Key(k) => OutputEventView::Key(KeyOutputEvent { code: k.code, value }),
            OutputEventView::Synchronization(s) => OutputEventView::Synchronization(
                SyncOutputEvent { code: s.code, value },
            ),
            OutputEventView::FilteredAbsAxis(f) => OutputEventView::FilteredAbsAxis(
                FilteredAbsAxisView {
                    axis_type: f.axis_type,
                    axis_info: f.axis_info.with_value(value),
                    mappings: f.mappings,
                },
            ),
        }
    }

    /// The concrete events this output produces: one, or one per window.
    pub open spec fn events(self) -> Seq<InputEvent> {
        match self {
            OutputEventView::AbsAxis(a) => seq![
                InputEvent { event_type: EV_ABS, code: a.axis_type.0, value: a.axis_info.value },
            ],
            OutputEventView::Key(k) => seq![
                InputEvent { event_type: EV_KEY, code: k.code.0, value: k.value },
            ],
            OutputEventView::Synchronization(s) => seq![
                InputEvent { event_type: EV_SYN, code: s.code, value: s.value },
            ],
            OutputEventView::FilteredAbsAxis(f) => f.events(),
        }
    }
}

impl OutputEvent {
    /// A copy of this output driven by `value`.
    pub fn clone_set_value(&self, value: i32) -> (r: OutputEvent)
        ensures
            r@ == self@.with_value(value),
    {
        match self {
            OutputEvent::AbsAxis(a) => OutputEvent::AbsAxis(a.clone_set_value(value)),
            OutputEvent::Key(k) => OutputEvent::Key(KeyOutputEvent::new(k.code(), value)),
            OutputEvent::Synchronization(s) => OutputEvent::Synchronization(s.clone_set_value(value)),
            OutputEvent::FilteredAbsAxis(f) => OutputEvent::FilteredAbsAxis(f.clone_set_value(value)),
        }
    }

    /// The concrete events to emit for this output.
    pub fn to_evdev_events(&self) -> (r: Vec<InputEvent>)
        ensures
            r@ == self@.events(),
    {
        match self {
            OutputEvent::AbsAxis(a) => vec![a.to_evdev_event()],
            OutputEvent::Key(k) => vec![k.to_evdev_event()],
            OutputEvent::Synchronization(s) => vec![s.to_evdev_event()],
            OutputEvent::FilteredAbsAxis(f) => f.to_evdev_events(),
        }
    }
}

} // verus!
