//! The declared configuration: which device, which input, which output.
use crate::error::NonFatalError;
use crate::table::Table;
use crate::types::{AbsoluteAxisType, InputEvent, KeyCode, Synchronization, EV_ABS, EV_KEY, EV_SYN};
use vstd::prelude::*;

verus! {

/// One threshold window of an axis fanned out into keys: the key is down
/// while the axis value lies in `[min, max]`, up otherwise.
#[derive(Clone, Copy, Debug, PartialEq, Eq, Structural, Hash)]
pub struct FilteredKeyMapping {
    pub min: i32,
    pub max: i32,
    pub key: KeyCode,
}

/// The declared target of an absolute axis input.
#[derive(Debug)]
pub enum AbsAxisEvent {
    /// Pass the axis through, under another axis code.
    AbsAxis(AbsoluteAxisType),
    /// Drive one key per window from the axis value.
    FilteredKeys(Vec<FilteredKeyMapping>),
}

pub enum AbsAxisEventView {
    AbsAxis(AbsoluteAxisType),
    FilteredKeys(Seq<FilteredKeyMapping>),
}

impl View for AbsAxisEvent {
    type V = AbsAxisEventView;

    open spec fn view(&self) -> AbsAxisEventView {
        match self {
            AbsAxisEvent::AbsAxis(a) => AbsAxisEventView::AbsAxis(*a),
            AbsAxisEvent::FilteredKeys(f) => AbsAxisEventView::FilteredKeys(f@),
        }
    }
}

impl From<AbsoluteAxisType> for AbsAxisEvent {
    fn from(t: AbsoluteAxisType) -> (r: AbsAxisEvent)
        ensures
            r@ == AbsAxisEventView::AbsAxis(t),
    {
        AbsAxisEvent::AbsAxis(t)
    }
}

impl vstd::std_specs::convert::FromSpecImpl<AbsoluteAxisType> for AbsAxisEvent {
    open spec fn obeys_from_spec() -> bool {
        true
    }

    open spec fn from_spec(t: AbsoluteAxisType) -> AbsAxisEvent {
        AbsAxisEvent::AbsAxis(t)
    }
}

/// One declaration: an input of a device and the output it drives.
#[derive(Debug)]
#[allow(inconsistent_fields)]
pub enum EventMapping {
    KeyEvent { input: KeyCode, output: KeyCode },
    AbsAxisEvent { input: AbsoluteAxisType, output: AbsAxisEvent },
}

#[allow(inconsistent_fields)]
pub enum EventMappingView {
    KeyEvent { input: KeyCode, output: KeyCode },
    AbsAxisEvent { input: AbsoluteAxisType, output: AbsAxisEventView },
}

impl View for EventMapping {
    type V = EventMappingView;

    open spec fn view(&self) -> EventMappingView {
        match self {
            EventMapping::KeyEvent { input, output } => EventMappingView::KeyEvent {
                input: *input,
                output: *output,
            },
            EventMapping::AbsAxisEvent { input, output } => EventMappingView::AbsAxisEvent {
                input: *input,
                output: output@,
            },
        }
    }
}

/// The input class that a declaration reads.
pub open spec fn declared_input(m: EventMappingView) -> ControllerInputEvent {
    match m {
        EventMappingView::KeyEvent { input, .. } => ControllerInputEvent::Key(input),
        EventMappingView::AbsAxisEvent { input, .. } => ControllerInputEvent::AbsAxis(input),
    }
}

impl EventMapping {
    /// The input class that this declaration reads.
    pub fn input(&self) -> (r: ControllerInputEvent)
        ensures
            r == declared_input(self@),
    {
        match self {
            EventMapping::KeyEvent { input, .. } => ControllerInputEvent::Key(*input),
            EventMapping::AbsAxisEvent { input, .. } => ControllerInputEvent::AbsAxis(*input),
        }
    }
}

/// How a physical device is named in the configuration.
#[derive(Debug, Eq, Hash)]
pub enum ControllerId {
    Path(String),
    Name(String),
}

pub enum ControllerIdView {
    Path(Seq<char>),
    Name(Seq<char>),
}

impl View for ControllerId {
    type V = ControllerIdView;

    open spec fn view(&self) -> ControllerIdView {
        match self {
            ControllerId::Path(p) => ControllerIdView::Path(p@),
            ControllerId::Name(n) => ControllerIdView::Name(n@),
        }
    }
}

impl PartialEq for ControllerId {
    fn eq(&self, other: &ControllerId) -> (r: bool)
        ensures
            r == (self@ == other@),
    {
        match (self, other) {
            (ControllerId::Path(a), ControllerId::Path(b)) => a.eq(b),
            (ControllerId::Name(a), ControllerId::Name(b)) => a.eq(b),
            _ => false,
        }
    }
}

impl vstd::std_specs::cmp::PartialEqSpecImpl for ControllerId {
    open spec fn obeys_eq_spec() -> bool {
        true
    }

    open spec fn eq_spec(&self, other: &ControllerId) -> bool {
        self@ == other@
    }
}

impl Clone for ControllerId {
    fn clone(&self) -> (r: ControllerId)
        ensures
            r@ == self@,
    {
        match self {
            ControllerId::Path(p) => ControllerId::Path(p.clone()),
            ControllerId::Name(n) => ControllerId::Name(n.clone()),
        }
    }
}

/// A value-free input class of a device: the key of the lookup table.
#[derive(Clone, Copy, Debug, PartialEq, Eq, Structural, Hash)]
pub enum ControllerInputEvent {
    AbsAxis(AbsoluteAxisType),
    Key(KeyCode),
    Synchronization(Synchronization),
}

/// The input class of a raw event, if it is an axis, key or synchronization
/// event.
pub open spec fn input_class(e: InputEvent) -> Option<ControllerInputEvent> {
    if e.event_type == EV_SYN {
        Some(ControllerInputEvent::Synchronization(Synchronization(e.code)))
    } else if e.event_type == EV_KEY {
        Some(ControllerInputEvent::Key(KeyCode(e.code)))
    } else if e.event_type == EV_ABS {
        Some(ControllerInputEvent::AbsAxis(AbsoluteAxisType(e.code)))
    } else {
        None
    }
}

impl TryFrom<InputEvent> for ControllerInputEvent {
    type Error = NonFatalError;

    fn try_from(event: InputEvent) -> (r: Result<ControllerInputEvent, NonFatalError>)
        ensures
            r == (match input_class(event) {
                Some(c) => Ok(c),
                None => Err(NonFatalError::UnsupportedEvent(event)),
            }),
    {
        if event.event_type == EV_SYN {
            Ok(ControllerInputEvent::Synchronization(Synchronization(event.code)))
        } else if event.event_type == EV_KEY {
            Ok(ControllerInputEvent::Key(KeyCode(event.code)))
        } else if event.event_type == EV_ABS {
            Ok(ControllerInputEvent::AbsAxis(AbsoluteAxisType(event.code)))
        } else {
            Err(NonFatalError::UnsupportedEvent(event))
        }
    }
}

impl vstd::std_specs::convert::TryFromSpecImpl<InputEvent> for ControllerInputEvent {
    open spec fn obeys_try_from_spec() -> bool {
        true
    }

    open spec fn try_from_spec(event: InputEvent) -> Result<ControllerInputEvent, NonFatalError> {
        match input_class(event) {
            Some(c) => Ok(c),
            None => Err(NonFatalError::UnsupportedEvent(event)),
        }
    }
}

impl From<EventMapping> for ControllerInputEvent {
    fn from(mapping: EventMapping) -> (r: ControllerInputEvent)
        ensures
            r == declared_input(mapping@),
    {
        mapping.input()
    }
}

impl vstd::std_specs::convert::FromSpecImpl<EventMapping> for ControllerInputEvent {
    open spec fn obeys_from_spec() -> bool {
        true
    }

    open spec fn from_spec(mapping: EventMapping) -> ControllerInputEvent {
        declared_input(mapping@)
    }
}

/// The key of the lookup table, as a mathematical value.
pub type EventKey = (ControllerIdView, ControllerInputEvent);

/// One input of one device: the key of the lookup table.
#[derive(Debug, Eq, Hash)]
pub struct UniqueControllerEvent {
    pub id: ControllerId,
    pub event: ControllerInputEvent,
}

impl View for UniqueControllerEvent {
    type V = EventKey;

    open spec fn view(&self) -> EventKey {
        (self.id@, self.event)
    }
}

impl PartialEq for UniqueControllerEvent {
    fn eq(&self, other: &UniqueControllerEvent) -> (r: bool)
        ensures
            r == (self@ == other@),
    {
        self.event == other.event && self.id == other.id
    }
}

impl vstd::std_specs::cmp::PartialEqSpecImpl for UniqueControllerEvent {
    open spec fn obeys_eq_spec() -> bool {
        true
    }

    open spec fn eq_spec(&self, other: &UniqueControllerEvent) -> bool {
        self@ == other@
    }
}

impl Clone for UniqueControllerEvent {
    fn clone(&self) -> (r: UniqueControllerEvent)
        ensures
            r@ == self@,
    {
        UniqueControllerEvent { id: self.id.clone(), event: self.event }
    }
}

impl UniqueControllerEvent {
    pub fn new(id: ControllerId, event: ControllerInputEvent) -> (r: UniqueControllerEvent)
        ensures
            r@ == (id@, event),
    {
        UniqueControllerEvent { id, event }
    }
}

/// The devices of the configuration, each with its declarations.
#[derive(Debug)]
pub enum DeviceConfig {
    ByPath { path: String, mappings: Vec<EventMapping> },
    ByName { name: String, mappings: Vec<EventMapping> },
}

pub struct DeviceConfigView {
    pub id: ControllerIdView,
    pub mappings: Seq<EventMappingView>,
}

/// The views of a sequence of declarations.
pub open spec fn mapping_views(ms: Seq<EventMapping>) -> Seq<EventMappingView> {
    ms.map_values(|m: EventMapping| m@)
}

impl View for DeviceConfig {
    type V = DeviceConfigView;

    open spec fn view(&self) -> DeviceConfigView {
        match self {
            DeviceConfig::ByPath { path, mappings } => DeviceConfigView {
                id: ControllerIdView::Path(path@),
                mappings: mapping_views(mappings@),
            },
            DeviceConfig::ByName { name, mappings } => DeviceConfigView {
                id: ControllerIdView::Name(name@),
                mappings: mapping_views(mappings@),
            },
        }
    }
}

/// The table that the declarations of one device make: each declaration is
/// keyed by the device and its input, and a later one overrides an earlier
/// one with the same key.
pub open spec fn declarations(id: ControllerIdView, ms: Seq<EventMappingView>) -> Map<
    EventKey,
    EventMappingView,
>
    decreases ms.len(),
{
    if ms.len() == 0 {
        Map::empty()
    } else {
        declarations(id, ms.drop_last()).insert((id, declared_input(ms.last())), ms.last())
    }
}

/// The table that the declarations of all devices make, in order; a later
/// declaration overrides an earlier one with the same key.
pub open spec fn all_declarations(ds: Seq<DeviceConfigView>) -> Map<EventKey, EventMappingView>
    decreases ds.len(),
{
    if ds.len() == 0 {
        Map::empty()
    } else {
        all_declarations(ds.drop_last()).union_prefer_right(
            declarations(ds.last().id, ds.last().mappings),
        )
    }
}

/// The declarations of all devices, keyed by device and input.
pub struct ConfigMap {
    pub table: Table<EventMapping>,
}

impl View for ConfigMap {
    type V = Map<EventKey, EventMappingView>;

    open spec fn view(&self) -> Map<EventKey, EventMappingView> {
        self.table@
    }
}

impl ConfigMap {
    /// Each declaration is keyed by the input that it reads.
    pub open spec fn wf(&self) -> bool {
        &&& self.table.wf()
        &&& forall|k: EventKey| #[trigger] self@.contains_key(k) ==> k.1 == declared_input(self@[k])
    }

    pub fn new() -> (r: ConfigMap)
        ensures
            r.wf(),
            r@ == Map::<EventKey, EventMappingView>::empty(),
    {
        ConfigMap { table: Table::new() }
    }

    /// Declares `mapping` for device `id`, replacing an earlier declaration
    /// of the same input.
    pub fn insert(&mut self, id: ControllerId, mapping: EventMapping)
        requires
            old(self).wf(),
        ensures
            final(self).wf(),
            final(self)@ == old(self)@.insert((id@, declared_input(mapping@)), mapping@),
    {
        let event = mapping.input();
        self.table.insert(UniqueControllerEvent::new(id, event), mapping);
    }

    /// Adds the declarations of one device.
    pub fn add_device(&mut self, config: DeviceConfig)
        requires
            old(self).wf(),
        ensures
            final(self).wf(),
            final(self)@ == old(self)@.union_prefer_right(
                declarations(config@.id, config@.mappings),
            ),
    {
        let ghost view = config@;
        let (id, mappings) = match config {
            DeviceConfig::ByPath { path, mappings } => (ControllerId::Path(path), mappings),
            DeviceConfig::ByName { name, mappings } => (ControllerId::Name(name), mappings),
        };
        assert(id@ == view.id);
        let ghost ms = mapping_views(mappings@);
        let ghost start = self@;
        assert(ms.take(0) =~= Seq::<EventMappingView>::empty());
        assert(start.union_prefer_right(declarations(view.id, ms.take(0))) =~= start);
        for m in it: mappings.into_iter()
            invariant
                self.wf(),
                id@ == view.id,
                ms == view.mappings,
                ms == mapping_views(it.seq()),
                self@ == start.union_prefer_right(declarations(view.id, ms.take(it.index() as int))),
        {
            let ghost i = it.index() as int;
            assert(ms[i] == m@);
            assert(ms.take(i + 1).drop_last() =~= ms.take(i));
            self.insert(id.clone(), m);
            assert(self@ =~= start.union_prefer_right(declarations(view.id, ms.take(i + 1))));
        }
        assert(ms.take(ms.len() as int) =~= ms);
    }

    /// Collects the declarations of all devices, in order.
    pub fn from_devices(devices: Vec<DeviceConfig>) -> (r: ConfigMap)
        ensures
            r.wf(),
            r@ == all_declarations(devices@.map_values(|d: DeviceConfig| d@)),
    {
        let ghost ds = devices@.map_values(|d: DeviceConfig| d@);
        let mut r = ConfigMap::new();
        assert(ds.take(0) =~= Seq::<DeviceConfigView>::empty());
        for d in it: devices.into_iter()
            invariant
                r.wf(),
                ds == it.seq().map_values(|d: DeviceConfig| d@),
                r@ == all_declarations(ds.take(it.index() as int)),
        {
            let ghost i = it.index() as int;
            assert(ds[i] == d@);
            assert(ds.take(i + 1).drop_last() =~= ds.take(i));
            r.add_device(d);
        }
        assert(ds.take(ds.len() as int) =~= ds);
        r
    }
}

/// The declarations of one device, keyed by device and input.
pub fn mappings_to_map(config: DeviceConfig) -> (r: ConfigMap)
    ensures
        r.wf(),
        r@ == declarations(config@.id, config@.mappings),
{
    let mut r = ConfigMap::new();
    r.add_device(config);
    assert(Map::<EventKey, EventMappingView>::empty().union_prefer_right(
        declarations(config@.id, config@.mappings),
    ) =~= declarations(config@.id, config@.mappings));
    r
}

} // verus!
