//! Resolution of the declared configuration against the capabilities of the
//! opened devices into an immutable lookup table, and lookups in it.
use crate::config::{
    declared_input, input_class, AbsAxisEvent, AbsAxisEventView, ConfigMap, ControllerId,
    ControllerIdView, ControllerInputEvent, EventKey, EventMapping as Declaration,
    EventMappingView, UniqueControllerEvent,
};
use crate::device::{DeviceInfo, DeviceInfoView};
use crate::error::{FatalError, NonFatalError};
use crate::output_event::{
    AbsAxisOutputEvent, FilteredAbsAxisOutputEvent, FilteredAbsAxisView, KeyOutputEvent,
    OutputEvent, OutputEventView, SyncOutputEvent, copy_windows,
};
use crate::table::{keys_unique, lemma_map_of_dom, lemma_map_of_len, lemma_map_of_value, map_of, Table};
use crate::types::{AbsoluteAxisType, InputEvent, Synchronization, EV_SYN, SYN_REPORT};
use vstd::prelude::*;

verus! {

/// The opened devices with their capability snapshots, as mathematical values.
pub type DeviceInfos = Seq<(ControllerIdView, DeviceInfoView)>;

/// The views of the opened devices.
pub open spec fn device_views(devices: Seq<(ControllerId, DeviceInfo)>) -> DeviceInfos {
    devices.map_values(|d: (ControllerId, DeviceInfo)| (d.0@, d.1@))
}

/// Device `id` was opened.
pub open spec fn opened(devices: DeviceInfos, id: ControllerIdView) -> bool {
    exists|i: int| 0 <= i < devices.len() && devices[i].0 == id
}

/// `i` is the first position of device `id`.
pub open spec fn first_position(devices: DeviceInfos, id: ControllerIdView, i: int) -> bool {
    &&& 0 <= i < devices.len()
    &&& devices[i].0 == id
    &&& forall|j: int| 0 <= j < i ==> devices[j].0 != id
}

/// The snapshot of device `id`: that of its first entry.
pub open spec fn info_of(devices: DeviceInfos, id: ControllerIdView) -> DeviceInfoView {
    devices[choose|i: int| first_position(devices, id, i)].1
}

/// The device supports the input that the declaration reads.
pub open spec fn input_supported(info: DeviceInfoView, m: EventMappingView) -> bool {
    match m {
        EventMappingView::KeyEvent { input, .. } => info.key_info.contains(input.0),
        EventMappingView::AbsAxisEvent { input, .. } => info.axis_info.contains_key(input.0),
    }
}

/// The declaration under key `k` names an opened device and an input it has.
pub open spec fn declaration_valid(devices: DeviceInfos, k: EventKey, m: EventMappingView) -> bool {
    opened(devices, k.0) && input_supported(info_of(devices, k.0), m)
}

/// Every declaration is valid.
pub open spec fn resolvable(config: Map<EventKey, EventMappingView>, devices: DeviceInfos) -> bool {
    forall|k: EventKey| #[trigger]
        config.contains_key(k) ==> declaration_valid(devices, k, config[k])
}

/// The output a valid declaration resolves to. Axis outputs carry the
/// calibration of the input axis, captured from the device.
pub open spec fn resolve_declaration(info: DeviceInfoView, m: EventMappingView) -> OutputEventView {
    match m {
        EventMappingView::KeyEvent { output, .. } => OutputEventView::Key(
            KeyOutputEvent { code: output, value: 0 },
        ),
        EventMappingView::AbsAxisEvent { input, output } => match output {
            AbsAxisEventView::AbsAxis(a) => OutputEventView::AbsAxis(
                AbsAxisOutputEvent { axis_type: a, axis_info: info.axis_info[input.0] },
            ),
            AbsAxisEventView::FilteredKeys(f) => OutputEventView::FilteredAbsAxis(
                FilteredAbsAxisView { axis_type: input, axis_info: info.axis_info[input.0], mappings: f },
            ),
        },
    }
}

/// The key of the frame-closing synchronization input of device `id`.
pub open spec fn sync_key(id: ControllerIdView) -> EventKey {
    (id, ControllerInputEvent::Synchronization(Synchronization(SYN_REPORT)))
}

/// The synchronization passthrough.
pub open spec fn sync_output() -> OutputEventView {
    OutputEventView::Synchronization(SyncOutputEvent { code: SYN_REPORT, value: 0 })
}

/// `k` is the synchronization key of some opened device.
pub open spec fn is_sync_binding(devices: DeviceInfos, k: EventKey) -> bool {
    exists|i: int| 0 <= i < devices.len() && k == sync_key(devices[i].0)
}

/// The resolved table: every declaration resolved against its device, and a
/// synchronization passthrough for every opened device.
pub open spec fn resolved(config: Map<EventKey, EventMappingView>, devices: DeviceInfos) -> Map<
    EventKey,
    OutputEventView,
> {
    Map::new(
        |k: EventKey| config.contains_key(k) || is_sync_binding(devices, k),
        |k: EventKey|
            if is_sync_binding(devices, k) {
                sync_output()
            } else {
                resolve_declaration(info_of(devices, k.0), config[k])
            },
    )
}

/// What resolving `config` against `devices` may give, as the table's view:
/// nothing when some declaration is invalid, else the resolved table.
pub open spec fn resolution_outcome(
    config: Map<EventKey, EventMappingView>,
    devices: DeviceInfos,
    outcome: Option<Map<EventKey, OutputEventView>>,
) -> bool {
    &&& outcome is Some <==> resolvable(config, devices)
    &&& outcome matches Some(t) ==> t == resolved(config, devices)
}

/// The view of the table that a resolution produced, if it succeeded.
pub open spec fn outcome_of(r: Result<EventMapping, FatalError>) -> Option<
    Map<EventKey, OutputEventView>,
> {
    match r {
        Ok(t) => Some(t@),
        Err(_) => None,
    }
}

/// `e` reports the declaration `m` under key `k` as invalid, naming its
/// device and input.
pub open spec fn reports(e: FatalError, devices: DeviceInfos, k: EventKey, m: EventMappingView) -> bool {
    match e {
        FatalError::DeviceNotOpened(id) => id@ == k.0 && !opened(devices, k.0),
        FatalError::AxisNotPresent(id, a) => {
            &&& id@ == k.0
            &&& k.1 == ControllerInputEvent::AbsAxis(a)
            &&& m matches EventMappingView::AbsAxisEvent { input, .. } && input == a
            &&& opened(devices, k.0)
            &&& !info_of(devices, k.0).axis_info.contains_key(a.0)
        },
        FatalError::KeyNotPresent(id, c) => {
            &&& id@ == k.0
            &&& k.1 == ControllerInputEvent::Key(c)
            &&& m matches EventMappingView::KeyEvent { input, .. } && input == c
            &&& opened(devices, k.0)
            &&& !info_of(devices, k.0).key_info.contains(c.0)
        },
        _ => false,
    }
}

/// The first snapshot of device `id`, if it was opened.
fn device_info<'a>(devices: &'a Vec<(ControllerId, DeviceInfo)>, id: &ControllerId) -> (r: Option<
    &'a DeviceInfo,
>)
    ensures
        match r {
            Some(info) => opened(device_views(devices@), id@) && info@ == info_of(
                device_views(devices@),
                id@,
            ),
            None => !opened(device_views(devices@), id@),
        },
{
    let ghost devs = device_views(devices@);
    let mut i: usize = 0;
    while i < devices.len()
        invariant
            i <= devices.len(),
            devs == device_views(devices@),
            forall|j: int| 0 <= j < i ==> devs[j].0 != id@,
        decreases devices.len() - i,
    {
        if devices[i].0 == *id {
            proof {
                assert(first_position(devs, id@, i as int));
                let c = choose|c: int| first_position(devs, id@, c);
                assert(c == i);
            }
            return Some(&devices[i].1);
        }
        i = i + 1;
    }
    None
}

/// The resolved table: from one input of one device to its output. Built
/// once, never changed.
pub struct EventMapping {
    mappings: Table<OutputEvent>,
}

impl View for EventMapping {
    type V = Map<EventKey, OutputEventView>;

    closed spec fn view(&self) -> Map<EventKey, OutputEventView> {
        self.mappings@
    }
}

impl EventMapping {
    pub closed spec fn wf(&self) -> bool {
        self.mappings.wf()
    }

    /// The entries of the table in the order they were added, each key once.
    pub closed spec fn entries(&self) -> Seq<(EventKey, OutputEventView)> {
        self.mappings.pairs()
    }

    /// Resolves an axis declaration of device `id` against its snapshot.
    fn make_abs_axis_mapping(
        id: &ControllerId,
        device_info: &DeviceInfo,
        axis_type: AbsoluteAxisType,
        axis_event: &AbsAxisEvent,
    ) -> (r: Result<OutputEvent, FatalError>)
        ensures
            ({
                let m = EventMappingView::AbsAxisEvent { input: axis_type, output: axis_event@ };
                &&& r is Ok <==> input_supported(device_info@, m)
                &&& r matches Ok(o) ==> o@ == resolve_declaration(device_info@, m)
                &&& r matches Err(e) ==> e matches FatalError::AxisNotPresent(eid, a) && eid@ == id@
                    && a == axis_type
            }),
    {
        match device_info.axis_info.get(&axis_type.0) {
            Some(axis_info) => match axis_event {
                AbsAxisEvent::AbsAxis(a) => Ok(
                    OutputEvent::AbsAxis(AbsAxisOutputEvent { axis_type: *a, axis_info: *axis_info }),
                ),
                AbsAxisEvent::FilteredKeys(f) => Ok(
                    OutputEvent::FilteredAbsAxis(
                        FilteredAbsAxisOutputEvent::new(axis_type, *axis_info, copy_windows(f)),
                    ),
                ),
            },
            None => Err(FatalError::AxisNotPresent(id.clone(), axis_type)),
        }
    }

    /// Resolves one declaration of device `id` against its snapshot.
    fn make_mapping(id: &ControllerId, mapping: &Declaration, device_info: &DeviceInfo) -> (r: Result<
        OutputEvent,
        FatalError,
    >)
        ensures
            r is Ok <==> input_supported(device_info@, mapping@),
            r matches Ok(o) ==> o@ == resolve_declaration(device_info@, mapping@),
            r matches Err(e) ==> match mapping@ {
                EventMappingView::KeyEvent { input, .. } => e matches FatalError::KeyNotPresent(
                    eid,
                    c,
                ) && eid@ == id@ && c == input,
                EventMappingView::AbsAxisEvent { input, .. } => e matches FatalError::AxisNotPresent(
                    eid,
                    a,
                ) && eid@ == id@ && a == input,
            },
    {
        match mapping {
            Declaration::KeyEvent { input, output } => {
                if device_info.key_info.contains(&input.0) {
                    Ok(OutputEvent::Key(KeyOutputEvent::new(*output, 0)))
                } else {
                    Err(FatalError::KeyNotPresent(id.clone(), *input))
                }
            },
            Declaration::AbsAxisEvent { input, output } => Self::make_abs_axis_mapping(
                id,
                device_info,
                *input,
                output,
            ),
        }
    }

    /// The synchronization passthrough of device `id`.
    fn make_sync_mapping(id: ControllerId) -> (r: (UniqueControllerEvent, OutputEvent))
        ensures
            r.0@ == sync_key(id@),
            r.1@ == sync_output(),
    {
        let input = ControllerInputEvent::Synchronization(Synchronization(SYN_REPORT));
        let output = OutputEvent::Synchronization(SyncOutputEvent::new());
        (UniqueControllerEvent::new(id, input), output)
    }
    /// Resolves every declaration against the snapshot of its device and
    /// adds a synchronization passthrough for every opened device. Fails on
    /// the first declaration whose device was not opened or lacks its input.
    pub fn new(config: ConfigMap, devices: &Vec<(ControllerId, DeviceInfo)>) -> (r: Result<
        EventMapping,
        FatalError,
    >)
        requires
            config.wf(),
        ensures
            r is Ok <==> resolvable(config@, device_views(devices@)),
            r matches Ok(t) ==> t.wf() && t@ == resolved(config@, device_views(devices@)),
            resolution_outcome(config@, device_views(devices@), outcome_of(r)),
            r matches Err(e) ==> exists|k: EventKey| #[trigger]
                config@.contains_key(k) && reports(e, device_views(devices@), k, config@[k]),
    {
        let ghost devs = device_views(devices@);
        let ghost cp = config.table.pairs();
        let mut out: Table<OutputEvent> = Table::new();
        let n = config.table.len();
        let mut i: usize = 0;
        assert(map_of(cp.take(0)) =~= Map::<EventKey, EventMappingView>::empty()) by {
            assert(cp.take(0) =~= Seq::<(EventKey, EventMappingView)>::empty());
        }
        assert(out@ =~= Map::new(
            |k: EventKey| map_of(cp.take(0)).contains_key(k),
            |k: EventKey| resolve_declaration(info_of(devs, k.0), map_of(cp.take(0))[k]),
        ));
        while i < n
            invariant
                n == cp.len(),
                cp == config.table.pairs(),
                config.wf(),
                devs == device_views(devices@),
                i <= n,
                out.wf(),
                forall|j: int| 0 <= j < i ==> declaration_valid(devs, #[trigger] cp[j].0, cp[j].1),
                out@ == Map::new(
                    |k: EventKey| map_of(cp.take(i as int)).contains_key(k),
                    |k: EventKey| resolve_declaration(info_of(devs, k.0), map_of(cp.take(i as int))[k]),
                ),
            decreases n - i,
        {
            let key = config.table.key_at(i);
            let declaration = config.table.value_at(i);
            proof {
                lemma_map_of_value(cp, i as int);
            }
            let info = match device_info(devices, &key.id) {
                Some(info) => info,
                None => {
                    return Err(FatalError::DeviceNotOpened(key.id.clone()));
                },
            };
            match Self::make_mapping(&key.id, declaration, info) {
                Ok(o) => {
                    let ghost before = out@;
                    out.insert(key.clone(), o);
                    proof {
                        let prev = cp.take(i as int);
                        let next = cp.take(i + 1);
                        assert(next.drop_last() =~= prev);
                        assert(out@ =~= Map::new(
                            |k: EventKey| map_of(next).contains_key(k),
                            |k: EventKey| resolve_declaration(info_of(devs, k.0), map_of(next)[k]),
                        ));
                    }
                },
                Err(e) => {
                    return Err(e);
                },
            }
            i = i + 1;
        }
        assert(cp.take(n as int) =~= cp);
        assert(resolvable(config@, devs)) by {
            assert forall|k: EventKey| #[trigger] config@.contains_key(k) implies declaration_valid(
                devs,
                k,
                config@[k],
            ) by {
                lemma_map_of_dom(cp, k);
                let j = choose|j: int| 0 <= j < cp.len() && cp[j].0 == k;
                lemma_map_of_value(cp, j);
                assert(declaration_valid(devs, cp[j].0, cp[j].1));
            }
        }
        let ghost base = out@;
        let mut j: usize = 0;
        assert(out@ =~= Map::new(
            |k: EventKey| base.contains_key(k) || is_sync_binding(devs.take(0), k),
            |k: EventKey| if is_sync_binding(devs.take(0), k) { sync_output() } else { base[k] },
        ));
        while j < devices.len()
            invariant
                j <= devices.len(),
                devs == device_views(devices@),
                out.wf(),
                out@ == Map::new(
                    |k: EventKey| base.contains_key(k) || is_sync_binding(devs.take(j as int), k),
                    |k: EventKey|
                        if is_sync_binding(devs.take(j as int), k) {
                            sync_output()
                        } else {
                            base[k]
                        },
                ),
            decreases devices.len() - j,
        {
            let (key, output) = Self::make_sync_mapping(devices[j].0.clone());
            out.insert(key, output);
            proof {
                let prev = devs.take(j as int);
                let next = devs.take(j + 1);
                assert forall|k: EventKey| #[trigger]
                    is_sync_binding(next, k) <==> is_sync_binding(prev, k) || k == sync_key(
                        devs[j as int].0,
                    ) by {
                    if is_sync_binding(prev, k) {
                        let w = choose|w: int| 0 <= w < prev.len() && k == sync_key(prev[w].0);
                        assert(next[w] == prev[w]);
                    }
                    if is_sync_binding(next, k) {
                        let w = choose|w: int| 0 <= w < next.len() && k == sync_key(next[w].0);
                        if w < j {
                            assert(next[w] == prev[w]);
                        }
                    }
                    assert(next[j as int] == devs[j as int]);
                }
                assert(out@ =~= Map::new(
                    |k: EventKey| base.contains_key(k) || is_sync_binding(next, k),
                    |k: EventKey| if is_sync_binding(next, k) { sync_output() } else { base[k] },
                ));
            }
            j = j + 1;
        }
        assert(devs.take(devices.len() as int) =~= devs);
        assert(out@ =~= resolved(config@, devs));
        Ok(EventMapping { mappings: out })
    }
    /// The output for a raw event of device `id`, driven by the event's
    /// value. Fails, without effect, on an event of an unmapped class or one
    /// that the table has no output for.
    pub fn get_output_event(&self, id: ControllerId, input_event: InputEvent) -> (r: Result<
        OutputEvent,
        NonFatalError,
    >)
        requires
            self.wf(),
        ensures
            match input_class(input_event) {
                None => r matches Err(e) && e == NonFatalError::UnsupportedEvent(input_event),
                Some(c) => if self@.contains_key((id@, c)) {
                    r matches Ok(o) && o@ == self@[(id@, c)].with_value(input_event.value)
                } else {
                    r matches Err(e) && e == NonFatalError::NoMapping(c)
                },
            },
    {
        let value = input_event.value;
        let event = match ControllerInputEvent::try_from(input_event) {
            Ok(event) => event,
            Err(e) => {
                return Err(e);
            },
        };
        let ue = UniqueControllerEvent::new(id, event);
        match self.mappings.get(&ue) {
            Some(ev) => Ok(ev.clone_set_value(value)),
            None => Err(NonFatalError::NoMapping(ue.event)),
        }
    }

    /// Every output of the table, one per entry: what the synthetic device
    /// must be able to emit.
    pub fn list_output_events(&self) -> (r: Vec<&OutputEvent>)
        requires
            self.wf(),
        ensures
            keys_unique(self.entries()),
            self@ == map_of(self.entries()),
            r@.len() == self.entries().len(),
            forall|i: int| 0 <= i < r@.len() ==> (#[trigger] r@[i])@ == self.entries()[i].1,
            r@.len() == self@.dom().len(),
            forall|i: int| #![trigger r@[i]]
                0 <= i < r@.len() ==> exists|k: EventKey|
                    #[trigger] self@.contains_key(k) && self@[k] == r@[i]@,
            forall|k: EventKey| #[trigger]
                self@.contains_key(k) ==> exists|i: int|
                    0 <= i < r@.len() && self@[k] == (#[trigger] r@[i])@,
    {
        let r = self.mappings.values();
        proof {
            let s = self.mappings.pairs();
            lemma_map_of_len(s);
            assert forall|i: int| #![trigger r@[i]] 0 <= i < r@.len() implies exists|k: EventKey|
                #[trigger] self@.contains_key(k) && self@[k] == r@[i]@ by {
                lemma_map_of_value(s, i);
                assert(self@.contains_key(s[i].0) && self@[s[i].0] == r@[i]@);
            }
            assert forall|k: EventKey| #[trigger] self@.contains_key(k) implies exists|i: int|
                0 <= i < r@.len() && self@[k] == (#[trigger] r@[i])@ by {
                lemma_map_of_dom(s, k);
                let i = choose|i: int| 0 <= i < s.len() && s[i].0 == k;
                lemma_map_of_value(s, i);
                assert(self@[k] == r@[i]@);
            }
        }
        r
    }

    /// The concrete events to emit for a raw event of device `id`.
    pub fn output_events(&self, id: ControllerId, event: InputEvent) -> (r: Result<
        Vec<InputEvent>,
        NonFatalError,
    >)
        requires
            self.wf(),
        ensures
            match input_class(event) {
                None => r matches Err(e) && e == NonFatalError::UnsupportedEvent(event),
                Some(c) => if self@.contains_key((id@, c)) {
                    r matches Ok(v) && v@ == self@[(id@, c)].with_value(event.value).events()
                } else {
                    r matches Err(e) && e == NonFatalError::NoMapping(c)
                },
            },
    {
        match self.get_output_event(id, event) {
            Ok(output) => Ok(output.to_evdev_events()),
            Err(e) => Err(e),
        }
    }
}

/// An axis passed through to another axis carries the calibration of the
/// input axis of its device: a declaration whose input axis the device has
/// is valid, and its output is the declared axis with that calibration.
pub proof fn lemma_axis_output_carries_input_calibration(
    config: Map<EventKey, EventMappingView>,
    devices: DeviceInfos,
    k: EventKey,
    input: AbsoluteAxisType,
    output: AbsoluteAxisType,
)
    requires
        config.contains_key(k),
        config[k] == (EventMappingView::AbsAxisEvent { input, output: AbsAxisEventView::AbsAxis(output) }),
        k.1 == declared_input(config[k]),
        opened(devices, k.0),
        info_of(devices, k.0).axis_info.contains_key(input.0),
    ensures
        declaration_valid(devices, k, config[k]),
        resolved(config, devices).contains_key(k),
        resolved(config, devices)[k] == OutputEventView::AbsAxis(
            AbsAxisOutputEvent { axis_type: output, axis_info: info_of(devices, k.0).axis_info[input.0] },
        ),
{
    if is_sync_binding(devices, k) {
        let i = choose|i: int| 0 <= i < devices.len() && k == sync_key(devices[i].0);
        assert(k.1 == ControllerInputEvent::AbsAxis(input));
    }
}

/// A declaration whose device was not opened, or whose device lacks its
/// input, makes the whole resolution fail.
pub proof fn lemma_absent_input_fails(
    config: Map<EventKey, EventMappingView>,
    devices: DeviceInfos,
    k: EventKey,
)
    requires
        config.contains_key(k),
        !opened(devices, k.0) || !input_supported(info_of(devices, k.0), config[k]),
    ensures
        !resolvable(config, devices),
{
    assert(!declaration_valid(devices, k, config[k]));
}

/// When one declaration alone is invalid, a reported error names that
/// declaration's device and input.
pub proof fn lemma_error_names_the_failing_declaration(
    config: Map<EventKey, EventMappingView>,
    devices: DeviceInfos,
    e: FatalError,
    k: EventKey,
)
    requires
        config.contains_key(k),
        forall|j: EventKey| #[trigger]
            config.contains_key(j) && j != k ==> declaration_valid(devices, j, config[j]),
        exists|j: EventKey| #[trigger] config.contains_key(j) && reports(e, devices, j, config[j]),
    ensures
        reports(e, devices, k, config[k]),
{
    let j = choose|j: EventKey| #[trigger] config.contains_key(j) && reports(e, devices, j, config[j]);
    assert(!declaration_valid(devices, j, config[j]));
}

/// Every opened device has a synchronization passthrough in the resolved
/// table, declared or not, and it emits the one frame-closing event with the
/// value it is driven by.
pub proof fn lemma_every_device_has_sync_passthrough(
    config: Map<EventKey, EventMappingView>,
    devices: DeviceInfos,
    i: int,
    value: i32,
)
    requires
        0 <= i < devices.len(),
    ensures
        resolved(config, devices).contains_key(sync_key(devices[i].0)),
        resolved(config, devices)[sync_key(devices[i].0)] == sync_output(),
        sync_output().with_value(value).events() == seq![
            InputEvent { event_type: EV_SYN, code: SYN_REPORT, value },
        ],
{
    assert(is_sync_binding(devices, sync_key(devices[i].0)));
}

/// Resolving the same configuration against the same devices twice gives
/// the same outcome: both fail, or both give tables with the same keys and
/// the same output under each key.
pub proof fn lemma_resolution_idempotent(
    config: Map<EventKey, EventMappingView>,
    devices: DeviceInfos,
    first: Option<Map<EventKey, OutputEventView>>,
    second: Option<Map<EventKey, OutputEventView>>,
)
    requires
        resolution_outcome(config, devices, first),
        resolution_outcome(config, devices, second),
    ensures
        first is Some <==> second is Some,
        first matches Some(a) ==> second matches Some(b) && a.dom() == b.dom() && forall|k: EventKey|
            #[trigger] a.contains_key(k) ==> a[k] == b[k],
{
}

} // verus!
