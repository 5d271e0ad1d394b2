//! The capability snapshot of a physical device, and the choice of a device
//! by its name.
use crate::error::FatalError;
use crate::types::{AbsInfo, AbsoluteAxisType, KeyCode};
use std::collections::{HashMap, HashSet};
use vstd::prelude::*;

verus! {

/// What a device supports: the calibration of each absolute axis, keyed by
/// axis code, and the set of key codes.
pub struct DeviceInfo {
    pub axis_info: HashMap<u16, AbsInfo>,
    pub key_info: HashSet<u16>,
}

pub struct DeviceInfoView {
    pub axis_info: Map<u16, AbsInfo>,
    pub key_info: Set<u16>,
}

impl View for DeviceInfo {
    type V = DeviceInfoView;

    open spec fn view(&self) -> DeviceInfoView {
        DeviceInfoView { axis_info: self.axis_info@, key_info: self.key_info@ }
    }
}

/// The codes that `keys` lists.
pub open spec fn key_set(keys: Seq<KeyCode>) -> Set<u16> {
    Set::new(|c: u16| exists|i: int| 0 <= i < keys.len() && keys[i].0 == c)
}

/// Each listed axis with its entry of the state array, which the device
/// indexes by axis code.
pub open spec fn axis_map(axes: Seq<AbsoluteAxisType>, axis_states: Seq<AbsInfo>) -> Map<u16, AbsInfo> {
    Map::new(
        |c: u16| exists|i: int| 0 <= i < axes.len() && axes[i].0 == c,
        |c: u16| axis_states[c as int],
    )
}

/// Builds the snapshot from what a device reports: its keys, its absolute
/// axes, and its axis state array indexed by axis code.
pub fn get_device_info(keys: &Vec<KeyCode>, axes: &Vec<AbsoluteAxisType>, axis_states: &Vec<AbsInfo>) -> (r:
    DeviceInfo)
    requires
        forall|i: int| 0 <= i < axes.len() ==> (axes[i].0 as int) < axis_states.len(),
    ensures
        r@.key_info == key_set(keys@),
        r@.axis_info == axis_map(axes@, axis_states@),
{
    let mut key_info: HashSet<u16> = HashSet::new();
    let mut i: usize = 0;
    while i < keys.len()
        invariant
            i <= keys.len(),
            key_info@ == key_set(keys@.take(i as int)),
        decreases keys.len() - i,
    {
        key_info.insert(keys[i].0);
        proof {
            let next = keys@.take(i + 1);
            assert forall|c: u16| #[trigger] key_info@.contains(c) <==> key_set(next).contains(c) by {
                if key_set(keys@.take(i as int)).contains(c) {
                    let j = choose|j: int| 0 <= j < i && keys@.take(i as int)[j].0 == c;
                    assert(next[j].0 == c);
                }
                if key_set(next).contains(c) {
                    let j = choose|j: int| 0 <= j < i + 1 && next[j].0 == c;
                    if j < i {
                        assert(keys@.take(i as int)[j].0 == c);
                    }
                }
                assert(next[i as int].0 == keys[i as int].0);
            }
            assert(key_info@ =~= key_set(next));
        }
        i = i + 1;
    }
    assert(keys@.take(keys.len() as int) =~= keys@);
    let mut axis_info: HashMap<u16, AbsInfo> = HashMap::new();
    let mut j: usize = 0;
    while j < axes.len()
        invariant
            j <= axes.len(),
            forall|i: int| 0 <= i < axes.len() ==> (axes[i].0 as int) < axis_states.len(),
            axis_info@ == axis_map(axes@.take(j as int), axis_states@),
        decreases axes.len() - j,
    {
        let code = axes[j].0;
        axis_info.insert(code, axis_states[code as usize]);
        proof {
            let next = axes@.take(j + 1);
            let before = axes@.take(j as int);
            assert forall|c: u16| #[trigger] axis_info@.contains_key(c) <==> axis_map(
                next,
                axis_states@,
            ).contains_key(c) by {
                if axis_map(before, axis_states@).contains_key(c) {
                    let k = choose|k: int| 0 <= k < j && before[k].0 == c;
                    assert(next[k].0 == c);
                }
                if axis_map(next, axis_states@).contains_key(c) {
                    let k = choose|k: int| 0 <= k < j + 1 && next[k].0 == c;
                    if k < j {
                        assert(before[k].0 == c);
                    }
                }
                assert(next[j as int].0 == code);
            }
            assert(axis_info@ =~= axis_map(next, axis_states@));
        }
        j = j + 1;
    }
    assert(axes@.take(axes.len() as int) =~= axes@);
    DeviceInfo { axis_info, key_info }
}

/// The name a listed device goes by; an unnamed device counts as named "".
pub open spec fn listed_name(d: (String, Option<String>)) -> Seq<char> {
    match d.1 {
        Some(n) => n@,
        None => Seq::empty(),
    }
}

/// How many listed devices go by `name`.
pub open spec fn count_named(devices: Seq<(String, Option<String>)>, name: Seq<char>) -> nat
    decreases devices.len(),
{
    if devices.len() == 0 {
        0
    } else {
        count_named(devices.drop_last(), name) + if listed_name(devices.last()) == name {
            1nat
        } else {
            0nat
        }
    }
}

/// Whether a listed device goes by `name`.
fn is_named(d: &(String, Option<String>), name: &String) -> (r: bool)
    ensures
        r == (listed_name(*d) == name@),
{
    match &d.1 {
        Some(n) => n.eq(name),
        None => {
            let empty = name.as_str().is_empty();
            proof {
                if empty {
                    assert(name@ =~= Seq::<char>::empty());
                }
            }
            empty
        },
    }
}

/// Picks the path of the one device, among `(path, name)` pairs, whose name
/// is `name`; fails when none or several go by it.
pub fn find_device_by_name(name: &String, devices: &Vec<(String, Option<String>)>) -> (r: Result<
    String,
    FatalError,
>)
    ensures
        count_named(devices@, name@) == 0 ==> r == Err::<String, FatalError>(
            FatalError::NoDeviceWithName(*name),
        ),
        count_named(devices@, name@) > 1 ==> r == Err::<String, FatalError>(
            FatalError::TooManyDevicesWithName(*name),
        ),
        count_named(devices@, name@) == 1 ==> exists|i: int|
            0 <= i < devices.len() && listed_name(devices[i]) == name@ && r == Ok::<
                String,
                FatalError,
            >(devices[i].0),
{
    let mut found: Option<usize> = None;
    let mut count: usize = 0;
    let mut i: usize = 0;
    while i < devices.len()
        invariant
            i <= devices.len(),
            count == count_named(devices@.take(i as int), name@),
            count <= i,
            count == 0 <==> found is None,
            match found {
                Some(k) => k < i && listed_name(devices[k as int]) == name@,
                None => true,
            },
        decreases devices.len() - i,
    {
        assert(devices@.take(i + 1).drop_last() =~= devices@.take(i as int));
        if is_named(&devices[i], name) {
            if count == 0 {
                found = Some(i);
            }
            count = count + 1;
        }
        i = i + 1;
    }
    assert(devices@.take(devices.len() as int) =~= devices@);
    if count == 0 {
        Err(FatalError::NoDeviceWithName(name.clone()))
    } else if count > 1 {
        Err(FatalError::TooManyDevicesWithName(name.clone()))
    } else {
        match found {
            Some(k) => Ok(devices[k].0.clone()),
            None => Err(FatalError::NoDeviceWithName(name.clone())),
        }
    }
}

} // verus!
