//! What the synthetic device must support to emit every resolved output.
use crate::output_event::{OutputEvent, OutputEventView};
use crate::config::FilteredKeyMapping;
use crate::types::{AbsInfo, AbsoluteAxisType, KeyCode};
use vstd::prelude::*;

verus! {

/// The absolute axis that an output needs, with its calibration.
pub open spec fn axis_setup(o: OutputEventView) -> Seq<(AbsoluteAxisType, AbsInfo)> {
    match o {
        OutputEventView::AbsAxis(a) => seq![(a.axis_type, a.axis_info)],
        _ => Seq::empty(),
    }
}

/// The keys that an output drives.
pub open spec fn driven_keys(o: OutputEventView) -> Seq<KeyCode> {
    match o {
        OutputEventView::Key(k) => seq![k.code],
        OutputEventView::FilteredAbsAxis(f) => f.mappings.map_values(|m: FilteredKeyMapping| m.key),
        _ => Seq::empty(),
    }
}

/// The axes that the outputs need, in order.
pub open spec fn all_axis_setups(s: Seq<OutputEventView>) -> Seq<(AbsoluteAxisType, AbsInfo)>
    decreases s.len(),
{
    if s.len() == 0 {
        Seq::empty()
    } else {
        all_axis_setups(s.drop_last()) + axis_setup(s.last())
    }
}

/// The keys that the outputs drive, in order.
pub open spec fn all_keys(s: Seq<OutputEventView>) -> Seq<KeyCode>
    decreases s.len(),
{
    if s.len() == 0 {
        Seq::empty()
    } else {
        all_keys(s.drop_last()) + driven_keys(s.last())
    }
}

/// The views of a list of outputs.
pub open spec fn output_views(s: Seq<&OutputEvent>) -> Seq<OutputEventView> {
    s.map_values(|o: &OutputEvent| o@)
}

/// The absolute axes, with their calibration, and the keys that the
/// synthetic device must declare so that it can emit every output.
pub fn make_uinput_config(output_actions: &Vec<&OutputEvent>) -> (r: (
    Vec<(AbsoluteAxisType, AbsInfo)>,
    Vec<KeyCode>,
))
    ensures
        r.0@ == all_axis_setups(output_views(output_actions@)),
        r.1@ == all_keys(output_views(output_actions@)),
{
    let ghost views = output_views(output_actions@);
    let mut all_axis: Vec<(AbsoluteAxisType, AbsInfo)> = Vec::new();
    let mut keys: Vec<KeyCode> = Vec::new();
    let mut i: usize = 0;
    assert(views.take(0) =~= Seq::<OutputEventView>::empty());
    while i < output_actions.len()
        invariant
            i <= output_actions.len(),
            views == output_views(output_actions@),
            all_axis@ == all_axis_setups(views.take(i as int)),
            keys@ == all_keys(views.take(i as int)),
        decreases output_actions.len() - i,
    {
        let ghost prev_axis = all_axis@;
        let ghost prev_keys = keys@;
        match output_actions[i] {
            OutputEvent::AbsAxis(a) => {
                all_axis.push((a.axis_type, a.axis_info));
            },
            OutputEvent::Key(k) => {
                keys.push(k.code());
            },
            OutputEvent::Synchronization(_) => {},
            OutputEvent::FilteredAbsAxis(f) => {
                let mut codes = f.codes();
                keys.append(&mut codes);
            },
        }
        proof {
            let next = views.take(i + 1);
            assert(next.drop_last() =~= views.take(i as int));
            assert(next.last() == output_actions@[i as int]@);
            assert(all_axis@ =~= prev_axis + axis_setup(next.last()));
            assert(keys@ =~= prev_keys + driven_keys(next.last()));
        }
        i = i + 1;
    }
    assert(views.take(i as int) =~= views);
    (all_axis, keys)
}

} // verus!
