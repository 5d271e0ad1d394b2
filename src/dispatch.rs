//! The decisions of the dispatch loop: what to do with whatever the race
//! among the device streams produced.
use crate::config::{input_class, ControllerId};
use crate::error::{FatalError, NonFatalError};
use crate::mapping::EventMapping;
use crate::types::InputEvent;
use vstd::prelude::*;

verus! {

/// What the dispatch loop does next.
#[derive(Debug)]
pub enum LoopStep {
    /// Write these events to the synthetic device, in order.
    Emit(Vec<InputEvent>),
    /// Report this and go on with the next event.
    Skip(NonFatalError),
    /// End the run with this error.
    Stop(FatalError),
    /// Nothing arrived; race the streams again.
    Wait,
}

impl EventMapping {
    /// Decides the next step from what the streams produced: an event of a
    /// device is translated and emitted, or skipped when it has no output; a
    /// failed read ends the run.
    pub fn next_step(&self, arrived: Option<Result<(ControllerId, InputEvent), FatalError>>) -> (r:
        LoopStep)
        requires
            self.wf(),
        ensures
            match arrived {
                None => r is Wait,
                Some(Err(e)) => r == LoopStep::Stop(e),
                Some(Ok((id, event))) => match input_class(event) {
                    None => r matches LoopStep::Skip(e) && e == NonFatalError::UnsupportedEvent(
                        event,
                    ),
                    Some(c) => if self@.contains_key((id@, c)) {
                        r matches LoopStep::Emit(v) && v@ == self@[(id@, c)].with_value(
                            event.value,
                        ).events()
                    } else {
                        r matches LoopStep::Skip(e) && e == NonFatalError::NoMapping(c)
                    },
                },
            },
    {
        match arrived {
            None => LoopStep::Wait,
            Some(Err(e)) => LoopStep::Stop(e),
            Some(Ok((id, event))) => match self.output_events(id, event) {
                Ok(events) => LoopStep::Emit(events),
                Err(e) => LoopStep::Skip(e),
            },
        }
    }
}

} // verus!
