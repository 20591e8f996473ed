//! The input event router: each event from the multiplexed input channel is
//! debounced (GPIO lines only), resolved against the action table, and
//! forwarded to the session controller unless it resolved to nothing.
use vstd::prelude::*;
use crate::config::Config;
use crate::debounce::{DebounceFilter, LineKey, accepts};
use crate::resolver::{
    ActionModel, InputChannelMessage, InputDeviceType, ResolvedAction, configured_action,
    resolve, resolved_action,
};

verus! {

/// What routing one event does: the new debounce state, and the action that
/// goes on to the controller, if any.
pub open spec fn route_step(
    state: Map<LineKey, u64>,
    conf: Config,
    message: InputChannelMessage,
    now: u64,
) -> (Map<LineKey, u64>, Option<ActionModel>) {
    let gated = message.device_type == InputDeviceType::Gpio;
    let key = (message.device@, message.id@);
    if gated && !accepts(state, key, now) {
        (state, None)
    } else {
        let next = if gated {
            state.insert(key, now)
        } else {
            state
        };
        let a = resolved_action(conf, message);
        (next, if a is Unknown { None } else { Some(a) })
    }
}

/// Routes input events; holds the debounce state of the GPIO lines.
pub struct InputRouter {
    debounce: DebounceFilter,
}

impl View for InputRouter {
    type V = Map<LineKey, u64>;

    closed spec fn view(&self) -> Map<LineKey, u64> {
        self.debounce@
    }
}

impl InputRouter {
    pub closed spec fn wf(&self) -> bool {
        self.debounce.wf()
    }

    /// A router that has seen no event.
    pub fn new() -> (r: InputRouter)
        ensures
            r.wf(),
            r@ == Map::<LineKey, u64>::empty(),
    {
        InputRouter { debounce: DebounceFilter::new() }
    }

    /// Routes one event received at `now_ms`: a GPIO event inside the debounce
    /// window of its line is dropped; otherwise the event is resolved, and
    /// comes back as an action unless it resolved to `Unknown`.
    pub fn route(&mut self, conf: &Config, message: &InputChannelMessage, now_ms: u64) -> (r:
        Option<ResolvedAction>)
        requires
            old(self).wf(),
        ensures
            final(self).wf(),
            final(self)@ == route_step(old(self)@, *conf, *message, now_ms).0,
            match r {
                Some(a) => route_step(old(self)@, *conf, *message, now_ms).1 == Some(a@),
                None => route_step(old(self)@, *conf, *message, now_ms).1 is None,
            },
    {
        if message.device_type == InputDeviceType::Gpio {
            if !self.debounce.accept(&message.device, &message.id, now_ms) {
                return None;
            }
        }
        let a = resolve(conf, message);
        match a {
            ResolvedAction::Unknown => None,
            _ => Some(a),
        }
    }
}

/// An event whose device type, device and raw id the action table does not
/// hold resolves to `Unknown` and is never forwarded.
pub proof fn lemma_unconfigured_not_forwarded(
    state: Map<LineKey, u64>,
    conf: Config,
    message: InputChannelMessage,
    now: u64,
)
    requires
        configured_action(conf, message.device_type, message.device@, message.id@) is None,
    ensures
        resolved_action(conf, message) is Unknown,
        route_step(state, conf, message, now).1 is None,
{
}

} // verus!
