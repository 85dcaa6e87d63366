//! The session adapter: the place where a session engine's input sink is
//! bound to the bridge. The binding starts empty, because the bridge is up
//! before the engine is; input that arrives before the engine has attached is
//! discarded, not queued.

use crate::input::{
    event_key, parse, spec_parse, spec_translate, translate, ControlPrimitive, InputEvent,
    ParseError,
};
use crate::text::lowercased;
use vstd::prelude::*;

verus! {

/// The forwarding reference to the session engine's input sink `S`: empty
/// until an engine attaches, bound from then on. Nothing empties it again.
pub struct SessionBinding<S> {
    sink: Option<S>,
}

/// What becomes of one input event.
pub enum Delivery<'a, S> {
    /// The primitive is to be pushed onto the sink.
    Forward { sink: &'a S, primitive: ControlPrimitive },
    /// No engine is attached yet: the event is discarded in silence.
    Unbound,
    /// The event maps to nothing: it is dropped, with a warning.
    Unmapped,
    /// The message was no input event: it is logged and dropped.
    Rejected { error: ParseError },
}

impl<S> SessionBinding<S> {
    /// The sink that is bound, if any.
    pub closed spec fn sink(&self) -> Option<S> {
        self.sink
    }

    /// An empty binding, as it is before any session engine exists.
    pub fn new() -> (binding: Self)
        ensures
            binding.sink() is None,
    {
        SessionBinding { sink: None }
    }

    /// Attaches the session engine's sink. Returns the sink that was bound
    /// before, if there was one: binding is expected once, and a second
    /// binding replaces the first.
    pub fn bind(&mut self, sink: S) -> (previous: Option<S>)
        ensures
            final(self).sink() == Some(sink),
            previous == old(self).sink(),
    {
        let mut held = Some(sink);
        core::mem::swap(&mut self.sink, &mut held);
        held
    }

    /// Whether a session engine is attached.
    pub fn is_bound(&self) -> (bound: bool)
        ensures
            bound == self.sink() is Some,
    {
        self.sink.is_some()
    }

    /// The sink that is bound, if any.
    pub fn bound_sink(&self) -> (sink: Option<&S>)
        ensures
            match sink {
                Some(s) => self.sink() == Some(*s),
                None => self.sink() is None,
            },
    {
        self.sink.as_ref()
    }
}

/// Decides what becomes of one input event: it is translated, and the
/// primitive goes to the engine's sink where one is bound. Before an engine
/// has attached nothing is forwarded and nothing fails.
pub fn handle_input_event<'a, S>(
    binding: &'a SessionBinding<S>,
    event: &InputEvent,
) -> (delivery: Delivery<'a, S>)
    ensures
        ({
            let primitive = spec_translate(event@, lowercased(event_key(event@)));
            match delivery {
                Delivery::Forward { sink, primitive: sent } => binding.sink() == Some(*sink)
                    && primitive == Some(sent),
                Delivery::Unbound => binding.sink() is None && primitive is Some,
                Delivery::Unmapped => primitive is None,
                Delivery::Rejected { .. } => false,
            }
        }),
        binding.sink() is None ==> !(delivery is Forward),
{
    match translate(event) {
        Some(primitive) => match binding.bound_sink() {
            Some(sink) => Delivery::Forward { sink, primitive },
            None => Delivery::Unbound,
        },
        None => Delivery::Unmapped,
    }
}

/// Decides what becomes of one text message of the peer: it is read as an
/// input event and handled as one. A message that is no event is reported as
/// rejected; the connection stays as it is.
pub fn handle_text<'a, S>(binding: &'a SessionBinding<S>, text: &str) -> (delivery: Delivery<'a, S>)
    ensures
        match spec_parse(text@) {
            Err(error) => delivery matches Delivery::Rejected { error: reported } && reported
                == error,
            Ok(event) => {
                let primitive = spec_translate(event, lowercased(event_key(event)));
                match delivery {
                    Delivery::Forward { sink, primitive: sent } => binding.sink() == Some(*sink)
                        && primitive == Some(sent),
                    Delivery::Unbound => binding.sink() is None && primitive is Some,
                    Delivery::Unmapped => primitive is None,
                    Delivery::Rejected { .. } => false,
                }
            },
        },
        binding.sink() is None ==> !(delivery is Forward),
{
    match parse(text) {
        Ok(event) => handle_input_event(binding, &event),
        Err(error) => Delivery::Rejected { error },
    }
}

} // verus!
