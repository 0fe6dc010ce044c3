//! The decisions of a connection to the Anland display daemon.
//!
//! An [`AnlandContext`] holds the events that wait to be sent to the daemon,
//! in the order they were pushed; the side that owns the daemon's handle
//! takes them and sends them. The functions here also decide what each
//! status the daemon reports means.
use vstd::prelude::*;

use crate::protocol::{
    buf_info, set_consumer_var_event, InputEvent, OutputEvent, OutputEventUnion,
    INPUT_TYPE_CLIPBOARD, INPUT_TYPE_TEXT_INPUT, OUTPUT_TYPE_SET_CONSUMER_VAR,
};

verus! {

/// The largest payload that follows a text input or clipboard event and is
/// drained when nobody handles the event: 16 MiB.
pub const MAX_EVENT_EXTEND_SIZE: usize = 16 * 1024 * 1024;

/// How long draining a payload may wait for it, in milliseconds.
pub const EXTEND_DATA_TIMEOUT_MS: i32 = 1000;

/// The size of the payload that follows `event` and is drained when nobody
/// handles it: that of a text input or clipboard event, where it is neither
/// zero nor over `MAX_EVENT_EXTEND_SIZE`.
pub open spec fn drained_size(event: InputEvent) -> Option<nat> {
    if event.type_ == INPUT_TYPE_TEXT_INPUT || event.type_ == INPUT_TYPE_CLIPBOARD {
        let size = event.data[0];
        if 0 < size && size <= MAX_EVENT_EXTEND_SIZE {
            Some(size as nat)
        } else {
            None
        }
    } else {
        None
    }
}

/// An event that waits to be sent, with the payload that follows it where
/// it was pushed with one.
#[derive(Debug)]
pub struct PendingOutput {
    pub event: OutputEvent,
    pub payload: Option<Vec<u8>>,
}

impl View for PendingOutput {
    type V = (OutputEvent, Option<Seq<u8>>);

    open spec fn view(&self) -> (OutputEvent, Option<Seq<u8>>) {
        (
            self.event,
            match self.payload {
                Some(p) => Some(p@),
                None => None,
            },
        )
    }
}

/// A connection to the daemon, as far as its decisions go.
#[derive(Debug)]
pub struct AnlandContext {
    outgoing: Vec<PendingOutput>,
}

impl View for AnlandContext {
    type V = Seq<(OutputEvent, Option<Seq<u8>>)>;

    /// The events that wait to be sent, oldest first.
    closed spec fn view(&self) -> Seq<(OutputEvent, Option<Seq<u8>>)> {
        self.outgoing@.map_values(|p: PendingOutput| p@)
    }
}

impl AnlandContext {
    /// The connection that the daemon's answer to a connection attempt
    /// gives: status zero and a handle make a connection with nothing to
    /// send; anything else is refused.
    pub fn from_connect_status(status: i32, handle_is_null: bool) -> (r: Result<
        AnlandContext,
        String,
    >)
        ensures
            r is Ok <==> (status == 0 && !handle_is_null),
            r matches Ok(c) ==> c@ == Seq::<(OutputEvent, Option<Seq<u8>>)>::empty(),
            r matches Err(e) ==> e@ == "failed to connect to anland daemon"@,
    {
        if status != 0 || handle_is_null {
            return Err("failed to connect to anland daemon".to_owned());
        }
        let c = AnlandContext { outgoing: Vec::new() };
        assert(c@ =~= Seq::<(OutputEvent, Option<Seq<u8>>)>::empty());
        Ok(c)
    }

    /// Leaving the fallback mode succeeded exactly when the daemon
    /// reported status zero.
    pub fn exit_fallback_outcome(status: i32) -> (r: Result<(), ()>)
        ensures
            r is Ok <==> status == 0,
    {
        if status == 0 {
            Ok(())
        } else {
            Err(())
        }
    }

    /// The description of a dmabuf is the one filled in where the daemon
    /// reported status zero, and there is none otherwise.
    pub fn dmabuf_info_outcome(status: i32, info: buf_info) -> (r: Option<buf_info>)
        ensures
            r == (if status == 0 { Some(info) } else { None::<buf_info> }),
    {
        if status == 0 {
            Some(info)
        } else {
            None
        }
    }

    /// A poll delivered `event` exactly when the daemon reported one event.
    pub fn poll_input_event_outcome(status: i32, event: InputEvent) -> (r: Option<InputEvent>)
        ensures
            r == (if status == 1 { Some(event) } else { None::<InputEvent> }),
    {
        if status == 1 {
            Some(event)
        } else {
            None
        }
    }

    /// A poll for a payload delivered it exactly when the daemon reported a
    /// positive status.
    pub fn extend_data_outcome(status: i32) -> (b: bool)
        ensures
            b == (status > 0),
    {
        status > 0
    }

    /// Queues `event` to be sent.
    pub fn push_output_event(&mut self, event: &OutputEvent)
        ensures
            final(self)@ == old(self)@.push((*event, None::<Seq<u8>>)),
    {
        let pending = PendingOutput { event: *event, payload: None };
        self.outgoing.push(pending);
        assert(self@ =~= old(self)@.push((*event, None::<Seq<u8>>)));
    }

    /// Queues `event` to be sent, followed by `payload`.
    pub fn push_output_event_with_length(&mut self, event: &OutputEvent, payload: &[u8])
        ensures
            final(self)@ == old(self)@.push((*event, Some(payload@))),
    {
        let mut bytes: Vec<u8> = Vec::new();
        let mut i: usize = 0;
        while i < payload.len()
            invariant
                i <= payload@.len(),
                bytes@ == payload@.take(i as int),
            decreases payload@.len() - i,
        {
            bytes.push(payload[i]);
            i = i + 1;
            assert(bytes@ =~= payload@.take(i as int));
        }
        assert(bytes@ =~= payload@);
        let pending = PendingOutput { event: *event, payload: Some(bytes) };
        self.outgoing.push(pending);
        assert(self@ =~= old(self)@.push((*event, Some(payload@))));
    }

    /// Queues the event that sets consumer variable `var` to `value`.
    pub fn push_set_consumer_var(&mut self, var: u32, value: u32)
        ensures
            final(self)@ == old(self)@.push((set_consumer_var_event(var, value), None::<Seq<u8>>)),
            final(self)@.last().0.type_ == OUTPUT_TYPE_SET_CONSUMER_VAR,
            final(self)@.last().0.data matches OutputEventUnion::SetConsumerVar(p) && p.var == var
                && p.value == value,
            final(self)@.last().1 is None,
    {
        let event = OutputEvent::set_consumer_var(var, value);
        self.push_output_event(&event);
    }

    /// Takes the events that wait to be sent, oldest first, and leaves none.
    pub fn take_outgoing(&mut self) -> (events: Vec<PendingOutput>)
        ensures
            events@.map_values(|p: PendingOutput| p@) == old(self)@,
            final(self)@ == Seq::<(OutputEvent, Option<Seq<u8>>)>::empty(),
    {
        let mut events: Vec<PendingOutput> = Vec::new();
        std::mem::swap(&mut events, &mut self.outgoing);
        assert(self@ =~= Seq::<(OutputEvent, Option<Seq<u8>>)>::empty());
        events
    }

    /// The size of the payload that follows `event` and is to be read and
    /// discarded, because nobody handles the event; `None` where nothing is
    /// to be drained.
    pub fn handle_unhandled_event(&self, event: &InputEvent) -> (size: Option<usize>)
        ensures
            match size {
                Some(n) => drained_size(*event) == Some(n as nat),
                None => drained_size(*event) is None,
            },
            event.type_ != INPUT_TYPE_TEXT_INPUT && event.type_ != INPUT_TYPE_CLIPBOARD ==> size
                is None,
            event.type_ == INPUT_TYPE_TEXT_INPUT || event.type_ == INPUT_TYPE_CLIPBOARD ==> (size
                == if 0 < event.data[0] && event.data[0] <= 16 * 1024 * 1024 {
                Some(event.data[0] as usize)
            } else {
                None::<usize>
            }),
    {
        let mut size: Option<usize> = None;
        if event.type_ == INPUT_TYPE_TEXT_INPUT {
            let n: usize = event.text_input().size as usize;
            if n > 0 && n <= MAX_EVENT_EXTEND_SIZE {
                size = Some(n);
            }
        }
        if event.type_ == INPUT_TYPE_CLIPBOARD {
            let n: usize = event.clipboard().size as usize;
            if n > 0 && n <= MAX_EVENT_EXTEND_SIZE {
                size = Some(n);
            }
        }
        size
    }
}

/// Only text input (type 9) and clipboard (type 8) events are followed by a
/// payload to drain: for every other event nothing is drained, and for
/// those two the first payload word is drained exactly when it is neither
/// zero nor over 16 MiB.
pub proof fn law_only_text_and_clipboard_payloads_drain(event: InputEvent)
    ensures
        event.type_ != 9 && event.type_ != 8 ==> drained_size(event) is None,
        event.type_ == 9 || event.type_ == 8 ==> (drained_size(event) is Some <==> (0
            < event.data[0] && event.data[0] <= 16_777_216)),
        drained_size(event) matches Some(n) ==> n == event.data[0],
{
}

} // verus!
