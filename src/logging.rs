//! The host-facing log emitter: events queued for the host application to display.
use vstd::prelude::*;

verus! {

/// One event for the host's log view.
pub struct LogEvent {
    pub log_type: String,
    pub message: String,
}

/// Events emitted and not yet delivered to the host, oldest first.
pub struct LogEmitter {
    pub events: Vec<LogEvent>,
}

/// What the emitter holds: each event's type and message.
pub open spec fn events_view(events: Seq<LogEvent>) -> Seq<(Seq<char>, Seq<char>)> {
    events.map_values(|e: LogEvent| (e.log_type@, e.message@))
}

impl LogEmitter {
    /// An emitter with nothing queued.
    pub fn new() -> (r: LogEmitter)
        ensures
            r.events@.len() == 0,
    {
        LogEmitter { events: Vec::new() }
    }
}

/// Queues an event of type `log_type`.
pub fn emit_log(sink: &mut LogEmitter, log_type: &str, message: &str)
    ensures
        events_view(final(sink).events@) == events_view(old(sink).events@).push(
            (log_type@, message@),
        ),
{
    let ghost before = events_view(sink.events@);
    sink.events.push(LogEvent { log_type: log_type.to_string(), message: message.to_string() });
    assert(events_view(sink.events@) =~= before.push((log_type@, message@)));
}

/// Queues an `info` event.
pub fn log_info(sink: &mut LogEmitter, msg: &str)
    ensures
        events_view(final(sink).events@) == events_view(old(sink).events@).push(("info"@, msg@)),
{
    emit_log(sink, "info", msg);
}

/// Queues an `error` event.
pub fn log_error(sink: &mut LogEmitter, msg: &str)
    ensures
        events_view(final(sink).events@) == events_view(old(sink).events@).push(("error"@, msg@)),
{
    emit_log(sink, "error", msg);
}

} // verus!
