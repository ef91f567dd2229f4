//! The diagnostic log: a bounded record of protocol traffic, trimmed in batches.
use vstd::prelude::*;

verus! {

/// Entries kept before a trim.
pub const LOG_CAPACITY: usize = 500;

/// Oldest entries dropped by one trim.
pub const LOG_TRIM: usize = 100;

/// One log entry: its direction tag, its text and when it was made (ms since the epoch).
pub struct XmppLog {
    pub direction: String,
    pub data: String,
    pub timestamp: u64,
}

/// What a log entry holds.
pub struct LogRecord {
    pub direction: Seq<char>,
    pub data: Seq<char>,
    pub timestamp: u64,
}

impl View for XmppLog {
    type V = LogRecord;

    open spec fn view(&self) -> LogRecord {
        LogRecord { direction: self.direction@, data: self.data@, timestamp: self.timestamp }
    }
}

/// What a sequence of log entries holds.
pub open spec fn log_view(logs: Seq<XmppLog>) -> Seq<LogRecord> {
    logs.map_values(|l: XmppLog| l@)
}

/// The log after appending `e`: past capacity, the oldest `LOG_TRIM` entries go.
pub open spec fn log_appended(logs: Seq<LogRecord>, e: LogRecord) -> Seq<LogRecord> {
    let l = logs.push(e);
    if l.len() > LOG_CAPACITY {
        l.subrange(LOG_TRIM as int, l.len() as int)
    } else {
        l
    }
}

/// The log after appending each of `es` in turn.
pub open spec fn log_appended_all(logs: Seq<LogRecord>, es: Seq<LogRecord>) -> Seq<LogRecord>
    decreases es.len(),
{
    if es.len() == 0 {
        logs
    } else {
        log_appended(log_appended_all(logs, es.drop_last()), es.last())
    }
}

/// A log entry with these texts and time.
pub open spec fn record(direction: Seq<char>, data: Seq<char>, now: u64) -> LogRecord {
    LogRecord { direction, data, timestamp: now }
}

/// Appends an entry; past `LOG_CAPACITY` entries the oldest `LOG_TRIM` are dropped at once.
pub fn add_log(logs: &mut Vec<XmppLog>, direction: &str, data: &str, now: u64)
    ensures
        log_view(final(logs)@) == log_appended(log_view(old(logs)@), record(direction@, data@, now)),
{
    let ghost before = log_view(logs@);
    logs.push(XmppLog { direction: direction.to_string(), data: data.to_string(), timestamp: now });
    assert(log_view(logs@) =~= before.push(record(direction@, data@, now)));
    if logs.len() > LOG_CAPACITY {
        let kept = logs.split_off(LOG_TRIM);
        *logs = kept;
        assert(log_view(logs@) =~= before.push(record(direction@, data@, now)).subrange(
            LOG_TRIM as int,
            before.len() + 1 as int,
        ));
    }
}

/// A log never holds more than `LOG_CAPACITY` entries once appended to.
pub proof fn lemma_log_bounded(logs: Seq<LogRecord>, e: LogRecord)
    requires
        logs.len() <= LOG_CAPACITY,
    ensures
        log_appended(logs, e).len() <= LOG_CAPACITY,
        logs.len() < LOG_CAPACITY ==> log_appended(logs, e).len() == logs.len() + 1,
        logs.len() == LOG_CAPACITY ==> log_appended(logs, e).len() == LOG_CAPACITY + 1 - LOG_TRIM,
{
}

/// Batch eviction: appending 501 entries to an empty log leaves 401, the trim having dropped
/// the oldest 100 when the 501st came in; the newest entry is kept last.
pub proof fn lemma_log_eviction(es: Seq<LogRecord>)
    requires
        es.len() == LOG_CAPACITY + 1,
    ensures
        log_appended_all(Seq::empty(), es).len() == LOG_CAPACITY + 1 - LOG_TRIM,
        log_appended_all(Seq::empty(), es).last() == es.last(),
{
    lemma_appended_below_capacity(es.drop_last());
    assert(es.drop_last().len() == LOG_CAPACITY);
}

/// Below capacity, appending keeps every entry.
proof fn lemma_appended_below_capacity(es: Seq<LogRecord>)
    requires
        es.len() <= LOG_CAPACITY,
    ensures
        log_appended_all(Seq::empty(), es) == es,
    decreases es.len(),
{
    if es.len() > 0 {
        lemma_appended_below_capacity(es.drop_last());
        assert(es.drop_last().push(es.last()) =~= es);
    }
}

/// Appending `es` then `e` is appending `es.push(e)`.
pub proof fn lemma_appended_push(logs: Seq<LogRecord>, es: Seq<LogRecord>, e: LogRecord)
    ensures
        log_appended_all(logs, es.push(e)) == log_appended(log_appended_all(logs, es), e),
{
    assert(es.push(e).drop_last() =~= es);
}

} // verus!
