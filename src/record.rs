use vstd::prelude::*;

verus! {

/// Severity of a log record.
#[derive(Clone, Copy, Debug, PartialEq, Eq, Structural)]
pub enum LogLevel {
    Error,
    Warn,
    Info,
    Debug,
    Trace,
}

/// One log line emitted by a probe: a severity and a formatted message.
#[derive(Clone, Debug)]
pub struct LogRecord {
    pub level: LogLevel,
    pub message: String,
}

impl View for LogRecord {
    type V = (LogLevel, Seq<char>);

    open spec fn view(&self) -> (LogLevel, Seq<char>) {
        (self.level, self.message@)
    }
}

/// The channel through which a probe hands its records to user space: a FIFO that keeps
/// emission order.
pub struct LogChannel {
    records: Vec<LogRecord>,
}

impl View for LogChannel {
    type V = Seq<(LogLevel, Seq<char>)>;

    closed spec fn view(&self) -> Seq<(LogLevel, Seq<char>)> {
        self.records@.map_values(|r: LogRecord| r@)
    }
}

/// The channel after `records` were emitted into `channel` by one `emit` each, first
/// to last.
pub open spec fn emit_all(
    channel: Seq<(LogLevel, Seq<char>)>,
    records: Seq<(LogLevel, Seq<char>)>,
) -> Seq<(LogLevel, Seq<char>)>
    decreases records.len(),
{
    if records.len() == 0 {
        channel
    } else {
        emit_all(channel, records.drop_last()).push(records.last())
    }
}

impl LogChannel {
    /// An empty channel.
    pub fn new() -> (r: LogChannel)
        ensures
            r@ == Seq::<(LogLevel, Seq<char>)>::empty(),
    {
        let r = LogChannel { records: Vec::new() };
        proof {
            assert(r@ =~= Seq::<(LogLevel, Seq<char>)>::empty());
        }
        r
    }

    /// Number of records waiting to be relayed.
    pub fn len(&self) -> (r: usize)
        ensures
            r == self@.len(),
    {
        self.records.len()
    }

    /// True when no record is waiting.
    pub fn is_empty(&self) -> (r: bool)
        ensures
            r == (self@.len() == 0),
    {
        self.records.len() == 0
    }

    /// Appends one record behind those already waiting.
    pub fn emit(&mut self, record: LogRecord)
        ensures
            final(self)@ == old(self)@.push(record@),
    {
        self.records.push(record);
        proof {
            assert(final(self)@ =~= old(self)@.push(record@));
        }
    }

    /// Hands out every waiting record, oldest first, and leaves the channel empty and
    /// ready for more.
    pub fn drain(&mut self) -> (r: Vec<LogRecord>)
        ensures
            r@.map_values(|x: LogRecord| x@) == old(self)@,
            final(self)@ == Seq::<(LogLevel, Seq<char>)>::empty(),
    {
        let mut taken: Vec<LogRecord> = Vec::new();
        std::mem::swap(&mut taken, &mut self.records);
        proof {
            assert(final(self)@ =~= Seq::<(LogLevel, Seq<char>)>::empty());
        }
        taken
    }
}

/// Records emitted one by one into a channel come out of the next `drain` after those
/// already waiting, all of them and in the order in which they were emitted.
pub proof fn drain_forwards_in_emission_order(
    channel: Seq<(LogLevel, Seq<char>)>,
    records: Seq<(LogLevel, Seq<char>)>,
)
    ensures
        emit_all(channel, records) == channel + records,
        emit_all(Seq::empty(), records) == records,
    decreases records.len(),
{
    if records.len() == 0 {
        assert(channel + records =~= channel);
    } else {
        drain_forwards_in_emission_order(channel, records.drop_last());
        assert(channel + records =~= (channel + records.drop_last()).push(records.last()));
    }
    assert(Seq::<(LogLevel, Seq<char>)>::empty() + records =~= records);
    if records.len() != 0 {
        drain_forwards_in_emission_order(Seq::empty(), records.drop_last());
    }
}

} // verus!
