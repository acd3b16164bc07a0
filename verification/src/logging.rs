//! Structured log records: levels, entries with context tags, and the service
//! context that every record of an aggregator carries.

use vstd::prelude::*;
use crate::str_map::StrMap;
use crate::text::owned;

verus! {

/// How severe a record is.
#[derive(Debug, Clone, Copy, PartialEq, Eq, Structural)]
pub enum LogLevel {
    Trace,
    Debug,
    Info,
    Warn,
    Error,
}

/// One log record.
#[derive(Debug)]
pub struct LogEntry {
    pub timestamp: std::time::SystemTime,
    pub level: LogLevel,
    pub message: String,
    pub context: StrMap,
}

/// The map built from key-value pairs inserted in order: a later pair wins.
pub open spec fn pairs_map(pairs: Seq<(&str, &str)>) -> Map<Seq<char>, Seq<char>>
    decreases pairs.len(),
{
    if pairs.len() == 0 {
        Map::empty()
    } else {
        pairs_map(pairs.drop_last()).insert(pairs.last().0@, pairs.last().1@)
    }
}

impl LogEntry {
    /// A record stamped with the current wall-clock time.
    pub fn new(level: LogLevel, message: String, context: StrMap) -> (e: LogEntry)
        ensures
            e.level == level,
            e.message@ == message@,
            e.context@ == context@,
    {
        LogEntry { timestamp: crate::time::system_now(), level, message, context }
    }

    /// A record whose context holds the given pairs (a later pair wins).
    pub fn with_context(level: LogLevel, message: &str, context_pairs: &[(&str, &str)]) -> (e: LogEntry)
        ensures
            e.level == level,
            e.message@ == message@,
            e.context@ == pairs_map(context_pairs@),
    {
        let mut context = StrMap::new();
        let mut i: usize = 0;
        while i < context_pairs.len()
            invariant
                i <= context_pairs@.len(),
                context@ == pairs_map(context_pairs@.take(i as int)),
            decreases context_pairs@.len() - i,
        {
            let (k, v) = context_pairs[i];
            proof {
                assert(context_pairs@.take(i as int + 1).drop_last() =~= context_pairs@.take(i as int));
            }
            context.insert(owned(k), owned(v));
            i = i + 1;
        }
        proof {
            assert(context_pairs@.take(context_pairs@.len() as int) =~= context_pairs@);
        }
        Self::new(level, owned(message), context)
    }

    /// Sets the tag `key` to `value`.
    pub fn add_tag(&mut self, key: &str, value: &str)
        ensures
            final(self).context@ == old(self).context@.insert(key@, value@),
            final(self).level == old(self).level,
            final(self).message == old(self).message,
            final(self).timestamp == old(self).timestamp,
    {
        self.context.insert(owned(key), owned(value));
    }

    /// The value of the tag `key`, if set.
    pub fn get_tag(&self, key: &str) -> (r: Option<&String>)
        ensures
            match r {
                Some(v) => self.context@.contains_key(key@) && self.context@[key@] == v@,
                None => !self.context@.contains_key(key@),
            },
    {
        self.context.get(key)
    }
}

/// The service a record comes from, and the tags that go with it.
#[derive(Debug)]
pub struct LogContext {
    pub service: String,
    pub version: String,
    pub request_id: Option<String>,
    pub user_id: Option<String>,
    pub tags: StrMap,
}

/// The context of a record as a flat map: service, version, the request and
/// user ids where set, then the tags (a tag wins over a field of the same name).
pub open spec fn context_map(c: LogContext) -> Map<Seq<char>, Seq<char>> {
    let base = map!["service"@ => c.service@, "version"@ => c.version@];
    let with_request = match c.request_id {
        Some(r) => base.insert("request_id"@, r@),
        None => base,
    };
    let with_user = match c.user_id {
        Some(u) => with_request.insert("user_id"@, u@),
        None => with_request,
    };
    with_user.union_prefer_right(c.tags@)
}

impl LogContext {
    /// A context with no ids and no tags.
    pub fn new(service: &str, version: &str) -> (c: LogContext)
        ensures
            c.service@ == service@,
            c.version@ == version@,
            c.request_id is None,
            c.user_id is None,
            c.tags@ == Map::<Seq<char>, Seq<char>>::empty(),
    {
        LogContext {
            service: owned(service),
            version: owned(version),
            request_id: None,
            user_id: None,
            tags: StrMap::new(),
        }
    }

    /// The context with the request id set.
    pub fn with_request_id(self, request_id: &str) -> (c: LogContext)
        ensures
            c.request_id matches Some(r) && r@ == request_id@,
            c.service == self.service,
            c.version == self.version,
            c.user_id == self.user_id,
            c.tags == self.tags,
    {
        LogContext { request_id: Some(owned(request_id)), ..self }
    }

    /// The context with the user id set.
    pub fn with_user_id(self, user_id: &str) -> (c: LogContext)
        ensures
            c.user_id matches Some(u) && u@ == user_id@,
            c.service == self.service,
            c.version == self.version,
            c.request_id == self.request_id,
            c.tags == self.tags,
    {
        LogContext { user_id: Some(owned(user_id)), ..self }
    }

    /// The context with the tag `key` set to `value`.
    pub fn with_tag(self, key: &str, value: &str) -> (c: LogContext)
        ensures
            c.tags@ == self.tags@.insert(key@, value@),
            c.service == self.service,
            c.version == self.version,
            c.request_id == self.request_id,
            c.user_id == self.user_id,
    {
        let mut c = self;
        c.tags.insert(owned(key), owned(value));
        c
    }

    /// The context as one flat map (see `context_map`).
    pub fn to_hashmap(&self) -> (m: StrMap)
        ensures
            m@ == context_map(*self),
    {
        let mut map = StrMap::new();
        map.insert(owned("service"), self.service.clone());
        map.insert(owned("version"), self.version.clone());
        match &self.request_id {
            Some(r) => map.insert(owned("request_id"), r.clone()),
            None => {},
        }
        match &self.user_id {
            Some(u) => map.insert(owned("user_id"), u.clone()),
            None => {},
        }
        map.extend(&self.tags);
        proof {
            let c = *self;
            let base = map!["service"@ => c.service@, "version"@ => c.version@];
            assert(Map::<Seq<char>, Seq<char>>::empty().insert("service"@, c.service@).insert("version"@, c.version@) =~= base);
        }
        map
    }
}

/// Writes records to standard output as JSON lines.
#[derive(Debug)]
pub struct ConsoleLogWriter {
    pub colored: bool,
}

impl ConsoleLogWriter {
    pub fn new(colored: bool) -> (w: ConsoleLogWriter)
        ensures
            w.colored == colored,
    {
        ConsoleLogWriter { colored }
    }
}

/// Appends records to a file as JSON lines.
#[derive(Debug)]
pub struct FileLogWriter {
    file_path: String,
}

impl FileLogWriter {
    pub fn new(file_path: &str) -> (w: FileLogWriter)
        ensures
            w.path_spec() == file_path@,
    {
        FileLogWriter { file_path: owned(file_path) }
    }

    /// The file the records go to.
    pub closed spec fn path_spec(&self) -> Seq<char> {
        self.file_path@
    }

    /// The file the records go to.
    pub fn file_path(&self) -> (p: &str)
        ensures
            p@ == self.path_spec(),
    {
        self.file_path.as_str()
    }
}

/// Where an aggregator's records go.
#[derive(Debug)]
pub enum LogSink {
    Console(ConsoleLogWriter),
    File(FileLogWriter),
}

/// Builds records from a service context; the records wait in an outbox until
/// the caller writes them to the sink.
pub struct LogAggregator {
    writer: LogSink,
    outbox: Vec<LogEntry>,
}

/// The level, message and context of a record.
pub open spec fn record_of(e: LogEntry) -> (LogLevel, Seq<char>, Map<Seq<char>, Seq<char>>) {
    (e.level, e.message@, e.context@)
}

impl LogAggregator {
    /// The entries not yet written, oldest first, each with the clock reading
    /// taken when it was logged.
    pub closed spec fn entries(&self) -> Seq<LogEntry> {
        self.outbox@
    }

    /// The level, message and context of each entry not yet written, oldest
    /// first.
    pub open spec fn pending(&self) -> Seq<(LogLevel, Seq<char>, Map<Seq<char>, Seq<char>>)> {
        self.entries().map_values(|e: LogEntry| record_of(e))
    }

    /// The sink.
    pub closed spec fn sink(&self) -> &LogSink {
        &self.writer
    }

    /// An aggregator writing to `writer`, with nothing pending.
    pub fn new(writer: LogSink) -> (a: LogAggregator)
        ensures
            *a.sink() == writer,
            a.pending() == Seq::<(LogLevel, Seq<char>, Map<Seq<char>, Seq<char>>)>::empty(),
    {
        let a = LogAggregator { writer, outbox: Vec::new() };
        assert(a.pending() =~= Seq::<(LogLevel, Seq<char>, Map<Seq<char>, Seq<char>>)>::empty());
        a
    }

    /// Records `message` at `level`, with the flattened `context`.
    pub fn log(&mut self, level: LogLevel, message: &str, context: &LogContext)
        ensures
            final(self).pending() == old(self).pending().push((level, message@, context_map(*context))),
            final(self).entries().drop_last() == old(self).entries(),
            final(self).sink() == old(self).sink(),
    {
        let entry = LogEntry::new(level, owned(message), context.to_hashmap());
        let ghost before = self.outbox@;
        self.outbox.push(entry);
        assert(self.pending() =~= before.map_values(|e: LogEntry| record_of(e)).push(
            (level, message@, context_map(*context)),
        ));
        assert(self.outbox@.drop_last() =~= before);
    }

    pub fn trace(&mut self, message: &str, context: &LogContext)
        ensures
            final(self).pending() == old(self).pending().push((LogLevel::Trace, message@, context_map(*context))),
            final(self).sink() == old(self).sink(),
    {
        self.log(LogLevel::Trace, message, context);
    }

    pub fn debug(&mut self, message: &str, context: &LogContext)
        ensures
            final(self).pending() == old(self).pending().push((LogLevel::Debug, message@, context_map(*context))),
            final(self).sink() == old(self).sink(),
    {
        self.log(LogLevel::Debug, message, context);
    }

    pub fn info(&mut self, message: &str, context: &LogContext)
        ensures
            final(self).pending() == old(self).pending().push((LogLevel::Info, message@, context_map(*context))),
            final(self).sink() == old(self).sink(),
    {
        self.log(LogLevel::Info, message, context);
    }

    pub fn warn(&mut self, message: &str, context: &LogContext)
        ensures
            final(self).pending() == old(self).pending().push((LogLevel::Warn, message@, context_map(*context))),
            final(self).sink() == old(self).sink(),
    {
        self.log(LogLevel::Warn, message, context);
    }

    pub fn error(&mut self, message: &str, context: &LogContext)
        ensures
            final(self).pending() == old(self).pending().push((LogLevel::Error, message@, context_map(*context))),
            final(self).sink() == old(self).sink(),
    {
        self.log(LogLevel::Error, message, context);
    }

    /// The number of records waiting to be written.
    pub fn pending_count(&self) -> (n: usize)
        ensures
            n == self.pending().len(),
    {
        self.outbox.len()
    }

    /// Hands out the waiting records, oldest first, and empties the outbox.
    pub fn take_pending(&mut self) -> (v: Vec<LogEntry>)
        ensures
            v@ == old(self).entries(),
            v@.map_values(|e: LogEntry| record_of(e)) == old(self).pending(),
            final(self).pending() == Seq::<(LogLevel, Seq<char>, Map<Seq<char>, Seq<char>>)>::empty(),
            final(self).sink() == old(self).sink(),
    {
        let mut v: Vec<LogEntry> = Vec::new();
        std::mem::swap(&mut v, &mut self.outbox);
        assert(self.pending() =~= Seq::<(LogLevel, Seq<char>, Map<Seq<char>, Seq<char>>)>::empty());
        v
    }

    /// The sink.
    pub fn writer(&self) -> (w: &LogSink)
        ensures
            w == self.sink(),
    {
        &self.writer
    }
}

} // verus!
