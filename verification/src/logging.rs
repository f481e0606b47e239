//! The bounded log ring, its batched delivery and the retry policy.

use crate::containers::{keep_last, ring_push};
use vstd::prelude::*;
use vstd::string::StringSliceAdditionalSpecFns;

verus! {

/// Number of entries the ring keeps.
pub const MAX_STORED_LOGS: usize = 100;

/// Bytes the name of the device may take in an entry.
pub const MAX_DEVICE_NAME_LENGTH: usize = 32;

/// Bytes the message may take in an entry.
pub const MAX_LOG_LENGTH: usize = 256;

/// Number of entries that go into one delivery request.
pub const LOG_CHUNK_SIZE: usize = 10;

/// Why the telemetry buffer could not do what was asked.
#[derive(Clone, Copy, Debug, PartialEq, Eq, Structural)]
pub enum Error {
    /// The ring refused an entry.
    PushLogToBuffer,
    /// A chunk of the batch was not delivered.
    SendLogs,
    /// The logger could not be installed.
    SetLogger,
}

/// Severity of a log entry, most severe first.
#[derive(Clone, Copy, Debug, PartialEq, Eq, Structural)]
pub enum Level {
    Error,
    Warn,
    Info,
    Debug,
    Trace,
}

impl Level {
    /// Position of the level, 1 for the most severe.
    pub open spec fn rank(self) -> nat {
        match self {
            Level::Error => 1,
            Level::Warn => 2,
            Level::Info => 3,
            Level::Debug => 4,
            Level::Trace => 5,
        }
    }

    /// The name the level has on the wire.
    pub open spec fn name(self) -> Seq<char> {
        match self {
            Level::Error => "ERROR"@,
            Level::Warn => "WARN"@,
            Level::Info => "INFO"@,
            Level::Debug => "DEBUG"@,
            Level::Trace => "TRACE"@,
        }
    }

    /// Returns the name the level has on the wire.
    pub fn as_str(&self) -> (name: &'static str)
        ensures
            name@ == self.name(),
    {
        match self {
            Level::Error => "ERROR",
            Level::Warn => "WARN",
            Level::Info => "INFO",
            Level::Debug => "DEBUG",
            Level::Trace => "TRACE",
        }
    }

    /// The escape sequence that colours the level on the console.
    pub open spec fn colour(self) -> Seq<char> {
        match self {
            Level::Error => "\u{001B}[31m"@,
            Level::Warn => "\u{001B}[33m"@,
            Level::Info => "\u{001B}[32m"@,
            Level::Debug => "\u{001B}[34m"@,
            Level::Trace => "\u{001B}[35m"@,
        }
    }

    /// Returns the escape sequence that colours the level on the console:
    /// red for errors, yellow for warnings, green, blue and magenta for the
    /// levels below.
    pub fn console_colour(&self) -> (colour: &'static str)
        ensures
            colour@ == self.colour(),
    {
        match self {
            Level::Error => "\u{001B}[31m",
            Level::Warn => "\u{001B}[33m",
            Level::Info => "\u{001B}[32m",
            Level::Debug => "\u{001B}[34m",
            Level::Trace => "\u{001B}[35m",
        }
    }

    /// Tells whether an entry of this level passes a filter set to `max`.
    pub fn passes(&self, max: Level) -> (passes: bool)
        ensures
            passes == (self.rank() <= max.rank()),
    {
        match max {
            Level::Trace => true,
            Level::Debug => !matches!(self, Level::Trace),
            Level::Info => matches!(self, Level::Error | Level::Warn | Level::Info),
            Level::Warn => matches!(self, Level::Error | Level::Warn),
            Level::Error => matches!(self, Level::Error),
        }
    }
}

/// One line of the log as it is kept and later sent. The name of the device
/// and the message are bounded in length.
#[derive(Debug)]
pub struct LogEntry {
    pub device_id: heapless::String<32>,
    pub level: Level,
    pub message: heapless::String<256>,
    pub boot_count: u32,
    pub timestamp: u64,
}

/// The text of a device name as an entry holds it.
pub uninterp spec fn device_text(name: heapless::String<32>) -> Seq<char>;

/// The text of a message as an entry holds it.
pub uninterp spec fn message_text(message: heapless::String<256>) -> Seq<char>;

/// What an entry takes of a text: the text where its bytes fit into
/// `limit`, nothing where they do not.
pub open spec fn fitted(text: &str, limit: nat) -> Seq<char> {
    if text.spec_bytes().len() <= limit {
        text@
    } else {
        Seq::<char>::empty()
    }
}

impl LogEntry {
    /// Whether the entry is the one that is made of these parts.
    pub open spec fn holds(
        &self,
        device_id: &str,
        level: Level,
        message: &str,
        boot_count: u32,
        timestamp: u64,
    ) -> bool {
        &&& device_text(self.device_id) == fitted(device_id, MAX_DEVICE_NAME_LENGTH as nat)
        &&& self.level == level
        &&& message_text(self.message) == fitted(message, MAX_LOG_LENGTH as nat)
        &&& self.boot_count == boot_count
        &&& self.timestamp == timestamp
    }
}

/// `heapless::String::try_from(&str)`: a string with the same text where its
/// bytes fit into the capacity, an error where they do not.
#[verifier::external_body]
fn bounded_device_name(text: &str) -> (name: Result<heapless::String<32>, ()>)
    ensures
        text.spec_bytes().len() <= 32 ==> name.is_ok() && device_text(name->Ok_0) == text@,
        text.spec_bytes().len() > 32 ==> name.is_err(),
{
    heapless::String::try_from(text)
}

/// `heapless::String::try_from(&str)`: a string with the same text where its
/// bytes fit into the capacity, an error where they do not.
#[verifier::external_body]
fn bounded_message(text: &str) -> (message: Result<heapless::String<256>, ()>)
    ensures
        text.spec_bytes().len() <= 256 ==> message.is_ok() && message_text(message->Ok_0)
            == text@,
        text.spec_bytes().len() > 256 ==> message.is_err(),
{
    heapless::String::try_from(text)
}

/// The entries a ring holds, oldest first.
pub uninterp spec fn ring_entries(ring: heapless::Deque<LogEntry, 100>) -> Seq<LogEntry>;

/// The entries a staging batch holds, in the order they were pushed.
pub uninterp spec fn batch_entries(batch: heapless::Vec<LogEntry, 100>) -> Seq<LogEntry>;

/// `heapless::Deque::new`: the new deque is empty.
#[verifier::external_body]
fn ring_new() -> (ring: heapless::Deque<LogEntry, 100>)
    ensures
        ring_entries(ring) == Seq::<LogEntry>::empty(),
{
    heapless::Deque::new()
}

/// `heapless::Deque::is_full`: true exactly when the deque holds as many
/// items as it has room for; it never holds more.
#[verifier::external_body]
fn ring_is_full(ring: &heapless::Deque<LogEntry, 100>) -> (full: bool)
    ensures
        full ==> ring_entries(*ring).len() == 100,
        !full ==> ring_entries(*ring).len() < 100,
{
    ring.is_full()
}

/// `heapless::Deque::is_empty`: true exactly when the deque holds nothing.
#[verifier::external_body]
fn ring_is_empty(ring: &heapless::Deque<LogEntry, 100>) -> (empty: bool)
    ensures
        empty == (ring_entries(*ring).len() == 0),
{
    ring.is_empty()
}

/// `heapless::Deque::len`: the number of items the deque holds, which is
/// never more than it has room for.
#[verifier::external_body]
fn ring_len(ring: &heapless::Deque<LogEntry, 100>) -> (len: usize)
    ensures
        len == ring_entries(*ring).len(),
        len <= 100,
{
    ring.len()
}

/// `heapless::Deque::pop_front`: takes the oldest item out, or returns `None`
/// and leaves the deque as it is when it holds nothing.
#[verifier::external_body]
fn ring_pop_front(ring: &mut heapless::Deque<LogEntry, 100>) -> (front: Option<LogEntry>)
    ensures
        ring_entries(*old(ring)).len() == 0 ==> front.is_none() && ring_entries(*final(ring))
            == ring_entries(*old(ring)),
        ring_entries(*old(ring)).len() > 0 ==> front == Some(ring_entries(*old(ring)).first())
            && ring_entries(*final(ring)) == ring_entries(*old(ring)).drop_first(),
{
    ring.pop_front()
}

/// `heapless::Deque::push_back`: appends the item behind the newest one, or
/// hands it back and leaves the deque as it is when there is no room.
#[verifier::external_body]
fn ring_push_back(ring: &mut heapless::Deque<LogEntry, 100>, item: LogEntry) -> (pushed: Result<(), LogEntry>)
    ensures
        ring_entries(*old(ring)).len() < 100 ==> pushed.is_ok() && ring_entries(*final(ring))
            == ring_entries(*old(ring)).push(item),
        ring_entries(*old(ring)).len() >= 100 ==> pushed.is_err() && pushed->Err_0 == item
            && ring_entries(*final(ring)) == ring_entries(*old(ring)),
{
    ring.push_back(item)
}

/// `heapless::Deque::push_front`: puts the item before the oldest one, or
/// hands it back and leaves the deque as it is when there is no room.
#[verifier::external_body]
fn ring_push_front(ring: &mut heapless::Deque<LogEntry, 100>, item: LogEntry) -> (pushed: Result<(), LogEntry>)
    ensures
        ring_entries(*old(ring)).len() < 100 ==> pushed.is_ok() && ring_entries(*final(ring))
            == seq![item] + ring_entries(*old(ring)),
        ring_entries(*old(ring)).len() >= 100 ==> pushed.is_err() && pushed->Err_0 == item
            && ring_entries(*final(ring)) == ring_entries(*old(ring)),
{
    ring.push_front(item)
}

/// `heapless::Vec::new`: the new vector is empty.
#[verifier::external_body]
fn batch_new() -> (batch: heapless::Vec<LogEntry, 100>)
    ensures
        batch_entries(batch) == Seq::<LogEntry>::empty(),
{
    heapless::Vec::new()
}

/// `heapless::Vec::is_full`: true exactly when the vector holds as many items
/// as it has room for; it never holds more.
#[verifier::external_body]
fn batch_is_full(batch: &heapless::Vec<LogEntry, 100>) -> (full: bool)
    ensures
        full ==> batch_entries(*batch).len() == 100,
        !full ==> batch_entries(*batch).len() < 100,
{
    batch.is_full()
}

/// `heapless::Vec::push`: appends the item, or hands it back and leaves the
/// vector as it is when there is no room.
#[verifier::external_body]
fn batch_push(batch: &mut heapless::Vec<LogEntry, 100>, item: LogEntry) -> (pushed: Result<(), LogEntry>)
    ensures
        batch_entries(*old(batch)).len() < 100 ==> pushed.is_ok() && batch_entries(*final(batch))
            == batch_entries(*old(batch)).push(item),
        batch_entries(*old(batch)).len() >= 100 ==> pushed.is_err() && pushed->Err_0 == item
            && batch_entries(*final(batch)) == batch_entries(*old(batch)),
{
    batch.push(item)
}

/// `heapless::Vec::pop`: takes the last item out, or returns `None` and
/// leaves the vector as it is when it holds nothing.
#[verifier::external_body]
fn batch_pop(batch: &mut heapless::Vec<LogEntry, 100>) -> (last: Option<LogEntry>)
    ensures
        batch_entries(*old(batch)).len() == 0 ==> last.is_none() && batch_entries(*final(batch))
            == batch_entries(*old(batch)),
        batch_entries(*old(batch)).len() > 0 ==> last == Some(batch_entries(*old(batch)).last())
            && batch_entries(*final(batch)) == batch_entries(*old(batch)).drop_last(),
{
    batch.pop()
}

/// `heapless::Vec::as_slice`: the items of the vector, in order, as a slice.
#[verifier::external_body]
fn batch_as_slice(batch: &heapless::Vec<LogEntry, 100>) -> (items: &[LogEntry])
    ensures
        items@ == batch_entries(*batch),
{
    batch.as_slice()
}

/// The logger of the node: the boot count it stamps entries with, the level
/// it lets through and the ring of entries that wait for delivery.
pub struct HttpLogger {
    boot_count: u32,
    max_level: Level,
    buffer: heapless::Deque<LogEntry, 100>,
}

impl HttpLogger {
    /// The boot count that new entries are stamped with.
    pub closed spec fn boot_count(&self) -> u32 {
        self.boot_count
    }

    /// The least severe level that is still recorded.
    pub closed spec fn max_level(&self) -> Level {
        self.max_level
    }

    /// The entries that wait for delivery, oldest first.
    pub closed spec fn entries(&self) -> Seq<LogEntry> {
        ring_entries(self.buffer)
    }

    /// Creates a logger with an empty ring that records `Info` and above.
    pub fn new() -> (logger: Self)
        ensures
            logger.boot_count() == 0,
            logger.max_level() == Level::Info,
            logger.entries() == Seq::<LogEntry>::empty(),
    {
        Self { boot_count: 0, max_level: Level::Info, buffer: ring_new() }
    }

    /// Sets the boot count that later entries are stamped with.
    pub fn set_boot_count(&mut self, count: u32)
        ensures
            final(self).boot_count() == count,
            final(self).max_level() == old(self).max_level(),
            final(self).entries() == old(self).entries(),
    {
        self.boot_count = count;
    }

    /// Sets the least severe level that is still recorded.
    pub fn set_max_level(&mut self, level: Level)
        ensures
            final(self).max_level() == level,
            final(self).boot_count() == old(self).boot_count(),
            final(self).entries() == old(self).entries(),
    {
        self.max_level = level;
    }

    /// Number of entries that wait for delivery.
    pub fn pending(&self) -> (count: usize)
        ensures
            count == self.entries().len(),
            count <= MAX_STORED_LOGS,
    {
        ring_len(&self.buffer)
    }

    /// Tells whether an entry of `level` would be recorded.
    pub fn enabled(&self, level: Level) -> (enabled: bool)
        ensures
            enabled == (level.rank() <= self.max_level().rank()),
    {
        level.passes(self.max_level)
    }

    /// Puts an entry into the ring; when the ring is full the oldest entry
    /// leaves first, so there is always room and the result is always `Ok`.
    ///
    /// The entry takes the name of the device where it fits into
    /// `MAX_DEVICE_NAME_LENGTH` bytes and the message where it fits into
    /// `MAX_LOG_LENGTH` bytes; a text that does not fit is left empty.
    pub fn store_log(&mut self, device_id: &str, level: Level, message: &str, timestamp: u64) -> (stored:
        Result<(), Error>)
        ensures
            stored.is_ok(),
            final(self).entries() == ring_push(
                old(self).entries(),
                MAX_STORED_LOGS as nat,
                final(self).entries().last(),
            ),
            final(self).entries().last().holds(
                device_id,
                level,
                message,
                old(self).boot_count(),
                timestamp,
            ),
            0 < final(self).entries().len() <= MAX_STORED_LOGS,
            final(self).boot_count() == old(self).boot_count(),
            final(self).max_level() == old(self).max_level(),
    {
        proof {
            reveal_strlit("");
            assert(""@ =~= Seq::<char>::empty());
            assert("".spec_bytes() =~= Seq::<u8>::empty());
        }
        let name = match bounded_device_name(device_id) {
            Ok(name) => name,
            Err(_) => bounded_device_name("").unwrap(),
        };
        let text = match bounded_message(message) {
            Ok(text) => text,
            Err(_) => bounded_message("").unwrap(),
        };
        let entry = LogEntry {
            device_id: name,
            level,
            message: text,
            boot_count: self.boot_count,
            timestamp,
        };
        if ring_is_full(&self.buffer) {
            let _ = ring_pop_front(&mut self.buffer);
        }
        match ring_push_back(&mut self.buffer, entry) {
            Ok(()) => Ok(()),
            Err(_) => Err(Error::PushLogToBuffer),
        }
    }

    /// Records an entry if its level passes the filter, and tells whether it
    /// did.
    pub fn log(&mut self, device_id: &str, level: Level, message: &str, timestamp: u64) -> (
        recorded: bool
    )
        ensures
            recorded == (level.rank() <= old(self).max_level().rank()),
            recorded ==> final(self).entries() == ring_push(
                old(self).entries(),
                MAX_STORED_LOGS as nat,
                final(self).entries().last(),
            ) && final(self).entries().last().holds(
                device_id,
                level,
                message,
                old(self).boot_count(),
                timestamp,
            ),
            !recorded ==> final(self).entries() == old(self).entries(),
            final(self).boot_count() == old(self).boot_count(),
            final(self).max_level() == old(self).max_level(),
    {
        if self.enabled(level) {
            let _ = self.store_log(device_id, level, message, timestamp);
            true
        } else {
            false
        }
    }
}

/// Makes the logger for this wake cycle.
///
/// `installed` tells whether the logger could be registered as the sink for
/// the rest of the firmware; without that nothing would ever reach the ring,
/// so the set-up fails.
pub fn setup_logger(boot_count: u32, installed: bool) -> (logger: Result<HttpLogger, Error>)
    ensures
        installed ==> logger.is_ok() && logger.unwrap().boot_count() == boot_count
            && logger.unwrap().max_level() == Level::Info && logger.unwrap().entries()
            == Seq::<LogEntry>::empty(),
        !installed ==> logger.is_err() && logger->Err_0 == Error::SetLogger,
{
    if !installed {
        return Err(Error::SetLogger);
    }
    let mut logger = HttpLogger::new();
    logger.set_boot_count(boot_count);
    Ok(logger)
}

/// The interval that follows `interval` after one more failed delivery.
pub open spec fn next_interval(interval: nat, ceiling: nat) -> nat {
    if 2 * interval <= ceiling {
        2 * interval
    } else {
        ceiling
    }
}

/// The interval after `failures` failed deliveries in a row, starting from
/// `interval`.
pub open spec fn interval_after_failures(interval: nat, ceiling: nat, failures: nat) -> nat
    decreases failures,
{
    if failures == 0 {
        interval
    } else {
        next_interval(interval_after_failures(interval, ceiling, (failures - 1) as nat), ceiling)
    }
}

/// Two to the power of `exponent`.
pub open spec fn pow2(exponent: nat) -> nat
    decreases exponent,
{
    if exponent == 0 {
        1
    } else {
        2 * pow2((exponent - 1) as nat)
    }
}

/// After `failures` failed deliveries in a row the retry interval is the base
/// interval doubled that many times, capped at the ceiling:
/// `min(base * 2^failures, ceiling)`.
pub proof fn lemma_backoff_closed_form(base: nat, ceiling: nat, failures: nat)
    requires
        base <= ceiling,
    ensures
        interval_after_failures(base, ceiling, failures) == if base * pow2(failures) <= ceiling {
            base * pow2(failures)
        } else {
            ceiling
        },
        base <= interval_after_failures(base, ceiling, failures) <= ceiling,
    decreases failures,
{
    if failures > 0 {
        let earlier = (failures - 1) as nat;
        lemma_backoff_closed_form(base, ceiling, earlier);
        assert(base * pow2(failures) == 2 * (base * pow2(earlier))) by (nonlinear_arith)
            requires
                pow2(failures) == 2 * pow2(earlier),
        ;
        assert(base * pow2(earlier) >= 0) by (nonlinear_arith);
    } else {
        assert(base * pow2(0) == base) by (nonlinear_arith)
            requires
                pow2(0) == 1,
        ;
    }
}

/// When the log batch may next be sent: the current interval between
/// attempts and the time of the last one.
#[derive(Clone, Copy, Debug)]
pub struct RetryState {
    base: u64,
    ceiling: u64,
    interval: u64,
    last_attempt_time: Option<u64>,
}

impl RetryState {
    #[verifier::type_invariant]
    closed spec fn within_bounds(self) -> bool {
        self.base <= self.interval <= self.ceiling
    }

    /// The interval that a success resets to.
    pub closed spec fn base(&self) -> u64 {
        self.base
    }

    /// The longest interval that failures lead to.
    pub closed spec fn ceiling(&self) -> u64 {
        self.ceiling
    }

    /// The interval that must pass after the last attempt.
    pub closed spec fn interval(&self) -> u64 {
        self.interval
    }

    /// The time of the last attempt, if there was one.
    pub closed spec fn last_attempt_time(&self) -> Option<u64> {
        self.last_attempt_time
    }

    /// What the state is after one more failed attempt at `now`.
    pub open spec fn failed_at(&self, now: u64, then: RetryState) -> bool {
        &&& then.base() == self.base()
        &&& then.ceiling() == self.ceiling()
        &&& then.interval() == next_interval(self.interval() as nat, self.ceiling() as nat)
        &&& then.last_attempt_time() == Some(now)
    }

    /// What the state is after a successful attempt at `now`.
    pub open spec fn succeeded_at(&self, now: u64, then: RetryState) -> bool {
        &&& then.base() == self.base()
        &&& then.ceiling() == self.ceiling()
        &&& then.interval() == self.base()
        &&& then.last_attempt_time() == Some(now)
    }

    /// Tells whether an attempt is due at `now`: none was made yet, or the
    /// interval has passed since the last one.
    pub open spec fn due_at(&self, now: u64) -> bool {
        match self.last_attempt_time() {
            None => true,
            Some(last) => now >= last + self.interval(),
        }
    }

    /// Creates the state before any attempt, or `None` where the base
    /// interval is longer than the ceiling.
    pub fn new(base: u64, ceiling: u64) -> (state: Option<Self>)
        ensures
            base > ceiling ==> state.is_none(),
            base <= ceiling ==> state.is_some() && state.unwrap().base() == base
                && state.unwrap().ceiling() == ceiling && state.unwrap().interval() == base
                && state.unwrap().last_attempt_time().is_none(),
    {
        if base > ceiling {
            None
        } else {
            Some(Self { base, ceiling, interval: base, last_attempt_time: None })
        }
    }

    /// Returns the interval that must pass after the last attempt.
    pub fn current_interval(&self) -> (interval: u64)
        ensures
            interval == self.interval(),
            self.base() <= interval <= self.ceiling(),
    {
        proof {
            use_type_invariant(self);
        }
        self.interval
    }

    /// Tells whether an attempt is due at `now`.
    pub fn is_due(&self, now: u64) -> (due: bool)
        ensures
            due == self.due_at(now),
    {
        match self.last_attempt_time {
            None => true,
            Some(last) => now >= last && now - last >= self.interval,
        }
    }

    /// Notes a failed attempt at `now`: the interval doubles, up to the
    /// ceiling.
    pub fn record_failure(&mut self, now: u64)
        ensures
            old(self).failed_at(now, *final(self)),
    {
        proof {
            use_type_invariant(&*self);
        }
        let doubled: u64 = if self.interval > self.ceiling - self.interval {
            self.ceiling
        } else {
            self.interval + self.interval
        };
        self.interval = doubled;
        self.last_attempt_time = Some(now);
    }

    /// Notes a successful attempt at `now`: the interval goes back to the
    /// base.
    pub fn record_success(&mut self, now: u64)
        ensures
            old(self).succeeded_at(now, *final(self)),
    {
        proof {
            use_type_invariant(&*self);
        }
        self.interval = self.base;
        self.last_attempt_time = Some(now);
    }
}

/// Where the end of the chunk lies that starts at `sent` in a batch of
/// `len` entries.
pub open spec fn chunk_end(sent: nat, len: nat) -> nat {
    if sent + LOG_CHUNK_SIZE <= len {
        sent + LOG_CHUNK_SIZE as nat
    } else {
        len
    }
}

/// One delivery of the log: the batch that was taken out of the ring and how
/// far the delivery has come.
pub struct LogFlush {
    batch: heapless::Vec<LogEntry, 100>,
    sent: usize,
    failed: bool,
}

impl LogFlush {
    #[verifier::type_invariant]
    closed spec fn sent_within_batch(self) -> bool {
        self.sent <= batch_entries(self.batch).len() <= MAX_STORED_LOGS
    }

    /// The entries of the batch, oldest first.
    pub closed spec fn entries(&self) -> Seq<LogEntry> {
        batch_entries(self.batch)
    }

    /// How many entries of the batch were delivered.
    pub closed spec fn sent(&self) -> nat {
        self.sent as nat
    }

    /// Whether a chunk was reported as not delivered.
    pub closed spec fn failed(&self) -> bool {
        self.failed
    }

    /// The entries that were not delivered.
    pub open spec fn unsent(&self) -> Seq<LogEntry> {
        self.entries().subrange(self.sent() as int, self.entries().len() as int)
    }

    /// Whether there is a chunk left to send.
    pub open spec fn has_next(&self) -> bool {
        !self.failed() && self.sent() < self.entries().len()
    }

    /// Returns how many entries of the batch are not delivered yet.
    pub fn remaining(&self) -> (count: usize)
        ensures
            count == self.unsent().len(),
            self.sent() + count == self.entries().len(),
            self.entries().len() <= MAX_STORED_LOGS,
    {
        proof {
            use_type_invariant(self);
        }
        batch_as_slice(&self.batch).len() - self.sent
    }

    /// Returns the next chunk to send: up to `LOG_CHUNK_SIZE` entries that
    /// follow those already delivered, or `None` when the batch is through or
    /// a chunk has failed.
    pub fn transmit_logs(&self) -> (chunk: Option<&[LogEntry]>)
        ensures
            self.has_next() ==> chunk.is_some() && chunk.unwrap()@ == self.entries().subrange(
                self.sent() as int,
                chunk_end(self.sent(), self.entries().len()) as int,
            ),
            !self.has_next() ==> chunk.is_none(),
    {
        proof {
            use_type_invariant(self);
        }
        let items = batch_as_slice(&self.batch);
        if self.failed || self.sent >= items.len() {
            return None;
        }
        let end: usize = if items.len() - self.sent >= LOG_CHUNK_SIZE {
            self.sent + LOG_CHUNK_SIZE
        } else {
            items.len()
        };
        Some(vstd::slice::slice_subrange(items, self.sent, end))
    }

    /// Notes what became of the chunk that `transmit_logs` handed out: a
    /// delivered chunk is never handed out again, a failed one ends the
    /// delivery. Without a chunk outstanding nothing changes.
    pub fn chunk_done(&mut self, delivered: bool)
        ensures
            final(self).entries() == old(self).entries(),
            old(self).has_next() && delivered ==> final(self).sent() == chunk_end(
                old(self).sent(),
                old(self).entries().len(),
            ) && !final(self).failed(),
            old(self).has_next() && !delivered ==> final(self).sent() == old(self).sent()
                && final(self).failed(),
            !old(self).has_next() ==> final(self).sent() == old(self).sent() && final(self).failed()
                == old(self).failed(),
    {
        proof {
            use_type_invariant(&*self);
        }
        let len = batch_as_slice(&self.batch).len();
        if self.failed || self.sent >= len {
            return ;
        }
        if delivered {
            let end: usize = if len - self.sent >= LOG_CHUNK_SIZE {
                self.sent + LOG_CHUNK_SIZE
            } else {
                len
            };
            self.sent = end;
        } else {
            self.failed = true;
        }
    }

    /// Ends the delivery at `now`.
    ///
    /// Where every entry was delivered the retry interval goes back to its
    /// base and the ring stays as it is. Otherwise the delivery has failed:
    /// the entries that were not delivered go back to the front of the ring,
    /// before what was logged meanwhile, the oldest of them giving way where
    /// the ring cannot hold all, and the retry interval doubles.
    pub fn finish(self, logger: &mut HttpLogger, retry: &mut RetryState, now: u64) -> (outcome:
        Result<(), Error>)
        ensures
            final(logger).boot_count() == old(logger).boot_count(),
            final(logger).max_level() == old(logger).max_level(),
            self.unsent().len() == 0 ==> outcome.is_ok() && final(logger).entries() == old(
                logger,
            ).entries() && old(retry).succeeded_at(now, *final(retry)),
            self.unsent().len() > 0 ==> outcome.is_err() && outcome->Err_0 == Error::SendLogs
                && final(logger).entries() == keep_last(
                self.unsent() + old(logger).entries(),
                MAX_STORED_LOGS as nat,
            ) && old(retry).failed_at(now, *final(retry)),
    {
        proof {
            use_type_invariant(&self);
        }
        let LogFlush { batch, sent, failed: _ } = self;
        let mut batch = batch;
        let ghost taken = batch_entries(batch);
        let ghost waiting = logger.entries();
        let mut left: usize = batch_as_slice(&batch).len();
        if left == sent {
            retry.record_success(now);
            return Ok(());
        }
        let mut room: bool = !ring_is_full(&logger.buffer);
        while left > sent && room
            invariant
                sent <= left <= taken.len() <= 100,
                batch_entries(batch) == taken.subrange(0, left as int),
                ring_entries(logger.buffer) == taken.subrange(
                    left as int,
                    taken.len() as int,
                ) + waiting,
                room == (ring_entries(logger.buffer).len() < 100),
                ring_entries(logger.buffer).len() <= 100,
                logger.boot_count == old(logger).boot_count,
                logger.max_level == old(logger).max_level,
            decreases left,
        {
            let entry = batch_pop(&mut batch);
            match entry {
                Some(entry) => {
                    let _ = ring_push_front(&mut logger.buffer, entry);
                },
                None => {},
            }
            left = left - 1;
            room = !ring_is_full(&logger.buffer);
            proof {
                assert(batch_entries(batch) =~= taken.subrange(0, left as int));
                assert(ring_entries(logger.buffer) =~= taken.subrange(
                    left as int,
                    taken.len() as int,
                ) + waiting);
            }
        }
        proof {
            let unsent = taken.subrange(sent as int, taken.len() as int);
            assert(ring_entries(logger.buffer) =~= keep_last(unsent + waiting, 100));
        }
        retry.record_failure(now);
        Err(Error::SendLogs)
    }
}

/// Begins a delivery: takes every entry out of the ring, oldest first, into
/// a batch that is then sent chunk by chunk.
pub fn send_logs_to_server(logger: &mut HttpLogger) -> (flush: LogFlush)
    ensures
        flush.entries() == old(logger).entries(),
        flush.sent() == 0,
        !flush.failed(),
        final(logger).entries() == Seq::<LogEntry>::empty(),
        final(logger).boot_count() == old(logger).boot_count(),
        final(logger).max_level() == old(logger).max_level(),
{
    let mut batch = batch_new();
    let ghost taken = logger.entries();
    let _ = ring_len(&logger.buffer);
    let mut more: bool = !ring_is_empty(&logger.buffer) && !batch_is_full(&batch);
    while more
        invariant
            taken.len() <= 100,
            batch_entries(batch) + ring_entries(logger.buffer) == taken,
            more == (ring_entries(logger.buffer).len() > 0 && batch_entries(batch).len() < 100),
            logger.boot_count == old(logger).boot_count,
            logger.max_level == old(logger).max_level,
        decreases ring_entries(logger.buffer).len(),
    {
        let ghost before = ring_entries(logger.buffer);
        let ghost staged = batch_entries(batch);
        match ring_pop_front(&mut logger.buffer) {
            Some(entry) => {
                let _ = batch_push(&mut batch, entry);
            },
            None => {},
        }
        proof {
            assert(batch_entries(batch) + ring_entries(logger.buffer) =~= staged + before);
        }
        more = !ring_is_empty(&logger.buffer) && !batch_is_full(&batch);
    }
    proof {
        assert(ring_entries(logger.buffer) =~= Seq::<LogEntry>::empty());
        assert(batch_entries(batch) =~= taken);
    }
    LogFlush { batch, sent: 0, failed: false }
}

} // verus!
