//! Transfers: their files, their life cycle, and the throttle that spaces
//! out progress reports.
use vstd::prelude::*;

verus! {

/// Which way a transfer goes.
#[derive(Clone, Copy, PartialEq, Eq, Structural, Debug)]
pub enum Direction {
    Send,
    Receive,
}

/// Where a transfer is in its life cycle.
#[derive(Clone, Copy, PartialEq, Eq, Structural, Debug)]
pub enum TransferStatus {
    Pending,
    AwaitingApproval,
    Active,
    Completed,
    Cancelled,
    Failed,
    Rejected,
}

impl TransferStatus {
    /// A status from which nothing moves on.
    pub open spec fn is_final(self) -> bool {
        self is Completed || self is Cancelled || self is Failed || self is Rejected
    }

    /// A status that a cancel stops: the transfer has not ended yet.
    pub open spec fn is_cancellable(self) -> bool {
        self is Active || self is AwaitingApproval || self is Pending
    }
}

/// A point in time: seconds and nanoseconds since the Unix epoch, UTC.
#[derive(Clone, Copy, PartialEq, Eq, Structural, Debug)]
pub struct Timestamp {
    pub secs: i64,
    pub nanos: u32,
}

/// The current time (`chrono::Utc::now`).
#[verifier::external_body]
pub(crate) fn utc_now() -> Timestamp {
    let t = chrono::Utc::now();
    Timestamp { secs: t.timestamp(), nanos: t.timestamp_subsec_nanos() }
}

/// A file announced for a transfer.
pub struct FileMeta {
    pub name: String,
    pub size: u64,
    pub mime: Option<String>,
}

impl Clone for FileMeta {
    fn clone(&self) -> (r: FileMeta)
        ensures
            r == *self,
    {
        FileMeta {
            name: self.name.clone(),
            size: self.size,
            mime: match &self.mime {
                Some(m) => Some(m.clone()),
                None => None,
            },
        }
    }
}

/// Copies a list of files.
pub fn clone_files(files: &Vec<FileMeta>) -> (r: Vec<FileMeta>)
    ensures
        r@ == files@,
{
    let r = files.clone();
    assert(r@ =~= files@);
    r
}

/// The sum of the sizes of the files.
pub open spec fn total_size(files: Seq<FileMeta>) -> int
    decreases files.len(),
{
    if files.len() == 0 {
        0
    } else {
        total_size(files.drop_last()) + files.last().size
    }
}

/// The sum of the sizes of `files`, or `None` when it does not fit in a
/// `u64`.
pub fn checked_total_size(files: &Vec<FileMeta>) -> (r: Option<u64>)
    ensures
        match r {
            Some(t) => t == total_size(files@),
            None => total_size(files@) > u64::MAX,
        },
{
    let mut sum: u64 = 0;
    let mut i: usize = 0;
    while i < files.len()
        invariant
            i <= files@.len(),
            sum == total_size(files@.subrange(0, i as int)),
        decreases files@.len() - i,
    {
        assert(files@.subrange(0, i + 1).drop_last() =~= files@.subrange(0, i as int));
        let size = files[i].size;
        assert(files@.subrange(0, i + 1).last() == files@[i as int]);
        if sum > u64::MAX - size {
            proof {
                lemma_total_size_grows(files@, i as int + 1, files@.len() as int);
                assert(files@.subrange(0, files@.len() as int) =~= files@);
            }
            return None;
        }
        sum = sum + size;
        i = i + 1;
    }
    assert(files@.subrange(0, i as int) =~= files@);
    Some(sum)
}

/// The sum over a prefix is at most the sum over a longer prefix.
pub proof fn lemma_total_size_grows(files: Seq<FileMeta>, i: int, j: int)
    requires
        0 <= i <= j <= files.len(),
    ensures
        total_size(files.subrange(0, i)) <= total_size(files.subrange(0, j)),
    decreases j - i,
{
    if i < j {
        lemma_total_size_grows(files, i, j - 1);
        assert(files.subrange(0, j).drop_last() =~= files.subrange(0, j - 1));
    }
}

/// A lowercase hex digit.
pub open spec fn is_lower_hex_digit(c: char) -> bool {
    ('0' <= c && c <= '9') || ('a' <= c && c <= 'f')
}

/// The hyphenated lowercase text of a version 4 UUID: 36 characters,
/// hyphens at 8, 13, 18 and 23, hex digits elsewhere, the version digit
/// `4` at 14 and the variant digit (`8`, `9`, `a` or `b`) at 19.
pub open spec fn is_v4_uuid_text(s: Seq<char>) -> bool {
    &&& s.len() == 36
    &&& forall|i: int|
        0 <= i < 36 ==> if i == 8 || i == 13 || i == 18 || i == 23 {
            s[i] == '-'
        } else {
            is_lower_hex_digit(#[trigger] s[i])
        }
    &&& s[14] == '4'
    &&& s[19] == '8' || s[19] == '9' || s[19] == 'a' || s[19] == 'b'
}

/// A random transfer id: `uuid::Uuid::new_v4` as text, which is the
/// hyphenated lowercase form with the version and variant bits set.
#[verifier::external_body]
fn new_transfer_id() -> (r: String)
    ensures
        is_v4_uuid_text(r@),
{
    uuid::Uuid::new_v4().to_string()
}

/// One file transfer, in either direction.
pub struct Transfer {
    pub id: String,
    pub direction: Direction,
    pub peer_id: String,
    pub peer_name: String,
    pub files: Vec<FileMeta>,
    pub total_bytes: u64,
    pub bytes_done: u64,
    pub status: TransferStatus,
    pub error: Option<String>,
    pub started_at: Timestamp,
    pub finished_at: Option<Timestamp>,
}

/// A transfer as a value: its list of files as a sequence.
pub ghost struct TransferView {
    pub id: String,
    pub direction: Direction,
    pub peer_id: String,
    pub peer_name: String,
    pub files: Seq<FileMeta>,
    pub total_bytes: u64,
    pub bytes_done: u64,
    pub status: TransferStatus,
    pub error: Option<String>,
    pub started_at: Timestamp,
    pub finished_at: Option<Timestamp>,
}

impl View for Transfer {
    type V = TransferView;

    open spec fn view(&self) -> TransferView {
        TransferView {
            id: self.id,
            direction: self.direction,
            peer_id: self.peer_id,
            peer_name: self.peer_name,
            files: self.files@,
            total_bytes: self.total_bytes,
            bytes_done: self.bytes_done,
            status: self.status,
            error: self.error,
            started_at: self.started_at,
            finished_at: self.finished_at,
        }
    }
}

impl Clone for Transfer {
    fn clone(&self) -> (r: Transfer)
        ensures
            r@ == self@,
    {
        let files = clone_files(&self.files);
        Transfer {
            id: self.id.clone(),
            direction: self.direction,
            peer_id: self.peer_id.clone(),
            peer_name: self.peer_name.clone(),
            files,
            total_bytes: self.total_bytes,
            bytes_done: self.bytes_done,
            status: self.status,
            error: match &self.error {
                Some(e) => Some(e.clone()),
                None => None,
            },
            started_at: self.started_at,
            finished_at: self.finished_at,
        }
    }
}

/// A change to a transfer's progress or status.
pub enum TransferUpdate {
    /// Bytes are flowing.
    Started,
    /// This many bytes have moved so far.
    Progress(u64),
    /// All bytes moved; the count is the final one.
    Completed { bytes_done: u64, at: Timestamp },
    /// The receiver said no.
    Rejected { at: Timestamp },
    /// The transfer broke off with this message.
    Failed { error: String, at: Timestamp },
    /// The user cancelled; only a transfer that has not ended is affected.
    Cancelled { at: Timestamp },
}

/// A transfer after an update. A failure marks the transfer failed unless
/// the user cancelled it: a cancelled transfer stays cancelled when its
/// stream then breaks off. A cancel only stops a transfer that has not
/// ended. The other updates apply whatever the status.
pub open spec fn updated(t: TransferView, u: TransferUpdate) -> TransferView {
    match u {
        TransferUpdate::Started => TransferView { status: TransferStatus::Active, ..t },
        TransferUpdate::Progress(b) => TransferView { bytes_done: b, ..t },
        TransferUpdate::Completed { bytes_done, at } => TransferView {
            bytes_done,
            status: TransferStatus::Completed,
            finished_at: Some(at),
            ..t
        },
        TransferUpdate::Rejected { at } => TransferView {
            status: TransferStatus::Rejected,
            finished_at: Some(at),
            ..t
        },
        TransferUpdate::Failed { error, at } => if t.status == TransferStatus::Cancelled {
            t
        } else {
            TransferView {
                status: TransferStatus::Failed,
                error: Some(error),
                finished_at: Some(at),
                ..t
            }
        },
        TransferUpdate::Cancelled { at } => if t.status.is_cancellable() {
            TransferView { status: TransferStatus::Cancelled, finished_at: Some(at), ..t }
        } else {
            t
        },
    }
}

impl Transfer {
    /// An outgoing transfer to a peer, with a fresh random id, waiting to
    /// start.
    pub fn new_send(peer_id: String, peer_name: String, files: Vec<FileMeta>) -> (r: Transfer)
        requires
            total_size(files@) <= u64::MAX,
        ensures
            is_v4_uuid_text(r.id@),
            r.direction == Direction::Send,
            r.peer_id == peer_id,
            r.peer_name == peer_name,
            r.files@ == files@,
            r.total_bytes == total_size(files@),
            r.bytes_done == 0,
            r.status == TransferStatus::Pending,
            r.error is None,
            r.finished_at is None,
    {
        let total_bytes = match checked_total_size(&files) {
            Some(t) => t,
            None => vstd::pervasive::unreached(),
        };
        Transfer {
            id: new_transfer_id(),
            direction: Direction::Send,
            peer_id,
            peer_name,
            files,
            total_bytes,
            bytes_done: 0,
            status: TransferStatus::Pending,
            error: None,
            started_at: utc_now(),
            finished_at: None,
        }
    }

    /// An incoming transfer under the sender's id, waiting for the user's
    /// approval.
    pub fn new_receive(id: String, peer_id: String, peer_name: String, files: Vec<FileMeta>) -> (r:
        Transfer)
        requires
            total_size(files@) <= u64::MAX,
        ensures
            r.id == id,
            r.direction == Direction::Receive,
            r.peer_id == peer_id,
            r.peer_name == peer_name,
            r.files@ == files@,
            r.total_bytes == total_size(files@),
            r.bytes_done == 0,
            r.status == TransferStatus::AwaitingApproval,
            r.error is None,
            r.finished_at is None,
    {
        let total_bytes = match checked_total_size(&files) {
            Some(t) => t,
            None => vstd::pervasive::unreached(),
        };
        Transfer {
            id,
            direction: Direction::Receive,
            peer_id,
            peer_name,
            files,
            total_bytes,
            bytes_done: 0,
            status: TransferStatus::AwaitingApproval,
            error: None,
            started_at: utc_now(),
            finished_at: None,
        }
    }

    /// Applies an update.
    pub fn apply(&mut self, u: TransferUpdate)
        ensures
            final(self)@ == updated(old(self)@, u),
    {
        match u {
            TransferUpdate::Started => {
                self.status = TransferStatus::Active;
            },
            TransferUpdate::Progress(b) => {
                self.bytes_done = b;
            },
            TransferUpdate::Completed { bytes_done, at } => {
                self.bytes_done = bytes_done;
                self.status = TransferStatus::Completed;
                self.finished_at = Some(at);
            },
            TransferUpdate::Rejected { at } => {
                self.status = TransferStatus::Rejected;
                self.finished_at = Some(at);
            },
            TransferUpdate::Failed { error, at } => {
                if self.status != TransferStatus::Cancelled {
                    self.status = TransferStatus::Failed;
                    self.error = Some(error);
                    self.finished_at = Some(at);
                }
            },
            TransferUpdate::Cancelled { at } => {
                if self.status == TransferStatus::Active || self.status
                    == TransferStatus::AwaitingApproval || self.status == TransferStatus::Pending {
                    self.status = TransferStatus::Cancelled;
                    self.finished_at = Some(at);
                }
            },
        }
    }
}

/// A cancel leaves a transfer that has ended as it was, and ends one that
/// has not.
pub proof fn lemma_cancel_only_stops_running(t: TransferView, at: Timestamp)
    ensures
        t.status.is_final() ==> updated(t, TransferUpdate::Cancelled { at }) == t,
        !t.status.is_final() ==> updated(t, TransferUpdate::Cancelled { at }).status
            == TransferStatus::Cancelled,
        updated(t, TransferUpdate::Cancelled { at }).status.is_final(),
{
}

/// A progress report sets the count to the reported running total,
/// whatever the count was before, and changes nothing else; so of two
/// reports in a row only the last one counts.
pub proof fn lemma_progress_sets_the_count(t: TransferView, a: u64, b: u64)
    ensures
        updated(t, TransferUpdate::Progress(b)).bytes_done == b,
        updated(t, TransferUpdate::Progress(b)) == (TransferView { bytes_done: b, ..t }),
        updated(updated(t, TransferUpdate::Progress(a)), TransferUpdate::Progress(b))
            == updated(t, TransferUpdate::Progress(b)),
{
}

/// A cancelled transfer stays cancelled when its stream then breaks off:
/// the failure leaves it as it was, error and end time included.
pub proof fn lemma_cancel_survives_failure(t: TransferView, error: String, at: Timestamp)
    requires
        t.status == TransferStatus::Cancelled,
    ensures
        updated(t, TransferUpdate::Failed { error, at }) == t,
{
}

/// Progress report for one transfer.
pub struct ProgressEvent {
    pub id: String,
    pub bytes_done: u64,
    pub total_bytes: u64,
    pub status: TransferStatus,
}

#[verifier::external_type_specification]
#[verifier::external_body]
pub struct ExSystemTime(std::time::SystemTime);

/// The system clock's current reading (`SystemTime::now`).
#[verifier::external_body]
fn system_now() -> std::time::SystemTime {
    std::time::SystemTime::now()
}

/// How long after the Unix epoch `t` is, or `None` when it is earlier
/// (`SystemTime::duration_since(UNIX_EPOCH)`).
#[verifier::external_body]
fn since_epoch(t: &std::time::SystemTime) -> Option<std::time::Duration> {
    t.duration_since(std::time::UNIX_EPOCH).ok()
}

/// Whole milliseconds in a duration (`Duration::as_millis`).
#[verifier::external_body]
fn whole_millis(d: &std::time::Duration) -> u128 {
    d.as_millis()
}

/// Milliseconds since the epoch as a `u64`: the low 64 bits of the count,
/// or 0 when the clock reads earlier than the epoch.
pub open spec fn epoch_millis(ms: Option<u128>) -> u64 {
    match ms {
        Some(m) => (m % 0x1_0000_0000_0000_0000u128) as u64,
        None => 0,
    }
}

/// Turns a count of milliseconds since the epoch (`None` when the clock
/// reads earlier than the epoch) into the `u64` the throttle keeps.
pub fn millis_as_u64(ms: Option<u128>) -> (r: u64)
    ensures
        r == epoch_millis(ms),
{
    match ms {
        Some(m) => {
            assert((m as u64) as u128 == m % 0x1_0000_0000_0000_0000u128) by (bit_vector);
            #[verifier::truncate] (m as u64)
        },
        None => 0,
    }
}

/// The clock in milliseconds since the epoch, truncated to 64 bits; 0
/// when the clock reads earlier than the epoch. Every `u64` is a possible
/// reading, so nothing more is stated of the result.
fn now_ms() -> u64 {
    let now = system_now();
    let ms = match since_epoch(&now) {
        Some(d) => Some(whole_millis(&d)),
        None => None,
    };
    millis_as_u64(ms)
}

/// A report is due at `now` when at least `interval` milliseconds have
/// passed since the last one (a clock that went back counts as no time).
pub open spec fn report_due(last: u64, interval: u64, now: u64) -> bool {
    (if now >= last {
        now - last
    } else {
        0
    }) >= interval
}

/// A throttle's count and last report time after one addition of `delta`
/// at `now`, as [`ProgressThrottle::add_at`] makes them.
pub open spec fn throttle_step(count: int, last: u64, interval: u64, delta: u64, now: u64) -> (
    int,
    u64,
) {
    (count + delta, if report_due(last, interval, now) {
        now
    } else {
        last
    })
}

/// A throttle's count and last report time after the additions `steps`
/// (each a delta and the time it was added at), in order.
pub open spec fn throttle_run(count: int, last: u64, interval: u64, steps: Seq<(u64, u64)>) -> (
    int,
    u64,
)
    decreases steps.len(),
{
    if steps.len() == 0 {
        (count, last)
    } else {
        let (c, l) = throttle_step(count, last, interval, steps[0].0, steps[0].1);
        throttle_run(c, l, interval, steps.drop_first())
    }
}

/// The sum of the deltas of `steps`.
pub open spec fn sum_of_deltas(steps: Seq<(u64, u64)>) -> int
    decreases steps.len(),
{
    if steps.len() == 0 {
        0
    } else {
        steps[0].0 + sum_of_deltas(steps.drop_first())
    }
}

/// The times at which the additions `steps` report a total, in order,
/// starting from a last report at `last`.
pub open spec fn report_times(last: u64, interval: u64, steps: Seq<(u64, u64)>) -> Seq<u64>
    decreases steps.len(),
{
    if steps.len() == 0 {
        Seq::empty()
    } else if report_due(last, interval, steps[0].1) {
        seq![steps[0].1] + report_times(steps[0].1, interval, steps.drop_first())
    } else {
        report_times(last, interval, steps.drop_first())
    }
}

/// No byte is lost: after any additions, the count is the starting count
/// plus the sum of the deltas, whatever each addition reported.
pub proof fn lemma_count_is_the_sum(count: int, last: u64, interval: u64, steps: Seq<(u64, u64)>)
    ensures
        throttle_run(count, last, interval, steps).0 == count + sum_of_deltas(steps),
    decreases steps.len(),
{
    if steps.len() > 0 {
        let (c, l) = throttle_step(count, last, interval, steps[0].0, steps[0].1);
        lemma_count_is_the_sum(c, l, interval, steps.drop_first());
    }
}

/// Reports are spaced: with a positive interval, each report comes at
/// least the interval after the one before it (the first at least the
/// interval after `last`, which a new throttle starts at 0), even when the
/// clock goes back.
pub proof fn lemma_reports_are_spaced(last: u64, interval: u64, steps: Seq<(u64, u64)>)
    requires
        interval > 0,
    ensures
        ({
            let times = report_times(last, interval, steps);
            &&& times.len() > 0 ==> times[0] >= last + interval
            &&& forall|i: int| 0 < i < times.len() ==> #[trigger] times[i] >= times[i - 1] + interval
        }),
    decreases steps.len(),
{
    if steps.len() > 0 {
        let now = steps[0].1;
        if report_due(last, interval, now) {
            lemma_reports_are_spaced(now, interval, steps.drop_first());
            let rest = report_times(now, interval, steps.drop_first());
            let times = report_times(last, interval, steps);
            assert(times == seq![now] + rest);
            assert forall|i: int| 0 < i < times.len() implies #[trigger] times[i] >= times[i - 1]
                + interval by {
                assert(times[i] == rest[i - 1]);
                if i > 1 {
                    assert(times[i - 1] == rest[i - 2]);
                }
            }
        } else {
            lemma_reports_are_spaced(last, interval, steps.drop_first());
        }
    }
}

/// Coalesces frequent byte-count updates: each addition returns the
/// running total when at least `interval_ms` have passed since the last
/// time one did.
pub struct ProgressThrottle {
    bytes: u64,
    last_emit_ms: u64,
    interval_ms: u64,
}

impl ProgressThrottle {
    /// Bytes counted so far.
    pub closed spec fn total(&self) -> u64 {
        self.bytes
    }

    /// When a total was last returned (0 before the first).
    pub closed spec fn last_emit(&self) -> u64 {
        self.last_emit_ms
    }

    /// The spacing between returned totals.
    pub closed spec fn interval(&self) -> u64 {
        self.interval_ms
    }

    pub fn new(interval_ms: u64) -> (r: ProgressThrottle)
        ensures
            r.total() == 0,
            r.last_emit() == 0,
            r.interval() == interval_ms,
    {
        ProgressThrottle { bytes: 0, last_emit_ms: 0, interval_ms }
    }

    /// Counts `delta` more bytes at time `now` (milliseconds); returns the
    /// new total when at least an interval has passed since the last
    /// returned total, and then remembers `now`.
    pub fn add_at(&mut self, delta: u64, now: u64) -> (r: Option<u64>)
        requires
            old(self).total() + delta <= u64::MAX,
        ensures
            final(self).total() == old(self).total() + delta,
            final(self).interval() == old(self).interval(),
            report_due(old(self).last_emit(), old(self).interval(), now) ==> r == Some(
                final(self).total(),
            ) && final(self).last_emit() == now,
            !report_due(old(self).last_emit(), old(self).interval(), now) ==> r is None
                && final(self).last_emit() == old(self).last_emit(),
            (final(self).total() as int, final(self).last_emit()) == throttle_step(
                old(self).total() as int,
                old(self).last_emit(),
                old(self).interval(),
                delta,
                now,
            ),
    {
        let new_bytes = self.bytes + delta;
        self.bytes = new_bytes;
        if now.saturating_sub(self.last_emit_ms) >= self.interval_ms {
            self.last_emit_ms = now;
            return Some(new_bytes);
        }
        None
    }

    /// Counts `delta` more bytes now: exactly as [`ProgressThrottle::add_at`]
    /// at the clock's current reading (in milliseconds since the epoch),
    /// whatever that reading is.
    pub fn add(&mut self, delta: u64) -> (r: Option<u64>)
        requires
            old(self).total() + delta <= u64::MAX,
        ensures
            final(self).total() == old(self).total() + delta,
            final(self).interval() == old(self).interval(),
            r is Some ==> r == Some(final(self).total()),
            r is None ==> final(self).last_emit() == old(self).last_emit(),
            exists|now: u64|
                {
                    &&& (final(self).total() as int, final(self).last_emit()) == #[trigger] throttle_step(
                        old(self).total() as int,
                        old(self).last_emit(),
                        old(self).interval(),
                        delta,
                        now,
                    )
                    &&& (r is Some <==> report_due(old(self).last_emit(), old(self).interval(), now))
                },
    {
        let now = now_ms();
        let r = self.add_at(delta, now);
        assert((self.total() as int, self.last_emit()) == throttle_step(
            old(self).total() as int,
            old(self).last_emit(),
            old(self).interval(),
            delta,
            now,
        ));
        r
    }

    /// Bytes counted so far.
    pub fn snapshot(&self) -> (r: u64)
        ensures
            r == self.total(),
    {
        self.bytes
    }
}

} // verus!
