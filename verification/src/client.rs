//! The sending side of a transfer: the files announced, the meta header's
//! frame, and the checks on the receiver's replies.
use vstd::prelude::*;
use crate::accept::{le_u32, ACCEPT, OK};
use crate::paths::{file_name, file_name_of};
use crate::state::{AppState, Peer};
use crate::text::{decimal, decimal_string};
use crate::transfer::{
    total_size, updated, FileMeta, Timestamp, Transfer, TransferStatus, TransferUpdate,
    TransferView,
};

verus! {

/// Why a send failed, for the reasons the protocol decides.
#[derive(PartialEq, Eq, Structural, Debug)]
pub enum SendError {
    /// The receiver answered with something other than [`ACCEPT`].
    Rejected,
    /// The receiver reported that it could not take the files.
    PeerFailed,
    /// The meta header is longer than a `u32` can say.
    MetaTooLarge,
}

impl SendError {
    pub fn message(&self) -> (r: String)
        ensures
            self is Rejected ==> r@ == "peer rejected transfer"@,
            self is PeerFailed ==> r@ == "peer reported transfer error"@,
            self is MetaTooLarge ==> r@ == "meta too large"@,
    {
        match self {
            SendError::Rejected => "peer rejected transfer".to_string(),
            SendError::PeerFailed => "peer reported transfer error".to_string(),
            SendError::MetaTooLarge => "meta too large".to_string(),
        }
    }
}

/// The name announced for a file: its path's final component, else
/// `unnamed`.
pub open spec fn announced_name(path: Seq<char>) -> Seq<char> {
    match file_name_of(path) {
        Some(n) => n,
        None => "unnamed"@,
    }
}

/// The announcement for the file at `path`, of `size` bytes.
pub fn file_meta_for(path: &str, size: u64) -> (r: FileMeta)
    ensures
        r.name@ == announced_name(path@),
        r.size == size,
        r.mime is None,
{
    let name = match file_name(path) {
        Some(n) => n,
        None => "unnamed".to_string(),
    };
    FileMeta { name, size, mime: None }
}

/// Records an outgoing transfer of `files` to `peer`, waiting to start,
/// and returns it.
pub fn prepare_send(state: &mut AppState, peer: &Peer, files: Vec<FileMeta>) -> (r: Transfer)
    requires
        old(state).inv(),
        total_size(files@) <= u64::MAX,
    ensures
        final(state).inv(),
        r.direction == crate::transfer::Direction::Send,
        r.peer_id == peer.id,
        r.peer_name == peer.name,
        r.files@ == files@,
        r.total_bytes == total_size(files@),
        r.bytes_done == 0,
        r.status == TransferStatus::Pending,
        !old(state).transfer_map().contains_key(r.id@),
        final(state).transfer_map() == old(state).transfer_map().insert(
            r.id@,
            final(state).transfer_map()[r.id@],
        ),
        final(state).transfer_map()[r.id@]@ == r@,
        final(state).peer_map() == old(state).peer_map(),
        final(state).pending_map() == old(state).pending_map(),
{
    let mut t = Transfer::new_send(peer.id.clone(), peer.name.clone(), files);
    let fresh = unused_transfer_id(state, t.id);
    t.id = fresh;
    let copy = t.clone();
    state.upsert_transfer(t);
    copy
}

/// `id`, unless a recorded transfer already has it; then `id` followed by
/// as many `-` as it takes to be longer than every recorded id. A drawn
/// random id is practically never in use, but a send must not replace
/// another transfer's record.
fn unused_transfer_id(state: &AppState, id: String) -> (r: String)
    requires
        state.inv(),
    ensures
        !state.transfer_map().contains_key(r@),
        !state.transfer_map().contains_key(id@) ==> r == id,
{
    let all = state.list_transfers();
    let ghost mut longest: int = 0;
    let mut i: usize = 0;
    while i < all.len()
        invariant
            i <= all@.len(),
            forall|j: int| 0 <= j < i ==> #[trigger] all@[j].id@.len() <= longest,
        decreases all@.len() - i,
    {
        proof {
            if all@[i as int].id@.len() > longest {
                longest = all@[i as int].id@.len() as int;
            }
        }
        i = i + 1;
    }
    assert forall|k: Seq<char>| #[trigger] state.transfer_map().contains_key(k) implies k.len()
        <= longest by {
        let j = choose|j: int| 0 <= j < all@.len() && all@[j].id@ == k;
    }
    let mut r = id;
    proof {
        reveal_strlit("-");
        assert("-"@ =~= seq!['-']);
    }
    while state.get_transfer(r.as_str()).is_some()
        invariant
            "-"@ == seq!['-'],
            state.inv(),
            forall|k: Seq<char>| #[trigger] state.transfer_map().contains_key(k) ==> k.len()
                <= longest,
            r@.len() >= id@.len(),
            !state.transfer_map().contains_key(id@) ==> r == id,
        decreases longest + 1 - r@.len(),
    {
        r.append("-");
    }
    r
}

/// Two sends in a row get different ids, and both stay recorded: the
/// second one's id was not in use after the first one was recorded.
pub proof fn lemma_two_sends_get_distinct_ids(
    before: Map<Seq<char>, Transfer>,
    first: Transfer,
    second: Transfer,
)
    requires
        !before.contains_key(first.id@),
        !before.insert(first.id@, first).contains_key(second.id@),
    ensures
        first.id@ != second.id@,
        before.insert(first.id@, first).insert(second.id@, second).contains_key(first.id@),
        before.insert(first.id@, first).insert(second.id@, second)[first.id@] == first,
        before.insert(first.id@, first).insert(second.id@, second)[second.id@] == second,
{
}

/// The four bytes of `n`, least significant first.
pub open spec fn le_bytes(n: u32) -> Seq<u8> {
    seq![
        (n % 256) as u8,
        ((n / 256) % 256) as u8,
        ((n / 65536) % 256) as u8,
        (n / 16777216) as u8,
    ]
}

/// The meta header as sent: the length of `body` as a little-endian `u32`,
/// then `body`.
pub fn frame_meta(body: &[u8]) -> (r: Result<Vec<u8>, SendError>)
    ensures
        match r {
            Ok(frame) => body@.len() <= u32::MAX && frame@ == le_bytes(body@.len() as u32)
                + body@,
            Err(e) => body@.len() > u32::MAX && e == SendError::MetaTooLarge,
        },
{
    if body.len() > u32::MAX as usize {
        return Err(SendError::MetaTooLarge);
    }
    let n = body.len() as u32;
    let mut frame: Vec<u8> = Vec::new();
    frame.push((n % 256) as u8);
    frame.push(((n / 256) % 256) as u8);
    frame.push(((n / 65536) % 256) as u8);
    frame.push((n / 16777216) as u8);
    let mut i: usize = 0;
    while i < body.len()
        invariant
            i <= body@.len(),
            frame@ == le_bytes(n) + body@.subrange(0, i as int),
        decreases body@.len() - i,
    {
        frame.push(body[i]);
        i = i + 1;
        assert(frame@ =~= le_bytes(n) + body@.subrange(0, i as int));
    }
    assert(body@.subrange(0, i as int) =~= body@);
    Ok(frame)
}

/// A framed meta header reads back: its first four bytes give the body's
/// length, and the body follows them unchanged.
pub proof fn lemma_meta_frame_reads_back(body: Seq<u8>)
    requires
        body.len() <= u32::MAX,
    ensures
        ({
            let frame = le_bytes(body.len() as u32) + body;
            &&& le_u32(frame.subrange(0, 4)) == body.len()
            &&& frame.subrange(4, frame.len() as int) == body
        }),
{
    let n = body.len() as u32;
    let frame = le_bytes(n) + body;
    let b = frame.subrange(0, 4);
    assert(b[0] == n % 256);
    assert(b[1] == (n / 256) % 256);
    assert(b[2] == (n / 65536) % 256);
    assert(b[3] == n / 16777216);
    assert(n == n % 256 + 256 * ((n / 256) % 256) + 65536 * ((n / 65536) % 256) + 16777216 * (n
        / 16777216)) by (nonlinear_arith);
    assert(frame.subrange(4, frame.len() as int) =~= body);
}

/// The receiver's first reply must be [`ACCEPT`].
pub fn check_decision(reply: u8) -> (r: Result<(), SendError>)
    ensures
        reply == ACCEPT <==> r is Ok,
        r is Err ==> r == Err::<(), SendError>(SendError::Rejected),
{
    if reply != ACCEPT {
        return Err(SendError::Rejected);
    }
    Ok(())
}

/// The receiver's last reply must be [`OK`].
pub fn check_completion(reply: u8) -> (r: Result<(), SendError>)
    ensures
        reply == OK <==> r is Ok,
        r is Err ==> r == Err::<(), SendError>(SendError::PeerFailed),
{
    if reply != OK {
        return Err(SendError::PeerFailed);
    }
    Ok(())
}

/// The byte count recorded for a completed send: what the throttle
/// counted, or the announced total if it counted nothing (all files empty).
pub open spec fn sent_bytes_of(counted: u64, total_bytes: u64) -> u64 {
    if counted > 0 {
        counted
    } else {
        total_bytes
    }
}

/// The byte count recorded for a completed send.
pub fn sent_bytes(counted: u64, total_bytes: u64) -> (r: u64)
    ensures
        r == sent_bytes_of(counted, total_bytes),
{
    if counted > 0 {
        counted
    } else {
        total_bytes
    }
}

/// A completed send records every byte announced: when the recorded
/// total is the sum of the file sizes, the count stored on completion is
/// that total.
pub proof fn lemma_send_counts_every_byte(files: Seq<FileMeta>, total_bytes: u64)
    requires
        total_bytes == total_size(files),
    ensures
        sent_bytes_of(total_size(files) as u64, total_bytes) == total_bytes,
{
}

/// The message when a file ends before its announced size.
pub fn shrank_message(path: &str, remaining: u64) -> (r: String)
    ensures
        r@ == path@ + " shrank during transfer (expected "@ + decimal(remaining as nat)
            + " more bytes)"@,
{
    let mut r = path.to_string();
    r.append(" shrank during transfer (expected ");
    r.append(decimal_string(remaining).as_str());
    r.append(" more bytes)");
    r
}

/// Where an outgoing transfer stands. File contents are only handed out
/// in the `Streaming` phase, which only the receiver's [`ACCEPT`] leads to.
#[derive(Clone, Copy, PartialEq, Eq, Structural, Debug)]
pub enum SendPhase {
    /// Dialing the peer.
    Connecting,
    /// The meta header is out; waiting for the receiver's answer.
    AwaitingDecision,
    /// Accepted: files are being sent, in order.
    Streaming,
    /// Every file is out; waiting for the receiver's completion byte.
    AwaitingCompletion,
    /// Completed, rejected or failed.
    Done,
}

/// A file to send: its place in the transfer and its announcement.
pub struct OutgoingFile {
    pub index: usize,
    pub meta: FileMeta,
}

/// The sending of one outgoing transfer.
pub struct SendSession {
    transfer_id: String,
    files: Vec<FileMeta>,
    total_bytes: u64,
    phase: SendPhase,
    next: usize,
    /// Bytes of the file handed out last that are still to go.
    remaining: u64,
    /// Bytes sent so far, over all files.
    sent: u64,
}

impl SendSession {
    pub closed spec fn current_phase(&self) -> SendPhase {
        self.phase
    }

    /// How many files have been handed out.
    pub closed spec fn handed_out(&self) -> nat {
        self.next as nat
    }

    pub closed spec fn transfer_id(&self) -> Seq<char> {
        self.transfer_id@
    }

    pub closed spec fn files(&self) -> Seq<FileMeta> {
        self.files@
    }

    pub closed spec fn total_bytes(&self) -> u64 {
        self.total_bytes
    }

    /// The byte count is consistent: what was sent, plus what is still to
    /// go of the current file, is the size of the files handed out.
    pub closed spec fn wf(&self) -> bool {
        &&& self.next <= self.files@.len()
        &&& total_size(self.files@) <= u64::MAX
        &&& self.next == 0 ==> self.remaining == 0
        &&& self.next > 0 ==> self.remaining <= self.files@[self.next - 1].size
        &&& self.sent + self.remaining == total_size(self.files@.take(self.next as int))
    }

    /// Bytes sent so far.
    pub closed spec fn sent(&self) -> u64 {
        self.sent
    }

    /// Bytes of the current file still to go.
    pub closed spec fn left_in_file(&self) -> u64 {
        self.remaining
    }

    /// Bytes of the current file still to go.
    pub fn remaining(&self) -> (r: u64)
        ensures
            r == self.left_in_file(),
    {
        self.remaining
    }

    /// A session for a transfer recorded by [`prepare_send`].
    pub fn new(transfer: &Transfer) -> (r: SendSession)
        requires
            total_size(transfer.files@) <= u64::MAX,
        ensures
            r.wf(),
            r.sent() == 0,
            r.left_in_file() == 0,
            r.current_phase() == SendPhase::Connecting,
            r.handed_out() == 0,
            r.transfer_id() == transfer.id@,
            r.files() == transfer.files@,
            r.total_bytes() == transfer.total_bytes,
    {
        SendSession {
            transfer_id: transfer.id.clone(),
            files: crate::transfer::clone_files(&transfer.files),
            total_bytes: transfer.total_bytes,
            phase: SendPhase::Connecting,
            next: 0,
            remaining: 0,
            sent: 0,
        }
    }

    /// Where the session stands.
    pub fn phase(&self) -> (r: SendPhase)
        ensures
            r == self.current_phase(),
    {
        self.phase
    }

    /// The id of the transfer being sent.
    pub fn id(&self) -> (r: &str)
        ensures
            r@ == self.transfer_id(),
    {
        self.transfer_id.as_str()
    }

    /// The connection is open: the transfer starts, and the meta header
    /// goes out next.
    pub fn connected(&mut self, state: &mut AppState) -> (r: Option<Transfer>)
        requires
            old(self).current_phase() == SendPhase::Connecting,
            old(state).inv(),
        ensures
            final(state).inv(),
            final(self).current_phase() == SendPhase::AwaitingDecision,
            final(self).handed_out() == old(self).handed_out(),
            old(self).wf() ==> final(self).wf(),
            final(self).sent() == old(self).sent(),
            final(self).left_in_file() == old(self).left_in_file(),
            final(self).transfer_id() == old(self).transfer_id(),
            final(self).files() == old(self).files(),
            final(self).total_bytes() == old(self).total_bytes(),
            old(state).transfer_map().contains_key(old(self).transfer_id()) ==> r is Some
                && final(state).transfer_map()[old(self).transfer_id()]@ == updated(
                old(state).transfer_map()[old(self).transfer_id()]@,
                TransferUpdate::Started,
            ) && r->0@ == final(state).transfer_map()[old(self).transfer_id()]@,
            !old(state).transfer_map().contains_key(old(self).transfer_id()) ==> r is None
                && final(state).transfer_map() == old(state).transfer_map(),
            final(state).peer_map() == old(state).peer_map(),
            final(state).pending_map() == old(state).pending_map(),
    {
        self.phase = SendPhase::AwaitingDecision;
        state.update_transfer(self.transfer_id.as_str(), TransferUpdate::Started)
    }

    /// The receiver answered: [`ACCEPT`] lets the files go out; anything
    /// else ends the session with [`SendError::Rejected`].
    pub fn on_decision(&mut self, reply: u8) -> (r: Result<(), SendError>)
        requires
            old(self).current_phase() == SendPhase::AwaitingDecision,
        ensures
            reply == ACCEPT <==> r is Ok,
            r is Ok ==> final(self).current_phase() == SendPhase::Streaming,
            r is Err ==> r == Err::<(), SendError>(SendError::Rejected) && final(self).current_phase() == SendPhase::Done,
            final(self).handed_out() == 0,
            old(self).wf() ==> final(self).wf(),
            final(self).sent() == 0,
            final(self).left_in_file() == 0,
            final(self).transfer_id() == old(self).transfer_id(),
            final(self).files() == old(self).files(),
            final(self).total_bytes() == old(self).total_bytes(),
    {
        self.next = 0;
        self.remaining = 0;
        self.sent = 0;
        match check_decision(reply) {
            Ok(()) => {
                self.phase = SendPhase::Streaming;
                Ok(())
            },
            Err(e) => {
                self.phase = SendPhase::Done;
                Err(e)
            },
        }
    }

    /// The next file to send, in the announced order; once every file is
    /// out, `None`, and the session waits for the completion byte.
    pub fn next_file(&mut self) -> (r: Option<OutgoingFile>)
        requires
            old(self).current_phase() == SendPhase::Streaming,
            old(self).wf(),
            old(self).left_in_file() == 0,
        ensures
            final(self).wf(),
            final(self).sent() == old(self).sent(),
            final(self).transfer_id() == old(self).transfer_id(),
            final(self).files() == old(self).files(),
            final(self).total_bytes() == old(self).total_bytes(),
            final(self).handed_out() <= final(self).files().len(),
            old(self).handed_out() < old(self).files().len() ==> {
                &&& r matches Some(f)
                &&& f.index == old(self).handed_out()
                &&& f.meta == old(self).files()[f.index as int]
                &&& final(self).handed_out() == old(self).handed_out() + 1
                &&& final(self).current_phase() == SendPhase::Streaming
                &&& final(self).left_in_file() == f.meta.size
            },
            old(self).handed_out() == old(self).files().len() ==> r is None && final(self).handed_out() == old(self).handed_out() && final(self).current_phase()
                == SendPhase::AwaitingCompletion && final(self).left_in_file() == 0,
    {
        if self.next >= self.files.len() {
            self.phase = SendPhase::AwaitingCompletion;
            return None;
        }
        let index = self.next;
        let meta = self.files[index].clone();
        proof {
            assert(self.files@.take(index + 1).drop_last() =~= self.files@.take(index as int));
        }
        self.next = index + 1;
        self.remaining = meta.size;
        Some(OutgoingFile { index, meta })
    }

    /// `n` more bytes of the current file were read and sent (at most what
    /// is still to go). No bytes while some are still due means the file
    /// shrank: `None`, and the caller fails the send with
    /// [`shrank_message`]. Returns the bytes sent so far.
    pub fn on_read(&mut self, n: usize) -> (r: Option<u64>)
        requires
            old(self).current_phase() == SendPhase::Streaming,
            old(self).wf(),
            old(self).left_in_file() > 0,
            n <= old(self).left_in_file(),
        ensures
            final(self).wf(),
            final(self).current_phase() == old(self).current_phase(),
            final(self).handed_out() == old(self).handed_out(),
            final(self).transfer_id() == old(self).transfer_id(),
            final(self).files() == old(self).files(),
            final(self).total_bytes() == old(self).total_bytes(),
            n == 0 ==> r is None && final(self).sent() == old(self).sent()
                && final(self).left_in_file() == old(self).left_in_file(),
            n > 0 ==> r == Some(final(self).sent()) && final(self).sent() == old(self).sent() + n
                && final(self).left_in_file() == old(self).left_in_file() - n,
    {
        if n == 0 {
            return None;
        }
        proof {
            crate::transfer::lemma_total_size_grows(
                self.files@,
                self.next as int,
                self.files@.len() as int,
            );
            assert(self.files@.take(self.next as int) =~= self.files@.subrange(0, self.next as int));
            assert(self.files@.subrange(0, self.files@.len() as int) =~= self.files@);
        }
        self.remaining = self.remaining - n as u64;
        self.sent = self.sent + n as u64;
        Some(self.sent)
    }

    /// The receiver's completion byte: [`OK`] completes the transfer with
    /// the bytes sent, which are the sizes of all its files (the announced
    /// total when that is nothing); anything else is
    /// [`SendError::PeerFailed`] and leaves the transfer for the caller to
    /// fail.
    pub fn on_completion(&mut self, state: &mut AppState, reply: u8, at: Timestamp) -> (r:
        Result<Option<Transfer>, SendError>)
        requires
            old(self).current_phase() == SendPhase::AwaitingCompletion,
            old(self).wf(),
            old(self).handed_out() == old(self).files().len(),
            old(self).left_in_file() == 0,
            old(state).inv(),
        ensures
            final(state).inv(),
            final(self).current_phase() == SendPhase::Done,
            final(self).transfer_id() == old(self).transfer_id(),
            reply == OK <==> r is Ok,
            reply != OK ==> r == Err::<Option<Transfer>, SendError>(SendError::PeerFailed)
                && final(state).transfer_map() == old(state).transfer_map(),
            reply == OK && old(state).transfer_map().contains_key(old(self).transfer_id()) ==> (r
                matches Ok(Some(t)) && final(state).transfer_map()[old(self).transfer_id()]@
                == updated(
                old(state).transfer_map()[old(self).transfer_id()]@,
                (TransferUpdate::Completed {
                    bytes_done: sent_bytes_of(
                        total_size(old(self).files()) as u64,
                        old(self).total_bytes(),
                    ),
                    at,
                }),
            ) && t@ == final(state).transfer_map()[old(self).transfer_id()]@),
            reply == OK && !old(state).transfer_map().contains_key(old(self).transfer_id()) ==> r
                == Ok::<Option<Transfer>, SendError>(None) && final(state).transfer_map() == old(state).transfer_map(),
            final(state).peer_map() == old(state).peer_map(),
            final(state).pending_map() == old(state).pending_map(),
    {
        proof {
            assert(self.files@.take(self.files@.len() as int) =~= self.files@);
        }
        self.phase = SendPhase::Done;
        match check_completion(reply) {
            Ok(()) => {
                let bytes_done = sent_bytes(self.sent, self.total_bytes);
                Ok(state.update_transfer(self.transfer_id.as_str(), TransferUpdate::Completed { bytes_done, at }))
            },
            Err(e) => Err(e),
        }
    }

    /// The send broke off with `error`, at any point: the transfer fails.
    pub fn fail(&mut self, state: &mut AppState, error: String, at: Timestamp) -> (r: Option<
        Transfer,
    >)
        requires
            old(state).inv(),
        ensures
            final(state).inv(),
            final(self).current_phase() == SendPhase::Done,
            old(state).transfer_map().contains_key(old(self).transfer_id()) ==> r is Some
                && final(state).transfer_map()[old(self).transfer_id()]@ == updated(
                old(state).transfer_map()[old(self).transfer_id()]@,
                TransferUpdate::Failed { error, at },
            ) && r->0@ == final(state).transfer_map()[old(self).transfer_id()]@,
            !old(state).transfer_map().contains_key(old(self).transfer_id()) ==> r is None
                && final(state).transfer_map() == old(state).transfer_map(),
            final(state).peer_map() == old(state).peer_map(),
            final(state).pending_map() == old(state).pending_map(),
    {
        self.phase = SendPhase::Done;
        state.update_transfer(self.transfer_id.as_str(), TransferUpdate::Failed { error, at })
    }
}

} // verus!
