//! The receiving side of a transfer: the meta header's frame, where
//! received files land, and the bookkeeping around the user's decision.
use vstd::prelude::*;
use crate::paths::{picked_path, search_answers, unique_path};
use crate::state::{AppState, ApprovalDecision, Peer};
use crate::text::{decimal, decimal_string};
use crate::transfer::{
    total_size, FileMeta, Timestamp, Transfer, TransferStatus, TransferUpdate, TransferView,
    updated,
};

verus! {

/// The largest meta header accepted, in bytes.
pub const MAX_META_BYTES: u32 = 1024 * 1024;

/// Reply byte: the receiver accepts the transfer.
pub const ACCEPT: u8 = 1;

/// Reply byte: the receiver rejects the transfer.
pub const REJECT: u8 = 0;

/// Completion byte: every file arrived.
pub const OK: u8 = 0;

/// Completion byte: the receiver gave up.
pub const ERR: u8 = 1;

/// What the sender writes first: the session id and the files that follow,
/// in order.
pub struct UploadMeta {
    pub session: String,
    pub files: Vec<FileMeta>,
}

/// Why a meta header was refused.
#[derive(PartialEq, Eq, Structural, Debug)]
pub enum MetaError {
    /// The announced length is zero or above [`MAX_META_BYTES`].
    InvalidLength(u32),
    /// The header lists no files.
    NoFiles,
}

impl MetaError {
    pub fn message(&self) -> (r: String)
        ensures
            self matches MetaError::InvalidLength(n) ==> r@ == "invalid meta length: "@ + decimal(
                n as nat,
            ),
            self is NoFiles ==> r@ == "meta has no files"@,
    {
        match self {
            MetaError::InvalidLength(n) => {
                let mut r = "invalid meta length: ".to_string();
                r.append(decimal_string(*n as u64).as_str());
                r
            },
            MetaError::NoFiles => "meta has no files".to_string(),
        }
    }
}

/// The value of four bytes read least significant first.
pub open spec fn le_u32(b: Seq<u8>) -> int {
    b[0] + 256 * b[1] + 65536 * b[2] + 16777216 * b[3]
}

/// Reads the meta header's length prefix (a little-endian `u32`) and checks
/// it: it must be positive and at most [`MAX_META_BYTES`].
pub fn meta_len(prefix: &[u8; 4]) -> (r: Result<usize, MetaError>)
    ensures
        match r {
            Ok(n) => n == le_u32(prefix@) && 0 < n <= MAX_META_BYTES,
            Err(e) => e == MetaError::InvalidLength(le_u32(prefix@) as u32) && !(0 < le_u32(
                prefix@,
            ) <= MAX_META_BYTES),
        },
{
    let len: u32 = prefix[0] as u32 + 256 * (prefix[1] as u32) + 65536 * (prefix[2] as u32)
        + 16777216 * (prefix[3] as u32);
    if len == 0 || len > MAX_META_BYTES {
        return Err(MetaError::InvalidLength(len));
    }
    Ok(len as usize)
}

/// Checks a parsed meta header: it must list at least one file.
pub fn check_meta(meta: UploadMeta) -> (r: Result<UploadMeta, MetaError>)
    ensures
        meta.files@.len() > 0 ==> r == Ok::<UploadMeta, MetaError>(meta),
        meta.files@.len() == 0 ==> r == Err::<UploadMeta, MetaError>(MetaError::NoFiles),
{
    if meta.files.len() == 0 {
        return Err(MetaError::NoFiles);
    }
    Ok(meta)
}

/// The name shown for the sender of an incoming transfer: the discovered
/// peer's name, else `Device ` and the first eight characters of its id
/// (an id is hex text, so characters and bytes agree).
pub open spec fn incoming_peer_name_of(peer: Option<Peer>, remote_id: Seq<char>) -> Seq<char> {
    match peer {
        Some(p) => p.name@,
        None => "Device "@ + remote_id.take(
            if remote_id.len() < 8 {
                remote_id.len() as int
            } else {
                8
            },
        ),
    }
}

/// The name shown for the sender of an incoming transfer.
pub fn incoming_peer_name(peer: Option<Peer>, remote_id: &str) -> (r: String)
    requires
        peer is None ==> vstd::string::is_ascii(remote_id),
    ensures
        r@ == incoming_peer_name_of(peer, remote_id@),
{
    match peer {
        Some(p) => p.name,
        None => {
            let mut r = "Device ".to_string();
            let short = crate::identity::short_id(remote_id);
            r.append(short.as_str());
            r
        },
    }
}

/// A transfer that just arrived, whether the user must be asked, and the
/// session that drives its reception.
pub struct IncomingTransfer {
    pub transfer: Transfer,
    pub ask_user: bool,
    pub session: ReceiveSession,
}

/// Records an incoming transfer announced by `meta` from the peer
/// `remote_id`, waiting for approval; the user is asked unless the
/// settings accept everything.
pub fn begin_receive(state: &mut AppState, remote_id: &str, meta: UploadMeta) -> (r:
    IncomingTransfer)
    requires
        old(state).inv(),
        total_size(meta.files@) <= u64::MAX,
        !old(state).peer_map().contains_key(remote_id@) ==> vstd::string::is_ascii(remote_id),
    ensures
        final(state).inv(),
        r.transfer.id == meta.session,
        r.transfer.direction == crate::transfer::Direction::Receive,
        r.transfer.peer_id@ == remote_id@,
        r.transfer.peer_name@ == incoming_peer_name_of(
            if old(state).peer_map().contains_key(remote_id@) {
                Some(old(state).peer_map()[remote_id@])
            } else {
                None
            },
            remote_id@,
        ),
        r.transfer.files@ == meta.files@,
        r.transfer.total_bytes == total_size(meta.files@),
        r.transfer.status == TransferStatus::AwaitingApproval,
        r.ask_user == !old(state).settings_view().auto_accept,
        r.session.current_phase() == ReceivePhase::AwaitingDecision,
        r.session.transfer_id() == meta.session@,
        r.session.files() == meta.files@,
        r.session.wf(),
        r.session.received() == 0,
        r.session.left_in_file() == 0,
        final(state).transfer_map() == old(state).transfer_map().insert(
            meta.session@,
            final(state).transfer_map()[meta.session@],
        ),
        final(state).transfer_map()[meta.session@]@ == r.transfer@,
        final(state).peer_map() == old(state).peer_map(),
        final(state).pending_map() == old(state).pending_map(),
        final(state).settings_view() == old(state).settings_view(),
{
    let peer = state.get_peer(remote_id);
    let peer_name = match peer {
        Some(p) => {
            proof {
                assert(p.name == old(state).peer_map()[remote_id@].name);
            }
            p.name
        },
        None => incoming_peer_name(None, remote_id),
    };
    let session = ReceiveSession {
        transfer_id: meta.session.clone(),
        files: crate::transfer::clone_files(&meta.files),
        phase: ReceivePhase::AwaitingDecision,
        next: 0,
        remaining: 0,
        received: 0,
    };
    let transfer = Transfer::new_receive(meta.session, remote_id.to_string(), peer_name, meta.files);
    let copy = transfer.clone();
    state.upsert_transfer(transfer);
    let settings = state.settings();
    IncomingTransfer { transfer: copy, ask_user: !settings.auto_accept, session }
}

/// The update that the user's decision makes to an incoming transfer:
/// accepted transfers start, rejected ones end.
pub open spec fn decision_update(d: ApprovalDecision, at: Timestamp) -> TransferUpdate {
    match d {
        ApprovalDecision::Accept => TransferUpdate::Started,
        ApprovalDecision::Reject => TransferUpdate::Rejected { at },
    }
}

/// Where the reception of an incoming transfer stands. Files are only
/// handed out for writing in the `Receiving` phase, which only an accept
/// leads to.
#[derive(Clone, Copy, PartialEq, Eq, Structural, Debug)]
pub enum ReceivePhase {
    /// Waiting for the user's (or the settings') decision.
    AwaitingDecision,
    /// Accepted: files are being written, in order.
    Receiving,
    /// Rejected, completed or failed.
    Done,
}

/// The decision an incoming transfer goes on with: the one handed over,
/// or a rejection when the deciding side went away without answering.
pub fn decision_from_reply(reply: Option<ApprovalDecision>) -> (r: ApprovalDecision)
    ensures
        r == match reply {
            Some(d) => d,
            None => ApprovalDecision::Reject,
        },
{
    match reply {
        Some(d) => d,
        None => ApprovalDecision::Reject,
    }
}

/// The phase a decision leads to.
pub open spec fn phase_after(d: ApprovalDecision) -> ReceivePhase {
    match d {
        ApprovalDecision::Accept => ReceivePhase::Receiving,
        ApprovalDecision::Reject => ReceivePhase::Done,
    }
}

/// A file to write: its place in the transfer, its announcement, and the
/// path it is written to.
pub struct IncomingFile {
    pub index: usize,
    pub meta: FileMeta,
    /// `None` when no free name was left for the file.
    pub dest: Option<String>,
}

/// The reception of one incoming transfer.
pub struct ReceiveSession {
    transfer_id: String,
    files: Vec<FileMeta>,
    phase: ReceivePhase,
    next: usize,
    /// Bytes of the file handed out last that are still to come.
    remaining: u64,
    /// Bytes received so far, over all files.
    received: u64,
}

/// `a` is `b` with some characters taken out.
pub open spec fn is_subsequence(a: Seq<char>, b: Seq<char>) -> bool {
    exists|idx: Seq<int>|
        {
            &&& idx.len() == a.len()
            &&& forall|k: int| 0 <= k < idx.len() ==> 0 <= #[trigger] idx[k] < b.len() && b[idx[k]]
                == a[k]
            &&& forall|k: int, l: int| 0 <= k < l < idx.len() ==> idx[k] < idx[l]
        }
}

/// ASCII lower case of a character; other characters are kept.
pub open spec fn ascii_lower(c: char) -> char {
    if 'A' <= c && c <= 'Z' {
        ((c as u32) + 32) as char
    } else {
        c
    }
}

/// The name is a Windows device name (`con`, `prn`, `aux`, `nul`, `com0`
/// to `com9`, `lpt0` to `lpt9`, in any case), alone or followed by a dot
/// and anything.
pub open spec fn is_device_name(s: Seq<char>) -> bool {
    let three = |w: Seq<char>|
        s.len() >= 3 && ascii_lower(s[0]) == w[0] && ascii_lower(s[1]) == w[1] && ascii_lower(s[2])
            == w[2];
    let short = three("con"@) || three("prn"@) || three("aux"@) || three("nul"@);
    let numbered = (three("com"@) || three("lpt"@)) && s.len() >= 4 && '0' <= s[3] && s[3] <= '9';
    ||| short && (s.len() == 3 || s[3] == '.')
    ||| numbered && (s.len() == 4 || s[4] == '.')
}

/// A name that sanitizing leaves as it is on every platform: none of the
/// refused characters, not made only of dots, at most 255 bytes, no
/// trailing dot or space, and not a Windows device name.
pub open spec fn is_clean_name(s: Seq<char>) -> bool {
    &&& forall|i: int| 0 <= i < s.len() ==> !is_unsafe_name_char(#[trigger] s[i])
    &&& s.len() == 0 || exists|i: int| 0 <= i < s.len() && s[i] != '.'
    &&& vstd::utf8::encode_utf8(s).len() <= 255
    &&& s.len() > 0 ==> s.last() != '.' && s.last() != ' '
    &&& !is_device_name(s)
}

/// What sanitizing `raw` may give: `raw` with characters taken out, none
/// of the refused ones left, never `.` or `..`, and `raw` itself when it
/// is clean.
pub open spec fn sanitized_from(raw: Seq<char>, safe: Seq<char>) -> bool {
    &&& forall|i: int| 0 <= i < safe.len() ==> !is_unsafe_name_char(#[trigger] safe[i])
    &&& safe != "."@ && safe != ".."@
    &&& is_subsequence(safe, raw)
    &&& is_clean_name(raw) ==> safe == raw
}

/// A path as a value.
pub open spec fn path_view(p: Option<String>) -> Option<Seq<char>> {
    match p {
        Some(s) => Some(s@),
        None => None,
    }
}

/// Where a received file announced as `raw_name` is written, for a
/// download directory: the path that `unique_path` picks for the
/// sanitized name, whose characters are all kept from `raw_name` (a clean
/// name is kept whole), after asking about the candidates in order up to
/// the first free one; `None` only when every candidate is taken.
pub open spec fn is_destination(download_dir: Seq<char>, raw_name: Seq<char>, dest: Option<
    Seq<char>,
>) -> bool {
    exists|safe: Seq<char>, taken: Seq<bool>|
        {
            &&& sanitized_from(raw_name, safe)
            &&& search_answers(taken)
            &&& dest == #[trigger] picked_path(download_dir, safe, taken)
        }
}

impl ReceiveSession {
    pub closed spec fn current_phase(&self) -> ReceivePhase {
        self.phase
    }

    /// The byte count is consistent: what was received, plus what is still
    /// to come of the current file, is the size of the files handed out.
    pub closed spec fn wf(&self) -> bool {
        &&& self.next <= self.files@.len()
        &&& total_size(self.files@) <= u64::MAX
        &&& self.next == 0 ==> self.remaining == 0
        &&& self.next > 0 ==> self.remaining <= self.files@[self.next - 1].size
        &&& self.received + self.remaining == total_size(self.files@.take(self.next as int))
    }

    /// Bytes received so far.
    pub closed spec fn received(&self) -> u64 {
        self.received
    }

    /// Bytes of the current file still to come.
    pub closed spec fn left_in_file(&self) -> u64 {
        self.remaining
    }

    /// Bytes of the current file still to come.
    pub fn remaining(&self) -> (r: u64)
        ensures
            r == self.left_in_file(),
    {
        self.remaining
    }

    /// Where the session stands.
    pub fn phase(&self) -> (r: ReceivePhase)
        ensures
            r == self.current_phase(),
    {
        self.phase
    }

    /// How many files have been handed out.
    pub closed spec fn handed_out(&self) -> nat {
        self.next as nat
    }

    pub closed spec fn transfer_id(&self) -> Seq<char> {
        self.transfer_id@
    }

    pub closed spec fn files(&self) -> Seq<FileMeta> {
        self.files@
    }

    /// The id of the transfer being received.
    pub fn id(&self) -> (r: &str)
        ensures
            r@ == self.transfer_id(),
    {
        self.transfer_id.as_str()
    }

    /// Applies the decision: an accepted transfer starts and its files can
    /// be received; a rejected one ends. Returns the transfer as updated.
    pub fn decide(
        &mut self,
        state: &mut AppState,
        decision: ApprovalDecision,
        at: Timestamp,
    ) -> (r: Option<Transfer>)
        requires
            old(self).current_phase() == ReceivePhase::AwaitingDecision,
            old(state).inv(),
        ensures
            final(state).inv(),
            final(self).current_phase() == phase_after(decision),
            final(self).handed_out() == 0,
            old(self).wf() ==> final(self).wf(),
            final(self).received() == 0,
            final(self).left_in_file() == 0,
            final(self).transfer_id() == old(self).transfer_id(),
            final(self).files() == old(self).files(),
            old(state).transfer_map().contains_key(old(self).transfer_id()) ==> r is Some
                && final(state).transfer_map()[old(self).transfer_id()]@ == updated(
                old(state).transfer_map()[old(self).transfer_id()]@,
                decision_update(decision, at),
            ) && r->0@ == final(state).transfer_map()[old(self).transfer_id()]@,
            !old(state).transfer_map().contains_key(old(self).transfer_id()) ==> r is None
                && final(state).transfer_map() == old(state).transfer_map(),
            final(state).peer_map() == old(state).peer_map(),
            final(state).pending_map() == old(state).pending_map(),
    {
        let u = match decision {
            ApprovalDecision::Accept => {
                self.phase = ReceivePhase::Receiving;
                TransferUpdate::Started
            },
            ApprovalDecision::Reject => {
                self.phase = ReceivePhase::Done;
                TransferUpdate::Rejected { at }
            },
        };
        self.next = 0;
        self.remaining = 0;
        self.received = 0;
        state.update_transfer(self.transfer_id.as_str(), u)
    }

    /// The next file to write, in the announced order, with the path it is
    /// written to; `None` once every file has been handed out.
    pub fn next_file(&mut self, download_dir: &str) -> (r: Option<IncomingFile>)
        requires
            old(self).current_phase() == ReceivePhase::Receiving,
            old(self).wf(),
            old(self).left_in_file() == 0,
        ensures
            final(self).current_phase() == ReceivePhase::Receiving,
            final(self).wf(),
            final(self).received() == old(self).received(),
            final(self).transfer_id() == old(self).transfer_id(),
            final(self).files() == old(self).files(),
            final(self).handed_out() <= final(self).files().len(),
            old(self).handed_out() < old(self).files().len() ==> {
                &&& r matches Some(f)
                &&& f.index == old(self).handed_out()
                &&& f.meta == old(self).files()[f.index as int]
                &&& is_destination(download_dir@, f.meta.name@, path_view(f.dest))
                &&& final(self).handed_out() == old(self).handed_out() + 1
                &&& final(self).left_in_file() == f.meta.size
            },
            old(self).handed_out() == old(self).files().len() ==> r is None
                && final(self).handed_out() == old(self).handed_out()
                && final(self).left_in_file() == 0,
    {
        if self.next >= self.files.len() {
            return None;
        }
        let index = self.next;
        let meta = self.files[index].clone();
        let dest = destination_path(download_dir, meta.name.as_str());
        proof {
            assert(self.files@.take(index + 1).drop_last() =~= self.files@.take(index as int));
            crate::transfer::lemma_total_size_grows(self.files@, index + 1, self.files@.len() as int);
            assert(self.files@.take(index + 1) =~= self.files@.subrange(0, index + 1));
            assert(self.files@.subrange(0, self.files@.len() as int) =~= self.files@);
        }
        self.next = index + 1;
        self.remaining = meta.size;
        Some(IncomingFile { index, meta, dest })
    }

    /// A read of the current file's bytes came back: `None` when the
    /// stream ended, else how many bytes arrived (at most what was asked).
    /// No bytes while some are still due means the sender closed the
    /// stream early. Returns the bytes received so far.
    pub fn on_read(&mut self, got: Option<usize>) -> (r: Result<u64, String>)
        requires
            old(self).current_phase() == ReceivePhase::Receiving,
            old(self).wf(),
            old(self).left_in_file() > 0,
            got matches Some(n) ==> n <= old(self).left_in_file(),
        ensures
            final(self).wf(),
            final(self).current_phase() == old(self).current_phase(),
            final(self).handed_out() == old(self).handed_out(),
            final(self).transfer_id() == old(self).transfer_id(),
            final(self).files() == old(self).files(),
            match got {
                Some(n) if n > 0 => {
                    &&& r == Ok::<u64, String>(final(self).received())
                    &&& final(self).received() == old(self).received() + n
                    &&& final(self).left_in_file() == old(self).left_in_file() - n
                },
                _ => {
                    &&& r matches Err(m) && m@ == "peer closed stream early"@
                    &&& final(self).received() == old(self).received()
                    &&& final(self).left_in_file() == old(self).left_in_file()
                },
            },
    {
        match got {
            Some(n) => {
                if n == 0 {
                    return Err("peer closed stream early".to_string());
                }
                proof {
                    crate::transfer::lemma_total_size_grows(
                        self.files@,
                        self.next as int,
                        self.files@.len() as int,
                    );
                    assert(self.files@.take(self.next as int) =~= self.files@.subrange(
                        0,
                        self.next as int,
                    ));
                    assert(self.files@.subrange(0, self.files@.len() as int) =~= self.files@);
                }
                self.remaining = self.remaining - n as u64;
                self.received = self.received + n as u64;
                Ok(self.received)
            },
            None => Err("peer closed stream early".to_string()),
        }
    }

    /// Every file arrived: the transfer completes with the bytes received,
    /// which are the sizes of all its files.
    pub fn finish(&mut self, state: &mut AppState, at: Timestamp) -> (r: Option<Transfer>)
        requires
            old(self).current_phase() == ReceivePhase::Receiving,
            old(self).wf(),
            old(self).handed_out() == old(self).files().len(),
            old(self).left_in_file() == 0,
            old(state).inv(),
        ensures
            final(state).inv(),
            final(self).current_phase() == ReceivePhase::Done,
            old(self).received() == total_size(old(self).files()),
            old(state).transfer_map().contains_key(old(self).transfer_id()) ==> r is Some
                && final(state).transfer_map()[old(self).transfer_id()]@ == updated(
                old(state).transfer_map()[old(self).transfer_id()]@,
                TransferUpdate::Completed { bytes_done: total_size(old(self).files()) as u64, at },
            ) && r->0@ == final(state).transfer_map()[old(self).transfer_id()]@,
            !old(state).transfer_map().contains_key(old(self).transfer_id()) ==> r is None
                && final(state).transfer_map() == old(state).transfer_map(),
            final(state).peer_map() == old(state).peer_map(),
            final(state).pending_map() == old(state).pending_map(),
    {
        proof {
            assert(self.files@.take(self.files@.len() as int) =~= self.files@);
        }
        self.phase = ReceivePhase::Done;
        state.update_transfer(
            self.transfer_id.as_str(),
            TransferUpdate::Completed { bytes_done: self.received, at },
        )
    }

    /// The reception broke off with `error`: the transfer fails.
    pub fn fail(&mut self, state: &mut AppState, error: String, at: Timestamp) -> (r: Option<
        Transfer,
    >)
        requires
            old(self).current_phase() == ReceivePhase::Receiving,
            old(state).inv(),
        ensures
            final(state).inv(),
            final(self).current_phase() == ReceivePhase::Done,
            old(state).transfer_map().contains_key(old(self).transfer_id()) ==> r is Some
                && final(state).transfer_map()[old(self).transfer_id()]@ == updated(
                old(state).transfer_map()[old(self).transfer_id()]@,
                TransferUpdate::Failed { error, at },
            ) && r->0@ == final(state).transfer_map()[old(self).transfer_id()]@,
            !old(state).transfer_map().contains_key(old(self).transfer_id()) ==> r is None
                && final(state).transfer_map() == old(state).transfer_map(),
            final(state).peer_map() == old(state).peer_map(),
            final(state).pending_map() == old(state).pending_map(),
    {
        self.phase = ReceivePhase::Done;
        state.update_transfer(self.transfer_id.as_str(), TransferUpdate::Failed { error, at })
    }
}

/// Nothing is written for a rejected transfer: a rejection ends the
/// session, and only an accepted session hands out files.
pub proof fn lemma_rejected_receives_nothing()
    ensures
        phase_after(ApprovalDecision::Reject) == ReceivePhase::Done,
        phase_after(ApprovalDecision::Reject) != ReceivePhase::Receiving,
        phase_after(ApprovalDecision::Accept) == ReceivePhase::Receiving,
{
}

/// What is left of a received file's name: `sanitize_filename::sanitize`,
/// which on every platform drops the characters `/ ? < > \ : * | "` and
/// the control characters U+0000 to U+001F and U+0080 to U+009F, turns a
/// name made only of dots into the empty name, and then cuts the result
/// to at most 255 bytes at a character boundary (so it is never `.` or
/// `..`). On Windows it also turns a device name into the empty name and
/// drops trailing dots and spaces. Each step only takes characters out,
/// and none of them touches a clean name. Which rules apply depends on
/// the platform, so the result is not given as a function of the name.
#[verifier::external_body]
fn sanitize_file_name(name: &str) -> (r: String)
    ensures
        forall|i: int| 0 <= i < r@.len() ==> !is_unsafe_name_char(#[trigger] r@[i]),
        r@ != "."@ && r@ != ".."@,
        vstd::utf8::encode_utf8(r@).len() <= 255,
        is_subsequence(r@, name@),
        is_clean_name(name@) ==> r@ == name@,
{
    sanitize_filename::sanitize(name)
}

/// Characters that never survive in a received file name.
pub open spec fn is_unsafe_name_char(c: char) -> bool {
    c == '/' || c == '?' || c == '<' || c == '>' || c == '\\' || c == ':' || c == '*' || c == '|'
        || c == '"' || (c as u32) <= 0x1f || (0x80 <= (c as u32) <= 0x9f)
}

/// Where a received file is written: its sanitized name, made unique in
/// the download directory; `None` when every candidate name is taken. The
/// name has no separator and is not `.` or `..`, so the file lands
/// directly inside the directory.
pub fn destination_path(download_dir: &str, raw_name: &str) -> (r: Option<String>)
    ensures
        is_destination(download_dir@, raw_name@, path_view(r)),
{
    let safe = sanitize_file_name(raw_name);
    let r = unique_path(download_dir, safe.as_str());
    proof {
        let taken = choose|taken: Seq<bool>|
            search_answers(taken) && match r {
                Some(p) => #[trigger] picked_path(download_dir@, safe@, taken) == Some(p@),
                None => picked_path(download_dir@, safe@, taken) is None,
            };
        assert(sanitized_from(raw_name@, safe@));
        assert(path_view(r) == picked_path(download_dir@, safe@, taken));
    }
    r
}

/// The notification shown when an incoming transfer completes.
pub open spec fn received_notice_of(files: Seq<FileMeta>, peer_name: Seq<char>) -> Seq<char> {
    if files.len() == 1 {
        "Received "@ + files[0].name@ + " from "@ + peer_name
    } else {
        "Received "@ + decimal(files.len()) + " files from "@ + peer_name
    }
}

/// The notification shown when an incoming transfer completes.
pub fn received_notice(files: &Vec<FileMeta>, peer_name: &str) -> (r: String)
    ensures
        r@ == received_notice_of(files@, peer_name@),
{
    proof {
        reveal_strlit("Received ");
        reveal_strlit(" from ");
        reveal_strlit(" files from ");
    }
    let mut r = "Received ".to_string();
    if files.len() == 1 {
        r.append(files[0].name.as_str());
        r.append(" from ");
    } else {
        r.append(decimal_string(files.len() as u64).as_str());
        r.append(" files from ");
    }
    r.append(peer_name);
    r
}

/// How many bytes to read next: what is left of the file, at most a
/// buffer's worth.
pub fn next_chunk_len(remaining: u64, buf_len: usize) -> (r: usize)
    ensures
        r as int == if remaining < buf_len {
            remaining as int
        } else {
            buf_len as int
        },
{
    if remaining < buf_len as u64 {
        remaining as usize
    } else {
        buf_len
    }
}

/// `2^s`.
pub open spec fn pow2(s: nat) -> nat
    decreases s,
{
    if s == 0 {
        1
    } else {
        2 * pow2((s - 1) as nat)
    }
}

/// `1024^i`.
pub open spec fn pow1024(i: nat) -> nat
    decreases i,
{
    if i == 0 {
        1
    } else {
        1024 * pow1024((i - 1) as nat)
    }
}

/// The first shift from `s` on that leaves fewer than 53 bits of `b`.
pub open spec fn f64_shift(b: nat, s: nat) -> nat
    decreases 64 - s,
{
    if s >= 64 || b / pow2(s) < pow2(53) {
        s
    } else {
        f64_shift(b, s + 1)
    }
}

/// `n / d` rounded to the nearest integer, ties to even.
pub open spec fn round_half_even(n: nat, d: nat) -> nat {
    let q = n / d;
    let r = n % d;
    if 2 * r > d || (2 * r == d && q % 2 == 1) {
        q + 1
    } else {
        q
    }
}

/// The value of `b as f64` for a `u64`: `b` rounded to 53 significant
/// bits, ties to even.
pub open spec fn f64_of(b: nat) -> nat {
    let s = f64_shift(b, 0);
    round_half_even(b, pow2(s)) * pow2(s)
}

/// How many times a value is divided by 1024 before it is below 1024, at
/// most four times (up to terabytes).
pub open spec fn unit_index(v: nat, i: nat) -> nat
    decreases 4 - i,
{
    if i < 4 && v >= pow1024(i + 1) {
        unit_index(v, i + 1)
    } else {
        i
    }
}

/// The unit for `i` divisions by 1024.
pub open spec fn unit_name(i: nat) -> Seq<char> {
    if i == 0 {
        "B"@
    } else if i == 1 {
        "KB"@
    } else if i == 2 {
        "MB"@
    } else if i == 3 {
        "GB"@
    } else {
        "TB"@
    }
}

/// A byte count for people: plain bytes below 1024, else the value in the
/// largest unit up to TB with one decimal, as `{:.1}` prints the
/// floating-point quotient (rounded to nearest, ties to even).
pub open spec fn format_bytes_of(bytes: u64) -> Seq<char> {
    let v = f64_of(bytes as nat);
    let i = unit_index(v, 0);
    if i == 0 {
        decimal(bytes as nat) + " B"@
    } else {
        let t = round_half_even(10 * v, pow1024(i));
        decimal(t / 10) + "."@ + seq![crate::text::digit_char(t % 10)] + " "@ + unit_name(i)
    }
}

proof fn lemma_pow2_pos(s: nat)
    ensures
        pow2(s) >= 1,
    decreases s,
{
    if s > 0 {
        lemma_pow2_pos((s - 1) as nat);
    }
}

proof fn lemma_pow1024_pos(i: nat)
    ensures
        pow1024(i) >= 1,
    decreases i,
{
    if i > 0 {
        lemma_pow1024_pos((i - 1) as nat);
    }
}

proof fn lemma_pow2_grows(s: nat, k: nat)
    ensures
        s >= k ==> pow2(s) >= pow2(k),
    decreases s,
{
    if s > k {
        lemma_pow2_grows((s - 1) as nat, k);
        lemma_pow2_pos((s - 1) as nat);
    }
}

/// `b as f64`, as an exact integer.
fn f64_value(b: u64) -> (r: u128)
    ensures
        r == f64_of(b as nat),
        r <= 0x2_0000_0000_0000_0000,
{
    let bb = b as u128;
    let mut s: u32 = 0;
    let mut p: u128 = 1;
    assert(pow2(53) == 0x20_0000_0000_0000) by {
        reveal_with_fuel(pow2, 54);
    }
    assert(pow2(11) == 2048) by {
        reveal_with_fuel(pow2, 12);
    }
    while s < 64 && bb / p >= 0x20_0000_0000_0000
        invariant
            s <= 11,
            p == pow2(s as nat),
            1 <= p <= 2048,
            pow2(11) == 2048,
            bb < 0x1_0000_0000_0000_0000,
            pow2(53) == 0x20_0000_0000_0000,
            f64_shift(bb as nat, 0) == f64_shift(bb as nat, s as nat),
        decreases 64 - s,
    {
        assert(p * 0x20_0000_0000_0000 <= bb) by (nonlinear_arith)
            requires
                bb / p >= 0x20_0000_0000_0000,
                p >= 1,
        ;
        assert(pow2((s + 1) as nat) == 2 * pow2(s as nat));
        proof {
            lemma_pow2_grows(s as nat, 11);
            lemma_pow2_grows(11, (s + 1) as nat);
        }
        p = p * 2;
        s = s + 1;
    }
    assert(f64_shift(bb as nat, s as nat) == s);
    let q = bb / p;
    let rem = bb % p;
    assert(q < 0x20_0000_0000_0000);
    let up = 2 * rem > p || (2 * rem == p && q % 2 == 1);
    let m = if up {
        q + 1
    } else {
        q
    };
    assert(m * p <= 0x2_0000_0000_0000_0000) by (nonlinear_arith)
        requires
            m <= 0x20_0000_0000_0000,
            1 <= p <= 2048,
    ;
    m * p
}

/// A byte count for people (`512 B`, `1.5 KB`, `2.0 GB`).
pub fn format_bytes(bytes: u64) -> (r: String)
    ensures
        r@ == format_bytes_of(bytes),
{
    let v = f64_value(bytes);
    let mut i: usize = 0;
    let mut p: u128 = 1;
    while i < 4 && v >= p * 1024
        invariant
            i <= 4,
            p == pow1024(i as nat),
            i == 0 ==> p == 1,
            i == 1 ==> p == 1024,
            i == 2 ==> p == 1048576,
            i == 3 ==> p == 1073741824,
            i == 4 ==> p == 1099511627776,
            unit_index(v as nat, 0) == unit_index(v as nat, i as nat),
        decreases 4 - i,
    {
        assert(pow1024((i + 1) as nat) == 1024 * pow1024(i as nat));
        p = p * 1024;
        i = i + 1;
    }
    assert(unit_index(v as nat, i as nat) == i) by {
        if i < 4 {
            assert(pow1024((i + 1) as nat) == 1024 * pow1024(i as nat));
        }
    }
    proof {
        reveal_strlit(" B");
        reveal_strlit(".");
        reveal_strlit(" ");
    }
    if i == 0 {
        let mut r = decimal_string(bytes);
        r.append(" B");
        return r;
    }
    let n = 10 * v;
    let q = n / p;
    let rem = n % p;
    assert(q <= n / 1024) by (nonlinear_arith)
        requires
            q == n / p,
            p >= 1024,
    ;
    let t = if 2 * rem > p || (2 * rem == p && q % 2 == 1) {
        q + 1
    } else {
        q
    };
    let mut r = decimal_string((t / 10) as u64);
    r.append(".");
    r.append(crate::text::digit_str((t % 10) as u64));
    r.append(" ");
    r.append(unit_text(i));
    r
}

fn unit_text(i: usize) -> (r: &'static str)
    requires
        1 <= i <= 4,
    ensures
        r@ == unit_name(i as nat),
{
    proof {
        reveal_strlit("KB");
        reveal_strlit("MB");
        reveal_strlit("GB");
        reveal_strlit("TB");
    }
    if i == 1 {
        "KB"
    } else if i == 2 {
        "MB"
    } else if i == 3 {
        "GB"
    } else {
        "TB"
    }
}

/// The notification shown when a transfer waits for the user: a title
/// naming the sender, and a body with the file (or the number of files)
/// and the total size.
pub open spec fn approval_notice_of(peer_name: Seq<char>, files: Seq<FileMeta>, total_bytes: u64) -> (
    Seq<char>,
    Seq<char>,
) {
    let title = peer_name + " wants to send files"@;
    let body = if files.len() == 1 {
        files[0].name@ + " ("@ + format_bytes_of(total_bytes) + ")"@
    } else {
        decimal(files.len()) + " files ("@ + format_bytes_of(total_bytes) + ")"@
    };
    (title, body)
}

/// The notification shown when a transfer waits for the user.
pub fn approval_notice(transfer: &Transfer) -> (r: (String, String))
    ensures
        (r.0@, r.1@) == approval_notice_of(transfer.peer_name@, transfer.files@, transfer.total_bytes),
{
    proof {
        reveal_strlit(" wants to send files");
        reveal_strlit(" (");
        reveal_strlit(")");
        reveal_strlit(" files (");
    }
    let mut title = transfer.peer_name.clone();
    title.append(" wants to send files");
    let size = format_bytes(transfer.total_bytes);
    let mut body = if transfer.files.len() == 1 {
        let mut b = transfer.files[0].name.clone();
        b.append(" (");
        b
    } else {
        let mut b = decimal_string(transfer.files.len() as u64);
        b.append(" files (");
        b
    };
    body.append(size.as_str());
    body.append(")");
    (title, body)
}

} // verus!
