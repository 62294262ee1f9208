use vstd::prelude::*;
use crate::message::{FileChunk, FileOffer, FileTransferComplete, fresh_id};
use crate::text::{sanitize_filename, sanitized, join_str};

verus! {

/// Size of the pieces a file is sent in (64 KiB).
pub const CHUNK_SIZE: usize = 64 * 1024;

/// `a + b`, held at `u64::MAX`.
pub open spec fn sat_add(a: u64, b: int) -> u64 {
    if a + b > u64::MAX {
        u64::MAX
    } else {
        (a + b) as u64
    }
}

fn saturating_add(a: u64, b: u64) -> (r: u64)
    ensures
        r == sat_add(a, b as int),
{
    if a > u64::MAX - b {
        u64::MAX
    } else {
        a + b
    }
}

/// Book-keeping for one file being received.
pub struct TransferSession {
    pub transfer_id: u128,
    /// The offered name, made safe to create.
    pub file_name: String,
    pub expected: u64,
    pub received: u64,
    pub auto_open: bool,
    /// The bytes handed out to be written, in order.
    pub written: Ghost<Seq<u8>>,
}

impl TransferSession {
    /// The session once `bytes` more have arrived.
    pub open spec fn after_chunk(self, bytes: Seq<u8>) -> TransferSession {
        TransferSession {
            received: sat_add(self.received, bytes.len() as int),
            written: Ghost(self.written@ + bytes),
            ..self
        }
    }
}

/// What finishing a transfer came to.
#[derive(Debug, Clone, PartialEq, Eq)]
pub enum CompleteOutcome {
    /// No transfer under that id is open.
    Unknown,
    /// The sender reported failure; the session is discarded.
    Failed { transfer_id: u128 },
    /// The transfer is over. A size mismatch is advisory only.
    Finished {
        transfer_id: u128,
        file_name: String,
        expected: u64,
        received: u64,
        size_mismatch: bool,
        auto_open: bool,
    },
}

/// The session that `offer` opens, the file to be created as `name`.
pub open spec fn opened(offer: FileOffer, name: String, default_auto_open: bool) -> TransferSession {
    TransferSession {
        transfer_id: offer.transfer_id,
        file_name: name,
        expected: offer.total_size,
        received: 0,
        auto_open: offer.auto_open || default_auto_open,
        written: Ghost(Seq::<u8>::empty()),
    }
}

/// Whether `after` is `before` once `offer` opened a session for a file named
/// `name`: added, or put in place of the one under the same id.
pub open spec fn offer_applied(
    before: Seq<TransferSession>,
    after: Seq<TransferSession>,
    offer: FileOffer,
    name: String,
    default_auto_open: bool,
) -> bool {
    &&& !has_transfer(before, offer.transfer_id) ==> after == before.push(
        opened(offer, name, default_auto_open),
    )
    &&& has_transfer(before, offer.transfer_id) ==> exists|k: int|
        0 <= k < before.len() && before[k].transfer_id == offer.transfer_id && after
            == before.update(k, opened(offer, name, default_auto_open))
}

/// Whether `after` is `before` with `bytes` more arrived for transfer `id`.
pub open spec fn chunk_applied(
    before: Seq<TransferSession>,
    after: Seq<TransferSession>,
    id: u128,
    bytes: Seq<u8>,
) -> bool {
    exists|k: int|
        0 <= k < before.len() && before[k].transfer_id == id && after == before.update(
            k,
            before[k].after_chunk(bytes),
        )
}

/// Whether finishing transfer `complete.transfer_id` took `before` to `after`
/// with outcome `r`.
pub open spec fn completed(
    before: Seq<TransferSession>,
    after: Seq<TransferSession>,
    complete: FileTransferComplete,
    r: CompleteOutcome,
) -> bool {
    &&& !has_transfer(before, complete.transfer_id) ==> r == CompleteOutcome::Unknown && after
        == before
    &&& has_transfer(before, complete.transfer_id) ==> exists|k: int|
        0 <= k < before.len() && before[k].transfer_id == complete.transfer_id && after
            == before.remove(k) && r == if complete.success {
            CompleteOutcome::Finished {
                transfer_id: complete.transfer_id,
                file_name: before[k].file_name,
                expected: before[k].expected,
                received: before[k].received,
                size_mismatch: before[k].received != before[k].expected,
                auto_open: before[k].auto_open,
            }
        } else {
            CompleteOutcome::Failed { transfer_id: complete.transfer_id }
        }
}

/// Whether a session with id `id` is in `s`.
pub open spec fn has_transfer(s: Seq<TransferSession>, id: u128) -> bool {
    exists|k: int| 0 <= k < s.len() && s[k].transfer_id == id
}

/// The files being received on one side, at most one session per transfer id.
pub struct TransferTable {
    sessions: Vec<TransferSession>,
    default_auto_open: bool,
}

impl View for TransferTable {
    type V = Seq<TransferSession>;

    closed spec fn view(&self) -> Seq<TransferSession> {
        self.sessions@
    }
}

impl TransferTable {
    pub open spec fn wf(&self) -> bool {
        forall|i: int, j: int|
            0 <= i < j < self@.len() ==> #[trigger] self@[i].transfer_id
                != #[trigger] self@[j].transfer_id
    }

    pub closed spec fn default_auto_open(&self) -> bool {
        self.default_auto_open
    }

    /// An empty table; `default_auto_open` asks to open every finished file.
    pub fn new(default_auto_open: bool) -> (r: Self)
        ensures
            r@ == Seq::<TransferSession>::empty(),
            r.wf(),
            r.default_auto_open() == default_auto_open,
    {
        TransferTable { sessions: Vec::new(), default_auto_open }
    }

    pub fn len(&self) -> (r: usize)
        ensures
            r == self@.len(),
    {
        self.sessions.len()
    }

    fn position(&self, id: u128) -> (r: Option<usize>)
        ensures
            match r {
                Some(k) => k < self@.len() && self@[k as int].transfer_id == id,
                None => !has_transfer(self@, id),
            },
    {
        let mut k: usize = 0;
        while k < self.sessions.len()
            invariant
                k <= self@.len(),
                forall|j: int| 0 <= j < k ==> self@[j].transfer_id != id,
            decreases self@.len() - k,
        {
            if self.sessions[k].transfer_id == id {
                return Some(k);
            }
            k = k + 1;
        }
        None
    }

    /// The session of transfer `id`, if one is open.
    pub fn get(&self, id: u128) -> (r: Option<&TransferSession>)
        ensures
            match r {
                Some(s) => exists|k: int|
                    0 <= k < self@.len() && self@[k] == *s && s.transfer_id == id,
                None => !has_transfer(self@, id),
            },
    {
        match self.position(id) {
            Some(k) => Some(&self.sessions[k]),
            None => None,
        }
    }

    /// Opens a session for `offer` and returns the safe name to create the file
    /// under. A session already under the same id is replaced.
    pub fn offer(&mut self, offer: &FileOffer) -> (name: String)
        requires
            old(self).wf(),
        ensures
            final(self).wf(),
            final(self).default_auto_open() == old(self).default_auto_open(),
            name@ == sanitized(offer.file_name@),
            offer_applied(old(self)@, final(self)@, *offer, name, old(self).default_auto_open()),
    {
        let name = sanitize_filename(offer.file_name.as_str());
        let s = TransferSession {
            transfer_id: offer.transfer_id,
            file_name: name.clone(),
            expected: offer.total_size,
            received: 0,
            auto_open: offer.auto_open || self.default_auto_open,
            written: Ghost(Seq::empty()),
        };
        let ghost opened_now = opened(*offer, name, old(self).default_auto_open());
        assert(s == opened_now);
        match self.position(offer.transfer_id) {
            Some(k) => {
                self.sessions.set(k, s);
                assert(self@ == old(self)@.update(k as int, opened_now));
            },
            None => {
                self.sessions.push(s);
            },
        }
        name
    }

    /// Takes in a chunk: for an open transfer, returns the bytes to append to
    /// its file and counts them; a chunk of no open transfer is dropped.
    pub fn chunk(&mut self, chunk: FileChunk) -> (r: Option<Vec<u8>>)
        requires
            old(self).wf(),
        ensures
            final(self).wf(),
            final(self).default_auto_open() == old(self).default_auto_open(),
            !has_transfer(old(self)@, chunk.transfer_id) ==> r is None && final(self)@ == old(self)@,
            has_transfer(old(self)@, chunk.transfer_id) ==> (r matches Some(b) && b@
                == chunk.bytes@ && chunk_applied(old(self)@, final(self)@, chunk.transfer_id, chunk.bytes@)),
    {
        match self.position(chunk.transfer_id) {
            Some(k) => {
                let mut s = self.sessions.remove(k);
                let n = chunk.bytes.len();
                s.received = saturating_add(s.received, n as u64);
                s.written = Ghost(s.written@ + chunk.bytes@);
                self.sessions.insert(k, s);
                assert(self@ =~= old(self)@.update(k as int, old(self)@[k as int].after_chunk(
                    chunk.bytes@,
                )));
                Some(chunk.bytes)
            },
            None => None,
        }
    }

    /// Closes the session of `complete.transfer_id` and says how it ended.
    pub fn complete(&mut self, complete: &FileTransferComplete) -> (r: CompleteOutcome)
        requires
            old(self).wf(),
        ensures
            final(self).wf(),
            final(self).default_auto_open() == old(self).default_auto_open(),
            completed(old(self)@, final(self)@, *complete, r),
    {
        match self.position(complete.transfer_id) {
            Some(k) => {
                let s = self.sessions.remove(k);
                proof {
                    assert forall|i: int, j: int|
                        0 <= i < j < self@.len() implies #[trigger] self@[i].transfer_id
                            != #[trigger] self@[j].transfer_id by {
                        let oi = if i < k { i } else { i + 1 };
                        let oj = if j < k { j } else { j + 1 };
                        assert(self@[i] == old(self)@[oi]);
                        assert(self@[j] == old(self)@[oj]);
                    }
                }
                if complete.success {
                    CompleteOutcome::Finished {
                        transfer_id: complete.transfer_id,
                        file_name: s.file_name,
                        expected: s.expected,
                        received: s.received,
                        size_mismatch: s.received != s.expected,
                        auto_open: s.auto_open,
                    }
                } else {
                    CompleteOutcome::Failed { transfer_id: complete.transfer_id }
                }
            },
            None => CompleteOutcome::Unknown,
        }
    }
}

/// A file being sent: hands out the offer, the chunks in order, and the completion.
pub struct OutgoingTransfer {
    pub transfer_id: u128,
    pub file_name: String,
    pub total_size: u64,
    pub offset: u64,
    pub auto_open: bool,
    /// The pieces handed out so far, in order.
    pub sent: Ghost<Seq<Seq<u8>>>,
}

impl OutgoingTransfer {
    /// The offset is where the pieces sent so far end.
    pub open spec fn wf(&self) -> bool {
        self.offset == sat_add(0, total_len(self.sent@))
    }

    /// Starts sending `file_name` of `total_size` bytes under a fresh transfer id.
    pub fn new(file_name: String, total_size: u64, auto_open: bool) -> (r: Self)
        ensures
            r.file_name == file_name,
            r.total_size == total_size,
            r.offset == 0,
            r.auto_open == auto_open,
            r.sent@ == Seq::<Seq<u8>>::empty(),
            r.wf(),
    {
        OutgoingTransfer {
            transfer_id: fresh_id(),
            file_name,
            total_size,
            offset: 0,
            auto_open,
            sent: Ghost(Seq::empty()),
        }
    }

    pub fn offer(&self) -> (r: FileOffer)
        ensures
            r == (FileOffer {
                transfer_id: self.transfer_id,
                file_name: self.file_name,
                total_size: self.total_size,
                auto_open: self.auto_open,
            }),
    {
        FileOffer {
            transfer_id: self.transfer_id,
            file_name: self.file_name.clone(),
            total_size: self.total_size,
            auto_open: self.auto_open,
        }
    }

    /// Wraps the next bytes read from the file in a chunk at the current offset.
    /// With `mark_final`, the chunk that reaches the announced size says so.
    pub fn next_chunk(&mut self, bytes: Vec<u8>, mark_final: bool) -> (r: FileChunk)
        requires
            old(self).wf(),
        ensures
            final(self).wf(),
            final(self).sent@ == old(self).sent@.push(bytes@),
            r.transfer_id == old(self).transfer_id,
            r.offset == old(self).offset,
            r.bytes@ == bytes@,
            r.final_chunk == (mark_final && old(self).offset + bytes@.len() >= old(self).total_size),
            final(self).offset == sat_add(old(self).offset, bytes@.len() as int),
            final(self).transfer_id == old(self).transfer_id,
            final(self).file_name == old(self).file_name,
            final(self).total_size == old(self).total_size,
            final(self).auto_open == old(self).auto_open,
    {
        let n = bytes.len() as u64;
        let offset = self.offset;
        let reached = offset > u64::MAX - n || offset + n >= self.total_size;
        self.offset = saturating_add(offset, n);
        proof {
            lemma_total_len_nonneg(self.sent@);
            lemma_total_len_push(self.sent@, bytes@);
            self.sent = Ghost(self.sent@.push(bytes@));
        }
        FileChunk {
            transfer_id: self.transfer_id,
            offset,
            bytes,
            final_chunk: mark_final && reached,
        }
    }

    /// The completion message, carrying `text` for the receiver.
    pub fn complete(&self, text: String) -> (r: FileTransferComplete)
        ensures
            r == (FileTransferComplete {
                transfer_id: self.transfer_id,
                success: true,
                message: Some(text),
            }),
    {
        FileTransferComplete { transfer_id: self.transfer_id, success: true, message: Some(text) }
    }
}

/// `data` cut into pieces of `CHUNK_SIZE` bytes, the last one shorter.
pub open spec fn split_chunks(data: Seq<u8>) -> Seq<Seq<u8>>
    decreases data.len(),
{
    if data.len() == 0 {
        Seq::empty()
    } else if data.len() <= CHUNK_SIZE {
        seq![data]
    } else {
        seq![data.take(CHUNK_SIZE as int)] + split_chunks(data.skip(CHUNK_SIZE as int))
    }
}

/// The session after each of `chunks` has arrived, in order.
pub open spec fn after_chunks(s: TransferSession, chunks: Seq<Seq<u8>>) -> TransferSession
    decreases chunks.len(),
{
    if chunks.len() == 0 {
        s
    } else {
        after_chunks(s.after_chunk(chunks[0]), chunks.drop_first())
    }
}

/// The total of the chunks' lengths.
pub open spec fn total_len(chunks: Seq<Seq<u8>>) -> int
    decreases chunks.len(),
{
    if chunks.len() == 0 {
        0
    } else {
        chunks[0].len() + total_len(chunks.drop_first())
    }
}

/// The chunks' bytes one after another.
pub open spec fn concat_all(chunks: Seq<Seq<u8>>) -> Seq<u8>
    decreases chunks.len(),
{
    if chunks.len() == 0 {
        Seq::empty()
    } else {
        chunks[0] + concat_all(chunks.drop_first())
    }
}

proof fn lemma_total_len_nonneg(chunks: Seq<Seq<u8>>)
    ensures
        total_len(chunks) >= 0,
    decreases chunks.len(),
{
    if chunks.len() > 0 {
        lemma_total_len_nonneg(chunks.drop_first());
    }
}

proof fn lemma_total_len_push(chunks: Seq<Seq<u8>>, c: Seq<u8>)
    ensures
        total_len(chunks.push(c)) == total_len(chunks) + c.len(),
        concat_all(chunks.push(c)) == concat_all(chunks) + c,
    decreases chunks.len(),
{
    assert(chunks.push(c).len() > 0);
    if chunks.len() == 0 {
        assert(chunks.push(c)[0] == c);
        assert(chunks.push(c).drop_first() =~= Seq::<Seq<u8>>::empty());
        assert(total_len(Seq::<Seq<u8>>::empty()) == 0);
        assert(concat_all(Seq::<Seq<u8>>::empty()) == Seq::<u8>::empty());
        assert(c + Seq::<u8>::empty() =~= c);
        assert(Seq::<u8>::empty() + c =~= c);
    } else {
        assert(chunks.push(c)[0] == chunks[0]);
        assert(chunks.push(c).drop_first() =~= chunks.drop_first().push(c));
        lemma_total_len_push(chunks.drop_first(), c);
        assert(chunks[0] + (concat_all(chunks.drop_first()) + c) =~= (chunks[0] + concat_all(
            chunks.drop_first(),
        )) + c);
    }
}

proof fn lemma_after_chunks_counts(s: TransferSession, chunks: Seq<Seq<u8>>)
    requires
        s.received + total_len(chunks) <= u64::MAX,
    ensures
        after_chunks(s, chunks).received == s.received + total_len(chunks),
        after_chunks(s, chunks).written@ == s.written@ + concat_all(chunks),
    decreases chunks.len(),
{
    if chunks.len() == 0 {
        assert(s.written@ + Seq::<u8>::empty() =~= s.written@);
    } else {
        lemma_total_len_nonneg(chunks.drop_first());
        lemma_after_chunks_counts(s.after_chunk(chunks[0]), chunks.drop_first());
        assert(s.written@ + chunks[0] + concat_all(chunks.drop_first()) =~= s.written@ + (
        chunks[0] + concat_all(chunks.drop_first())));
    }
}

proof fn lemma_split_chunks(data: Seq<u8>)
    ensures
        concat_all(split_chunks(data)) == data,
        total_len(split_chunks(data)) == data.len(),
        forall|i: int|
            0 <= i < split_chunks(data).len() ==> 0 < (#[trigger] split_chunks(data)[i]).len()
                <= CHUNK_SIZE,
    decreases data.len(),
{
    let cs = split_chunks(data);
    if data.len() == 0 {
        assert(data =~= Seq::<u8>::empty());
    } else if data.len() <= CHUNK_SIZE {
        assert(cs =~= seq![data]);
        assert(cs.drop_first() =~= Seq::<Seq<u8>>::empty());
        assert(concat_all(cs.drop_first()) == Seq::<u8>::empty());
        assert(total_len(cs.drop_first()) == 0);
        assert(data + Seq::<u8>::empty() =~= data);
    } else {
        let rest = data.skip(CHUNK_SIZE as int);
        lemma_split_chunks(rest);
        assert(cs[0] == data.take(CHUNK_SIZE as int));
        assert(cs.drop_first() =~= split_chunks(rest));
        assert(data.take(CHUNK_SIZE as int) + rest =~= data);
        assert forall|i: int| 0 <= i < cs.len() implies 0 < (#[trigger] cs[i]).len()
            <= CHUNK_SIZE by {
            if i > 0 {
                assert(cs[i] == split_chunks(rest)[i - 1]);
            }
        }
    }
}

/// What a sender hands out arrives whole: once an offer opened session `s`,
/// the chunks of a sender that sent `pieces` (with `OutgoingTransfer::next_chunk`)
/// leave the session with exactly those bytes, in order, and a received count
/// equal to their total, which is also the sender's offset; the size check
/// on completion fails exactly when that total differs from the announced size.
pub proof fn lemma_transfer_delivers(s: TransferSession, sender: OutgoingTransfer)
    requires
        s.received == 0,
        s.written@ == Seq::<u8>::empty(),
        s.expected == sender.total_size,
        sender.wf(),
        total_len(sender.sent@) <= u64::MAX,
    ensures
        after_chunks(s, sender.sent@).written@ == concat_all(sender.sent@),
        after_chunks(s, sender.sent@).received == total_len(sender.sent@),
        after_chunks(s, sender.sent@).received == sender.offset,
        concat_all(sender.sent@).len() == total_len(sender.sent@),
        (after_chunks(s, sender.sent@).received != after_chunks(s, sender.sent@).expected)
            <==> total_len(sender.sent@) != sender.total_size,
{
    lemma_after_chunks_counts(s, sender.sent@);
    lemma_after_chunks_keeps_expected(s, sender.sent@);
    lemma_concat_len(sender.sent@);
    assert(Seq::<u8>::empty() + concat_all(sender.sent@) =~= concat_all(sender.sent@));
}

proof fn lemma_after_chunks_keeps_expected(s: TransferSession, chunks: Seq<Seq<u8>>)
    ensures
        after_chunks(s, chunks).expected == s.expected,
    decreases chunks.len(),
{
    if chunks.len() > 0 {
        lemma_after_chunks_keeps_expected(s.after_chunk(chunks[0]), chunks.drop_first());
    }
}

proof fn lemma_concat_len(chunks: Seq<Seq<u8>>)
    ensures
        concat_all(chunks).len() == total_len(chunks),
    decreases chunks.len(),
{
    if chunks.len() > 0 {
        lemma_concat_len(chunks.drop_first());
    }
}

/// A file sent in `CHUNK_SIZE` pieces arrives whole: the chunks' sizes add up
/// to the file's size, the received count is that size, and the bytes handed
/// out to be written are the file's bytes.
pub proof fn lemma_file_reassembles(s: TransferSession, data: Seq<u8>)
    requires
        s.received == 0,
        s.written@ == Seq::<u8>::empty(),
        data.len() <= u64::MAX,
    ensures
        total_len(split_chunks(data)) == data.len(),
        concat_all(split_chunks(data)) == data,
        after_chunks(s, split_chunks(data)).received == data.len(),
        after_chunks(s, split_chunks(data)).written@ == data,
        forall|i: int|
            0 <= i < split_chunks(data).len() ==> (#[trigger] split_chunks(data)[i]).len()
                <= CHUNK_SIZE,
{
    lemma_split_chunks(data);
    lemma_after_chunks_counts(s, split_chunks(data));
    assert(Seq::<u8>::empty() + data =~= data);
}

/// The text of a completion message for a file sent to the students.
pub fn sent_notice(file_name: &str) -> (r: String)
    ensures
        r@ == "文件 "@ + file_name@ + " 已发送"@,
{
    let head = join_str("文件 ", file_name);
    join_str(head.as_str(), " 已发送")
}

/// The text of a completion message for a file uploaded to the teacher.
pub fn upload_notice(file_name: &str) -> (r: String)
    ensures
        r@ == file_name@ + " 上传完成"@,
{
    join_str(file_name, " 上传完成")
}

} // verus!
