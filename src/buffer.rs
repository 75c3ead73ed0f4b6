//! The write-behind buffer between event producers and the file sink.
//! Callers that share it between threads hold it behind one lock, so the
//! operations below happen one at a time in some order.
use vstd::prelude::*;
use vstd::seq_lib::lemma_multiset_commutative;

use crate::entry::FileLog;

verus! {

/// Pending log records, oldest first.
pub struct LogBuffer {
    pub entries: Vec<FileLog>,
}

impl LogBuffer {
    pub fn new() -> (r: LogBuffer)
        ensures
            r.entries@ == Seq::<FileLog>::empty(),
    {
        LogBuffer { entries: Vec::new() }
    }

    /// Adds `entry` after all pending records.
    pub fn append(&mut self, entry: FileLog)
        ensures
            final(self).entries@ == old(self).entries@.push(entry),
    {
        self.entries.push(entry);
    }

    /// Removes and returns every pending record, oldest first, leaving the buffer empty.
    pub fn drain(&mut self) -> (r: Vec<FileLog>)
        ensures
            r@ == old(self).entries@,
            final(self).entries@ == Seq::<FileLog>::empty(),
    {
        let mut taken: Vec<FileLog> = Vec::new();
        std::mem::swap(&mut taken, &mut self.entries);
        taken
    }

    pub fn len(&self) -> (r: usize)
        ensures
            r == self.entries@.len(),
    {
        self.entries.len()
    }
}

/// One operation on the buffer, as the lock serialises them.
pub enum BufferOp {
    Append(FileLog),
    Drain,
}

/// Runs `ops` on an empty buffer: the records still pending at the end and
/// the batch returned by each drain, in order.
pub open spec fn run_ops(ops: Seq<BufferOp>) -> (Seq<FileLog>, Seq<Seq<FileLog>>)
    decreases ops.len(),
{
    if ops.len() == 0 {
        (seq![], seq![])
    } else {
        let (pending, batches) = run_ops(ops.drop_last());
        match ops.last() {
            BufferOp::Append(e) => (pending.push(e), batches),
            BufferOp::Drain => (seq![], batches.push(pending)),
        }
    }
}

/// The records appended by `ops`, in order.
pub open spec fn appended(ops: Seq<BufferOp>) -> Seq<FileLog>
    decreases ops.len(),
{
    if ops.len() == 0 {
        seq![]
    } else {
        match ops.last() {
            BufferOp::Append(e) => appended(ops.drop_last()).push(e),
            BufferOp::Drain => appended(ops.drop_last()),
        }
    }
}

/// The batches one after the other.
pub open spec fn concat(batches: Seq<Seq<FileLog>>) -> Seq<FileLog>
    decreases batches.len(),
{
    if batches.len() == 0 {
        seq![]
    } else {
        concat(batches.drop_last()) + batches.last()
    }
}

/// No record is lost or duplicated: over any sequence of appends and
/// drains, the drained batches followed by what is still pending are
/// exactly the appended records in order, so as multisets the two agree.
/// Each drain returns precisely the records appended since the drain
/// before it.
pub proof fn lemma_drains_return_appends(ops: Seq<BufferOp>)
    ensures
        concat(run_ops(ops).1) + run_ops(ops).0 == appended(ops),
        (concat(run_ops(ops).1) + run_ops(ops).0).to_multiset() == appended(ops).to_multiset(),
        concat(run_ops(ops).1).to_multiset().add(run_ops(ops).0.to_multiset())
            == appended(ops).to_multiset(),
    decreases ops.len(),
{
    if ops.len() > 0 {
        lemma_drains_return_appends(ops.drop_last());
        let (pending, batches) = run_ops(ops.drop_last());
        match ops.last() {
            BufferOp::Append(e) => {
                assert(concat(batches) + pending.push(e) =~= (concat(batches) + pending).push(e));
            },
            BufferOp::Drain => {
                assert(batches.push(pending).drop_last() =~= batches);
                assert(concat(batches.push(pending)) + seq![] =~= concat(batches) + pending);
            },
        }
    }
    lemma_multiset_commutative(concat(run_ops(ops).1), run_ops(ops).0);
}

} // verus!
