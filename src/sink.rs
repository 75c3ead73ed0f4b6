//! The decisions of the day-rotating file sink. The sink keeps the content
//! of the current day's file in memory; its driver reads and writes the
//! files and feeds it the records drained from the buffer, one at a time.
use vstd::prelude::*;

use crate::clock::{day_stamp, utc_day_stamp};
use crate::entry::FileLog;
use crate::text::str_eq;

verus! {

/// The name of the log file of `day` (`YYYYMMDD`).
pub fn log_file_name(day: &str) -> (r: String)
    ensures
        r@ == day@ + "-log.json"@,
{
    let mut r = String::from_str(day);
    r.append("-log.json");
    r
}

/// The state of a sink, as values.
pub struct SinkModel {
    pub day: Seq<char>,
    pub entries: Seq<FileLog>,
    pub pending: Option<FileLog>,
}

/// What the driver is to do after a record is offered, as values.
pub enum SinkStep {
    Appended,
    RollOver { closed_day: Seq<char>, closed: Seq<FileLog>, next_day: Seq<char> },
    Unplaceable(FileLog),
}

/// Offering `e` to a sink in state `m`: a record of the open day is
/// appended; a record of another day closes the open file, which is to be
/// written once more, and waits for the other day's file to be loaded; a
/// record whose day cannot be told leaves the sink as it was.
pub open spec fn offer_step(m: SinkModel, e: FileLog) -> (SinkModel, SinkStep) {
    match utc_day_stamp(e.timestamp as int) {
        None => (m, SinkStep::Unplaceable(e)),
        Some(d) => if d == m.day {
            (SinkModel { entries: m.entries.push(e), ..m }, SinkStep::Appended)
        } else {
            (
                SinkModel { day: d, entries: seq![], pending: Some(e) },
                SinkStep::RollOver { closed_day: m.day, closed: m.entries, next_day: d },
            )
        },
    }
}

/// Installing the loaded content of the new day: the waiting record follows it.
pub open spec fn resume_step(m: SinkModel, loaded: Seq<FileLog>) -> SinkModel {
    SinkModel {
        day: m.day,
        entries: match m.pending {
            Some(e) => loaded.push(e),
            None => loaded,
        },
        pending: None,
    }
}

/// Offering the records of `batch` in order, none of which rolls the day over.
pub open spec fn offer_all(m: SinkModel, batch: Seq<FileLog>) -> SinkModel
    decreases batch.len(),
{
    if batch.len() == 0 {
        m
    } else {
        offer_step(offer_all(m, batch.drop_last()), batch.last()).0
    }
}

/// What the driver is to do after a record is offered.
pub enum SinkAction {
    /// The record joined the open day's file.
    Appended,
    /// The record belongs to another day: write `closed` as the file of
    /// `closed_day`, load the file of `next_day`, and hand its content to
    /// `resume`.
    RollOver { closed_day: String, closed: Vec<FileLog>, next_day: String },
    /// The record's timestamp has no calendar day; it is handed back.
    Unplaceable(FileLog),
}

impl SinkAction {
    pub open spec fn model(self) -> SinkStep {
        match self {
            SinkAction::Appended => SinkStep::Appended,
            SinkAction::RollOver { closed_day, closed, next_day } => SinkStep::RollOver {
                closed_day: closed_day@,
                closed: closed@,
                next_day: next_day@,
            },
            SinkAction::Unplaceable(e) => SinkStep::Unplaceable(e),
        }
    }
}

/// The open day and the in-memory content of its file.
pub struct FileSink {
    pub day: String,
    pub entries: Vec<FileLog>,
    /// A record of a new day, waiting for that day's file to be loaded.
    pub pending: Option<FileLog>,
}

impl FileSink {
    pub open spec fn model(self) -> SinkModel {
        SinkModel { day: self.day@, entries: self.entries@, pending: self.pending }
    }

    /// A sink on `day`, whose file holds `loaded`.
    pub fn open(day: String, loaded: Vec<FileLog>) -> (r: FileSink)
        ensures
            r.model() == (SinkModel { day: day@, entries: loaded@, pending: None }),
    {
        FileSink { day, entries: loaded, pending: None }
    }

    /// Whether a record waits for its day's file to be loaded.
    pub fn is_waiting(&self) -> (r: bool)
        ensures
            r == self.pending is Some,
    {
        self.pending.is_some()
    }

    /// Places one record; see `offer_step`.
    pub fn offer(&mut self, entry: FileLog) -> (r: SinkAction)
        requires
            old(self).pending is None,
        ensures
            (final(self).model(), r.model()) == offer_step(old(self).model(), entry),
    {
        let d = match day_stamp(entry.timestamp) {
            Some(d) => d,
            None => {
                return SinkAction::Unplaceable(entry);
            },
        };
        if str_eq(d.as_str(), self.day.as_str()) {
            self.entries.push(entry);
            SinkAction::Appended
        } else {
            let mut closed: Vec<FileLog> = Vec::new();
            std::mem::swap(&mut closed, &mut self.entries);
            let mut closed_day = d.clone();
            std::mem::swap(&mut closed_day, &mut self.day);
            self.pending = Some(entry);
            SinkAction::RollOver { closed_day, closed, next_day: d }
        }
    }

    /// Installs the loaded content of the new day's file, followed by the
    /// waiting record.
    pub fn resume(&mut self, loaded: Vec<FileLog>)
        requires
            old(self).pending is Some,
        ensures
            final(self).model() == resume_step(old(self).model(), loaded@),
    {
        let mut entries = loaded;
        let mut waiting: Option<FileLog> = None;
        std::mem::swap(&mut waiting, &mut self.pending);
        match waiting {
            Some(e) => entries.push(e),
            None => {},
        }
        self.entries = entries;
    }
}

/// Day rollover: a record of the open day D joins D's file; a later record
/// of another day first closes D's file, handing it over to be written once
/// more with the D record last and without the new one; the new record then
/// opens the other day's file after its loaded content, so the two days end
/// up in two distinct files.
pub proof fn lemma_rollover(m: SinkModel, first: FileLog, second: FileLog, loaded: Seq<FileLog>)
    requires
        m.pending is None,
        utc_day_stamp(first.timestamp as int) == Some(m.day),
        utc_day_stamp(second.timestamp as int) is Some,
        utc_day_stamp(second.timestamp as int).unwrap() != m.day,
    ensures
        ({
            let (m1, a1) = offer_step(m, first);
            let (m2, a2) = offer_step(m1, second);
            let m3 = resume_step(m2, loaded);
            &&& a1 == SinkStep::Appended
            &&& m1.day == m.day
            &&& m1.entries == m.entries.push(first)
            &&& a2 == (SinkStep::RollOver {
                closed_day: m.day,
                closed: m.entries.push(first),
                next_day: utc_day_stamp(second.timestamp as int).unwrap(),
            })
            &&& m3.day == utc_day_stamp(second.timestamp as int).unwrap()
            &&& m3.day != m.day
            &&& m3.day + "-log.json"@ != m.day + "-log.json"@
            &&& m3.entries == loaded.push(second)
            &&& m3.pending is None
        }),
{
    let d2 = utc_day_stamp(second.timestamp as int).unwrap();
    let suffix = "-log.json"@;
    if d2 + suffix == m.day + suffix {
        assert((d2 + suffix).len() == (m.day + suffix).len());
        assert(d2 =~= (d2 + suffix).take(d2.len() as int));
        assert(m.day =~= (m.day + suffix).take(m.day.len() as int));
    }
}

/// The in-memory content is rewritten in full, never reordered or thinned:
/// after a batch of records of the open day, the day's content is what it
/// was followed by the whole batch in order.
pub proof fn lemma_same_day_batch_kept(m: SinkModel, batch: Seq<FileLog>)
    requires
        m.pending is None,
        forall|i: int|
            0 <= i < batch.len() ==> utc_day_stamp(#[trigger] batch[i].timestamp as int) == Some(
                m.day,
            ),
    ensures
        offer_all(m, batch) == (SinkModel { day: m.day, entries: m.entries + batch, pending: None }),
    decreases batch.len(),
{
    if batch.len() > 0 {
        let rest = batch.drop_last();
        assert forall|i: int| 0 <= i < rest.len() implies utc_day_stamp(
            #[trigger] rest[i].timestamp as int,
        ) == Some(m.day) by {
            assert(rest[i] == batch[i]);
        }
        lemma_same_day_batch_kept(m, rest);
        assert(batch[batch.len() - 1] == batch.last());
        assert(m.entries + rest.push(batch.last()) =~= (m.entries + rest).push(batch.last()));
        assert(rest.push(batch.last()) =~= batch);
    }
}

} // verus!
