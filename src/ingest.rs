//! The decisions of the batched ingestion pipeline: identifier
//! normalisation, the merge of one record against its stored row, and what to
//! do after each input line (commit a batch, log a failure, rotate the log).
use vstd::prelude::*;
use crate::text::{texts, to_upper, upper_of};
use crate::record::{CveState, NormalizedCVE, merge, merged_model};
use crate::codec::{CveRecord, decode_row, encode_row, encodes, row_model, row_warnings};

verus! {

/// Records applied per transaction: every this many applied records the open
/// transaction is committed and a new one opened.
pub const BATCH_SIZE: u64 = 500;

/// Size, in bytes, beyond which the error log is rotated to its backup.
pub const MAX_LOG_BYTES: u64 = 5 * 1024 * 1024;

/// The identifier under which a record is stored: upper-cased.
pub fn normalize_cve_id(id: &str) -> (r: String)
    ensures
        r@ == upper_of(id@),
{
    to_upper(id)
}

/// The incoming record with its identifier normalised; nothing else changes.
pub fn normalize_record(rec: NormalizedCVE) -> (r: NormalizedCVE)
    ensures
        r@ == (crate::record::PartialModel { cve_id: upper_of(rec.cve_id@), ..rec@ }),
{
    let mut rec = rec;
    rec.cve_id = normalize_cve_id(rec.cve_id.as_str());
    rec
}

/// What one record does to the store: the new state of its identifier, the
/// row to write, and the stored fields that were corrupt and read as empty.
pub struct IngestOutcome {
    pub state: CveState,
    pub row: CveRecord,
    pub warnings: Vec<String>,
}

/// The stored state of a row, if there is one.
pub open spec fn existing_model(existing: Option<&CveRecord>) -> Option<crate::record::CveModel> {
    match existing {
        Some(row) => Some(row_model(*row)),
        None => None,
    }
}

/// Merges `incoming` from feed `source` with the stored row of its identifier
/// (`None` when there is none) and gives the row to write back.
pub fn ingest_row(existing: Option<&CveRecord>, incoming: NormalizedCVE, source: &str) -> (r:
    IngestOutcome)
    ensures
        r.state.wf(),
        r.state@ == merged_model(existing_model(existing), incoming@, source@),
        encodes(r.row, r.state),
        texts(r.warnings@) == match existing {
            Some(row) => row_warnings(*row),
            None => Seq::empty(),
        },
{
    let (base, warnings) = match existing {
        Some(row) => {
            let (s, w) = decode_row(row);
            (Some(s), w)
        },
        None => {
            let w: Vec<String> = Vec::new();
            assert(texts(w@) =~= Seq::empty());
            (None, w)
        },
    };
    let state = merge(base, incoming, source);
    let row = encode_row(&state);
    IngestOutcome { state, row, warnings }
}

/// How an input line ended.
#[derive(Clone, Copy, Debug, PartialEq, Eq, Structural)]
pub enum LineOutcome {
    /// The line held only white space and was skipped.
    Blank,
    /// The line did not parse as a record.
    ParseFailed,
    /// The lookup, merge or write of the record failed.
    ProcessFailed,
    /// The record was written in the open transaction.
    Applied,
}

/// What the pipeline does next.
#[derive(Clone, Copy, Debug, PartialEq, Eq, Structural)]
pub enum Step {
    /// Go on with the next line.
    Continue,
    /// Write the failure to the error log, then go on.
    LogError,
    /// Commit the open transaction and open a new one, then go on.
    Commit,
}

/// Counts of an ingestion run so far.
#[derive(Clone, Copy, Debug, PartialEq, Eq, Structural)]
pub struct IngestSummary {
    pub applied: u64,
    pub parse_failures: u64,
    pub process_failures: u64,
}

impl IngestSummary {
    /// A run that has seen no line yet.
    pub fn new() -> (r: IngestSummary)
        ensures
            r.applied == 0,
            r.parse_failures == 0,
            r.process_failures == 0,
    {
        IngestSummary { applied: 0, parse_failures: 0, process_failures: 0 }
    }

    /// Accounts for one line and says what to do next: a failure is counted
    /// and logged, an applied record is counted and every `BATCH_SIZE`-th
    /// one commits the batch.
    pub fn step(&mut self, outcome: LineOutcome) -> (s: Step)
        requires
            old(self).applied < u64::MAX,
            old(self).parse_failures < u64::MAX,
            old(self).process_failures < u64::MAX,
        ensures
            match outcome {
                LineOutcome::Blank => *final(self) == *old(self) && s == Step::Continue,
                LineOutcome::ParseFailed => *final(self) == (IngestSummary {
                    parse_failures: (old(self).parse_failures + 1) as u64,
                    ..*old(self)
                }) && s == Step::LogError,
                LineOutcome::ProcessFailed => *final(self) == (IngestSummary {
                    process_failures: (old(self).process_failures + 1) as u64,
                    ..*old(self)
                }) && s == Step::LogError,
                LineOutcome::Applied => *final(self) == (IngestSummary {
                    applied: (old(self).applied + 1) as u64,
                    ..*old(self)
                }) && s == (if final(self).applied % BATCH_SIZE == 0 {
                    Step::Commit
                } else {
                    Step::Continue
                }),
            },
    {
        match outcome {
            LineOutcome::Blank => Step::Continue,
            LineOutcome::ParseFailed => {
                self.parse_failures = self.parse_failures + 1;
                Step::LogError
            },
            LineOutcome::ProcessFailed => {
                self.process_failures = self.process_failures + 1;
                Step::LogError
            },
            LineOutcome::Applied => {
                self.applied = self.applied + 1;
                if self.applied % BATCH_SIZE == 0 {
                    Step::Commit
                } else {
                    Step::Continue
                }
            },
        }
    }
}

/// Whether an error log of `size` bytes is rotated before it is appended to.
pub fn log_needs_rotation(size: u64) -> (r: bool)
    ensures
        r == (size > MAX_LOG_BYTES),
{
    size > MAX_LOG_BYTES
}

} // verus!
