//! Outcomes of single records and the counters that aggregate them.

use vstd::prelude::*;
use vstd::string::StringExecFns;
use crate::text::digits;
use crate::text::push_digits;

verus! {

/// Terminal classification of one record.
#[derive(Clone, Debug)]
pub enum Outcome {
    /// The resource was fetched and stored.
    Success,
    /// Every permitted attempt failed; the text is the reason of the last one.
    Failed(String),
    /// The output file was already present, nothing was fetched.
    Skipped,
}

/// Mathematical value of the three counters.
pub ghost struct Counts {
    pub success: nat,
    pub failed: nat,
    pub skipped: nat,
}

impl Counts {
    /// Number of outcomes counted so far.
    pub open spec fn total(self) -> nat {
        self.success + self.failed + self.skipped
    }

    /// The counts after one more outcome, with unbounded counters.
    pub open spec fn with(self, outcome: Outcome) -> Counts {
        match outcome {
            Outcome::Success => Counts { success: self.success + 1, ..self },
            Outcome::Failed(_) => Counts { failed: self.failed + 1, ..self },
            Outcome::Skipped => Counts { skipped: self.skipped + 1, ..self },
        }
    }
}

/// A counter value after one increment; like a machine counter it starts
/// again at zero after the largest value.
pub open spec fn bump(n: nat) -> nat {
    if n >= usize::MAX {
        0
    } else {
        n + 1
    }
}

/// Counters of finished records, one per kind of outcome.
pub struct DownloadState {
    success: usize,
    failed: usize,
    skipped: usize,
}

impl View for DownloadState {
    type V = Counts;

    closed spec fn view(&self) -> Counts {
        Counts {
            success: self.success as nat,
            failed: self.failed as nat,
            skipped: self.skipped as nat,
        }
    }
}

/// Final counts of a run.
#[derive(Clone, Copy, Debug, PartialEq, Eq, Structural)]
pub struct RunSummary {
    pub success: usize,
    pub failed: usize,
    pub skipped: usize,
}

/// The report of a finished run: the three counts, one to a line, and where
/// records failed a note that running again will retry them.
pub open spec fn report_text(success: nat, failed: nat, skipped: nat) -> Seq<char> {
    let counts = "\nSummary:\n  Downloaded: "@ + digits(success)
        + "\n  Skipped (already exists): "@ + digits(skipped) + "\n  Failed: "@ + digits(failed)
        + "\n"@;
    if failed > 0 {
        counts + "\nNote: "@ + digits(failed) + " downloads failed. Run again to retry.\n"@
    } else {
        counts
    }
}

impl RunSummary {
    /// The report of the run in words.
    pub fn report(&self) -> (text: String)
        ensures
            text@ == report_text(self.success as nat, self.failed as nat, self.skipped as nat),
    {
        let mut text = String::from_str("\nSummary:\n  Downloaded: ");
        push_digits(self.success as u64, &mut text);
        text.append("\n  Skipped (already exists): ");
        push_digits(self.skipped as u64, &mut text);
        text.append("\n  Failed: ");
        push_digits(self.failed as u64, &mut text);
        text.append("\n");
        if self.failed > 0 {
            text.append("\nNote: ");
            push_digits(self.failed as u64, &mut text);
            text.append(" downloads failed. Run again to retry.\n");
        }
        text
    }

    /// Whether any record failed, so that running again is worth while.
    pub fn has_failures(&self) -> (any: bool)
        ensures
            any == (self.failed > 0),
    {
        self.failed > 0
    }
}

impl DownloadState {
    /// Each counter fits a machine word.
    pub proof fn lemma_bounded(&self)
        ensures
            self@.success <= usize::MAX,
            self@.failed <= usize::MAX,
            self@.skipped <= usize::MAX,
    {
    }

    /// All counters at zero.
    pub fn new() -> (state: DownloadState)
        ensures
            state@ == (Counts { success: 0, failed: 0, skipped: 0 }),
    {
        DownloadState { success: 0, failed: 0, skipped: 0 }
    }

    /// Counts one more successful record.
    pub fn increment_success(&mut self)
        ensures
            final(self)@ == (Counts { success: bump(old(self)@.success), ..old(self)@ }),
    {
        self.success = self.success.wrapping_add(1);
    }

    /// Counts one more failed record.
    pub fn increment_failed(&mut self)
        ensures
            final(self)@ == (Counts { failed: bump(old(self)@.failed), ..old(self)@ }),
    {
        self.failed = self.failed.wrapping_add(1);
    }

    /// Counts one more skipped record.
    pub fn increment_skipped(&mut self)
        ensures
            final(self)@ == (Counts { skipped: bump(old(self)@.skipped), ..old(self)@ }),
    {
        self.skipped = self.skipped.wrapping_add(1);
    }

    /// Number of successful records counted.
    pub fn success(&self) -> (n: usize)
        ensures
            n == self@.success,
    {
        self.success
    }

    /// Number of failed records counted.
    pub fn failed(&self) -> (n: usize)
        ensures
            n == self@.failed,
    {
        self.failed
    }

    /// Number of skipped records counted.
    pub fn skipped(&self) -> (n: usize)
        ensures
            n == self@.skipped,
    {
        self.skipped
    }

    /// Counts a finished record under the counter of its outcome.
    pub fn record(&mut self, outcome: &Outcome)
        ensures
            final(self)@ == match *outcome {
                Outcome::Success => Counts { success: bump(old(self)@.success), ..old(self)@ },
                Outcome::Failed(_) => Counts { failed: bump(old(self)@.failed), ..old(self)@ },
                Outcome::Skipped => Counts { skipped: bump(old(self)@.skipped), ..old(self)@ },
            },
            old(self)@.total() < usize::MAX ==> final(self)@ == old(self)@.with(*outcome),
    {
        match outcome {
            Outcome::Success => self.increment_success(),
            Outcome::Failed(_) => self.increment_failed(),
            Outcome::Skipped => self.increment_skipped(),
        }
    }

    /// The three counters as plain values.
    pub fn summary(&self) -> (s: RunSummary)
        ensures
            s.success == self@.success,
            s.failed == self@.failed,
            s.skipped == self@.skipped,
    {
        RunSummary { success: self.success, failed: self.failed, skipped: self.skipped }
    }
}

} // verus!
