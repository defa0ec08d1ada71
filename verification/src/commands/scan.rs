//! The `scan` subcommand.

use crate::text::{decimal, decimal_text, joined};
use vstd::prelude::*;

verus! {

/// Scans the music library and updates the database.
pub struct ScanCommand {
    pub force_rescan: bool,
}

/// How the songs of a scan fared: how many were new to the database, how
/// many were known, how many could not be stored.
#[derive(Debug, Clone, Copy, PartialEq, Eq, Structural)]
pub struct ScanTally {
    pub added: usize,
    pub updated: usize,
    pub errors: usize,
}

/// `n + 1`, or `n` where that does not fit.
pub open spec fn counted(n: usize) -> usize {
    if n < usize::MAX {
        (n + 1) as usize
    } else {
        n
    }
}

impl ScanTally {
    /// The tally after one more song: `Some(true)` for a song that was new,
    /// `Some(false)` for one that was known, `None` for one that could not be
    /// stored.
    pub open spec fn with(self, outcome: Option<bool>) -> ScanTally {
        match outcome {
            Some(true) => ScanTally { added: counted(self.added), ..self },
            Some(false) => ScanTally { updated: counted(self.updated), ..self },
            None => ScanTally { errors: counted(self.errors), ..self },
        }
    }

    /// The tally of a list of outcomes, taken in order.
    pub open spec fn of(outcomes: Seq<Option<bool>>) -> ScanTally
        decreases outcomes.len(),
    {
        if outcomes.len() == 0 {
            ScanTally { added: 0, updated: 0, errors: 0 }
        } else {
            Self::of(outcomes.drop_last()).with(outcomes.last())
        }
    }

    /// The lines that sum the scan up; failures are mentioned only where
    /// there were any.
    pub open spec fn lines(self) -> Seq<Seq<char>> {
        let head = seq![
            "Scan completed:"@,
            "  - Added: "@ + decimal(self.added as nat) + " new songs"@,
            "  - Updated: "@ + decimal(self.updated as nat) + " existing songs"@,
        ];
        if self.errors > 0 {
            head.push("  - Errors: "@ + decimal(self.errors as nat) + " songs failed to process"@)
        } else {
            head
        }
    }

    /// The tally before the first song.
    pub fn new() -> (tally: Self)
        ensures
            tally == (ScanTally { added: 0, updated: 0, errors: 0 }),
    {
        ScanTally { added: 0, updated: 0, errors: 0 }
    }

    /// Counts one more song.
    pub fn record(&mut self, outcome: Option<bool>)
        ensures
            *final(self) == old(self).with(outcome),
    {
        match outcome {
            Some(true) => {
                if self.added < usize::MAX {
                    self.added = self.added + 1;
                }
            },
            Some(false) => {
                if self.updated < usize::MAX {
                    self.updated = self.updated + 1;
                }
            },
            None => {
                if self.errors < usize::MAX {
                    self.errors = self.errors + 1;
                }
            },
        }
    }

    /// The lines that sum the scan up.
    pub fn summary(&self) -> (lines: Vec<String>)
        ensures
            lines@.map_values(|line: String| line@) == self.lines(),
    {
        let mut lines: Vec<String> = Vec::new();
        lines.push("Scan completed:".to_string());
        let added = decimal_text(self.added as u64);
        let mut line = joined("  - Added: ", added.as_str());
        line.append(" new songs");
        lines.push(line);
        let updated = decimal_text(self.updated as u64);
        let mut line = joined("  - Updated: ", updated.as_str());
        line.append(" existing songs");
        lines.push(line);
        if self.errors > 0 {
            let errors = decimal_text(self.errors as u64);
            let mut line = joined("  - Errors: ", errors.as_str());
            line.append(" songs failed to process");
            lines.push(line);
        }
        assert(lines@.map_values(|line: String| line@) =~= self.lines());
        lines
    }
}

impl ScanCommand {
    /// The command; `force_rescan` clears the database before the scan.
    pub fn new(force_rescan: bool) -> (command: Self)
        ensures
            command.force_rescan == force_rescan,
    {
        ScanCommand { force_rescan }
    }

    /// What the command does, in a few words.
    pub fn description(&self) -> (text: &'static str)
        ensures
            text@ == "Scan music library and update database"@,
    {
        "Scan music library and update database"
    }

    /// The tally of a scan whose songs fared as `outcomes` say, in order.
    pub fn tally(&self, outcomes: &Vec<Option<bool>>) -> (tally: ScanTally)
        ensures
            tally == ScanTally::of(outcomes@),
    {
        let mut tally = ScanTally::new();
        let mut i: usize = 0;
        while i < outcomes.len()
            invariant
                i <= outcomes.len(),
                tally == ScanTally::of(outcomes@.take(i as int)),
            decreases outcomes.len() - i,
        {
            assert(outcomes@.take(i + 1).drop_last() =~= outcomes@.take(i as int));
            tally.record(outcomes[i]);
            i += 1;
        }
        assert(outcomes@.take(outcomes.len() as int) =~= outcomes@);
        tally
    }
}

} // verus!
