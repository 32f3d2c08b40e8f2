//! The automated judgment of the remote pipeline, in fixed-point numbers.

use vstd::prelude::*;

verus! {

/// One million: a confidence of 1.0 in parts per million.
pub const FULL_CONFIDENCE: u32 = 1_000_000;

/// The overall result of an inspection.
#[derive(Debug, Clone, Copy, PartialEq, Eq, Structural)]
pub enum Outcome {
    Pass,
    Warn,
    Fail,
}

/// A pipeline judgment: the overall result, the confidence in parts per
/// million and the processing time in milliseconds.
#[derive(Debug, Clone, Copy, PartialEq, Eq, Structural)]
pub struct Verdict {
    pub outcome: Outcome,
    pub confidence_ppm: u32,
    pub processing_ms: u64,
}

impl Verdict {
    /// The confidence lies between 0 and 1; the processing time, being
    /// unsigned, is never negative.
    pub open spec fn valid(self) -> bool {
        self.confidence_ppm <= FULL_CONFIDENCE
    }

    /// Whether the confidence lies between 0 and 1.
    pub fn is_valid(&self) -> (b: bool)
        ensures
            b == self.valid(),
    {
        self.confidence_ppm <= FULL_CONFIDENCE
    }

    /// A verdict, unless the confidence is above 1.
    pub fn new(outcome: Outcome, confidence_ppm: u32, processing_ms: u64) -> (r: Option<Verdict>)
        ensures
            r is Some <==> confidence_ppm <= FULL_CONFIDENCE,
            r matches Some(v) ==> v.valid() && v == (Verdict {
                outcome,
                confidence_ppm,
                processing_ms,
            }),
    {
        if confidence_ppm <= FULL_CONFIDENCE {
            Some(Verdict { outcome, confidence_ppm, processing_ms })
        } else {
            None
        }
    }
}

/// The outcome that a label of the pipeline stands for. `PASS`, `WARN` and
/// `FAIL`, written so, are the only results there are: any other label is
/// no result, and an answer of the pipeline that holds one is no verdict.
pub open spec fn outcome_of_label(label: Seq<char>) -> Option<Outcome> {
    if label == "PASS"@ {
        Some(Outcome::Pass)
    } else if label == "WARN"@ {
        Some(Outcome::Warn)
    } else if label == "FAIL"@ {
        Some(Outcome::Fail)
    } else {
        None
    }
}

/// The label written for an outcome.
pub open spec fn label_of_outcome(outcome: Outcome) -> Seq<char> {
    match outcome {
        Outcome::Pass => "PASS"@,
        Outcome::Warn => "WARN"@,
        Outcome::Fail => "FAIL"@,
    }
}

impl Outcome {
    /// Reads `PASS`, `WARN` or `FAIL`.
    pub fn from_label(label: &str) -> (r: Option<Outcome>)
        ensures
            r == outcome_of_label(label@),
    {
        if crate::text::same_text(label, "PASS") {
            Some(Outcome::Pass)
        } else if crate::text::same_text(label, "WARN") {
            Some(Outcome::Warn)
        } else if crate::text::same_text(label, "FAIL") {
            Some(Outcome::Fail)
        } else {
            None
        }
    }

    /// Writes `PASS`, `WARN` or `FAIL`.
    pub fn label(self) -> (s: String)
        ensures
            s@ == label_of_outcome(self),
    {
        match self {
            Outcome::Pass => crate::text::owned("PASS"),
            Outcome::Warn => crate::text::owned("WARN"),
            Outcome::Fail => crate::text::owned("FAIL"),
        }
    }
}

/// Reading back a written label gives the outcome again.
pub proof fn lemma_label_round_trip(outcome: Outcome)
    ensures
        outcome_of_label(label_of_outcome(outcome)) == Some(outcome),
{
    reveal_strlit("PASS");
    reveal_strlit("WARN");
    reveal_strlit("FAIL");
    assert("PASS"@.len() == 4 && "WARN"@.len() == 4 && "FAIL"@.len() == 4);
    assert("PASS"@[0] == 'P' && "WARN"@[0] == 'W' && "FAIL"@[0] == 'F');
}

} // verus!
