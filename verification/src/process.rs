use vstd::prelude::*;

verus! {

/// Bytes in a megabyte, as the process panel counts them.
pub const BYTES_PER_MEGABYTE: u64 = 1048576;

/// What the metrics sampler observed of the supervised process.
#[derive(Clone, Copy, Debug, PartialEq, Eq, Structural)]
pub struct ProcessSample {
    pub pid: u32,
    /// Resident memory, in bytes.
    pub memory_bytes: u64,
    /// CPU use as a fraction of one core, in parts per million.
    pub cpu_ppm: u32,
}

impl ProcessSample {
    /// Resident memory in whole megabytes, rounded down.
    pub open spec fn megabytes(self) -> nat {
        (self.memory_bytes / BYTES_PER_MEGABYTE) as nat
    }

    /// Resident memory in whole megabytes, rounded down.
    pub fn memory_megabytes(self) -> (r: u64)
        ensures
            r == self.megabytes(),
    {
        self.memory_bytes / BYTES_PER_MEGABYTE
    }
}

/// The latest known figures of the supervised process: the sampler's last
/// answer, whole, which is a placeholder while it does not find the process.
#[derive(Clone, Copy, Debug, PartialEq, Eq, Structural)]
pub enum ProcessSummary {
    Fetching,
    Known(ProcessSample),
}

impl ProcessSummary {
    /// The summary that a sampler result gives: a sample replaces whatever
    /// was known, and a process that was not found gives the placeholder.
    pub open spec fn of_sample(sample: Option<ProcessSample>) -> ProcessSummary {
        match sample {
            Some(s) => ProcessSummary::Known(s),
            None => ProcessSummary::Fetching,
        }
    }

    /// The CPU value that the chart gets from a sampler result: the
    /// sample's, or zero where the process was not found.
    pub open spec fn cpu_of(sample: Option<ProcessSample>) -> nat {
        match sample {
            Some(s) => s.cpu_ppm as nat,
            None => 0,
        }
    }

    /// The summary that a sampler result gives.
    pub fn from_sample(sample: Option<ProcessSample>) -> (r: ProcessSummary)
        ensures
            r == ProcessSummary::of_sample(sample),
    {
        match sample {
            Some(s) => ProcessSummary::Known(s),
            None => ProcessSummary::Fetching,
        }
    }

    /// The sample, where one is known.
    pub fn sample(self) -> (r: Option<ProcessSample>)
        ensures
            r == (match self {
                ProcessSummary::Known(s) => Some(s),
                ProcessSummary::Fetching => None,
            }),
    {
        match self {
            ProcessSummary::Known(s) => Some(s),
            ProcessSummary::Fetching => None,
        }
    }

    /// The text shown while nothing is known.
    pub fn placeholder_text() -> (r: String)
        ensures
            r@ == "still fetching..."@,
    {
        "still fetching...".to_owned()
    }
}

} // verus!
