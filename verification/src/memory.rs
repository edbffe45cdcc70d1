//! Memory determination and thresholds.

use vstd::prelude::*;

verus! {

/// Memory threshold.
///
/// The limiter holds requests back while the threshold counts the current
/// memory sample as constrained. What "constrained" means depends on the
/// variant.
#[derive(Debug)]
pub enum Threshold {
    /// Constrained when the available memory is less than the given number of bytes.
    MinAvailableBytes(u64),
}

impl Threshold {
    /// The policy: whether `sample` bytes of available memory count as constrained.
    ///
    /// For `MinAvailableBytes(min)` the comparison is strict: a sample equal to
    /// the minimum is not constrained.
    pub open spec fn constrained(self, sample: nat) -> bool {
        match self {
            Threshold::MinAvailableBytes(min) => sample < min,
        }
    }

    /// Decides whether `sample` bytes of available memory count as constrained.
    pub fn is_constrained(&self, sample: usize) -> (c: bool)
        ensures
            c == self.constrained(sample as nat),
    {
        match self {
            Threshold::MinAvailableBytes(min) => (sample as u64) < *min,
        }
    }
}

impl Clone for Threshold {
    fn clone(&self) -> (copy: Self)
        ensures
            copy == *self,
    {
        match self {
            Threshold::MinAvailableBytes(min) => Threshold::MinAvailableBytes(*min),
        }
    }
}

/// With a minimum of `min` bytes, a sample is constrained exactly when it is
/// below `min`; in particular a sample of exactly `min` bytes is not.
pub proof fn law_constrained_iff_below_minimum(min: u64, sample: nat)
    ensures
        Threshold::MinAvailableBytes(min).constrained(sample) <==> sample < min,
        !Threshold::MinAvailableBytes(min).constrained(min as nat),
{
}

/// A source of memory samples.
///
/// Implementations report the memory that is currently available, in bytes,
/// or the reason why it could not be measured. A provider is shared by
/// cloning, and is queried again on every readiness check.
pub trait AvailableMemory: Clone {
    /// The memory that is available right now, in bytes, or the cause for which
    /// it cannot be told.
    fn available_memory(&self) -> Result<usize, String>;
}

/// What a sample is to the limiter: the available bytes, or the text of the
/// cause for which they could not be measured.
pub open spec fn sample_view(sample: Result<usize, String>) -> Result<nat, Seq<char>> {
    match sample {
        Ok(bytes) => Ok(bytes as nat),
        Err(cause) => Err(cause@),
    }
}

/// A reading of a control group's memory accounting, with a failure seen as the
/// text of its cause.
pub open spec fn reading_view(reading: Result<Option<u64>, String>) -> Result<
    Option<u64>,
    Seq<char>,
> {
    match reading {
        Ok(available) => Ok(available),
        Err(cause) => Err(cause@),
    }
}

/// Interprets what the memory accounting of Linux control groups reports.
///
/// Reading `/sys/fs/cgroup` is left to the caller; this type decides what a
/// reading means as a memory sample.
#[derive(Debug)]
pub struct LinuxCgroupMemory;

impl Clone for LinuxCgroupMemory {
    fn clone(&self) -> (copy: Self)
        ensures
            copy == *self,
    {
        LinuxCgroupMemory
    }
}

impl LinuxCgroupMemory {
    /// The cause that is reported for a control group without a memory limit.
    pub open spec fn undetermined() -> Seq<char> {
        "Memory cannot be determined"@
    }

    /// What a reading means: the available bytes where the control group has a
    /// memory limit, a failure where it has none, and the reader's own failure
    /// unchanged.
    pub open spec fn sample_of(reading: Result<Option<u64>, Seq<char>>) -> Result<
        nat,
        Seq<char>,
    > {
        match reading {
            Ok(Some(bytes)) => Ok((bytes as usize) as nat),
            Ok(None) => Err(Self::undetermined()),
            Err(cause) => Err(cause),
        }
    }

    /// Turns a reading of the control group's memory accounting into a sample:
    /// `Ok(Some(bytes))` for the bytes left under the group's limit, `Ok(None)`
    /// for a group without a limit, `Err(cause)` where the files could not be
    /// read or understood.
    pub fn available_memory(reading: Result<Option<u64>, String>) -> (sample: Result<
        usize,
        String,
    >)
        ensures
            sample_view(sample) == Self::sample_of(reading_view(reading)),
    {
        match reading {
            Ok(Some(bytes)) => Ok(bytes as usize),
            Ok(None) => Err("Memory cannot be determined".to_owned()),
            Err(cause) => Err(cause),
        }
    }
}

} // verus!
