//! Resource snapshots of the host and how raw readings are folded into one.

use vstd::prelude::*;
use vstd::string::*;

verus! {

/// A point-in-time reading of the host's resources. `cpu_usage` is in
/// tenths of a percent; the memory and disk figures are in bytes.
#[derive(Debug, Clone, Copy, PartialEq, Eq, Structural)]
pub struct ResourceMetrics {
    pub cpu_usage: u32,
    pub memory_used: u64,
    pub memory_total: u64,
    pub disk_used: u64,
    pub disk_total: u64,
}

/// Capacity and free space of one disk, in bytes.
#[derive(Debug, Clone, Copy, PartialEq, Eq, Structural)]
pub struct DiskSpace {
    pub total_space: u64,
    pub available_space: u64,
}

#[derive(Debug)]
pub enum ResourceError {
    MetricsCollectionError(String),
}

impl ResourceError {
    /// The cause that the error carries.
    pub open spec fn reason(&self) -> Seq<char> {
        match self {
            ResourceError::MetricsCollectionError(reason) => reason@,
        }
    }

    /// The error as one line of text.
    pub open spec fn description(&self) -> Seq<char> {
        "Failed to collect system metrics: "@ + self.reason()
    }

    /// Writes the error as one line of text.
    pub fn describe(&self) -> (r: String)
        ensures
            r@ == self.description(),
    {
        match self {
            ResourceError::MetricsCollectionError(reason) => {
                String::from_str("Failed to collect system metrics: ").concat(reason.as_str())
            },
        }
    }
}

/// The sum of per-core load readings.
pub open spec fn load_sum(samples: Seq<u32>) -> nat
    decreases samples.len(),
{
    if samples.len() == 0 {
        0
    } else {
        load_sum(samples.drop_last()) + samples.last() as nat
    }
}

/// The mean of per-core load readings, rounded down; 0 without readings.
pub open spec fn mean_load(samples: Seq<u32>) -> nat {
    if samples.len() == 0 {
        0
    } else {
        load_sum(samples) / samples.len()
    }
}

/// Whether no disk reports more free space than it has capacity.
pub open spec fn disks_consistent(disks: Seq<DiskSpace>) -> bool {
    forall|i: int| 0 <= i < disks.len() ==> (#[trigger] disks[i]).available_space <= disks[i].total_space
}

/// The capacity of all disks together.
pub open spec fn capacity_sum(disks: Seq<DiskSpace>) -> nat
    decreases disks.len(),
{
    if disks.len() == 0 {
        0
    } else {
        capacity_sum(disks.drop_last()) + disks.last().total_space as nat
    }
}

/// The occupied space of all disks together.
pub open spec fn occupied_sum(disks: Seq<DiskSpace>) -> int
    decreases disks.len(),
{
    if disks.len() == 0 {
        0
    } else {
        occupied_sum(disks.drop_last()) + disks.last().total_space - disks.last().available_space
    }
}

/// The text of the error for a disk with more free space than capacity.
pub open spec fn inconsistent_disk_reason() -> Seq<char> {
    "a disk reports more available space than capacity"@
}

/// The text of the error for disks too large to add up.
pub open spec fn capacity_overflow_reason() -> Seq<char> {
    "total disk capacity is out of range"@
}

/// What folding raw readings gives: the snapshot, or the reason why there
/// is none.
pub open spec fn aggregated(
    cpu_samples: Seq<u32>,
    memory_used: u64,
    memory_total: u64,
    disks: Seq<DiskSpace>,
) -> Result<ResourceMetrics, Seq<char>> {
    if !disks_consistent(disks) {
        Err(inconsistent_disk_reason())
    } else if capacity_sum(disks) > u64::MAX {
        Err(capacity_overflow_reason())
    } else {
        Ok(
            ResourceMetrics {
                cpu_usage: mean_load(cpu_samples) as u32,
                memory_used,
                memory_total,
                disk_used: occupied_sum(disks) as u64,
                disk_total: capacity_sum(disks) as u64,
            },
        )
    }
}

/// The mean of readings that each fit in 32 bits fits in 32 bits.
pub proof fn lemma_load_sum_bound(samples: Seq<u32>)
    ensures
        load_sum(samples) <= samples.len() * 0xffff_ffff,
        mean_load(samples) <= 0xffff_ffff,
    decreases samples.len(),
{
    if samples.len() > 0 {
        lemma_load_sum_bound(samples.drop_last());
        let n = samples.len() as int;
        let total = load_sum(samples) as int;
        assert(total <= n * 0xffff_ffff) by (nonlinear_arith)
            requires
                total <= (n - 1) * 0xffff_ffff + 0xffff_ffff,
        ;
        assert(total / n <= 0xffff_ffff) by (nonlinear_arith)
            requires
                n > 0,
                total <= n * 0xffff_ffff,
        ;
    }
}

/// Occupied space never exceeds capacity on consistent disks.
pub proof fn lemma_occupied_within_capacity(disks: Seq<DiskSpace>)
    requires
        disks_consistent(disks),
    ensures
        0 <= occupied_sum(disks) <= capacity_sum(disks),
        capacity_sum(disks) <= disks.len() * 0xffff_ffff_ffff_ffff,
    decreases disks.len(),
{
    if disks.len() > 0 {
        let rest = disks.drop_last();
        assert(disks_consistent(rest)) by {
            assert forall|i: int| 0 <= i < rest.len() implies (#[trigger] rest[i]).available_space
                <= rest[i].total_space by {
                assert(rest[i] == disks[i]);
            }
        }
        lemma_occupied_within_capacity(rest);
        let n = disks.len() as int;
        assert(capacity_sum(disks) <= n * 0xffff_ffff_ffff_ffff) by (nonlinear_arith)
            requires
                capacity_sum(disks) <= (n - 1) * 0xffff_ffff_ffff_ffff + 0xffff_ffff_ffff_ffff,
        ;
    }
}

fn mean_of(samples: &Vec<u32>) -> (mean: u32)
    ensures
        mean == mean_load(samples@),
{
    let count = samples.len();
    if count == 0 {
        return 0;
    }
    let mut total: u128 = 0;
    let mut at: usize = 0;
    while at < count
        invariant
            at <= count,
            count == samples@.len(),
            total == load_sum(samples@.take(at as int)),
            total <= at * 0xffff_ffff,
        decreases count - at,
    {
        assert(samples@.take(at as int + 1).drop_last() =~= samples@.take(at as int));
        assert(at * 0xffff_ffff + 0xffff_ffff <= 0xffff_ffff_ffff_ffff * 0x1_0000_0000)
            by (nonlinear_arith)
            requires
                at <= 0xffff_ffff_ffff_ffff,
        ;
        total = total + samples[at] as u128;
        at = at + 1;
    }
    assert(samples@.take(count as int) =~= samples@);
    proof {
        lemma_load_sum_bound(samples@);
    }
    (total / (count as u128)) as u32
}

impl ResourceMetrics {
    /// Folds raw readings into one snapshot: the mean of the per-core loads
    /// (in tenths of a percent), the memory figures as they are, and the
    /// occupied and total space summed over the disks. There is no snapshot
    /// where a disk reports more free space than capacity, or where the
    /// capacities do not add up within 64 bits.
    pub fn aggregate(
        cpu_samples: &Vec<u32>,
        memory_used: u64,
        memory_total: u64,
        disks: &Vec<DiskSpace>,
    ) -> (r: Result<ResourceMetrics, ResourceError>)
        ensures
            match aggregated(cpu_samples@, memory_used, memory_total, disks@) {
                Ok(metrics) => r == Ok::<ResourceMetrics, ResourceError>(metrics),
                Err(reason) => r matches Err(e) && e.reason() == reason,
            },
    {
        let count = disks.len();
        let mut capacity: u128 = 0;
        let mut occupied: u128 = 0;
        let mut at: usize = 0;
        while at < count
            invariant
                at <= count,
                count == disks@.len(),
                disks_consistent(disks@.take(at as int)),
                capacity == capacity_sum(disks@.take(at as int)),
                occupied == occupied_sum(disks@.take(at as int)),
                occupied <= capacity <= at * 0xffff_ffff_ffff_ffff,
            decreases count - at,
        {
            let disk = disks[at];
            if disk.available_space > disk.total_space {
                return Err(
                    ResourceError::MetricsCollectionError(
                        String::from_str("a disk reports more available space than capacity"),
                    ),
                );
            }
            proof {
                let next = disks@.take(at as int + 1);
                assert(next.drop_last() =~= disks@.take(at as int));
                assert(next.last() == disk);
                assert(disks_consistent(next)) by {
                    assert forall|i: int| 0 <= i < next.len() implies (#[trigger] next[i]).available_space
                        <= next[i].total_space by {
                        if i < at {
                            assert(next[i] == disks@.take(at as int)[i]);
                        }
                    }
                }
                assert(at * 0xffff_ffff_ffff_ffff + 0xffff_ffff_ffff_ffff <= 0xffff_ffff_ffff_ffff
                    * 0x1_0000_0000_0000_0000) by (nonlinear_arith)
                    requires
                        at <= 0xffff_ffff_ffff_ffff,
                ;
            }
            capacity = capacity + disk.total_space as u128;
            occupied = occupied + (disk.total_space - disk.available_space) as u128;
            at = at + 1;
        }
        assert(disks@.take(count as int) =~= disks@);
        if capacity > u64::MAX as u128 {
            return Err(
                ResourceError::MetricsCollectionError(
                    String::from_str("total disk capacity is out of range"),
                ),
            );
        }
        Ok(
            ResourceMetrics {
                cpu_usage: mean_of(cpu_samples),
                memory_used,
                memory_total,
                disk_used: occupied as u64,
                disk_total: capacity as u64,
            },
        )
    }
}

} // verus!
