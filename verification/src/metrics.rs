//! Shaping of provisioning metrics: whenever a collection's provisioning
//! record is created or updated, samples for its disk, CPU and RAM usage
//! are buffered here until the collector drains them.  Transport to the
//! collector is the metrics layer's work.

use vstd::prelude::*;

verus! {

/// The provisioned-resource counters of one collection (a project, an
/// organization, a silo or the fleet).
#[derive(Clone, Copy, Debug, PartialEq, Eq, Structural)]
pub struct VirtualResourceProvisioning {
    pub id: u128,
    pub virtual_disk_bytes_provisioned: i64,
    pub cpus_provisioned: i64,
    pub ram_provisioned: i64,
}

/// One measured value.
#[derive(Clone, Copy, Debug, PartialEq, Eq, Structural)]
pub enum Metric {
    VirtualDiskSpaceProvisioned { bytes_used: i64 },
    CpusProvisioned { cpus: i64 },
    RamProvisioned { bytes: i64 },
}

/// One sample: a measured value attributed to one collection.
#[derive(Clone, Copy, Debug, PartialEq, Eq, Structural)]
pub struct Sample {
    pub target_id: u128,
    pub metric: Metric,
}

/// The disk-usage sample of one provisioning record.
pub open spec fn disk_sample(u: VirtualResourceProvisioning) -> Sample {
    Sample {
        target_id: u.id,
        metric: Metric::VirtualDiskSpaceProvisioned {
            bytes_used: u.virtual_disk_bytes_provisioned,
        },
    }
}

/// The CPU-usage sample of one provisioning record.
pub open spec fn cpu_sample(u: VirtualResourceProvisioning) -> Sample {
    Sample { target_id: u.id, metric: Metric::CpusProvisioned { cpus: u.cpus_provisioned } }
}

/// The RAM-usage sample of one provisioning record.
pub open spec fn ram_sample(u: VirtualResourceProvisioning) -> Sample {
    Sample { target_id: u.id, metric: Metric::RamProvisioned { bytes: u.ram_provisioned } }
}

/// Buffers samples between provisioning updates and collection.  Samples
/// accumulate in arrival order and leave all at once when collected.
#[derive(Debug)]
pub struct Producer {
    pub samples: Vec<Sample>,
}

impl Producer {
    /// An empty buffer.
    pub fn new() -> (r: Producer)
        ensures
            r.samples@ == Seq::<Sample>::empty(),
    {
        Producer { samples: Vec::new() }
    }

    /// Appends one disk-usage sample for each updated record, in order.
    pub fn append_disk_metrics(&mut self, usages: &Vec<VirtualResourceProvisioning>)
        ensures
            final(self).samples@ == old(self).samples@ + usages@.map_values(
                |u: VirtualResourceProvisioning| disk_sample(u),
            ),
    {
        let ghost start = self.samples@;
        let n = usages.len();
        let mut i: usize = 0;
        proof {
            assert(usages@.subrange(0, 0).map_values(
                |u: VirtualResourceProvisioning| disk_sample(u),
            ) =~= Seq::<Sample>::empty());
            assert(self.samples@ =~= start + usages@.subrange(0, 0).map_values(
                |u: VirtualResourceProvisioning| disk_sample(u),
            ));
        }
        while i < n
            invariant
                n == usages@.len(),
                i <= n,
                self.samples@ == start + usages@.subrange(0, i as int).map_values(
                    |u: VirtualResourceProvisioning| disk_sample(u),
                ),
            decreases n - i,
        {
            let ghost pre = usages@.subrange(0, i as int);
            let ghost post = usages@.subrange(0, i + 1);
            let u = usages[i];
            self.samples.push(
                Sample {
                    target_id: u.id,
                    metric: Metric::VirtualDiskSpaceProvisioned {
                        bytes_used: u.virtual_disk_bytes_provisioned,
                    },
                },
            );
            proof {
                assert(post.drop_last() =~= pre);
                assert(post.map_values(|u: VirtualResourceProvisioning| disk_sample(u))
                    =~= pre.map_values(|u: VirtualResourceProvisioning| disk_sample(u)).push(
                    disk_sample(post.last()),
                ));
            }
            i = i + 1;
        }
        proof {
            assert(usages@.subrange(0, n as int) =~= usages@);
        }
    }

    /// Appends one CPU-usage sample for each updated record, then one
    /// RAM-usage sample for each, in order.
    pub fn append_cpu_metrics(&mut self, usages: &Vec<VirtualResourceProvisioning>)
        ensures
            final(self).samples@ == old(self).samples@ + usages@.map_values(
                |u: VirtualResourceProvisioning| cpu_sample(u),
            ) + usages@.map_values(|u: VirtualResourceProvisioning| ram_sample(u)),
    {
        let ghost start = self.samples@;
        let n = usages.len();
        let mut i: usize = 0;
        proof {
            assert(usages@.subrange(0, 0).map_values(
                |u: VirtualResourceProvisioning| cpu_sample(u),
            ) =~= Seq::<Sample>::empty());
            assert(self.samples@ =~= start + usages@.subrange(0, 0).map_values(
                |u: VirtualResourceProvisioning| cpu_sample(u),
            ));
        }
        while i < n
            invariant
                n == usages@.len(),
                i <= n,
                self.samples@ == start + usages@.subrange(0, i as int).map_values(
                    |u: VirtualResourceProvisioning| cpu_sample(u),
                ),
            decreases n - i,
        {
            let ghost pre = usages@.subrange(0, i as int);
            let ghost post = usages@.subrange(0, i + 1);
            let u = usages[i];
            self.samples.push(
                Sample { target_id: u.id, metric: Metric::CpusProvisioned { cpus: u.cpus_provisioned } },
            );
            proof {
                assert(post.drop_last() =~= pre);
                assert(post.map_values(|u: VirtualResourceProvisioning| cpu_sample(u))
                    =~= pre.map_values(|u: VirtualResourceProvisioning| cpu_sample(u)).push(
                    cpu_sample(post.last()),
                ));
            }
            i = i + 1;
        }
        let ghost mid = self.samples@;
        let mut j: usize = 0;
        proof {
            assert(usages@.subrange(0, n as int) =~= usages@);
            assert(usages@.subrange(0, 0).map_values(
                |u: VirtualResourceProvisioning| ram_sample(u),
            ) =~= Seq::<Sample>::empty());
            assert(self.samples@ =~= mid + usages@.subrange(0, 0).map_values(
                |u: VirtualResourceProvisioning| ram_sample(u),
            ));
        }
        while j < n
            invariant
                n == usages@.len(),
                j <= n,
                self.samples@ == mid + usages@.subrange(0, j as int).map_values(
                    |u: VirtualResourceProvisioning| ram_sample(u),
                ),
                mid == start + usages@.map_values(|u: VirtualResourceProvisioning| cpu_sample(u)),
            decreases n - j,
        {
            let ghost pre = usages@.subrange(0, j as int);
            let ghost post = usages@.subrange(0, j + 1);
            let u = usages[j];
            self.samples.push(
                Sample { target_id: u.id, metric: Metric::RamProvisioned { bytes: u.ram_provisioned } },
            );
            proof {
                assert(post.drop_last() =~= pre);
                assert(post.map_values(|u: VirtualResourceProvisioning| ram_sample(u))
                    =~= pre.map_values(|u: VirtualResourceProvisioning| ram_sample(u)).push(
                    ram_sample(post.last()),
                ));
            }
            j = j + 1;
        }
        proof {
            assert(usages@.subrange(0, n as int) =~= usages@);
        }
    }

    /// Hands every buffered sample to the collector and leaves the buffer
    /// empty.
    pub fn produce(&mut self) -> (r: Vec<Sample>)
        ensures
            r@ == old(self).samples@,
            final(self).samples@ == Seq::<Sample>::empty(),
    {
        let mut drained: Vec<Sample> = Vec::new();
        core::mem::swap(&mut self.samples, &mut drained);
        drained
    }
}

} // verus!
