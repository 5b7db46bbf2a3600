//! The FAT16 cluster allocation table.
//!
//! The table starts out all free except for entry 0, which carries the
//! 0xFFF8 sentinel that MS-DOS FORMAT writes. Files claim clusters
//! first-fit from the start of the table; the whole image is rebuilt
//! from scratch on every run, so no deallocation path exists.

use crate::cluster::Cluster;
use crate::errors::BuildError;
use crate::fs::File;
use crate::vbr::{spec_sectors_per_cluster, spec_sectors_per_fat, VBR};
use vstd::prelude::*;

verus! {

broadcast use vstd::seq::group_seq_axioms, vstd::seq_lib::group_seq_lib_default;

/// The cell values of a run of cluster entries.
pub open spec fn fat_values(clusters: Seq<Cluster>) -> Seq<u16> {
    clusters.map_values(|c: Cluster| c.spec_value())
}

/// The table state right after formatting: every entry free except
/// entry 0, which holds the reserved sentinel.
pub open spec fn spec_initial_fat(cluster_count: int) -> Seq<u16> {
    Seq::new(
        cluster_count as nat,
        |i: int|
            if i == 0 {
                0xfff8u16
            } else {
                0u16
            },
    )
}

/// The positions of the free (zero) entries of a table, in increasing
/// order.
pub open spec fn free_indices(values: Seq<u16>) -> Seq<int>
    decreases values.len(),
{
    if values.len() == 0 {
        Seq::empty()
    } else if values.last() == 0 {
        free_indices(values.drop_last()).push(values.len() - 1)
    } else {
        free_indices(values.drop_last())
    }
}

/// How many clusters a file of the given size needs: a single cluster
/// for anything smaller than one, otherwise the size divided by the
/// cluster size, rounded up.
pub open spec fn spec_required_clusters(size: int, cluster_size: int) -> int
    recommends
        cluster_size >= 1,
{
    if size < cluster_size {
        1
    } else {
        (size + cluster_size - 1) / cluster_size
    }
}

/// Table positions narrowed to the 16-bit cells that hold them.
pub open spec fn indices_as_u16(s: Seq<int>) -> Seq<u16> {
    s.map_values(|i: int| i as u16)
}

/// A file always needs at least one cluster, whatever its size.
pub proof fn lemma_required_clusters_pos(size: int, cluster_size: int)
    requires
        cluster_size >= 1,
        size >= 0,
    ensures
        spec_required_clusters(size, cluster_size) >= 1,
{
    if size >= cluster_size {
        assert((size + cluster_size - 1) / cluster_size >= 1) by (nonlinear_arith)
            requires
                cluster_size >= 1,
                size >= cluster_size,
        ;
    }
}

/// Free positions point at zero entries inside the table, and come in
/// strictly increasing order.
pub proof fn lemma_free_indices_are_free(values: Seq<u16>)
    ensures
        forall|k: int|
            0 <= k < free_indices(values).len() ==> 0 <= #[trigger] free_indices(values)[k]
                < values.len() && values[free_indices(values)[k]] == 0,
        forall|k1: int, k2: int|
            0 <= k1 < k2 < free_indices(values).len() ==> free_indices(values)[k1]
                < free_indices(values)[k2],
    decreases values.len(),
{
    if values.len() > 0 {
        let prefix = values.drop_last();
        lemma_free_indices_are_free(prefix);
        let f = free_indices(values);
        let fp = free_indices(prefix);
        assert forall|k: int| 0 <= k < f.len() implies 0 <= #[trigger] f[k] < values.len()
            && values[f[k]] == 0 by {
            if k < fp.len() {
                assert(f[k] == fp[k]);
                assert(0 <= fp[k] < prefix.len());
                assert(values[fp[k]] == prefix[fp[k]]);
            } else {
                assert(values.last() == 0);
                assert(f[k] == values.len() - 1);
            }
        }
        assert forall|k1: int, k2: int| 0 <= k1 < k2 < f.len() implies f[k1] < f[k2] by {
            if k2 < fp.len() {
                assert(f[k1] == fp[k1] && f[k2] == fp[k2]);
            } else {
                assert(f[k2] == values.len() - 1);
                assert(f[k1] == fp[k1] < prefix.len());
            }
        }
    }
}

/// The free list of a table prefix is a prefix of the table's free list.
pub proof fn lemma_free_indices_take_prefix(values: Seq<u16>, n: int)
    requires
        0 <= n <= values.len(),
    ensures
        free_indices(values.take(n)).is_prefix_of(free_indices(values)),
    decreases values.len() - n,
{
    if n == values.len() {
        assert(values.take(n) =~= values);
        let f = free_indices(values);
        assert(f =~= f.subrange(0, f.len() as int));
    } else {
        lemma_free_indices_take_prefix(values, n + 1);
        let shorter = free_indices(values.take(n));
        let longer = free_indices(values.take(n + 1));
        let whole = free_indices(values);
        assert(values.take(n + 1).drop_last() =~= values.take(n));
        assert(shorter.is_prefix_of(longer));
        assert(shorter =~= longer.subrange(0, shorter.len() as int));
        assert(shorter =~= whole.subrange(0, shorter.len() as int));
    }
}

/// On a freshly formatted table the free entries are exactly
/// 1, 2, 3, ... up to the last cluster: the very first allocation is
/// owed cluster 1.
pub proof fn lemma_initial_fat_free_indices(cluster_count: int)
    requires
        cluster_count >= 1,
    ensures
        free_indices(spec_initial_fat(cluster_count)) =~= Seq::new(
            (cluster_count - 1) as nat,
            |i: int| i + 1,
        ),
    decreases cluster_count,
{
    if cluster_count == 1 {
        assert(spec_initial_fat(1).len() == 1);
        assert(spec_initial_fat(1).last() == 0xfff8);
        assert(spec_initial_fat(1).drop_last() =~= Seq::<u16>::empty());
        assert(free_indices(Seq::<u16>::empty()) =~= Seq::<int>::empty());
        assert(free_indices(spec_initial_fat(1)) == free_indices(spec_initial_fat(1).drop_last()));
    } else {
        lemma_initial_fat_free_indices(cluster_count - 1);
        assert(spec_initial_fat(cluster_count).drop_last() =~= spec_initial_fat(
            cluster_count - 1,
        ));
        assert(spec_initial_fat(cluster_count).last() == 0);
        assert(free_indices(spec_initial_fat(cluster_count)) == free_indices(
            spec_initial_fat(cluster_count).drop_last(),
        ).push(cluster_count - 1));
        assert(free_indices(spec_initial_fat(cluster_count)) =~= free_indices(
            spec_initial_fat(cluster_count - 1),
        ).push(cluster_count - 1));
        assert(Seq::new((cluster_count - 2) as nat, |i: int| i + 1).push(cluster_count - 1)
            =~= Seq::new((cluster_count - 1) as nat, |i: int| i + 1));
    }
}

/// A cluster whose entry holds a chain value is no longer free: nothing
/// in the free list points at it. Together with the chain written by
/// `push_file`, allocation is monotonic -- a later file can never be
/// handed a cluster an earlier file already claimed.
pub proof fn lemma_chain_not_free(values: Seq<u16>, chain: Seq<int>)
    requires
        forall|k: int|
            0 <= k < chain.len() ==> 0 <= #[trigger] chain[k] < values.len()
                && values[chain[k]] != 0,
    ensures
        forall|k: int| 0 <= k < chain.len() ==> !free_indices(values).contains(#[trigger] chain[k]),
{
    lemma_free_indices_are_free(values);
    assert forall|k: int| 0 <= k < chain.len() implies !free_indices(values).contains(
        #[trigger] chain[k],
    ) by {
        if free_indices(values).contains(chain[k]) {
            let j = choose|j: int|
                0 <= j < free_indices(values).len() && free_indices(values)[j] == chain[k];
            assert(values[chain[k]] == 0);
        }
    }
}

/// Cluster allocation is monotonic. After one file's chain has been
/// written into the table (its entries are nonzero), an allocation for
/// a second file -- which draws from the front of the table's free
/// list -- never hands out any cluster of that chain.
pub proof fn lemma_allocation_monotonic(
    table: Seq<u16>,
    first_chain: Seq<int>,
    second_chain: Seq<int>,
)
    requires
        forall|k: int|
            0 <= k < first_chain.len() ==> 0 <= #[trigger] first_chain[k] < table.len()
                && table[first_chain[k]] != 0,
        0 <= second_chain.len() <= free_indices(table).len(),
        second_chain == free_indices(table).take(second_chain.len() as int),
    ensures
        forall|k1: int, k2: int|
            0 <= k1 < first_chain.len() && 0 <= k2 < second_chain.len() ==> #[trigger]
            first_chain[k1] != #[trigger] second_chain[k2],
{
    lemma_chain_not_free(table, first_chain);
    lemma_free_indices_are_free(table);
    assert forall|k1: int, k2: int|
        0 <= k1 < first_chain.len() && 0 <= k2 < second_chain.len() implies #[trigger]
    first_chain[k1] != #[trigger] second_chain[k2] by {
        assert(second_chain[k2] == free_indices(table)[k2]);
        assert(table[second_chain[k2]] == 0);
        assert(table[first_chain[k1]] != 0);
    }
}

/// The cluster allocation table of one FAT16 volume, together with the
/// files placed on it.
#[derive(Debug)]
pub struct FAT {
    files: Vec<File>,
    sector_count: u32,
    sectors_per_fat: u32,
    clusters: Vec<Cluster>,
    cluster_count: u32,
    cluster_size: usize,
}

impl FAT {
    /// The files placed on the volume so far.
    pub closed spec fn spec_files(self) -> Seq<File> {
        self.files@
    }

    /// The volume's sector count.
    pub closed spec fn spec_sector_count(self) -> u32 {
        self.sector_count
    }

    /// The sectors one copy of the FAT occupies on disk.
    pub closed spec fn spec_sectors_per_fat(self) -> u32 {
        self.sectors_per_fat
    }

    /// The table entries.
    pub closed spec fn spec_clusters(self) -> Seq<Cluster> {
        self.clusters@
    }

    /// The number of clusters the volume holds.
    pub closed spec fn spec_cluster_count(self) -> u32 {
        self.cluster_count
    }

    /// The size of one cluster in bytes.
    pub closed spec fn spec_cluster_size(self) -> usize {
        self.cluster_size
    }

    /// Internal consistency: the table length matches the cluster count,
    /// cluster indices fit 16 bits, the cluster size is a supported
    /// power of two times 512, and entry 0 keeps its sentinel.
    pub open spec fn wf(self) -> bool {
        &&& self.spec_clusters().len() == self.spec_cluster_count()
        &&& 1 <= self.spec_cluster_count() <= 65535
        &&& 512 <= self.spec_cluster_size() <= 32768
        &&& fat_values(self.spec_clusters())[0] != 0
    }

    /// Build the allocation table for a volume of the given sector
    /// count: all clusters free, except the reserved entry 0.
    pub fn new(sector_count: u32) -> (r: Result<FAT, BuildError>)
        ensures
            sector_count < 8400 ==> r == Err::<FAT, BuildError>(BuildError::VolumeTooSmall),
            sector_count >= 4194304 ==> r == Err::<FAT, BuildError>(BuildError::VolumeTooLarge),
            8400 <= sector_count < 4194304 ==> (r matches Ok(f) && {
                &&& f.wf()
                &&& f.spec_files() == Seq::<File>::empty()
                &&& f.spec_sector_count() == sector_count
                &&& f.spec_sectors_per_fat() == spec_sectors_per_fat(sector_count)
                &&& f.spec_cluster_count() == sector_count as int / (
                spec_sectors_per_cluster(sector_count) as int)
                &&& f.spec_cluster_size() == (spec_sectors_per_cluster(sector_count) as int) * 512
                &&& fat_values(f.spec_clusters()) == spec_initial_fat(
                    f.spec_cluster_count() as int,
                )
            }),
    {
        let sectors_per_cluster = match VBR::set_sectors_per_cluster(sector_count) {
            Ok(v) => v,
            Err(e) => { return Err(e) },
        };
        let sectors_per_fat = match VBR::set_sectors_per_fat(sector_count) {
            Ok(v) => v,
            Err(e) => { return Err(e) },
        };
        let cluster_count: u32 = sector_count / (sectors_per_cluster as u32);
        proof {
            let vsc = sector_count as int;
            if sector_count < 32680 {
                assert(sectors_per_cluster == 2 && 1 <= vsc / 2 <= 65535);
            } else if sector_count < 262144 {
                assert(sectors_per_cluster == 4 && 1 <= vsc / 4 <= 65535);
            } else if sector_count < 524288 {
                assert(sectors_per_cluster == 8 && 1 <= vsc / 8 <= 65535);
            } else if sector_count < 1048576 {
                assert(sectors_per_cluster == 16 && 1 <= vsc / 16 <= 65535);
            } else if sector_count < 2097152 {
                assert(sectors_per_cluster == 32 && 1 <= vsc / 32 <= 65535);
            } else {
                assert(sectors_per_cluster == 64 && 1 <= vsc / 64 <= 65535);
            }
        }
        proof {
            crate::vbr::lemma_sectors_per_fat_fits(sector_count);
        }
        let clusters = FAT::initialize_fat(cluster_count as usize);
        Ok(
            FAT {
                files: Vec::new(),
                sector_count,
                sectors_per_fat: sectors_per_fat as u32,
                clusters,
                cluster_count,
                cluster_size: (sectors_per_cluster as usize) * 512,
            },
        )
    }

    /// Fill a fresh table: entry 0 carries the sentinel that MS-DOS
    /// FORMAT leaves there, every other entry is free.
    fn initialize_fat(cluster_count: usize) -> (r: Vec<Cluster>)
        requires
            cluster_count >= 1,
        ensures
            r@.len() == cluster_count,
            fat_values(r@) == spec_initial_fat(cluster_count as int),
    {
        let mut clusters: Vec<Cluster> = Vec::new();
        let mut item: usize = 0;
        while item < cluster_count
            invariant
                item <= cluster_count,
                clusters@.len() == item,
                forall|j: int|
                    0 <= j < item ==> (#[trigger] clusters@[j]).spec_value() == (if j == 0 {
                        0xfff8u16
                    } else {
                        0u16
                    }),
            decreases cluster_count - item,
        {
            if item == 0 {
                clusters.push(Cluster::new(0xfff8));
            } else {
                clusters.push(Cluster::new(0));
            }
            item += 1;
        }
        proof {
            assert(fat_values(clusters@) =~= spec_initial_fat(cluster_count as int));
        }
        clusters
    }

    /// Return the clusters the given file would occupy: the first free
    /// entries of the table, scanned from the start, as many as the
    /// file's size requires. Fails when the volume has too few free
    /// clusters left.
    pub fn allocate_clusters(&self, file: &File) -> (r: Result<Vec<Cluster>, BuildError>)
        requires
            self.wf(),
        ensures
            ({
                let required = spec_required_clusters(
                    file.spec_data().len() as int,
                    self.spec_cluster_size() as int,
                );
                let free = free_indices(fat_values(self.spec_clusters()));
                &&& free.len() >= required ==> (r matches Ok(l) && fat_values(l@)
                    == indices_as_u16(free.take(required)))
                &&& free.len() < required ==> r == Err::<Vec<Cluster>, BuildError>(
                    BuildError::InsufficientFreeClusters,
                )
            }),
    {
        let ghost values = fat_values(self.spec_clusters());
        let ghost free = free_indices(values);
        proof {
            lemma_required_clusters_pos(
                file.spec_data().len() as int,
                self.spec_cluster_size() as int,
            );
        }
        let filesize: usize = file.get_size();
        let required: usize = if filesize < self.cluster_size {
            1
        } else {
            let q = filesize / self.cluster_size;
            let rem = filesize % self.cluster_size;
            proof {
                assert(q + 1 <= usize::MAX) by (nonlinear_arith)
                    requires
                        q == filesize as int / self.cluster_size as int,
                        self.cluster_size >= 512,
                        0 <= filesize <= usize::MAX,
                        usize::MAX >= 1024,
                ;
            }
            let required = if rem != 0 {
                q + 1
            } else {
                q
            };
            proof {
                assert(required == spec_required_clusters(
                    filesize as int,
                    self.cluster_size as int,
                )) by (nonlinear_arith)
                    requires
                        self.cluster_size >= 1,
                        filesize >= self.cluster_size,
                        q == filesize as int / self.cluster_size as int,
                        rem == filesize as int % self.cluster_size as int,
                        required == (if rem != 0 {
                            q + 1int
                        } else {
                            q as int
                        }),
                ;
            }
            required
        };
        let mut free_clusters: Vec<Cluster> = Vec::new();
        let mut i: usize = 0;
        while i < self.clusters.len() && free_clusters.len() < required
            invariant
                self.wf(),
                values == fat_values(self.spec_clusters()),
                i <= self.clusters@.len(),
                free_clusters@.len() <= required,
                fat_values(free_clusters@) == indices_as_u16(free_indices(values.take(i as int))),
                free_indices(values.take(i as int)).len() == free_clusters@.len(),
            decreases self.clusters@.len() - i,
        {
            let ghost prev = free_indices(values.take(i as int));
            let ghost before = free_clusters@;
            if self.clusters[i].get_value() == 0 {
                free_clusters.push(Cluster::new(i as u16));
            }
            proof {
                assert(values.take(i + 1).drop_last() =~= values.take(i as int));
                assert(values.take(i + 1).last() == values[i as int]);
                let target = free_indices(values.take(i + 1));
                if values[i as int] == 0 {
                    assert(target == prev.push(i as int));
                    assert(free_clusters@ == before.push(free_clusters@.last()));
                    assert(free_clusters@.last().spec_value() == i as u16);
                    assert forall|k: int| 0 <= k < free_clusters@.len() implies fat_values(
                        free_clusters@,
                    )[k] == indices_as_u16(target)[k] by {
                        if k < before.len() {
                            assert(fat_values(before)[k] == indices_as_u16(prev)[k]);
                            assert(free_clusters@[k] == before[k]);
                        }
                    }
                    assert(fat_values(free_clusters@) =~= indices_as_u16(target));
                } else {
                    assert(target == prev);
                    assert(fat_values(free_clusters@) == indices_as_u16(target));
                }
            }
            i += 1;
        }
        proof {
            lemma_free_indices_take_prefix(values, i as int);
        }
        if free_clusters.len() < required {
            proof {
                assert(i == self.clusters@.len());
                assert(values.take(i as int) =~= values);
            }
            return Err(BuildError::InsufficientFreeClusters);
        }
        proof {
            let taken = free_indices(values.take(i as int));
            assert(taken =~= free.subrange(0, taken.len() as int));
            assert(free.take(required as int) =~= taken);
            if free.len() < required {
                assert(free_clusters@.len() <= free.len());
            }
        }
        Ok(free_clusters)
    }

    /// Place a file on the volume: claim its clusters and write the
    /// chain into the table, each cluster pointing at the next and the
    /// last one closed with 0xFFFF. Already-claimed clusters are never
    /// touched again.
    pub fn push_file(&mut self, file: File) -> (r: Result<(), BuildError>)
        requires
            old(self).wf(),
        ensures
            ({
                let required = spec_required_clusters(
                    file.spec_data().len() as int,
                    old(self).spec_cluster_size() as int,
                );
                let old_values = fat_values(old(self).spec_clusters());
                let free = free_indices(old_values);
                let assigned = free.take(required);
                let new_values = fat_values(final(self).spec_clusters());
                &&& final(self).spec_sector_count() == old(self).spec_sector_count()
                &&& final(self).spec_sectors_per_fat() == old(self).spec_sectors_per_fat()
                &&& final(self).spec_cluster_count() == old(self).spec_cluster_count()
                &&& final(self).spec_cluster_size() == old(self).spec_cluster_size()
                &&& free.len() < required ==> r == Err::<(), BuildError>(
                    BuildError::InsufficientFreeClusters,
                ) && *final(self) == *old(self)
                &&& free.len() >= required ==> {
                    &&& r == Ok::<(), BuildError>(())
                    &&& final(self).wf()
                    &&& new_values.len() == old_values.len()
                    &&& forall|j: int|
                        0 <= j < old_values.len() && !assigned.contains(j)
                            ==> #[trigger] new_values[j] == old_values[j]
                    &&& forall|m: int|
                        0 <= m < required ==> #[trigger] new_values[assigned[m]] == (if m < required
                            - 1 {
                            assigned[m + 1] as u16
                        } else {
                            0xffffu16
                        })
                    &&& forall|m: int|
                        0 <= m < required ==> #[trigger] new_values[assigned[m]] != 0
                    &&& final(self).spec_files().len() == old(self).spec_files().len() + 1
                    &&& final(self).spec_files().last().spec_name() == file.spec_name()
                    &&& final(self).spec_files().last().spec_data() == file.spec_data()
                    &&& final(self).spec_files().last().spec_attributes() == file.spec_attributes()
                    &&& fat_values(final(self).spec_files().last().spec_clusters())
                        == indices_as_u16(assigned)
                    &&& forall|t: int|
                        0 <= t < old(self).spec_files().len() ==> final(self).spec_files()[t]
                            == old(self).spec_files()[t]
                }
            }),
    {
        let ghost old_values = fat_values(self.spec_clusters());
        let ghost free = free_indices(old_values);
        let chain = match self.allocate_clusters(&file) {
            Ok(c) => c,
            Err(e) => { return Err(e) },
        };
        let ghost required = spec_required_clusters(
            file.spec_data().len() as int,
            self.spec_cluster_size() as int,
        );
        let ghost assigned = free.take(required);
        proof {
            lemma_free_indices_are_free(old_values);
            lemma_required_clusters_pos(
                file.spec_data().len() as int,
                self.spec_cluster_size() as int,
            );
            assert(required >= 1);
            assert(free.len() >= required);
            assert(fat_values(chain@) == indices_as_u16(assigned));
            assert(assigned.len() == required);
            assert(fat_values(chain@).len() == chain@.len());
            assert(indices_as_u16(assigned).len() == assigned.len());
            assert(chain@.len() == assigned.len());
        }
        let n = chain.len();
        let mut k: usize = 0;
        while k < n
            invariant
                n == chain@.len(),
                k <= n,
                assigned == free.take(required),
                required == n,
                1 <= required <= free.len(),
                assigned.len() == n,
                free == free_indices(old_values),
                fat_values(chain@) == indices_as_u16(assigned),
                forall|m: int|
                    0 <= m < assigned.len() ==> 0 <= #[trigger] assigned[m] < old_values.len()
                        && old_values[assigned[m]] == 0,
                forall|m1: int, m2: int|
                    0 <= m1 < m2 < assigned.len() ==> assigned[m1] < assigned[m2],
                self.spec_clusters().len() == old(self).spec_clusters().len(),
                old_values == fat_values(old(self).spec_clusters()),
                old_values.len() == old(self).spec_cluster_count(),
                1 <= old(self).spec_cluster_count() <= 65535,
                old_values[0] != 0,
                self.spec_files() == old(self).spec_files(),
                self.spec_sector_count() == old(self).spec_sector_count(),
                self.spec_sectors_per_fat() == old(self).spec_sectors_per_fat(),
                self.spec_cluster_count() == old(self).spec_cluster_count(),
                self.spec_cluster_size() == old(self).spec_cluster_size(),
                forall|j: int|
                    0 <= j < old_values.len() && !assigned.take(k as int).contains(j)
                        ==> #[trigger] fat_values(self.spec_clusters())[j] == old_values[j],
                forall|m: int|
                    0 <= m < k ==> #[trigger] fat_values(self.spec_clusters())[assigned[m]] == (
                    if m < n - 1 {
                        assigned[m + 1] as u16
                    } else {
                        0xffffu16
                    }),
            decreases n - k,
        {
            let ghost before = fat_values(self.spec_clusters());
            let idx = chain[k].get_value() as usize;
            proof {
                assert(fat_values(chain@)[k as int] == assigned[k as int] as u16);
                assert(idx == assigned[k as int]);
                assert(!assigned.take(k as int).contains(idx as int));
            }
            let next: u16 = if k + 1 < n {
                chain[k + 1].get_value()
            } else {
                0xffff
            };
            self.clusters.set(idx, Cluster::new(next));
            proof {
                assert(fat_values(self.spec_clusters()) =~= before.update(idx as int, next));
                if k + 1 < n {
                    assert(fat_values(chain@)[k + 1] == assigned[k as int + 1] as u16);
                }
                assert(assigned.take(k + 1)[k as int] == assigned[k as int]);
                assert forall|j: int|
                    0 <= j < old_values.len() && !assigned.take(k + 1).contains(
                        j,
                    ) implies #[trigger] fat_values(self.spec_clusters())[j] == old_values[j] by {
                    assert(j != idx);
                    assert(!assigned.take(k as int).contains(j)) by {
                        if assigned.take(k as int).contains(j) {
                            let w = choose|w: int|
                                0 <= w < k && assigned.take(k as int)[w] == j;
                            assert(assigned.take(k + 1)[w] == j);
                        }
                    }
                    assert(fat_values(self.spec_clusters())[j] == before[j]);
                }
                assert forall|m: int|
                    0 <= m < k + 1 implies #[trigger] fat_values(self.spec_clusters())[assigned[m]]
                    == (if m < n - 1 {
                    assigned[m + 1] as u16
                } else {
                    0xffffu16
                }) by {
                    if m < k {
                        assert(assigned[m] < assigned[k as int]);
                        assert(fat_values(self.spec_clusters())[assigned[m]]
                            == before[assigned[m]]);
                    } else {
                        assert(fat_values(self.spec_clusters())[idx as int] == next);
                    }
                }
            }
            k += 1;
        }
        let mut placed = file;
        placed.set_clusters(chain);
        self.files.push(placed);
        proof {
            assert(assigned.take(n as int) =~= assigned);
            assert(forall|m: int|
                0 <= m < assigned.len() ==> #[trigger] assigned[m] != 0);
            assert(forall|m: int|
                0 <= m < n - 1 ==> 1 <= assigned[m + 1] <= 65535 && (#[trigger] assigned[m
                    + 1]) as u16 != 0);
            assert(fat_values(final(self).spec_clusters())[0] == old_values[0]);
        }
        Ok(())
    }

    /// The number of clusters the volume holds.
    pub fn get_cluster_count(&self) -> (r: u32)
        ensures
            r == self.spec_cluster_count(),
    {
        self.cluster_count
    }

    /// The length of the allocation table.
    pub fn get_allocated_cluster_count(&self) -> (r: usize)
        ensures
            r == self.spec_clusters().len(),
    {
        self.clusters.len()
    }

    /// The size of one cluster in bytes.
    pub fn get_cluster_size(&self) -> (r: usize)
        ensures
            r == self.spec_cluster_size(),
    {
        self.cluster_size
    }
}

} // verus!
