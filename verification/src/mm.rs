use vstd::prelude::*;
use crate::config::PAGE_SIZE;

verus! {

/// Permission bit: the area may be read.
pub const PERM_R: usize = 1;

/// Permission bit: the area may be written.
pub const PERM_W: usize = 2;

/// Permission bit: the area may be executed.
pub const PERM_X: usize = 4;

/// One mapped range of a task's address space: the addresses from `start`
/// up to, not including, `end`.
#[derive(Clone, Copy, Debug, PartialEq, Eq, Structural)]
pub struct MapArea {
    pub start: usize,
    pub end: usize,
    pub perm: usize,
    /// Whether the range maps device registers rather than memory.
    pub mmio: bool,
}

impl MapArea {
    /// Whether the area shares an address with the range from `start` up to `end`.
    pub open spec fn spec_overlaps(self, start: usize, end: usize) -> bool {
        self.start < end && start < self.end
    }

    /// Whether the area shares an address with the range from `start` up to `end`.
    #[verifier::when_used_as_spec(spec_overlaps)]
    pub fn overlaps(self, start: usize, end: usize) -> (r: bool)
        ensures
            r == self.spec_overlaps(start, end),
    {
        self.start < end && start < self.end
    }
}

/// Whether some area of `areas` shares an address with the range.
pub open spec fn any_overlap(areas: Seq<MapArea>, start: usize, end: usize) -> bool {
    exists|i: int| 0 <= i < areas.len() && (#[trigger] areas[i]).spec_overlaps(start, end)
}

/// The index of the first area of `areas` among the first `n` that equals
/// `area`, or `n` if there is none.
pub open spec fn first_index_of(areas: Seq<MapArea>, area: MapArea, n: int) -> int
    decreases n,
{
    if n <= 0 {
        0
    } else {
        let before = first_index_of(areas, area, n - 1);
        if before < n - 1 {
            before
        } else if areas[n - 1] == area {
            n - 1
        } else {
            n
        }
    }
}

/// The byte count of `len` bytes rounded up to whole pages.
pub open spec fn page_round_up(len: int) -> int {
    ((len + PAGE_SIZE - 1) / PAGE_SIZE as int) * PAGE_SIZE
}

/// Whether a request to map `len` bytes at `start` with the permission bits
/// `port` is acceptable in an address space that holds `areas`: the start is
/// page aligned, at least one and only permission bits are set, the range
/// ends within the address space, and it touches nothing mapped.
pub open spec fn mmap_ok(areas: Seq<MapArea>, start: usize, len: usize, port: usize) -> bool {
    &&& start % PAGE_SIZE == 0
    &&& port & !7usize == 0
    &&& port & 7usize != 0
    &&& start + page_round_up(len as int) <= usize::MAX
    &&& page_round_up(len as int) <= isize::MAX
    &&& !any_overlap(areas, start, (start + page_round_up(len as int)) as usize)
}

/// The record of what is mapped into one task's address space. The page
/// tables themselves belong to the platform; the kernel decides on this
/// record.
pub struct MemorySet {
    pub areas: Vec<MapArea>,
}

impl MemorySet {
    /// An address space with nothing mapped.
    pub fn new() -> (ms: MemorySet)
        ensures
            ms.areas@ == Seq::<MapArea>::empty(),
    {
        MemorySet { areas: Vec::new() }
    }

    /// A copy of `other` for a forked task.
    pub fn from_existed_user(other: &MemorySet) -> (ms: MemorySet)
        ensures
            ms.areas@ == other.areas@,
    {
        let mut areas: Vec<MapArea> = Vec::new();
        let mut i: usize = 0;
        while i < other.areas.len()
            invariant
                i <= other.areas@.len(),
                areas@ == other.areas@.take(i as int),
            decreases other.areas@.len() - i,
        {
            areas.push(other.areas[i]);
            assert(other.areas@.take(i + 1) == other.areas@.take(i as int).push(other.areas@[i as int]));
            i += 1;
        }
        assert(other.areas@.take(i as int) == other.areas@);
        MemorySet { areas }
    }

    /// Whether some mapped area touches the range from `start` up to `end`.
    pub fn overlaps_any(&self, start: usize, end: usize) -> (r: bool)
        ensures
            r == any_overlap(self.areas@, start, end),
    {
        let mut i: usize = 0;
        while i < self.areas.len()
            invariant
                i <= self.areas@.len(),
                forall|k: int| 0 <= k < i ==> !(#[trigger] self.areas@[k]).spec_overlaps(start, end),
            decreases self.areas@.len() - i,
        {
            if self.areas[i].overlaps(start, end) {
                return true;
            }
            i += 1;
        }
        false
    }

    /// The index of the first mapped area equal to `area`, if there is one.
    pub fn find_area(&self, area: MapArea) -> (r: Option<usize>)
        ensures
            r == (if first_index_of(self.areas@, area, self.areas@.len() as int) < self.areas@.len() {
                Some(first_index_of(self.areas@, area, self.areas@.len() as int) as usize)
            } else {
                None
            }),
    {
        let mut i: usize = 0;
        while i < self.areas.len()
            invariant
                i <= self.areas@.len(),
                first_index_of(self.areas@, area, i as int) == i,
            decreases self.areas@.len() - i,
        {
            if self.areas[i] == area {
                proof {
                    lemma_first_index_stable(self.areas@, area, i as int + 1, self.areas@.len() as int);
                }
                return Some(i);
            }
            i += 1;
        }
        None
    }

    /// Maps `len` bytes, rounded up to whole pages, at `start` with the
    /// permission bits `port`, and returns the number of bytes mapped. A
    /// request that [`mmap_ok`] rejects fails with -1 and changes nothing.
    pub fn mmap(&mut self, start: usize, len: usize, port: usize) -> (res: Result<isize, isize>)
        ensures
            mmap_ok(old(self).areas@, start, len, port) ==> res == Ok::<isize, isize>(
                page_round_up(len as int) as isize,
            ) && final(self).areas@ == (if len == 0 {
                old(self).areas@
            } else {
                old(self).areas@.push(
                    MapArea {
                        start,
                        end: (start + page_round_up(len as int)) as usize,
                        perm: port,
                        mmio: false,
                    },
                )
            }),
            !mmap_ok(old(self).areas@, start, len, port) ==> res == Err::<isize, isize>(-1isize)
                && final(self).areas@ == old(self).areas@,
    {
        if start % PAGE_SIZE != 0 || port & !7usize != 0 || port & 7usize == 0 {
            return Err(-1);
        }
        if len > usize::MAX - (PAGE_SIZE - 1) {
            return Err(-1);
        }
        let size = (len + (PAGE_SIZE - 1)) / PAGE_SIZE * PAGE_SIZE;
        if size > isize::MAX as usize || start > usize::MAX - size {
            return Err(-1);
        }
        let end = start + size;
        if self.overlaps_any(start, end) {
            return Err(-1);
        }
        if len > 0 {
            self.areas.push(MapArea { start, end, perm: port, mmio: false });
        }
        Ok(size as isize)
    }

    /// Unmaps the area that a call of `mmap` with the same `start` and `len`
    /// created, and returns the number of bytes unmapped. When no such area
    /// is mapped the call fails with -1 and changes nothing.
    pub fn munmap(&mut self, start: usize, len: usize) -> (res: Result<isize, isize>)
        ensures
            munmap_effect(old(self).areas@, final(self).areas@, start, len, res),
    {
        if len > usize::MAX - (PAGE_SIZE - 1) {
            return Err(-1);
        }
        let size = (len + (PAGE_SIZE - 1)) / PAGE_SIZE * PAGE_SIZE;
        if size > isize::MAX as usize || start > usize::MAX - size {
            return Err(-1);
        }
        let end = start + size;
        let mut i: usize = 0;
        while i < self.areas.len()
            invariant
                i <= self.areas@.len(),
                self.areas@ == old(self).areas@,
                end == start + page_round_up(len as int),
                size == page_round_up(len as int),
                size <= isize::MAX,
                forall|k: int| 0 <= k < i ==> !munmap_target(#[trigger] self.areas@[k], start, len),
            decreases self.areas@.len() - i,
        {
            let area = self.areas[i];
            if !area.mmio && area.start == start && area.end == end {
                assert(munmap_target(old(self).areas@[i as int], start, len));
                self.areas.remove(i);
                return Ok(size as isize);
            }
            i += 1;
        }
        Err(-1)
    }

    /// Maps the device registers from `start` up to `end`. Mapping again an
    /// area that is mapped already, with the same permissions, succeeds and
    /// changes nothing; a range that touches any other mapped area, or an
    /// empty range, fails and changes nothing.
    pub fn mmio_map(&mut self, start: usize, end: usize, perm: usize) -> (res: Result<(), isize>)
        ensures
            res.is_ok() == mmio_map_ok(old(self).areas@, start, end, perm),
            final(self).areas@ == after_mmio_map(old(self).areas@, start, end, perm),
            res.is_err() ==> res == Err::<(), isize>(-1isize) && final(self).areas@ == old(self).areas@,
            res.is_ok() ==> final(self).areas@ == (if old(self).areas@.contains(
                MapArea { start, end, perm, mmio: true },
            ) {
                old(self).areas@
            } else {
                old(self).areas@.push(MapArea { start, end, perm, mmio: true })
            }),
    {
        let area = MapArea { start, end, perm, mmio: true };
        if start >= end {
            return Err(-1);
        }
        match self.find_area(area) {
            Some(i) => {
                proof {
                    lemma_first_index_found(self.areas@, area, self.areas@.len() as int);
                }
                Ok(())
            },
            None => {
                proof {
                    lemma_first_index_found(self.areas@, area, self.areas@.len() as int);
                }
                if self.overlaps_any(start, end) {
                    Err(-1)
                } else {
                    self.areas.push(area);
                    Ok(())
                }
            },
        }
    }

    /// Gives the task's pages back: afterwards nothing is mapped.
    pub fn recycle_data_pages(&mut self)
        ensures
            final(self).areas@ == Seq::<MapArea>::empty(),
    {
        self.areas.clear();
    }

    /// Whether the area from `start` up to `end` is mapped with all the
    /// permission bits of `perm`.
    pub fn is_mapped(&self, start: usize, end: usize, perm: usize) -> (r: bool)
        ensures
            r == (exists|i: int|
                0 <= i < self.areas@.len() && covers(#[trigger] self.areas@[i], start, end, perm)),
    {
        let mut i: usize = 0;
        while i < self.areas.len()
            invariant
                i <= self.areas@.len(),
                forall|k: int| 0 <= k < i ==> !covers(#[trigger] self.areas@[k], start, end, perm),
            decreases self.areas@.len() - i,
        {
            let area = self.areas[i];
            if area.start <= start && end <= area.end && area.perm & perm == perm {
                return true;
            }
            i += 1;
        }
        false
    }
}

/// Whether `area` holds the range from `start` up to `end` with all the
/// permission bits of `perm`.
pub open spec fn covers(area: MapArea, start: usize, end: usize, perm: usize) -> bool {
    area.start <= start && end <= area.end && area.perm & perm == perm
}

/// Whether `area` is what `munmap(start, len)` removes: a memory area that
/// begins at `start` and spans `len` bytes rounded up to whole pages, a
/// length that a signed word can hold.
pub open spec fn munmap_target(area: MapArea, start: usize, len: usize) -> bool {
    &&& !area.mmio
    &&& area.start == start
    &&& area.end == start + page_round_up(len as int)
    &&& page_round_up(len as int) <= isize::MAX
}

/// Whether `munmap(start, len)` turns the areas `before` into `after` and
/// returns `res`: the first area that is its target is gone and its size is
/// returned, or there is no such area, nothing has changed, and -1 is
/// returned.
pub open spec fn munmap_effect(
    before: Seq<MapArea>,
    after: Seq<MapArea>,
    start: usize,
    len: usize,
    res: Result<isize, isize>,
) -> bool {
    match res {
        Ok(size) => {
            &&& size == page_round_up(len as int)
            &&& exists|i: int|
                0 <= i < before.len() && munmap_target(#[trigger] before[i], start, len) && (forall|k: int|
                    0 <= k < i ==> !munmap_target(before[k], start, len)) && after == before.remove(i)
        },
        Err(e) => {
            &&& e == -1
            &&& after == before
            &&& forall|i: int| 0 <= i < before.len() ==> !munmap_target(#[trigger] before[i], start, len)
        },
    }
}

/// Whether the device registers from `start` up to `end` can be mapped into
/// an address space that holds `areas`: the range is not empty, and either
/// exactly this area is mapped already or the range touches nothing mapped.
pub open spec fn mmio_map_ok(areas: Seq<MapArea>, start: usize, end: usize, perm: usize) -> bool {
    start < end && (areas.contains(MapArea { start, end, perm, mmio: true }) || !any_overlap(
        areas,
        start,
        end,
    ))
}

/// The areas of an address space after an attempt to map the device
/// registers from `start` up to `end` into it.
pub open spec fn after_mmio_map(areas: Seq<MapArea>, start: usize, end: usize, perm: usize) -> Seq<MapArea> {
    if mmio_map_ok(areas, start, end, perm) && !areas.contains(MapArea { start, end, perm, mmio: true }) {
        areas.push(MapArea { start, end, perm, mmio: true })
    } else {
        areas
    }
}

/// Once an equal area has been met, looking further does not change the index found.
pub proof fn lemma_first_index_stable(areas: Seq<MapArea>, area: MapArea, n: int, m: int)
    requires
        0 <= n <= m,
        first_index_of(areas, area, n) < n,
    ensures
        first_index_of(areas, area, m) == first_index_of(areas, area, n),
    decreases m - n,
{
    if n < m {
        lemma_first_index_stable(areas, area, n, m - 1);
    }
}

/// The index found is that of an equal area, and there is one exactly when
/// the sequence contains the area.
pub proof fn lemma_first_index_found(areas: Seq<MapArea>, area: MapArea, n: int)
    requires
        0 <= n <= areas.len(),
    ensures
        0 <= first_index_of(areas, area, n) <= n,
        first_index_of(areas, area, n) < n ==> areas[first_index_of(areas, area, n)] == area,
        first_index_of(areas, area, n) == n ==> forall|k: int| 0 <= k < n ==> areas[k] != area,
        n == areas.len() ==> (first_index_of(areas, area, n) < n <==> areas.contains(area)),
    decreases n,
{
    if n > 0 {
        lemma_first_index_found(areas, area, n - 1);
    }
}

} // verus!
