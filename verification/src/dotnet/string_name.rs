//! Interned names: each distinct text is stored once, in an arena of bins of
//! doubling size, and is known by the index it was stored at.

use crate::util::wide::{decode_utf16_lossy, wide_to_string_lossy};
use vstd::prelude::*;
use vstd::string::StringSliceAdditionalSpecFns;
use vstd::utf8::encode_utf8_decode_utf8;

verus! {

/// The most bins a storage can have.
pub const STORAGE_MAX_BINS: usize = 8;

/// The size of the first bin. Each further bin is twice as large as the one
/// before it.
pub const STORAGE_MIN_BIN_SIZE: usize = 128;

/// The most names a storage can hold: the sizes of all its bins together.
pub const STORAGE_MAX_NAMES: usize = 32640;

/// The size of the bin at a place.
pub open spec fn bin_size(bin: int) -> int {
    if bin <= 0 {
        128
    } else if bin == 1 {
        256
    } else if bin == 2 {
        512
    } else if bin == 3 {
        1024
    } else if bin == 4 {
        2048
    } else if bin == 5 {
        4096
    } else if bin == 6 {
        8192
    } else {
        16384
    }
}

/// The index of the first name of a bin: the sizes of the bins before it,
/// together.
pub open spec fn bin_start(bin: int) -> int {
    if bin <= 0 {
        0
    } else if bin == 1 {
        128
    } else if bin == 2 {
        384
    } else if bin == 3 {
        896
    } else if bin == 4 {
        1920
    } else if bin == 5 {
        3968
    } else if bin == 6 {
        8064
    } else if bin == 7 {
        16256
    } else {
        32640
    }
}

/// The bin that holds the name of an index.
pub open spec fn bin_of(index: int) -> int {
    if index < 128 {
        0
    } else if index < 384 {
        1
    } else if index < 896 {
        2
    } else if index < 1920 {
        3
    } else if index < 3968 {
        4
    } else if index < 8064 {
        5
    } else if index < 16256 {
        6
    } else {
        7
    }
}

/// Whether no text stands at two places of a sequence.
pub open spec fn all_distinct(names: Seq<Seq<char>>) -> bool {
    forall|i: int, j: int| 0 <= i < j < names.len() ==> names[i] != names[j]
}

/// The handle of an interned name: the index it is stored at.
#[derive(Clone, Copy, Debug, PartialEq, Eq, Structural)]
pub struct StringName {
    pub index: usize,
}

/// Stores each distinct name once. Names are never removed, so a handle
/// stays good for as long as the storage lives.
#[derive(Debug)]
pub struct StringNameStorage {
    data: Vec<Vec<String>>,
    bins_used: usize,
    capacity: usize,
}

impl View for StringNameStorage {
    type V = Seq<Seq<char>>;

    /// The names, in the order in which they were stored.
    closed spec fn view(&self) -> Seq<Seq<char>> {
        Seq::new(
            self.count() as nat,
            |i: int| self.data@[bin_of(i)]@[i - bin_start(bin_of(i))]@,
        )
    }
}

impl StringNameStorage {
    /// How many names the bins hold: the last bin's fill, after the bins
    /// before it.
    closed spec fn count(&self) -> int {
        if self.data@.len() == 0 {
            0
        } else {
            bin_start(self.data@.len() - 1) + self.data@[self.data@.len() - 1]@.len()
        }
    }

    /// The layout: at most the maximum of bins, each within its size, all
    /// but the last one full, and the capacity that of the bins in use.
    pub closed spec fn layout(&self) -> bool {
        &&& self.data@.len() <= STORAGE_MAX_BINS
        &&& self.bins_used == self.data@.len()
        &&& self.capacity == bin_start(self.data@.len() as int)
        &&& forall|k: int|
            0 <= k < self.data@.len() ==> (#[trigger] self.data@[k])@.len() <= bin_size(k)
        &&& forall|k: int|
            0 <= k < self.data@.len() - 1 ==> (#[trigger] self.data@[k])@.len() == bin_size(k)
    }

    /// The capacity of the bins in use.
    pub closed spec fn spec_capacity(&self) -> int {
        self.capacity as int
    }

    /// The number of bins in use.
    pub closed spec fn spec_bins_used(&self) -> int {
        self.bins_used as int
    }

    /// The number of bins in use once one more name is stored: one more
    /// than now where the bins in use are full, else as many as now.
    pub open spec fn bins_for_one_more(&self) -> int {
        if self@.len() == self.spec_capacity() {
            self.spec_bins_used() + 1
        } else {
            self.spec_bins_used()
        }
    }

    /// Well-formedness: no name is stored twice, the names fit the bins in
    /// use, and the bins are laid out as they should be.
    pub open spec fn wf(&self) -> bool {
        &&& self.layout()
        &&& all_distinct(self@)
        &&& self@.len() <= self.spec_capacity() <= STORAGE_MAX_NAMES
        &&& self.spec_capacity() == bin_start(self.spec_bins_used())
        &&& 0 <= self.spec_bins_used() <= STORAGE_MAX_BINS
    }

    /// A storage without names and without bins.
    pub fn new() -> (storage: StringNameStorage)
        ensures
            storage.wf(),
            storage@ == Seq::<Seq<char>>::empty(),
            storage.spec_capacity() == 0,
            storage.spec_bins_used() == 0,
    {
        let storage = StringNameStorage { data: Vec::new(), bins_used: 0, capacity: 0 };
        assert(storage@ =~= Seq::<Seq<char>>::empty());
        storage
    }

    /// How many names are stored.
    pub fn len(&self) -> (len: usize)
        requires
            self.wf(),
        ensures
            len == self@.len(),
    {
        let bins = self.data.len();
        if bins == 0 {
            0
        } else {
            Self::start_of(bins - 1) + self.data[bins - 1].len()
        }
    }

    /// How many names the bins in use can hold.
    pub fn capacity(&self) -> (capacity: usize)
        ensures
            capacity == self.spec_capacity(),
    {
        self.capacity
    }

    /// How many bins are in use.
    pub fn bins_used(&self) -> (bins: usize)
        ensures
            bins == self.spec_bins_used(),
    {
        self.bins_used
    }

    /// The size of a bin, by doubling from the first.
    fn size_of(bin: usize) -> (size: usize)
        requires
            bin < STORAGE_MAX_BINS,
        ensures
            size == bin_size(bin as int),
    {
        let mut size: usize = STORAGE_MIN_BIN_SIZE;
        let mut k: usize = 0;
        while k < bin
            invariant
                k <= bin < STORAGE_MAX_BINS,
                size == bin_size(k as int),
            decreases bin - k,
        {
            size = size * 2;
            k += 1;
        }
        size
    }

    /// The index of the first name of a bin.
    fn start_of(bin: usize) -> (start: usize)
        requires
            bin <= STORAGE_MAX_BINS,
        ensures
            start == bin_start(bin as int),
    {
        let mut start: usize = 0;
        let mut k: usize = 0;
        while k < bin
            invariant
                k <= bin <= STORAGE_MAX_BINS,
                start == bin_start(k as int),
            decreases bin - k,
        {
            start = start + Self::size_of(k);
            k += 1;
        }
        start
    }

    /// The bin of an index and the place of the index within the bin.
    fn locate(index: usize) -> (place: (usize, usize))
        requires
            index < STORAGE_MAX_NAMES,
        ensures
            place.0 == bin_of(index as int),
            place.1 == index - bin_start(bin_of(index as int)),
            place.0 < STORAGE_MAX_BINS,
            place.1 < bin_size(place.0 as int),
    {
        let mut bin: usize = 0;
        let mut start: usize = 0;
        let mut size: usize = STORAGE_MIN_BIN_SIZE;
        while index >= start + size
            invariant
                bin < STORAGE_MAX_BINS,
                start == bin_start(bin as int),
                size == bin_size(bin as int),
                start <= index < STORAGE_MAX_NAMES,
            decreases STORAGE_MAX_BINS - bin,
        {
            start = start + size;
            size = size * 2;
            bin += 1;
        }
        (bin, index - start)
    }

    /// The name that a handle stands for; nothing for a handle that this
    /// storage did not give out.
    pub fn get(&self, name: StringName) -> (text: Option<&str>)
        requires
            self.wf(),
        ensures
            text is Some <==> name.index < self@.len(),
            text is Some ==> text->Some_0@ == self@[name.index as int],
    {
        if name.index < self.len() {
            let (bin, slot) = Self::locate(name.index);
            Some(self.data[bin][slot].as_str())
        } else {
            None
        }
    }

    /// The index at which a text is stored, if it is stored.
    pub fn find(&self, data: &str) -> (found: Option<StringName>)
        requires
            self.wf(),
        ensures
            found is Some <==> self@.contains(data@),
            found is Some ==> found->Some_0.index < self@.len() && self@[found->Some_0.index as int]
                == data@,
    {
        let len = self.len();
        let mut index: usize = 0;
        while index < len
            invariant
                self.wf(),
                len == self@.len(),
                index <= len,
                forall|i: int| 0 <= i < index ==> self@[i] != data@,
            decreases len - index,
        {
            let (bin, slot) = Self::locate(index);
            let stored: &str = self.data[bin][slot].as_str();
            if Self::same_text(stored, data) {
                assert(self@[index as int] == data@);
                return Some(StringName { index });
            }
            index += 1;
        }
        None
    }

    /// Whether two texts are the same: they are when their bytes are.
    fn same_text(a: &str, b: &str) -> (same: bool)
        ensures
            same == (a@ == b@),
    {
        let left = a.as_bytes();
        let right = b.as_bytes();
        proof {
            encode_utf8_decode_utf8(a@);
            encode_utf8_decode_utf8(b@);
        }
        if left.len() != right.len() {
            return false;
        }
        let mut i: usize = 0;
        while i < left.len()
            invariant
                i <= left@.len() == right@.len(),
                left@ == a.spec_bytes(),
                right@ == b.spec_bytes(),
                forall|k: int| 0 <= k < i ==> left@[k] == right@[k],
            decreases left@.len() - i,
        {
            if left[i] != right[i] {
                return false;
            }
            i += 1;
        }
        assert(left@ =~= right@);
        true
    }

    /// Puts a bin into use: the storage can hold as many names more as the
    /// new bin is large.
    fn grow(&mut self)
        requires
            old(self).wf(),
            old(self).spec_bins_used() < STORAGE_MAX_BINS,
            old(self)@.len() == old(self).spec_capacity(),
        ensures
            final(self).wf(),
            final(self)@ == old(self)@,
            final(self).spec_bins_used() == old(self).spec_bins_used() + 1,
            final(self).spec_capacity() == old(self).spec_capacity() + bin_size(
                old(self).spec_bins_used(),
            ),
    {
        let size = Self::size_of(self.bins_used);
        self.data.push(Vec::new());
        self.bins_used = self.bins_used + 1;
        self.capacity = self.capacity + size;
        assert(final(self)@ =~= old(self)@) by {
            assert forall|i: int| 0 <= i < old(self)@.len() implies self@[i] == old(self)@[i] by {
                assert(self.data@[bin_of(i)] == old(self).data@[bin_of(i)]);
            }
        }
    }

    /// Stores a new name behind the others, in a new bin where the bins in
    /// use are full.
    fn store(&mut self, data: &str)
        requires
            old(self).wf(),
            !old(self)@.contains(data@),
            old(self)@.len() < STORAGE_MAX_NAMES,
        ensures
            final(self).wf(),
            final(self)@ == old(self)@.push(data@),
            final(self).spec_bins_used() == old(self).bins_for_one_more(),
    {
        if self.len() == self.capacity {
            self.grow();
        }
        let ghost before = *self;
        let last = self.data.len() - 1;
        let mut bin = self.data.pop().unwrap();
        let ghost fill = bin@.len() as int;
        let owned: String = data.to_owned();
        bin.push(owned);
        self.data.push(bin);
        proof {
            assert(self.data@.len() == before.data@.len());
            assert forall|k: int| 0 <= k < self.data@.len() - 1 implies self.data@[k]
                == before.data@[k] by {}
            assert(self.data@[last as int]@.len() == fill + 1);
            assert(self.data@[last as int]@[fill]@ == data@);
            assert forall|j: int| 0 <= j < fill implies self.data@[last as int]@[j]
                == before.data@[last as int]@[j] by {}
            assert(self@ =~= before@.push(data@)) by {
                assert forall|i: int| 0 <= i < before@.len() implies self@[i] == before@[i] by {
                    if bin_of(i) < last {
                        assert(self.data@[bin_of(i)] == before.data@[bin_of(i)]);
                    }
                }
            }
            assert(all_distinct(self@)) by {
                assert forall|i: int, j: int| 0 <= i < j < self@.len() implies self@[i]
                    != self@[j] by {
                    if j == before@.len() {
                        assert(before@[i] != data@);
                    }
                }
            }
        }
    }

    /// The handle of a name: the one it is stored at, where it is stored
    /// already; else the name is stored behind the others and that index is
    /// its handle. A full storage takes no new name and gives no handle.
    pub fn create_string_name(&mut self, data: &str) -> (name: Option<StringName>)
        requires
            old(self).wf(),
        ensures
            final(self).wf(),
            old(self)@.contains(data@) ==> {
                &&& final(self)@ == old(self)@
                &&& name is Some
                &&& name->Some_0.index < old(self)@.len()
                &&& old(self)@[name->Some_0.index as int] == data@
            },
            !old(self)@.contains(data@) && old(self)@.len() < STORAGE_MAX_NAMES ==> {
                &&& final(self)@ == old(self)@.push(data@)
                &&& name == Some(StringName { index: old(self)@.len() as usize })
                &&& final(self).spec_bins_used() == old(self).bins_for_one_more()
            },
            !old(self)@.contains(data@) && old(self)@.len() >= STORAGE_MAX_NAMES ==> {
                &&& final(self)@ == old(self)@
                &&& name is None
            },
            final(self)@ == old(self)@ ==> final(self).spec_bins_used() == old(self)
                .spec_bins_used(),
    {
        match self.find(data) {
            Some(found) => Some(found),
            None => {
                let index = self.len();
                if index < STORAGE_MAX_NAMES {
                    self.store(data);
                    Some(StringName { index })
                } else {
                    None
                }
            },
        }
    }

    /// Stores a name that is not stored yet, behind the others. Says whether
    /// it did: not for a name that is stored already, and not where the
    /// storage is full.
    pub fn insert(&mut self, data: &str) -> (inserted: bool)
        requires
            old(self).wf(),
        ensures
            final(self).wf(),
            inserted <==> !old(self)@.contains(data@) && old(self)@.len() < STORAGE_MAX_NAMES,
            final(self)@ == if inserted {
                old(self)@.push(data@)
            } else {
                old(self)@
            },
            final(self).spec_bins_used() == if inserted {
                old(self).bins_for_one_more()
            } else {
                old(self).spec_bins_used()
            },
    {
        match self.find(data) {
            Some(_) => false,
            None => {
                if self.len() < STORAGE_MAX_NAMES {
                    self.store(data);
                    true
                } else {
                    false
                }
            },
        }
    }

    /// Stores the name that wide text stands for, decoded with U+FFFD for
    /// what is not well-formed, as `insert` stores a name.
    pub fn insert_wide(&mut self, data: &Vec<u16>) -> (inserted: bool)
        requires
            old(self).wf(),
        ensures
            final(self).wf(),
            inserted <==> !old(self)@.contains(decode_utf16_lossy(data@)) && old(self)@.len()
                < STORAGE_MAX_NAMES,
            final(self)@ == if inserted {
                old(self)@.push(decode_utf16_lossy(data@))
            } else {
                old(self)@
            },
            final(self).spec_bins_used() == if inserted {
                old(self).bins_for_one_more()
            } else {
                old(self).spec_bins_used()
            },
    {
        let text = wide_to_string_lossy(data);
        self.insert(text.as_str())
    }
}

/// Interning: a well-formed storage knows each name by one handle only.
pub proof fn lemma_one_handle_per_name(storage: StringNameStorage, a: StringName, b: StringName)
    requires
        storage.wf(),
        a.index < storage@.len(),
        b.index < storage@.len(),
        storage@[a.index as int] == storage@[b.index as int],
    ensures
        a == b,
{
    if a.index < b.index {
        assert(storage@[a.index as int] != storage@[b.index as int]);
    } else if b.index < a.index {
        assert(storage@[b.index as int] != storage@[a.index as int]);
    }
}

} // verus!
