//! The first-level translation table: 4096 one-word entries, entry `i`
//! covering virtual addresses `[i MiB, (i + 1) MiB)`.

use crate::attributes::{
    attribute_bits, attributes_of, decode_attributes,
    lemma_attributes_round_trip, DescriptorKind, FieldEncoding, MemoryAttributes,
};
use crate::bits::{field, lemma_bit_constants, lemma_low_masks};
use crate::level2::PageTable;
use vstd::prelude::*;

verus! {

/// Number of entries of a page directory.
pub const DIRECTORY_ENTRIES: usize = 4096;

/// One entry of a page directory.
#[derive(Clone, Copy, PartialEq, Eq, Structural, Debug)]
pub enum DirectoryEntry {
    /// No translation: an access faults.
    Invalid,
    /// A 1 MiB section at a 1 MiB-aligned physical address.
    Section { phys_addr: u32, attrs: MemoryAttributes },
    /// A reference to a second-level table at a 1 KiB-aligned physical address.
    PageTable { table_addr: u32 },
}

/// The entry holds addresses aligned as its format needs.
pub open spec fn entry_wf(e: DirectoryEntry) -> bool {
    match e {
        DirectoryEntry::Invalid => true,
        DirectoryEntry::Section { phys_addr, .. } => phys_addr & 0xFFFFF == 0,
        DirectoryEntry::PageTable { table_addr } => table_addr & 0x3FF == 0,
    }
}

/// The descriptor word of an entry: tag `0b10` for a section, `0b01` for a
/// page table reference, all zero for an invalid entry.
pub open spec fn directory_word(e: DirectoryEntry) -> u32 {
    match e {
        DirectoryEntry::Invalid => 0,
        DirectoryEntry::Section { phys_addr, attrs } => (2u32 | phys_addr) | attribute_bits(
            attrs,
            DescriptorKind::Section,
        ),
        DirectoryEntry::PageTable { table_addr } => 1u32 | table_addr,
    }
}

/// The entry that a descriptor word holds, if it is one of the three kinds.
pub open spec fn directory_entry_of(word: u32) -> Option<DirectoryEntry> {
    let tag = word & 3;
    if tag == 0 {
        Some(DirectoryEntry::Invalid)
    } else if tag == 2 {
        match attributes_of(word, DescriptorKind::Section) {
            Some(attrs) => Some(DirectoryEntry::Section { phys_addr: word & 0xFFF0_0000, attrs }),
            None => None,
        }
    } else if tag == 1 {
        Some(DirectoryEntry::PageTable { table_addr: word & 0xFFFF_FC00 })
    } else {
        None
    }
}

/// An entry reads back unchanged from its descriptor word.
pub proof fn lemma_directory_round_trip(e: DirectoryEntry)
    requires
        entry_wf(e),
    ensures
        directory_entry_of(directory_word(e)) == Some(e),
{
    match e {
        DirectoryEntry::Invalid => {
            lemma_bit_constants();
        },
        DirectoryEntry::Section { phys_addr, attrs } => {
            let p = phys_addr;
            let other = 2u32 | p;
            assert(other & 0x1FC1C == 0) by (bit_vector)
                requires
                    p & 0xFFFFF == 0,
                    other == 2u32 | p,
            ;
            lemma_attributes_round_trip(attrs, DescriptorKind::Section, other);
            let a = attribute_bits(attrs, DescriptorKind::Section);
            let w = other | a;
            assert(w & 3 == 2 && w & 0xFFF0_0000 == p) by (bit_vector)
                requires
                    p & 0xFFFFF == 0,
                    a & !0x1FC1Cu32 == 0,
                    other == 2u32 | p,
                    w == other | a,
            ;
        },
        DirectoryEntry::PageTable { table_addr } => {
            let t = table_addr;
            assert((1u32 | t) & 3 == 1 && (1u32 | t) & 0xFFFF_FC00 == t) by (bit_vector)
                requires
                    t & 0x3FF == 0,
            ;
        },
    }
}

/// A 1 MiB section mapping request: virtual and physical addresses, both
/// 1 MiB-aligned, and the attributes of the mapping.
#[derive(Clone, Copy, PartialEq, Eq, Debug)]
pub struct Section {
    virt_addr: usize,
    phys_addr: usize,
    attrs: MemoryAttributes,
}

/// Both addresses are 32-bit addresses aligned to 1 MiB.
pub open spec fn section_aligned(virt_addr: usize, phys_addr: usize) -> bool {
    &&& virt_addr <= 0xFFFF_FFFF
    &&& phys_addr <= 0xFFFF_FFFF
    &&& virt_addr % 0x10_0000 == 0
    &&& phys_addr % 0x10_0000 == 0
}

impl Section {
    pub closed spec fn virt(&self) -> usize {
        self.virt_addr
    }

    pub closed spec fn phys(&self) -> usize {
        self.phys_addr
    }

    pub closed spec fn attributes(&self) -> MemoryAttributes {
        self.attrs
    }

    pub open spec fn wf(&self) -> bool {
        section_aligned(self.virt(), self.phys())
    }

    /// The directory index that the section occupies.
    pub open spec fn index(&self) -> int {
        self.virt() as int / 0x10_0000
    }

    /// The entry that mapping the section writes.
    pub open spec fn entry(&self) -> DirectoryEntry {
        DirectoryEntry::Section { phys_addr: self.phys() as u32, attrs: self.attributes() }
    }

    /// A section request. Both addresses must be 1 MiB-aligned.
    pub fn new(virt_addr: usize, phys_addr: usize, attrs: MemoryAttributes) -> (r: Self)
        requires
            section_aligned(virt_addr, phys_addr),
        ensures
            r.virt() == virt_addr,
            r.phys() == phys_addr,
            r.attributes() == attrs,
            r.wf(),
    {
        Section { virt_addr, phys_addr, attrs }
    }

    /// A section request, or `None` where an address is not a 1 MiB-aligned
    /// 32-bit address. Nothing is built, and no table is touched, on a
    /// misaligned pair.
    pub fn try_new(virt_addr: usize, phys_addr: usize, attrs: MemoryAttributes) -> (r: Option<
        Self,
    >)
        ensures
            r is None <==> !section_aligned(virt_addr, phys_addr),
            r matches Some(s) ==> s.virt() == virt_addr && s.phys() == phys_addr && s.attributes()
                == attrs && s.wf(),
    {
        if virt_addr <= 0xFFFF_FFFF && phys_addr <= 0xFFFF_FFFF && virt_addr % 0x10_0000 == 0
            && phys_addr % 0x10_0000 == 0 {
            Some(Section::new(virt_addr, phys_addr, attrs))
        } else {
            None
        }
    }

    pub fn virt_addr(&self) -> (r: usize)
        ensures
            r == self.virt(),
    {
        self.virt_addr
    }

    pub fn phys_addr(&self) -> (r: usize)
        ensures
            r == self.phys(),
    {
        self.phys_addr
    }

    pub fn attrs(&self) -> (r: MemoryAttributes)
        ensures
            r == self.attributes(),
    {
        self.attrs
    }
}

/// The first-level translation table. The hardware reads the raw words;
/// the view is the entry that each of them holds.
pub struct PageDirectory {
    words: Vec<u32>,
    entries: Ghost<Seq<DirectoryEntry>>,
}

impl View for PageDirectory {
    type V = Seq<DirectoryEntry>;

    closed spec fn view(&self) -> Seq<DirectoryEntry> {
        self.entries@
    }
}

impl PageDirectory {
    /// Every word holds the encoding of the entry in the view.
    pub closed spec fn wf(&self) -> bool {
        &&& self.words@.len() == DIRECTORY_ENTRIES
        &&& self.entries@.len() == DIRECTORY_ENTRIES
        &&& forall|i: int|
            0 <= i < DIRECTORY_ENTRIES ==> #[trigger] entry_wf(self.entries@[i])
                && self.words@[i] == directory_word(self.entries@[i])
    }

    /// A directory whose entries are all invalid.
    pub fn new() -> (r: Self)
        ensures
            r.wf(),
            r@ == Seq::new(DIRECTORY_ENTRIES as nat, |i: int| DirectoryEntry::Invalid),
    {
        let mut words: Vec<u32> = Vec::new();
        let mut i: usize = 0;
        while i < DIRECTORY_ENTRIES
            invariant
                i <= DIRECTORY_ENTRIES,
                words@.len() == i,
                forall|j: int| 0 <= j < i ==> words@[j] == 0,
            decreases DIRECTORY_ENTRIES - i,
        {
            words.push(0);
            i = i + 1;
        }
        let r = PageDirectory {
            words,
            entries: Ghost(Seq::new(DIRECTORY_ENTRIES as nat, |i: int| DirectoryEntry::Invalid)),
        };
        assert forall|i: int| 0 <= i < DIRECTORY_ENTRIES implies #[trigger] entry_wf(
            r.entries@[i],
        ) && r.words@[i] == directory_word(r.entries@[i]) by {}
        r
    }

    fn write(&mut self, index: usize, e: DirectoryEntry, word: u32)
        requires
            old(self).wf(),
            index < DIRECTORY_ENTRIES,
            entry_wf(e),
            word == directory_word(e),
        ensures
            final(self).wf(),
            final(self)@ == old(self)@.update(index as int, e),
    {
        self.words.set(index, word);
        self.entries = Ghost(self.entries@.update(index as int, e));
        assert forall|i: int| 0 <= i < DIRECTORY_ENTRIES implies #[trigger] entry_wf(
            self.entries@[i],
        ) && self.words@[i] == directory_word(self.entries@[i]) by {}
    }

    /// Maps a section: the entry of its virtual megabyte becomes a section
    /// entry for its physical address and attributes. The change takes
    /// effect after an instruction synchronization barrier; translations
    /// cached from an earlier mapping are not invalidated.
    pub fn map_section(&mut self, section: &Section)
        requires
            old(self).wf(),
            section.wf(),
        ensures
            final(self).wf(),
            final(self)@ == old(self)@.update(section.index(), section.entry()),
    {
        let index = section_index(section.virt_addr);
        let phys = section.phys_addr as u32;
        proof {
            lemma_low_masks();
        }
        assert(phys & 0xFFFFF == 0 && phys >> 20 <= 0xFFF) by (bit_vector)
            requires
                phys % 0x10_0000 == 0,
        ;
        let base = field(12, 20, phys >> 20);
        let tag = field(2, 0, 2);
        let attrs = section.attrs.encode(DescriptorKind::Section);
        let word = tag.value | base.value | attrs.value;
        assert(word == directory_word(section.entry())) by {
            let (b, p) = (base.value, phys);
            assert(b == p && (2u32 << 0u32) == 2u32) by (bit_vector)
                requires
                    b == (p >> 20u32) << 20u32,
                    p & 0xFFFFF == 0,
            ;
        }
        self.write(index, DirectoryEntry::Section { phys_addr: phys, attrs: section.attrs }, word);
    }

    /// Unmaps a section: the entry of its virtual megabyte becomes invalid.
    pub fn unmap_section(&mut self, section: Section)
        requires
            old(self).wf(),
            section.wf(),
        ensures
            final(self).wf(),
            final(self)@ == old(self)@.update(section.index(), DirectoryEntry::Invalid),
    {
        let index = section_index(section.virt_addr);
        self.write(index, DirectoryEntry::Invalid, 0);
    }

    /// Points the entry of the table's virtual megabyte at the table, whose
    /// entries lie at the 1 KiB-aligned physical address `table_addr`.
    pub fn map_page_table(&mut self, pt: &PageTable, table_addr: u32)
        requires
            old(self).wf(),
            pt.wf(),
            table_addr & 0x3FF == 0,
        ensures
            final(self).wf(),
            final(self)@ == old(self)@.update(
                pt.index(),
                DirectoryEntry::PageTable { table_addr },
            ),
    {
        let index = section_index(pt.virt_addr());
        proof {
            lemma_low_masks();
        }
        let tag = field(2, 0, 1);
        assert(table_addr >> 10 <= 0x3FFFFF) by (bit_vector);
        let base = field(22, 10, table_addr >> 10);
        let word = tag.value | base.value;
        let t = table_addr;
        assert(word == 1u32 | t) by {
            let b = base.value;
            assert(b == t && (1u32 << 0u32) == 1u32) by (bit_vector)
                requires
                    b == (t >> 10u32) << 10u32,
                    t & 0x3FF == 0,
            ;
        }
        self.write(index, DirectoryEntry::PageTable { table_addr }, word);
    }

    /// Invalidates the entry of the table's virtual megabyte.
    pub fn unmap_page_table(&mut self, pt: PageTable)
        requires
            old(self).wf(),
            pt.wf(),
        ensures
            final(self).wf(),
            final(self)@ == old(self)@.update(pt.index(), DirectoryEntry::Invalid),
    {
        let index = section_index(pt.virt_addr());
        self.write(index, DirectoryEntry::Invalid, 0);
    }

    /// Reads entry `index` back out of its descriptor word.
    pub fn entry(&self, index: usize) -> (r: DirectoryEntry)
        requires
            self.wf(),
            index < DIRECTORY_ENTRIES,
        ensures
            r == self@[index as int],
    {
        let word = self.words[index];
        proof {
            assert(entry_wf(self.entries@[index as int]));
            lemma_directory_round_trip(self.entries@[index as int]);
        }
        match decode_directory_word(word) {
            Some(e) => e,
            None => DirectoryEntry::Invalid,
        }
    }

    /// The descriptor words, in the order the hardware reads them.
    pub fn words(&self) -> (r: &Vec<u32>)
        requires
            self.wf(),
        ensures
            r@.len() == DIRECTORY_ENTRIES,
            forall|i: int| 0 <= i < DIRECTORY_ENTRIES ==> r@[i] == directory_word(#[trigger] self@[i]),
    {
        assert forall|i: int| 0 <= i < DIRECTORY_ENTRIES implies self.words@[i] == directory_word(
            #[trigger] self@[i],
        ) by {
            assert(entry_wf(self.entries@[i]));
        }
        &self.words
    }
}

impl Default for PageDirectory {
    fn default() -> (r: Self)
        ensures
            r.wf(),
            r@ == Seq::new(DIRECTORY_ENTRIES as nat, |i: int| DirectoryEntry::Invalid),
    {
        PageDirectory::new()
    }
}

/// Reads the entry that a descriptor word holds.
pub fn decode_directory_word(word: u32) -> (r: Option<DirectoryEntry>)
    ensures
        r == directory_entry_of(word),
{
    let tag = word & 3;
    if tag == 0 {
        Some(DirectoryEntry::Invalid)
    } else if tag == 2 {
        match decode_attributes(word, DescriptorKind::Section) {
            Some(attrs) => Some(DirectoryEntry::Section { phys_addr: word & 0xFFF0_0000, attrs }),
            None => None,
        }
    } else if tag == 1 {
        Some(DirectoryEntry::PageTable { table_addr: word & 0xFFFF_FC00 })
    } else {
        None
    }
}

/// The directory index of a 32-bit virtual address: its megabyte.
fn section_index(virt_addr: usize) -> (r: usize)
    requires
        virt_addr <= 0xFFFF_FFFF,
    ensures
        r == virt_addr as int / 0x10_0000,
        r < DIRECTORY_ENTRIES,
{
    virt_addr / 0x10_0000
}

} // verus!

verus! {

/// Mapping a section and reading its entry back yields a section entry
/// (descriptor tag `0b10`) with the request's physical base and attributes.
pub proof fn lemma_map_then_read_back(before: PageDirectory, after: PageDirectory, s: Section)
    requires
        before.wf(),
        s.wf(),
        after.wf(),
        after@ == before@.update(s.index(), s.entry()),
    ensures
        0 <= s.index() < DIRECTORY_ENTRIES,
        after@[s.index()] == (DirectoryEntry::Section {
            phys_addr: s.phys() as u32,
            attrs: s.attributes(),
        }),
        directory_word(after@[s.index()]) & 3 == 2,
        directory_entry_of(directory_word(after@[s.index()])) == Some(after@[s.index()]),
{
    let p = s.phys() as u32;
    assert(p & 0xFFFFF == 0 && (2u32 | p) & 0x1FC1C == 0) by (bit_vector)
        requires
            p % 0x10_0000 == 0,
    ;
    lemma_directory_round_trip(s.entry());
    let a = attribute_bits(s.attributes(), DescriptorKind::Section);
    lemma_attributes_round_trip(s.attributes(), DescriptorKind::Section, 2u32 | p);
    assert(((2u32 | p) | a) & 3 == 2) by (bit_vector)
        requires
            a & !0x1FC1Cu32 == 0,
            p & 0xFFFFF == 0,
    ;
}

/// Unmapping a section leaves its entry invalid, an all-zero word.
pub proof fn lemma_unmap_then_read_back(before: PageDirectory, after: PageDirectory, s: Section)
    requires
        before.wf(),
        s.wf(),
        after.wf(),
        after@ == before@.update(s.index(), DirectoryEntry::Invalid),
    ensures
        after@[s.index()] == DirectoryEntry::Invalid,
        directory_word(after@[s.index()]) == 0,
{
}

/// Mapping a section again after unmapping it gives the same directory as
/// the first mapping did; and where its entry was invalid before the first
/// mapping, unmapping restores the directory as it was.
pub proof fn lemma_remap_after_unmap(
    d0: PageDirectory,
    d1: PageDirectory,
    d2: PageDirectory,
    d3: PageDirectory,
    s: Section,
)
    requires
        d0.wf(),
        s.wf(),
        d1@ == d0@.update(s.index(), s.entry()),
        d2@ == d1@.update(s.index(), DirectoryEntry::Invalid),
        d3@ == d2@.update(s.index(), s.entry()),
    ensures
        d3@ == d1@,
        d0@[s.index()] == DirectoryEntry::Invalid ==> d2@ == d0@,
{
    assert(d3@ =~= d1@);
    if d0@[s.index()] == DirectoryEntry::Invalid {
        assert(d2@ =~= d0@);
    }
}

} // verus!
