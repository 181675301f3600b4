//! The second-level translation table: 256 one-word entries, each covering
//! 4 KiB of the megabyte that the table translates.

use crate::attributes::{
    attribute_bits, attributes_of, decode_attributes, lemma_attributes_round_trip,
    DescriptorKind, FieldEncoding, MemoryAttributes,
};
use crate::bits::{field, lemma_bit_constants, lemma_low_masks};
use vstd::prelude::*;

verus! {

/// Number of entries of a page table.
pub const TABLE_ENTRIES: usize = 256;

/// One entry of a page table.
#[derive(Clone, Copy, PartialEq, Eq, Structural, Debug)]
pub enum TableEntry {
    /// No translation: an access faults.
    Invalid,
    /// A 4 KiB page at a 4 KiB-aligned physical address.
    Page { phys_addr: u32, attrs: MemoryAttributes },
}

pub open spec fn table_entry_wf(e: TableEntry) -> bool {
    match e {
        TableEntry::Invalid => true,
        TableEntry::Page { phys_addr, .. } => phys_addr & 0xFFF == 0,
    }
}

/// The descriptor word of an entry: bit 1 set for a small page (bit 0 is
/// its execute-never bit), all zero for an invalid entry.
pub open spec fn table_word(e: TableEntry) -> u32 {
    match e {
        TableEntry::Invalid => 0,
        TableEntry::Page { phys_addr, attrs } => (2u32 | phys_addr) | attribute_bits(
            attrs,
            DescriptorKind::Page,
        ),
    }
}

/// The entry that a descriptor word holds, if it is invalid or a small page.
pub open spec fn table_entry_of(word: u32) -> Option<TableEntry> {
    if word & 3 == 0 {
        Some(TableEntry::Invalid)
    } else if word & 2 == 2 {
        match attributes_of(word, DescriptorKind::Page) {
            Some(attrs) => Some(TableEntry::Page { phys_addr: word & 0xFFFF_F000, attrs }),
            None => None,
        }
    } else {
        None
    }
}

/// An entry reads back unchanged from its descriptor word.
pub proof fn lemma_table_round_trip(e: TableEntry)
    requires
        table_entry_wf(e),
    ensures
        table_entry_of(table_word(e)) == Some(e),
{
    match e {
        TableEntry::Invalid => {
            lemma_bit_constants();
        },
        TableEntry::Page { phys_addr, attrs } => {
            let p = phys_addr;
            let other = 2u32 | p;
            assert(other & 0x7FD == 0) by (bit_vector)
                requires
                    p & 0xFFF == 0,
                    other == 2u32 | p,
            ;
            lemma_attributes_round_trip(attrs, DescriptorKind::Page, other);
            let a = attribute_bits(attrs, DescriptorKind::Page);
            let w = other | a;
            assert(w & 3 != 0 && w & 2 == 2 && w & 0xFFFF_F000 == p) by (bit_vector)
                requires
                    p & 0xFFF == 0,
                    a & !0x7FDu32 == 0,
                    other == 2u32 | p,
                    w == other | a,
            ;
        },
    }
}

/// A 4 KiB page mapping request: virtual and physical addresses, both
/// 4 KiB-aligned, and the attributes of the mapping.
#[derive(Clone, Copy, PartialEq, Eq, Debug)]
pub struct Page {
    virt_addr: usize,
    phys_addr: usize,
    attrs: MemoryAttributes,
}

/// Both addresses are 32-bit addresses aligned to 4 KiB.
pub open spec fn page_aligned(virt_addr: usize, phys_addr: usize) -> bool {
    &&& virt_addr <= 0xFFFF_FFFF
    &&& phys_addr <= 0xFFFF_FFFF
    &&& virt_addr % 0x1000 == 0
    &&& phys_addr % 0x1000 == 0
}

impl Page {
    pub closed spec fn virt(&self) -> usize {
        self.virt_addr
    }

    pub closed spec fn phys(&self) -> usize {
        self.phys_addr
    }

    pub closed spec fn attributes(&self) -> MemoryAttributes {
        self.attrs
    }

    pub open spec fn wf(&self) -> bool {
        page_aligned(self.virt(), self.phys())
    }

    /// The table index that the page occupies: its 4 KiB slot within its
    /// megabyte.
    pub open spec fn index(&self) -> int {
        (self.virt() as int / 0x1000) % 256
    }

    /// The entry that mapping the page writes.
    pub open spec fn entry(&self) -> TableEntry {
        TableEntry::Page { phys_addr: self.phys() as u32, attrs: self.attributes() }
    }

    /// A page request. Both addresses must be 4 KiB-aligned.
    pub fn new(virt_addr: usize, phys_addr: usize, attrs: MemoryAttributes) -> (r: Self)
        requires
            page_aligned(virt_addr, phys_addr),
        ensures
            r.virt() == virt_addr,
            r.phys() == phys_addr,
            r.attributes() == attrs,
            r.wf(),
    {
        Page { virt_addr, phys_addr, attrs }
    }

    /// A page request, or `None` where an address is not a 4 KiB-aligned
    /// 32-bit address.
    pub fn try_new(virt_addr: usize, phys_addr: usize, attrs: MemoryAttributes) -> (r: Option<
        Self,
    >)
        ensures
            r is None <==> !page_aligned(virt_addr, phys_addr),
            r matches Some(p) ==> p.virt() == virt_addr && p.phys() == phys_addr && p.attributes()
                == attrs && p.wf(),
    {
        if virt_addr <= 0xFFFF_FFFF && phys_addr <= 0xFFFF_FFFF && virt_addr % 0x1000 == 0
            && phys_addr % 0x1000 == 0 {
            Some(Page::new(virt_addr, phys_addr, attrs))
        } else {
            None
        }
    }

    pub fn virt_addr(&self) -> (r: usize)
        ensures
            r == self.virt(),
    {
        self.virt_addr
    }

    pub fn phys_addr(&self) -> (r: usize)
        ensures
            r == self.phys(),
    {
        self.phys_addr
    }

    pub fn attrs(&self) -> (r: MemoryAttributes)
        ensures
            r == self.attributes(),
    {
        self.attrs
    }
}

/// A second-level translation table for the megabyte at `virt_addr`.
pub struct PageTable {
    words: Vec<u32>,
    virt_addr: usize,
    entries: Ghost<Seq<TableEntry>>,
}

impl View for PageTable {
    type V = Seq<TableEntry>;

    closed spec fn view(&self) -> Seq<TableEntry> {
        self.entries@
    }
}

impl PageTable {
    pub closed spec fn virt(&self) -> usize {
        self.virt_addr
    }

    /// The megabyte of the page directory that the table translates.
    pub open spec fn index(&self) -> int {
        self.virt() as int / 0x10_0000
    }

    pub closed spec fn wf(&self) -> bool {
        &&& self.words@.len() == TABLE_ENTRIES
        &&& self.entries@.len() == TABLE_ENTRIES
        &&& self.virt_addr <= 0xFFFF_FFFF
        &&& self.virt_addr % 0x10_0000 == 0
        &&& forall|i: int|
            0 <= i < TABLE_ENTRIES ==> #[trigger] table_entry_wf(self.entries@[i])
                && self.words@[i] == table_word(self.entries@[i])
    }

    /// An empty table for the megabyte at `virt_addr`, which must be a
    /// 1 MiB-aligned 32-bit address.
    pub fn new(virt_addr: usize) -> (r: Self)
        requires
            virt_addr <= 0xFFFF_FFFF,
            virt_addr % 0x10_0000 == 0,
        ensures
            r.wf(),
            r.virt() == virt_addr,
            r@ == Seq::new(TABLE_ENTRIES as nat, |i: int| TableEntry::Invalid),
    {
        let mut words: Vec<u32> = Vec::new();
        let mut i: usize = 0;
        while i < TABLE_ENTRIES
            invariant
                i <= TABLE_ENTRIES,
                words@.len() == i,
                forall|j: int| 0 <= j < i ==> words@[j] == 0,
            decreases TABLE_ENTRIES - i,
        {
            words.push(0);
            i = i + 1;
        }
        let r = PageTable {
            words,
            virt_addr,
            entries: Ghost(Seq::new(TABLE_ENTRIES as nat, |i: int| TableEntry::Invalid)),
        };
        assert forall|i: int| 0 <= i < TABLE_ENTRIES implies #[trigger] table_entry_wf(
            r.entries@[i],
        ) && r.words@[i] == table_word(r.entries@[i]) by {}
        r
    }

    pub fn virt_addr(&self) -> (r: usize)
        requires
            self.wf(),
        ensures
            r == self.virt(),
            r <= 0xFFFF_FFFF,
            r % 0x10_0000 == 0,
    {
        self.virt_addr
    }

    fn write(&mut self, index: usize, e: TableEntry, word: u32)
        requires
            old(self).wf(),
            index < TABLE_ENTRIES,
            table_entry_wf(e),
            word == table_word(e),
        ensures
            final(self).wf(),
            final(self).virt() == old(self).virt(),
            final(self)@ == old(self)@.update(index as int, e),
    {
        self.words.set(index, word);
        self.entries = Ghost(self.entries@.update(index as int, e));
        assert forall|i: int| 0 <= i < TABLE_ENTRIES implies #[trigger] table_entry_wf(
            self.entries@[i],
        ) && self.words@[i] == table_word(self.entries@[i]) by {}
    }

    /// Maps a page: the entry of its 4 KiB slot becomes a page entry for its
    /// physical address and attributes. The change takes effect after an
    /// instruction synchronization barrier; translations cached from an
    /// earlier mapping are not invalidated.
    pub fn map_page(&mut self, page: &Page)
        requires
            old(self).wf(),
            page.wf(),
        ensures
            final(self).wf(),
            final(self).virt() == old(self).virt(),
            final(self)@ == old(self)@.update(page.index(), page.entry()),
    {
        let index = page_index(page.virt_addr);
        let phys = page.phys_addr as u32;
        proof {
            lemma_low_masks();
        }
        assert(phys & 0xFFF == 0 && phys >> 12 <= 0xFFFFF) by (bit_vector)
            requires
                phys % 0x1000 == 0,
        ;
        let base = field(20, 12, phys >> 12);
        let tag = field(1, 1, 1);
        let attrs = page.attrs.encode(DescriptorKind::Page);
        let word = tag.value | base.value | attrs.value;
        assert(word == table_word(page.entry())) by {
            let (b, p) = (base.value, phys);
            assert(b == p && (1u32 << 1u32) == 2u32) by (bit_vector)
                requires
                    b == (p >> 12u32) << 12u32,
                    p & 0xFFF == 0,
            ;
        }
        self.write(index, TableEntry::Page { phys_addr: phys, attrs: page.attrs }, word);
    }

    /// Unmaps a page: the entry of its 4 KiB slot becomes invalid.
    pub fn unmap_page(&mut self, page: Page)
        requires
            old(self).wf(),
            page.wf(),
        ensures
            final(self).wf(),
            final(self).virt() == old(self).virt(),
            final(self)@ == old(self)@.update(page.index(), TableEntry::Invalid),
    {
        let index = page_index(page.virt_addr);
        self.write(index, TableEntry::Invalid, 0);
    }

    /// Reads entry `index` back out of its descriptor word.
    pub fn entry(&self, index: usize) -> (r: TableEntry)
        requires
            self.wf(),
            index < TABLE_ENTRIES,
        ensures
            r == self@[index as int],
    {
        let word = self.words[index];
        proof {
            assert(table_entry_wf(self.entries@[index as int]));
            lemma_table_round_trip(self.entries@[index as int]);
        }
        match decode_table_word(word) {
            Some(e) => e,
            None => TableEntry::Invalid,
        }
    }

    /// The descriptor words, in the order the hardware reads them.
    pub fn words(&self) -> (r: &Vec<u32>)
        requires
            self.wf(),
        ensures
            r@.len() == TABLE_ENTRIES,
            forall|i: int| 0 <= i < TABLE_ENTRIES ==> r@[i] == table_word(#[trigger] self@[i]),
    {
        assert forall|i: int| 0 <= i < TABLE_ENTRIES implies self.words@[i] == table_word(
            #[trigger] self@[i],
        ) by {
            assert(table_entry_wf(self.entries@[i]));
        }
        &self.words
    }
}

/// Reads the entry that a descriptor word holds.
pub fn decode_table_word(word: u32) -> (r: Option<TableEntry>)
    ensures
        r == table_entry_of(word),
{
    if word & 3 == 0 {
        Some(TableEntry::Invalid)
    } else if word & 2 == 2 {
        match decode_attributes(word, DescriptorKind::Page) {
            Some(attrs) => Some(TableEntry::Page { phys_addr: word & 0xFFFF_F000, attrs }),
            None => None,
        }
    } else {
        None
    }
}

/// The slot of a 32-bit virtual address within its megabyte.
fn page_index(virt_addr: usize) -> (r: usize)
    requires
        virt_addr <= 0xFFFF_FFFF,
    ensures
        r == (virt_addr as int / 0x1000) % 256,
        r < TABLE_ENTRIES,
{
    (virt_addr / 0x1000) % 256
}

} // verus!
