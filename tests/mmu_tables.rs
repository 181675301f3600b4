use armv7a::attributes::{
    decode_attributes, CachePolicy, DescriptorKind, ExecutePolicy, FieldEncoding, MemoryAttributes,
    MemoryType, PrivilegeLevel, ReadWritePolicy, SharePolicy,
};
use armv7a::level1::{decode_directory_word, DirectoryEntry, PageDirectory, Section};
use armv7a::level2::{decode_table_word, Page, PageTable, TableEntry};
use armv7a::mmu::MMU;

fn normal_rwx() -> MemoryAttributes {
    MemoryAttributes::normal().read_writeable().executeable()
}

#[test]
fn defaults_are_read_only_never_execute_level_1() {
    for a in [
        MemoryAttributes::device(),
        MemoryAttributes::strongly_ordered(),
        MemoryAttributes::normal(),
    ] {
        assert_eq!(a.access.read_write, ReadWritePolicy::ReadOnly);
        assert_eq!(a.access.execute, ExecutePolicy::ExecuteNever);
        assert_eq!(a.access.privilege, PrivilegeLevel::PrivilegeLevel1);
    }
}

#[test]
fn cache_policy_builders_change_only_normal_memory() {
    let n = MemoryAttributes::normal()
        .inner(CachePolicy::WriteBackWriteAllocate)
        .outer(CachePolicy::WriteThroughNoWriteAllocate)
        .shareable();
    assert_eq!(
        n.typ,
        MemoryType::Normal {
            inner: CachePolicy::WriteBackWriteAllocate,
            outer: CachePolicy::WriteThroughNoWriteAllocate,
            share: SharePolicy::Shareable,
        }
    );
    assert_eq!(
        n.non_shareable().typ,
        MemoryType::Normal {
            inner: CachePolicy::WriteBackWriteAllocate,
            outer: CachePolicy::WriteThroughNoWriteAllocate,
            share: SharePolicy::NonShareable,
        }
    );
    let d = MemoryAttributes::device().inner(CachePolicy::WriteBackWriteAllocate).shareable();
    assert_eq!(d, MemoryAttributes::device());
}

#[test]
fn access_builders() {
    let a = MemoryAttributes::device()
        .read_writeable()
        .executeable()
        .privilege_level_0();
    assert_eq!(a.access.read_write, ReadWritePolicy::ReadWrite);
    assert_eq!(a.access.execute, ExecutePolicy::Executeable);
    assert_eq!(a.access.privilege, PrivilegeLevel::PrivilegeLevel0);
    let b = a.read_only().execute_never().privilege_level_1();
    assert_eq!(b, MemoryAttributes::device());
}

#[test]
fn section_encodings() {
    assert_eq!(normal_rwx().encode(DescriptorKind::Section).value, 0x4400);
    assert_eq!(MemoryAttributes::device().encode(DescriptorKind::Section).value, 0x8414);
    assert_eq!(
        MemoryAttributes::strongly_ordered().encode(DescriptorKind::Section).value,
        0x8410
    );
}

#[test]
fn page_encoding() {
    let a = MemoryAttributes::normal()
        .inner(CachePolicy::WriteBackWriteAllocate)
        .outer(CachePolicy::WriteBackWriteAllocate)
        .shareable()
        .read_writeable()
        .executeable()
        .privilege_level_0();
    assert_eq!(a.encode(DescriptorKind::Page).value, 0x574);
    assert_eq!(decode_attributes(0x8000_1576, DescriptorKind::Page), Some(a));
}

#[test]
fn map_section_then_read_back() {
    let mut pd = PageDirectory::new();
    let s = Section::new(0xE000_0000, 0x0010_0000, normal_rwx());
    pd.map_section(&s);
    assert_eq!(pd.words()[0xE00], 0x0010_4402);
    assert_eq!(
        pd.entry(0xE00),
        DirectoryEntry::Section { phys_addr: 0x0010_0000, attrs: normal_rwx() }
    );
    assert_eq!(pd.entry(0xE01), DirectoryEntry::Invalid);
    assert_eq!(s.virt_addr(), 0xE000_0000);
    assert_eq!(s.phys_addr(), 0x0010_0000);
    assert_eq!(s.attrs(), normal_rwx());
}

#[test]
fn device_section_word() {
    let mut pd = PageDirectory::new();
    pd.map_section(&Section::new(0x4000_0000, 0x4000_0000, MemoryAttributes::device()));
    assert_eq!(pd.words()[0x400], 0x4000_8416);
    assert_eq!(
        decode_directory_word(0x4000_8416),
        Some(DirectoryEntry::Section { phys_addr: 0x4000_0000, attrs: MemoryAttributes::device() })
    );
}

#[test]
fn misaligned_section_is_refused() {
    assert!(Section::try_new(0x0008_0000, 0, normal_rwx()).is_none());
    assert!(Section::try_new(0, 0x0000_1000, normal_rwx()).is_none());
    assert!(Section::try_new(0x1_0000_0000, 0, normal_rwx()).is_none());
    assert!(Section::try_new(0x0010_0000, 0x0020_0000, normal_rwx()).is_some());
}

#[test]
fn unmap_then_remap_section() {
    let mut first = PageDirectory::new();
    let s = Section::new(0x0030_0000, 0x8000_0000, normal_rwx());
    first.map_section(&s);
    let mut pd = PageDirectory::new();
    pd.map_section(&s);
    pd.unmap_section(s);
    assert_eq!(pd.entry(3), DirectoryEntry::Invalid);
    assert_eq!(pd.words()[3], 0);
    assert_eq!(pd.words(), PageDirectory::new().words());
    pd.map_section(&s);
    assert_eq!(pd.words(), first.words());
}

#[test]
fn page_table_reference() {
    let pt = PageTable::new(0x0050_0000);
    let mut pd = PageDirectory::new();
    pd.map_page_table(&pt, 0x0012_3400);
    assert_eq!(pd.words()[5], 0x0012_3401);
    assert_eq!(pd.entry(5), DirectoryEntry::PageTable { table_addr: 0x0012_3400 });
    pd.unmap_page_table(pt);
    assert_eq!(pd.entry(5), DirectoryEntry::Invalid);
}

#[test]
fn map_page_then_read_back() {
    let a = MemoryAttributes::normal()
        .inner(CachePolicy::WriteBackWriteAllocate)
        .outer(CachePolicy::WriteBackWriteAllocate)
        .shareable()
        .read_writeable()
        .executeable()
        .privilege_level_0();
    let mut pt = PageTable::new(0x0050_0000);
    let p = Page::new(0x0050_3000, 0x8000_1000, a);
    pt.map_page(&p);
    assert_eq!(pt.words()[3], 0x8000_1576);
    assert_eq!(pt.entry(3), TableEntry::Page { phys_addr: 0x8000_1000, attrs: a });
    assert_eq!(decode_table_word(0x8000_1576), Some(TableEntry::Page { phys_addr: 0x8000_1000, attrs: a }));
    pt.unmap_page(p);
    assert_eq!(pt.entry(3), TableEntry::Invalid);
    assert_eq!(pt.virt_addr(), 0x0050_0000);
    assert_eq!(p.virt_addr(), 0x0050_3000);
    assert_eq!(p.phys_addr(), 0x8000_1000);
    assert_eq!(p.attrs(), a);
}

#[test]
fn misaligned_page_is_refused() {
    assert!(Page::try_new(0x0050_3004, 0x8000_1000, normal_rwx()).is_none());
    assert!(Page::try_new(0x0050_3000, 0x8000_1800, normal_rwx()).is_none());
    assert!(Page::try_new(0x0050_3000, 0x8000_1000, normal_rwx()).is_some());
}

#[test]
fn mmu_setup_values() {
    let s = MMU::setup(0x0000_4000, 0x00C5_0078, false);
    assert_eq!(s.ttbcr, 0);
    assert_eq!(s.ttbr0, 0x0000_4009);
    assert_eq!(s.dacr, 1);
    assert_eq!(s.sctlr, 0x20C5_0078);
    let m = MMU::setup(0x8001_C000, 0x1000_0000, true);
    assert_eq!(m.ttbr0, 0x8001_C048);
    assert_eq!(m.sctlr, 0x2000_0000);
}

#[test]
fn mmu_switch() {
    assert_eq!(MMU::enable(0x00C5_0078), 0x00C5_0079);
    assert_eq!(MMU::disable(0x00C5_0079), 0x00C5_0078);
}
