//! Memory attributes of a mapping and their encoding into the fields of
//! section (first level) and small page (second level) descriptors.
//!
//! Encodings assume TEX remap disabled and the simplified access model
//! (access flag in AP[0], always set by these encodings).

use crate::bits::{field, field_of, field_read, lemma_low_masks, FieldSetting};
use vstd::prelude::*;

verus! {

#[derive(Clone, Copy, PartialEq, Eq, Structural, Debug)]
pub enum CachePolicy {
    NonCacheable,
    WriteBackWriteAllocate,
    WriteThroughNoWriteAllocate,
    WriteBackNoWriteAllocate,
}

#[derive(Clone, Copy, PartialEq, Eq, Structural, Debug)]
pub enum SharePolicy {
    NonShareable,
    Shareable,
}

#[derive(Clone, Copy, PartialEq, Eq, Structural, Debug)]
pub enum MemoryType {
    Device,
    StronglyOrdered,
    Normal { inner: CachePolicy, outer: CachePolicy, share: SharePolicy },
}

#[derive(Clone, Copy, PartialEq, Eq, Structural, Debug)]
pub enum ReadWritePolicy {
    ReadOnly,
    ReadWrite,
}

#[derive(Clone, Copy, PartialEq, Eq, Structural, Debug)]
pub enum ExecutePolicy {
    ExecuteNever,
    Executeable,
}

#[derive(Clone, Copy, PartialEq, Eq, Structural, Debug)]
pub enum PrivilegeLevel {
    PrivilegeLevel1,
    PrivilegeLevel0,
}

#[derive(Clone, Copy, PartialEq, Eq, Structural, Debug)]
pub struct MemoryAccess {
    pub read_write: ReadWritePolicy,
    pub execute: ExecutePolicy,
    pub privilege: PrivilegeLevel,
}

/// Memory type and access policy of a mapping. An immutable value: each
/// builder returns a changed copy.
#[derive(Clone, Copy, PartialEq, Eq, Structural, Debug)]
pub struct MemoryAttributes {
    pub typ: MemoryType,
    pub access: MemoryAccess,
}

/// Read-only, never-execute, privilege level 1: the access of every default.
pub open spec fn default_access() -> MemoryAccess {
    MemoryAccess {
        read_write: ReadWritePolicy::ReadOnly,
        execute: ExecutePolicy::ExecuteNever,
        privilege: PrivilegeLevel::PrivilegeLevel1,
    }
}

fn make_default_access() -> (r: MemoryAccess)
    ensures
        r == default_access(),
{
    MemoryAccess {
        read_write: ReadWritePolicy::ReadOnly,
        execute: ExecutePolicy::ExecuteNever,
        privilege: PrivilegeLevel::PrivilegeLevel1,
    }
}

impl MemoryAccess {
    fn read_only(self) -> (r: Self)
        ensures
            r == (MemoryAccess { read_write: ReadWritePolicy::ReadOnly, ..self }),
    {
        MemoryAccess { read_write: ReadWritePolicy::ReadOnly, ..self }
    }

    fn read_writeable(self) -> (r: Self)
        ensures
            r == (MemoryAccess { read_write: ReadWritePolicy::ReadWrite, ..self }),
    {
        MemoryAccess { read_write: ReadWritePolicy::ReadWrite, ..self }
    }

    fn execute_never(self) -> (r: Self)
        ensures
            r == (MemoryAccess { execute: ExecutePolicy::ExecuteNever, ..self }),
    {
        MemoryAccess { execute: ExecutePolicy::ExecuteNever, ..self }
    }

    fn executeable(self) -> (r: Self)
        ensures
            r == (MemoryAccess { execute: ExecutePolicy::Executeable, ..self }),
    {
        MemoryAccess { execute: ExecutePolicy::Executeable, ..self }
    }

    fn privilege_level_0(self) -> (r: Self)
        ensures
            r == (MemoryAccess { privilege: PrivilegeLevel::PrivilegeLevel0, ..self }),
    {
        MemoryAccess { privilege: PrivilegeLevel::PrivilegeLevel0, ..self }
    }

    fn privilege_level_1(self) -> (r: Self)
        ensures
            r == (MemoryAccess { privilege: PrivilegeLevel::PrivilegeLevel1, ..self }),
    {
        MemoryAccess { privilege: PrivilegeLevel::PrivilegeLevel1, ..self }
    }
}

impl MemoryAttributes {
    /// Device memory, read-only, never-execute, privilege level 1.
    pub fn device() -> (r: Self)
        ensures
            r.typ == MemoryType::Device,
            r.access == default_access(),
    {
        MemoryAttributes { typ: MemoryType::Device, access: make_default_access() }
    }

    /// Strongly-ordered memory, read-only, never-execute, privilege level 1.
    pub fn strongly_ordered() -> (r: Self)
        ensures
            r.typ == MemoryType::StronglyOrdered,
            r.access == default_access(),
    {
        MemoryAttributes { typ: MemoryType::StronglyOrdered, access: make_default_access() }
    }

    /// Normal memory, non-cacheable inside and outside, non-shareable,
    /// read-only, never-execute, privilege level 1.
    pub fn normal() -> (r: Self)
        ensures
            r.typ == (MemoryType::Normal {
                inner: CachePolicy::NonCacheable,
                outer: CachePolicy::NonCacheable,
                share: SharePolicy::NonShareable,
            }),
            r.access == default_access(),
    {
        MemoryAttributes {
            typ: MemoryType::Normal {
                inner: CachePolicy::NonCacheable,
                outer: CachePolicy::NonCacheable,
                share: SharePolicy::NonShareable,
            },
            access: make_default_access(),
        }
    }

    /// Sets the inner cache policy. Only affects Normal memory.
    pub fn inner(self, inner: CachePolicy) -> (r: Self)
        ensures
            r.access == self.access,
            r.typ == (match self.typ {
                MemoryType::Normal { inner: _, outer, share } => MemoryType::Normal {
                    inner,
                    outer,
                    share,
                },
                t => t,
            }),
    {
        match self.typ {
            MemoryType::Normal { inner: _, outer, share } => MemoryAttributes {
                typ: MemoryType::Normal { inner, outer, share },
                ..self
            },
            _ => self,
        }
    }

    /// Sets the outer cache policy. Only affects Normal memory.
    pub fn outer(self, outer: CachePolicy) -> (r: Self)
        ensures
            r.access == self.access,
            r.typ == (match self.typ {
                MemoryType::Normal { inner, outer: _, share } => MemoryType::Normal {
                    inner,
                    outer,
                    share,
                },
                t => t,
            }),
    {
        match self.typ {
            MemoryType::Normal { inner, outer: _, share } => MemoryAttributes {
                typ: MemoryType::Normal { inner, outer, share },
                ..self
            },
            _ => self,
        }
    }

    /// Marks the memory non-shareable. Only affects Normal memory.
    pub fn non_shareable(self) -> (r: Self)
        ensures
            r.access == self.access,
            r.typ == (match self.typ {
                MemoryType::Normal { inner, outer, share: _ } => MemoryType::Normal {
                    inner,
                    outer,
                    share: SharePolicy::NonShareable,
                },
                t => t,
            }),
    {
        match self.typ {
            MemoryType::Normal { inner, outer, share: _ } => MemoryAttributes {
                typ: MemoryType::Normal { inner, outer, share: SharePolicy::NonShareable },
                ..self
            },
            _ => self,
        }
    }

    /// Marks the memory shareable. Only affects Normal memory.
    pub fn shareable(self) -> (r: Self)
        ensures
            r.access == self.access,
            r.typ == (match self.typ {
                MemoryType::Normal { inner, outer, share: _ } => MemoryType::Normal {
                    inner,
                    outer,
                    share: SharePolicy::Shareable,
                },
                t => t,
            }),
    {
        match self.typ {
            MemoryType::Normal { inner, outer, share: _ } => MemoryAttributes {
                typ: MemoryType::Normal { inner, outer, share: SharePolicy::Shareable },
                ..self
            },
            _ => self,
        }
    }

    /// Marks the memory read-only.
    pub fn read_only(self) -> (r: Self)
        ensures
            r.typ == self.typ,
            r.access == (MemoryAccess { read_write: ReadWritePolicy::ReadOnly, ..self.access }),
    {
        MemoryAttributes { access: self.access.read_only(), ..self }
    }

    /// Marks the memory readable and writeable.
    pub fn read_writeable(self) -> (r: Self)
        ensures
            r.typ == self.typ,
            r.access == (MemoryAccess { read_write: ReadWritePolicy::ReadWrite, ..self.access }),
    {
        MemoryAttributes { access: self.access.read_writeable(), ..self }
    }

    /// Marks the memory not executable.
    pub fn execute_never(self) -> (r: Self)
        ensures
            r.typ == self.typ,
            r.access == (MemoryAccess { execute: ExecutePolicy::ExecuteNever, ..self.access }),
    {
        MemoryAttributes { access: self.access.execute_never(), ..self }
    }

    /// Marks the memory executable.
    pub fn executeable(self) -> (r: Self)
        ensures
            r.typ == self.typ,
            r.access == (MemoryAccess { execute: ExecutePolicy::Executeable, ..self.access }),
    {
        MemoryAttributes { access: self.access.executeable(), ..self }
    }

    /// Makes the memory accessible at privilege level 0 (and 1).
    pub fn privilege_level_0(self) -> (r: Self)
        ensures
            r.typ == self.typ,
            r.access == (MemoryAccess { privilege: PrivilegeLevel::PrivilegeLevel0, ..self.access }),
    {
        MemoryAttributes { access: self.access.privilege_level_0(), ..self }
    }

    /// Makes the memory accessible at privilege level 1 only.
    pub fn privilege_level_1(self) -> (r: Self)
        ensures
            r.typ == self.typ,
            r.access == (MemoryAccess { privilege: PrivilegeLevel::PrivilegeLevel1, ..self.access }),
    {
        MemoryAttributes { access: self.access.privilege_level_1(), ..self }
    }
}

} // verus!

verus! {

/// The two descriptor formats that carry memory attributes.
#[derive(Clone, Copy, PartialEq, Eq, Structural, Debug)]
pub enum DescriptorKind {
    /// A 1 MiB section entry of the page directory.
    Section,
    /// A 4 KiB small page entry of a page table.
    Page,
}

/// Bit positions of the attribute fields in one descriptor format.
#[derive(Clone, Copy, PartialEq, Eq, Structural, Debug)]
pub struct AttributeLayout {
    /// Execute-never bit.
    pub xn: u32,
    /// Two bits C:B, the inner cache policy of Normal memory.
    pub cb: u32,
    /// Two bits AP[1:0]: AP[0] is the access flag, AP[1] grants level 0.
    pub ap: u32,
    /// Three bits TEX: TEX[2] marks Normal memory, TEX[1:0] its outer policy.
    pub tex: u32,
    /// AP[2], which disables writes.
    pub apx: u32,
    /// Shareable bit.
    pub s: u32,
}

pub open spec fn layout_of(kind: DescriptorKind) -> AttributeLayout {
    match kind {
        DescriptorKind::Section => AttributeLayout { xn: 4, cb: 2, ap: 10, tex: 12, apx: 15, s: 16 },
        DescriptorKind::Page => AttributeLayout { xn: 0, cb: 2, ap: 4, tex: 6, apx: 9, s: 10 },
    }
}

pub fn layout(kind: DescriptorKind) -> (r: AttributeLayout)
    ensures
        r == layout_of(kind),
{
    match kind {
        DescriptorKind::Section => AttributeLayout { xn: 4, cb: 2, ap: 10, tex: 12, apx: 15, s: 16 },
        DescriptorKind::Page => AttributeLayout { xn: 0, cb: 2, ap: 4, tex: 6, apx: 9, s: 10 },
    }
}

/// The two-bit code of a cache policy.
pub open spec fn policy_code(p: CachePolicy) -> u32 {
    match p {
        CachePolicy::NonCacheable => 0,
        CachePolicy::WriteBackWriteAllocate => 1,
        CachePolicy::WriteThroughNoWriteAllocate => 2,
        CachePolicy::WriteBackNoWriteAllocate => 3,
    }
}

pub open spec fn share_code(s: SharePolicy) -> u32 {
    match s {
        SharePolicy::NonShareable => 0,
        SharePolicy::Shareable => 1,
    }
}

pub open spec fn write_disable_code(p: ReadWritePolicy) -> u32 {
    match p {
        ReadWritePolicy::ReadOnly => 1,
        ReadWritePolicy::ReadWrite => 0,
    }
}

pub open spec fn execute_never_code(p: ExecutePolicy) -> u32 {
    match p {
        ExecutePolicy::ExecuteNever => 1,
        ExecutePolicy::Executeable => 0,
    }
}

/// AP[1:0]: the access flag is always set; AP[1] opens the memory to level 0.
pub open spec fn privilege_code(p: PrivilegeLevel) -> u32 {
    match p {
        PrivilegeLevel::PrivilegeLevel0 => 3,
        PrivilegeLevel::PrivilegeLevel1 => 1,
    }
}

/// The bits that a memory type sets in a descriptor of layout `l`.
pub open spec fn type_bits(t: MemoryType, l: AttributeLayout) -> u32 {
    match t {
        MemoryType::Device => 1u32 << l.cb,
        MemoryType::StronglyOrdered => 0,
        MemoryType::Normal { inner, outer, share } => (4u32 << l.tex) | (policy_code(inner)
            << l.cb) | (policy_code(outer) << l.tex) | (share_code(share) << l.s),
    }
}

/// The bits that an access policy sets in a descriptor of layout `l`.
pub open spec fn access_bits(a: MemoryAccess, l: AttributeLayout) -> u32 {
    (write_disable_code(a.read_write) << l.apx) | (execute_never_code(a.execute) << l.xn) | (
    privilege_code(a.privilege) << l.ap)
}

/// The bits that memory attributes set in a descriptor of the given kind.
pub open spec fn attribute_bits(a: MemoryAttributes, kind: DescriptorKind) -> u32 {
    type_bits(a.typ, layout_of(kind)) | access_bits(a.access, layout_of(kind))
}

/// Encoding of an attribute into the fields of a section or page descriptor.
pub trait FieldEncoding {
    /// The bits that the value sets in a descriptor of the given kind.
    spec fn encoding(&self, kind: DescriptorKind) -> u32;

    fn encode(&self, kind: DescriptorKind) -> (r: FieldSetting)
        ensures
            r.value == self.encoding(kind),
            r.wf(),
    ;
}

impl FieldEncoding for MemoryType {
    open spec fn encoding(&self, kind: DescriptorKind) -> u32 {
        type_bits(*self, layout_of(kind))
    }

    fn encode(&self, kind: DescriptorKind) -> (r: FieldSetting) {
        let l = layout(kind);
        proof {
            lemma_low_masks();
        }
        match *self {
            MemoryType::Device => {
                let a = field(3, l.tex, 0);
                let b = field(2, l.cb, 1);
                let r = a.and(b);
                let (tex, cb, va, vb) = (l.tex, l.cb, a.value, b.value);
                assert(va | vb == 1u32 << cb) by (bit_vector)
                    requires
                        va == 0u32 << tex,
                        vb == 1u32 << cb,
                ;
                r
            },
            MemoryType::StronglyOrdered => {
                let a = field(3, l.tex, 0);
                let b = field(2, l.cb, 0);
                let r = a.and(b);
                let (tex, cb, va, vb) = (l.tex, l.cb, a.value, b.value);
                assert(va | vb == 0u32) by (bit_vector)
                    requires
                        va == 0u32 << tex,
                        vb == 0u32 << cb,
                ;
                r
            },
            MemoryType::Normal { inner, outer, share } => {
                let i = inner.code();
                let o = outer.code();
                let s = share.code();
                let t = l.tex;
                assert(1u32 << (t + 2) == 4u32 << t) by (bit_vector)
                    requires
                        t < 30u32,
                ;
                field(1, t + 2, 1).and(field(2, l.cb, i)).and(field(2, l.tex, o)).and(
                    field(1, l.s, s),
                )
            },
        }
    }
}

impl CachePolicy {
    fn code(self) -> (r: u32)
        ensures
            r == policy_code(self),
    {
        match self {
            CachePolicy::NonCacheable => 0,
            CachePolicy::WriteBackWriteAllocate => 1,
            CachePolicy::WriteThroughNoWriteAllocate => 2,
            CachePolicy::WriteBackNoWriteAllocate => 3,
        }
    }
}

impl SharePolicy {
    fn code(self) -> (r: u32)
        ensures
            r == share_code(self),
    {
        match self {
            SharePolicy::NonShareable => 0,
            SharePolicy::Shareable => 1,
        }
    }
}

impl FieldEncoding for MemoryAccess {
    open spec fn encoding(&self, kind: DescriptorKind) -> u32 {
        access_bits(*self, layout_of(kind))
    }

    fn encode(&self, kind: DescriptorKind) -> (r: FieldSetting) {
        let l = layout(kind);
        proof {
            lemma_low_masks();
        }
        let w: u32 = match self.read_write {
            ReadWritePolicy::ReadOnly => 1,
            ReadWritePolicy::ReadWrite => 0,
        };
        let x: u32 = match self.execute {
            ExecutePolicy::ExecuteNever => 1,
            ExecutePolicy::Executeable => 0,
        };
        let p: u32 = match self.privilege {
            PrivilegeLevel::PrivilegeLevel0 => 3,
            PrivilegeLevel::PrivilegeLevel1 => 1,
        };
        field(1, l.apx, w).and(field(1, l.xn, x)).and(field(2, l.ap, p))
    }
}

impl FieldEncoding for MemoryAttributes {
    open spec fn encoding(&self, kind: DescriptorKind) -> u32 {
        attribute_bits(*self, kind)
    }

    fn encode(&self, kind: DescriptorKind) -> (r: FieldSetting) {
        self.typ.encode(kind).and(self.access.encode(kind))
    }
}

} // verus!

verus! {

/// The bits of all attribute fields of a descriptor format.
pub open spec fn attribute_mask(kind: DescriptorKind) -> u32 {
    match kind {
        DescriptorKind::Section => 0x1FC1C,
        DescriptorKind::Page => 0x7FD,
    }
}

pub open spec fn policy_of(code: u32) -> CachePolicy {
    if code == 0 {
        CachePolicy::NonCacheable
    } else if code == 1 {
        CachePolicy::WriteBackWriteAllocate
    } else if code == 2 {
        CachePolicy::WriteThroughNoWriteAllocate
    } else {
        CachePolicy::WriteBackNoWriteAllocate
    }
}

/// The memory type held in a descriptor word, if it is one that
/// [`FieldEncoding`] produces.
pub open spec fn type_of(word: u32, kind: DescriptorKind) -> Option<MemoryType> {
    let l = layout_of(kind);
    let normal = field_of(word, 1, (l.tex + 2) as u32);
    let outer = field_of(word, 3, l.tex);
    let inner = field_of(word, 3, l.cb);
    if normal == 1 {
        Some(
            MemoryType::Normal {
                inner: policy_of(inner),
                outer: policy_of(outer),
                share: if field_of(word, 1, l.s) == 1 {
                    SharePolicy::Shareable
                } else {
                    SharePolicy::NonShareable
                },
            },
        )
    } else if outer == 0 && inner == 1 {
        Some(MemoryType::Device)
    } else if outer == 0 && inner == 0 {
        Some(MemoryType::StronglyOrdered)
    } else {
        None
    }
}

/// The access policy held in a descriptor word, if its access flag is set.
pub open spec fn access_of(word: u32, kind: DescriptorKind) -> Option<MemoryAccess> {
    let l = layout_of(kind);
    let ap = field_of(word, 3, l.ap);
    if ap == 3 || ap == 1 {
        Some(
            MemoryAccess {
                read_write: if field_of(word, 1, l.apx) == 1 {
                    ReadWritePolicy::ReadOnly
                } else {
                    ReadWritePolicy::ReadWrite
                },
                execute: if field_of(word, 1, l.xn) == 1 {
                    ExecutePolicy::ExecuteNever
                } else {
                    ExecutePolicy::Executeable
                },
                privilege: if ap == 3 {
                    PrivilegeLevel::PrivilegeLevel0
                } else {
                    PrivilegeLevel::PrivilegeLevel1
                },
            },
        )
    } else {
        None
    }
}

/// The memory attributes held in a descriptor word.
pub open spec fn attributes_of(word: u32, kind: DescriptorKind) -> Option<MemoryAttributes> {
    match (type_of(word, kind), access_of(word, kind)) {
        (Some(typ), Some(access)) => Some(MemoryAttributes { typ, access }),
        _ => None,
    }
}

fn policy_from(code: u32) -> (r: CachePolicy)
    ensures
        r == policy_of(code),
{
    if code == 0 {
        CachePolicy::NonCacheable
    } else if code == 1 {
        CachePolicy::WriteBackWriteAllocate
    } else if code == 2 {
        CachePolicy::WriteThroughNoWriteAllocate
    } else {
        CachePolicy::WriteBackNoWriteAllocate
    }
}

/// Reads the memory attributes back out of a descriptor word.
pub fn decode_attributes(word: u32, kind: DescriptorKind) -> (r: Option<MemoryAttributes>)
    ensures
        r == attributes_of(word, kind),
{
    let l = layout(kind);
    let normal = field_read(word, 1, l.tex + 2);
    let outer = field_read(word, 3, l.tex);
    let inner = field_read(word, 3, l.cb);
    let typ = if normal == 1 {
        Some(
            MemoryType::Normal {
                inner: policy_from(inner),
                outer: policy_from(outer),
                share: if field_read(word, 1, l.s) == 1 {
                    SharePolicy::Shareable
                } else {
                    SharePolicy::NonShareable
                },
            },
        )
    } else if outer == 0 && inner == 1 {
        Some(MemoryType::Device)
    } else if outer == 0 && inner == 0 {
        Some(MemoryType::StronglyOrdered)
    } else {
        None
    };
    let ap = field_read(word, 3, l.ap);
    let access = if ap == 3 || ap == 1 {
        Some(
            MemoryAccess {
                read_write: if field_read(word, 1, l.apx) == 1 {
                    ReadWritePolicy::ReadOnly
                } else {
                    ReadWritePolicy::ReadWrite
                },
                execute: if field_read(word, 1, l.xn) == 1 {
                    ExecutePolicy::ExecuteNever
                } else {
                    ExecutePolicy::Executeable
                },
                privilege: if ap == 3 {
                    PrivilegeLevel::PrivilegeLevel0
                } else {
                    PrivilegeLevel::PrivilegeLevel1
                },
            },
        )
    } else {
        None
    };
    match (typ, access) {
        (Some(typ), Some(access)) => Some(MemoryAttributes { typ, access }),
        _ => None,
    }
}

/// Each field of a descriptor word built from field codes reads back as
/// its code, whatever bits outside the attribute fields hold.
proof fn lemma_fields(
    other: u32,
    n: u32,
    i: u32,
    o: u32,
    s: u32,
    w: u32,
    x: u32,
    p: u32,
    xn: u32,
    cb: u32,
    ap: u32,
    tex: u32,
    apx: u32,
    sh: u32,
    mask: u32,
)
    requires
        (xn == 4 && cb == 2 && ap == 10 && tex == 12 && apx == 15 && sh == 16 && mask == 0x1FC1C)
            || (xn == 0 && cb == 2 && ap == 4 && tex == 6 && apx == 9 && sh == 10 && mask
            == 0x7FD),
        other & mask == 0,
        n <= 1,
        i <= 3,
        o <= 3,
        s <= 1,
        w <= 1,
        x <= 1,
        p <= 3,
    ensures
        ({
            let word = other | (((n << (tex + 2)) | (i << cb) | (o << tex) | (s << sh)) | ((w
                << apx) | (x << xn) | (p << ap)));
            &&& field_of(word, 1, (tex + 2) as u32) == n
            &&& field_of(word, 3, tex) == o
            &&& field_of(word, 3, cb) == i
            &&& field_of(word, 1, sh) == s
            &&& field_of(word, 1, apx) == w
            &&& field_of(word, 1, xn) == x
            &&& field_of(word, 3, ap) == p
        }),
        (((n << (tex + 2)) | (i << cb) | (o << tex) | (s << sh)) | ((w << apx) | (x << xn) | (p
            << ap))) & !mask == 0,
{
    let word = other | (((n << (tex + 2)) | (i << cb) | (o << tex) | (s << sh)) | ((w << apx) | (x
        << xn) | (p << ap)));
    assert(field_of(word, 1, (tex + 2) as u32) == n && field_of(word, 3, tex) == o && field_of(
        word,
        3,
        cb,
    ) == i && field_of(word, 1, sh) == s && field_of(word, 1, apx) == w && field_of(word, 1, xn)
        == x && field_of(word, 3, ap) == p) by (bit_vector)
        requires
            (xn == 4 && cb == 2 && ap == 10 && tex == 12 && apx == 15 && sh == 16 && mask
                == 0x1FC1C) || (xn == 0 && cb == 2 && ap == 4 && tex == 6 && apx == 9 && sh == 10
                && mask == 0x7FD),
            other & mask == 0,
            n <= 1,
            i <= 3,
            o <= 3,
            s <= 1,
            w <= 1,
            x <= 1,
            p <= 3,
            word == other | (((n << (tex + 2)) | (i << cb) | (o << tex) | (s << sh)) | ((w << apx)
                | (x << xn) | (p << ap))),
    ;
    assert((((n << (tex + 2)) | (i << cb) | (o << tex) | (s << sh)) | ((w << apx) | (x << xn) | (p
        << ap))) & !mask == 0) by (bit_vector)
        requires
            (xn == 4 && cb == 2 && ap == 10 && tex == 12 && apx == 15 && sh == 16 && mask
                == 0x1FC1C) || (xn == 0 && cb == 2 && ap == 4 && tex == 6 && apx == 9 && sh == 10
                && mask == 0x7FD),
            n <= 1,
            i <= 3,
            o <= 3,
            s <= 1,
            w <= 1,
            x <= 1,
            p <= 3,
    ;
}

/// Memory attributes read back unchanged from any descriptor word that
/// holds their encoding, whatever bits outside the attribute fields hold.
pub proof fn lemma_attributes_round_trip(a: MemoryAttributes, kind: DescriptorKind, other: u32)
    requires
        other & attribute_mask(kind) == 0,
    ensures
        attributes_of(other | attribute_bits(a, kind), kind) == Some(a),
        attribute_bits(a, kind) & !attribute_mask(kind) == 0,
{
    let l = layout_of(kind);
    let (xn, cb, ap, tex, apx, sh) = (l.xn, l.cb, l.ap, l.tex, l.apx, l.s);
    let w = write_disable_code(a.access.read_write);
    let x = execute_never_code(a.access.execute);
    let p = privilege_code(a.access.privilege);
    let (n, i, o, s): (u32, u32, u32, u32) = match a.typ {
        MemoryType::Device => (0, 1, 0, 0),
        MemoryType::StronglyOrdered => (0, 0, 0, 0),
        MemoryType::Normal { inner, outer, share } => (
            1,
            policy_code(inner),
            policy_code(outer),
            share_code(share),
        ),
    };
    let t = type_bits(a.typ, l);
    assert(t == (n << (tex + 2)) | (i << cb) | (o << tex) | (s << sh)) by {
        match a.typ {
            MemoryType::Device => {
                assert(1u32 << cb == (0u32 << (tex + 2)) | (1u32 << cb) | (0u32 << tex) | (0u32
                    << sh)) by (bit_vector)
                    requires
                        cb == 2u32,
                        tex < 30u32,
                ;
            },
            MemoryType::StronglyOrdered => {
                assert(0u32 == (0u32 << (tex + 2)) | (0u32 << cb) | (0u32 << tex) | (0u32 << sh))
                    by (bit_vector);
            },
            MemoryType::Normal { .. } => {
                assert(4u32 << tex == 1u32 << (tex + 2)) by (bit_vector)
                    requires
                        tex < 30u32,
                ;
            },
        }
    }
    lemma_fields(
        other,
        n,
        i,
        o,
        s,
        w,
        x,
        p,
        xn,
        cb,
        ap,
        tex,
        apx,
        sh,
        attribute_mask(kind),
    );
}

} // verus!
