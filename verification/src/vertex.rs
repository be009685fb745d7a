//! The vertex attribute layout compiler and the vertex-array resource.
//!
//! From an ordered list of attribute descriptions the compiler derives a
//! byte-accurate layout: locations assigned sequentially from zero, byte
//! offsets as the running sum of prior footprints, and the record stride as
//! the total footprint. Applying a layout to a vertex array requires that
//! vertex array to occupy its binding slot — a hard precondition, since the
//! driver leaves a violation undefined.
use vstd::prelude::*;

verus! {

use crate::call::{Call, DriverCall};
use crate::context::{alloc_call, dealloc_call, GlContext, ResourceCategory, SlotKind};
use crate::{GlBind, GlObject, GlTarget, GlType};

/// The static description of one attribute-carrying type: its element type
/// tag and how many components (one to four) it contributes per vertex.
#[derive(Debug, Clone, Copy, PartialEq, Eq, Structural)]
pub struct AttribType {
    pub type_: GlType,
    pub components: u32,
}

impl AttribType {
    /// An attribute carries one to four components.
    pub open spec fn wf(self) -> bool {
        1 <= self.components <= 4
    }

    /// The attribute's byte footprint within one vertex record.
    pub open spec fn footprint_spec(self) -> nat {
        (self.components * self.type_.byte_size_spec()) as nat
    }

    pub fn footprint(&self) -> (r: u32)
        requires
            self.wf(),
        ensures
            r == self.footprint_spec(),
            r <= 32,
    {
        self.components * self.type_.byte_size()
    }
}

/// One compiled attribute of a vertex record: where it is fetched from and
/// how the driver is to read it.
#[derive(Default, Debug, PartialEq, Eq, Clone, Copy, Structural)]
pub struct AttribSlot {
    /// The binding point index the attribute is wired to.
    pub location: u32,
    /// The element type's numeric tag.
    pub type_: u32,
    /// How many components the attribute has.
    pub size: u32,
    /// Whether fixed-point values are normalized when fetched.
    pub normalized: bool,
    /// Byte offset of the attribute within one vertex record.
    pub offset: u32,
}

impl AttribSlot {
    /// The compiled form of `attrib` at binding point `location`, starting
    /// `offset` bytes into the record.
    pub fn new(attrib: AttribType, location: u32, normalized: bool, offset: u32) -> (r:
        AttribSlot)
        ensures
            r == (AttribSlot {
                location,
                type_: attrib.type_.enum_spec(),
                size: attrib.components,
                normalized,
                offset,
            }),
    {
        AttribSlot {
            location,
            type_: attrib.type_.to_enum(),
            size: attrib.components,
            normalized,
            offset,
        }
    }
}

/// One request to the layout compiler: an attribute description and whether
/// its values are fetched normalized.
#[derive(Debug, Clone, Copy, PartialEq, Eq, Structural)]
pub struct AttribEntry {
    pub attrib: AttribType,
    pub normalized: bool,
}

/// The record stride that compiling `entries` yields: the sum of every
/// entry's footprint.
pub open spec fn layout_stride(entries: Seq<AttribEntry>) -> nat
    decreases entries.len(),
{
    if entries.len() == 0 {
        0
    } else {
        layout_stride(entries.drop_last()) + entries.last().attrib.footprint_spec()
    }
}

/// The compiled attribute slots for `entries`: entry `i` gets location `i`
/// and the sum of the footprints of entries `0..i` as its byte offset.
pub open spec fn layout_slots(entries: Seq<AttribEntry>) -> Seq<AttribSlot>
    decreases entries.len(),
{
    if entries.len() == 0 {
        Seq::empty()
    } else {
        layout_slots(entries.drop_last()).push(
            AttribSlot {
                location: (entries.len() - 1) as u32,
                type_: entries.last().attrib.type_.enum_spec(),
                size: entries.last().attrib.components,
                normalized: entries.last().normalized,
                offset: layout_stride(entries.drop_last()) as u32,
            },
        )
    }
}

/// The compiled layout has exactly one slot per entry.
pub proof fn lemma_layout_len(entries: Seq<AttribEntry>)
    ensures
        layout_slots(entries).len() == entries.len(),
    decreases entries.len(),
{
    if entries.len() > 0 {
        lemma_layout_len(entries.drop_last());
    }
}

/// Slot `i` of the compiled layout sits at location `i`, and its byte
/// offset is the sum of the footprints of the entries before it.
pub proof fn lemma_layout_slot_at(entries: Seq<AttribEntry>, i: int)
    requires
        0 <= i < entries.len(),
    ensures
        layout_slots(entries).len() == entries.len(),
        layout_slots(entries)[i].location == i as u32,
        layout_slots(entries)[i].offset == layout_stride(entries.subrange(0, i)) as u32,
    decreases entries.len(),
{
    lemma_layout_len(entries);
    let prior = entries.drop_last();
    if i < entries.len() - 1 {
        lemma_layout_slot_at(prior, i);
        assert(prior.subrange(0, i) =~= entries.subrange(0, i));
    } else {
        assert(entries.subrange(0, i) =~= prior);
    }
}

/// The stride of one more entry grows by exactly that entry's footprint.
pub proof fn lemma_stride_extend(entries: Seq<AttribEntry>, i: int)
    requires
        0 <= i < entries.len(),
    ensures
        layout_stride(entries.subrange(0, i + 1)) == layout_stride(entries.subrange(0, i))
            + entries[i].attrib.footprint_spec(),
{
    let pre = entries.subrange(0, i + 1);
    assert(pre.drop_last() =~= entries.subrange(0, i));
    assert(pre.last() == entries[i]);
}

/// Law: for every sequence of attribute entries, the compiled layout has one
/// slot per entry, slot `i` sits at location `i`, its byte offset is the sum
/// of the footprints of the entries before it, and the stride is the sum of
/// all footprints (the offsets are therefore monotone in declaration order).
pub proof fn lemma_layout_compiler(entries: Seq<AttribEntry>)
    ensures
        layout_slots(entries).len() == entries.len(),
        forall|i: int|
            0 <= i < entries.len() ==> #[trigger] layout_slots(entries)[i].location == i as u32,
        forall|i: int|
            0 <= i < entries.len() ==> #[trigger] layout_slots(entries)[i].offset
                == layout_stride(entries.subrange(0, i)) as u32,
        forall|i: int|
            0 <= i < entries.len() ==> layout_stride(entries.subrange(0, i + 1))
                == layout_stride(entries.subrange(0, i))
                + (#[trigger] entries[i]).attrib.footprint_spec(),
{
    lemma_layout_len(entries);
    assert forall|i: int| 0 <= i < entries.len() implies #[trigger] layout_slots(entries)[i].location
        == i as u32 by {
        lemma_layout_slot_at(entries, i);
    }
    assert forall|i: int| 0 <= i < entries.len() implies #[trigger] layout_slots(entries)[i].offset
        == layout_stride(entries.subrange(0, i)) as u32 by {
        lemma_layout_slot_at(entries, i);
    }
    assert forall|i: int| 0 <= i < entries.len() implies layout_stride(entries.subrange(0, i + 1))
        == layout_stride(entries.subrange(0, i)) + (#[trigger] entries[i]).attrib.footprint_spec()
        by {
        lemma_stride_extend(entries, i);
    }
}

/// The complete memory layout of one interleaved vertex: its attribute
/// slots in declaration order and the record stride.
#[derive(Debug, PartialEq, Eq, Clone)]
pub struct VertexFormat {
    pub attribs: Vec<AttribSlot>,
    pub stride: u32,
}

impl VertexFormat {
    /// The compiled attribute slots, in declaration order.
    pub fn attribs(&self) -> (r: &Vec<AttribSlot>)
        ensures
            r@ == self.attribs@,
    {
        &self.attribs
    }
}

/// The layout compiler: feeds attribute descriptions in declaration order
/// and accumulates the compiled layout.
pub struct VertexFormatBuilder {
    /// The next location to assign: one per entry, starting at zero.
    pub location: u32,
    /// The running byte offset: the sum of the footprints pushed so far.
    pub offset: u32,
    /// The slots compiled so far.
    pub attribs: Vec<AttribSlot>,
    /// The entries fed so far, which the compiled state is a function of.
    pub entries: Ghost<Seq<AttribEntry>>,
}

impl VertexFormatBuilder {
    /// The builder's state is exactly the compiled image of its entries.
    pub open spec fn wf(self) -> bool {
        &&& self.location == self.entries@.len()
        &&& self.offset == layout_stride(self.entries@)
        &&& self.attribs@ == layout_slots(self.entries@)
    }

    /// An empty layout: no attributes, stride zero. Legal, though it
    /// describes no drawable geometry.
    pub fn new() -> (r: VertexFormatBuilder)
        ensures
            r.wf(),
            r.entries@ == Seq::<AttribEntry>::empty(),
    {
        let r = VertexFormatBuilder {
            location: 0,
            offset: 0,
            attribs: Vec::new(),
            entries: Ghost(Seq::empty()),
        };
        proof {
            assert(r.attribs@ =~= layout_slots(r.entries@));
        }
        r
    }

    /// Append one attribute: it gets the next location and the current
    /// running offset, and the stride grows by its footprint.
    pub fn push(&mut self, attrib: AttribType, normalized: bool)
        requires
            old(self).wf(),
            attrib.wf(),
            old(self).offset + attrib.footprint_spec() <= u32::MAX,
            old(self).location < u32::MAX,
        ensures
            final(self).wf(),
            final(self).entries@ == old(self).entries@.push(AttribEntry { attrib, normalized }),
    {
        let slot = AttribSlot {
            location: self.location,
            type_: attrib.type_.to_enum(),
            size: attrib.components,
            normalized,
            offset: self.offset,
        };
        self.attribs.push(slot);
        self.location = self.location + 1;
        self.offset = self.offset + attrib.footprint();
        proof {
            self.entries@ = old(self).entries@.push(AttribEntry { attrib, normalized });
            assert(self.entries@.drop_last() =~= old(self).entries@);
            assert(self.attribs@ =~= layout_slots(self.entries@));
        }
    }

    /// The compiled layout of everything pushed so far.
    pub fn build(&self) -> (r: VertexFormat)
        requires
            self.wf(),
        ensures
            r.attribs@ == layout_slots(self.entries@),
            r.stride == layout_stride(self.entries@),
    {
        let mut attribs: Vec<AttribSlot> = Vec::new();
        let mut i: usize = 0;
        while i < self.attribs.len()
            invariant
                i <= self.attribs@.len(),
                attribs@ == self.attribs@.subrange(0, i as int),
            decreases self.attribs@.len() - i,
        {
            attribs.push(self.attribs[i]);
            proof {
                assert(attribs@ =~= self.attribs@.subrange(0, i as int + 1));
            }
            i = i + 1;
        }
        proof {
            assert(self.attribs@.subrange(0, self.attribs@.len() as int) =~= self.attribs@);
        }
        VertexFormat { attribs, stride: self.offset }
    }
}

/// A type whose values make up one interleaved vertex each: it exposes the
/// compiled layout of its attributes. Implemented by the users of this
/// layer for their concrete vertex types.
pub trait VertexData {
    fn get_format() -> VertexFormat;
}

/// The calls that wire one compiled layout into the vertex array currently
/// bound: per slot, an enable call and a fetch-descriptor call carrying the
/// record stride.
pub open spec fn setup_calls(slots: Seq<AttribSlot>, stride: u32) -> Seq<Call>
    decreases slots.len(),
{
    if slots.len() == 0 {
        Seq::empty()
    } else {
        setup_calls(slots.drop_last(), stride) + seq![
            Call::EnableVertexAttribArray { location: slots.last().location },
            Call::VertexAttribPointer {
                location: slots.last().location,
                size: slots.last().size,
                type_: slots.last().type_,
                normalized: slots.last().normalized,
                stride,
                offset: slots.last().offset,
            },
        ]
    }
}

/// An owning handle to one driver-side vertex array object. Its binding
/// slot is tracked purely as shadow state: the driver's queried value and
/// the true "no binding" value are both zero, so the query cannot tell an
/// unbound slot from a deliberately zero-bound one.
#[derive(Debug, PartialEq, Eq)]
pub struct VertexArray {
    id: u32,
}

impl VertexArray {
    /// Allocate one driver-side vertex array and own it.
    pub fn new(ctx: &mut GlContext) -> (r: VertexArray)
        requires
            old(ctx).wf(),
            old(ctx).next_id < u32::MAX,
        ensures
            r.id_spec() == old(ctx).next_id,
            r.id_spec() >= 1,
            final(ctx).log() == old(ctx).log().push(
                alloc_call(ResourceCategory::VertexArray, r.id_spec()),
            ),
            final(ctx).slots == old(ctx).slots,
            final(ctx).next_id == old(ctx).next_id + 1,
            final(ctx).wf(),
    {
        let id = ctx.allocate(ResourceCategory::VertexArray);
        VertexArray { id }
    }

    /// Issue the one deallocation call of this handle's lifetime.
    pub fn delete(self, ctx: &mut GlContext)
        ensures
            final(ctx).log() == old(ctx).log().push(
                dealloc_call(ResourceCategory::VertexArray, self.id_spec()),
            ),
            final(ctx).slots == old(ctx).slots,
            final(ctx).next_id == old(ctx).next_id,
    {
        ctx.deallocate(ResourceCategory::VertexArray, self.id);
    }

    /// Assert the bind-before-use precondition: this vertex array must be
    /// the one occupying the vertex-array slot.
    pub fn check_bind(&self, ctx: &GlContext)
        requires
            ctx.slots.spec_get(SlotKind::VertexArray) == self.id_spec(),
    {
        let cur = ctx.current(SlotKind::VertexArray);
        assert(cur == self.id_spec());
    }

    /// Wire `format` into this vertex array: per attribute, enable its
    /// location and describe its fetch. Requires this vertex array to be
    /// bound — applying a layout to an unbound array is undefined at the
    /// driver, so the precondition is hard, not best-effort.
    pub fn setup_for(&self, format: &VertexFormat, ctx: &mut GlContext)
        requires
            old(ctx).slots.spec_get(SlotKind::VertexArray) == self.id_spec(),
        ensures
            final(ctx).log() == old(ctx).log() + setup_calls(format.attribs@, format.stride),
            final(ctx).slots == old(ctx).slots,
            final(ctx).next_id == old(ctx).next_id,
    {
        self.check_bind(ctx);
        let mut i: usize = 0;
        while i < format.attribs.len()
            invariant
                i <= format.attribs@.len(),
                ctx.log() == old(ctx).log() + setup_calls(
                    format.attribs@.subrange(0, i as int),
                    format.stride,
                ),
                ctx.slots == old(ctx).slots,
                ctx.next_id == old(ctx).next_id,
            decreases format.attribs@.len() - i,
        {
            let a = format.attribs[i];
            ctx.record(DriverCall::EnableVertexAttribArray { location: a.location });
            ctx.record(
                DriverCall::VertexAttribPointer {
                    location: a.location,
                    size: a.size,
                    type_: a.type_,
                    normalized: a.normalized,
                    stride: format.stride,
                    offset: a.offset,
                },
            );
            proof {
                let pre = format.attribs@.subrange(0, i as int + 1);
                assert(pre.drop_last() =~= format.attribs@.subrange(0, i as int));
                assert(ctx.log() =~= old(ctx).log() + setup_calls(pre, format.stride));
            }
            i = i + 1;
        }
        proof {
            assert(format.attribs@.subrange(0, format.attribs@.len() as int) =~= format.attribs@);
        }
    }

    /// Enable one attribute location of the bound vertex array.
    pub fn enable_attrib(&self, index: u32, ctx: &mut GlContext)
        requires
            old(ctx).slots.spec_get(SlotKind::VertexArray) == self.id_spec(),
        ensures
            final(ctx).log() == old(ctx).log().push(
                Call::EnableVertexAttribArray { location: index },
            ),
            final(ctx).slots == old(ctx).slots,
            final(ctx).next_id == old(ctx).next_id,
    {
        ctx.record(DriverCall::EnableVertexAttribArray { location: index });
    }

    /// Describe one attribute fetch of the bound vertex array directly,
    /// with values taken unnormalized.
    pub fn attrib_pointer(
        &self,
        attrib: AttribType,
        index: u32,
        stride: u32,
        start: u32,
        ctx: &mut GlContext,
    )
        requires
            old(ctx).slots.spec_get(SlotKind::VertexArray) == self.id_spec(),
        ensures
            final(ctx).log() == old(ctx).log().push(
                Call::VertexAttribPointer {
                    location: index,
                    size: attrib.components,
                    type_: attrib.type_.enum_spec(),
                    normalized: false,
                    stride,
                    offset: start,
                },
            ),
            final(ctx).slots == old(ctx).slots,
            final(ctx).next_id == old(ctx).next_id,
    {
        ctx.record(
            DriverCall::VertexAttribPointer {
                location: index,
                size: attrib.components,
                type_: attrib.type_.to_enum(),
                normalized: false,
                stride,
                offset: start,
            },
        );
    }
}

impl GlObject for VertexArray {
    closed spec fn id_spec(&self) -> u32 {
        self.id
    }

    fn get_id(&self) -> u32 {
        self.id
    }
}

impl GlTarget for VertexArray {
    open spec fn slot() -> SlotKind {
        SlotKind::VertexArray
    }

    fn slot_kind() -> SlotKind {
        SlotKind::VertexArray
    }
}

impl GlBind for VertexArray {
}

} // verus!
