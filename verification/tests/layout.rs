//! The vertex attribute layout compiler on concrete attribute sequences.
use glbind::vertex::{AttribSlot, AttribType, VertexFormatBuilder};
use glbind::GlType;

#[test]
fn three_floats_then_two_floats_gives_offsets_0_12_and_stride_20() {
    let mut b = VertexFormatBuilder::new();
    b.push(AttribType { type_: GlType::Float, components: 3 }, false);
    b.push(AttribType { type_: GlType::Float, components: 2 }, false);
    let format = b.build();
    assert_eq!(format.stride, 20);
    let attribs = format.attribs();
    assert_eq!(attribs.len(), 2);
    assert_eq!(attribs[0].offset, 0);
    assert_eq!(attribs[1].offset, 12);
    assert_eq!(attribs[0].location, 0);
    assert_eq!(attribs[1].location, 1);
    assert_eq!(attribs[0].size, 3);
    assert_eq!(attribs[1].size, 2);
    assert_eq!(attribs[0].type_, gl::FLOAT);
}

#[test]
fn stride_is_the_sum_of_footprints() {
    let mut b = VertexFormatBuilder::new();
    // One byte, one double pair, one unsigned short triple: 1 + 16 + 6.
    b.push(AttribType { type_: GlType::Byte, components: 1 }, true);
    b.push(AttribType { type_: GlType::Double, components: 2 }, false);
    b.push(AttribType { type_: GlType::UShort, components: 3 }, false);
    let format = b.build();
    assert_eq!(format.stride, 1 + 16 + 6);
    let attribs = format.attribs();
    assert_eq!(attribs[0].offset, 0);
    assert_eq!(attribs[1].offset, 1);
    assert_eq!(attribs[2].offset, 17);
    assert!(attribs[0].normalized);
    assert!(!attribs[1].normalized);
}

#[test]
fn empty_attribute_list_yields_empty_layout_with_stride_zero() {
    let b = VertexFormatBuilder::new();
    let format = b.build();
    assert_eq!(format.stride, 0);
    assert_eq!(format.attribs().len(), 0);
}

#[test]
fn attrib_slot_new_compiles_one_attribute() {
    let slot = AttribSlot::new(
        AttribType { type_: GlType::Int, components: 4 },
        7,
        true,
        32,
    );
    assert_eq!(slot.location, 7);
    assert_eq!(slot.type_, gl::INT);
    assert_eq!(slot.size, 4);
    assert!(slot.normalized);
    assert_eq!(slot.offset, 32);
}
