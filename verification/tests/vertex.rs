use kinc::g4::{VertexData, VertexStructureBuilder, VertexStructureError};

const ALL_KINDS: [VertexData; 38] = [
    VertexData::Nothing,
    VertexData::F32_1X,
    VertexData::F32_2X,
    VertexData::F32_3X,
    VertexData::F32_4X,
    VertexData::F32_4X4,
    VertexData::I8_1X,
    VertexData::U8_1X,
    VertexData::I8_1xNormalized,
    VertexData::U8_1xNormalized,
    VertexData::I8_2X,
    VertexData::U8_2X,
    VertexData::I8_2xNormalized,
    VertexData::U8_2xNormalized,
    VertexData::I8_4X,
    VertexData::U8_4X,
    VertexData::I8_4xNormalized,
    VertexData::U8_4xNormalized,
    VertexData::I16_1X,
    VertexData::U16_1X,
    VertexData::I16_1xNormalized,
    VertexData::U16_1xNormalized,
    VertexData::I16_2X,
    VertexData::U16_2X,
    VertexData::I16_2xNormalized,
    VertexData::U16_2xNormalized,
    VertexData::I16_4X,
    VertexData::U16_4X,
    VertexData::I16_4xNormalized,
    VertexData::U16_4xNormalized,
    VertexData::I32_1X,
    VertexData::U32_1X,
    VertexData::I32_2X,
    VertexData::U32_2X,
    VertexData::I32_3X,
    VertexData::U32_3X,
    VertexData::I32_4X,
    VertexData::U32_4X,
];

#[test]
fn vertex_data_sizes_follow_the_table() {
    let sizes: [i32; 38] = [
        0, 4, 8, 12, 16, 64, 1, 1, 1, 1, 2, 2, 2, 2, 4, 4, 4, 4, 2, 2, 2, 2, 4, 4, 4, 4, 8, 8, 8,
        8, 4, 4, 8, 8, 12, 12, 16, 16,
    ];
    for (kind, size) in ALL_KINDS.iter().zip(sizes.iter()) {
        assert_eq!(kind.size(), *size, "{:?}", kind);
    }
}

#[test]
fn vertex_data_codes_count_from_zero() {
    for (position, kind) in ALL_KINDS.iter().enumerate() {
        assert_eq!((*kind).into(), position as u32, "{:?}", kind);
    }
    assert_eq!(VertexData::Nothing.into(), 0);
    assert_eq!(VertexData::F32_4X4.into(), 5);
    assert_eq!(VertexData::U8_4xNormalized.into(), 17);
    assert_eq!(VertexData::U32_4X.into(), 37);
}

#[test]
fn empty_layout_has_stride_0() {
    let layout = VertexStructureBuilder::new().build();
    assert_eq!(layout.size(), 0);
    assert_eq!(layout.len(), 0);
    assert!(!layout.instanced());
}

#[test]
fn default_builder_is_empty() {
    let layout = VertexStructureBuilder::default().build();
    assert_eq!(layout.size(), 0);
    assert_eq!(layout.len(), 0);
    assert!(!layout.instanced());
}

#[test]
fn one_vec3_field_has_stride_12() {
    let layout = VertexStructureBuilder::new()
        .add("pos", VertexData::F32_3X)
        .unwrap()
        .build();
    assert_eq!(layout.size(), 12);
}

#[test]
fn vec3_and_vec2_fields_have_stride_20() {
    let layout = VertexStructureBuilder::new()
        .add("pos", VertexData::F32_3X)
        .unwrap()
        .add("tex", VertexData::F32_2X)
        .unwrap()
        .build();
    assert_eq!(layout.size(), 20);
}

#[test]
fn stride_is_the_sum_of_the_field_sizes() {
    let mut builder = VertexStructureBuilder::new();
    let mut sum = 0;
    for kind in ALL_KINDS.iter() {
        builder = builder.add("field", *kind).unwrap();
        sum += kind.size();
    }
    let layout = builder.build();
    assert_eq!(sum, 268);
    assert_eq!(layout.size(), 268);
    assert_eq!(layout.len(), 38);
}

#[test]
fn fields_keep_their_order_names_and_kinds() {
    let layout = VertexStructureBuilder::new()
        .add("pos", VertexData::F32_3X)
        .unwrap()
        .add("col", VertexData::U8_4xNormalized)
        .unwrap()
        .add("pos", VertexData::I16_2X)
        .unwrap()
        .build();
    assert_eq!(layout.len(), 3);
    assert_eq!(layout.element(0).name, "pos");
    assert_eq!(layout.element(0).data, VertexData::F32_3X);
    assert_eq!(layout.element(1).name, "col");
    assert_eq!(layout.element(1).data, VertexData::U8_4xNormalized);
    assert_eq!(layout.element(2).name, "pos");
    assert_eq!(layout.element(2).data, VertexData::I16_2X);
    assert_eq!(layout.size(), 20);
}

#[test]
fn instanced_sets_the_flag_and_keeps_the_fields() {
    let layout = VertexStructureBuilder::new()
        .add("offset", VertexData::F32_2X)
        .unwrap()
        .instanced(true)
        .build();
    assert!(layout.instanced());
    assert_eq!(layout.len(), 1);
    assert_eq!(layout.size(), 8);
    let layout = VertexStructureBuilder::new().instanced(true).instanced(false).build();
    assert!(!layout.instanced());
}

#[test]
fn add_keeps_the_instanced_flag() {
    let layout = VertexStructureBuilder::new()
        .instanced(true)
        .add("offset", VertexData::F32_2X)
        .unwrap()
        .build();
    assert!(layout.instanced());
}

#[test]
fn add_refuses_a_name_with_a_nul() {
    for name in ["\0", "po\0s", "pos\0", "\0pos"] {
        let added = VertexStructureBuilder::new().add(name, VertexData::F32_3X);
        assert!(matches!(added, Err(VertexStructureError::InvalidName)), "{:?}", name);
    }
}

#[test]
fn add_takes_an_empty_or_non_ascii_name() {
    let layout = VertexStructureBuilder::new()
        .add("", VertexData::F32_1X)
        .unwrap()
        .add("posição", VertexData::F32_1X)
        .unwrap()
        .build();
    assert_eq!(layout.element(0).name, "");
    assert_eq!(layout.element(1).name, "posição");
}

#[test]
fn add_fails_when_the_stride_outgrows_i32() {
    let mut builder = VertexStructureBuilder::new();
    let mut fields: i32 = 0;
    while fields < i32::MAX / 64 {
        builder = builder.add("", VertexData::F32_4X4).unwrap();
        fields += 1;
    }
    assert!(matches!(
        builder.add("", VertexData::F32_4X4),
        Err(VertexStructureError::TooLarge)
    ));
}

#[test]
fn the_largest_stride_that_fits_is_accepted() {
    let mut builder = VertexStructureBuilder::new();
    let mut fields: i32 = 0;
    while fields < i32::MAX / 64 {
        builder = builder.add("", VertexData::F32_4X4).unwrap();
        fields += 1;
    }
    let layout = builder
        .add("", VertexData::F32_4X)
        .unwrap()
        .add("", VertexData::F32_4X)
        .unwrap()
        .add("", VertexData::F32_4X)
        .unwrap()
        .add("", VertexData::I16_4X)
        .unwrap()
        .add("", VertexData::I8_4X)
        .unwrap()
        .add("", VertexData::I8_2X)
        .unwrap()
        .add("", VertexData::I8_1X)
        .unwrap()
        .build();
    assert_eq!(layout.size(), i32::MAX);
}

#[test]
fn a_name_error_comes_before_a_size_error() {
    let mut builder = VertexStructureBuilder::new();
    let mut fields: i32 = 0;
    while fields < i32::MAX / 64 {
        builder = builder.add("", VertexData::F32_4X4).unwrap();
        fields += 1;
    }
    assert!(matches!(
        builder.add("\0", VertexData::F32_4X4),
        Err(VertexStructureError::InvalidName)
    ));
}

#[test]
fn clone_keeps_fields_flag_and_stride() {
    let layout = VertexStructureBuilder::new()
        .add("pos", VertexData::F32_3X)
        .unwrap()
        .add("tex", VertexData::F32_2X)
        .unwrap()
        .instanced(true)
        .build();
    let copy = layout.clone();
    assert_eq!(copy.len(), 2);
    assert_eq!(copy.size(), 20);
    assert!(copy.instanced());
    assert_eq!(copy.element(0).name, "pos");
    assert_eq!(copy.element(0).data, VertexData::F32_3X);
    assert_eq!(copy.element(1).name, "tex");
    assert_eq!(copy.element(1).data, VertexData::F32_2X);
}
