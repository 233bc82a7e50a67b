use unitycatalog_common::delta::{
    struct_type_tag, DeltaDataType, DeltaStructField, DeltaStructType, StructTypeTag,
};

#[test]
fn struct_type_defaults_to_struct_tag() {
    assert_eq!(struct_type_tag(), StructTypeTag::Struct);
    assert_eq!(StructTypeTag::default(), StructTypeTag::Struct);
}

#[test]
fn struct_type_holds_fields() {
    let s = DeltaStructType {
        type_tag: struct_type_tag(),
        fields: vec![DeltaStructField {
            name: "id".into(),
            data_type: DeltaDataType::Primitive("long".into()),
            nullable: false,
            metadata: Default::default(),
        }],
    };
    assert_eq!(s.fields.len(), 1);
    assert_eq!(s.fields[0].data_type, DeltaDataType::Primitive("long".into()));
}
