use classfile::decode::{
    decode_class_file, decode_class_file_with_limit, read_annotations, read_attribute,
    read_bootstrap_methods, read_element_value, read_inner_class_attributes,
    read_line_number_table, read_local_variable_table, read_local_variable_type_table,
    read_parameter_annotations, read_stack_map_frame, read_stack_map_table, read_u16_vec,
    read_verification_type,
};
use classfile::error::DecodeError;
use classfile::model::{
    AnnotationElementValueType, AttributeInfoStructure, ConstantPoolInfo, ConstantPoolStructure,
    ConstantPoolTag, StackMapFrameType, VariableInfo,
};
use classfile::reader::Reader;

/// The sixteen-byte header of P8: magic, minor 0, major 52, pool count 1
/// (zero entries), access flags 0x0021, this-class 0, super-class 0, zero
/// interfaces, zero fields.
fn minimal_bytes() -> Vec<u8> {
    vec![
        0xCA, 0xFE, 0xBA, 0xBE, // magic
        0x00, 0x00, // minor 0
        0x00, 0x34, // major 52
        0x00, 0x01, // pool count 1 -> zero entries
        0x00, 0x21, // access flags
        0x00, 0x00, // this class
        0x00, 0x00, // super class
        0x00, 0x00, // zero interfaces
        0x00, 0x00, // zero fields
    ]
}

fn utf8_pool_entry(text: &str) -> ConstantPoolInfo {
    ConstantPoolInfo {
        tag: ConstantPoolTag::Utf8,
        info: ConstantPoolStructure::Utf8(text.to_string()),
    }
}

#[test]
fn minimal_class_file_decodes() {
    let c = decode_class_file(&minimal_bytes()).unwrap();
    assert_eq!(c.constant_pool.len(), 0);
    assert_eq!(c.interfaces.len(), 0);
    assert_eq!(c.fields.len(), 0);
}

#[test]
fn end_to_end_minimal_scenario() {
    let c = decode_class_file(&minimal_bytes()).unwrap();
    assert_eq!(c.magic, 0xCAFE_BABE);
    assert_eq!(c.minor_version, 0);
    assert_eq!(c.major_version, 52);
    assert_eq!(c.constant_pool, vec![]);
    assert_eq!(c.access_flags, 0x0021);
    assert_eq!(c.this_class, 0);
    assert_eq!(c.super_class, 0);
    assert_eq!(c.interfaces, vec![]);
    assert_eq!(c.fields, vec![]);
}

#[test]
fn decoding_is_deterministic() {
    let bytes = vec![
        0xCA, 0xFE, 0xBA, 0xBE, 0x00, 0x01, 0x00, 0x33, // magic, minor 1, major 51
        0x00, 0x03, // pool count 3 -> two entries
        0x03, 0x00, 0x00, 0x00, 0x2A, // Integer 42
        0x01, 0x00, 0x02, 0x68, 0x69, // Utf8 "hi"
        0x00, 0x20, 0x00, 0x01, 0x00, 0x02, // access, this, super
        0x00, 0x01, 0x00, 0x05, // one interface: 5
        0x00, 0x00, // zero fields
    ];
    let a = decode_class_file(&bytes).unwrap();
    let b = decode_class_file(&bytes).unwrap();
    assert_eq!(a, b);
}

#[test]
fn trailing_bytes_are_ignored() {
    let mut bytes = minimal_bytes();
    bytes.extend_from_slice(&[0xDE, 0xAD, 0xBE, 0xEF]);
    assert!(decode_class_file(&bytes).is_ok());
}

#[test]
fn bad_magic_fails() {
    let mut bytes = minimal_bytes();
    bytes[3] = 0xBD;
    assert_eq!(decode_class_file(&bytes), Err(DecodeError::BadMagic));
}

#[test]
fn empty_stream_is_truncated() {
    assert_eq!(decode_class_file(&[]), Err(DecodeError::TruncatedInput));
}

#[test]
fn truncated_header_fails() {
    let bytes = vec![0xCA, 0xFE, 0xBA, 0xBE, 0x00, 0x00, 0x00];
    assert_eq!(decode_class_file(&bytes), Err(DecodeError::TruncatedInput));
}

#[test]
fn pool_count_zero_yields_no_entries() {
    let mut bytes = minimal_bytes();
    bytes[9] = 0x00; // pool count 0
    let c = decode_class_file(&bytes).unwrap();
    assert_eq!(c.constant_pool.len(), 0);
}

#[test]
fn pool_tag_two_fails_with_unknown_constant_tag() {
    let mut bytes = vec![
        0xCA, 0xFE, 0xBA, 0xBE, 0x00, 0x00, 0x00, 0x34, // header
        0x00, 0x03, // pool count 3 -> two entries
        0x02, // tag 2: unrecognized
    ];
    bytes.extend_from_slice(&[0x00; 32]); // entries declared after the bad one
    assert_eq!(decode_class_file(&bytes), Err(DecodeError::UnknownConstantTag));
}

#[test]
fn pool_tag_nineteen_fails_with_unknown_constant_tag() {
    let bytes = vec![
        0xCA, 0xFE, 0xBA, 0xBE, 0x00, 0x00, 0x00, 0x34, // header
        0x00, 0x02, // pool count 2 -> one entry
        0x13, // tag 19: unrecognized
    ];
    assert_eq!(decode_class_file(&bytes), Err(DecodeError::UnknownConstantTag));
}

#[test]
fn bad_tag_after_valid_entry_still_fails() {
    let bytes = vec![
        0xCA, 0xFE, 0xBA, 0xBE, 0x00, 0x00, 0x00, 0x34, // header
        0x00, 0x04, // pool count 4 -> three entries
        0x07, 0x00, 0x05, // Class entry, fine
        0x0D, // tag 13: unrecognized
        0x07, 0x00, 0x06, // declared third entry, never reached
    ];
    assert_eq!(decode_class_file(&bytes), Err(DecodeError::UnknownConstantTag));
}

#[test]
fn truncated_utf8_is_truncated_input_not_invalid_utf8() {
    let bytes = vec![
        0xCA, 0xFE, 0xBA, 0xBE, 0x00, 0x00, 0x00, 0x34, // header
        0x00, 0x02, // pool count 2 -> one entry
        0x01, 0x00, 0x05, // Utf8, declared length 5 ...
        0x68, 0x69, // ... but only two bytes remain
    ];
    assert_eq!(decode_class_file(&bytes), Err(DecodeError::TruncatedInput));
}

#[test]
fn malformed_utf8_fails_with_invalid_utf8() {
    let bytes = vec![
        0xCA, 0xFE, 0xBA, 0xBE, 0x00, 0x00, 0x00, 0x34, // header
        0x00, 0x02, // pool count 2 -> one entry
        0x01, 0x00, 0x01, 0xFF, // Utf8 of one byte 0xFF: not UTF-8
    ];
    assert_eq!(decode_class_file(&bytes), Err(DecodeError::InvalidUtf8));
}

#[test]
fn utf8_entry_decodes_to_text() {
    let text = "Hi\u{2603}"; // two ASCII characters and a three-byte snowman
    let encoded = text.as_bytes();
    let mut bytes = vec![
        0xCA, 0xFE, 0xBA, 0xBE, 0x00, 0x00, 0x00, 0x34, // header
        0x00, 0x02, // pool count 2 -> one entry
        0x01, 0x00, encoded.len() as u8,
    ];
    bytes.extend_from_slice(encoded);
    bytes.extend_from_slice(&[0x00, 0x21, 0x00, 0x00, 0x00, 0x00, 0x00, 0x00, 0x00, 0x00]);
    let c = decode_class_file(&bytes).unwrap();
    assert_eq!(c.constant_pool.len(), 1);
    assert_eq!(
        c.constant_pool[0].info,
        ConstantPoolStructure::Utf8(text.to_string())
    );
}

#[test]
fn every_pool_kind_decodes() {
    let mut bytes = vec![
        0xCA, 0xFE, 0xBA, 0xBE, 0x00, 0x00, 0x00, 0x34, // header
        0x00, 0x0E, // pool count 14 -> thirteen entries
    ];
    bytes.extend_from_slice(&[0x03, 0x00, 0x00, 0x00, 0x2A]); // Integer
    bytes.extend_from_slice(&[0x04, 0x3F, 0x80, 0x00, 0x00]); // Float bits
    bytes.extend_from_slice(&[0x05, 0x00, 0x00, 0x00, 0x01, 0x00, 0x00, 0x00, 0x02]); // Long
    bytes.extend_from_slice(&[0x06, 0x40, 0x09, 0x00, 0x00, 0x00, 0x00, 0x00, 0x00]); // Double
    bytes.extend_from_slice(&[0x07, 0x00, 0x01]); // Class
    bytes.extend_from_slice(&[0x08, 0x00, 0x01]); // String
    bytes.extend_from_slice(&[0x09, 0x00, 0x05, 0x00, 0x06]); // FieldRef
    bytes.extend_from_slice(&[0x0A, 0x00, 0x05, 0x00, 0x06]); // MethodRef
    bytes.extend_from_slice(&[0x0B, 0x00, 0x05, 0x00, 0x06]); // InterfaceMethodRef
    bytes.extend_from_slice(&[0x0C, 0x00, 0x01, 0x00, 0x02]); // NameAndType
    bytes.extend_from_slice(&[0x0F, 0x06, 0x00, 0x07]); // MethodHandle
    bytes.extend_from_slice(&[0x10, 0x00, 0x02]); // MethodType
    bytes.extend_from_slice(&[0x12, 0x00, 0x00, 0x00, 0x0C]); // InvokeDynamic
    bytes.extend_from_slice(&[0x00, 0x21, 0x00, 0x00, 0x00, 0x00, 0x00, 0x00, 0x00, 0x00]);
    let c = decode_class_file(&bytes).unwrap();
    assert_eq!(c.constant_pool.len(), 13);
    assert_eq!(c.constant_pool[0].info, ConstantPoolStructure::Integer(42));
    assert_eq!(c.constant_pool[1].info, ConstantPoolStructure::Float(0x3F80_0000));
    assert_eq!(c.constant_pool[2].info, ConstantPoolStructure::Long(1, 2));
    assert_eq!(c.constant_pool[3].info, ConstantPoolStructure::Double(0x4009_0000, 0));
    assert_eq!(c.constant_pool[4].info, ConstantPoolStructure::Class(1));
    assert_eq!(c.constant_pool[5].info, ConstantPoolStructure::Str(1));
    assert_eq!(c.constant_pool[6].info, ConstantPoolStructure::FieldRef(5, 6));
    assert_eq!(c.constant_pool[7].info, ConstantPoolStructure::MethodRef(5, 6));
    assert_eq!(c.constant_pool[8].info, ConstantPoolStructure::InterfaceMethodRef(5, 6));
    assert_eq!(c.constant_pool[9].info, ConstantPoolStructure::NameAndType(1, 2));
    assert_eq!(c.constant_pool[10].info, ConstantPoolStructure::MethodHandle(6, 7));
    assert_eq!(c.constant_pool[11].info, ConstantPoolStructure::MethodType(2));
    assert_eq!(c.constant_pool[12].info, ConstantPoolStructure::InvokeDynamic(0, 12));
    assert_eq!(c.constant_pool[12].tag, ConstantPoolTag::InvokeDynamic);
}

#[test]
fn unknown_attribute_decodes_as_opaque_blob() {
    let pool = vec![utf8_pool_entry("SomethingElse")];
    let bytes = vec![
        0x00, 0x00, // name index 0
        0x00, 0x00, 0x00, 0x03, // declared length 3
        0xAA, 0xBB, 0xCC, // payload
        0x99, // trailing byte, not part of the attribute
    ];
    let mut r = Reader::new(&bytes);
    let before = r.position();
    let a = read_attribute(&mut r, &pool, 8).unwrap();
    assert_eq!(a.attribute_length, 3);
    assert_eq!(a.info, AttributeInfoStructure::Other(vec![0xAA, 0xBB, 0xCC]));
    assert_eq!(r.position(), before + 6 + 3);
}

#[test]
fn attribute_name_not_utf8_fails() {
    let pool = vec![ConstantPoolInfo {
        tag: ConstantPoolTag::Class,
        info: ConstantPoolStructure::Class(1),
    }];
    let bytes = vec![0x00, 0x00, 0x00, 0x00, 0x00, 0x00];
    let mut r = Reader::new(&bytes);
    assert_eq!(
        read_attribute(&mut r, &pool, 8),
        Err(DecodeError::AttributeNameNotUtf8)
    );
}

#[test]
fn attribute_name_index_out_of_pool_fails() {
    let pool: Vec<ConstantPoolInfo> = vec![];
    let bytes = vec![0x00, 0x07, 0x00, 0x00, 0x00, 0x00];
    let mut r = Reader::new(&bytes);
    assert_eq!(
        read_attribute(&mut r, &pool, 8),
        Err(DecodeError::AttributeNameNotUtf8)
    );
}

#[test]
fn source_file_attribute_decodes() {
    let pool = vec![utf8_pool_entry("SourceFile")];
    let bytes = vec![0x00, 0x00, 0x00, 0x00, 0x00, 0x02, 0x00, 0x07];
    let mut r = Reader::new(&bytes);
    let a = read_attribute(&mut r, &pool, 8).unwrap();
    assert_eq!(a.info, AttributeInfoStructure::SourceFile(7));
    assert_eq!(r.position(), 8);
}

#[test]
fn marker_attributes_consume_nothing() {
    let pool = vec![utf8_pool_entry("Synthetic"), utf8_pool_entry("Deprecated")];
    let bytes = vec![0x00, 0x00, 0x00, 0x00, 0x00, 0x00, 0x00, 0x01, 0x00, 0x00, 0x00, 0x00];
    let mut r = Reader::new(&bytes);
    let a = read_attribute(&mut r, &pool, 8).unwrap();
    assert_eq!(a.info, AttributeInfoStructure::Synthetic);
    assert_eq!(r.position(), 6);
    let b = read_attribute(&mut r, &pool, 8).unwrap();
    assert_eq!(b.info, AttributeInfoStructure::Deprecated);
    assert_eq!(r.position(), 12);
}

#[test]
fn code_attribute_decodes_with_nested_attribute() {
    let pool = vec![utf8_pool_entry("Code"), utf8_pool_entry("Mystery")];
    let bytes = vec![
        0x00, 0x00, // name index 0: "Code"
        0x00, 0x00, 0x00, 0x1A, // declared length
        0x00, 0x02, // max stack
        0x00, 0x03, // max locals
        0x00, 0x00, 0x00, 0x04, // code length 4
        0xAA, 0xBB, 0xCC, 0xDD, // instruction bytes
        0x00, 0x01, // one exception handler
        0x00, 0x01, 0x00, 0x02, 0x00, 0x03, 0x00, 0x04, // its four fields
        0x00, 0x01, // one nested attribute
        0x00, 0x01, 0x00, 0x00, 0x00, 0x01, 0x5A, // "Mystery", length 1, blob
    ];
    let mut r = Reader::new(&bytes);
    let a = read_attribute(&mut r, &pool, 8).unwrap();
    match a.info {
        AttributeInfoStructure::Code(code) => {
            assert_eq!(code.max_stack, 2);
            assert_eq!(code.max_locals, 3);
            assert_eq!(code.code, vec![0xAA, 0xBB, 0xCC, 0xDD]);
            assert_eq!(code.exception_table.len(), 1);
            assert_eq!(code.exception_table[0].start_pc, 1);
            assert_eq!(code.exception_table[0].end_pc, 2);
            assert_eq!(code.exception_table[0].handler_pc, 3);
            assert_eq!(code.exception_table[0].catch_type, 4);
            assert_eq!(code.attributes.len(), 1);
            assert_eq!(
                code.attributes[0].info,
                AttributeInfoStructure::Other(vec![0x5A])
            );
        },
        other => panic!("expected a Code attribute, got {:?}", other),
    }
}

#[test]
fn frame_64_decodes_as_same_locals_stack_item() {
    let bytes = vec![64, 1];
    let mut r = Reader::new(&bytes);
    let f = read_stack_map_frame(&mut r).unwrap();
    assert_eq!(f.frame_type, 64);
    match f.info {
        StackMapFrameType::SameLocalsStackItem(v) => {
            assert_eq!(v.tag, 1);
            assert_eq!(v.info, VariableInfo::Integer);
        },
        other => panic!("expected SameLocalsStackItem, got {:?}", other),
    }
    // no explicit offset-delta field is consumed: only the two bytes read
    assert_eq!(r.position(), 2);
}

#[test]
fn frame_ranges_decode() {
    // chop frame: kind 248, offset delta 9
    let bytes = vec![248, 0, 9];
    let mut r = Reader::new(&bytes);
    let f = read_stack_map_frame(&mut r).unwrap();
    assert_eq!(f.info, StackMapFrameType::Chop(9));
    // append frame: kind 253 carries exactly 253 - 251 = 2 verification types
    let bytes = vec![253, 0, 7, 1, 7, 0, 5];
    let mut r = Reader::new(&bytes);
    let f = read_stack_map_frame(&mut r).unwrap();
    match f.info {
        StackMapFrameType::Append(delta, locals) => {
            assert_eq!(delta, 7);
            assert_eq!(locals.len(), 2);
            assert_eq!(locals[0].info, VariableInfo::Integer);
            assert_eq!(locals[1].info, VariableInfo::Object(5));
        },
        other => panic!("expected Append, got {:?}", other),
    }
    // full frame: kind 255, delta 3, one local, empty stack
    let bytes = vec![255, 0, 3, 0, 1, 8, 0, 2, 0, 0];
    let mut r = Reader::new(&bytes);
    let f = read_stack_map_frame(&mut r).unwrap();
    match f.info {
        StackMapFrameType::Full(delta, locals, stack) => {
            assert_eq!(delta, 3);
            assert_eq!(locals.len(), 1);
            assert_eq!(locals[0].info, VariableInfo::Uninitialized(2));
            assert_eq!(stack.len(), 0);
        },
        other => panic!("expected Full, got {:?}", other),
    }
}

#[test]
fn reserved_frame_kind_fails() {
    let bytes = vec![130];
    let mut r = Reader::new(&bytes);
    assert_eq!(
        read_stack_map_frame(&mut r),
        Err(DecodeError::UnknownFrameType)
    );
}

#[test]
fn stack_map_table_decodes() {
    let bytes = vec![0x00, 0x02, 5, 251, 0, 9];
    let mut r = Reader::new(&bytes);
    let t = read_stack_map_table(&mut r).unwrap();
    assert_eq!(t.len(), 2);
    assert_eq!(t[0].frame_type, 5);
    assert_eq!(t[0].info, StackMapFrameType::Same);
    assert_eq!(t[1].info, StackMapFrameType::SameExtended(9));
}

#[test]
fn verification_tag_nine_fails() {
    let bytes = vec![9];
    let mut r = Reader::new(&bytes);
    assert_eq!(
        read_verification_type(&mut r),
        Err(DecodeError::UnknownVerificationTag)
    );
}

#[test]
fn verification_long_and_double_tags_are_swapped() {
    let bytes = vec![4, 3];
    let mut r = Reader::new(&bytes);
    assert_eq!(read_verification_type(&mut r).unwrap().info, VariableInfo::Long);
    assert_eq!(read_verification_type(&mut r).unwrap().info, VariableInfo::Double);
}

#[test]
fn nested_element_value_arrays_decode() {
    let bytes = vec![
        0x5B, 0x00, 0x02, // '[' with two elements
        0x5B, 0x00, 0x01, 0x49, 0x00, 0x05, // '[' of one 'I' constant
        0x5B, 0x00, 0x01, 0x49, 0x00, 0x06, // '[' of one 'I' constant
    ];
    let mut r = Reader::new(&bytes);
    let v = read_element_value(&mut r, 64).unwrap();
    assert_eq!(v.tag, 0x5B);
    match v.value {
        AnnotationElementValueType::Array(outer) => {
            assert_eq!(outer.len(), 2);
            let expected = [5u16, 6u16];
            for (k, inner) in outer.iter().enumerate() {
                match &inner.value {
                    AnnotationElementValueType::Array(vals) => {
                        assert_eq!(vals.len(), 1);
                        assert_eq!(
                            vals[0].value,
                            AnnotationElementValueType::Const(expected[k])
                        );
                    },
                    other => panic!("expected a nested array, got {:?}", other),
                }
            }
        },
        other => panic!("expected an array, got {:?}", other),
    }
}

#[test]
fn element_value_kinds_decode() {
    let bytes = vec![0x65, 0x00, 0x02, 0x00, 0x03]; // 'e'
    let mut r = Reader::new(&bytes);
    let v = read_element_value(&mut r, 8).unwrap();
    assert_eq!(v.value, AnnotationElementValueType::EnumConst(2, 3));
    let bytes = vec![0x63, 0x00, 0x09]; // 'c'
    let mut r = Reader::new(&bytes);
    let v = read_element_value(&mut r, 8).unwrap();
    assert_eq!(v.value, AnnotationElementValueType::ClassInfo(9));
    let bytes = vec![0x40, 0x00, 0x04, 0x00, 0x00]; // '@': annotation, no pairs
    let mut r = Reader::new(&bytes);
    let v = read_element_value(&mut r, 8).unwrap();
    match v.value {
        AnnotationElementValueType::Annotation(a) => {
            assert_eq!(a.type_index, 4);
            assert_eq!(a.element_value_pairs.len(), 0);
        },
        other => panic!("expected an annotation, got {:?}", other),
    }
}

#[test]
fn unknown_element_value_tag_fails() {
    let bytes = vec![0x58, 0x00, 0x01]; // 'X'
    let mut r = Reader::new(&bytes);
    assert_eq!(
        read_element_value(&mut r, 8),
        Err(DecodeError::UnknownElementValueTag)
    );
}

#[test]
fn recursion_limit_is_enforced() {
    // ten nested single-element arrays, then one constant
    let mut bytes = Vec::new();
    for _ in 0..10 {
        bytes.extend_from_slice(&[0x5B, 0x00, 0x01]);
    }
    bytes.extend_from_slice(&[0x49, 0x00, 0x01]);
    let mut r = Reader::new(&bytes);
    assert_eq!(
        read_element_value(&mut r, 5),
        Err(DecodeError::RecursionLimitExceeded)
    );
    let mut r = Reader::new(&bytes);
    assert!(read_element_value(&mut r, 64).is_ok());
}

#[test]
fn recursion_limit_reaches_whole_file_decode() {
    // a field with a "RuntimeVisibleAnnotations" attribute whose single
    // annotation value nests arrays deeper than the tiny ceiling allows
    let name = "RuntimeVisibleAnnotations".as_bytes();
    let mut bytes = vec![
        0xCA, 0xFE, 0xBA, 0xBE, 0x00, 0x00, 0x00, 0x34, // header
        0x00, 0x02, // pool count 2 -> one entry
        0x01, 0x00, name.len() as u8,
    ];
    bytes.extend_from_slice(name);
    bytes.extend_from_slice(&[0x00, 0x21, 0x00, 0x00, 0x00, 0x00, 0x00, 0x00]); // access, this, super, no interfaces
    bytes.extend_from_slice(&[0x00, 0x01]); // one field
    bytes.extend_from_slice(&[0x00, 0x01, 0x00, 0x02, 0x00, 0x03]); // its flags and indices
    bytes.extend_from_slice(&[0x00, 0x01]); // one attribute
    bytes.extend_from_slice(&[0x00, 0x00, 0x00, 0x00, 0x00, 0x63]); // name index 0, length
    bytes.extend_from_slice(&[0x00, 0x01]); // one annotation
    bytes.extend_from_slice(&[0x00, 0x02, 0x00, 0x01]); // type index, one pair
    bytes.extend_from_slice(&[0x00, 0x04]); // element name index
    for _ in 0..12 {
        bytes.extend_from_slice(&[0x5B, 0x00, 0x01]); // nested arrays
    }
    bytes.extend_from_slice(&[0x49, 0x00, 0x01]); // innermost constant
    assert_eq!(
        decode_class_file_with_limit(&bytes, 8),
        Err(DecodeError::RecursionLimitExceeded)
    );
    assert!(decode_class_file_with_limit(&bytes, 64).is_ok());
    assert!(decode_class_file(&bytes).is_ok());
}

#[test]
fn annotations_decode() {
    let bytes = vec![
        0x00, 0x01, // one annotation
        0x00, 0x03, // type index 3
        0x00, 0x01, // one pair
        0x00, 0x04, // element name index 4
        0x73, 0x00, 0x08, // 's' constant, index 8
    ];
    let mut r = Reader::new(&bytes);
    let anns = read_annotations(&mut r, 64).unwrap();
    assert_eq!(anns.len(), 1);
    assert_eq!(anns[0].type_index, 3);
    assert_eq!(anns[0].element_value_pairs.len(), 1);
    assert_eq!(anns[0].element_value_pairs[0].element_name_index, 4);
    assert_eq!(
        anns[0].element_value_pairs[0].value.value,
        AnnotationElementValueType::Const(8)
    );
}

#[test]
fn parameter_annotations_decode() {
    let bytes = vec![
        0x00, 0x02, // two parameters
        0x00, 0x00, // first: no annotations
        0x00, 0x01, 0x00, 0x05, 0x00, 0x00, // second: one annotation, no pairs
    ];
    let mut r = Reader::new(&bytes);
    let params = read_parameter_annotations(&mut r, 64).unwrap();
    assert_eq!(params.len(), 2);
    assert_eq!(params[0].annotations.len(), 0);
    assert_eq!(params[1].annotations.len(), 1);
    assert_eq!(params[1].annotations[0].type_index, 5);
}

#[test]
fn fixed_tables_decode() {
    let bytes = vec![0x00, 0x01, 0x00, 0x01, 0x00, 0x02, 0x00, 0x03, 0x00, 0x04];
    let mut r = Reader::new(&bytes);
    let t = read_inner_class_attributes(&mut r).unwrap();
    assert_eq!(t.len(), 1);
    assert_eq!(t[0].inner_class_info_index, 1);
    assert_eq!(t[0].outer_class_info_index, 2);
    assert_eq!(t[0].inner_name_index, 3);
    assert_eq!(t[0].inner_class_access_flags, 4);

    let bytes = vec![0x00, 0x02, 0x00, 0x01, 0x00, 0x0A, 0x00, 0x05, 0x00, 0x14];
    let mut r = Reader::new(&bytes);
    let t = read_line_number_table(&mut r).unwrap();
    assert_eq!(t.len(), 2);
    assert_eq!(t[0].start_pc, 1);
    assert_eq!(t[0].line_number, 10);
    assert_eq!(t[1].start_pc, 5);
    assert_eq!(t[1].line_number, 20);

    let bytes = vec![0x00, 0x01, 0x00, 0x01, 0x00, 0x02, 0x00, 0x03, 0x00, 0x04, 0x00, 0x05];
    let mut r = Reader::new(&bytes);
    let t = read_local_variable_table(&mut r).unwrap();
    assert_eq!(t.len(), 1);
    assert_eq!(t[0].start_pc, 1);
    assert_eq!(t[0].length, 2);
    assert_eq!(t[0].name_index, 3);
    assert_eq!(t[0].descriptor_index, 4);
    assert_eq!(t[0].index, 5);

    let bytes = vec![0x00, 0x01, 0x00, 0x06, 0x00, 0x07, 0x00, 0x08, 0x00, 0x09, 0x00, 0x0A];
    let mut r = Reader::new(&bytes);
    let t = read_local_variable_type_table(&mut r).unwrap();
    assert_eq!(t.len(), 1);
    assert_eq!(t[0].signature_index, 9);
}

#[test]
fn bootstrap_methods_decode() {
    let bytes = vec![
        0x00, 0x01, // one record
        0x00, 0x05, // method ref 5
        0x00, 0x02, 0x00, 0x07, 0x00, 0x09, // two arguments: 7 and 9
    ];
    let mut r = Reader::new(&bytes);
    let methods = read_bootstrap_methods(&mut r).unwrap();
    assert_eq!(methods.len(), 1);
    assert_eq!(methods[0].bootstrap_method_ref, 5);
    assert_eq!(methods[0].bootstrap_arguments, vec![7, 9]);
}

#[test]
fn u16_vec_reads_count_prefixed_values() {
    let bytes = vec![0x00, 0x03, 0x00, 0x01, 0x01, 0x00, 0xFF, 0xFF];
    let mut r = Reader::new(&bytes);
    assert_eq!(read_u16_vec(&mut r).unwrap(), vec![1, 256, 65535]);
    let bytes = vec![0x00, 0x02, 0x00, 0x01];
    let mut r = Reader::new(&bytes);
    assert_eq!(read_u16_vec(&mut r), Err(DecodeError::TruncatedInput));
}

#[test]
fn fields_with_attributes_decode() {
    let name = "ConstantValue".as_bytes();
    let mut bytes = vec![
        0xCA, 0xFE, 0xBA, 0xBE, 0x00, 0x00, 0x00, 0x34, // header
        0x00, 0x02, // pool count 2 -> one entry
        0x01, 0x00, name.len() as u8,
    ];
    bytes.extend_from_slice(name);
    bytes.extend_from_slice(&[0x00, 0x21, 0x00, 0x01, 0x00, 0x02]); // access, this, super
    bytes.extend_from_slice(&[0x00, 0x00]); // no interfaces
    bytes.extend_from_slice(&[0x00, 0x02]); // two fields
    bytes.extend_from_slice(&[0x00, 0x19, 0x00, 0x04, 0x00, 0x05, 0x00, 0x00]); // field, no attributes
    bytes.extend_from_slice(&[0x00, 0x09, 0x00, 0x06, 0x00, 0x07]); // field header
    bytes.extend_from_slice(&[0x00, 0x01]); // one attribute
    bytes.extend_from_slice(&[0x00, 0x00, 0x00, 0x00, 0x00, 0x02, 0x00, 0x08]); // ConstantValue -> 8
    let c = decode_class_file(&bytes).unwrap();
    assert_eq!(c.fields.len(), 2);
    assert_eq!(c.fields[0].access_flags, 0x19);
    assert_eq!(c.fields[0].attributes.len(), 0);
    assert_eq!(c.fields[1].name_index, 6);
    assert_eq!(c.fields[1].descriptor_index, 7);
    assert_eq!(c.fields[1].attributes.len(), 1);
    assert_eq!(c.fields[1].attributes[0].info, AttributeInfoStructure::ConstantValue(8));
}

#[test]
fn enclosing_method_and_signature_attributes_decode() {
    let pool = vec![utf8_pool_entry("EnclosingMethod"), utf8_pool_entry("Signature")];
    let bytes = vec![
        0x00, 0x00, 0x00, 0x00, 0x00, 0x04, 0x00, 0x05, 0x00, 0x06, // EnclosingMethod(5, 6)
        0x00, 0x01, 0x00, 0x00, 0x00, 0x02, 0x00, 0x09, // Signature(9)
    ];
    let mut r = Reader::new(&bytes);
    let a = read_attribute(&mut r, &pool, 8).unwrap();
    assert_eq!(a.info, AttributeInfoStructure::EnclosingMethod(5, 6));
    let b = read_attribute(&mut r, &pool, 8).unwrap();
    assert_eq!(b.info, AttributeInfoStructure::Signature(9));
}

#[test]
fn source_debug_extension_reads_declared_length() {
    let pool = vec![utf8_pool_entry("SourceDebugExtension")];
    let bytes = vec![0x00, 0x00, 0x00, 0x00, 0x00, 0x03, 0x01, 0x02, 0x03];
    let mut r = Reader::new(&bytes);
    let a = read_attribute(&mut r, &pool, 8).unwrap();
    assert_eq!(
        a.info,
        AttributeInfoStructure::SourceDebugExtension(vec![1, 2, 3])
    );
}

#[test]
fn exceptions_and_annotation_default_attributes_decode() {
    let pool = vec![utf8_pool_entry("Exceptions"), utf8_pool_entry("AnnotationDefault")];
    let bytes = vec![
        0x00, 0x00, 0x00, 0x00, 0x00, 0x06, 0x00, 0x02, 0x00, 0x03, 0x00, 0x09, // Exceptions
        0x00, 0x01, 0x00, 0x00, 0x00, 0x03, 0x49, 0x00, 0x05, // AnnotationDefault: 'I' 5
    ];
    let mut r = Reader::new(&bytes);
    let a = read_attribute(&mut r, &pool, 8).unwrap();
    assert_eq!(a.info, AttributeInfoStructure::Exceptions(vec![3, 9]));
    let b = read_attribute(&mut r, &pool, 8).unwrap();
    match b.info {
        AttributeInfoStructure::AnnotationDefault(v) => {
            assert_eq!(v.value, AnnotationElementValueType::Const(5));
        },
        other => panic!("expected AnnotationDefault, got {:?}", other),
    }
}

#[test]
fn truncated_attribute_payload_fails() {
    let pool = vec![utf8_pool_entry("Whatever")];
    let bytes = vec![0x00, 0x00, 0x00, 0x00, 0x00, 0x09, 0x01]; // declares 9, has 1
    let mut r = Reader::new(&bytes);
    assert_eq!(read_attribute(&mut r, &pool, 8), Err(DecodeError::TruncatedInput));
}
