//! The executable decoders.
//!
//! Each function drives the cursor through one structure of the format and is
//! proved to return exactly what the matching specification function of
//! [`crate::format`] says: the same value (through the `view_*` functions of
//! [`crate::model`]), the same final position, and the same error on the same
//! streams.

use crate::error::DecodeError;
use crate::format::{
    spec_attr_seq, spec_attribute, spec_attributes, spec_annotation,
    spec_annotation_seq, spec_annotations, spec_bootstrap_method, spec_bootstrap_methods,
    spec_bootstrap_seq, spec_class_file, spec_code_attribute, spec_constant_pool, spec_cp_entry,
    spec_cp_entry_seq, spec_element_value, spec_element_value_pair,
    spec_element_value_pairs, spec_element_value_seq, spec_element_values, spec_exception_entry,
    spec_exception_seq, spec_exception_table, spec_field, spec_field_seq, spec_fields,
    spec_frame_seq, spec_inner_class_entry, spec_inner_class_seq, spec_inner_classes,
    spec_line_number_entry, spec_line_number_seq, spec_line_number_table,
    spec_local_variable_entry, spec_local_variable_seq, spec_local_variable_table,
    spec_local_variable_type_entry, spec_local_variable_type_seq, spec_local_variable_type_table,
    spec_pair_seq, spec_param_seq, spec_parameter_annotations, spec_pool_tag, spec_read_u16_seq,
    spec_read_u16_vec, spec_stack_map_frame, spec_stack_map_table,
    spec_verification_type, spec_vt_counted, spec_vt_seq, CLASS_FILE_MAGIC,
};
use crate::model::{
    lemma_view_constant_pool_index, view_annotation, view_annotations, view_attribute, view_attributes, view_bootstrap_method,
    view_bootstrap_methods, view_class_file, view_code, view_constant_pool, view_cp_info,
    view_element_value, view_element_value_pair, view_element_value_pairs,
    view_element_values, view_field, view_fields, view_frame, view_frames,
    view_parameter_annotation, view_parameter_annotations, AnnotationElementValue,
    AnnotationElementValuePair, AnnotationElementValueType, AnnotationInfo, AttributeInfo,
    AttributeInfoStructure, BootstrapMethodInfo, ClassFile, CodeAttributeInfo, ConstantPoolInfo,
    ConstantPoolStructure, ConstantPoolTag, ExceptionTableInfo, FieldInfo,
    InnerClassAttributeInfo, LineNumberTableInfo, LocalVariableTableInfo,
    LocalVariableTypeTableInfo, ParameterAnnotationInfo, SpecAnnotationElementValue,
    SpecAnnotationElementValuePair, SpecAnnotationInfo, SpecAttributeInfo, SpecBootstrapMethodInfo,
    SpecConstantPoolInfo, SpecFieldInfo, SpecParameterAnnotationInfo, SpecStackMapFrame,
    StackMapFrame, StackMapFrameType, VariableInfo, VerificationTypeInfo,
};
use crate::reader::Reader;
use vstd::prelude::*;
use vstd::utf8::{decode_utf8, valid_utf8};

verus! {

broadcast use vstd::seq::group_seq_axioms, vstd::std_specs::vec::group_vec_axioms;

/// How deep attribute and annotation nesting may go before
/// [`decode_class_file`] fails with `RecursionLimitExceeded`.
pub const DEFAULT_RECURSION_LIMIT: u32 = 64;

/// Relies on `String::from_utf8`: it returns `Ok` exactly when the bytes are
/// well-formed UTF-8, and the returned string's characters are then the
/// bytes' UTF-8 decoding (both sides as vstd's `valid_utf8` / `decode_utf8`
/// state them).
#[verifier::external_body]
fn utf8_to_string(bytes: Vec<u8>) -> (res: Option<String>)
    ensures
        res is Some <==> valid_utf8(bytes@),
        res matches Some(t) ==> t@ == decode_utf8(bytes@),
{
    String::from_utf8(bytes).ok()
}

/// Byte-for-byte slice equality.
fn bytes_eq(a: &[u8], b: &[u8]) -> (r: bool)
    ensures
        r == (a@ == b@),
{
    if a.len() != b.len() {
        proof {
            assert(a@ != b@);
        }
        return false;
    }
    let n: usize = a.len();
    let mut i: usize = 0;
    while i < n
        invariant
            i <= n,
            n == a@.len(),
            n == b@.len(),
            forall|j: int| 0 <= j < i ==> a@[j] == b@[j],
        decreases n - i,
    {
        if a[i] != b[i] {
            return false;
        }
        i = i + 1;
    }
    proof {
        assert(a@ =~= b@);
    }
    true
}

/// String equality over the characters, through the UTF-8 encodings.
fn str_eq(a: &str, b: &str) -> (r: bool)
    ensures
        r == (a@ == b@),
{
    let r = bytes_eq(a.as_bytes(), b.as_bytes());
    proof {
        // the UTF-8 encoding is injective: equal encodings decode to equal text
        vstd::utf8::encode_utf8_decode_utf8(a@);
        vstd::utf8::encode_utf8_decode_utf8(b@);
    }
    r
}

/// Reads a 16-bit count, then that many 16-bit values.
#[verifier::loop_isolation(false)]
pub fn read_u16_vec(r: &mut Reader) -> (res: Result<Vec<u16>, DecodeError>)
    requires
        old(r).wf(),
    ensures
        final (r).wf(),
        final (r).stream() == old(r).stream(),
        match spec_read_u16_vec(old(r).stream(), old(r).spec_pos()) {
            Ok(t) => res matches Ok(v) && v@ == t.0 && final (r).spec_pos() == t.1,
            Err(e) => res matches Err(e2) && e2 == e,
        },
{
    let count: u16 = match r.read_u16() {
        Ok(c) => c,
        Err(e) => {
            return Err(e);
        },
    };
    let ghost s = r.stream();
    let ghost p_start = r.spec_pos();
    let mut out: Vec<u16> = Vec::new();
    let mut i: usize = 0;
    while i < count as usize
        invariant
            r.wf(),
            r.stream() == s,
            i <= count as usize,
            match spec_read_u16_seq(s, r.spec_pos(), (count as usize - i) as nat) {
                Ok(t) => spec_read_u16_seq(s, p_start, count as nat) == Ok::<
                    (Seq<u16>, int),
                    DecodeError,
                >((out@ + t.0, t.1)),
                Err(e) => spec_read_u16_seq(s, p_start, count as nat) == Err::<
                    (Seq<u16>, int),
                    DecodeError,
                >(e),
            },
        decreases count as int - i as int,
    {
        let ghost rem = (count as usize - i) as nat;
        let v: u16 = match r.read_u16() {
            Ok(v) => v,
            Err(e) => {
                return Err(e);
            },
        };
        let ghost prev = out@;
        out.push(v);
        i = i + 1;
        proof {
            match spec_read_u16_seq(s, r.spec_pos(), (rem - 1) as nat) {
                Ok(t) => {
                    assert(prev + (seq![v] + t.0) =~= out@ + t.0);
                },
                Err(_) => {},
            }
        }
    }
    proof {
        assert(out@ + Seq::<u16>::empty() =~= out@);
    }
    Ok(out)
}

/// Reads one verification type.
pub fn read_verification_type(r: &mut Reader) -> (res: Result<VerificationTypeInfo, DecodeError>)
    requires
        old(r).wf(),
    ensures
        final (r).wf(),
        final (r).stream() == old(r).stream(),
        match spec_verification_type(old(r).stream(), old(r).spec_pos()) {
            Ok(t) => res matches Ok(v) && v == t.0 && final (r).spec_pos() == t.1,
            Err(e) => res matches Err(e2) && e2 == e,
        },
{
    let tag: u8 = match r.read_u8() {
        Ok(t) => t,
        Err(e) => {
            return Err(e);
        },
    };
    let info: VariableInfo = if tag == 0 {
        VariableInfo::Top
    } else if tag == 1 {
        VariableInfo::Integer
    } else if tag == 2 {
        VariableInfo::Float
    } else if tag == 4 {
        VariableInfo::Long
    } else if tag == 3 {
        VariableInfo::Double
    } else if tag == 5 {
        VariableInfo::Null
    } else if tag == 6 {
        VariableInfo::UninitializedThis
    } else if tag == 7 {
        match r.read_u16() {
            Ok(i) => VariableInfo::Object(i),
            Err(e) => {
                return Err(e);
            },
        }
    } else if tag == 8 {
        match r.read_u16() {
            Ok(i) => VariableInfo::Uninitialized(i),
            Err(e) => {
                return Err(e);
            },
        }
    } else {
        return Err(DecodeError::UnknownVerificationTag);
    };
    Ok(VerificationTypeInfo { tag, info })
}

/// Reads exactly `count` verification types.
#[verifier::loop_isolation(false)]
pub fn read_verification_types_with_count(r: &mut Reader, count: u16) -> (res: Result<
    Vec<VerificationTypeInfo>,
    DecodeError,
>)
    requires
        old(r).wf(),
    ensures
        final (r).wf(),
        final (r).stream() == old(r).stream(),
        match spec_vt_seq(old(r).stream(), old(r).spec_pos(), count as nat) {
            Ok(t) => res matches Ok(v) && v@ == t.0 && final (r).spec_pos() == t.1,
            Err(e) => res matches Err(e2) && e2 == e,
        },
{
    let ghost s = r.stream();
    let ghost p_start = r.spec_pos();
    let mut out: Vec<VerificationTypeInfo> = Vec::new();
    let mut i: usize = 0;
    while i < count as usize
        invariant
            r.wf(),
            r.stream() == s,
            i <= count as usize,
            match spec_vt_seq(s, r.spec_pos(), (count as usize - i) as nat) {
                Ok(t) => spec_vt_seq(s, p_start, count as nat) == Ok::<
                    (Seq<VerificationTypeInfo>, int),
                    DecodeError,
                >((out@ + t.0, t.1)),
                Err(e) => spec_vt_seq(s, p_start, count as nat) == Err::<
                    (Seq<VerificationTypeInfo>, int),
                    DecodeError,
                >(e),
            },
        decreases count as int - i as int,
    {
        let ghost rem = (count as usize - i) as nat;
        let v: VerificationTypeInfo = match read_verification_type(r) {
            Ok(v) => v,
            Err(e) => {
                return Err(e);
            },
        };
        let ghost prev = out@;
        out.push(v);
        i = i + 1;
        proof {
            match spec_vt_seq(s, r.spec_pos(), (rem - 1) as nat) {
                Ok(t) => {
                    assert(prev + (seq![v] + t.0) =~= out@ + t.0);
                },
                Err(_) => {},
            }
        }
    }
    proof {
        assert(out@ + Seq::<VerificationTypeInfo>::empty() =~= out@);
    }
    Ok(out)
}

/// Reads a 16-bit count, then that many verification types.
pub fn read_verification_types(r: &mut Reader) -> (res: Result<
    Vec<VerificationTypeInfo>,
    DecodeError,
>)
    requires
        old(r).wf(),
    ensures
        final (r).wf(),
        final (r).stream() == old(r).stream(),
        match spec_vt_counted(old(r).stream(), old(r).spec_pos()) {
            Ok(t) => res matches Ok(v) && v@ == t.0 && final (r).spec_pos() == t.1,
            Err(e) => res matches Err(e2) && e2 == e,
        },
{
    let count: u16 = match r.read_u16() {
        Ok(c) => c,
        Err(e) => {
            return Err(e);
        },
    };
    read_verification_types_with_count(r, count)
}

/// Reads one stack map frame.
pub fn read_stack_map_frame(r: &mut Reader) -> (res: Result<StackMapFrame, DecodeError>)
    requires
        old(r).wf(),
    ensures
        final (r).wf(),
        final (r).stream() == old(r).stream(),
        match spec_stack_map_frame(old(r).stream(), old(r).spec_pos()) {
            Ok(t) => res matches Ok(v) && view_frame(v) == t.0 && final (r).spec_pos() == t.1,
            Err(e) => res matches Err(e2) && e2 == e,
        },
{
    let frame_type: u8 = match r.read_u8() {
        Ok(t) => t,
        Err(e) => {
            return Err(e);
        },
    };
    let info: StackMapFrameType = if frame_type <= 63 {
        StackMapFrameType::Same
    } else if frame_type <= 127 {
        match read_verification_type(r) {
            Ok(v) => StackMapFrameType::SameLocalsStackItem(v),
            Err(e) => {
                return Err(e);
            },
        }
    } else if frame_type == 247 {
        let d: u16 = match r.read_u16() {
            Ok(d) => d,
            Err(e) => {
                return Err(e);
            },
        };
        match read_verification_type(r) {
            Ok(v) => StackMapFrameType::SameLocalsStackItemExtended(d, v),
            Err(e) => {
                return Err(e);
            },
        }
    } else if 248 <= frame_type && frame_type <= 250 {
        match r.read_u16() {
            Ok(d) => StackMapFrameType::Chop(d),
            Err(e) => {
                return Err(e);
            },
        }
    } else if frame_type == 251 {
        match r.read_u16() {
            Ok(d) => StackMapFrameType::SameExtended(d),
            Err(e) => {
                return Err(e);
            },
        }
    } else if 252 <= frame_type && frame_type <= 254 {
        let d: u16 = match r.read_u16() {
            Ok(d) => d,
            Err(e) => {
                return Err(e);
            },
        };
        match read_verification_types_with_count(r, (frame_type - 251) as u16) {
            Ok(locals) => StackMapFrameType::Append(d, locals),
            Err(e) => {
                return Err(e);
            },
        }
    } else if frame_type == 255 {
        let d: u16 = match r.read_u16() {
            Ok(d) => d,
            Err(e) => {
                return Err(e);
            },
        };
        let locals: Vec<VerificationTypeInfo> = match read_verification_types(r) {
            Ok(v) => v,
            Err(e) => {
                return Err(e);
            },
        };
        match read_verification_types(r) {
            Ok(stack) => StackMapFrameType::Full(d, locals, stack),
            Err(e) => {
                return Err(e);
            },
        }
    } else {
        return Err(DecodeError::UnknownFrameType);
    };
    Ok(StackMapFrame { frame_type, info })
}

/// Reads a `StackMapTable` payload: a 16-bit count, then that many frames.
#[verifier::loop_isolation(false)]
pub fn read_stack_map_table(r: &mut Reader) -> (res: Result<Vec<StackMapFrame>, DecodeError>)
    requires
        old(r).wf(),
    ensures
        final (r).wf(),
        final (r).stream() == old(r).stream(),
        match spec_stack_map_table(old(r).stream(), old(r).spec_pos()) {
            Ok(t) => res matches Ok(v) && view_frames(v@) == t.0 && final (r).spec_pos() == t.1,
            Err(e) => res matches Err(e2) && e2 == e,
        },
{
    let count: u16 = match r.read_u16() {
        Ok(c) => c,
        Err(e) => {
            return Err(e);
        },
    };
    let ghost s = r.stream();
    let ghost p_start = r.spec_pos();
    let mut out: Vec<StackMapFrame> = Vec::new();
    let mut i: usize = 0;
    while i < count as usize
        invariant
            r.wf(),
            r.stream() == s,
            i <= count as usize,
            match spec_frame_seq(s, r.spec_pos(), (count as usize - i) as nat) {
                Ok(t) => spec_frame_seq(s, p_start, count as nat) == Ok::<
                    (Seq<SpecStackMapFrame>, int),
                    DecodeError,
                >((view_frames(out@) + t.0, t.1)),
                Err(e) => spec_frame_seq(s, p_start, count as nat) == Err::<
                    (Seq<SpecStackMapFrame>, int),
                    DecodeError,
                >(e),
            },
        decreases count as int - i as int,
    {
        let ghost rem = (count as usize - i) as nat;
        let v: StackMapFrame = match read_stack_map_frame(r) {
            Ok(v) => v,
            Err(e) => {
                return Err(e);
            },
        };
        let ghost prev = out@;
        out.push(v);
        i = i + 1;
        proof {
            assert(out@.drop_last() =~= prev);
            match spec_frame_seq(s, r.spec_pos(), (rem - 1) as nat) {
                Ok(t) => {
                    assert(view_frames(prev) + (seq![view_frame(v)] + t.0) =~= view_frames(out@)
                        + t.0);
                },
                Err(_) => {},
            }
        }
    }
    proof {
        assert(view_frames(out@) + Seq::<SpecStackMapFrame>::empty() =~= view_frames(out@));
    }
    Ok(out)
}

/// Reads one exception handler record.
pub fn read_exception_entry(r: &mut Reader) -> (res: Result<ExceptionTableInfo, DecodeError>)
    requires
        old(r).wf(),
    ensures
        final (r).wf(),
        final (r).stream() == old(r).stream(),
        match spec_exception_entry(old(r).stream(), old(r).spec_pos()) {
            Ok(t) => res matches Ok(v) && v == t.0 && final (r).spec_pos() == t.1,
            Err(e) => res matches Err(e2) && e2 == e,
        },
{
    let start_pc: u16 = match r.read_u16() {
        Ok(v) => v,
        Err(e) => {
            return Err(e);
        },
    };
    let end_pc: u16 = match r.read_u16() {
        Ok(v) => v,
        Err(e) => {
            return Err(e);
        },
    };
    let handler_pc: u16 = match r.read_u16() {
        Ok(v) => v,
        Err(e) => {
            return Err(e);
        },
    };
    let catch_type: u16 = match r.read_u16() {
        Ok(v) => v,
        Err(e) => {
            return Err(e);
        },
    };
    Ok(ExceptionTableInfo { start_pc, end_pc, handler_pc, catch_type })
}

/// Reads a exception table: a 16-bit count, then that many records.
#[verifier::loop_isolation(false)]
pub fn read_exception_table(r: &mut Reader) -> (res: Result<Vec<ExceptionTableInfo>, DecodeError>)
    requires
        old(r).wf(),
    ensures
        final (r).wf(),
        final (r).stream() == old(r).stream(),
        match spec_exception_table(old(r).stream(), old(r).spec_pos()) {
            Ok(t) => res matches Ok(v) && v@ == t.0 && final (r).spec_pos() == t.1,
            Err(e) => res matches Err(e2) && e2 == e,
        },
{
    let count: u16 = match r.read_u16() {
        Ok(c) => c,
        Err(e) => {
            return Err(e);
        },
    };
    let ghost s = r.stream();
    let ghost p_start = r.spec_pos();
    let mut out: Vec<ExceptionTableInfo> = Vec::new();
    let mut i: usize = 0;
    while i < count as usize
        invariant
            r.wf(),
            r.stream() == s,
            i <= count as usize,
            match spec_exception_seq(s, r.spec_pos(), (count as usize - i) as nat) {
                Ok(t) => spec_exception_seq(s, p_start, count as nat) == Ok::<
                    (Seq<ExceptionTableInfo>, int),
                    DecodeError,
                >((out@ + t.0, t.1)),
                Err(e) => spec_exception_seq(s, p_start, count as nat) == Err::<
                    (Seq<ExceptionTableInfo>, int),
                    DecodeError,
                >(e),
            },
        decreases count as int - i as int,
    {
        let ghost rem = (count as usize - i) as nat;
        let v: ExceptionTableInfo = match read_exception_entry(r) {
            Ok(v) => v,
            Err(e) => {
                return Err(e);
            },
        };
        let ghost prev = out@;
        out.push(v);
        i = i + 1;
        proof {
            match spec_exception_seq(s, r.spec_pos(), (rem - 1) as nat) {
                Ok(t) => {
                    assert(prev + (seq![v] + t.0) =~= out@ + t.0);
                },
                Err(_) => {},
            }
        }
    }
    proof {
        assert(out@ + Seq::<ExceptionTableInfo>::empty() =~= out@);
    }
    Ok(out)
}

/// Reads one `InnerClasses` record.
pub fn read_inner_class_entry(r: &mut Reader) -> (res: Result<InnerClassAttributeInfo, DecodeError>)
    requires
        old(r).wf(),
    ensures
        final (r).wf(),
        final (r).stream() == old(r).stream(),
        match spec_inner_class_entry(old(r).stream(), old(r).spec_pos()) {
            Ok(t) => res matches Ok(v) && v == t.0 && final (r).spec_pos() == t.1,
            Err(e) => res matches Err(e2) && e2 == e,
        },
{
    let inner_class_info_index: u16 = match r.read_u16() {
        Ok(v) => v,
        Err(e) => {
            return Err(e);
        },
    };
    let outer_class_info_index: u16 = match r.read_u16() {
        Ok(v) => v,
        Err(e) => {
            return Err(e);
        },
    };
    let inner_name_index: u16 = match r.read_u16() {
        Ok(v) => v,
        Err(e) => {
            return Err(e);
        },
    };
    let inner_class_access_flags: u16 = match r.read_u16() {
        Ok(v) => v,
        Err(e) => {
            return Err(e);
        },
    };
    Ok(InnerClassAttributeInfo { inner_class_info_index, outer_class_info_index, inner_name_index, inner_class_access_flags })
}

/// Reads a `InnerClasses` table: a 16-bit count, then that many records.
#[verifier::loop_isolation(false)]
pub fn read_inner_class_attributes(r: &mut Reader) -> (res: Result<Vec<InnerClassAttributeInfo>, DecodeError>)
    requires
        old(r).wf(),
    ensures
        final (r).wf(),
        final (r).stream() == old(r).stream(),
        match spec_inner_classes(old(r).stream(), old(r).spec_pos()) {
            Ok(t) => res matches Ok(v) && v@ == t.0 && final (r).spec_pos() == t.1,
            Err(e) => res matches Err(e2) && e2 == e,
        },
{
    let count: u16 = match r.read_u16() {
        Ok(c) => c,
        Err(e) => {
            return Err(e);
        },
    };
    let ghost s = r.stream();
    let ghost p_start = r.spec_pos();
    let mut out: Vec<InnerClassAttributeInfo> = Vec::new();
    let mut i: usize = 0;
    while i < count as usize
        invariant
            r.wf(),
            r.stream() == s,
            i <= count as usize,
            match spec_inner_class_seq(s, r.spec_pos(), (count as usize - i) as nat) {
                Ok(t) => spec_inner_class_seq(s, p_start, count as nat) == Ok::<
                    (Seq<InnerClassAttributeInfo>, int),
                    DecodeError,
                >((out@ + t.0, t.1)),
                Err(e) => spec_inner_class_seq(s, p_start, count as nat) == Err::<
                    (Seq<InnerClassAttributeInfo>, int),
                    DecodeError,
                >(e),
            },
        decreases count as int - i as int,
    {
        let ghost rem = (count as usize - i) as nat;
        let v: InnerClassAttributeInfo = match read_inner_class_entry(r) {
            Ok(v) => v,
            Err(e) => {
                return Err(e);
            },
        };
        let ghost prev = out@;
        out.push(v);
        i = i + 1;
        proof {
            match spec_inner_class_seq(s, r.spec_pos(), (rem - 1) as nat) {
                Ok(t) => {
                    assert(prev + (seq![v] + t.0) =~= out@ + t.0);
                },
                Err(_) => {},
            }
        }
    }
    proof {
        assert(out@ + Seq::<InnerClassAttributeInfo>::empty() =~= out@);
    }
    Ok(out)
}

/// Reads one `LineNumberTable` record.
pub fn read_line_number_entry(r: &mut Reader) -> (res: Result<LineNumberTableInfo, DecodeError>)
    requires
        old(r).wf(),
    ensures
        final (r).wf(),
        final (r).stream() == old(r).stream(),
        match spec_line_number_entry(old(r).stream(), old(r).spec_pos()) {
            Ok(t) => res matches Ok(v) && v == t.0 && final (r).spec_pos() == t.1,
            Err(e) => res matches Err(e2) && e2 == e,
        },
{
    let start_pc: u16 = match r.read_u16() {
        Ok(v) => v,
        Err(e) => {
            return Err(e);
        },
    };
    let line_number: u16 = match r.read_u16() {
        Ok(v) => v,
        Err(e) => {
            return Err(e);
        },
    };
    Ok(LineNumberTableInfo { start_pc, line_number })
}

/// Reads a `LineNumberTable` table: a 16-bit count, then that many records.
#[verifier::loop_isolation(false)]
pub fn read_line_number_table(r: &mut Reader) -> (res: Result<Vec<LineNumberTableInfo>, DecodeError>)
    requires
        old(r).wf(),
    ensures
        final (r).wf(),
        final (r).stream() == old(r).stream(),
        match spec_line_number_table(old(r).stream(), old(r).spec_pos()) {
            Ok(t) => res matches Ok(v) && v@ == t.0 && final (r).spec_pos() == t.1,
            Err(e) => res matches Err(e2) && e2 == e,
        },
{
    let count: u16 = match r.read_u16() {
        Ok(c) => c,
        Err(e) => {
            return Err(e);
        },
    };
    let ghost s = r.stream();
    let ghost p_start = r.spec_pos();
    let mut out: Vec<LineNumberTableInfo> = Vec::new();
    let mut i: usize = 0;
    while i < count as usize
        invariant
            r.wf(),
            r.stream() == s,
            i <= count as usize,
            match spec_line_number_seq(s, r.spec_pos(), (count as usize - i) as nat) {
                Ok(t) => spec_line_number_seq(s, p_start, count as nat) == Ok::<
                    (Seq<LineNumberTableInfo>, int),
                    DecodeError,
                >((out@ + t.0, t.1)),
                Err(e) => spec_line_number_seq(s, p_start, count as nat) == Err::<
                    (Seq<LineNumberTableInfo>, int),
                    DecodeError,
                >(e),
            },
        decreases count as int - i as int,
    {
        let ghost rem = (count as usize - i) as nat;
        let v: LineNumberTableInfo = match read_line_number_entry(r) {
            Ok(v) => v,
            Err(e) => {
                return Err(e);
            },
        };
        let ghost prev = out@;
        out.push(v);
        i = i + 1;
        proof {
            match spec_line_number_seq(s, r.spec_pos(), (rem - 1) as nat) {
                Ok(t) => {
                    assert(prev + (seq![v] + t.0) =~= out@ + t.0);
                },
                Err(_) => {},
            }
        }
    }
    proof {
        assert(out@ + Seq::<LineNumberTableInfo>::empty() =~= out@);
    }
    Ok(out)
}

/// Reads one `LocalVariableTable` record.
pub fn read_local_variable_entry(r: &mut Reader) -> (res: Result<LocalVariableTableInfo, DecodeError>)
    requires
        old(r).wf(),
    ensures
        final (r).wf(),
        final (r).stream() == old(r).stream(),
        match spec_local_variable_entry(old(r).stream(), old(r).spec_pos()) {
            Ok(t) => res matches Ok(v) && v == t.0 && final (r).spec_pos() == t.1,
            Err(e) => res matches Err(e2) && e2 == e,
        },
{
    let start_pc: u16 = match r.read_u16() {
        Ok(v) => v,
        Err(e) => {
            return Err(e);
        },
    };
    let length: u16 = match r.read_u16() {
        Ok(v) => v,
        Err(e) => {
            return Err(e);
        },
    };
    let name_index: u16 = match r.read_u16() {
        Ok(v) => v,
        Err(e) => {
            return Err(e);
        },
    };
    let descriptor_index: u16 = match r.read_u16() {
        Ok(v) => v,
        Err(e) => {
            return Err(e);
        },
    };
    let index: u16 = match r.read_u16() {
        Ok(v) => v,
        Err(e) => {
            return Err(e);
        },
    };
    Ok(LocalVariableTableInfo { start_pc, length, name_index, descriptor_index, index })
}

/// Reads a `LocalVariableTable` table: a 16-bit count, then that many records.
#[verifier::loop_isolation(false)]
pub fn read_local_variable_table(r: &mut Reader) -> (res: Result<Vec<LocalVariableTableInfo>, DecodeError>)
    requires
        old(r).wf(),
    ensures
        final (r).wf(),
        final (r).stream() == old(r).stream(),
        match spec_local_variable_table(old(r).stream(), old(r).spec_pos()) {
            Ok(t) => res matches Ok(v) && v@ == t.0 && final (r).spec_pos() == t.1,
            Err(e) => res matches Err(e2) && e2 == e,
        },
{
    let count: u16 = match r.read_u16() {
        Ok(c) => c,
        Err(e) => {
            return Err(e);
        },
    };
    let ghost s = r.stream();
    let ghost p_start = r.spec_pos();
    let mut out: Vec<LocalVariableTableInfo> = Vec::new();
    let mut i: usize = 0;
    while i < count as usize
        invariant
            r.wf(),
            r.stream() == s,
            i <= count as usize,
            match spec_local_variable_seq(s, r.spec_pos(), (count as usize - i) as nat) {
                Ok(t) => spec_local_variable_seq(s, p_start, count as nat) == Ok::<
                    (Seq<LocalVariableTableInfo>, int),
                    DecodeError,
                >((out@ + t.0, t.1)),
                Err(e) => spec_local_variable_seq(s, p_start, count as nat) == Err::<
                    (Seq<LocalVariableTableInfo>, int),
                    DecodeError,
                >(e),
            },
        decreases count as int - i as int,
    {
        let ghost rem = (count as usize - i) as nat;
        let v: LocalVariableTableInfo = match read_local_variable_entry(r) {
            Ok(v) => v,
            Err(e) => {
                return Err(e);
            },
        };
        let ghost prev = out@;
        out.push(v);
        i = i + 1;
        proof {
            match spec_local_variable_seq(s, r.spec_pos(), (rem - 1) as nat) {
                Ok(t) => {
                    assert(prev + (seq![v] + t.0) =~= out@ + t.0);
                },
                Err(_) => {},
            }
        }
    }
    proof {
        assert(out@ + Seq::<LocalVariableTableInfo>::empty() =~= out@);
    }
    Ok(out)
}

/// Reads one `LocalVariableTypeTable` record.
pub fn read_local_variable_type_entry(r: &mut Reader) -> (res: Result<LocalVariableTypeTableInfo, DecodeError>)
    requires
        old(r).wf(),
    ensures
        final (r).wf(),
        final (r).stream() == old(r).stream(),
        match spec_local_variable_type_entry(old(r).stream(), old(r).spec_pos()) {
            Ok(t) => res matches Ok(v) && v == t.0 && final (r).spec_pos() == t.1,
            Err(e) => res matches Err(e2) && e2 == e,
        },
{
    let start_pc: u16 = match r.read_u16() {
        Ok(v) => v,
        Err(e) => {
            return Err(e);
        },
    };
    let length: u16 = match r.read_u16() {
        Ok(v) => v,
        Err(e) => {
            return Err(e);
        },
    };
    let name_index: u16 = match r.read_u16() {
        Ok(v) => v,
        Err(e) => {
            return Err(e);
        },
    };
    let signature_index: u16 = match r.read_u16() {
        Ok(v) => v,
        Err(e) => {
            return Err(e);
        },
    };
    let index: u16 = match r.read_u16() {
        Ok(v) => v,
        Err(e) => {
            return Err(e);
        },
    };
    Ok(LocalVariableTypeTableInfo { start_pc, length, name_index, signature_index, index })
}

/// Reads a `LocalVariableTypeTable` table: a 16-bit count, then that many records.
#[verifier::loop_isolation(false)]
pub fn read_local_variable_type_table(r: &mut Reader) -> (res: Result<Vec<LocalVariableTypeTableInfo>, DecodeError>)
    requires
        old(r).wf(),
    ensures
        final (r).wf(),
        final (r).stream() == old(r).stream(),
        match spec_local_variable_type_table(old(r).stream(), old(r).spec_pos()) {
            Ok(t) => res matches Ok(v) && v@ == t.0 && final (r).spec_pos() == t.1,
            Err(e) => res matches Err(e2) && e2 == e,
        },
{
    let count: u16 = match r.read_u16() {
        Ok(c) => c,
        Err(e) => {
            return Err(e);
        },
    };
    let ghost s = r.stream();
    let ghost p_start = r.spec_pos();
    let mut out: Vec<LocalVariableTypeTableInfo> = Vec::new();
    let mut i: usize = 0;
    while i < count as usize
        invariant
            r.wf(),
            r.stream() == s,
            i <= count as usize,
            match spec_local_variable_type_seq(s, r.spec_pos(), (count as usize - i) as nat) {
                Ok(t) => spec_local_variable_type_seq(s, p_start, count as nat) == Ok::<
                    (Seq<LocalVariableTypeTableInfo>, int),
                    DecodeError,
                >((out@ + t.0, t.1)),
                Err(e) => spec_local_variable_type_seq(s, p_start, count as nat) == Err::<
                    (Seq<LocalVariableTypeTableInfo>, int),
                    DecodeError,
                >(e),
            },
        decreases count as int - i as int,
    {
        let ghost rem = (count as usize - i) as nat;
        let v: LocalVariableTypeTableInfo = match read_local_variable_type_entry(r) {
            Ok(v) => v,
            Err(e) => {
                return Err(e);
            },
        };
        let ghost prev = out@;
        out.push(v);
        i = i + 1;
        proof {
            match spec_local_variable_type_seq(s, r.spec_pos(), (rem - 1) as nat) {
                Ok(t) => {
                    assert(prev + (seq![v] + t.0) =~= out@ + t.0);
                },
                Err(_) => {},
            }
        }
    }
    proof {
        assert(out@ + Seq::<LocalVariableTypeTableInfo>::empty() =~= out@);
    }
    Ok(out)
}

/// The constant pool tag a byte stands for, if any.
pub fn constant_pool_tag_from_u8(t: u8) -> (res: Option<ConstantPoolTag>)
    ensures
        res == spec_pool_tag(t),
{
    if t == 1 {
        Some(ConstantPoolTag::Utf8)
    } else if t == 3 {
        Some(ConstantPoolTag::Integer)
    } else if t == 4 {
        Some(ConstantPoolTag::Float)
    } else if t == 5 {
        Some(ConstantPoolTag::Long)
    } else if t == 6 {
        Some(ConstantPoolTag::Double)
    } else if t == 7 {
        Some(ConstantPoolTag::Class)
    } else if t == 8 {
        Some(ConstantPoolTag::Str)
    } else if t == 9 {
        Some(ConstantPoolTag::FieldRef)
    } else if t == 10 {
        Some(ConstantPoolTag::MethodRef)
    } else if t == 11 {
        Some(ConstantPoolTag::InterfaceMethodRef)
    } else if t == 12 {
        Some(ConstantPoolTag::NameAndType)
    } else if t == 15 {
        Some(ConstantPoolTag::MethodHandle)
    } else if t == 16 {
        Some(ConstantPoolTag::MethodType)
    } else if t == 18 {
        Some(ConstantPoolTag::InvokeDynamic)
    } else {
        None
    }
}

/// Reads one constant pool entry: a tag byte, then its payload.
pub fn read_constant_pool_entry(r: &mut Reader) -> (res: Result<ConstantPoolInfo, DecodeError>)
    requires
        old(r).wf(),
    ensures
        final (r).wf(),
        final (r).stream() == old(r).stream(),
        match spec_cp_entry(old(r).stream(), old(r).spec_pos()) {
            Ok(t) => res matches Ok(v) && view_cp_info(v) == t.0 && final (r).spec_pos() == t.1,
            Err(e) => res matches Err(e2) && e2 == e,
        },
{
    let tag_byte: u8 = match r.read_u8() {
        Ok(t) => t,
        Err(e) => {
            return Err(e);
        },
    };
    let tag: ConstantPoolTag = match constant_pool_tag_from_u8(tag_byte) {
        Some(t) => t,
        None => {
            return Err(DecodeError::UnknownConstantTag);
        },
    };
    let info: ConstantPoolStructure = match tag {
        ConstantPoolTag::Class => match r.read_u16() {
            Ok(a) => ConstantPoolStructure::Class(a),
            Err(e) => {
                return Err(e);
            },
        },
        ConstantPoolTag::FieldRef => {
            let a: u16 = match r.read_u16() {
                Ok(a) => a,
                Err(e) => {
                    return Err(e);
                },
            };
            match r.read_u16() {
                Ok(b) => ConstantPoolStructure::FieldRef(a, b),
                Err(e) => {
                    return Err(e);
                },
            }
        },
        ConstantPoolTag::MethodRef => {
            let a: u16 = match r.read_u16() {
                Ok(a) => a,
                Err(e) => {
                    return Err(e);
                },
            };
            match r.read_u16() {
                Ok(b) => ConstantPoolStructure::MethodRef(a, b),
                Err(e) => {
                    return Err(e);
                },
            }
        },
        ConstantPoolTag::InterfaceMethodRef => {
            let a: u16 = match r.read_u16() {
                Ok(a) => a,
                Err(e) => {
                    return Err(e);
                },
            };
            match r.read_u16() {
                Ok(b) => ConstantPoolStructure::InterfaceMethodRef(a, b),
                Err(e) => {
                    return Err(e);
                },
            }
        },
        ConstantPoolTag::Str => match r.read_u16() {
            Ok(a) => ConstantPoolStructure::Str(a),
            Err(e) => {
                return Err(e);
            },
        },
        ConstantPoolTag::Integer => match r.read_u32() {
            Ok(a) => ConstantPoolStructure::Integer(a),
            Err(e) => {
                return Err(e);
            },
        },
        ConstantPoolTag::Float => match r.read_u32() {
            Ok(a) => ConstantPoolStructure::Float(a),
            Err(e) => {
                return Err(e);
            },
        },
        ConstantPoolTag::Long => {
            let a: u32 = match r.read_u32() {
                Ok(a) => a,
                Err(e) => {
                    return Err(e);
                },
            };
            match r.read_u32() {
                Ok(b) => ConstantPoolStructure::Long(a, b),
                Err(e) => {
                    return Err(e);
                },
            }
        },
        ConstantPoolTag::Double => {
            let a: u32 = match r.read_u32() {
                Ok(a) => a,
                Err(e) => {
                    return Err(e);
                },
            };
            match r.read_u32() {
                Ok(b) => ConstantPoolStructure::Double(a, b),
                Err(e) => {
                    return Err(e);
                },
            }
        },
        ConstantPoolTag::NameAndType => {
            let a: u16 = match r.read_u16() {
                Ok(a) => a,
                Err(e) => {
                    return Err(e);
                },
            };
            match r.read_u16() {
                Ok(b) => ConstantPoolStructure::NameAndType(a, b),
                Err(e) => {
                    return Err(e);
                },
            }
        },
        ConstantPoolTag::Utf8 => {
            let len: u16 = match r.read_u16() {
                Ok(l) => l,
                Err(e) => {
                    return Err(e);
                },
            };
            let bytes: Vec<u8> = match r.read_bytes(len as usize) {
                Ok(b) => b,
                Err(e) => {
                    return Err(e);
                },
            };
            match utf8_to_string(bytes) {
                Some(text) => ConstantPoolStructure::Utf8(text),
                None => {
                    return Err(DecodeError::InvalidUtf8);
                },
            }
        },
        ConstantPoolTag::MethodHandle => {
            let a: u8 = match r.read_u8() {
                Ok(a) => a,
                Err(e) => {
                    return Err(e);
                },
            };
            match r.read_u16() {
                Ok(b) => ConstantPoolStructure::MethodHandle(a, b),
                Err(e) => {
                    return Err(e);
                },
            }
        },
        ConstantPoolTag::MethodType => match r.read_u16() {
            Ok(a) => ConstantPoolStructure::MethodType(a),
            Err(e) => {
                return Err(e);
            },
        },
        ConstantPoolTag::InvokeDynamic => {
            let a: u16 = match r.read_u16() {
                Ok(a) => a,
                Err(e) => {
                    return Err(e);
                },
            };
            match r.read_u16() {
                Ok(b) => ConstantPoolStructure::InvokeDynamic(a, b),
                Err(e) => {
                    return Err(e);
                },
            }
        },
    };
    Ok(ConstantPoolInfo { tag, info })
}

/// Reads the constant pool: a 16-bit count `N`, then exactly `N - 1` entries
/// (none when the count is zero).
#[verifier::loop_isolation(false)]
pub fn read_constant_pool(r: &mut Reader) -> (res: Result<Vec<ConstantPoolInfo>, DecodeError>)
    requires
        old(r).wf(),
    ensures
        final (r).wf(),
        final (r).stream() == old(r).stream(),
        match spec_constant_pool(old(r).stream(), old(r).spec_pos()) {
            Ok(t) => res matches Ok(v) && view_constant_pool(v@) == t.0 && final (r).spec_pos()
                == t.1,
            Err(e) => res matches Err(e2) && e2 == e,
        },
{
    let count: u16 = match r.read_u16() {
        Ok(c) => c,
        Err(e) => {
            return Err(e);
        },
    };
    let n: usize = if count == 0 {
        0
    } else {
        (count - 1) as usize
    };
    let ghost s = r.stream();
    let ghost p_start = r.spec_pos();
    let mut out: Vec<ConstantPoolInfo> = Vec::new();
    let mut i: usize = 0;
    while i < n
        invariant
            r.wf(),
            r.stream() == s,
            i <= n,
            match spec_cp_entry_seq(s, r.spec_pos(), (n - i) as nat) {
                Ok(t) => spec_cp_entry_seq(s, p_start, n as nat) == Ok::<
                    (Seq<SpecConstantPoolInfo>, int),
                    DecodeError,
                >((view_constant_pool(out@) + t.0, t.1)),
                Err(e) => spec_cp_entry_seq(s, p_start, n as nat) == Err::<
                    (Seq<SpecConstantPoolInfo>, int),
                    DecodeError,
                >(e),
            },
        decreases n - i,
    {
        let ghost rem = (n - i) as nat;
        let v: ConstantPoolInfo = match read_constant_pool_entry(r) {
            Ok(v) => v,
            Err(e) => {
                return Err(e);
            },
        };
        let ghost prev = out@;
        out.push(v);
        i = i + 1;
        proof {
            assert(out@.drop_last() =~= prev);
            match spec_cp_entry_seq(s, r.spec_pos(), (rem - 1) as nat) {
                Ok(t) => {
                    assert(view_constant_pool(prev) + (seq![view_cp_info(v)] + t.0)
                        =~= view_constant_pool(out@) + t.0);
                },
                Err(_) => {},
            }
        }
    }
    proof {
        assert(view_constant_pool(out@) + Seq::<SpecConstantPoolInfo>::empty()
            =~= view_constant_pool(out@));
    }
    Ok(out)
}

/// Reads one `BootstrapMethods` record.
pub fn read_bootstrap_method(r: &mut Reader) -> (res: Result<BootstrapMethodInfo, DecodeError>)
    requires
        old(r).wf(),
    ensures
        final (r).wf(),
        final (r).stream() == old(r).stream(),
        match spec_bootstrap_method(old(r).stream(), old(r).spec_pos()) {
            Ok(t) => res matches Ok(v) && view_bootstrap_method(v) == t.0 && final (r).spec_pos()
                == t.1,
            Err(e) => res matches Err(e2) && e2 == e,
        },
{
    let m: u16 = match r.read_u16() {
        Ok(m) => m,
        Err(e) => {
            return Err(e);
        },
    };
    match read_u16_vec(r) {
        Ok(args) => Ok(BootstrapMethodInfo { bootstrap_method_ref: m, bootstrap_arguments: args }),
        Err(e) => Err(e),
    }
}

/// Reads a `BootstrapMethods` payload: a 16-bit count, then that many records.
#[verifier::loop_isolation(false)]
pub fn read_bootstrap_methods(r: &mut Reader) -> (res: Result<Vec<BootstrapMethodInfo>, DecodeError>)
    requires
        old(r).wf(),
    ensures
        final (r).wf(),
        final (r).stream() == old(r).stream(),
        match spec_bootstrap_methods(old(r).stream(), old(r).spec_pos()) {
            Ok(t) => res matches Ok(v) && view_bootstrap_methods(v@) == t.0 && final (r).spec_pos() == t.1,
            Err(e) => res matches Err(e2) && e2 == e,
        },
{
    let count: u16 = match r.read_u16() {
        Ok(c) => c,
        Err(e) => {
            return Err(e);
        },
    };
    let ghost s = r.stream();
    let ghost p_start = r.spec_pos();
    let mut out: Vec<BootstrapMethodInfo> = Vec::new();
    let mut i: usize = 0;
    while i < count as usize
        invariant
            r.wf(),
            r.stream() == s,
            i <= count as usize,
            match spec_bootstrap_seq(s, r.spec_pos(), (count as usize - i) as nat) {
                Ok(t) => spec_bootstrap_seq(s, p_start, count as nat) == Ok::<
                    (Seq<SpecBootstrapMethodInfo>, int),
                    DecodeError,
                >((view_bootstrap_methods(out@) + t.0, t.1)),
                Err(e) => spec_bootstrap_seq(s, p_start, count as nat) == Err::<
                    (Seq<SpecBootstrapMethodInfo>, int),
                    DecodeError,
                >(e),
            },
        decreases count as int - i as int,
    {
        let ghost rem = (count as usize - i) as nat;
        let v: BootstrapMethodInfo = match read_bootstrap_method(r) {
            Ok(v) => v,
            Err(e) => {
                return Err(e);
            },
        };
        let ghost prev = out@;
        out.push(v);
        i = i + 1;
        proof {
            assert(out@.drop_last() =~= prev);
            match spec_bootstrap_seq(s, r.spec_pos(), (rem - 1) as nat) {
                Ok(t) => {
                    assert(view_bootstrap_methods(prev) + (seq![view_bootstrap_method(v)] + t.0)
                        =~= view_bootstrap_methods(out@) + t.0);
                },
                Err(_) => {},
            }
        }
    }
    proof {
        assert(view_bootstrap_methods(out@) + Seq::<SpecBootstrapMethodInfo>::empty()
            =~= view_bootstrap_methods(out@));
    }
    Ok(out)
}

// ---------------------------------------------------------------------------
// The recursive family: annotations, element values, attributes.
//
// `depth` is the remaining recursion budget, exactly as the specification
// functions carry it: each function fails with `RecursionLimitExceeded` when
// the budget is gone, and hands `depth - 1` to everything it nests into.
// ---------------------------------------------------------------------------

/// Reads one annotation: a type index and its element-value pairs.
pub fn read_annotation(r: &mut Reader, depth: u32) -> (res: Result<AnnotationInfo, DecodeError>)
    requires
        old(r).wf(),
    ensures
        final (r).wf(),
        final (r).stream() == old(r).stream(),
        match spec_annotation(old(r).stream(), old(r).spec_pos(), depth as nat) {
            Ok(t) => res matches Ok(v) && view_annotation(v) == t.0 && final (r).spec_pos() == t.1,
            Err(e) => res matches Err(e2) && e2 == e,
        },
    decreases depth,
{
    if depth == 0 {
        return Err(DecodeError::RecursionLimitExceeded);
    }
    let type_index: u16 = match r.read_u16() {
        Ok(t) => t,
        Err(e) => {
            return Err(e);
        },
    };
    match read_element_value_pairs(r, depth - 1) {
        Ok(pairs) => Ok(AnnotationInfo { type_index, element_value_pairs: pairs }),
        Err(e) => Err(e),
    }
}

/// Reads an annotation list: a 16-bit count, then that many annotations.
#[verifier::loop_isolation(false)]
pub fn read_annotations(r: &mut Reader, depth: u32) -> (res: Result<Vec<AnnotationInfo>, DecodeError>)
    requires
        old(r).wf(),
    ensures
        final (r).wf(),
        final (r).stream() == old(r).stream(),
        match spec_annotations(old(r).stream(), old(r).spec_pos(), depth as nat) {
            Ok(t) => res matches Ok(v) && view_annotations(v@) == t.0 && final (r).spec_pos()
                == t.1,
            Err(e) => res matches Err(e2) && e2 == e,
        },
    decreases depth,
{
    if depth == 0 {
        return Err(DecodeError::RecursionLimitExceeded);
    }
    let count: u16 = match r.read_u16() {
        Ok(c) => c,
        Err(e) => {
            return Err(e);
        },
    };
    let ghost s = r.stream();
    let ghost p_start = r.spec_pos();
    let mut out: Vec<AnnotationInfo> = Vec::new();
    let mut i: usize = 0;
    while i < count as usize
        invariant
            r.wf(),
            r.stream() == s,
            i <= count as usize,
            match spec_annotation_seq(s, r.spec_pos(), (count as usize - i) as nat, depth as nat) {
                Ok(t) => spec_annotation_seq(s, p_start, count as nat, depth as nat) == Ok::<
                    (Seq<SpecAnnotationInfo>, int),
                    DecodeError,
                >((view_annotations(out@) + t.0, t.1)),
                Err(e) => spec_annotation_seq(s, p_start, count as nat, depth as nat) == Err::<
                    (Seq<SpecAnnotationInfo>, int),
                    DecodeError,
                >(e),
            },
        decreases count as int - i as int,
    {
        let ghost rem = (count as usize - i) as nat;
        let v: AnnotationInfo = match read_annotation(r, depth - 1) {
            Ok(v) => v,
            Err(e) => {
                return Err(e);
            },
        };
        let ghost prev = out@;
        out.push(v);
        i = i + 1;
        proof {
            assert(out@.drop_last() =~= prev);
            match spec_annotation_seq(s, r.spec_pos(), (rem - 1) as nat, depth as nat) {
                Ok(t) => {
                    assert(view_annotations(prev) + (seq![view_annotation(v)] + t.0)
                        =~= view_annotations(out@) + t.0);
                },
                Err(_) => {},
            }
        }
    }
    proof {
        assert(view_annotations(out@) + Seq::<SpecAnnotationInfo>::empty() =~= view_annotations(
            out@,
        ));
    }
    Ok(out)
}

/// Reads one element-value pair: a name index and the value behind it.
pub fn read_element_value_pair(r: &mut Reader, depth: u32) -> (res: Result<
    AnnotationElementValuePair,
    DecodeError,
>)
    requires
        old(r).wf(),
    ensures
        final (r).wf(),
        final (r).stream() == old(r).stream(),
        match spec_element_value_pair(old(r).stream(), old(r).spec_pos(), depth as nat) {
            Ok(t) => res matches Ok(v) && view_element_value_pair(v) == t.0 && final (r).spec_pos() == t.1,
            Err(e) => res matches Err(e2) && e2 == e,
        },
    decreases depth,
{
    if depth == 0 {
        return Err(DecodeError::RecursionLimitExceeded);
    }
    let name_index: u16 = match r.read_u16() {
        Ok(n) => n,
        Err(e) => {
            return Err(e);
        },
    };
    match read_element_value(r, depth - 1) {
        Ok(v) => Ok(AnnotationElementValuePair { element_name_index: name_index, value: v }),
        Err(e) => Err(e),
    }
}

/// Reads an element-value pair list: a 16-bit count, then that many pairs.
#[verifier::loop_isolation(false)]
pub fn read_element_value_pairs(r: &mut Reader, depth: u32) -> (res: Result<
    Vec<AnnotationElementValuePair>,
    DecodeError,
>)
    requires
        old(r).wf(),
    ensures
        final (r).wf(),
        final (r).stream() == old(r).stream(),
        match spec_element_value_pairs(old(r).stream(), old(r).spec_pos(), depth as nat) {
            Ok(t) => res matches Ok(v) && view_element_value_pairs(v@) == t.0 && final (r).spec_pos() == t.1,
            Err(e) => res matches Err(e2) && e2 == e,
        },
    decreases depth,
{
    if depth == 0 {
        return Err(DecodeError::RecursionLimitExceeded);
    }
    let count: u16 = match r.read_u16() {
        Ok(c) => c,
        Err(e) => {
            return Err(e);
        },
    };
    let ghost s = r.stream();
    let ghost p_start = r.spec_pos();
    let mut out: Vec<AnnotationElementValuePair> = Vec::new();
    let mut i: usize = 0;
    while i < count as usize
        invariant
            r.wf(),
            r.stream() == s,
            i <= count as usize,
            match spec_pair_seq(s, r.spec_pos(), (count as usize - i) as nat, depth as nat) {
                Ok(t) => spec_pair_seq(s, p_start, count as nat, depth as nat) == Ok::<
                    (Seq<SpecAnnotationElementValuePair>, int),
                    DecodeError,
                >((view_element_value_pairs(out@) + t.0, t.1)),
                Err(e) => spec_pair_seq(s, p_start, count as nat, depth as nat) == Err::<
                    (Seq<SpecAnnotationElementValuePair>, int),
                    DecodeError,
                >(e),
            },
        decreases count as int - i as int,
    {
        let ghost rem = (count as usize - i) as nat;
        let v: AnnotationElementValuePair = match read_element_value_pair(r, depth - 1) {
            Ok(v) => v,
            Err(e) => {
                return Err(e);
            },
        };
        let ghost prev = out@;
        out.push(v);
        i = i + 1;
        proof {
            assert(out@.drop_last() =~= prev);
            match spec_pair_seq(s, r.spec_pos(), (rem - 1) as nat, depth as nat) {
                Ok(t) => {
                    assert(view_element_value_pairs(prev) + (seq![view_element_value_pair(v)]
                        + t.0) =~= view_element_value_pairs(out@) + t.0);
                },
                Err(_) => {},
            }
        }
    }
    proof {
        assert(view_element_value_pairs(out@) + Seq::<SpecAnnotationElementValuePair>::empty()
            =~= view_element_value_pairs(out@));
    }
    Ok(out)
}

/// Reads one element value: a tag byte, then the payload it selects.
pub fn read_element_value(r: &mut Reader, depth: u32) -> (res: Result<
    AnnotationElementValue,
    DecodeError,
>)
    requires
        old(r).wf(),
    ensures
        final (r).wf(),
        final (r).stream() == old(r).stream(),
        match spec_element_value(old(r).stream(), old(r).spec_pos(), depth as nat) {
            Ok(t) => res matches Ok(v) && view_element_value(v) == t.0 && final (r).spec_pos()
                == t.1,
            Err(e) => res matches Err(e2) && e2 == e,
        },
    decreases depth,
{
    if depth == 0 {
        return Err(DecodeError::RecursionLimitExceeded);
    }
    let tag: u8 = match r.read_u8() {
        Ok(t) => t,
        Err(e) => {
            return Err(e);
        },
    };
    // 'B' 'C' 'D' 'F' 'I' 'J' 'S' 'Z' 's'
    let value: AnnotationElementValueType = if tag == 66 || tag == 67 || tag == 68 || tag == 70
        || tag == 73 || tag == 74 || tag == 83 || tag == 90 || tag == 115 {
        match r.read_u16() {
            Ok(i) => AnnotationElementValueType::Const(i),
            Err(e) => {
                return Err(e);
            },
        }
    } else if tag == 101 {
        // 'e'
        let t: u16 = match r.read_u16() {
            Ok(t) => t,
            Err(e) => {
                return Err(e);
            },
        };
        match r.read_u16() {
            Ok(c) => AnnotationElementValueType::EnumConst(t, c),
            Err(e) => {
                return Err(e);
            },
        }
    } else if tag == 99 {
        // 'c'
        match r.read_u16() {
            Ok(i) => AnnotationElementValueType::ClassInfo(i),
            Err(e) => {
                return Err(e);
            },
        }
    } else if tag == 64 {
        // '@'
        match read_annotation(r, depth - 1) {
            Ok(a) => AnnotationElementValueType::Annotation(a),
            Err(e) => {
                return Err(e);
            },
        }
    } else if tag == 91 {
        // '['
        match read_element_values(r, depth - 1) {
            Ok(vs) => AnnotationElementValueType::Array(vs),
            Err(e) => {
                return Err(e);
            },
        }
    } else {
        return Err(DecodeError::UnknownElementValueTag);
    };
    Ok(AnnotationElementValue { tag, value })
}

/// Reads an element value list: a 16-bit count, then that many values.
#[verifier::loop_isolation(false)]
pub fn read_element_values(r: &mut Reader, depth: u32) -> (res: Result<
    Vec<AnnotationElementValue>,
    DecodeError,
>)
    requires
        old(r).wf(),
    ensures
        final (r).wf(),
        final (r).stream() == old(r).stream(),
        match spec_element_values(old(r).stream(), old(r).spec_pos(), depth as nat) {
            Ok(t) => res matches Ok(v) && view_element_values(v@) == t.0 && final (r).spec_pos()
                == t.1,
            Err(e) => res matches Err(e2) && e2 == e,
        },
    decreases depth,
{
    if depth == 0 {
        return Err(DecodeError::RecursionLimitExceeded);
    }
    let count: u16 = match r.read_u16() {
        Ok(c) => c,
        Err(e) => {
            return Err(e);
        },
    };
    let ghost s = r.stream();
    let ghost p_start = r.spec_pos();
    let mut out: Vec<AnnotationElementValue> = Vec::new();
    let mut i: usize = 0;
    while i < count as usize
        invariant
            r.wf(),
            r.stream() == s,
            i <= count as usize,
            match spec_element_value_seq(
                s,
                r.spec_pos(),
                (count as usize - i) as nat,
                depth as nat,
            ) {
                Ok(t) => spec_element_value_seq(s, p_start, count as nat, depth as nat) == Ok::<
                    (Seq<SpecAnnotationElementValue>, int),
                    DecodeError,
                >((view_element_values(out@) + t.0, t.1)),
                Err(e) => spec_element_value_seq(s, p_start, count as nat, depth as nat) == Err::<
                    (Seq<SpecAnnotationElementValue>, int),
                    DecodeError,
                >(e),
            },
        decreases count as int - i as int,
    {
        let ghost rem = (count as usize - i) as nat;
        let v: AnnotationElementValue = match read_element_value(r, depth - 1) {
            Ok(v) => v,
            Err(e) => {
                return Err(e);
            },
        };
        let ghost prev = out@;
        out.push(v);
        i = i + 1;
        proof {
            assert(out@.drop_last() =~= prev);
            match spec_element_value_seq(s, r.spec_pos(), (rem - 1) as nat, depth as nat) {
                Ok(t) => {
                    assert(view_element_values(prev) + (seq![view_element_value(v)] + t.0)
                        =~= view_element_values(out@) + t.0);
                },
                Err(_) => {},
            }
        }
    }
    proof {
        assert(view_element_values(out@) + Seq::<SpecAnnotationElementValue>::empty()
            =~= view_element_values(out@));
    }
    Ok(out)
}

/// Reads a parameter-annotations payload: a 16-bit count, then one annotation
/// list per parameter.
#[verifier::loop_isolation(false)]
pub fn read_parameter_annotations(r: &mut Reader, depth: u32) -> (res: Result<
    Vec<ParameterAnnotationInfo>,
    DecodeError,
>)
    requires
        old(r).wf(),
    ensures
        final (r).wf(),
        final (r).stream() == old(r).stream(),
        match spec_parameter_annotations(old(r).stream(), old(r).spec_pos(), depth as nat) {
            Ok(t) => res matches Ok(v) && view_parameter_annotations(v@) == t.0 && final (r).spec_pos() == t.1,
            Err(e) => res matches Err(e2) && e2 == e,
        },
    decreases depth,
{
    if depth == 0 {
        return Err(DecodeError::RecursionLimitExceeded);
    }
    let count: u16 = match r.read_u16() {
        Ok(c) => c,
        Err(e) => {
            return Err(e);
        },
    };
    let ghost s = r.stream();
    let ghost p_start = r.spec_pos();
    let mut out: Vec<ParameterAnnotationInfo> = Vec::new();
    let mut i: usize = 0;
    while i < count as usize
        invariant
            r.wf(),
            r.stream() == s,
            i <= count as usize,
            match spec_param_seq(s, r.spec_pos(), (count as usize - i) as nat, depth as nat) {
                Ok(t) => spec_param_seq(s, p_start, count as nat, depth as nat) == Ok::<
                    (Seq<SpecParameterAnnotationInfo>, int),
                    DecodeError,
                >((view_parameter_annotations(out@) + t.0, t.1)),
                Err(e) => spec_param_seq(s, p_start, count as nat, depth as nat) == Err::<
                    (Seq<SpecParameterAnnotationInfo>, int),
                    DecodeError,
                >(e),
            },
        decreases count as int - i as int,
    {
        let ghost rem = (count as usize - i) as nat;
        let anns: Vec<AnnotationInfo> = match read_annotations(r, depth - 1) {
            Ok(v) => v,
            Err(e) => {
                return Err(e);
            },
        };
        let v: ParameterAnnotationInfo = ParameterAnnotationInfo { annotations: anns };
        let ghost prev = out@;
        out.push(v);
        i = i + 1;
        proof {
            assert(out@.drop_last() =~= prev);
            match spec_param_seq(s, r.spec_pos(), (rem - 1) as nat, depth as nat) {
                Ok(t) => {
                    assert(view_parameter_annotations(prev) + (seq![view_parameter_annotation(v)]
                        + t.0) =~= view_parameter_annotations(out@) + t.0);
                },
                Err(_) => {},
            }
        }
    }
    proof {
        assert(view_parameter_annotations(out@) + Seq::<SpecParameterAnnotationInfo>::empty()
            =~= view_parameter_annotations(out@));
    }
    Ok(out)
}

/// Reads one attribute: name index, declared length, then the payload the
/// resolved name selects. The name index is taken as a direct index into the
/// decoded pool; an index with no Utf8 entry behind it fails with
/// `AttributeNameNotUtf8`.
#[verifier::rlimit(100)]
pub fn read_attribute(r: &mut Reader, pool: &Vec<ConstantPoolInfo>, depth: u32) -> (res: Result<
    AttributeInfo,
    DecodeError,
>)
    requires
        old(r).wf(),
    ensures
        final (r).wf(),
        final (r).stream() == old(r).stream(),
        match spec_attribute(
            old(r).stream(),
            old(r).spec_pos(),
            view_constant_pool(pool@),
            depth as nat,
        ) {
            Ok(t) => res matches Ok(v) && view_attribute(v) == t.0 && final (r).spec_pos() == t.1,
            Err(e) => res matches Err(e2) && e2 == e,
        },
    decreases depth,
{
    proof {
        lemma_view_constant_pool_index(pool@);
    }
    if depth == 0 {
        return Err(DecodeError::RecursionLimitExceeded);
    }
    let name_index: u16 = match r.read_u16() {
        Ok(n) => n,
        Err(e) => {
            return Err(e);
        },
    };
    let length: u32 = match r.read_u32() {
        Ok(l) => l,
        Err(e) => {
            return Err(e);
        },
    };
    if name_index as usize >= pool.len() {
        return Err(DecodeError::AttributeNameNotUtf8);
    }
    let entry: &ConstantPoolInfo = &pool[name_index as usize];
    let name: &String = match &entry.info {
        ConstantPoolStructure::Utf8(s) => s,
        _ => {
            return Err(DecodeError::AttributeNameNotUtf8);
        },
    };
    if str_eq(name.as_str(), "ConstantValue") {
        return match r.read_u16() {
            Ok(i) => Ok(
                AttributeInfo {
                    attribute_name_index: name_index,
                    attribute_length: length,
                    info: AttributeInfoStructure::ConstantValue(i),
                },
            ),
            Err(e) => Err(e),
        };
    }
    if str_eq(name.as_str(), "Code") {
        return match read_code_attribute(r, pool, depth - 1) {
            Ok(c) => Ok(
                AttributeInfo {
                    attribute_name_index: name_index,
                    attribute_length: length,
                    info: AttributeInfoStructure::Code(c),
                },
            ),
            Err(e) => Err(e),
        };
    }
    if str_eq(name.as_str(), "StackMapTable") {
        return match read_stack_map_table(r) {
            Ok(t) => Ok(
                AttributeInfo {
                    attribute_name_index: name_index,
                    attribute_length: length,
                    info: AttributeInfoStructure::StackMapTable(t),
                },
            ),
            Err(e) => Err(e),
        };
    }
    if str_eq(name.as_str(), "Exceptions") {
        return match read_u16_vec(r) {
            Ok(t) => Ok(
                AttributeInfo {
                    attribute_name_index: name_index,
                    attribute_length: length,
                    info: AttributeInfoStructure::Exceptions(t),
                },
            ),
            Err(e) => Err(e),
        };
    }
    if str_eq(name.as_str(), "InnerClasses") {
        return match read_inner_class_attributes(r) {
            Ok(t) => Ok(
                AttributeInfo {
                    attribute_name_index: name_index,
                    attribute_length: length,
                    info: AttributeInfoStructure::InnerClasses(t),
                },
            ),
            Err(e) => Err(e),
        };
    }
    if str_eq(name.as_str(), "EnclosingMethod") {
        let c: u16 = match r.read_u16() {
            Ok(c) => c,
            Err(e) => {
                return Err(e);
            },
        };
        return match r.read_u16() {
            Ok(m) => Ok(
                AttributeInfo {
                    attribute_name_index: name_index,
                    attribute_length: length,
                    info: AttributeInfoStructure::EnclosingMethod(c, m),
                },
            ),
            Err(e) => Err(e),
        };
    }
    if str_eq(name.as_str(), "Synthetic") {
        return Ok(
            AttributeInfo {
                attribute_name_index: name_index,
                attribute_length: length,
                info: AttributeInfoStructure::Synthetic,
            },
        );
    }
    if str_eq(name.as_str(), "Signature") {
        return match r.read_u16() {
            Ok(i) => Ok(
                AttributeInfo {
                    attribute_name_index: name_index,
                    attribute_length: length,
                    info: AttributeInfoStructure::Signature(i),
                },
            ),
            Err(e) => Err(e),
        };
    }
    if str_eq(name.as_str(), "SourceFile") {
        return match r.read_u16() {
            Ok(i) => Ok(
                AttributeInfo {
                    attribute_name_index: name_index,
                    attribute_length: length,
                    info: AttributeInfoStructure::SourceFile(i),
                },
            ),
            Err(e) => Err(e),
        };
    }
    if str_eq(name.as_str(), "SourceDebugExtension") {
        return match r.read_bytes(length as usize) {
            Ok(b) => Ok(
                AttributeInfo {
                    attribute_name_index: name_index,
                    attribute_length: length,
                    info: AttributeInfoStructure::SourceDebugExtension(b),
                },
            ),
            Err(e) => Err(e),
        };
    }
    if str_eq(name.as_str(), "LineNumberTable") {
        return match read_line_number_table(r) {
            Ok(t) => Ok(
                AttributeInfo {
                    attribute_name_index: name_index,
                    attribute_length: length,
                    info: AttributeInfoStructure::LineNumberTable(t),
                },
            ),
            Err(e) => Err(e),
        };
    }
    if str_eq(name.as_str(), "LocalVariableTable") {
        return match read_local_variable_table(r) {
            Ok(t) => Ok(
                AttributeInfo {
                    attribute_name_index: name_index,
                    attribute_length: length,
                    info: AttributeInfoStructure::LocalVariableTable(t),
                },
            ),
            Err(e) => Err(e),
        };
    }
    if str_eq(name.as_str(), "LocalVariableTypeTable") {
        return match read_local_variable_type_table(r) {
            Ok(t) => Ok(
                AttributeInfo {
                    attribute_name_index: name_index,
                    attribute_length: length,
                    info: AttributeInfoStructure::LocalVariableTypeTable(t),
                },
            ),
            Err(e) => Err(e),
        };
    }
    if str_eq(name.as_str(), "Deprecated") {
        return Ok(
            AttributeInfo {
                attribute_name_index: name_index,
                attribute_length: length,
                info: AttributeInfoStructure::Deprecated,
            },
        );
    }
    if str_eq(name.as_str(), "RuntimeVisibleAnnotations") {
        return match read_annotations(r, depth - 1) {
            Ok(t) => Ok(
                AttributeInfo {
                    attribute_name_index: name_index,
                    attribute_length: length,
                    info: AttributeInfoStructure::RuntimeVisibleAnnotations(t),
                },
            ),
            Err(e) => Err(e),
        };
    }
    if str_eq(name.as_str(), "RuntimeInvisibleAnnotations") {
        return match read_annotations(r, depth - 1) {
            Ok(t) => Ok(
                AttributeInfo {
                    attribute_name_index: name_index,
                    attribute_length: length,
                    info: AttributeInfoStructure::RuntimeInvisibleAnnotations(t),
                },
            ),
            Err(e) => Err(e),
        };
    }
    if str_eq(name.as_str(), "RuntimeVisibleParameterAnnotations") {
        return match read_parameter_annotations(r, depth - 1) {
            Ok(t) => Ok(
                AttributeInfo {
                    attribute_name_index: name_index,
                    attribute_length: length,
                    info: AttributeInfoStructure::RuntimeVisibleParameterAnnotations(t),
                },
            ),
            Err(e) => Err(e),
        };
    }
    if str_eq(name.as_str(), "RuntimeInvisibleParameterAnnotations") {
        return match read_parameter_annotations(r, depth - 1) {
            Ok(t) => Ok(
                AttributeInfo {
                    attribute_name_index: name_index,
                    attribute_length: length,
                    info: AttributeInfoStructure::RuntimeInvisibleParameterAnnotations(t),
                },
            ),
            Err(e) => Err(e),
        };
    }
    if str_eq(name.as_str(), "AnnotationDefault") {
        return match read_element_value(r, depth - 1) {
            Ok(v) => Ok(
                AttributeInfo {
                    attribute_name_index: name_index,
                    attribute_length: length,
                    info: AttributeInfoStructure::AnnotationDefault(v),
                },
            ),
            Err(e) => Err(e),
        };
    }
    if str_eq(name.as_str(), "BootstrapMethods") {
        return match read_bootstrap_methods(r) {
            Ok(t) => Ok(
                AttributeInfo {
                    attribute_name_index: name_index,
                    attribute_length: length,
                    info: AttributeInfoStructure::BootstrapMethods(t),
                },
            ),
            Err(e) => Err(e),
        };
    }
    match r.read_bytes(length as usize) {
        Ok(b) => Ok(
            AttributeInfo {
                attribute_name_index: name_index,
                attribute_length: length,
                info: AttributeInfoStructure::Other(b),
            },
        ),
        Err(e) => Err(e),
    }
}

/// Reads an attribute list: a 16-bit count, then that many attributes.
#[verifier::loop_isolation(false)]
pub fn read_attributes(r: &mut Reader, pool: &Vec<ConstantPoolInfo>, depth: u32) -> (res: Result<
    Vec<AttributeInfo>,
    DecodeError,
>)
    requires
        old(r).wf(),
    ensures
        final (r).wf(),
        final (r).stream() == old(r).stream(),
        match spec_attributes(
            old(r).stream(),
            old(r).spec_pos(),
            view_constant_pool(pool@),
            depth as nat,
        ) {
            Ok(t) => res matches Ok(v) && view_attributes(v@) == t.0 && final (r).spec_pos()
                == t.1,
            Err(e) => res matches Err(e2) && e2 == e,
        },
    decreases depth,
{
    if depth == 0 {
        return Err(DecodeError::RecursionLimitExceeded);
    }
    let count: u16 = match r.read_u16() {
        Ok(c) => c,
        Err(e) => {
            return Err(e);
        },
    };
    let ghost s = r.stream();
    let ghost p_start = r.spec_pos();
    let ghost pool_v = view_constant_pool(pool@);
    let mut out: Vec<AttributeInfo> = Vec::new();
    let mut i: usize = 0;
    while i < count as usize
        invariant
            r.wf(),
            r.stream() == s,
            i <= count as usize,
            match spec_attr_seq(s, r.spec_pos(), pool_v, (count as usize - i) as nat, depth as nat) {
                Ok(t) => spec_attr_seq(s, p_start, pool_v, count as nat, depth as nat) == Ok::<
                    (Seq<SpecAttributeInfo>, int),
                    DecodeError,
                >((view_attributes(out@) + t.0, t.1)),
                Err(e) => spec_attr_seq(s, p_start, pool_v, count as nat, depth as nat) == Err::<
                    (Seq<SpecAttributeInfo>, int),
                    DecodeError,
                >(e),
            },
        decreases count as int - i as int,
    {
        let ghost rem = (count as usize - i) as nat;
        let v: AttributeInfo = match read_attribute(r, pool, depth - 1) {
            Ok(v) => v,
            Err(e) => {
                return Err(e);
            },
        };
        let ghost prev = out@;
        out.push(v);
        i = i + 1;
        proof {
            assert(out@.drop_last() =~= prev);
            match spec_attr_seq(s, r.spec_pos(), pool_v, (rem - 1) as nat, depth as nat) {
                Ok(t) => {
                    assert(view_attributes(prev) + (seq![view_attribute(v)] + t.0)
                        =~= view_attributes(out@) + t.0);
                },
                Err(_) => {},
            }
        }
    }
    proof {
        assert(view_attributes(out@) + Seq::<SpecAttributeInfo>::empty() =~= view_attributes(
            out@,
        ));
    }
    Ok(out)
}

/// Reads a `Code` attribute body: capacities, raw instruction bytes, the
/// exception table, and a nested attribute list.
pub fn read_code_attribute(r: &mut Reader, pool: &Vec<ConstantPoolInfo>, depth: u32) -> (res:
    Result<CodeAttributeInfo, DecodeError>)
    requires
        old(r).wf(),
    ensures
        final (r).wf(),
        final (r).stream() == old(r).stream(),
        match spec_code_attribute(
            old(r).stream(),
            old(r).spec_pos(),
            view_constant_pool(pool@),
            depth as nat,
        ) {
            Ok(t) => res matches Ok(v) && view_code(v) == t.0 && final (r).spec_pos() == t.1,
            Err(e) => res matches Err(e2) && e2 == e,
        },
    decreases depth,
{
    if depth == 0 {
        return Err(DecodeError::RecursionLimitExceeded);
    }
    let max_stack: u16 = match r.read_u16() {
        Ok(v) => v,
        Err(e) => {
            return Err(e);
        },
    };
    let max_locals: u16 = match r.read_u16() {
        Ok(v) => v,
        Err(e) => {
            return Err(e);
        },
    };
    let code_len: u32 = match r.read_u32() {
        Ok(v) => v,
        Err(e) => {
            return Err(e);
        },
    };
    let code: Vec<u8> = match r.read_bytes(code_len as usize) {
        Ok(v) => v,
        Err(e) => {
            return Err(e);
        },
    };
    let exception_table: Vec<ExceptionTableInfo> = match read_exception_table(r) {
        Ok(v) => v,
        Err(e) => {
            return Err(e);
        },
    };
    match read_attributes(r, pool, depth - 1) {
        Ok(attributes) => Ok(
            CodeAttributeInfo { max_stack, max_locals, code, exception_table, attributes },
        ),
        Err(e) => Err(e),
    }
}

/// Reads one field (or method) descriptor: flags, two pool references, and an
/// attribute list.
pub fn read_field(r: &mut Reader, pool: &Vec<ConstantPoolInfo>, depth: u32) -> (res: Result<
    FieldInfo,
    DecodeError,
>)
    requires
        old(r).wf(),
    ensures
        final (r).wf(),
        final (r).stream() == old(r).stream(),
        match spec_field(
            old(r).stream(),
            old(r).spec_pos(),
            view_constant_pool(pool@),
            depth as nat,
        ) {
            Ok(t) => res matches Ok(v) && view_field(v) == t.0 && final (r).spec_pos() == t.1,
            Err(e) => res matches Err(e2) && e2 == e,
        },
{
    let access_flags: u16 = match r.read_u16() {
        Ok(v) => v,
        Err(e) => {
            return Err(e);
        },
    };
    let name_index: u16 = match r.read_u16() {
        Ok(v) => v,
        Err(e) => {
            return Err(e);
        },
    };
    let descriptor_index: u16 = match r.read_u16() {
        Ok(v) => v,
        Err(e) => {
            return Err(e);
        },
    };
    match read_attributes(r, pool, depth) {
        Ok(attributes) => Ok(
            FieldInfo { access_flags, name_index, descriptor_index, attributes },
        ),
        Err(e) => Err(e),
    }
}

/// Reads a field list: a 16-bit count, then that many descriptors.
#[verifier::loop_isolation(false)]
#[verifier::rlimit(50)]
pub fn read_fields(r: &mut Reader, pool: &Vec<ConstantPoolInfo>, depth: u32) -> (res: Result<
    Vec<FieldInfo>,
    DecodeError,
>)
    requires
        old(r).wf(),
    ensures
        final (r).wf(),
        final (r).stream() == old(r).stream(),
        match spec_fields(
            old(r).stream(),
            old(r).spec_pos(),
            view_constant_pool(pool@),
            depth as nat,
        ) {
            Ok(t) => res matches Ok(v) && view_fields(v@) == t.0 && final (r).spec_pos() == t.1,
            Err(e) => res matches Err(e2) && e2 == e,
        },
{
    let count: u16 = match r.read_u16() {
        Ok(c) => c,
        Err(e) => {
            return Err(e);
        },
    };
    let ghost s = r.stream();
    let ghost p_start = r.spec_pos();
    let ghost pool_v = view_constant_pool(pool@);
    let mut out: Vec<FieldInfo> = Vec::new();
    let mut i: usize = 0;
    while i < count as usize
        invariant
            r.wf(),
            r.stream() == s,
            i <= count as usize,
            match spec_field_seq(s, r.spec_pos(), pool_v, (count as usize - i) as nat, depth as nat) {
                Ok(t) => spec_field_seq(s, p_start, pool_v, count as nat, depth as nat) == Ok::<
                    (Seq<SpecFieldInfo>, int),
                    DecodeError,
                >((view_fields(out@) + t.0, t.1)),
                Err(e) => spec_field_seq(s, p_start, pool_v, count as nat, depth as nat) == Err::<
                    (Seq<SpecFieldInfo>, int),
                    DecodeError,
                >(e),
            },
        decreases count as int - i as int,
    {
        let ghost rem = (count as usize - i) as nat;
        let v: FieldInfo = match read_field(r, pool, depth) {
            Ok(v) => v,
            Err(e) => {
                return Err(e);
            },
        };
        let ghost prev = out@;
        out.push(v);
        i = i + 1;
        proof {
            assert(out@.drop_last() =~= prev);
            match spec_field_seq(s, r.spec_pos(), pool_v, (rem - 1) as nat, depth as nat) {
                Ok(t) => {
                    assert(view_fields(prev) + (seq![view_field(v)] + t.0) =~= view_fields(out@)
                        + t.0);
                },
                Err(_) => {},
            }
        }
    }
    proof {
        assert(view_fields(out@) + Seq::<SpecFieldInfo>::empty() =~= view_fields(out@));
    }
    Ok(out)
}

/// Decodes a whole class file from the start of `bytes`, with `limit` as the
/// ceiling on attribute and annotation nesting.
///
/// Returns exactly what [`spec_class_file`] assigns to the stream: the fully
/// populated record on success, and the one error the stream's shape produces
/// otherwise. Trailing bytes after the field list are ignored.
pub fn decode_class_file_with_limit(bytes: &[u8], limit: u32) -> (res: Result<
    ClassFile,
    DecodeError,
>)
    ensures
        match spec_class_file(bytes@, limit as nat) {
            Ok(t) => res matches Ok(c) && view_class_file(c) == t.0,
            Err(e) => res matches Err(e2) && e2 == e,
        },
{
    let mut r = Reader::new(bytes);
    let magic: u32 = match r.read_u32() {
        Ok(m) => m,
        Err(e) => {
            return Err(e);
        },
    };
    if magic != CLASS_FILE_MAGIC {
        return Err(DecodeError::BadMagic);
    }
    let minor_version: u16 = match r.read_u16() {
        Ok(v) => v,
        Err(e) => {
            return Err(e);
        },
    };
    let major_version: u16 = match r.read_u16() {
        Ok(v) => v,
        Err(e) => {
            return Err(e);
        },
    };
    let constant_pool: Vec<ConstantPoolInfo> = match read_constant_pool(&mut r) {
        Ok(v) => v,
        Err(e) => {
            return Err(e);
        },
    };
    let access_flags: u16 = match r.read_u16() {
        Ok(v) => v,
        Err(e) => {
            return Err(e);
        },
    };
    let this_class: u16 = match r.read_u16() {
        Ok(v) => v,
        Err(e) => {
            return Err(e);
        },
    };
    let super_class: u16 = match r.read_u16() {
        Ok(v) => v,
        Err(e) => {
            return Err(e);
        },
    };
    let interfaces: Vec<u16> = match read_u16_vec(&mut r) {
        Ok(v) => v,
        Err(e) => {
            return Err(e);
        },
    };
    let fields: Vec<FieldInfo> = match read_fields(&mut r, &constant_pool, limit) {
        Ok(v) => v,
        Err(e) => {
            return Err(e);
        },
    };
    Ok(
        ClassFile {
            magic,
            minor_version,
            major_version,
            constant_pool,
            access_flags,
            this_class,
            super_class,
            interfaces,
            fields,
        },
    )
}

/// Decodes a whole class file with the default recursion ceiling.
pub fn decode_class_file(bytes: &[u8]) -> (res: Result<ClassFile, DecodeError>)
    ensures
        match spec_class_file(bytes@, DEFAULT_RECURSION_LIMIT as nat) {
            Ok(t) => res matches Ok(c) && view_class_file(c) == t.0,
            Err(e) => res matches Err(e2) && e2 == e,
        },
{
    decode_class_file_with_limit(bytes, DEFAULT_RECURSION_LIMIT)
}

/// The decoder's entry point, under the name of the record it builds:
/// decodes a whole class file with the default recursion ceiling.
#[allow(non_snake_case)]
pub fn ClassFile(bytes: &[u8]) -> (res: Result<ClassFile, DecodeError>)
    ensures
        match spec_class_file(bytes@, DEFAULT_RECURSION_LIMIT as nat) {
            Ok(t) => res matches Ok(c) && view_class_file(c) == t.0,
            Err(e) => res matches Err(e2) && e2 == e,
        },
{
    decode_class_file(bytes)
}

} // verus!
