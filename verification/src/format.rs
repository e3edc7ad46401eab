//! The byte layout of a class file, written down as specification functions.
//!
//! Every function takes the whole stream and a position, and returns either
//! the decoded value together with the position after it, or the one error
//! that a stream shaped that way produces. The executable decoders are proved
//! to agree with these functions exactly, so this module is the single
//! statement of what the decoder accepts and builds.

use crate::error::DecodeError;
use crate::model::{
    ConstantPoolTag, ExceptionTableInfo, InnerClassAttributeInfo, LineNumberTableInfo,
    LocalVariableTableInfo, LocalVariableTypeTableInfo, SpecAnnotationElementValue,
    SpecAnnotationElementValuePair, SpecAnnotationElementValueType, SpecAnnotationInfo,
    SpecAttributeInfo, SpecAttributeInfoStructure, SpecBootstrapMethodInfo, SpecClassFile,
    SpecCodeAttributeInfo, SpecConstantPoolInfo, SpecConstantPoolStructure, SpecFieldInfo,
    SpecParameterAnnotationInfo, SpecStackMapFrame, SpecStackMapFrameType, VariableInfo,
    VerificationTypeInfo,
};
use vstd::prelude::*;
use vstd::utf8::{decode_utf8, valid_utf8};

verus! {

/// The fixed four-byte signature every class file must begin with.
pub const CLASS_FILE_MAGIC: u32 = 0xCAFE_BABE;

/// One byte: the value at `pos` and the position after it.
pub open spec fn spec_read_u8(s: Seq<u8>, pos: int) -> Result<(u8, int), DecodeError> {
    if 0 <= pos && pos + 1 <= s.len() {
        Ok((s[pos], pos + 1))
    } else {
        Err(DecodeError::TruncatedInput)
    }
}

/// Two bytes, big-endian.
pub open spec fn spec_read_u16(s: Seq<u8>, pos: int) -> Result<(u16, int), DecodeError> {
    if 0 <= pos && pos + 2 <= s.len() {
        Ok((((s[pos] as int) * 0x100 + (s[pos + 1] as int)) as u16, pos + 2))
    } else {
        Err(DecodeError::TruncatedInput)
    }
}

/// Four bytes, big-endian.
pub open spec fn spec_read_u32(s: Seq<u8>, pos: int) -> Result<(u32, int), DecodeError> {
    if 0 <= pos && pos + 4 <= s.len() {
        Ok((
            ((s[pos] as int) * 0x100_0000 + (s[pos + 1] as int) * 0x1_0000 + (s[pos + 2] as int)
                * 0x100 + (s[pos + 3] as int)) as u32,
            pos + 4,
        ))
    } else {
        Err(DecodeError::TruncatedInput)
    }
}

/// A raw run of exactly `n` bytes.
pub open spec fn spec_read_bytes(s: Seq<u8>, pos: int, n: int) -> Result<
    (Seq<u8>, int),
    DecodeError,
> {
    if 0 <= pos && 0 <= n && pos + n <= s.len() {
        Ok((s.subrange(pos, pos + n), pos + n))
    } else {
        Err(DecodeError::TruncatedInput)
    }
}

/// A 16-bit count followed by that many 16-bit values.
pub open spec fn spec_read_u16_vec(s: Seq<u8>, pos: int) -> Result<(Seq<u16>, int), DecodeError> {
    match spec_read_u16(s, pos) {
        Ok((count, p1)) => spec_read_u16_seq(s, p1, count as nat),
        Err(e) => Err(e),
    }
}

/// Exactly `n` 16-bit values, big-endian, one after another.
pub open spec fn spec_read_u16_seq(s: Seq<u8>, pos: int, n: nat) -> Result<
    (Seq<u16>, int),
    DecodeError,
>
    decreases n,
{
    if n == 0 {
        Ok((Seq::empty(), pos))
    } else {
        match spec_read_u16(s, pos) {
            Ok((v, p1)) => match spec_read_u16_seq(s, p1, (n - 1) as nat) {
                Ok((rest, p2)) => Ok((seq![v] + rest, p2)),
                Err(e) => Err(e),
            },
            Err(e) => Err(e),
        }
    }
}

// ---------------------------------------------------------------------------
// Constant pool.
// ---------------------------------------------------------------------------

/// The constant pool tag a byte stands for, if any.
pub open spec fn spec_pool_tag(t: u8) -> Option<ConstantPoolTag> {
    if t == 1 {
        Some(ConstantPoolTag::Utf8)
    } else if t == 3 {
        Some(ConstantPoolTag::Integer)
    } else if t == 4 {
        Some(ConstantPoolTag::Float)
    } else if t == 5 {
        Some(ConstantPoolTag::Long)
    } else if t == 6 {
        Some(ConstantPoolTag::Double)
    } else if t == 7 {
        Some(ConstantPoolTag::Class)
    } else if t == 8 {
        Some(ConstantPoolTag::Str)
    } else if t == 9 {
        Some(ConstantPoolTag::FieldRef)
    } else if t == 10 {
        Some(ConstantPoolTag::MethodRef)
    } else if t == 11 {
        Some(ConstantPoolTag::InterfaceMethodRef)
    } else if t == 12 {
        Some(ConstantPoolTag::NameAndType)
    } else if t == 15 {
        Some(ConstantPoolTag::MethodHandle)
    } else if t == 16 {
        Some(ConstantPoolTag::MethodType)
    } else if t == 18 {
        Some(ConstantPoolTag::InvokeDynamic)
    } else {
        None
    }
}

/// The fixed payload shape a constant pool tag selects.
pub open spec fn spec_cp_payload(s: Seq<u8>, pos: int, tag: ConstantPoolTag) -> Result<
    (SpecConstantPoolStructure, int),
    DecodeError,
> {
    match tag {
        ConstantPoolTag::Class => match spec_read_u16(s, pos) {
            Ok((a, p)) => Ok((SpecConstantPoolStructure::Class(a), p)),
            Err(e) => Err(e),
        },
        ConstantPoolTag::FieldRef => match spec_read_u16(s, pos) {
            Ok((a, p1)) => match spec_read_u16(s, p1) {
                Ok((b, p2)) => Ok((SpecConstantPoolStructure::FieldRef(a, b), p2)),
                Err(e) => Err(e),
            },
            Err(e) => Err(e),
        },
        ConstantPoolTag::MethodRef => match spec_read_u16(s, pos) {
            Ok((a, p1)) => match spec_read_u16(s, p1) {
                Ok((b, p2)) => Ok((SpecConstantPoolStructure::MethodRef(a, b), p2)),
                Err(e) => Err(e),
            },
            Err(e) => Err(e),
        },
        ConstantPoolTag::InterfaceMethodRef => match spec_read_u16(s, pos) {
            Ok((a, p1)) => match spec_read_u16(s, p1) {
                Ok((b, p2)) => Ok((SpecConstantPoolStructure::InterfaceMethodRef(a, b), p2)),
                Err(e) => Err(e),
            },
            Err(e) => Err(e),
        },
        ConstantPoolTag::Str => match spec_read_u16(s, pos) {
            Ok((a, p)) => Ok((SpecConstantPoolStructure::Str(a), p)),
            Err(e) => Err(e),
        },
        ConstantPoolTag::Integer => match spec_read_u32(s, pos) {
            Ok((a, p)) => Ok((SpecConstantPoolStructure::Integer(a), p)),
            Err(e) => Err(e),
        },
        ConstantPoolTag::Float => match spec_read_u32(s, pos) {
            Ok((a, p)) => Ok((SpecConstantPoolStructure::Float(a), p)),
            Err(e) => Err(e),
        },
        ConstantPoolTag::Long => match spec_read_u32(s, pos) {
            Ok((a, p1)) => match spec_read_u32(s, p1) {
                Ok((b, p2)) => Ok((SpecConstantPoolStructure::Long(a, b), p2)),
                Err(e) => Err(e),
            },
            Err(e) => Err(e),
        },
        ConstantPoolTag::Double => match spec_read_u32(s, pos) {
            Ok((a, p1)) => match spec_read_u32(s, p1) {
                Ok((b, p2)) => Ok((SpecConstantPoolStructure::Double(a, b), p2)),
                Err(e) => Err(e),
            },
            Err(e) => Err(e),
        },
        ConstantPoolTag::NameAndType => match spec_read_u16(s, pos) {
            Ok((a, p1)) => match spec_read_u16(s, p1) {
                Ok((b, p2)) => Ok((SpecConstantPoolStructure::NameAndType(a, b), p2)),
                Err(e) => Err(e),
            },
            Err(e) => Err(e),
        },
        ConstantPoolTag::Utf8 => match spec_read_u16(s, pos) {
            Ok((len, p1)) => match spec_read_bytes(s, p1, len as int) {
                Ok((b, p2)) => if valid_utf8(b) {
                    Ok((SpecConstantPoolStructure::Utf8(decode_utf8(b)), p2))
                } else {
                    Err(DecodeError::InvalidUtf8)
                },
                Err(e) => Err(e),
            },
            Err(e) => Err(e),
        },
        ConstantPoolTag::MethodHandle => match spec_read_u8(s, pos) {
            Ok((a, p1)) => match spec_read_u16(s, p1) {
                Ok((b, p2)) => Ok((SpecConstantPoolStructure::MethodHandle(a, b), p2)),
                Err(e) => Err(e),
            },
            Err(e) => Err(e),
        },
        ConstantPoolTag::MethodType => match spec_read_u16(s, pos) {
            Ok((a, p)) => Ok((SpecConstantPoolStructure::MethodType(a), p)),
            Err(e) => Err(e),
        },
        ConstantPoolTag::InvokeDynamic => match spec_read_u16(s, pos) {
            Ok((a, p1)) => match spec_read_u16(s, p1) {
                Ok((b, p2)) => Ok((SpecConstantPoolStructure::InvokeDynamic(a, b), p2)),
                Err(e) => Err(e),
            },
            Err(e) => Err(e),
        },
    }
}

/// One constant pool entry: a tag byte, then the payload that tag selects.
pub open spec fn spec_cp_entry(s: Seq<u8>, pos: int) -> Result<
    (SpecConstantPoolInfo, int),
    DecodeError,
> {
    match spec_read_u8(s, pos) {
        Ok((t, p1)) => match spec_pool_tag(t) {
            Some(tag) => match spec_cp_payload(s, p1, tag) {
                Ok((info, p2)) => Ok((SpecConstantPoolInfo { tag, info }, p2)),
                Err(e) => Err(e),
            },
            None => Err(DecodeError::UnknownConstantTag),
        },
        Err(e) => Err(e),
    }
}

/// Exactly `n` constant pool entries, one after another.
pub open spec fn spec_cp_entry_seq(s: Seq<u8>, pos: int, n: nat) -> Result<
    (Seq<SpecConstantPoolInfo>, int),
    DecodeError,
>
    decreases n,
{
    if n == 0 {
        Ok((Seq::empty(), pos))
    } else {
        match spec_cp_entry(s, pos) {
            Ok((v, p1)) => match spec_cp_entry_seq(s, p1, (n - 1) as nat) {
                Ok((rest, p2)) => Ok((seq![v] + rest, p2)),
                Err(e) => Err(e),
            },
            Err(e) => Err(e),
        }
    }
}

/// The constant pool: a 16-bit count `N`, then exactly `N - 1` entries (the
/// declared count is one greater than the number of entries present; a count
/// of zero also yields no entries).
pub open spec fn spec_constant_pool(s: Seq<u8>, pos: int) -> Result<
    (Seq<SpecConstantPoolInfo>, int),
    DecodeError,
> {
    match spec_read_u16(s, pos) {
        Ok((count, p1)) => spec_cp_entry_seq(
            s,
            p1,
            if count == 0 {
                0
            } else {
                (count - 1) as nat
            },
        ),
        Err(e) => Err(e),
    }
}

// ---------------------------------------------------------------------------
// Verification types and stack map frames.
// ---------------------------------------------------------------------------

/// One verification type: a tag byte in 0..=8 and, for `Object` and
/// `Uninitialized`, one 16-bit payload. The `Long` and `Double` tag values
/// are swapped relative to natural order, a fixed quirk of the format.
pub open spec fn spec_verification_type(s: Seq<u8>, pos: int) -> Result<
    (VerificationTypeInfo, int),
    DecodeError,
> {
    match spec_read_u8(s, pos) {
        Ok((t, p1)) => if t == 0 {
            Ok((VerificationTypeInfo { tag: t, info: VariableInfo::Top }, p1))
        } else if t == 1 {
            Ok((VerificationTypeInfo { tag: t, info: VariableInfo::Integer }, p1))
        } else if t == 2 {
            Ok((VerificationTypeInfo { tag: t, info: VariableInfo::Float }, p1))
        } else if t == 4 {
            Ok((VerificationTypeInfo { tag: t, info: VariableInfo::Long }, p1))
        } else if t == 3 {
            Ok((VerificationTypeInfo { tag: t, info: VariableInfo::Double }, p1))
        } else if t == 5 {
            Ok((VerificationTypeInfo { tag: t, info: VariableInfo::Null }, p1))
        } else if t == 6 {
            Ok((VerificationTypeInfo { tag: t, info: VariableInfo::UninitializedThis }, p1))
        } else if t == 7 {
            match spec_read_u16(s, p1) {
                Ok((i, p2)) => Ok((VerificationTypeInfo { tag: t, info: VariableInfo::Object(i) }, p2)),
                Err(e) => Err(e),
            }
        } else if t == 8 {
            match spec_read_u16(s, p1) {
                Ok((i, p2)) => Ok(
                    (VerificationTypeInfo { tag: t, info: VariableInfo::Uninitialized(i) }, p2),
                ),
                Err(e) => Err(e),
            }
        } else {
            Err(DecodeError::UnknownVerificationTag)
        },
        Err(e) => Err(e),
    }
}

/// Exactly `n` verification types, one after another.
pub open spec fn spec_vt_seq(s: Seq<u8>, pos: int, n: nat) -> Result<
    (Seq<VerificationTypeInfo>, int),
    DecodeError,
>
    decreases n,
{
    if n == 0 {
        Ok((Seq::empty(), pos))
    } else {
        match spec_verification_type(s, pos) {
            Ok((v, p1)) => match spec_vt_seq(s, p1, (n - 1) as nat) {
                Ok((rest, p2)) => Ok((seq![v] + rest, p2)),
                Err(e) => Err(e),
            },
            Err(e) => Err(e),
        }
    }
}

/// A 16-bit count followed by that many verification types.
pub open spec fn spec_vt_counted(s: Seq<u8>, pos: int) -> Result<
    (Seq<VerificationTypeInfo>, int),
    DecodeError,
> {
    match spec_read_u16(s, pos) {
        Ok((count, p1)) => spec_vt_seq(s, p1, count as nat),
        Err(e) => Err(e),
    }
}

/// One stack map frame, selected by the numeric range of its kind byte.
/// Kind bytes 128..=246 are reserved and fail with `UnknownFrameType`.
pub open spec fn spec_stack_map_frame(s: Seq<u8>, pos: int) -> Result<
    (SpecStackMapFrame, int),
    DecodeError,
> {
    match spec_read_u8(s, pos) {
        Ok((ft, p1)) => if ft <= 63 {
            Ok((SpecStackMapFrame { frame_type: ft, info: SpecStackMapFrameType::Same }, p1))
        } else if ft <= 127 {
            match spec_verification_type(s, p1) {
                Ok((v, p2)) => Ok(
                    (
                        SpecStackMapFrame {
                            frame_type: ft,
                            info: SpecStackMapFrameType::SameLocalsStackItem(v),
                        },
                        p2,
                    ),
                ),
                Err(e) => Err(e),
            }
        } else if ft == 247 {
            match spec_read_u16(s, p1) {
                Ok((d, p2)) => match spec_verification_type(s, p2) {
                    Ok((v, p3)) => Ok(
                        (
                            SpecStackMapFrame {
                                frame_type: ft,
                                info: SpecStackMapFrameType::SameLocalsStackItemExtended(d, v),
                            },
                            p3,
                        ),
                    ),
                    Err(e) => Err(e),
                },
                Err(e) => Err(e),
            }
        } else if 248 <= ft && ft <= 250 {
            match spec_read_u16(s, p1) {
                Ok((d, p2)) => Ok(
                    (
                        SpecStackMapFrame {
                            frame_type: ft,
                            info: SpecStackMapFrameType::Chop(d),
                        },
                        p2,
                    ),
                ),
                Err(e) => Err(e),
            }
        } else if ft == 251 {
            match spec_read_u16(s, p1) {
                Ok((d, p2)) => Ok(
                    (
                        SpecStackMapFrame {
                            frame_type: ft,
                            info: SpecStackMapFrameType::SameExtended(d),
                        },
                        p2,
                    ),
                ),
                Err(e) => Err(e),
            }
        } else if 252 <= ft && ft <= 254 {
            match spec_read_u16(s, p1) {
                Ok((d, p2)) => match spec_vt_seq(s, p2, (ft - 251) as nat) {
                    Ok((locals, p3)) => Ok(
                        (
                            SpecStackMapFrame {
                                frame_type: ft,
                                info: SpecStackMapFrameType::Append(d, locals),
                            },
                            p3,
                        ),
                    ),
                    Err(e) => Err(e),
                },
                Err(e) => Err(e),
            }
        } else if ft == 255 {
            match spec_read_u16(s, p1) {
                Ok((d, p2)) => match spec_vt_counted(s, p2) {
                    Ok((locals, p3)) => match spec_vt_counted(s, p3) {
                        Ok((stack, p4)) => Ok(
                            (
                                SpecStackMapFrame {
                                    frame_type: ft,
                                    info: SpecStackMapFrameType::Full(d, locals, stack),
                                },
                                p4,
                            ),
                        ),
                        Err(e) => Err(e),
                    },
                    Err(e) => Err(e),
                },
                Err(e) => Err(e),
            }
        } else {
            Err(DecodeError::UnknownFrameType)
        },
        Err(e) => Err(e),
    }
}

/// Exactly `n` stack map frames, one after another.
pub open spec fn spec_frame_seq(s: Seq<u8>, pos: int, n: nat) -> Result<
    (Seq<SpecStackMapFrame>, int),
    DecodeError,
>
    decreases n,
{
    if n == 0 {
        Ok((Seq::empty(), pos))
    } else {
        match spec_stack_map_frame(s, pos) {
            Ok((v, p1)) => match spec_frame_seq(s, p1, (n - 1) as nat) {
                Ok((rest, p2)) => Ok((seq![v] + rest, p2)),
                Err(e) => Err(e),
            },
            Err(e) => Err(e),
        }
    }
}

/// A `StackMapTable` payload: a 16-bit count, then that many frames.
pub open spec fn spec_stack_map_table(s: Seq<u8>, pos: int) -> Result<
    (Seq<SpecStackMapFrame>, int),
    DecodeError,
> {
    match spec_read_u16(s, pos) {
        Ok((count, p1)) => spec_frame_seq(s, p1, count as nat),
        Err(e) => Err(e),
    }
}

// ---------------------------------------------------------------------------
// Fixed-shape tables.
// ---------------------------------------------------------------------------

/// One exception table record: four 16-bit fields.
pub open spec fn spec_exception_entry(s: Seq<u8>, pos: int) -> Result<
    (ExceptionTableInfo, int),
    DecodeError,
> {
    match spec_read_u16(s, pos) {
        Ok((a, p1)) => match spec_read_u16(s, p1) {
            Ok((b, p2)) => match spec_read_u16(s, p2) {
                Ok((c, p3)) => match spec_read_u16(s, p3) {
                    Ok((d, p4)) => Ok(
                        (
                            ExceptionTableInfo {
                                start_pc: a,
                                end_pc: b,
                                handler_pc: c,
                                catch_type: d,
                            },
                            p4,
                        ),
                    ),
                    Err(e) => Err(e),
                },
                Err(e) => Err(e),
            },
            Err(e) => Err(e),
        },
        Err(e) => Err(e),
    }
}

/// Exactly `n` exception table records.
pub open spec fn spec_exception_seq(s: Seq<u8>, pos: int, n: nat) -> Result<
    (Seq<ExceptionTableInfo>, int),
    DecodeError,
>
    decreases n,
{
    if n == 0 {
        Ok((Seq::empty(), pos))
    } else {
        match spec_exception_entry(s, pos) {
            Ok((v, p1)) => match spec_exception_seq(s, p1, (n - 1) as nat) {
                Ok((rest, p2)) => Ok((seq![v] + rest, p2)),
                Err(e) => Err(e),
            },
            Err(e) => Err(e),
        }
    }
}

/// An exception table: a 16-bit count, then that many records.
pub open spec fn spec_exception_table(s: Seq<u8>, pos: int) -> Result<
    (Seq<ExceptionTableInfo>, int),
    DecodeError,
> {
    match spec_read_u16(s, pos) {
        Ok((count, p1)) => spec_exception_seq(s, p1, count as nat),
        Err(e) => Err(e),
    }
}

/// One `InnerClasses` record: four 16-bit fields.
pub open spec fn spec_inner_class_entry(s: Seq<u8>, pos: int) -> Result<
    (InnerClassAttributeInfo, int),
    DecodeError,
> {
    match spec_read_u16(s, pos) {
        Ok((a, p1)) => match spec_read_u16(s, p1) {
            Ok((b, p2)) => match spec_read_u16(s, p2) {
                Ok((c, p3)) => match spec_read_u16(s, p3) {
                    Ok((d, p4)) => Ok(
                        (
                            InnerClassAttributeInfo {
                                inner_class_info_index: a,
                                outer_class_info_index: b,
                                inner_name_index: c,
                                inner_class_access_flags: d,
                            },
                            p4,
                        ),
                    ),
                    Err(e) => Err(e),
                },
                Err(e) => Err(e),
            },
            Err(e) => Err(e),
        },
        Err(e) => Err(e),
    }
}

/// Exactly `n` `InnerClasses` records.
pub open spec fn spec_inner_class_seq(s: Seq<u8>, pos: int, n: nat) -> Result<
    (Seq<InnerClassAttributeInfo>, int),
    DecodeError,
>
    decreases n,
{
    if n == 0 {
        Ok((Seq::empty(), pos))
    } else {
        match spec_inner_class_entry(s, pos) {
            Ok((v, p1)) => match spec_inner_class_seq(s, p1, (n - 1) as nat) {
                Ok((rest, p2)) => Ok((seq![v] + rest, p2)),
                Err(e) => Err(e),
            },
            Err(e) => Err(e),
        }
    }
}

/// An `InnerClasses` payload: a 16-bit count, then that many records.
pub open spec fn spec_inner_classes(s: Seq<u8>, pos: int) -> Result<
    (Seq<InnerClassAttributeInfo>, int),
    DecodeError,
> {
    match spec_read_u16(s, pos) {
        Ok((count, p1)) => spec_inner_class_seq(s, p1, count as nat),
        Err(e) => Err(e),
    }
}

/// One `LineNumberTable` record: two 16-bit fields.
pub open spec fn spec_line_number_entry(s: Seq<u8>, pos: int) -> Result<
    (LineNumberTableInfo, int),
    DecodeError,
> {
    match spec_read_u16(s, pos) {
        Ok((a, p1)) => match spec_read_u16(s, p1) {
            Ok((b, p2)) => Ok((LineNumberTableInfo { start_pc: a, line_number: b }, p2)),
            Err(e) => Err(e),
        },
        Err(e) => Err(e),
    }
}

/// Exactly `n` `LineNumberTable` records.
pub open spec fn spec_line_number_seq(s: Seq<u8>, pos: int, n: nat) -> Result<
    (Seq<LineNumberTableInfo>, int),
    DecodeError,
>
    decreases n,
{
    if n == 0 {
        Ok((Seq::empty(), pos))
    } else {
        match spec_line_number_entry(s, pos) {
            Ok((v, p1)) => match spec_line_number_seq(s, p1, (n - 1) as nat) {
                Ok((rest, p2)) => Ok((seq![v] + rest, p2)),
                Err(e) => Err(e),
            },
            Err(e) => Err(e),
        }
    }
}

/// A `LineNumberTable` payload: a 16-bit count, then that many records.
pub open spec fn spec_line_number_table(s: Seq<u8>, pos: int) -> Result<
    (Seq<LineNumberTableInfo>, int),
    DecodeError,
> {
    match spec_read_u16(s, pos) {
        Ok((count, p1)) => spec_line_number_seq(s, p1, count as nat),
        Err(e) => Err(e),
    }
}

/// One `LocalVariableTable` record: five 16-bit fields.
pub open spec fn spec_local_variable_entry(s: Seq<u8>, pos: int) -> Result<
    (LocalVariableTableInfo, int),
    DecodeError,
> {
    match spec_read_u16(s, pos) {
        Ok((a, p1)) => match spec_read_u16(s, p1) {
            Ok((b, p2)) => match spec_read_u16(s, p2) {
                Ok((c, p3)) => match spec_read_u16(s, p3) {
                    Ok((d, p4)) => match spec_read_u16(s, p4) {
                        Ok((i, p5)) => Ok(
                            (
                                LocalVariableTableInfo {
                                    start_pc: a,
                                    length: b,
                                    name_index: c,
                                    descriptor_index: d,
                                    index: i,
                                },
                                p5,
                            ),
                        ),
                        Err(e) => Err(e),
                    },
                    Err(e) => Err(e),
                },
                Err(e) => Err(e),
            },
            Err(e) => Err(e),
        },
        Err(e) => Err(e),
    }
}

/// Exactly `n` `LocalVariableTable` records.
pub open spec fn spec_local_variable_seq(s: Seq<u8>, pos: int, n: nat) -> Result<
    (Seq<LocalVariableTableInfo>, int),
    DecodeError,
>
    decreases n,
{
    if n == 0 {
        Ok((Seq::empty(), pos))
    } else {
        match spec_local_variable_entry(s, pos) {
            Ok((v, p1)) => match spec_local_variable_seq(s, p1, (n - 1) as nat) {
                Ok((rest, p2)) => Ok((seq![v] + rest, p2)),
                Err(e) => Err(e),
            },
            Err(e) => Err(e),
        }
    }
}

/// A `LocalVariableTable` payload: a 16-bit count, then that many records.
pub open spec fn spec_local_variable_table(s: Seq<u8>, pos: int) -> Result<
    (Seq<LocalVariableTableInfo>, int),
    DecodeError,
> {
    match spec_read_u16(s, pos) {
        Ok((count, p1)) => spec_local_variable_seq(s, p1, count as nat),
        Err(e) => Err(e),
    }
}

/// One `LocalVariableTypeTable` record: five 16-bit fields.
pub open spec fn spec_local_variable_type_entry(s: Seq<u8>, pos: int) -> Result<
    (LocalVariableTypeTableInfo, int),
    DecodeError,
> {
    match spec_read_u16(s, pos) {
        Ok((a, p1)) => match spec_read_u16(s, p1) {
            Ok((b, p2)) => match spec_read_u16(s, p2) {
                Ok((c, p3)) => match spec_read_u16(s, p3) {
                    Ok((d, p4)) => match spec_read_u16(s, p4) {
                        Ok((i, p5)) => Ok(
                            (
                                LocalVariableTypeTableInfo {
                                    start_pc: a,
                                    length: b,
                                    name_index: c,
                                    signature_index: d,
                                    index: i,
                                },
                                p5,
                            ),
                        ),
                        Err(e) => Err(e),
                    },
                    Err(e) => Err(e),
                },
                Err(e) => Err(e),
            },
            Err(e) => Err(e),
        },
        Err(e) => Err(e),
    }
}

/// Exactly `n` `LocalVariableTypeTable` records.
pub open spec fn spec_local_variable_type_seq(s: Seq<u8>, pos: int, n: nat) -> Result<
    (Seq<LocalVariableTypeTableInfo>, int),
    DecodeError,
>
    decreases n,
{
    if n == 0 {
        Ok((Seq::empty(), pos))
    } else {
        match spec_local_variable_type_entry(s, pos) {
            Ok((v, p1)) => match spec_local_variable_type_seq(s, p1, (n - 1) as nat) {
                Ok((rest, p2)) => Ok((seq![v] + rest, p2)),
                Err(e) => Err(e),
            },
            Err(e) => Err(e),
        }
    }
}

/// A `LocalVariableTypeTable` payload: a 16-bit count, then that many records.
pub open spec fn spec_local_variable_type_table(s: Seq<u8>, pos: int) -> Result<
    (Seq<LocalVariableTypeTableInfo>, int),
    DecodeError,
> {
    match spec_read_u16(s, pos) {
        Ok((count, p1)) => spec_local_variable_type_seq(s, p1, count as nat),
        Err(e) => Err(e),
    }
}

/// One `BootstrapMethods` record: a method reference and its argument list.
pub open spec fn spec_bootstrap_method(s: Seq<u8>, pos: int) -> Result<
    (SpecBootstrapMethodInfo, int),
    DecodeError,
> {
    match spec_read_u16(s, pos) {
        Ok((m, p1)) => match spec_read_u16_vec(s, p1) {
            Ok((args, p2)) => Ok(
                (
                    SpecBootstrapMethodInfo {
                        bootstrap_method_ref: m,
                        bootstrap_arguments: args,
                    },
                    p2,
                ),
            ),
            Err(e) => Err(e),
        },
        Err(e) => Err(e),
    }
}

/// Exactly `n` `BootstrapMethods` records.
pub open spec fn spec_bootstrap_seq(s: Seq<u8>, pos: int, n: nat) -> Result<
    (Seq<SpecBootstrapMethodInfo>, int),
    DecodeError,
>
    decreases n,
{
    if n == 0 {
        Ok((Seq::empty(), pos))
    } else {
        match spec_bootstrap_method(s, pos) {
            Ok((v, p1)) => match spec_bootstrap_seq(s, p1, (n - 1) as nat) {
                Ok((rest, p2)) => Ok((seq![v] + rest, p2)),
                Err(e) => Err(e),
            },
            Err(e) => Err(e),
        }
    }
}

/// A `BootstrapMethods` payload: a 16-bit count, then that many records.
pub open spec fn spec_bootstrap_methods(s: Seq<u8>, pos: int) -> Result<
    (Seq<SpecBootstrapMethodInfo>, int),
    DecodeError,
> {
    match spec_read_u16(s, pos) {
        Ok((count, p1)) => spec_bootstrap_seq(s, p1, count as nat),
        Err(e) => Err(e),
    }
}

// ---------------------------------------------------------------------------
// Attributes, annotations, and their recursion.
//
// Attribute payloads can nest: a `Code` attribute owns an attribute list of
// its own, and annotation element values recurse through the `annotation`
// and `array` kinds. Each function here therefore carries `depth`, the
// remaining recursion budget: it fails with `RecursionLimitExceeded` when the
// budget is gone, and hands `depth - 1` to everything it nests into.
// ---------------------------------------------------------------------------

/// Whether a resolved attribute name is one the decoder gives shape to.
/// Every other name decodes as an opaque `Other` blob.
pub open spec fn spec_recognized_attribute_name(name: Seq<char>) -> bool {
    ||| name == "ConstantValue"@
    ||| name == "Code"@
    ||| name == "StackMapTable"@
    ||| name == "Exceptions"@
    ||| name == "InnerClasses"@
    ||| name == "EnclosingMethod"@
    ||| name == "Synthetic"@
    ||| name == "Signature"@
    ||| name == "SourceFile"@
    ||| name == "SourceDebugExtension"@
    ||| name == "LineNumberTable"@
    ||| name == "LocalVariableTable"@
    ||| name == "LocalVariableTypeTable"@
    ||| name == "Deprecated"@
    ||| name == "RuntimeVisibleAnnotations"@
    ||| name == "RuntimeInvisibleAnnotations"@
    ||| name == "RuntimeVisibleParameterAnnotations"@
    ||| name == "RuntimeInvisibleParameterAnnotations"@
    ||| name == "AnnotationDefault"@
    ||| name == "BootstrapMethods"@
}

/// An attribute's payload, selected by the resolved name string. `length` is
/// the attribute's declared byte length, which only the raw-blob payloads
/// (`SourceDebugExtension` and unrecognized names) consume directly.
pub open spec fn spec_attribute_payload(
    s: Seq<u8>,
    pos: int,
    name: Seq<char>,
    length: u32,
    pool: Seq<SpecConstantPoolInfo>,
    depth: nat,
) -> Result<(SpecAttributeInfoStructure, int), DecodeError>
    decreases depth, 0nat, 0nat,
{
    if depth == 0 {
        Err(DecodeError::RecursionLimitExceeded)
    } else if name == "ConstantValue"@ {
        match spec_read_u16(s, pos) {
            Ok((i, p)) => Ok((SpecAttributeInfoStructure::ConstantValue(i), p)),
            Err(e) => Err(e),
        }
    } else if name == "Code"@ {
        match spec_code_attribute(s, pos, pool, (depth - 1) as nat) {
            Ok((c, p)) => Ok((SpecAttributeInfoStructure::Code(c), p)),
            Err(e) => Err(e),
        }
    } else if name == "StackMapTable"@ {
        match spec_stack_map_table(s, pos) {
            Ok((t, p)) => Ok((SpecAttributeInfoStructure::StackMapTable(t), p)),
            Err(e) => Err(e),
        }
    } else if name == "Exceptions"@ {
        match spec_read_u16_vec(s, pos) {
            Ok((t, p)) => Ok((SpecAttributeInfoStructure::Exceptions(t), p)),
            Err(e) => Err(e),
        }
    } else if name == "InnerClasses"@ {
        match spec_inner_classes(s, pos) {
            Ok((t, p)) => Ok((SpecAttributeInfoStructure::InnerClasses(t), p)),
            Err(e) => Err(e),
        }
    } else if name == "EnclosingMethod"@ {
        match spec_read_u16(s, pos) {
            Ok((c, p1)) => match spec_read_u16(s, p1) {
                Ok((m, p2)) => Ok((SpecAttributeInfoStructure::EnclosingMethod(c, m), p2)),
                Err(e) => Err(e),
            },
            Err(e) => Err(e),
        }
    } else if name == "Synthetic"@ {
        Ok((SpecAttributeInfoStructure::Synthetic, pos))
    } else if name == "Signature"@ {
        match spec_read_u16(s, pos) {
            Ok((i, p)) => Ok((SpecAttributeInfoStructure::Signature(i), p)),
            Err(e) => Err(e),
        }
    } else if name == "SourceFile"@ {
        match spec_read_u16(s, pos) {
            Ok((i, p)) => Ok((SpecAttributeInfoStructure::SourceFile(i), p)),
            Err(e) => Err(e),
        }
    } else if name == "SourceDebugExtension"@ {
        match spec_read_bytes(s, pos, length as int) {
            Ok((b, p)) => Ok((SpecAttributeInfoStructure::SourceDebugExtension(b), p)),
            Err(e) => Err(e),
        }
    } else if name == "LineNumberTable"@ {
        match spec_line_number_table(s, pos) {
            Ok((t, p)) => Ok((SpecAttributeInfoStructure::LineNumberTable(t), p)),
            Err(e) => Err(e),
        }
    } else if name == "LocalVariableTable"@ {
        match spec_local_variable_table(s, pos) {
            Ok((t, p)) => Ok((SpecAttributeInfoStructure::LocalVariableTable(t), p)),
            Err(e) => Err(e),
        }
    } else if name == "LocalVariableTypeTable"@ {
        match spec_local_variable_type_table(s, pos) {
            Ok((t, p)) => Ok((SpecAttributeInfoStructure::LocalVariableTypeTable(t), p)),
            Err(e) => Err(e),
        }
    } else if name == "Deprecated"@ {
        Ok((SpecAttributeInfoStructure::Deprecated, pos))
    } else if name == "RuntimeVisibleAnnotations"@ {
        match spec_annotations(s, pos, (depth - 1) as nat) {
            Ok((t, p)) => Ok((SpecAttributeInfoStructure::RuntimeVisibleAnnotations(t), p)),
            Err(e) => Err(e),
        }
    } else if name == "RuntimeInvisibleAnnotations"@ {
        match spec_annotations(s, pos, (depth - 1) as nat) {
            Ok((t, p)) => Ok((SpecAttributeInfoStructure::RuntimeInvisibleAnnotations(t), p)),
            Err(e) => Err(e),
        }
    } else if name == "RuntimeVisibleParameterAnnotations"@ {
        match spec_parameter_annotations(s, pos, (depth - 1) as nat) {
            Ok((t, p)) => Ok(
                (SpecAttributeInfoStructure::RuntimeVisibleParameterAnnotations(t), p),
            ),
            Err(e) => Err(e),
        }
    } else if name == "RuntimeInvisibleParameterAnnotations"@ {
        match spec_parameter_annotations(s, pos, (depth - 1) as nat) {
            Ok((t, p)) => Ok(
                (SpecAttributeInfoStructure::RuntimeInvisibleParameterAnnotations(t), p),
            ),
            Err(e) => Err(e),
        }
    } else if name == "AnnotationDefault"@ {
        match spec_element_value(s, pos, (depth - 1) as nat) {
            Ok((v, p)) => Ok((SpecAttributeInfoStructure::AnnotationDefault(v), p)),
            Err(e) => Err(e),
        }
    } else if name == "BootstrapMethods"@ {
        match spec_bootstrap_methods(s, pos) {
            Ok((t, p)) => Ok((SpecAttributeInfoStructure::BootstrapMethods(t), p)),
            Err(e) => Err(e),
        }
    } else {
        match spec_read_bytes(s, pos, length as int) {
            Ok((b, p)) => Ok((SpecAttributeInfoStructure::Other(b), p)),
            Err(e) => Err(e),
        }
    }
}

/// One attribute: name index, declared length, then the payload the resolved
/// name selects. The name index is taken as a direct index into the decoded
/// pool; an index with no Utf8 entry behind it fails with
/// `AttributeNameNotUtf8`.
pub open spec fn spec_attribute(
    s: Seq<u8>,
    pos: int,
    pool: Seq<SpecConstantPoolInfo>,
    depth: nat,
) -> Result<(SpecAttributeInfo, int), DecodeError>
    decreases depth, 1nat, 0nat,
{
    if depth == 0 {
        Err(DecodeError::RecursionLimitExceeded)
    } else {
        match spec_read_u16(s, pos) {
            Ok((name_index, p1)) => match spec_read_u32(s, p1) {
                Ok((length, p2)) => if name_index < pool.len() && pool[name_index as int].info
                    is Utf8 {
                    match spec_attribute_payload(
                        s,
                        p2,
                        pool[name_index as int].info->Utf8_0,
                        length,
                        pool,
                        depth,
                    ) {
                        Ok((info, p3)) => Ok(
                            (
                                SpecAttributeInfo {
                                    attribute_name_index: name_index,
                                    attribute_length: length,
                                    info,
                                },
                                p3,
                            ),
                        ),
                        Err(e) => Err(e),
                    }
                } else {
                    Err(DecodeError::AttributeNameNotUtf8)
                },
                Err(e) => Err(e),
            },
            Err(e) => Err(e),
        }
    }
}

/// Exactly `n` attributes, one after another.
pub open spec fn spec_attr_seq(
    s: Seq<u8>,
    pos: int,
    pool: Seq<SpecConstantPoolInfo>,
    n: nat,
    depth: nat,
) -> Result<(Seq<SpecAttributeInfo>, int), DecodeError>
    decreases depth, 0nat, n,
{
    if n == 0 {
        Ok((Seq::empty(), pos))
    } else if depth == 0 {
        Err(DecodeError::RecursionLimitExceeded)
    } else {
        match spec_attribute(s, pos, pool, (depth - 1) as nat) {
            Ok((v, p1)) => match spec_attr_seq(s, p1, pool, (n - 1) as nat, depth) {
                Ok((rest, p2)) => Ok((seq![v] + rest, p2)),
                Err(e) => Err(e),
            },
            Err(e) => Err(e),
        }
    }
}

/// An attribute list: a 16-bit count, then that many attributes.
pub open spec fn spec_attributes(
    s: Seq<u8>,
    pos: int,
    pool: Seq<SpecConstantPoolInfo>,
    depth: nat,
) -> Result<(Seq<SpecAttributeInfo>, int), DecodeError>
    decreases depth, 1nat, 1nat,
{
    if depth == 0 {
        Err(DecodeError::RecursionLimitExceeded)
    } else {
        match spec_read_u16(s, pos) {
            Ok((count, p1)) => spec_attr_seq(s, p1, pool, count as nat, depth),
            Err(e) => Err(e),
        }
    }
}

/// A `Code` attribute body: capacities, raw instruction bytes, the exception
/// table, and a nested attribute list.
pub open spec fn spec_code_attribute(
    s: Seq<u8>,
    pos: int,
    pool: Seq<SpecConstantPoolInfo>,
    depth: nat,
) -> Result<(SpecCodeAttributeInfo, int), DecodeError>
    decreases depth, 1nat, 0nat,
{
    if depth == 0 {
        Err(DecodeError::RecursionLimitExceeded)
    } else {
        match spec_read_u16(s, pos) {
            Ok((max_stack, p1)) => match spec_read_u16(s, p1) {
                Ok((max_locals, p2)) => match spec_read_u32(s, p2) {
                    Ok((code_len, p3)) => match spec_read_bytes(s, p3, code_len as int) {
                        Ok((code, p4)) => match spec_exception_table(s, p4) {
                            Ok((extab, p5)) => match spec_attributes(
                                s,
                                p5,
                                pool,
                                (depth - 1) as nat,
                            ) {
                                Ok((attrs, p6)) => Ok(
                                    (
                                        SpecCodeAttributeInfo {
                                            max_stack,
                                            max_locals,
                                            code,
                                            exception_table: extab,
                                            attributes: attrs,
                                        },
                                        p6,
                                    ),
                                ),
                                Err(e) => Err(e),
                            },
                            Err(e) => Err(e),
                        },
                        Err(e) => Err(e),
                    },
                    Err(e) => Err(e),
                },
                Err(e) => Err(e),
            },
            Err(e) => Err(e),
        }
    }
}

/// One annotation: a type index and its element-value pairs.
pub open spec fn spec_annotation(s: Seq<u8>, pos: int, depth: nat) -> Result<
    (SpecAnnotationInfo, int),
    DecodeError,
>
    decreases depth, 1nat, 0nat,
{
    if depth == 0 {
        Err(DecodeError::RecursionLimitExceeded)
    } else {
        match spec_read_u16(s, pos) {
            Ok((type_index, p1)) => match spec_element_value_pairs(s, p1, (depth - 1) as nat) {
                Ok((pairs, p2)) => Ok(
                    (SpecAnnotationInfo { type_index, element_value_pairs: pairs }, p2),
                ),
                Err(e) => Err(e),
            },
            Err(e) => Err(e),
        }
    }
}

/// Exactly `n` annotations, one after another.
pub open spec fn spec_annotation_seq(s: Seq<u8>, pos: int, n: nat, depth: nat) -> Result<
    (Seq<SpecAnnotationInfo>, int),
    DecodeError,
>
    decreases depth, 0nat, n,
{
    if n == 0 {
        Ok((Seq::empty(), pos))
    } else if depth == 0 {
        Err(DecodeError::RecursionLimitExceeded)
    } else {
        match spec_annotation(s, pos, (depth - 1) as nat) {
            Ok((v, p1)) => match spec_annotation_seq(s, p1, (n - 1) as nat, depth) {
                Ok((rest, p2)) => Ok((seq![v] + rest, p2)),
                Err(e) => Err(e),
            },
            Err(e) => Err(e),
        }
    }
}

/// An annotation list: a 16-bit count, then that many annotations.
pub open spec fn spec_annotations(s: Seq<u8>, pos: int, depth: nat) -> Result<
    (Seq<SpecAnnotationInfo>, int),
    DecodeError,
>
    decreases depth, 1nat, 1nat,
{
    if depth == 0 {
        Err(DecodeError::RecursionLimitExceeded)
    } else {
        match spec_read_u16(s, pos) {
            Ok((count, p1)) => spec_annotation_seq(s, p1, count as nat, depth),
            Err(e) => Err(e),
        }
    }
}

/// One element-value pair: a name index and the value behind it.
pub open spec fn spec_element_value_pair(s: Seq<u8>, pos: int, depth: nat) -> Result<
    (SpecAnnotationElementValuePair, int),
    DecodeError,
>
    decreases depth, 1nat, 0nat,
{
    if depth == 0 {
        Err(DecodeError::RecursionLimitExceeded)
    } else {
        match spec_read_u16(s, pos) {
            Ok((name_index, p1)) => match spec_element_value(s, p1, (depth - 1) as nat) {
                Ok((v, p2)) => Ok(
                    (
                        SpecAnnotationElementValuePair {
                            element_name_index: name_index,
                            value: v,
                        },
                        p2,
                    ),
                ),
                Err(e) => Err(e),
            },
            Err(e) => Err(e),
        }
    }
}

/// Exactly `n` element-value pairs, one after another.
pub open spec fn spec_pair_seq(s: Seq<u8>, pos: int, n: nat, depth: nat) -> Result<
    (Seq<SpecAnnotationElementValuePair>, int),
    DecodeError,
>
    decreases depth, 0nat, n,
{
    if n == 0 {
        Ok((Seq::empty(), pos))
    } else if depth == 0 {
        Err(DecodeError::RecursionLimitExceeded)
    } else {
        match spec_element_value_pair(s, pos, (depth - 1) as nat) {
            Ok((v, p1)) => match spec_pair_seq(s, p1, (n - 1) as nat, depth) {
                Ok((rest, p2)) => Ok((seq![v] + rest, p2)),
                Err(e) => Err(e),
            },
            Err(e) => Err(e),
        }
    }
}

/// An element-value pair list: a 16-bit count, then that many pairs.
pub open spec fn spec_element_value_pairs(s: Seq<u8>, pos: int, depth: nat) -> Result<
    (Seq<SpecAnnotationElementValuePair>, int),
    DecodeError,
>
    decreases depth, 1nat, 1nat,
{
    if depth == 0 {
        Err(DecodeError::RecursionLimitExceeded)
    } else {
        match spec_read_u16(s, pos) {
            Ok((count, p1)) => spec_pair_seq(s, p1, count as nat, depth),
            Err(e) => Err(e),
        }
    }
}

/// One element value: a tag byte read as a character, then the payload it
/// selects. The primitive-constant tags `B C D F I J S Z s` each carry one
/// pool index; `e` carries two, `c` one, `@` a nested annotation, `[` a
/// count-prefixed list of further element values.
pub open spec fn spec_element_value(s: Seq<u8>, pos: int, depth: nat) -> Result<
    (SpecAnnotationElementValue, int),
    DecodeError,
>
    decreases depth, 1nat, 0nat,
{
    if depth == 0 {
        Err(DecodeError::RecursionLimitExceeded)
    } else {
        match spec_read_u8(s, pos) {
            Ok((tag, p1)) => if tag == 66 || tag == 67 || tag == 68 || tag == 70 || tag == 73
                || tag == 74 || tag == 83 || tag == 90 || tag == 115 {
                // 'B' 'C' 'D' 'F' 'I' 'J' 'S' 'Z' 's'
                match spec_read_u16(s, p1) {
                    Ok((i, p2)) => Ok(
                        (
                            SpecAnnotationElementValue {
                                tag,
                                value: SpecAnnotationElementValueType::Const(i),
                            },
                            p2,
                        ),
                    ),
                    Err(e) => Err(e),
                }
            } else if tag == 101 {
                // 'e'
                match spec_read_u16(s, p1) {
                    Ok((t, p2)) => match spec_read_u16(s, p2) {
                        Ok((c, p3)) => Ok(
                            (
                                SpecAnnotationElementValue {
                                    tag,
                                    value: SpecAnnotationElementValueType::EnumConst(t, c),
                                },
                                p3,
                            ),
                        ),
                        Err(e) => Err(e),
                    },
                    Err(e) => Err(e),
                }
            } else if tag == 99 {
                // 'c'
                match spec_read_u16(s, p1) {
                    Ok((i, p2)) => Ok(
                        (
                            SpecAnnotationElementValue {
                                tag,
                                value: SpecAnnotationElementValueType::ClassInfo(i),
                            },
                            p2,
                        ),
                    ),
                    Err(e) => Err(e),
                }
            } else if tag == 64 {
                // '@'
                match spec_annotation(s, p1, (depth - 1) as nat) {
                    Ok((a, p2)) => Ok(
                        (
                            SpecAnnotationElementValue {
                                tag,
                                value: SpecAnnotationElementValueType::Annotation(a),
                            },
                            p2,
                        ),
                    ),
                    Err(e) => Err(e),
                }
            } else if tag == 91 {
                // '['
                match spec_element_values(s, p1, (depth - 1) as nat) {
                    Ok((vs, p2)) => Ok(
                        (
                            SpecAnnotationElementValue {
                                tag,
                                value: SpecAnnotationElementValueType::Array(vs),
                            },
                            p2,
                        ),
                    ),
                    Err(e) => Err(e),
                }
            } else {
                Err(DecodeError::UnknownElementValueTag)
            },
            Err(e) => Err(e),
        }
    }
}

/// Exactly `n` element values, one after another.
pub open spec fn spec_element_value_seq(s: Seq<u8>, pos: int, n: nat, depth: nat) -> Result<
    (Seq<SpecAnnotationElementValue>, int),
    DecodeError,
>
    decreases depth, 0nat, n,
{
    if n == 0 {
        Ok((Seq::empty(), pos))
    } else if depth == 0 {
        Err(DecodeError::RecursionLimitExceeded)
    } else {
        match spec_element_value(s, pos, (depth - 1) as nat) {
            Ok((v, p1)) => match spec_element_value_seq(s, p1, (n - 1) as nat, depth) {
                Ok((rest, p2)) => Ok((seq![v] + rest, p2)),
                Err(e) => Err(e),
            },
            Err(e) => Err(e),
        }
    }
}

/// An element value list: a 16-bit count, then that many values.
pub open spec fn spec_element_values(s: Seq<u8>, pos: int, depth: nat) -> Result<
    (Seq<SpecAnnotationElementValue>, int),
    DecodeError,
>
    decreases depth, 1nat, 1nat,
{
    if depth == 0 {
        Err(DecodeError::RecursionLimitExceeded)
    } else {
        match spec_read_u16(s, pos) {
            Ok((count, p1)) => spec_element_value_seq(s, p1, count as nat, depth),
            Err(e) => Err(e),
        }
    }
}

/// Exactly `n` parameter-annotation records, each an annotation list.
pub open spec fn spec_param_seq(s: Seq<u8>, pos: int, n: nat, depth: nat) -> Result<
    (Seq<SpecParameterAnnotationInfo>, int),
    DecodeError,
>
    decreases depth, 0nat, n,
{
    if n == 0 {
        Ok((Seq::empty(), pos))
    } else if depth == 0 {
        Err(DecodeError::RecursionLimitExceeded)
    } else {
        match spec_annotations(s, pos, (depth - 1) as nat) {
            Ok((anns, p1)) => match spec_param_seq(s, p1, (n - 1) as nat, depth) {
                Ok((rest, p2)) => Ok(
                    (seq![SpecParameterAnnotationInfo { annotations: anns }] + rest, p2),
                ),
                Err(e) => Err(e),
            },
            Err(e) => Err(e),
        }
    }
}

/// A parameter-annotations payload: a 16-bit count, then that many records.
pub open spec fn spec_parameter_annotations(s: Seq<u8>, pos: int, depth: nat) -> Result<
    (Seq<SpecParameterAnnotationInfo>, int),
    DecodeError,
>
    decreases depth, 1nat, 1nat,
{
    if depth == 0 {
        Err(DecodeError::RecursionLimitExceeded)
    } else {
        match spec_read_u16(s, pos) {
            Ok((count, p1)) => spec_param_seq(s, p1, count as nat, depth),
            Err(e) => Err(e),
        }
    }
}

// ---------------------------------------------------------------------------
// Fields and the class file itself.
// ---------------------------------------------------------------------------

/// One field (or method) descriptor: flags, two pool references, attributes.
pub open spec fn spec_field(s: Seq<u8>, pos: int, pool: Seq<SpecConstantPoolInfo>, depth: nat) -> Result<
    (SpecFieldInfo, int),
    DecodeError,
> {
    match spec_read_u16(s, pos) {
        Ok((access_flags, p1)) => match spec_read_u16(s, p1) {
            Ok((name_index, p2)) => match spec_read_u16(s, p2) {
                Ok((descriptor_index, p3)) => match spec_attributes(s, p3, pool, depth) {
                    Ok((attrs, p4)) => Ok(
                        (
                            SpecFieldInfo {
                                access_flags,
                                name_index,
                                descriptor_index,
                                attributes: attrs,
                            },
                            p4,
                        ),
                    ),
                    Err(e) => Err(e),
                },
                Err(e) => Err(e),
            },
            Err(e) => Err(e),
        },
        Err(e) => Err(e),
    }
}

/// Exactly `n` field descriptors, one after another.
pub open spec fn spec_field_seq(
    s: Seq<u8>,
    pos: int,
    pool: Seq<SpecConstantPoolInfo>,
    n: nat,
    depth: nat,
) -> Result<(Seq<SpecFieldInfo>, int), DecodeError>
    decreases n,
{
    if n == 0 {
        Ok((Seq::empty(), pos))
    } else {
        match spec_field(s, pos, pool, depth) {
            Ok((v, p1)) => match spec_field_seq(s, p1, pool, (n - 1) as nat, depth) {
                Ok((rest, p2)) => Ok((seq![v] + rest, p2)),
                Err(e) => Err(e),
            },
            Err(e) => Err(e),
        }
    }
}

/// A field list: a 16-bit count, then that many descriptors.
pub open spec fn spec_fields(s: Seq<u8>, pos: int, pool: Seq<SpecConstantPoolInfo>, depth: nat) -> Result<
    (Seq<SpecFieldInfo>, int),
    DecodeError,
> {
    match spec_read_u16(s, pos) {
        Ok((count, p1)) => spec_field_seq(s, p1, pool, count as nat, depth),
        Err(e) => Err(e),
    }
}

/// A whole class file, from the start of the stream: the magic signature,
/// versions, constant pool, access flags, this/super class, interfaces, and
/// fields. Decoding stops after the field list; trailing bytes are left
/// unread. `depth` bounds attribute and annotation nesting.
pub open spec fn spec_class_file(s: Seq<u8>, depth: nat) -> Result<
    (SpecClassFile, int),
    DecodeError,
> {
    match spec_read_u32(s, 0) {
        Ok((magic, p1)) => if magic != CLASS_FILE_MAGIC {
            Err(DecodeError::BadMagic)
        } else {
            match spec_read_u16(s, p1) {
                Ok((minor, p2)) => match spec_read_u16(s, p2) {
                    Ok((major, p3)) => match spec_constant_pool(s, p3) {
                        Ok((pool, p4)) => match spec_read_u16(s, p4) {
                            Ok((access_flags, p5)) => match spec_read_u16(s, p5) {
                                Ok((this_class, p6)) => match spec_read_u16(s, p6) {
                                    Ok((super_class, p7)) => match spec_read_u16_vec(s, p7) {
                                        Ok((interfaces, p8)) => match spec_fields(
                                            s,
                                            p8,
                                            pool,
                                            depth,
                                        ) {
                                            Ok((fields, p9)) => Ok(
                                                (
                                                    SpecClassFile {
                                                        magic,
                                                        minor_version: minor,
                                                        major_version: major,
                                                        constant_pool: pool,
                                                        access_flags,
                                                        this_class,
                                                        super_class,
                                                        interfaces,
                                                        fields,
                                                    },
                                                    p9,
                                                ),
                                            ),
                                            Err(e) => Err(e),
                                        },
                                        Err(e) => Err(e),
                                    },
                                    Err(e) => Err(e),
                                },
                                Err(e) => Err(e),
                            },
                            Err(e) => Err(e),
                        },
                        Err(e) => Err(e),
                    },
                    Err(e) => Err(e),
                },
                Err(e) => Err(e),
            }
        },
        Err(e) => Err(e),
    }
}

} // verus!
