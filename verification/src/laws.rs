//! Laws the decoder obeys, stated and proved once over the format
//! specification. The executable decoders inherit each of them through their
//! contracts, which pin every result to the same specification functions.

use crate::error::DecodeError;
use crate::format::{
    spec_attribute, spec_class_file, spec_recognized_attribute_name, spec_stack_map_frame,
};
use crate::model::{
    SpecAttributeInfo, SpecConstantPoolInfo, SpecStackMapFrame, SpecStackMapFrameType,
    VariableInfo, VerificationTypeInfo,
};
use vstd::prelude::*;

verus! {

/// Decoding is deterministic: identical byte streams always yield
/// structurally identical trees (or the identical error), under the same
/// nesting ceiling. Every executable decoder's result is pinned to
/// `spec_class_file`, so two runs over equal bytes cannot disagree.
pub proof fn lemma_decode_deterministic(s1: Seq<u8>, s2: Seq<u8>, limit: nat)
    requires
        s1 == s2,
    ensures
        spec_class_file(s1, limit) == spec_class_file(s2, limit),
{
}

/// An attribute whose resolved name is not one of the recognized kinds
/// decodes as an opaque blob of exactly its declared length, and the position
/// after it stands exactly `6 + declared length` bytes past the position
/// before it (the name index, the length field, and the payload).
pub proof fn lemma_unknown_attribute_opaque(
    s: Seq<u8>,
    pos: int,
    pool: Seq<SpecConstantPoolInfo>,
    depth: nat,
    a: SpecAttributeInfo,
    pend: int,
)
    requires
        spec_attribute(s, pos, pool, depth) == Ok::<(SpecAttributeInfo, int), DecodeError>(
            (a, pend),
        ),
        !spec_recognized_attribute_name(pool[a.attribute_name_index as int].info->Utf8_0),
    ensures
        a.info is Other,
        a.info->Other_0.len() == a.attribute_length,
        pend == pos + 6 + a.attribute_length,
{
}

/// A stack map frame whose kind byte is 64, followed by the verification
/// type tag 1 (`Integer`), decodes to `SameLocalsStackItem` with that one
/// stack item. The offset delta is implicit in the kind byte (64 - 64 = 0):
/// no offset field is consumed, so the position advances by exactly the two
/// bytes read.
pub proof fn lemma_same_locals_stack_item_frame(s: Seq<u8>, pos: int)
    requires
        0 <= pos,
        pos + 2 <= s.len(),
        s[pos] == 64,
        s[pos + 1] == 1,
    ensures
        spec_stack_map_frame(s, pos) == Ok::<(SpecStackMapFrame, int), DecodeError>(
            (
                SpecStackMapFrame {
                    frame_type: 64,
                    info: SpecStackMapFrameType::SameLocalsStackItem(
                        VerificationTypeInfo { tag: 1, info: VariableInfo::Integer },
                    ),
                },
                pos + 2,
            ),
        ),
{
}

} // verus!
