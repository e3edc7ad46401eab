//! The decoded structures, and their ghost counterparts.
//!
//! Each executable type holds exactly what its run of bytes declares. Types
//! whose fields are all fixed-width integers serve both executable and ghost
//! code as they are; types that own a `Vec` or a `String` have a ghost
//! counterpart (prefixed `Spec`) over `Seq`, reached through the `view_*`
//! functions at the end of this module. The contracts of the decoders speak
//! of the ghost counterparts only.

use vstd::prelude::*;

verus! {

broadcast use vstd::seq::group_seq_axioms, vstd::std_specs::vec::group_vec_axioms;

/// The tag byte of a constant pool entry, one of the fourteen recognized kinds.
#[derive(Clone, Copy, Debug, PartialEq, Eq, Structural)]
pub enum ConstantPoolTag {
    Utf8,
    Integer,
    Float,
    Long,
    Double,
    Class,
    Str,
    FieldRef,
    MethodRef,
    InterfaceMethodRef,
    NameAndType,
    MethodHandle,
    MethodType,
    InvokeDynamic,
}

/// The payload of a constant pool entry, shaped by its tag.
///
/// Pool indices held here are raw: the decoder stores them without checking
/// that they lie in bounds or refer to an entry of the expected kind.
#[derive(Debug, PartialEq, Eq)]
pub enum ConstantPoolStructure {
    /// `name_index`
    Class(u16),
    /// `class_index`, `name_and_type_index`
    FieldRef(u16, u16),
    /// `class_index`, `name_and_type_index`
    MethodRef(u16, u16),
    /// `class_index`, `name_and_type_index`
    InterfaceMethodRef(u16, u16),
    /// `string_index`
    Str(u16),
    /// raw big-endian bytes of the value
    Integer(u32),
    /// raw big-endian bytes of the value
    Float(u32),
    /// `high_bytes`, `low_bytes`
    Long(u32, u32),
    /// `high_bytes`, `low_bytes`
    Double(u32, u32),
    /// `name_index`, `descriptor_index`
    NameAndType(u16, u16),
    /// the decoded text
    Utf8(String),
    /// `reference_kind`, `reference_index`
    MethodHandle(u8, u16),
    /// `descriptor_index`
    MethodType(u16),
    /// `bootstrap_method_attr_index`, `name_and_type_index`
    InvokeDynamic(u16, u16),
}

/// One constant pool entry: its tag and the payload that tag selects.
///
/// Every entry, a `Long` or `Double` too, occupies exactly one position of
/// the decoded sequence: the convention by which those two kinds take up two
/// index slots is left to consumers that resolve indices.
#[derive(Debug, PartialEq, Eq)]
pub struct ConstantPoolInfo {
    pub tag: ConstantPoolTag,
    pub info: ConstantPoolStructure,
}

/// A field (or method) descriptor: flags, two pool references, attributes.
#[derive(Debug, PartialEq, Eq)]
pub struct FieldInfo {
    pub access_flags: u16,
    pub name_index: u16,
    pub descriptor_index: u16,
    pub attributes: Vec<AttributeInfo>,
}

/// A named attribute: its pool reference, declared byte length, and payload.
#[derive(Debug, PartialEq, Eq)]
pub struct AttributeInfo {
    pub attribute_name_index: u16,
    pub attribute_length: u32,
    pub info: AttributeInfoStructure,
}

/// An attribute's payload, selected by the name string the pool resolves.
///
/// A name the decoder does not recognize is kept losslessly as `Other`, an
/// opaque blob of exactly the declared length.
#[derive(Debug, PartialEq, Eq)]
pub enum AttributeInfoStructure {
    /// `constantvalue_index`
    ConstantValue(u16),
    Code(CodeAttributeInfo),
    StackMapTable(Vec<StackMapFrame>),
    /// `exception_index_table`
    Exceptions(Vec<u16>),
    InnerClasses(Vec<InnerClassAttributeInfo>),
    /// `class_index`, `method_index`
    EnclosingMethod(u16, u16),
    Synthetic,
    /// `signature_index`
    Signature(u16),
    /// `sourcefile_index`
    SourceFile(u16),
    SourceDebugExtension(Vec<u8>),
    LineNumberTable(Vec<LineNumberTableInfo>),
    LocalVariableTable(Vec<LocalVariableTableInfo>),
    LocalVariableTypeTable(Vec<LocalVariableTypeTableInfo>),
    Deprecated,
    RuntimeVisibleAnnotations(Vec<AnnotationInfo>),
    RuntimeInvisibleAnnotations(Vec<AnnotationInfo>),
    RuntimeVisibleParameterAnnotations(Vec<ParameterAnnotationInfo>),
    RuntimeInvisibleParameterAnnotations(Vec<ParameterAnnotationInfo>),
    AnnotationDefault(AnnotationElementValue),
    BootstrapMethods(Vec<BootstrapMethodInfo>),
    /// an unrecognized attribute, kept as its raw bytes
    Other(Vec<u8>),
}

/// The body of a `Code` attribute. Its instruction bytes stay opaque; its
/// attribute list is the one place attribute decoding recurses into itself.
#[derive(Debug, PartialEq, Eq)]
pub struct CodeAttributeInfo {
    pub max_stack: u16,
    pub max_locals: u16,
    pub code: Vec<u8>,
    pub exception_table: Vec<ExceptionTableInfo>,
    pub attributes: Vec<AttributeInfo>,
}

/// One exception handler range in a `Code` attribute.
#[derive(Clone, Copy, Debug, PartialEq, Eq, Structural)]
pub struct ExceptionTableInfo {
    pub start_pc: u16,
    pub end_pc: u16,
    pub handler_pc: u16,
    pub catch_type: u16,
}

/// One stack map frame: the raw kind byte and the payload its range selects.
#[derive(Debug, PartialEq, Eq)]
pub struct StackMapFrame {
    pub frame_type: u8,
    pub info: StackMapFrameType,
}

/// The payload of a stack map frame, one of seven variants chosen by the
/// numeric range of the kind byte.
#[derive(Debug, PartialEq, Eq)]
pub enum StackMapFrameType {
    Same,
    /// one stack item; the offset delta is implicit in the kind byte
    SameLocalsStackItem(VerificationTypeInfo),
    /// `offset_delta`, one stack item
    SameLocalsStackItemExtended(u16, VerificationTypeInfo),
    /// `offset_delta`
    Chop(u16),
    /// `offset_delta`
    SameExtended(u16),
    /// `offset_delta`, the appended locals
    Append(u16, Vec<VerificationTypeInfo>),
    /// `offset_delta`, locals, stack
    Full(u16, Vec<VerificationTypeInfo>, Vec<VerificationTypeInfo>),
}

/// One verification type: the raw tag byte and its nine-way payload.
#[derive(Clone, Copy, Debug, PartialEq, Eq, Structural)]
pub struct VerificationTypeInfo {
    pub tag: u8,
    pub info: VariableInfo,
}

/// The payload of a verification type. `Object` carries a pool index,
/// `Uninitialized` a bytecode offset.
#[derive(Clone, Copy, Debug, PartialEq, Eq, Structural)]
pub enum VariableInfo {
    Top,
    Integer,
    Float,
    Long,
    Double,
    Null,
    UninitializedThis,
    Object(u16),
    Uninitialized(u16),
}

/// One record of an `InnerClasses` attribute.
#[derive(Clone, Copy, Debug, PartialEq, Eq, Structural)]
pub struct InnerClassAttributeInfo {
    pub inner_class_info_index: u16,
    pub outer_class_info_index: u16,
    pub inner_name_index: u16,
    pub inner_class_access_flags: u16,
}

/// One record of a `LineNumberTable` attribute.
#[derive(Clone, Copy, Debug, PartialEq, Eq, Structural)]
pub struct LineNumberTableInfo {
    pub start_pc: u16,
    pub line_number: u16,
}

/// One record of a `LocalVariableTable` attribute.
#[derive(Clone, Copy, Debug, PartialEq, Eq, Structural)]
pub struct LocalVariableTableInfo {
    pub start_pc: u16,
    pub length: u16,
    pub name_index: u16,
    pub descriptor_index: u16,
    pub index: u16,
}

/// One record of a `LocalVariableTypeTable` attribute.
#[derive(Clone, Copy, Debug, PartialEq, Eq, Structural)]
pub struct LocalVariableTypeTableInfo {
    pub start_pc: u16,
    pub length: u16,
    pub name_index: u16,
    pub signature_index: u16,
    pub index: u16,
}

/// One annotation: a type reference and its named element values.
#[derive(Debug, PartialEq, Eq)]
pub struct AnnotationInfo {
    pub type_index: u16,
    pub element_value_pairs: Vec<AnnotationElementValuePair>,
}

/// One `name -> value` pair inside an annotation.
#[derive(Debug, PartialEq, Eq)]
pub struct AnnotationElementValuePair {
    pub element_name_index: u16,
    pub value: AnnotationElementValue,
}

/// One element value: the raw tag byte and the payload it selects.
#[derive(Debug, PartialEq, Eq)]
pub struct AnnotationElementValue {
    pub tag: u8,
    pub value: AnnotationElementValueType,
}

/// The payload of an element value. `Annotation` and `Array` recurse, so the
/// tree is as deep as the input bytes say, up to the decoder's ceiling.
#[derive(Debug, PartialEq, Eq)]
pub enum AnnotationElementValueType {
    /// `const_value_index`
    Const(u16),
    /// `type_name_index`, `const_name_index`
    EnumConst(u16, u16),
    /// `class_info_index`
    ClassInfo(u16),
    Annotation(AnnotationInfo),
    Array(Vec<AnnotationElementValue>),
}

/// The annotations of one parameter, inside a parameter-annotations attribute.
#[derive(Debug, PartialEq, Eq)]
pub struct ParameterAnnotationInfo {
    pub annotations: Vec<AnnotationInfo>,
}

/// One record of a `BootstrapMethods` attribute.
#[derive(Debug, PartialEq, Eq)]
pub struct BootstrapMethodInfo {
    pub bootstrap_method_ref: u16,
    pub bootstrap_arguments: Vec<u16>,
}

/// The root record. Decoding reads through the field list and stops there:
/// no method list and no class-level attribute list is read from the stream,
/// so trailing bytes after the fields are left untouched.
#[derive(Debug, PartialEq, Eq)]
pub struct ClassFile {
    pub magic: u32,
    pub minor_version: u16,
    pub major_version: u16,
    pub constant_pool: Vec<ConstantPoolInfo>,
    pub access_flags: u16,
    pub this_class: u16,
    pub super_class: u16,
    pub interfaces: Vec<u16>,
    pub fields: Vec<FieldInfo>,
}

// ---------------------------------------------------------------------------
// Ghost counterparts.
// ---------------------------------------------------------------------------

/// Ghost counterpart of [`ConstantPoolStructure`]: `Utf8` holds the text as
/// a sequence of characters.
#[verifier::ext_equal]
pub enum SpecConstantPoolStructure {
    Class(u16),
    FieldRef(u16, u16),
    MethodRef(u16, u16),
    InterfaceMethodRef(u16, u16),
    Str(u16),
    Integer(u32),
    Float(u32),
    Long(u32, u32),
    Double(u32, u32),
    NameAndType(u16, u16),
    Utf8(Seq<char>),
    MethodHandle(u8, u16),
    MethodType(u16),
    InvokeDynamic(u16, u16),
}

/// Ghost counterpart of [`ConstantPoolInfo`].
#[verifier::ext_equal]
pub struct SpecConstantPoolInfo {
    pub tag: ConstantPoolTag,
    pub info: SpecConstantPoolStructure,
}

/// Ghost counterpart of [`FieldInfo`].
#[verifier::ext_equal]
pub struct SpecFieldInfo {
    pub access_flags: u16,
    pub name_index: u16,
    pub descriptor_index: u16,
    pub attributes: Seq<SpecAttributeInfo>,
}

/// Ghost counterpart of [`AttributeInfo`].
#[verifier::ext_equal]
pub struct SpecAttributeInfo {
    pub attribute_name_index: u16,
    pub attribute_length: u32,
    pub info: SpecAttributeInfoStructure,
}

/// Ghost counterpart of [`AttributeInfoStructure`].
#[verifier::ext_equal]
pub enum SpecAttributeInfoStructure {
    ConstantValue(u16),
    Code(SpecCodeAttributeInfo),
    StackMapTable(Seq<SpecStackMapFrame>),
    Exceptions(Seq<u16>),
    InnerClasses(Seq<InnerClassAttributeInfo>),
    EnclosingMethod(u16, u16),
    Synthetic,
    Signature(u16),
    SourceFile(u16),
    SourceDebugExtension(Seq<u8>),
    LineNumberTable(Seq<LineNumberTableInfo>),
    LocalVariableTable(Seq<LocalVariableTableInfo>),
    LocalVariableTypeTable(Seq<LocalVariableTypeTableInfo>),
    Deprecated,
    RuntimeVisibleAnnotations(Seq<SpecAnnotationInfo>),
    RuntimeInvisibleAnnotations(Seq<SpecAnnotationInfo>),
    RuntimeVisibleParameterAnnotations(Seq<SpecParameterAnnotationInfo>),
    RuntimeInvisibleParameterAnnotations(Seq<SpecParameterAnnotationInfo>),
    AnnotationDefault(SpecAnnotationElementValue),
    BootstrapMethods(Seq<SpecBootstrapMethodInfo>),
    Other(Seq<u8>),
}

/// Ghost counterpart of [`CodeAttributeInfo`].
#[verifier::ext_equal]
pub struct SpecCodeAttributeInfo {
    pub max_stack: u16,
    pub max_locals: u16,
    pub code: Seq<u8>,
    pub exception_table: Seq<ExceptionTableInfo>,
    pub attributes: Seq<SpecAttributeInfo>,
}

/// Ghost counterpart of [`StackMapFrame`].
#[verifier::ext_equal]
pub struct SpecStackMapFrame {
    pub frame_type: u8,
    pub info: SpecStackMapFrameType,
}

/// Ghost counterpart of [`StackMapFrameType`].
#[verifier::ext_equal]
pub enum SpecStackMapFrameType {
    Same,
    SameLocalsStackItem(VerificationTypeInfo),
    SameLocalsStackItemExtended(u16, VerificationTypeInfo),
    Chop(u16),
    SameExtended(u16),
    Append(u16, Seq<VerificationTypeInfo>),
    Full(u16, Seq<VerificationTypeInfo>, Seq<VerificationTypeInfo>),
}

/// Ghost counterpart of [`AnnotationInfo`].
#[verifier::ext_equal]
pub struct SpecAnnotationInfo {
    pub type_index: u16,
    pub element_value_pairs: Seq<SpecAnnotationElementValuePair>,
}

/// Ghost counterpart of [`AnnotationElementValuePair`].
#[verifier::ext_equal]
pub struct SpecAnnotationElementValuePair {
    pub element_name_index: u16,
    pub value: SpecAnnotationElementValue,
}

/// Ghost counterpart of [`AnnotationElementValue`].
#[verifier::ext_equal]
pub struct SpecAnnotationElementValue {
    pub tag: u8,
    pub value: SpecAnnotationElementValueType,
}

/// Ghost counterpart of [`AnnotationElementValueType`].
#[verifier::ext_equal]
pub enum SpecAnnotationElementValueType {
    Const(u16),
    EnumConst(u16, u16),
    ClassInfo(u16),
    Annotation(SpecAnnotationInfo),
    Array(Seq<SpecAnnotationElementValue>),
}

/// Ghost counterpart of [`ParameterAnnotationInfo`].
#[verifier::ext_equal]
pub struct SpecParameterAnnotationInfo {
    pub annotations: Seq<SpecAnnotationInfo>,
}

/// Ghost counterpart of [`BootstrapMethodInfo`].
#[verifier::ext_equal]
pub struct SpecBootstrapMethodInfo {
    pub bootstrap_method_ref: u16,
    pub bootstrap_arguments: Seq<u16>,
}

/// Ghost counterpart of [`ClassFile`].
#[verifier::ext_equal]
pub struct SpecClassFile {
    pub magic: u32,
    pub minor_version: u16,
    pub major_version: u16,
    pub constant_pool: Seq<SpecConstantPoolInfo>,
    pub access_flags: u16,
    pub this_class: u16,
    pub super_class: u16,
    pub interfaces: Seq<u16>,
    pub fields: Seq<SpecFieldInfo>,
}

// ---------------------------------------------------------------------------
// Views: each executable value's ghost counterpart.
// ---------------------------------------------------------------------------

/// The ghost counterpart of a pool entry's payload.
pub open spec fn view_cp_structure(c: ConstantPoolStructure) -> SpecConstantPoolStructure {
    match c {
        ConstantPoolStructure::Class(a) => SpecConstantPoolStructure::Class(a),
        ConstantPoolStructure::FieldRef(a, b) => SpecConstantPoolStructure::FieldRef(a, b),
        ConstantPoolStructure::MethodRef(a, b) => SpecConstantPoolStructure::MethodRef(a, b),
        ConstantPoolStructure::InterfaceMethodRef(a, b) => SpecConstantPoolStructure::InterfaceMethodRef(
            a,
            b,
        ),
        ConstantPoolStructure::Str(a) => SpecConstantPoolStructure::Str(a),
        ConstantPoolStructure::Integer(a) => SpecConstantPoolStructure::Integer(a),
        ConstantPoolStructure::Float(a) => SpecConstantPoolStructure::Float(a),
        ConstantPoolStructure::Long(a, b) => SpecConstantPoolStructure::Long(a, b),
        ConstantPoolStructure::Double(a, b) => SpecConstantPoolStructure::Double(a, b),
        ConstantPoolStructure::NameAndType(a, b) => SpecConstantPoolStructure::NameAndType(a, b),
        ConstantPoolStructure::Utf8(s) => SpecConstantPoolStructure::Utf8(s@),
        ConstantPoolStructure::MethodHandle(a, b) => SpecConstantPoolStructure::MethodHandle(a, b),
        ConstantPoolStructure::MethodType(a) => SpecConstantPoolStructure::MethodType(a),
        ConstantPoolStructure::InvokeDynamic(a, b) => SpecConstantPoolStructure::InvokeDynamic(
            a,
            b,
        ),
    }
}

/// The ghost counterpart of one pool entry.
pub open spec fn view_cp_info(c: ConstantPoolInfo) -> SpecConstantPoolInfo {
    SpecConstantPoolInfo { tag: c.tag, info: view_cp_structure(c.info) }
}

/// The ghost counterpart of a run of pool entries.
pub open spec fn view_constant_pool(s: Seq<ConstantPoolInfo>) -> Seq<SpecConstantPoolInfo>
    decreases s.len(),
{
    if s.len() == 0 {
        Seq::empty()
    } else {
        view_constant_pool(s.drop_last()).push(view_cp_info(s.last()))
    }
}

/// The ghost pool is the exec pool seen entry by entry: same length, and the
/// entry at each index is the view of the exec entry there.
pub proof fn lemma_view_constant_pool_index(s: Seq<ConstantPoolInfo>)
    ensures
        view_constant_pool(s).len() == s.len(),
        forall|i: int| 0 <= i < s.len() ==> view_constant_pool(s)[i] == view_cp_info(s[i]),
    decreases s.len(),
{
    if s.len() > 0 {
        lemma_view_constant_pool_index(s.drop_last());
    }
}

/// The ghost counterpart of one stack map frame's payload.
pub open spec fn view_frame_type(f: StackMapFrameType) -> SpecStackMapFrameType {
    match f {
        StackMapFrameType::Same => SpecStackMapFrameType::Same,
        StackMapFrameType::SameLocalsStackItem(v) => SpecStackMapFrameType::SameLocalsStackItem(v),
        StackMapFrameType::SameLocalsStackItemExtended(d, v) => SpecStackMapFrameType::SameLocalsStackItemExtended(
            d,
            v,
        ),
        StackMapFrameType::Chop(d) => SpecStackMapFrameType::Chop(d),
        StackMapFrameType::SameExtended(d) => SpecStackMapFrameType::SameExtended(d),
        StackMapFrameType::Append(d, v) => SpecStackMapFrameType::Append(d, v@),
        StackMapFrameType::Full(d, l, st) => SpecStackMapFrameType::Full(d, l@, st@),
    }
}

/// The ghost counterpart of one stack map frame.
pub open spec fn view_frame(f: StackMapFrame) -> SpecStackMapFrame {
    SpecStackMapFrame { frame_type: f.frame_type, info: view_frame_type(f.info) }
}

/// The ghost counterpart of a stack map table.
pub open spec fn view_frames(s: Seq<StackMapFrame>) -> Seq<SpecStackMapFrame>
    decreases s.len(),
{
    if s.len() == 0 {
        Seq::empty()
    } else {
        view_frames(s.drop_last()).push(view_frame(s.last()))
    }
}

/// The ghost counterpart of one bootstrap method record.
pub open spec fn view_bootstrap_method(b: BootstrapMethodInfo) -> SpecBootstrapMethodInfo {
    SpecBootstrapMethodInfo {
        bootstrap_method_ref: b.bootstrap_method_ref,
        bootstrap_arguments: b.bootstrap_arguments@,
    }
}

/// The ghost counterpart of a bootstrap method list.
pub open spec fn view_bootstrap_methods(s: Seq<BootstrapMethodInfo>) -> Seq<
    SpecBootstrapMethodInfo,
>
    decreases s.len(),
{
    if s.len() == 0 {
        Seq::empty()
    } else {
        view_bootstrap_methods(s.drop_last()).push(view_bootstrap_method(s.last()))
    }
}

/// The ghost counterpart of one attribute.
pub open spec fn view_attribute(a: AttributeInfo) -> SpecAttributeInfo
    decreases a,
{
    SpecAttributeInfo {
        attribute_name_index: a.attribute_name_index,
        attribute_length: a.attribute_length,
        info: view_attribute_structure(a.info),
    }
}

/// The ghost counterpart of an attribute's payload.
pub open spec fn view_attribute_structure(a: AttributeInfoStructure) -> SpecAttributeInfoStructure
    decreases a,
{
    match a {
        AttributeInfoStructure::ConstantValue(i) => SpecAttributeInfoStructure::ConstantValue(i),
        AttributeInfoStructure::Code(c) => SpecAttributeInfoStructure::Code(view_code(c)),
        AttributeInfoStructure::StackMapTable(v) => SpecAttributeInfoStructure::StackMapTable(
            view_frames(v@),
        ),
        AttributeInfoStructure::Exceptions(v) => SpecAttributeInfoStructure::Exceptions(v@),
        AttributeInfoStructure::InnerClasses(v) => SpecAttributeInfoStructure::InnerClasses(v@),
        AttributeInfoStructure::EnclosingMethod(c, m) => SpecAttributeInfoStructure::EnclosingMethod(
            c,
            m,
        ),
        AttributeInfoStructure::Synthetic => SpecAttributeInfoStructure::Synthetic,
        AttributeInfoStructure::Signature(i) => SpecAttributeInfoStructure::Signature(i),
        AttributeInfoStructure::SourceFile(i) => SpecAttributeInfoStructure::SourceFile(i),
        AttributeInfoStructure::SourceDebugExtension(v) => SpecAttributeInfoStructure::SourceDebugExtension(
            v@,
        ),
        AttributeInfoStructure::LineNumberTable(v) => SpecAttributeInfoStructure::LineNumberTable(
            v@,
        ),
        AttributeInfoStructure::LocalVariableTable(v) => SpecAttributeInfoStructure::LocalVariableTable(
            v@,
        ),
        AttributeInfoStructure::LocalVariableTypeTable(v) => SpecAttributeInfoStructure::LocalVariableTypeTable(
            v@,
        ),
        AttributeInfoStructure::Deprecated => SpecAttributeInfoStructure::Deprecated,
        AttributeInfoStructure::RuntimeVisibleAnnotations(v) => SpecAttributeInfoStructure::RuntimeVisibleAnnotations(
            view_annotations(v@),
        ),
        AttributeInfoStructure::RuntimeInvisibleAnnotations(v) => SpecAttributeInfoStructure::RuntimeInvisibleAnnotations(
            view_annotations(v@),
        ),
        AttributeInfoStructure::RuntimeVisibleParameterAnnotations(v) => SpecAttributeInfoStructure::RuntimeVisibleParameterAnnotations(
            view_parameter_annotations(v@),
        ),
        AttributeInfoStructure::RuntimeInvisibleParameterAnnotations(v) => SpecAttributeInfoStructure::RuntimeInvisibleParameterAnnotations(
            view_parameter_annotations(v@),
        ),
        AttributeInfoStructure::AnnotationDefault(e) => SpecAttributeInfoStructure::AnnotationDefault(
            view_element_value(e),
        ),
        AttributeInfoStructure::BootstrapMethods(v) => SpecAttributeInfoStructure::BootstrapMethods(
            view_bootstrap_methods(v@),
        ),
        AttributeInfoStructure::Other(v) => SpecAttributeInfoStructure::Other(v@),
    }
}

/// The ghost counterpart of an attribute list.
pub open spec fn view_attributes(s: Seq<AttributeInfo>) -> Seq<SpecAttributeInfo>
    decreases s,
{
    if s.len() == 0 {
        Seq::empty()
    } else {
        view_attributes(s.drop_last()).push(view_attribute(s.last()))
    }
}

/// The ghost counterpart of a `Code` attribute body.
pub open spec fn view_code(c: CodeAttributeInfo) -> SpecCodeAttributeInfo
    decreases c,
{
    SpecCodeAttributeInfo {
        max_stack: c.max_stack,
        max_locals: c.max_locals,
        code: c.code@,
        exception_table: c.exception_table@,
        attributes: view_attributes(c.attributes@),
    }
}

/// The ghost counterpart of one annotation.
pub open spec fn view_annotation(a: AnnotationInfo) -> SpecAnnotationInfo
    decreases a,
{
    SpecAnnotationInfo {
        type_index: a.type_index,
        element_value_pairs: view_element_value_pairs(a.element_value_pairs@),
    }
}

/// The ghost counterpart of an annotation list.
pub open spec fn view_annotations(s: Seq<AnnotationInfo>) -> Seq<SpecAnnotationInfo>
    decreases s,
{
    if s.len() == 0 {
        Seq::empty()
    } else {
        view_annotations(s.drop_last()).push(view_annotation(s.last()))
    }
}

/// The ghost counterpart of one element-value pair.
pub open spec fn view_element_value_pair(p: AnnotationElementValuePair) -> SpecAnnotationElementValuePair
    decreases p,
{
    SpecAnnotationElementValuePair {
        element_name_index: p.element_name_index,
        value: view_element_value(p.value),
    }
}

/// The ghost counterpart of an element-value pair list.
pub open spec fn view_element_value_pairs(s: Seq<AnnotationElementValuePair>) -> Seq<
    SpecAnnotationElementValuePair,
>
    decreases s,
{
    if s.len() == 0 {
        Seq::empty()
    } else {
        view_element_value_pairs(s.drop_last()).push(view_element_value_pair(s.last()))
    }
}

/// The ghost counterpart of one element value.
pub open spec fn view_element_value(v: AnnotationElementValue) -> SpecAnnotationElementValue
    decreases v,
{
    SpecAnnotationElementValue { tag: v.tag, value: view_element_value_structure(v.value) }
}

/// The ghost counterpart of an element value's payload.
pub open spec fn view_element_value_structure(v: AnnotationElementValueType) -> SpecAnnotationElementValueType
    decreases v,
{
    match v {
        AnnotationElementValueType::Const(i) => SpecAnnotationElementValueType::Const(i),
        AnnotationElementValueType::EnumConst(t, c) => SpecAnnotationElementValueType::EnumConst(
            t,
            c,
        ),
        AnnotationElementValueType::ClassInfo(i) => SpecAnnotationElementValueType::ClassInfo(i),
        AnnotationElementValueType::Annotation(a) => SpecAnnotationElementValueType::Annotation(
            view_annotation(a),
        ),
        AnnotationElementValueType::Array(vs) => SpecAnnotationElementValueType::Array(
            view_element_values(vs@),
        ),
    }
}

/// The ghost counterpart of an element value list.
pub open spec fn view_element_values(s: Seq<AnnotationElementValue>) -> Seq<
    SpecAnnotationElementValue,
>
    decreases s,
{
    if s.len() == 0 {
        Seq::empty()
    } else {
        view_element_values(s.drop_last()).push(view_element_value(s.last()))
    }
}

/// The ghost counterpart of one parameter's annotations.
pub open spec fn view_parameter_annotation(p: ParameterAnnotationInfo) -> SpecParameterAnnotationInfo
    decreases p,
{
    SpecParameterAnnotationInfo { annotations: view_annotations(p.annotations@) }
}

/// The ghost counterpart of a parameter-annotation list.
pub open spec fn view_parameter_annotations(s: Seq<ParameterAnnotationInfo>) -> Seq<
    SpecParameterAnnotationInfo,
>
    decreases s,
{
    if s.len() == 0 {
        Seq::empty()
    } else {
        view_parameter_annotations(s.drop_last()).push(view_parameter_annotation(s.last()))
    }
}

/// The ghost counterpart of one field descriptor.
pub open spec fn view_field(f: FieldInfo) -> SpecFieldInfo {
    SpecFieldInfo {
        access_flags: f.access_flags,
        name_index: f.name_index,
        descriptor_index: f.descriptor_index,
        attributes: view_attributes(f.attributes@),
    }
}

/// The ghost counterpart of a field list.
pub open spec fn view_fields(s: Seq<FieldInfo>) -> Seq<SpecFieldInfo>
    decreases s.len(),
{
    if s.len() == 0 {
        Seq::empty()
    } else {
        view_fields(s.drop_last()).push(view_field(s.last()))
    }
}

/// The ghost counterpart of the root record.
pub open spec fn view_class_file(c: ClassFile) -> SpecClassFile {
    SpecClassFile {
        magic: c.magic,
        minor_version: c.minor_version,
        major_version: c.major_version,
        constant_pool: view_constant_pool(c.constant_pool@),
        access_flags: c.access_flags,
        this_class: c.this_class,
        super_class: c.super_class,
        interfaces: c.interfaces@,
        fields: view_fields(c.fields@),
    }
}

} // verus!
