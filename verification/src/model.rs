//! Build-time data model of a contract source unit.
//!
//! The pipeline never works on target-language syntax trees directly; the
//! front end lowers every declaration into the shapes below, and the
//! validator and emitter are specified over them.

use vstd::prelude::*;

verus! {

/// Structural rendering of a declared type expression, resolved far enough
/// for the calling-convention checks: references with their mutability,
/// plain paths with their type arguments, and tuples.  Anything the
/// convention can never accept is collapsed into `Other`.
pub enum TypeShape {
    /// `&T` or `&mut T`.
    Reference { mutable: bool, elem: Box<TypeShape> },
    /// A path such as `Parameters` or `smart_contract::payload::Payload`,
    /// with the type arguments of its final segment.
    Path { segments: Vec<String>, args: Vec<TypeShape> },
    /// A tuple type `(T0, T1, ...)`.
    Tuple { elems: Vec<TypeShape> },
    /// Any other form of type expression.
    Other,
}

/// One declared parameter of a contract method.
pub enum ParamShape {
    /// A `self` parameter: `self`, `&self`, `mut self` or `&mut self`.
    Receiver { by_ref: bool, mutable: bool },
    /// An ordinary parameter of the given type.
    Plain { ty: TypeShape },
}

/// One method found in the contract's implementation block: its name and
/// its declared signature, shape-matched but not otherwise interpreted.
pub struct MethodDescriptor {
    pub name: String,
    pub params: Vec<ParamShape>,
    /// `None` when the method declares no return type.
    pub ret: Option<TypeShape>,
}

/// One type-implementation block of the source unit: the rendered name of
/// the implemented type and the methods declared inside the block, in
/// declaration order.
///
/// The name is the implemented type's text as written.  A contract is
/// expected to implement a bare identifier; a block whose self type is
/// anything else (a qualified path, a generic application) is carried
/// verbatim, and the glue emitted for it fails only when the generated
/// module is compiled.
pub struct ImplBlock {
    pub self_name: String,
    pub methods: Vec<MethodDescriptor>,
}

/// One top-level item of the source unit.  Items that are not
/// type-implementation blocks never matter to the pipeline.
pub enum UnitItem {
    Impl(ImplBlock),
    Other,
}

/// A whole lowered source unit, items in source order.
pub struct SourceUnit {
    pub items: Vec<UnitItem>,
}

/// The validated entity the emitter consumes: the contract type's name and
/// its methods in declaration order, which is also the order in which
/// trampolines are emitted.
pub struct ContractDefinition {
    pub type_identifier: String,
    pub methods: Vec<MethodDescriptor>,
}

} // verus!
