//! The textual front end: parse one source unit with `syn`, lower the
//! parsed tree into the library's model, and run the generation pass on
//! it.
//!
//! Everything `syn` returns is opaque to verification, so each reading
//! step goes through a small trusted accessor whose contract-free result
//! feeds the verified lowering loops; the pipeline downstream is verified
//! for every value the lowering can produce.

use vstd::prelude::*;

use quote::ToTokens;

use crate::model::{ImplBlock, MethodDescriptor, ParamShape, SourceUnit, TypeShape, UnitItem};
use crate::pipeline::{pipeline_diagnosis, pipeline_names, pipeline_text, run_pipeline};
use crate::validate::ContractError;

verus! {

#[verifier::external_type_specification]
#[verifier::external_body]
pub struct ExSynFile(syn::File);

#[verifier::external_type_specification]
#[verifier::external_body]
pub struct ExSynError(syn::Error);

#[verifier::external_type_specification]
#[verifier::external_body]
pub struct ExSynItem(syn::Item);

#[verifier::external_type_specification]
#[verifier::external_body]
pub struct ExSynItemImpl(syn::ItemImpl);

#[verifier::external_type_specification]
#[verifier::external_body]
pub struct ExSynImplItem(syn::ImplItem);

#[verifier::external_type_specification]
#[verifier::external_body]
pub struct ExSynImplItemFn(syn::ImplItemFn);

#[verifier::external_type_specification]
#[verifier::external_body]
pub struct ExSynFnArg(syn::FnArg);

#[verifier::external_type_specification]
#[verifier::external_body]
pub struct ExSynType(syn::Type);

#[verifier::external_type_specification]
#[verifier::external_body]
pub struct ExSynPath(syn::Path);

#[verifier::external_type_specification]
#[verifier::external_body]
pub struct ExSynPathSegment(syn::PathSegment);

#[verifier::external_type_specification]
#[verifier::external_body]
pub struct ExSynGenericArgument(syn::GenericArgument);

/// One declared parameter, told apart at the tree boundary.
pub enum ArgNode<'a> {
    SelfParam { by_ref: bool, mutable: bool },
    Plain { ty: &'a syn::Type },
}

/// One declared type expression, told apart at the tree boundary.
pub enum TypeNode<'a> {
    Reference { mutable: bool, elem: &'a syn::Type },
    PathNode { path: &'a syn::Path },
    TupleNode { elems: Vec<&'a syn::Type> },
    OtherNode,
}

/// The arguments of one path segment, told apart at the tree boundary.
pub enum ArgsNode<'a> {
    NoArgs,
    Angle { args: Vec<&'a syn::GenericArgument> },
    Parenthesized,
}

/// Whether a piece of text parses as a complete source unit.  Parsing is
/// deterministic, a function of the text alone, so its success can be
/// named even though the parsed tree itself stays opaque.
pub uninterp spec fn parse_ok(source: Seq<char>) -> bool;

/// Relies on syn::parse_file: parses the text of one source unit, and
/// fails exactly on text that is no such unit.
#[verifier::external_body]
fn parse_file_text(source: &str) -> (r: Result<syn::File, syn::Error>)
    ensures
        r is Ok <==> parse_ok(source@),
{
    syn::parse_file(source)
}

/// Relies on syn::Error's Display implementation for the diagnostic text.
#[verifier::external_body]
fn parse_error_text(e: &syn::Error) -> (r: String) {
    e.to_string()
}

/// Relies on syn::File: field `items` holds the unit's top-level items in
/// source order.
#[verifier::external_body]
fn file_items(f: &syn::File) -> (r: &Vec<syn::Item>) {
    &f.items
}

/// Relies on syn::Item: tells the `Impl` variant apart from every other
/// kind of item.
#[verifier::external_body]
fn item_as_impl(item: &syn::Item) -> (r: Option<&syn::ItemImpl>) {
    match item {
        syn::Item::Impl(ii) => Some(ii),
        _ => None,
    }
}

/// Relies on syn::ItemImpl: field `self_ty` is the implemented type, and
/// on quote's ToTokens to render it as written.
#[verifier::external_body]
fn impl_self_type_text(ii: &syn::ItemImpl) -> (r: String) {
    ii.self_ty.to_token_stream().to_string()
}

/// Relies on syn::ItemImpl: field `items` holds the block's members in
/// declaration order.
#[verifier::external_body]
fn impl_members(ii: &syn::ItemImpl) -> (r: &Vec<syn::ImplItem>) {
    &ii.items
}

/// Relies on syn::ImplItem: tells the `Fn` variant (a method) apart from
/// every other kind of member.
#[verifier::external_body]
fn member_as_fn(member: &syn::ImplItem) -> (r: Option<&syn::ImplItemFn>) {
    match member {
        syn::ImplItem::Fn(f) => Some(f),
        _ => None,
    }
}

/// Relies on syn::Signature: field `ident` is the method's name.
#[verifier::external_body]
fn method_name(f: &syn::ImplItemFn) -> (r: String) {
    f.sig.ident.to_string()
}

/// Relies on syn::Signature: field `inputs` lists the declared parameters
/// in order.
#[verifier::external_body]
fn method_inputs(f: &syn::ImplItemFn) -> (r: Vec<&syn::FnArg>) {
    f.sig.inputs.iter().collect()
}

/// Relies on syn::ReturnType: `Default` when no return type is written,
/// `Type` with the written type otherwise.
#[verifier::external_body]
fn method_output(f: &syn::ImplItemFn) -> (r: Option<&syn::Type>) {
    match &f.sig.output {
        syn::ReturnType::Default => None,
        syn::ReturnType::Type(_, t) => Some(t),
    }
}

/// Relies on syn::FnArg and syn::Receiver: a `self` parameter records
/// whether it is taken by reference and mutably; any other parameter
/// carries its declared type.
#[verifier::external_body]
fn arg_node<'a>(arg: &'a syn::FnArg) -> (r: ArgNode<'a>) {
    match arg {
        syn::FnArg::Receiver(rec) => ArgNode::SelfParam {
            by_ref: rec.reference.is_some(),
            mutable: rec.mutability.is_some(),
        },
        syn::FnArg::Typed(pt) => ArgNode::Plain { ty: &pt.ty },
    }
}

/// Relies on syn::Type: references with their mutability, plain paths and
/// tuples are told apart; every other variant, and paths with a qualified
/// self type, are opaque to the pipeline.
#[verifier::external_body]
fn type_node<'a>(t: &'a syn::Type) -> (r: TypeNode<'a>) {
    match t {
        syn::Type::Reference(tr) => TypeNode::Reference {
            mutable: tr.mutability.is_some(),
            elem: &tr.elem,
        },
        syn::Type::Path(tp) if tp.qself.is_none() => TypeNode::PathNode { path: &tp.path },
        syn::Type::Tuple(tt) => TypeNode::TupleNode { elems: tt.elems.iter().collect() },
        _ => TypeNode::OtherNode,
    }
}

/// Relies on syn::Path: field `leading_colon` records a leading `::`
/// separator.
#[verifier::external_body]
fn path_has_leading_colon(p: &syn::Path) -> (r: bool) {
    p.leading_colon.is_some()
}

/// Relies on syn::Path: field `segments` lists the path's segments in
/// order.
#[verifier::external_body]
fn path_segment_list(p: &syn::Path) -> (r: Vec<&syn::PathSegment>) {
    p.segments.iter().collect()
}

/// Relies on syn::PathSegment: field `ident` is the segment's name.
#[verifier::external_body]
fn segment_name(s: &syn::PathSegment) -> (r: String) {
    s.ident.to_string()
}

/// Relies on syn::PathArguments: no arguments, angle-bracketed arguments
/// in order, or parenthesized arguments are told apart.
#[verifier::external_body]
fn segment_arguments<'a>(s: &'a syn::PathSegment) -> (r: ArgsNode<'a>) {
    match &s.arguments {
        syn::PathArguments::None => ArgsNode::NoArgs,
        syn::PathArguments::AngleBracketed(ab) => ArgsNode::Angle {
            args: ab.args.iter().collect(),
        },
        syn::PathArguments::Parenthesized(_) => ArgsNode::Parenthesized,
    }
}

/// Relies on syn::GenericArgument: tells a type argument apart from
/// lifetime, const and associated-item arguments.
#[verifier::external_body]
fn generic_arg_as_type(g: &syn::GenericArgument) -> (r: Option<&syn::Type>) {
    match g {
        syn::GenericArgument::Type(t) => Some(t),
        _ => None,
    }
}

/// Depth budget for lowering nested type expressions.  Every accepted
/// shape is far shallower, and anything nested deeper can never match the
/// calling convention, so collapsing beyond the budget loses nothing.
const TYPE_DEPTH_BUDGET: u64 = 64;

/// Lower one declared type into the structural model.
fn lower_type(t: &syn::Type, depth: u64) -> TypeShape
    decreases depth, 1int,
{
    if depth == 0 {
        return TypeShape::Other;
    }
    match type_node(t) {
        TypeNode::Reference { mutable, elem } => TypeShape::Reference {
            mutable,
            elem: Box::new(lower_type(elem, depth - 1)),
        },
        TypeNode::PathNode { path } => lower_path(path, depth),
        TypeNode::TupleNode { elems } => {
            let mut shapes: Vec<TypeShape> = Vec::new();
            let n = elems.len();
            for i in 0..n
                invariant
                    depth >= 1,
                    n == elems@.len(),
            {
                shapes.push(lower_type(elems[i], depth - 1));
            }
            TypeShape::Tuple { elems: shapes }
        },
        TypeNode::OtherNode => TypeShape::Other,
    }
}

/// Lower a plain path: its segment names in order, plus the type arguments
/// of its final segment.  A path written with a leading separator, with
/// arguments on a non-final segment, or with parenthesized arguments can
/// never match the convention and collapses into `Other`, as does any
/// argument that is not a plain type.
fn lower_path(p: &syn::Path, depth: u64) -> TypeShape
    requires
        depth >= 1,
    decreases depth, 0int,
{
    if path_has_leading_colon(p) {
        return TypeShape::Other;
    }
    let segments_list = path_segment_list(p);
    let n = segments_list.len();
    if n == 0 {
        return TypeShape::Other;
    }
    let mut names: Vec<String> = Vec::new();
    let mut args: Vec<TypeShape> = Vec::new();
    for i in 0..n
        invariant
            depth >= 1,
            n == segments_list@.len(),
    {
        names.push(segment_name(segments_list[i]));
        match segment_arguments(segments_list[i]) {
            ArgsNode::NoArgs => {},
            ArgsNode::Angle { args: arg_list } => {
                if i + 1 < n {
                    return TypeShape::Other;
                }
                let m = arg_list.len();
                for j in 0..m
                    invariant
                        depth >= 1,
                        m == arg_list@.len(),
                {
                    match generic_arg_as_type(arg_list[j]) {
                        Some(t) => args.push(lower_type(t, depth - 1)),
                        None => args.push(TypeShape::Other),
                    }
                }
            },
            ArgsNode::Parenthesized => {
                return TypeShape::Other;
            },
        }
    }
    TypeShape::Path { segments: names, args }
}

/// Lower one declared parameter.
fn lower_arg(arg: &syn::FnArg) -> ParamShape {
    match arg_node(arg) {
        ArgNode::SelfParam { by_ref, mutable } => ParamShape::Receiver { by_ref, mutable },
        ArgNode::Plain { ty } => ParamShape::Plain { ty: lower_type(ty, TYPE_DEPTH_BUDGET) },
    }
}

/// Lower one method into its descriptor: name, parameters in order, and
/// declared return type.
fn lower_method(f: &syn::ImplItemFn) -> MethodDescriptor {
    let name = method_name(f);
    let inputs = method_inputs(f);
    let mut params: Vec<ParamShape> = Vec::new();
    let n = inputs.len();
    for i in 0..n
        invariant
            n == inputs@.len(),
    {
        params.push(lower_arg(inputs[i]));
    }
    let ret = match method_output(f) {
        Some(t) => Some(lower_type(t, TYPE_DEPTH_BUDGET)),
        None => None,
    };
    MethodDescriptor { name, params, ret }
}

/// Lower one implementation block: the rendered name of the implemented
/// type and every method member in declaration order.  Members that are
/// not methods never matter to the pipeline.
fn lower_impl(ii: &syn::ItemImpl) -> ImplBlock {
    let self_name = impl_self_type_text(ii);
    let members = impl_members(ii);
    let mut methods: Vec<MethodDescriptor> = Vec::new();
    let n = members.len();
    for i in 0..n
        invariant
            n == members@.len(),
    {
        match member_as_fn(&members[i]) {
            Some(f) => methods.push(lower_method(f)),
            None => {},
        }
    }
    ImplBlock { self_name, methods }
}

/// Lower a parsed source unit into the library's model, item by item.
fn lower_unit(f: &syn::File) -> SourceUnit {
    let file_item_list = file_items(f);
    let mut items: Vec<UnitItem> = Vec::new();
    let n = file_item_list.len();
    for i in 0..n
        invariant
            n == file_item_list@.len(),
    {
        match item_as_impl(&file_item_list[i]) {
            Some(ii) => items.push(UnitItem::Impl(lower_impl(ii))),
            None => items.push(UnitItem::Other),
        }
    }
    SourceUnit { items }
}

/// The failures of the whole textual pass.
#[derive(Debug)]
pub enum ProcessError {
    /// The unit is not syntactically well formed; holds the parser's text.
    Parse { message: String },
    /// The unit parsed but yields no valid contract.
    Invalid { error: ContractError },
}

/// What a successful textual pass produces: the original text with the
/// generated glue appended, and the names of the contract's methods in
/// declaration order, for the build front end to report as registered.
pub struct ProcessedUnit {
    pub text: String,
    pub method_names: Vec<String>,
}

/// Run the whole textual pass on one source unit: parse it, lower it,
/// extract and validate the contract, and append the generated glue to the
/// unchanged original text.  The two target-runtime fragments are supplied
/// by the caller, as for `run_pipeline`.  The pass fails with `Parse`
/// exactly on text that is no source unit; on success the output is the
/// original text, a newline, and the glue text of a lowered unit that the
/// pipeline accepts.
pub fn process_source(source: &str, entry_decl: &str, deliver: &str) -> (r: Result<
    ProcessedUnit,
    ProcessError,
>)
    ensures
        (r matches Err(pe) && pe is Parse) <==> !parse_ok(source@),
        r matches Ok(p) ==> (p.text@.len() > source@.len() && p.text@.take(source@.len() as int)
            == source@),
        r matches Ok(p) ==> exists|u: SourceUnit|
            pipeline_diagnosis(u.items@) is None && p.text@ == source@ + "\n"@ + #[trigger] pipeline_text(
                u.items@,
                entry_decl@,
                deliver@,
            ) && p.method_names@.map_values(|s: String| s@) == pipeline_names(u.items@),
{
    let parsed = match parse_file_text(source) {
        Ok(f) => f,
        Err(e) => {
            return Err(ProcessError::Parse { message: parse_error_text(&e) });
        },
    };
    let unit = lower_unit(&parsed);
    let ghost lowered = unit;
    let generated = match run_pipeline(unit, entry_decl, deliver) {
        Ok(g) => g,
        Err(e) => {
            return Err(ProcessError::Invalid { error: e });
        },
    };
    let mut out: String = source.to_owned();
    out.append("\n");
    out.append(generated.glue.as_str());
    proof {
        reveal_strlit("\n");
        assert(out@.take(source@.len() as int) =~= source@);
        assert(out@ =~= source@ + "\n"@ + pipeline_text(lowered.items@, entry_decl@, deliver@));
    }
    Ok(ProcessedUnit { text: out, method_names: generated.method_names })
}

} // verus!
