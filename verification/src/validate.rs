//! The signature validator: every method of the contract's implementation
//! block must follow the host runtime's fixed calling convention.
//!
//! The method named `init` is the distinguished constructor: it takes
//! exactly one mutable reference to the parameter bundle and returns the
//! contract type paired with an optional payload.  Every other method takes
//! a mutable self-reference plus a mutable parameter-bundle reference and
//! returns an optional payload.  The bundle and payload types are accepted
//! in their short spelling (`Parameters`, `Payload`) and in their
//! crate-qualified spelling (`smart_contract::payload::...`).

use vstd::prelude::*;

use crate::model::{MethodDescriptor, ParamShape, TypeShape};

verus! {

/// The reasons for which a generation pass aborts.  Every one is fatal:
/// validation either accepts the whole contract or produces no artifact.
#[derive(Clone, Copy, Debug, PartialEq, Eq, Structural)]
pub enum ContractError {
    /// The source unit holds no type-implementation block.
    MissingContract,
    /// The init method's parameter list is not exactly one mutable
    /// parameter-bundle reference.
    InitParams,
    /// The init method does not return the contract type paired with an
    /// optional payload.
    InitReturn,
    /// A regular method does not have exactly two parameters.
    RegularArity,
    /// A regular method's first parameter is not a mutable self-reference.
    RegularSelf,
    /// A regular method's second parameter is not a mutable
    /// parameter-bundle reference.
    RegularSecondParam,
    /// A regular method does not return an optional payload.
    RegularReturn,
}

/// The human-readable text reported for each error.
pub open spec fn error_text(e: ContractError) -> Seq<char> {
    match e {
        ContractError::MissingContract => "You may only annotate a type-implementation block."@,
        ContractError::InitParams => "The `init` fn must only have 1 parameter: &mut smart_contract::payload::Parameters."@,
        ContractError::InitReturn => "The `init` fn need to return (Self, Option<smart_contract::payload::Payload>)."@,
        ContractError::RegularArity => "All smart contract functions need to have a single parameter of type &mut smart_contract::payload::Parameters."@,
        ContractError::RegularSelf => "The first parameter of a smart contract function must be &mut self."@,
        ContractError::RegularSecondParam => "The second parameter of a smart contract function must be &mut smart_contract::payload::Parameters."@,
        ContractError::RegularReturn => "Smart contract functions need to return Option<smart_contract::payload::Payload>."@,
    }
}

impl ContractError {
    /// The diagnostic message of this error.
    pub fn message(&self) -> (r: String)
        ensures
            r@ == error_text(*self),
    {
        match self {
            ContractError::MissingContract => "You may only annotate a type-implementation block.".to_owned(),
            ContractError::InitParams => "The `init` fn must only have 1 parameter: &mut smart_contract::payload::Parameters.".to_owned(),
            ContractError::InitReturn => "The `init` fn need to return (Self, Option<smart_contract::payload::Payload>).".to_owned(),
            ContractError::RegularArity => "All smart contract functions need to have a single parameter of type &mut smart_contract::payload::Parameters.".to_owned(),
            ContractError::RegularSelf => "The first parameter of a smart contract function must be &mut self.".to_owned(),
            ContractError::RegularSecondParam => "The second parameter of a smart contract function must be &mut smart_contract::payload::Parameters.".to_owned(),
            ContractError::RegularReturn => "Smart contract functions need to return Option<smart_contract::payload::Payload>.".to_owned(),
        }
    }
}

/// Does a path spell `name`, either bare or qualified as
/// `smart_contract::payload::name`?  The two spellings resolve to one
/// canonical type of the runtime's payload module.
pub open spec fn resolves_in_payload_module(segments: Seq<String>, name: Seq<char>) -> bool {
    ||| (segments.len() == 1 && segments[0]@ == name)
    ||| (segments.len() == 3 && segments[0]@ == "smart_contract"@ && segments[1]@ == "payload"@
        && segments[2]@ == name)
}

/// The parameter-bundle type, in either accepted spelling, with no type
/// arguments.
pub open spec fn is_parameter_bundle(t: TypeShape) -> bool {
    t matches TypeShape::Path { segments, args } && args@.len() == 0
        && resolves_in_payload_module(segments@, "Parameters"@)
}

/// A mutable reference to the parameter bundle: the only accepted shape for
/// a method's input parameter.
pub open spec fn is_mut_bundle_ref(t: TypeShape) -> bool {
    t matches TypeShape::Reference { mutable, elem } && mutable && is_parameter_bundle(*elem)
}

/// The payload type, in either accepted spelling, with no type arguments.
pub open spec fn is_payload(t: TypeShape) -> bool {
    t matches TypeShape::Path { segments, args } && args@.len() == 0
        && resolves_in_payload_module(segments@, "Payload"@)
}

/// `Option<Payload>`: the return type owed by every regular method.
pub open spec fn is_optional_payload(t: TypeShape) -> bool {
    t matches TypeShape::Path { segments, args } && segments@.len() == 1
        && segments@[0]@ == "Option"@ && args@.len() == 1 && is_payload(args@[0])
}

/// The bare `Self` path.
pub open spec fn is_self_path(t: TypeShape) -> bool {
    t matches TypeShape::Path { segments, args } && args@.len() == 0 && segments@.len() == 1
        && segments@[0]@ == "Self"@
}

/// `(Self, Option<Payload>)`: the return type owed by the init method.
pub open spec fn is_init_return(t: TypeShape) -> bool {
    t matches TypeShape::Tuple { elems } && elems@.len() == 2 && is_self_path(elems@[0])
        && is_optional_payload(elems@[1])
}

/// The one parameter accepted for the init method.
pub open spec fn is_init_param(p: ParamShape) -> bool {
    p matches ParamShape::Plain { ty } && is_mut_bundle_ref(ty)
}

/// A mutable self-reference: the first parameter owed by a regular method.
pub open spec fn is_mut_self(p: ParamShape) -> bool {
    p matches ParamShape::Receiver { by_ref, mutable } && by_ref && mutable
}

/// The first calling-convention violation of one method, checked in the
/// fixed order in which validation reports them, or `None` when the method
/// follows the convention.
pub open spec fn method_diagnosis(m: MethodDescriptor) -> Option<ContractError> {
    if m.name@ == "init"@ {
        if !(m.params@.len() == 1 && is_init_param(m.params@[0])) {
            Some(ContractError::InitParams)
        } else if !(m.ret matches Some(t) && is_init_return(t)) {
            Some(ContractError::InitReturn)
        } else {
            None
        }
    } else {
        if m.params@.len() != 2 {
            Some(ContractError::RegularArity)
        } else if !is_mut_self(m.params@[0]) {
            Some(ContractError::RegularSelf)
        } else if !(m.params@[1] matches ParamShape::Plain { ty } && is_mut_bundle_ref(ty)) {
            Some(ContractError::RegularSecondParam)
        } else if !(m.ret matches Some(t) && is_optional_payload(t)) {
            Some(ContractError::RegularReturn)
        } else {
            None
        }
    }
}

/// The first violation over a method sequence, in extraction order.
pub open spec fn methods_diagnosis(ms: Seq<MethodDescriptor>) -> Option<ContractError>
    decreases ms.len(),
{
    if ms.len() == 0 {
        None
    } else if method_diagnosis(ms[0]) is Some {
        method_diagnosis(ms[0])
    } else {
        methods_diagnosis(ms.drop_first())
    }
}

/// A diagnosis as the validator's result.
pub open spec fn as_result(d: Option<ContractError>) -> Result<(), ContractError> {
    match d {
        None => Ok(()),
        Some(e) => Err(e),
    }
}

/// A whole method list is valid exactly when each of its methods is.
pub proof fn lemma_methods_diagnosis_none_iff_all(ms: Seq<MethodDescriptor>)
    ensures
        methods_diagnosis(ms) is None <==> (forall|i: int|
            0 <= i < ms.len() ==> method_diagnosis(#[trigger] ms[i]) is None),
    decreases ms.len(),
{
    if ms.len() > 0 {
        lemma_methods_diagnosis_none_iff_all(ms.drop_first());
        assert(forall|i: int|
            1 <= i < ms.len() ==> ms.drop_first()[i - 1] == #[trigger] ms[i]);
    }
}

/// Does this string hold exactly the given text?
fn text_is(s: &String, lit: &str) -> (r: bool)
    ensures
        r == (s@ == lit@),
{
    let other: String = lit.to_owned();
    *s == other
}

/// Does this path resolve, in either accepted spelling, to `name` of the
/// runtime's payload module?
fn path_resolves_to(segments: &Vec<String>, name: &str) -> (r: bool)
    ensures
        r == resolves_in_payload_module(segments@, name@),
{
    if segments.len() == 1 {
        text_is(&segments[0], name)
    } else if segments.len() == 3 {
        text_is(&segments[0], "smart_contract") && text_is(&segments[1], "payload")
            && text_is(&segments[2], name)
    } else {
        false
    }
}

/// Is this type a mutable reference to the parameter bundle?
fn shape_is_mut_bundle_ref(t: &TypeShape) -> (r: bool)
    ensures
        r == is_mut_bundle_ref(*t),
{
    match t {
        TypeShape::Reference { mutable, elem } => {
            if !*mutable {
                false
            } else {
                match &**elem {
                    TypeShape::Path { segments, args } => {
                        args.len() == 0 && path_resolves_to(segments, "Parameters")
                    },
                    _ => false,
                }
            }
        },
        _ => false,
    }
}

/// Is this type `Option<Payload>`, payload in either accepted spelling?
fn shape_is_optional_payload(t: &TypeShape) -> (r: bool)
    ensures
        r == is_optional_payload(*t),
{
    match t {
        TypeShape::Path { segments, args } => {
            if !(segments.len() == 1 && args.len() == 1) {
                false
            } else if !text_is(&segments[0], "Option") {
                false
            } else {
                match &args[0] {
                    TypeShape::Path { segments: inner_segments, args: inner_args } => {
                        inner_args.len() == 0 && path_resolves_to(inner_segments, "Payload")
                    },
                    _ => false,
                }
            }
        },
        _ => false,
    }
}

/// Is this type `(Self, Option<Payload>)`?
fn shape_is_init_return(t: &TypeShape) -> (r: bool)
    ensures
        r == is_init_return(*t),
{
    match t {
        TypeShape::Tuple { elems } => {
            if elems.len() != 2 {
                false
            } else {
                let head_ok = match &elems[0] {
                    TypeShape::Path { segments, args } => {
                        args.len() == 0 && segments.len() == 1 && text_is(&segments[0], "Self")
                    },
                    _ => false,
                };
                head_ok && shape_is_optional_payload(&elems[1])
            }
        },
        _ => false,
    }
}

/// Check one method against the calling convention.  Returns the first
/// violation, in the fixed reporting order, or `Ok` when the method
/// follows the convention.
pub fn validate_method(m: &MethodDescriptor) -> (r: Result<(), ContractError>)
    ensures
        r == as_result(method_diagnosis(*m)),
{
    if text_is(&m.name, "init") {
        let param_ok = m.params.len() == 1 && (match &m.params[0] {
            ParamShape::Plain { ty } => shape_is_mut_bundle_ref(ty),
            _ => false,
        });
        if !param_ok {
            return Err(ContractError::InitParams);
        }
        let ret_ok = match &m.ret {
            Some(t) => shape_is_init_return(t),
            None => false,
        };
        if !ret_ok {
            return Err(ContractError::InitReturn);
        }
        Ok(())
    } else {
        if m.params.len() != 2 {
            return Err(ContractError::RegularArity);
        }
        let self_ok = match &m.params[0] {
            ParamShape::Receiver { by_ref, mutable } => *by_ref && *mutable,
            _ => false,
        };
        if !self_ok {
            return Err(ContractError::RegularSelf);
        }
        let second_ok = match &m.params[1] {
            ParamShape::Plain { ty } => shape_is_mut_bundle_ref(ty),
            _ => false,
        };
        if !second_ok {
            return Err(ContractError::RegularSecondParam);
        }
        let ret_ok = match &m.ret {
            Some(t) => shape_is_optional_payload(t),
            None => false,
        };
        if !ret_ok {
            return Err(ContractError::RegularReturn);
        }
        Ok(())
    }
}

/// Check every method, in extraction order, and report the first
/// violation; the whole pass fails on it and nothing is emitted.
pub fn validate_methods(ms: &Vec<MethodDescriptor>) -> (r: Result<(), ContractError>)
    ensures
        r == as_result(methods_diagnosis(ms@)),
{
    let n = ms.len();
    proof {
        assert(ms@.skip(0) =~= ms@);
    }
    for i in 0..n
        invariant
            n == ms@.len(),
            methods_diagnosis(ms@) == methods_diagnosis(ms@.skip(i as int)),
    {
        let step = validate_method(&ms[i]);
        proof {
            assert(ms@.skip(i as int)[0] == ms@[i as int]);
            assert(ms@.skip(i as int).drop_first() =~= ms@.skip(i as int + 1));
        }
        if let Err(e) = step {
            return Err(e);
        }
    }
    proof {
        assert(ms@.skip(n as int) =~= Seq::<MethodDescriptor>::empty());
    }
    Ok(())
}

} // verus!
