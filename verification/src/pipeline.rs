//! The whole generation pass over one lowered source unit: extract the
//! contract, validate every method, and emit the glue text.  Data flows
//! strictly forward, and any violation aborts the pass with its error;
//! nothing is emitted on failure.

use vstd::prelude::*;

use crate::emit::{
    emit_text, glue_entries, glue_text, lemma_one_trampoline_per_regular_method, regular_names,
    symbol_text,
};
use crate::extract::{extract, last_impl};
use crate::model::{ImplBlock, MethodDescriptor, SourceUnit, UnitItem};
use crate::validate::{
    lemma_methods_diagnosis_none_iff_all, method_diagnosis, methods_diagnosis, validate_methods,
    ContractError,
};

verus! {

/// The first failure of the whole pass, or `None` when the unit yields a
/// valid contract: no implementation block is a structural failure, and
/// otherwise the chosen block's first convention violation decides.
pub open spec fn pipeline_diagnosis(items: Seq<UnitItem>) -> Option<ContractError> {
    match last_impl(items) {
        None => Some(ContractError::MissingContract),
        Some(b) => methods_diagnosis(b.methods@),
    }
}

/// The glue text owed for a valid unit.
pub open spec fn pipeline_text(
    items: Seq<UnitItem>,
    entry_decl: Seq<char>,
    deliver: Seq<char>,
) -> Seq<char> {
    match last_impl(items) {
        None => Seq::empty(),
        Some(b) => glue_text(b.self_name@, b.methods@, entry_decl, deliver),
    }
}

/// The names of the chosen block's methods, in declaration order: what a
/// build front end reports as registered once the pass succeeds.
pub open spec fn method_names_text(ms: Seq<MethodDescriptor>) -> Seq<Seq<char>> {
    ms.map_values(|m: MethodDescriptor| m.name@)
}

/// The registered method names owed for a valid unit.
pub open spec fn pipeline_names(items: Seq<UnitItem>) -> Seq<Seq<char>> {
    match last_impl(items) {
        None => Seq::empty(),
        Some(b) => method_names_text(b.methods@),
    }
}

/// What a successful pass produces: the generated glue text and the names
/// of the contract's methods, in declaration order.
pub struct GeneratedModule {
    pub glue: String,
    pub method_names: Vec<String>,
}

/// Run the whole pass on a lowered unit.  Succeeds with the generated glue
/// text and the registered method names exactly when the unit holds an
/// implementation block whose every method follows the calling convention;
/// fails with the first violation otherwise, emitting nothing.
pub fn run_pipeline(unit: SourceUnit, entry_decl: &str, deliver: &str) -> (r: Result<
    GeneratedModule,
    ContractError,
>)
    ensures
        pipeline_diagnosis(unit.items@) matches Some(e) ==> r == Err::<
            GeneratedModule,
            ContractError,
        >(e),
        pipeline_diagnosis(unit.items@) is None ==> (r matches Ok(g) && g.glue@ == pipeline_text(
            unit.items@,
            entry_decl@,
            deliver@,
        ) && g.method_names@.map_values(|s: String| s@) == pipeline_names(unit.items@)),
{
    let def = match extract(unit) {
        Ok(d) => d,
        Err(e) => {
            return Err(e);
        },
    };
    if let Err(e) = validate_methods(&def.methods) {
        return Err(e);
    }
    let mut method_names: Vec<String> = Vec::new();
    let n = def.methods.len();
    for i in 0..n
        invariant
            n == def.methods@.len(),
            method_names@.len() == i,
            forall|j: int| 0 <= j < i ==> method_names@[j] == def.methods@[j].name,
    {
        method_names.push(def.methods[i].name.clone());
    }
    proof {
        assert(method_names@.map_values(|s: String| s@) =~= method_names_text(def.methods@));
    }
    let glue = emit_text(&def, entry_decl, deliver);
    Ok(GeneratedModule { glue, method_names })
}

/// Law: the transformation is pure.  Equal lowered units yield the same
/// diagnosis and byte-identical glue text, however often the pass is
/// re-run.
pub proof fn lemma_pipeline_deterministic(
    items1: Seq<UnitItem>,
    items2: Seq<UnitItem>,
    entry_decl: Seq<char>,
    deliver: Seq<char>,
)
    requires
        items1 == items2,
    ensures
        pipeline_diagnosis(items1) == pipeline_diagnosis(items2),
        pipeline_text(items1, entry_decl, deliver) == pipeline_text(items2, entry_decl, deliver),
        pipeline_names(items1) == pipeline_names(items2),
{
}

/// Law: a contract whose every method follows the calling convention is
/// accepted, and the pass generates exactly one trampoline per regular
/// method, in declaration order, named exactly `_contract_<name>`.
pub proof fn lemma_valid_contract_generates(
    items: Seq<UnitItem>,
    b: ImplBlock,
    entry_decl: Seq<char>,
    deliver: Seq<char>,
)
    requires
        last_impl(items) == Some(b),
        forall|i: int| 0 <= i < b.methods@.len() ==> method_diagnosis(#[trigger] b.methods@[i]) is None,
    ensures
        pipeline_diagnosis(items) is None,
        glue_entries(b.methods@, entry_decl, deliver).len() == regular_names(b.methods@).len(),
        forall|i: int|
            0 <= i < regular_names(b.methods@).len() ==> #[trigger] glue_entries(
                b.methods@,
                entry_decl,
                deliver,
            )[i].0 == symbol_text(regular_names(b.methods@)[i]),
{
    lemma_methods_diagnosis_none_iff_all(b.methods@);
    lemma_one_trampoline_per_regular_method(b.methods@, entry_decl, deliver);
}

} // verus!
