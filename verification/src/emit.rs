//! The code emitter: given a validated contract definition, synthesize the
//! singleton-lifecycle block and one externally callable trampoline per
//! regular method, as target-language text.
//!
//! Emission is a total, deterministic transformation; it cannot fail once
//! validation has passed.  Two fragments of the generated text are supplied
//! by the caller rather than fixed here: the declaration prefix of an
//! exported entry point, and the statement that serializes a present
//! payload and hands it to the host's result-delivery entry point.  Both
//! are raw foreign-interface text of the target runtime; the library fixes
//! everything around them.

use vstd::prelude::*;
use vstd::string::StringExecFns;

use crate::model::{ContractDefinition, MethodDescriptor};

verus! {

/// One generated trampoline: the exported symbol and the full text of the
/// entry-point function.
pub struct Trampoline {
    pub symbol: String,
    pub text: String,
}

/// Everything the emitter produces for one contract.
pub struct GeneratedGlue {
    pub lifecycle: String,
    pub trampolines: Vec<Trampoline>,
}

/// The exported symbol for a method name: `_contract_<name>`.
pub open spec fn symbol_text(name: Seq<char>) -> Seq<char> {
    "_contract_"@ + name
}

/// The singleton-lifecycle block: a lazily initialized, exclusively owned
/// cell holding the one contract instance, constructed by `init` from a
/// freshly loaded parameter bundle, with the optional init payload handed
/// to the host through the `deliver` fragment.
pub open spec fn lifecycle_text(ident: Seq<char>, deliver: Seq<char>) -> Seq<char> {
    "thread_local! {\n    static SMART_CONTRACT_INSTANCE: ::std::cell::RefCell<"@ + ident
        + "> = {\n        let (contract, payload) = "@ + ident
        + "::init(&mut Parameters::load());\n\n        if let Some(result) = payload {\n            "@
        + deliver
        + "\n        }\n\n        ::std::cell::RefCell::new(contract)\n    };\n}\n"@
}

/// One trampoline: re-enter the singleton, call the method on a freshly
/// loaded parameter bundle, and deliver a present payload to the host.
pub open spec fn trampoline_body_text(
    name: Seq<char>,
    entry_decl: Seq<char>,
    deliver: Seq<char>,
) -> Seq<char> {
    "\n#[no_mangle]\n"@ + entry_decl + symbol_text(name)
        + "() {\n    SMART_CONTRACT_INSTANCE.with(|smart_contract| {\n        if let Some(result) = smart_contract.borrow_mut()."@
        + name
        + "(&mut Parameters::load()) {\n            "@ + deliver + "\n        }\n    });\n}\n"@
}

/// The names of the regular (non-init) methods, in declaration order.
pub open spec fn regular_names(ms: Seq<MethodDescriptor>) -> Seq<Seq<char>>
    decreases ms.len(),
{
    if ms.len() == 0 {
        Seq::empty()
    } else {
        regular_names(ms.drop_last()) + (if ms.last().name@ == "init"@ {
            Seq::<Seq<char>>::empty()
        } else {
            seq![ms.last().name@]
        })
    }
}

/// The (symbol, text) pairs of the trampolines the emitter owes: one per
/// regular method, in declaration order, none for `init`.
pub open spec fn glue_entries(
    ms: Seq<MethodDescriptor>,
    entry_decl: Seq<char>,
    deliver: Seq<char>,
) -> Seq<(Seq<char>, Seq<char>)>
    decreases ms.len(),
{
    if ms.len() == 0 {
        Seq::empty()
    } else {
        glue_entries(ms.drop_last(), entry_decl, deliver) + (if ms.last().name@ == "init"@ {
            Seq::<(Seq<char>, Seq<char>)>::empty()
        } else {
            seq![
                (
                    symbol_text(ms.last().name@),
                    trampoline_body_text(ms.last().name@, entry_decl, deliver),
                ),
            ]
        })
    }
}

/// The trampoline texts, concatenated in emission order.
pub open spec fn entries_text(entries: Seq<(Seq<char>, Seq<char>)>) -> Seq<char>
    decreases entries.len(),
{
    if entries.len() == 0 {
        Seq::empty()
    } else {
        entries_text(entries.drop_last()) + entries.last().1
    }
}

/// The whole generated glue as one piece of text: the lifecycle block
/// followed by every trampoline.
pub open spec fn glue_text(
    ident: Seq<char>,
    ms: Seq<MethodDescriptor>,
    entry_decl: Seq<char>,
    deliver: Seq<char>,
) -> Seq<char> {
    lifecycle_text(ident, deliver) + entries_text(glue_entries(ms, entry_decl, deliver))
}

/// Law: exactly one trampoline is generated per regular method, in
/// declaration order and none for `init`, and its exported symbol is
/// exactly `_contract_<name>`.
pub proof fn lemma_one_trampoline_per_regular_method(
    ms: Seq<MethodDescriptor>,
    entry_decl: Seq<char>,
    deliver: Seq<char>,
)
    ensures
        glue_entries(ms, entry_decl, deliver).len() == regular_names(ms).len(),
        forall|i: int|
            0 <= i < regular_names(ms).len() ==> #[trigger] glue_entries(
                ms,
                entry_decl,
                deliver,
            )[i].0 == symbol_text(regular_names(ms)[i]) && glue_entries(ms, entry_decl, deliver)[i].1
                == trampoline_body_text(regular_names(ms)[i], entry_decl, deliver),
    decreases ms.len(),
{
    if ms.len() > 0 {
        lemma_one_trampoline_per_regular_method(ms.drop_last(), entry_decl, deliver);
    }
}

/// Build the lifecycle block for the contract type.
fn build_lifecycle(ident: &String, deliver: &str) -> (r: String)
    ensures
        r@ == lifecycle_text(ident@, deliver@),
{
    let mut out: String =
        "thread_local! {\n    static SMART_CONTRACT_INSTANCE: ::std::cell::RefCell<".to_owned();
    out.append(ident.as_str());
    out.append("> = {\n        let (contract, payload) = ");
    out.append(ident.as_str());
    out.append("::init(&mut Parameters::load());\n\n        if let Some(result) = payload {\n            ");
    out.append(deliver);
    out.append("\n        }\n\n        ::std::cell::RefCell::new(contract)\n    };\n}\n");
    proof {
        assert(out@ =~= lifecycle_text(ident@, deliver@));
    }
    out
}

/// Build one trampoline's symbol and text.
fn build_trampoline(name: &String, entry_decl: &str, deliver: &str) -> (r: Trampoline)
    ensures
        r.symbol@ == symbol_text(name@),
        r.text@ == trampoline_body_text(name@, entry_decl@, deliver@),
{
    let mut symbol: String = "_contract_".to_owned();
    symbol.append(name.as_str());
    let mut text: String = "\n#[no_mangle]\n".to_owned();
    text.append(entry_decl);
    text.append(symbol.as_str());
    text.append(
        "() {\n    SMART_CONTRACT_INSTANCE.with(|smart_contract| {\n        if let Some(result) = smart_contract.borrow_mut().",
    );
    text.append(name.as_str());
    text.append("(&mut Parameters::load()) {\n            ");
    text.append(deliver);
    text.append("\n        }\n    });\n}\n");
    proof {
        assert(symbol@ =~= symbol_text(name@));
        assert(text@ =~= trampoline_body_text(name@, entry_decl@, deliver@));
    }
    Trampoline { symbol, text }
}

/// Is this the reserved constructor name?
fn name_is_init(name: &String) -> (r: bool)
    ensures
        r == (name@ == "init"@),
{
    let lit: String = "init".to_owned();
    *name == lit
}

/// Emit the glue for a contract definition: the lifecycle block, plus one
/// trampoline per regular method in declaration order, named
/// `_contract_<name>`.  `init` gets no trampoline of its own; it is only
/// ever reached through the lifecycle block's first access.
pub fn emit_glue(def: &ContractDefinition, entry_decl: &str, deliver: &str) -> (r: GeneratedGlue)
    ensures
        r.lifecycle@ == lifecycle_text(def.type_identifier@, deliver@),
        r.trampolines@.len() == glue_entries(def.methods@, entry_decl@, deliver@).len(),
        forall|i: int|
            0 <= i < r.trampolines@.len() ==> (#[trigger] r.trampolines@[i]).symbol@
                == glue_entries(def.methods@, entry_decl@, deliver@)[i].0
                && r.trampolines@[i].text@ == glue_entries(def.methods@, entry_decl@, deliver@)[i].1,
{
    let lifecycle = build_lifecycle(&def.type_identifier, deliver);
    let mut trampolines: Vec<Trampoline> = Vec::new();
    let n = def.methods.len();
    proof {
        assert(def.methods@.take(0) =~= Seq::<MethodDescriptor>::empty());
    }
    for i in 0..n
        invariant
            n == def.methods@.len(),
            trampolines@.len() == glue_entries(
                def.methods@.take(i as int),
                entry_decl@,
                deliver@,
            ).len(),
            forall|j: int|
                0 <= j < trampolines@.len() ==> (#[trigger] trampolines@[j]).symbol@
                    == glue_entries(def.methods@.take(i as int), entry_decl@, deliver@)[j].0
                    && trampolines@[j].text@ == glue_entries(
                    def.methods@.take(i as int),
                    entry_decl@,
                    deliver@,
                )[j].1,
    {
        let m = &def.methods[i];
        proof {
            assert(def.methods@.take(i as int + 1).drop_last() =~= def.methods@.take(i as int));
            assert(def.methods@.take(i as int + 1).last() == def.methods@[i as int]);
        }
        if !name_is_init(&m.name) {
            let t = build_trampoline(&m.name, entry_decl, deliver);
            trampolines.push(t);
        }
        proof {
            let taken = glue_entries(def.methods@.take(i as int), entry_decl@, deliver@);
            let grown = glue_entries(def.methods@.take(i as int + 1), entry_decl@, deliver@);
            if def.methods@[i as int].name@ == "init"@ {
                assert(grown =~= taken);
            } else {
                assert(grown =~= taken + seq![
                    (
                        symbol_text(def.methods@[i as int].name@),
                        trampoline_body_text(def.methods@[i as int].name@, entry_decl@, deliver@),
                    ),
                ]);
            }
        }
    }
    proof {
        assert(def.methods@.take(n as int) =~= def.methods@);
    }
    GeneratedGlue { lifecycle, trampolines }
}

/// The trampoline texts of a built glue value, concatenated.
pub open spec fn trampolines_joined(ts: Seq<Trampoline>) -> Seq<char>
    decreases ts.len(),
{
    if ts.len() == 0 {
        Seq::empty()
    } else {
        trampolines_joined(ts.drop_last()) + ts.last().text@
    }
}

/// Pointwise-equal trampoline texts concatenate to the same text.
proof fn lemma_joined_matches_entries(ts: Seq<Trampoline>, entries: Seq<(Seq<char>, Seq<char>)>)
    requires
        ts.len() == entries.len(),
        forall|i: int| 0 <= i < ts.len() ==> (#[trigger] ts[i]).text@ == entries[i].1,
    ensures
        trampolines_joined(ts) == entries_text(entries),
    decreases ts.len(),
{
    if ts.len() > 0 {
        lemma_joined_matches_entries(ts.drop_last(), entries.drop_last());
    }
}

/// Join a built glue value into one piece of text: the lifecycle block
/// followed by every trampoline in emission order.
pub fn render_glue(g: &GeneratedGlue) -> (r: String)
    ensures
        r@ == g.lifecycle@ + trampolines_joined(g.trampolines@),
{
    let mut out = g.lifecycle.clone();
    let n = g.trampolines.len();
    proof {
        assert(g.trampolines@.take(0) =~= Seq::<Trampoline>::empty());
        assert(out@ =~= g.lifecycle@ + trampolines_joined(g.trampolines@.take(0)));
    }
    for i in 0..n
        invariant
            n == g.trampolines@.len(),
            out@ == g.lifecycle@ + trampolines_joined(g.trampolines@.take(i as int)),
    {
        out.append(g.trampolines[i].text.as_str());
        proof {
            assert(g.trampolines@.take(i as int + 1).drop_last() =~= g.trampolines@.take(i as int));
            assert(g.trampolines@.take(i as int + 1).last() == g.trampolines@[i as int]);
            assert(out@ =~= g.lifecycle@ + trampolines_joined(g.trampolines@.take(i as int + 1)));
        }
    }
    proof {
        assert(g.trampolines@.take(n as int) =~= g.trampolines@);
    }
    out
}

/// Emit the whole glue for a contract definition as one piece of text.
pub fn emit_text(def: &ContractDefinition, entry_decl: &str, deliver: &str) -> (r: String)
    ensures
        r@ == glue_text(def.type_identifier@, def.methods@, entry_decl@, deliver@),
{
    let glue = emit_glue(def, entry_decl, deliver);
    let out = render_glue(&glue);
    proof {
        lemma_joined_matches_entries(
            glue.trampolines@,
            glue_entries(def.methods@, entry_decl@, deliver@),
        );
    }
    out
}

} // verus!
