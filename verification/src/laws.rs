use vstd::prelude::*;

use crate::ast::{child_by_field, AstNode};
use crate::defs::{
    def_at, defs_from, defs_of, is_class_kind, is_function_binding, is_function_kind, name_token,
};
use crate::parser::{spec_parse, ts_ast};
use crate::symbols::{sym_v, ParsedFileV, SymbolKindV, SymbolV};
use crate::usages::{callee_name, use_at, uses_from, uses_of};

verus! {

/// Every definition the walk emits carries a non-empty name: empty names
/// are filtered at the point a symbol would be recorded, never emitted.
pub proof fn lemma_definition_names_nonempty(n: AstNode, ctx: Option<Seq<char>>, file: Seq<char>)
    ensures
        forall|i: int|
            0 <= i < defs_of(n, ctx, file).len() ==> #[trigger] defs_of(
                n,
                ctx,
                file,
            )[i].name.len() > 0,
    decreases n, 1nat, 0nat,
{
    let cls = if is_class_kind(n.kind@) {
        name_token(n)
    } else {
        None
    };
    match cls {
        Some(nm) => {
            lemma_defs_from_names_nonempty(n, 0, Some(nm.text@), file);
        },
        None => {
            lemma_defs_from_names_nonempty(n, 0, ctx, file);
        },
    }
}

proof fn lemma_defs_from_names_nonempty(n: AstNode, i: int, ctx: Option<Seq<char>>, file: Seq<char>)
    ensures
        forall|j: int|
            0 <= j < defs_from(n, i, ctx, file).len() ==> #[trigger] defs_from(
                n,
                i,
                ctx,
                file,
            )[j].name.len() > 0,
    decreases n, 0nat, n.children@.len() - i,
{
    if 0 <= i < n.children@.len() {
        lemma_definition_names_nonempty(n.children@[i], ctx, file);
        lemma_defs_from_names_nonempty(n, i + 1, ctx, file);
    }
}

/// Every usage the walk emits carries a non-empty name.
pub proof fn lemma_usage_names_nonempty(n: AstNode, file: Seq<char>)
    ensures
        forall|i: int|
            0 <= i < uses_of(n, file).len() ==> #[trigger] uses_of(n, file)[i].name.len() > 0,
    decreases n, 1nat, 0nat,
{
    lemma_uses_from_names_nonempty(n, 0, file);
}

proof fn lemma_uses_from_names_nonempty(n: AstNode, i: int, file: Seq<char>)
    ensures
        forall|j: int|
            0 <= j < uses_from(n, i, file).len() ==> #[trigger] uses_from(
                n,
                i,
                file,
            )[j].name.len() > 0,
    decreases n, 0nat, n.children@.len() - i,
{
    if 0 <= i < n.children@.len() {
        lemma_usage_names_nonempty(n.children@[i], file);
        lemma_uses_from_names_nonempty(n, i + 1, file);
    }
}

/// Both lists of a successful parse hold only symbols with non-empty names.
pub proof fn lemma_parse_names_nonempty(source: Seq<char>, path: Seq<char>, r: ParsedFileV)
    requires
        spec_parse(source, path) == Some(r),
    ensures
        forall|i: int| 0 <= i < r.definitions.len() ==> #[trigger] r.definitions[i].name.len() > 0,
        forall|i: int| 0 <= i < r.usages.len() ==> #[trigger] r.usages[i].name.len() > 0,
{
    match ts_ast(source) {
        Some(ast) => {
            lemma_definition_names_nonempty(ast, None, path);
            lemma_usage_names_nonempty(ast, path);
        },
        None => {
            assert(false);
        },
    }
}

/// Parsing the same source text twice produces structurally equal results:
/// what `parse` returns is a function of the source text and the path
/// alone, with no state carried between calls.
pub proof fn lemma_parse_deterministic(
    source: Seq<char>,
    path: Seq<char>,
    r1: ParsedFileV,
    r2: ParsedFileV,
)
    requires
        spec_parse(source, path) == Some(r1),
        spec_parse(source, path) == Some(r2),
    ensures
        r1 == r2,
{
}

/// A call through a member access records the property's name alone: the
/// receiver is discarded, so `obj.method()` yields a usage named `method`.
pub proof fn lemma_member_callee_resolves_to_property(callee: AstNode, p: AstNode)
    requires
        callee.kind@ == "member_expression"@,
        child_by_field(callee, "property"@) == Some(p),
    ensures
        callee_name(callee) == p.text@,
{
    reveal_strlit("identifier");
    reveal_strlit("member_expression");
    assert(("identifier"@).len() == 10);
    assert(("member_expression"@).len() == 17);
    assert(callee.kind@ != "identifier"@);
}

/// A call expression whose callee is a member access with a non-empty
/// property name yields exactly one `Function` usage at the callee, named
/// by the property alone.
pub proof fn lemma_member_call_usage(n: AstNode, callee: AstNode, p: AstNode, file: Seq<char>)
    requires
        n.kind@ == "call_expression"@,
        child_by_field(n, "function"@) == Some(callee),
        callee.kind@ == "member_expression"@,
        child_by_field(callee, "property"@) == Some(p),
        p.text@.len() > 0,
    ensures
        use_at(n, file) == seq![
            sym_v(p.text@, SymbolKindV::Function, file, callee.row, callee.column),
        ],
{
    lemma_member_callee_resolves_to_property(callee, p);
}

/// An instantiation with a non-empty constructor text yields exactly one
/// `Class` usage at the constructor, named by its literal text.
pub proof fn lemma_instantiation_usage(n: AstNode, c: AstNode, file: Seq<char>)
    requires
        n.kind@ == "new_expression"@,
        child_by_field(n, "constructor"@) == Some(c),
        c.text@.len() > 0,
    ensures
        use_at(n, file) == seq![sym_v(c.text@, SymbolKindV::Class, file, c.row, c.column)],
{
    reveal_strlit("call_expression");
    reveal_strlit("new_expression");
    assert(("call_expression"@).len() == 15);
    assert(("new_expression"@).len() == 14);
    assert(n.kind@ != "call_expression"@);
}

/// A named class contributes one `Class` symbol at its name token and
/// switches the context for its whole subtree to its own name, whatever the
/// context around it was.
pub proof fn lemma_class_sets_context(
    n: AstNode,
    nm: AstNode,
    ctx: Option<Seq<char>>,
    file: Seq<char>,
)
    requires
        is_class_kind(n.kind@),
        child_by_field(n, "name"@) == Some(nm),
        nm.text@.len() > 0,
    ensures
        defs_of(n, ctx, file) == seq![sym_v(nm.text@, SymbolKindV::Class, file, nm.row, nm.column)]
            + defs_from(n, 0, Some(nm.text@), file),
{
}

/// A function declaration with a name yields one `Function` definition at
/// its name token, before whatever its body contributes.
pub proof fn lemma_function_declaration_definition(
    n: AstNode,
    nm: AstNode,
    ctx: Option<Seq<char>>,
    file: Seq<char>,
)
    requires
        is_function_kind(n.kind@),
        child_by_field(n, "name"@) == Some(nm),
        nm.text@.len() > 0,
    ensures
        defs_of(n, ctx, file) == seq![
            sym_v(nm.text@, SymbolKindV::Function, file, nm.row, nm.column),
        ] + defs_from(n, 0, ctx, file),
{
    reveal_strlit("function_declaration");
    reveal_strlit("function");
    reveal_strlit("function_expression");
    reveal_strlit("class_declaration");
    reveal_strlit("class");
    assert(("function_declaration"@).len() == 20);
    assert(("function"@).len() == 8);
    assert(("function_expression"@).len() == 19);
    assert(("class_declaration"@).len() == 17);
    assert(("class"@).len() == 5);
    assert(!is_class_kind(n.kind@));
}

/// A variable bound to a function or arrow literal is classified exactly
/// like a plain function declaration: one `Function` definition, at the
/// binding identifier's token rather than the literal's.
pub proof fn lemma_function_binding_definition(
    n: AstNode,
    nm: AstNode,
    ctx: Option<Seq<char>>,
    file: Seq<char>,
)
    requires
        n.kind@ == "variable_declarator"@,
        is_function_binding(n),
        child_by_field(n, "name"@) == Some(nm),
        nm.text@.len() > 0,
    ensures
        defs_of(n, ctx, file) == seq![
            sym_v(nm.text@, SymbolKindV::Function, file, nm.row, nm.column),
        ] + defs_from(n, 0, ctx, file),
{
    reveal_strlit("variable_declarator");
    reveal_strlit("function_declaration");
    reveal_strlit("function");
    reveal_strlit("function_expression");
    reveal_strlit("class_declaration");
    reveal_strlit("class");
    reveal_strlit("method_definition");
    assert(("variable_declarator"@).len() == 19);
    assert(("function_declaration"@).len() == 20);
    assert(("function"@).len() == 8);
    assert(("function_expression"@).len() == 19);
    assert(("class_declaration"@).len() == 17);
    assert(("class"@).len() == 5);
    assert(("method_definition"@).len() == 17);
    assert(("variable_declarator"@)[0] == 'v' && ("function_expression"@)[0] == 'f');
    assert(!is_class_kind(n.kind@));
    assert(!is_function_kind(n.kind@));
}

/// True when no node in the subtree of `n` is a definition shape other than
/// a named method: no named function or class, no function binding.
pub open spec fn only_method_defs(n: AstNode) -> bool
    decreases n, 1nat, 0nat,
{
    &&& !(is_function_kind(n.kind@) && name_token(n) is Some)
    &&& !(is_class_kind(n.kind@) && name_token(n) is Some)
    &&& !(n.kind@ == "variable_declarator"@ && is_function_binding(n) && name_token(n) is Some)
    &&& only_method_defs_from(n, 0)
}

/// True when `only_method_defs` holds of `n`'s children from index `i` on.
pub open spec fn only_method_defs_from(n: AstNode, i: int) -> bool
    decreases n, 0nat, n.children@.len() - i,
{
    if 0 <= i < n.children@.len() {
        only_method_defs(n.children@[i]) && only_method_defs_from(n, i + 1)
    } else {
        true
    }
}

/// The number of named method definitions in the subtree of `n`.
pub open spec fn method_count(n: AstNode) -> nat
    decreases n, 1nat, 0nat,
{
    (if n.kind@ == "method_definition"@ && name_token(n) is Some {
        1nat
    } else {
        0nat
    }) + method_count_from(n, 0)
}

/// The number of named method definitions in the subtrees of `n`'s children
/// from index `i` on.
pub open spec fn method_count_from(n: AstNode, i: int) -> nat
    decreases n, 0nat, n.children@.len() - i,
{
    if 0 <= i < n.children@.len() {
        method_count(n.children@[i]) + method_count_from(n, i + 1)
    } else {
        0
    }
}

proof fn lemma_only_methods_defs(n: AstNode, c: Seq<char>, file: Seq<char>)
    requires
        only_method_defs(n),
    ensures
        defs_of(n, Some(c), file).len() == method_count(n),
        forall|i: int|
            0 <= i < defs_of(n, Some(c), file).len() ==> #[trigger] defs_of(
                n,
                Some(c),
                file,
            )[i].kind == (SymbolKindV::Method { class_name: c }),
    decreases n, 1nat, 0nat,
{
    lemma_only_methods_defs_from(n, 0, c, file);
    if n.kind@ == "method_definition"@ && name_token(n) is Some {
        reveal_strlit("method_definition");
        reveal_strlit("function_declaration");
        reveal_strlit("function");
        reveal_strlit("function_expression");
        assert(("method_definition"@).len() == 17);
        assert(("function_declaration"@).len() == 20);
        assert(("function"@).len() == 8);
        assert(("function_expression"@).len() == 19);
        assert(!is_function_kind(n.kind@));
    } else {
        assert(def_at(n, Some(c), file) == Seq::<SymbolV>::empty());
    }
}

proof fn lemma_only_methods_defs_from(n: AstNode, i: int, c: Seq<char>, file: Seq<char>)
    requires
        only_method_defs_from(n, i),
    ensures
        defs_from(n, i, Some(c), file).len() == method_count_from(n, i),
        forall|j: int|
            0 <= j < defs_from(n, i, Some(c), file).len() ==> #[trigger] defs_from(
                n,
                i,
                Some(c),
                file,
            )[j].kind == (SymbolKindV::Method { class_name: c }),
    decreases n, 0nat, n.children@.len() - i,
{
    if 0 <= i < n.children@.len() {
        lemma_only_methods_defs(n.children@[i], c, file);
        lemma_only_methods_defs_from(n, i + 1, c, file);
    }
}

/// A class whose subtree holds exactly N named method definitions and no
/// other definition shape yields exactly 1 + N definitions: its own `Class`
/// symbol first, then the N `Method` symbols, each carrying the class's
/// name as its context.
pub proof fn lemma_class_with_n_methods(
    n: AstNode,
    nm: AstNode,
    ctx: Option<Seq<char>>,
    file: Seq<char>,
)
    requires
        is_class_kind(n.kind@),
        child_by_field(n, "name"@) == Some(nm),
        nm.text@.len() > 0,
        only_method_defs_from(n, 0),
    ensures
        defs_of(n, ctx, file).len() == 1 + method_count_from(n, 0),
        defs_of(n, ctx, file)[0] == sym_v(nm.text@, SymbolKindV::Class, file, nm.row, nm.column),
        forall|i: int|
            1 <= i < defs_of(n, ctx, file).len() ==> #[trigger] defs_of(n, ctx, file)[i].kind == (
            SymbolKindV::Method { class_name: nm.text@ }),
{
    lemma_class_sets_context(n, nm, ctx, file);
    lemma_only_methods_defs_from(n, 0, nm.text@, file);
}

/// A method definition with a name is recorded as a `Method` carrying the
/// innermost enclosing class's name.
pub proof fn lemma_method_carries_class(n: AstNode, nm: AstNode, c: Seq<char>, file: Seq<char>)
    requires
        n.kind@ == "method_definition"@,
        child_by_field(n, "name"@) == Some(nm),
        nm.text@.len() > 0,
    ensures
        defs_of(n, Some(c), file) == seq![
            sym_v(nm.text@, SymbolKindV::Method { class_name: c }, file, nm.row, nm.column),
        ] + defs_from(n, 0, Some(c), file),
{
    reveal_strlit("method_definition");
    reveal_strlit("class_declaration");
    reveal_strlit("class");
    reveal_strlit("function_declaration");
    reveal_strlit("function");
    reveal_strlit("function_expression");
    assert(("method_definition"@).len() == 17);
    assert(("class_declaration"@).len() == 17);
    assert(("class"@).len() == 5);
    assert(("function_declaration"@).len() == 20);
    assert(("function"@).len() == 8);
    assert(("function_expression"@).len() == 19);
    assert(("method_definition"@)[0] == 'm' && ("class_declaration"@)[0] == 'c');
    assert(n.kind@ != "class_declaration"@);
    assert(!is_class_kind(n.kind@));
    assert(def_at(n, Some(c), file) == seq![
        sym_v(nm.text@, SymbolKindV::Method { class_name: c }, file, nm.row, nm.column),
    ]);
}

} // verus!
