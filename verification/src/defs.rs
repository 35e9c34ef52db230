use vstd::prelude::*;

use crate::ast::{child_by_field, find_child_by_field, str_eq, AstNode};
use crate::symbols::{
    lemma_syms_view_concat, lemma_syms_view_push, sym_v, syms_view, token_symbol, Symbol,
    SymbolKind, SymbolKindV, SymbolV,
};

verus! {

/// Kind tags of named function declarations and named function literals.
/// Grammars have tagged function literals both `function` and
/// `function_expression`; both are recognized.
pub open spec fn is_function_kind(k: Seq<char>) -> bool {
    ||| k == "function_declaration"@
    ||| k == "function"@
    ||| k == "function_expression"@
}

/// Kind tags of function-literal and arrow-literal expressions, the shapes
/// that make a variable binding a function definition.
pub open spec fn is_function_literal_kind(k: Seq<char>) -> bool {
    ||| k == "function"@
    ||| k == "function_expression"@
    ||| k == "arrow_function"@
}

/// Kind tags of class declarations and class expressions.
pub open spec fn is_class_kind(k: Seq<char>) -> bool {
    ||| k == "class_declaration"@
    ||| k == "class"@
}

fn kind_is_function(k: &String) -> (r: bool)
    ensures
        r == is_function_kind(k@),
{
    str_eq(k.as_str(), "function_declaration") || str_eq(k.as_str(), "function") || str_eq(
        k.as_str(),
        "function_expression",
    )
}

fn kind_is_function_literal(k: &String) -> (r: bool)
    ensures
        r == is_function_literal_kind(k@),
{
    str_eq(k.as_str(), "function") || str_eq(k.as_str(), "function_expression") || str_eq(
        k.as_str(),
        "arrow_function",
    )
}

fn kind_is_class(k: &String) -> (r: bool)
    ensures
        r == is_class_kind(k@),
{
    str_eq(k.as_str(), "class_declaration") || str_eq(k.as_str(), "class")
}

/// The name token of `n`: the child under field "name", provided its text
/// is non-empty. A missing name or an empty name yields no symbol.
pub open spec fn name_token(n: AstNode) -> Option<AstNode> {
    match child_by_field(n, "name"@) {
        Some(nm) => if nm.text@.len() > 0 {
            Some(nm)
        } else {
            None
        },
        None => None,
    }
}

/// True when `n` is a variable binding whose initializer is a function or
/// arrow literal.
pub open spec fn is_function_binding(n: AstNode) -> bool {
    match child_by_field(n, "value"@) {
        Some(v) => is_function_literal_kind(v.kind@),
        None => false,
    }
}

/// The kind recorded for a method: `Method` with the innermost enclosing
/// class's name when there is one, plain `Function` otherwise.
pub open spec fn method_kind(ctx: Option<Seq<char>>) -> SymbolKindV {
    match ctx {
        Some(c) => SymbolKindV::Method { class_name: c },
        None => SymbolKindV::Function,
    }
}

/// The definition symbols that node `n` itself contributes (class
/// declarations aside, which `defs_of` handles so that they can switch the
/// context for their subtree).
pub open spec fn def_at(n: AstNode, ctx: Option<Seq<char>>, file: Seq<char>) -> Seq<SymbolV> {
    if is_function_kind(n.kind@) {
        match name_token(n) {
            Some(nm) => seq![sym_v(nm.text@, SymbolKindV::Function, file, nm.row, nm.column)],
            None => Seq::empty(),
        }
    } else if n.kind@ == "method_definition"@ {
        match name_token(n) {
            Some(nm) => seq![sym_v(nm.text@, method_kind(ctx), file, nm.row, nm.column)],
            None => Seq::empty(),
        }
    } else if n.kind@ == "variable_declarator"@ && is_function_binding(n) {
        match name_token(n) {
            Some(nm) => seq![sym_v(nm.text@, SymbolKindV::Function, file, nm.row, nm.column)],
            None => Seq::empty(),
        }
    } else {
        Seq::empty()
    }
}

/// The definitions found in a depth-first pre-order walk of `n`, with `ctx`
/// the name of the innermost enclosing class, if any. A named class emits
/// its own symbol and replaces the context for its whole subtree.
pub open spec fn defs_of(n: AstNode, ctx: Option<Seq<char>>, file: Seq<char>) -> Seq<SymbolV>
    decreases n, 1nat, 0nat,
{
    let cls = if is_class_kind(n.kind@) {
        name_token(n)
    } else {
        None
    };
    match cls {
        Some(nm) => seq![sym_v(nm.text@, SymbolKindV::Class, file, nm.row, nm.column)] + defs_from(
            n,
            0,
            Some(nm.text@),
            file,
        ),
        None => def_at(n, ctx, file) + defs_from(n, 0, ctx, file),
    }
}

/// The definitions found in the subtrees of `n`'s children from index `i`
/// on, all under context `ctx`.
pub open spec fn defs_from(n: AstNode, i: int, ctx: Option<Seq<char>>, file: Seq<char>) -> Seq<
    SymbolV,
>
    decreases n, 0nat, n.children@.len() - i,
{
    if 0 <= i < n.children@.len() {
        defs_of(n.children@[i], ctx, file) + defs_from(n, i + 1, ctx, file)
    } else {
        Seq::empty()
    }
}

/// The image of an optional enclosing-class name.
pub open spec fn class_ctx(o: Option<&String>) -> Option<Seq<char>> {
    match o {
        Some(c) => Some(c@),
        None => None,
    }
}

/// Walks `node` depth-first, pre-order, returning a symbol for every
/// definition shape; `current_class` is the name of the innermost enclosing
/// class, if any.
pub fn traverse_for_definitions(
    node: &AstNode,
    file_path: &str,
    current_class: Option<&String>,
) -> (definitions: Vec<Symbol>)
    ensures
        syms_view(definitions@) == defs_of(*node, class_ctx(current_class), file_path@),
    decreases *node, 1nat,
{
    let ghost ctx = class_ctx(current_class);
    let ghost f = file_path@;
    let mut definitions: Vec<Symbol> = Vec::new();
    assert(syms_view(definitions@) =~= Seq::<SymbolV>::empty());

    if kind_is_class(&node.kind) {
        if let Some(nm) = find_child_by_field(node, "name") {
            if !nm.text.as_str().is_empty() {
                assert(name_token(*node) == Some(*nm));
                let cls = nm.text.clone();
                let s = token_symbol(
                    nm.text.clone(),
                    SymbolKind::Class,
                    file_path,
                    nm.row,
                    nm.column,
                );
                let ghost sx = s;
                definitions.push(s);
                proof {
                    lemma_syms_view_push(Seq::empty(), sx);
                    assert(syms_view(definitions@) =~= seq![sx@]);
                }
                let ghost head = definitions@;
                let mut rest = traverse_children_for_definitions(node, file_path, Some(&cls));
                let ghost tail = rest@;
                definitions.append(&mut rest);
                proof {
                    lemma_syms_view_concat(head, tail);
                    assert(syms_view(definitions@) =~= seq![sx@] + defs_from(
                        *node,
                        0,
                        Some(nm.text@),
                        f,
                    ));
                    assert(defs_of(*node, ctx, f) == seq![sx@] + defs_from(
                        *node,
                        0,
                        Some(nm.text@),
                        f,
                    ));
                }
                return definitions;
            }
        }
    }
    // Every other shape: this node's own symbol, if any, then the children
    // with the context unchanged.

    if kind_is_function(&node.kind) {
        if let Some(nm) = find_child_by_field(node, "name") {
            if !nm.text.as_str().is_empty() {
                let s = token_symbol(
                    nm.text.clone(),
                    SymbolKind::Function,
                    file_path,
                    nm.row,
                    nm.column,
                );
                let ghost sx = s;
                definitions.push(s);
                proof {
                    lemma_syms_view_push(Seq::empty(), sx);
                }
            }
        }
    } else if str_eq(node.kind.as_str(), "method_definition") {
        if let Some(nm) = find_child_by_field(node, "name") {
            if !nm.text.as_str().is_empty() {
                let k = match current_class {
                    Some(c) => SymbolKind::Method { class_name: c.clone() },
                    None => SymbolKind::Function,
                };
                assert(k@ == method_kind(ctx));
                let s = token_symbol(nm.text.clone(), k, file_path, nm.row, nm.column);
                let ghost sx = s;
                definitions.push(s);
                proof {
                    lemma_syms_view_push(Seq::empty(), sx);
                }
            }
        }
    } else if str_eq(node.kind.as_str(), "variable_declarator") {
        if let Some(nm) = find_child_by_field(node, "name") {
            if let Some(v) = find_child_by_field(node, "value") {
                if kind_is_function_literal(&v.kind) && !nm.text.as_str().is_empty() {
                    let s = token_symbol(
                        nm.text.clone(),
                        SymbolKind::Function,
                        file_path,
                        nm.row,
                        nm.column,
                    );
                    let ghost sx = s;
                    definitions.push(s);
                    proof {
                        lemma_syms_view_push(Seq::empty(), sx);
                    }
                }
            }
        }
    }
    assert(syms_view(definitions@) =~= def_at(*node, ctx, f));
    let ghost head = definitions@;
    let mut rest = traverse_children_for_definitions(node, file_path, current_class);
    let ghost tail = rest@;
    definitions.append(&mut rest);
    proof {
        lemma_syms_view_concat(head, tail);
        assert(syms_view(definitions@) =~= def_at(*node, ctx, f) + defs_from(*node, 0, ctx, f));
        assert(defs_of(*node, ctx, f) == def_at(*node, ctx, f) + defs_from(*node, 0, ctx, f));
    }
    definitions
}

/// Walks every child subtree of `node` in order, context unchanged.
fn traverse_children_for_definitions(
    node: &AstNode,
    file_path: &str,
    current_class: Option<&String>,
) -> (out: Vec<Symbol>)
    ensures
        syms_view(out@) == defs_from(*node, 0, class_ctx(current_class), file_path@),
    decreases *node, 0nat,
{
    let ghost ctx = class_ctx(current_class);
    let ghost f = file_path@;
    let mut out: Vec<Symbol> = Vec::new();
    assert(syms_view(out@) =~= Seq::<SymbolV>::empty());
    assert(syms_view(out@) + defs_from(*node, 0, ctx, f) =~= defs_from(*node, 0, ctx, f));
    let ghost whole = *node;
    let mut i: usize = 0;
    while i < node.children.len()
        invariant
            i <= node.children@.len(),
            *node == whole,
            class_ctx(current_class) == ctx,
            file_path@ == f,
            syms_view(out@) + defs_from(*node, i as int, ctx, f) == defs_from(*node, 0, ctx, f),
        decreases node.children@.len() - i,
    {
        let ghost head = out@;
        let mut child = traverse_for_definitions(&node.children[i], file_path, current_class);
        let ghost tail = child@;
        out.append(&mut child);
        proof {
            lemma_syms_view_concat(head, tail);
            assert(defs_from(*node, i as int, ctx, f) == defs_of(node.children@[i as int], ctx, f)
                + defs_from(*node, i + 1, ctx, f));
            assert((syms_view(head) + syms_view(tail)) + defs_from(*node, i + 1, ctx, f)
                =~= syms_view(head) + (syms_view(tail) + defs_from(*node, i + 1, ctx, f)));
            assert(syms_view(out@) + defs_from(*node, i + 1, ctx, f) == defs_from(
                *node,
                0,
                ctx,
                f,
            ));
        }
        i = i + 1;
    }
    proof {
        assert(defs_from(*node, i as int, ctx, f) == Seq::<SymbolV>::empty());
        assert(syms_view(out@) + Seq::<SymbolV>::empty() =~= syms_view(out@));
    }
    out
}

/// Extracts every definition in the tree rooted at `root`, in the order of
/// a depth-first pre-order walk.
pub fn extract_definitions(root: &AstNode, file_path: &str) -> (definitions: Vec<Symbol>)
    ensures
        syms_view(definitions@) == defs_of(*root, None, file_path@),
{
    traverse_for_definitions(root, file_path, None)
}

} // verus!
