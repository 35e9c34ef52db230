use vstd::prelude::*;

use crate::ast::{child_by_field, find_child_by_field, str_eq, AstNode};
use crate::symbols::{
    lemma_syms_view_concat, lemma_syms_view_push, sym_v, syms_view, token_symbol, Symbol,
    SymbolKind, SymbolKindV, SymbolV,
};

verus! {

/// The name a callee expression resolves to: a plain identifier's own text,
/// the property name of a member access, and the empty sequence for every
/// other shape (the caller drops empty names, so no usage is recorded).
pub open spec fn callee_name(callee: AstNode) -> Seq<char> {
    if callee.kind@ == "identifier"@ {
        callee.text@
    } else if callee.kind@ == "member_expression"@ {
        match child_by_field(callee, "property"@) {
            Some(p) => p.text@,
            None => Seq::empty(),
        }
    } else {
        Seq::empty()
    }
}

/// The usage symbols that node `n` itself contributes: one `Function` usage
/// for a call whose callee resolves to a non-empty name, one `Class` usage
/// for an instantiation whose constructor text is non-empty.
pub open spec fn use_at(n: AstNode, file: Seq<char>) -> Seq<SymbolV> {
    if n.kind@ == "call_expression"@ {
        match child_by_field(n, "function"@) {
            Some(callee) => if callee_name(callee).len() > 0 {
                seq![sym_v(callee_name(callee), SymbolKindV::Function, file, callee.row, callee.column)]
            } else {
                Seq::empty()
            },
            None => Seq::empty(),
        }
    } else if n.kind@ == "new_expression"@ {
        match child_by_field(n, "constructor"@) {
            Some(c) => if c.text@.len() > 0 {
                seq![sym_v(c.text@, SymbolKindV::Class, file, c.row, c.column)]
            } else {
                Seq::empty()
            },
            None => Seq::empty(),
        }
    } else {
        Seq::empty()
    }
}

/// The usages found in a depth-first pre-order walk of `n`.
pub open spec fn uses_of(n: AstNode, file: Seq<char>) -> Seq<SymbolV>
    decreases n, 1nat, 0nat,
{
    use_at(n, file) + uses_from(n, 0, file)
}

/// The usages found in the subtrees of `n`'s children from index `i` on.
pub open spec fn uses_from(n: AstNode, i: int, file: Seq<char>) -> Seq<SymbolV>
    decreases n, 0nat, n.children@.len() - i,
{
    if 0 <= i < n.children@.len() {
        uses_of(n.children@[i], file) + uses_from(n, i + 1, file)
    } else {
        Seq::empty()
    }
}

/// Resolves the name a callee expression refers to: a plain identifier
/// verbatim, a member access by its property name alone, anything else to
/// the empty string.
pub fn resolve_callee_name(node: &AstNode) -> (r: String)
    ensures
        r@ == callee_name(*node),
{
    if str_eq(node.kind.as_str(), "identifier") {
        node.text.clone()
    } else if str_eq(node.kind.as_str(), "member_expression") {
        match find_child_by_field(node, "property") {
            Some(p) => p.text.clone(),
            None => String::new(),
        }
    } else {
        String::new()
    }
}

/// Walks `node` depth-first, pre-order, returning a symbol for every call
/// and instantiation whose name resolves.
pub fn traverse_for_usages(node: &AstNode, file_path: &str) -> (usages: Vec<Symbol>)
    ensures
        syms_view(usages@) == uses_of(*node, file_path@),
    decreases *node, 1nat,
{
    let ghost f = file_path@;
    let mut usages: Vec<Symbol> = Vec::new();
    assert(syms_view(usages@) =~= Seq::<SymbolV>::empty());

    if str_eq(node.kind.as_str(), "call_expression") {
        if let Some(callee) = find_child_by_field(node, "function") {
            let name = resolve_callee_name(callee);
            if !name.as_str().is_empty() {
                let s = token_symbol(name, SymbolKind::Function, file_path, callee.row, callee.column);
                let ghost sx = s;
                usages.push(s);
                proof {
                    lemma_syms_view_push(Seq::empty(), sx);
                }
            }
        }
    } else if str_eq(node.kind.as_str(), "new_expression") {
        if let Some(c) = find_child_by_field(node, "constructor") {
            if !c.text.as_str().is_empty() {
                let s = token_symbol(c.text.clone(), SymbolKind::Class, file_path, c.row, c.column);
                let ghost sx = s;
                usages.push(s);
                proof {
                    lemma_syms_view_push(Seq::empty(), sx);
                }
            }
        }
    }
    assert(syms_view(usages@) =~= use_at(*node, f));
    let ghost head = usages@;
    let mut rest = traverse_children_for_usages(node, file_path);
    let ghost tail = rest@;
    usages.append(&mut rest);
    proof {
        lemma_syms_view_concat(head, tail);
        assert(syms_view(usages@) =~= use_at(*node, f) + uses_from(*node, 0, f));
    }
    usages
}

/// Walks every child subtree of `node` in order.
fn traverse_children_for_usages(node: &AstNode, file_path: &str) -> (out: Vec<Symbol>)
    ensures
        syms_view(out@) == uses_from(*node, 0, file_path@),
    decreases *node, 0nat,
{
    let ghost f = file_path@;
    let mut out: Vec<Symbol> = Vec::new();
    assert(syms_view(out@) =~= Seq::<SymbolV>::empty());
    assert(syms_view(out@) + uses_from(*node, 0, f) =~= uses_from(*node, 0, f));
    let ghost whole = *node;
    let mut i: usize = 0;
    while i < node.children.len()
        invariant
            i <= node.children@.len(),
            *node == whole,
            file_path@ == f,
            syms_view(out@) + uses_from(*node, i as int, f) == uses_from(*node, 0, f),
        decreases node.children@.len() - i,
    {
        let ghost head = out@;
        let mut child = traverse_for_usages(&node.children[i], file_path);
        let ghost tail = child@;
        out.append(&mut child);
        proof {
            lemma_syms_view_concat(head, tail);
            assert(uses_from(*node, i as int, f) == uses_of(node.children@[i as int], f)
                + uses_from(*node, i + 1, f));
            assert((syms_view(head) + syms_view(tail)) + uses_from(*node, i + 1, f) =~= syms_view(
                head,
            ) + (syms_view(tail) + uses_from(*node, i + 1, f)));
            assert(syms_view(out@) + uses_from(*node, i + 1, f) == uses_from(*node, 0, f));
        }
        i = i + 1;
    }
    proof {
        assert(uses_from(*node, i as int, f) == Seq::<SymbolV>::empty());
        assert(syms_view(out@) + Seq::<SymbolV>::empty() =~= syms_view(out@));
    }
    out
}

/// Extracts every usage in the tree rooted at `root`, in the order of a
/// depth-first pre-order walk.
pub fn extract_usages(root: &AstNode, file_path: &str) -> (usages: Vec<Symbol>)
    ensures
        syms_view(usages@) == uses_of(*root, file_path@),
{
    traverse_for_usages(root, file_path)
}

} // verus!
