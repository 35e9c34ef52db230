use vstd::prelude::*;

verus! {

/// One node of the syntax tree, held as plain values: the grammar's kind
/// tag, the 0-based position of the node's first character, the source text
/// the node spans, the grammar field the node occupies in its parent (if
/// any), and the child nodes in source order.
pub struct AstNode {
    pub kind: String,
    pub row: usize,
    pub column: usize,
    pub text: String,
    pub field: Option<String>,
    pub children: Vec<AstNode>,
}

/// True when `c` stands in its parent under the grammar field `f`.
pub open spec fn field_matches(c: AstNode, f: Seq<char>) -> bool {
    match c.field {
        Some(s) => s@ == f,
        None => false,
    }
}

/// The first node of `cs`, at index `i` or later, standing under field `f`.
pub open spec fn child_by_field_from(cs: Seq<AstNode>, f: Seq<char>, i: int) -> Option<AstNode>
    decreases cs.len() - i,
{
    if 0 <= i < cs.len() {
        if field_matches(cs[i], f) {
            Some(cs[i])
        } else {
            child_by_field_from(cs, f, i + 1)
        }
    } else {
        None
    }
}

/// The first child of `n` standing under the grammar field `f`.
pub open spec fn child_by_field(n: AstNode, f: Seq<char>) -> Option<AstNode> {
    child_by_field_from(n.children@, f, 0)
}

/// Compares two string slices by their character sequences.
pub(crate) fn str_eq(a: &str, b: &str) -> (r: bool)
    ensures
        r == (a@ == b@),
{
    let owned_a = a.to_owned();
    let owned_b = b.to_owned();
    owned_a == owned_b
}

/// Looks up the first child of `n` standing under the grammar field `f`.
pub fn find_child_by_field<'a>(n: &'a AstNode, f: &str) -> (r: Option<&'a AstNode>)
    ensures
        match r {
            Some(c) => child_by_field(*n, f@) == Some(*c),
            None => child_by_field(*n, f@) is None,
        },
{
    let mut i: usize = 0;
    while i < n.children.len()
        invariant
            i <= n.children@.len(),
            child_by_field(*n, f@) == child_by_field_from(n.children@, f@, i as int),
        decreases n.children@.len() - i,
    {
        let c = &n.children[i];
        let found = match &c.field {
            Some(s) => str_eq(s.as_str(), f),
            None => false,
        };
        if found {
            assert(field_matches(n.children@[i as int], f@));
            return Some(c);
        }
        assert(!field_matches(n.children@[i as int], f@));
        i = i + 1;
    }
    None
}

} // verus!
