use vstd::prelude::*;

verus! {

/// Where a symbol's name token starts: the file identifier, the 1-based
/// line, and the 0-based column.
#[derive(Debug, PartialEq, Eq)]
pub struct Location {
    pub file: String,
    pub line: usize,
    pub column: usize,
}

/// Mathematical image of a `Location`.
pub struct LocationV {
    pub file: Seq<char>,
    pub line: int,
    pub column: int,
}

impl View for Location {
    type V = LocationV;

    open spec fn view(&self) -> LocationV {
        LocationV { file: self.file@, line: self.line as int, column: self.column as int }
    }
}

/// What a symbol is: a free function, a method together with the name of
/// its innermost enclosing class, or a class.
#[derive(Debug, PartialEq, Eq)]
pub enum SymbolKind {
    Function,
    Method { class_name: String },
    Class,
}

/// Mathematical image of a `SymbolKind`.
pub enum SymbolKindV {
    Function,
    Method { class_name: Seq<char> },
    Class,
}

impl View for SymbolKind {
    type V = SymbolKindV;

    open spec fn view(&self) -> SymbolKindV {
        match self {
            SymbolKind::Function => SymbolKindV::Function,
            SymbolKind::Method { class_name } => (SymbolKindV::Method { class_name: class_name@ }),
            SymbolKind::Class => SymbolKindV::Class,
        }
    }
}

/// A named declaration or a reference to a name, located at its name token.
#[derive(Debug, PartialEq, Eq)]
pub struct Symbol {
    pub name: String,
    pub kind: SymbolKind,
    pub location: Location,
}

/// Mathematical image of a `Symbol`.
pub struct SymbolV {
    pub name: Seq<char>,
    pub kind: SymbolKindV,
    pub location: LocationV,
}

impl View for Symbol {
    type V = SymbolV;

    open spec fn view(&self) -> SymbolV {
        SymbolV { name: self.name@, kind: self.kind@, location: self.location@ }
    }
}

impl Symbol {
    pub fn new(name: String, kind: SymbolKind, location: Location) -> (r: Symbol)
        ensures
            r@ == (SymbolV { name: name@, kind: kind@, location: location@ }),
    {
        Symbol { name, kind, location }
    }
}

/// The image of a sequence of symbols.
pub open spec fn syms_view(v: Seq<Symbol>) -> Seq<SymbolV> {
    v.map_values(|s: Symbol| s@)
}

pub proof fn lemma_syms_view_push(s: Seq<Symbol>, x: Symbol)
    ensures
        syms_view(s.push(x)) == syms_view(s).push(x@),
{
    assert(syms_view(s.push(x)) =~= syms_view(s).push(x@));
}

pub proof fn lemma_syms_view_concat(a: Seq<Symbol>, b: Seq<Symbol>)
    ensures
        syms_view(a + b) == syms_view(a) + syms_view(b),
{
    assert(syms_view(a + b) =~= syms_view(a) + syms_view(b));
}

/// The symbol recorded for a name token with text `name` that starts at the
/// 0-based position `row`/`column`: its line is the 1-based row.
pub open spec fn sym_v(
    name: Seq<char>,
    kind: SymbolKindV,
    file: Seq<char>,
    row: usize,
    column: usize,
) -> SymbolV {
    SymbolV {
        name,
        kind,
        location: LocationV { file, line: row.saturating_add(1) as int, column: column as int },
    }
}

/// Builds the symbol for a name token, turning the 0-based row into the
/// 1-based line. A row counts line breaks in the source text, so on any
/// input that fits in memory the line is exactly the row plus one.
pub fn token_symbol(name: String, kind: SymbolKind, file: &str, row: usize, column: usize) -> (r:
    Symbol)
    ensures
        r@ == sym_v(name@, kind@, file@, row, column),
{
    Symbol::new(
        name,
        kind,
        Location { file: file.to_owned(), line: row.saturating_add(1), column },
    )
}

/// Everything extracted from one source file: the definitions and the
/// usages, each in the order of discovery.
#[derive(Debug, PartialEq, Eq)]
pub struct ParsedFile {
    pub path: String,
    pub definitions: Vec<Symbol>,
    pub usages: Vec<Symbol>,
}

/// Mathematical image of a `ParsedFile`.
pub struct ParsedFileV {
    pub path: Seq<char>,
    pub definitions: Seq<SymbolV>,
    pub usages: Seq<SymbolV>,
}

impl View for ParsedFile {
    type V = ParsedFileV;

    open spec fn view(&self) -> ParsedFileV {
        ParsedFileV {
            path: self.path@,
            definitions: syms_view(self.definitions@),
            usages: syms_view(self.usages@),
        }
    }
}

} // verus!
