use vstd::prelude::*;

verus! {

/// A zero-based position in a document: line, then character within the line.
#[derive(Debug, Clone, Copy, PartialEq, Eq, Structural)]
pub struct Position {
    pub line: u32,
    pub character: u32,
}

/// The three kinds of named entity that the analyzer records.
#[derive(Debug, Clone, Copy, PartialEq, Eq, Structural)]
pub enum SymbolKind {
    Function,
    LocalVariable,
    GlobalVariable,
}

/// A named entity of a document, at the position of its name.
#[derive(Debug)]
pub struct Symbol {
    pub name: String,
    pub position: Position,
}

/// What a symbol is, as plain values.
pub struct SymbolModel {
    pub name: Seq<char>,
    pub position: Position,
}

impl View for Symbol {
    type V = SymbolModel;

    open spec fn view(&self) -> SymbolModel {
        SymbolModel { name: self.name@, position: self.position }
    }
}

impl Clone for Symbol {
    fn clone(&self) -> (r: Symbol)
        ensures
            r@ == self@,
    {
        Symbol { name: self.name.clone(), position: self.position }
    }
}

/// The symbol table of one document: three collections in discovery order.
#[derive(Debug)]
pub struct SymbolBook {
    pub functions: Vec<Symbol>,
    pub local_vars: Vec<Symbol>,
    pub global_vars: Vec<Symbol>,
}

/// A symbol table as plain values.
pub struct SymbolBookModel {
    pub functions: Seq<SymbolModel>,
    pub local_vars: Seq<SymbolModel>,
    pub global_vars: Seq<SymbolModel>,
}

pub open spec fn symbols_view(v: Seq<Symbol>) -> Seq<SymbolModel> {
    v.map_values(|s: Symbol| s@)
}

impl View for SymbolBook {
    type V = SymbolBookModel;

    open spec fn view(&self) -> SymbolBookModel {
        SymbolBookModel {
            functions: symbols_view(self.functions@),
            local_vars: symbols_view(self.local_vars@),
            global_vars: symbols_view(self.global_vars@),
        }
    }
}

pub fn clone_symbols(v: &Vec<Symbol>) -> (r: Vec<Symbol>)
    ensures
        symbols_view(r@) == symbols_view(v@),
{
    let mut r: Vec<Symbol> = Vec::new();
    let mut i: usize = 0;
    while i < v.len()
        invariant
            i <= v.len(),
            symbols_view(r@) == symbols_view(v@).take(i as int),
        decreases v.len() - i,
    {
        r.push(v[i].clone());
        assert(symbols_view(v@).take(i + 1) =~= symbols_view(v@).take(i as int).push(v@[i as int]@));
        assert(symbols_view(r@) =~= symbols_view(v@).take(i + 1));
        i = i + 1;
    }
    assert(symbols_view(v@).take(v.len() as int) =~= symbols_view(v@));
    r
}

impl SymbolBook {
    /// An empty table.
    pub fn new() -> (r: SymbolBook)
        ensures
            r@.functions.len() == 0,
            r@.local_vars.len() == 0,
            r@.global_vars.len() == 0,
    {
        SymbolBook { functions: Vec::new(), local_vars: Vec::new(), global_vars: Vec::new() }
    }

    pub fn copy(&self) -> (r: SymbolBook)
        ensures
            r@ == self@,
    {
        SymbolBook {
            functions: clone_symbols(&self.functions),
            local_vars: clone_symbols(&self.local_vars),
            global_vars: clone_symbols(&self.global_vars),
        }
    }
}

} // verus!
