use vstd::prelude::*;
use vstd::string::*;
use crate::documentlibrary::{DocumentLibrary, StoreModel};
use crate::symbols::{Position, Symbol, SymbolBookModel, SymbolKind, SymbolModel, symbols_view};

verus! {

/// A span of a document from `start` to `end`.
#[derive(Debug, Clone, Copy, PartialEq, Eq, Structural)]
pub struct Range {
    pub start: Position,
    pub end: Position,
}

/// A span in a named document.
#[derive(Debug)]
pub struct Location {
    pub uri: String,
    pub range: Range,
}

/// Why a query got no answer.
#[derive(Debug, Clone, Copy, PartialEq, Eq, Structural)]
pub enum QueryError {
    /// The document is not open.
    UnknownDocument,
}

/// The first index from `i` on whose symbol stands exactly at `pos`.
pub open spec fn first_from(s: Seq<SymbolModel>, pos: Position, i: int) -> Option<int>
    decreases s.len() - i,
{
    if i < 0 || i >= s.len() {
        None
    } else if s[i].position == pos {
        Some(i)
    } else {
        first_from(s, pos, i + 1)
    }
}

pub open spec fn first_at(s: Seq<SymbolModel>, pos: Position) -> Option<SymbolModel> {
    match first_from(s, pos, 0) {
        Some(i) => Some(s[i]),
        None => None,
    }
}

/// The symbol at `pos`: functions first, then local, then global variables.
pub open spec fn lookup(b: SymbolBookModel, pos: Position) -> Option<(SymbolKind, SymbolModel)> {
    match first_at(b.functions, pos) {
        Some(s) => Some((SymbolKind::Function, s)),
        None => match first_at(b.local_vars, pos) {
            Some(s) => Some((SymbolKind::LocalVariable, s)),
            None => match first_at(b.global_vars, pos) {
                Some(s) => Some((SymbolKind::GlobalVariable, s)),
                None => None,
            },
        },
    }
}

pub open spec fn kind_label(k: SymbolKind) -> Seq<char> {
    match k {
        SymbolKind::Function => seq!['f', 'u', 'n', 'c', 't', 'i', 'o', 'n', ' '],
        SymbolKind::LocalVariable => seq!['l', 'o', 'c', 'a', 'l', ' ', 'v', 'a', 'r', 'i', 'a', 'b', 'l', 'e', ' '],
        SymbolKind::GlobalVariable => seq!['g', 'l', 'o', 'b', 'a', 'l', ' ', 'v', 'a', 'r', 'i', 'a', 'b', 'l', 'e', ' '],
    }
}

/// The symbol of document `id` at `pos`, if the document is open; a document
/// that was never indexed has none.
pub open spec fn symbol_at(m: StoreModel, id: Seq<char>, pos: Position) -> Result<Option<(SymbolKind, SymbolModel)>, QueryError> {
    if !m.texts.contains_key(id) {
        Err(QueryError::UnknownDocument)
    } else if !m.tables.contains_key(id) {
        Ok(None)
    } else {
        Ok(lookup(m.tables[id], pos))
    }
}

/// The hover text of document `id` at `pos`: the kind and the name of the symbol there.
pub open spec fn hover_spec(m: StoreModel, id: Seq<char>, pos: Position) -> Result<Option<Seq<char>>, QueryError> {
    match symbol_at(m, id, pos) {
        Err(e) => Err(e),
        Ok(None) => Ok(None),
        Ok(Some((k, s))) => Ok(Some(kind_label(k) + s.name)),
    }
}

/// Where the symbol of document `id` at `pos` is declared.
pub open spec fn definition_spec(m: StoreModel, id: Seq<char>, pos: Position) -> Result<Option<Range>, QueryError> {
    match symbol_at(m, id, pos) {
        Err(e) => Err(e),
        Ok(None) => Ok(None),
        Ok(Some((k, s))) => Ok(Some(Range { start: s.position, end: s.position })),
    }
}

fn first_index(v: &Vec<Symbol>, pos: Position) -> (r: Option<usize>)
    ensures
        match r {
            Some(i) => i < v.len() && first_from(symbols_view(v@), pos, 0) == Some(i as int),
            None => first_from(symbols_view(v@), pos, 0) is None,
        },
{
    let ghost s = symbols_view(v@);
    let mut i: usize = 0;
    while i < v.len()
        invariant
            i <= v.len(),
            s == symbols_view(v@),
            first_from(s, pos, 0) == first_from(s, pos, i as int),
        decreases v.len() - i,
    {
        if v[i].position == pos {
            return Some(i);
        }
        i = i + 1;
    }
    None
}

fn find_symbol<'a>(lib: &'a DocumentLibrary, id: &String, pos: Position) -> (r: Result<Option<(SymbolKind, &'a Symbol)>, QueryError>)
    requires
        lib.wf(),
    ensures
        match r {
            Err(e) => symbol_at(lib@, id@, pos) == Err::<Option<(SymbolKind, SymbolModel)>, QueryError>(e),
            Ok(None) => symbol_at(lib@, id@, pos) == Ok::<Option<(SymbolKind, SymbolModel)>, QueryError>(None),
            Ok(Some((k, s))) => symbol_at(lib@, id@, pos) == Ok::<Option<(SymbolKind, SymbolModel)>, QueryError>(Some((k, s@))),
        },
{
    if lib.snapshot(id).is_none() {
        return Err(QueryError::UnknownDocument);
    }
    let book = match lib.table(id) {
        Some(b) => b,
        None => return Ok(None),
    };
    if let Some(i) = first_index(&book.functions, pos) {
        return Ok(Some((SymbolKind::Function, &book.functions[i])));
    }
    if let Some(i) = first_index(&book.local_vars, pos) {
        return Ok(Some((SymbolKind::LocalVariable, &book.local_vars[i])));
    }
    if let Some(i) = first_index(&book.global_vars, pos) {
        return Ok(Some((SymbolKind::GlobalVariable, &book.global_vars[i])));
    }
    Ok(None)
}

impl DocumentLibrary {
    /// The hover text at `pos` in `id`: "function foo", "local variable x" or
    /// "global variable x" for the symbol declared exactly there.
    pub fn hover(&self, id: &String, pos: Position) -> (r: Result<Option<String>, QueryError>)
        requires
            self.wf(),
        ensures
            match r {
                Err(e) => hover_spec(self@, id@, pos) == Err::<Option<Seq<char>>, QueryError>(e),
                Ok(None) => hover_spec(self@, id@, pos) == Ok::<Option<Seq<char>>, QueryError>(None),
                Ok(Some(t)) => hover_spec(self@, id@, pos) == Ok::<Option<Seq<char>>, QueryError>(Some(t@)),
            },
    {
        proof {
            reveal_strlit("function ");
            reveal_strlit("local variable ");
            reveal_strlit("global variable ");
        }
        match find_symbol(self, id, pos) {
            Err(e) => Err(e),
            Ok(None) => Ok(None),
            Ok(Some((k, s))) => {
                let mut t = match k {
                    SymbolKind::Function => String::from_str("function "),
                    SymbolKind::LocalVariable => String::from_str("local variable "),
                    SymbolKind::GlobalVariable => String::from_str("global variable "),
                };
                assert(t@ =~= kind_label(k));
                t.append(s.name.as_str());
                Ok(Some(t))
            },
        }
    }

    /// Where the symbol at `pos` in `id` is declared: an empty range at its name.
    pub fn goto_definition(&self, id: &String, pos: Position) -> (r: Result<Option<Location>, QueryError>)
        requires
            self.wf(),
        ensures
            match r {
                Err(e) => definition_spec(self@, id@, pos) == Err::<Option<Range>, QueryError>(e),
                Ok(None) => definition_spec(self@, id@, pos) == Ok::<Option<Range>, QueryError>(None),
                Ok(Some(l)) => l.uri@ == id@ && definition_spec(self@, id@, pos) == Ok::<Option<Range>, QueryError>(Some(l.range)),
            },
    {
        match find_symbol(self, id, pos) {
            Err(e) => Err(e),
            Ok(None) => Ok(None),
            Ok(Some((_, s))) => Ok(Some(Location {
                uri: id.clone(),
                range: Range { start: s.position, end: s.position },
            })),
        }
    }
}

} // verus!
