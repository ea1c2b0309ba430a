use vstd::prelude::*;
use crate::analyzer::{occurs_in, symbols_of};
use crate::documentlibrary::{StoreModel, closed, table_sound};
use crate::protocol::{
    ExtractError, classify_request, definition_method, hover_method, position_params_of,
};
use crate::queries::{QueryError, definition_spec, first_from, hover_spec, lookup, symbol_at};
use crate::server::reindexed;
use crate::symbols::{Position, SymbolBookModel, SymbolKind, SymbolModel};

verus! {

proof fn lemma_first_from_in(s: Seq<SymbolModel>, pos: Position, i: int)
    requires
        0 <= i,
    ensures
        first_from(s, pos, i) matches Some(j) ==> i <= j < s.len() && s[j].position == pos,
    decreases s.len() - i,
{
    if i < s.len() && s[i].position != pos {
        lemma_first_from_in(s, pos, i + 1);
    }
}

proof fn lemma_lookup_sound(text: Seq<char>, b: SymbolBookModel, pos: Position)
    requires
        table_sound(text, b),
    ensures
        lookup(b, pos) matches Some((k, s)) ==> occurs_in(text, s) && s.position == pos,
{
    lemma_first_from_in(b.functions, pos, 0);
    lemma_first_from_in(b.local_vars, pos, 0);
    lemma_first_from_in(b.global_vars, pos, 0);
}

/// After a change of `id` to `text` that was indexed, a query on `id` is
/// answered from the table of the new text alone, whatever the table before:
/// the symbol found stands in the new text at the queried position.
pub proof fn law_query_after_change(m0: StoreModel, m1: StoreModel, id: Seq<char>, text: Seq<char>, pos: Position)
    requires
        reindexed(m0, m1, id, text, false),
    ensures
        symbol_at(m1, id, pos) == Ok::<Option<(SymbolKind, SymbolModel)>, QueryError>(lookup(symbols_of(text), pos)),
        symbol_at(m1, id, pos) matches Ok(Some((k, s))) ==> occurs_in(text, s) && s.position == pos,
{
    assert(m1.texts.contains_key(id) && m1.tables.contains_key(id) && m1.tables[id] == symbols_of(text));
    lemma_lookup_sound(text, symbols_of(text), pos);
}

/// Giving a document the same text a second time leaves the store, and so the
/// document's symbol table, as the first time left it.
pub proof fn law_change_idempotent(
    m0: StoreModel,
    m1: StoreModel,
    m2: StoreModel,
    id: Seq<char>,
    text: Seq<char>,
    kept1: bool,
    kept2: bool,
)
    requires
        reindexed(m0, m1, id, text, kept1),
        reindexed(m1, m2, id, text, kept2),
    ensures
        m2 == m1,
        m2.tables == m1.tables,
{
    assert(m1.texts.contains_key(id) && m1.texts[id] == text);
    assert(m2.texts =~= m1.texts);
    if !kept1 {
        assert(m1.tables.contains_key(id) && m1.tables[id] == symbols_of(text));
    }
    assert(m2.tables =~= m1.tables);
}

/// After `id` is closed, queries on it find no document, whatever it held before.
pub proof fn law_closed_document(m: StoreModel, id: Seq<char>, pos: Position)
    ensures
        symbol_at(closed(m, id), id, pos) == Err::<Option<(SymbolKind, SymbolModel)>, QueryError>(QueryError::UnknownDocument),
        hover_spec(closed(m, id), id, pos) == Err::<Option<Seq<char>>, QueryError>(QueryError::UnknownDocument),
        definition_spec(closed(m, id), id, pos) == Err::<Option<crate::queries::Range>, QueryError>(QueryError::UnknownDocument),
{
}

/// Every request method and payload is classified as exactly one of: a typed
/// request, an unsupported method, or a payload that fails its schema.
pub proof fn law_classifier_total(method: Seq<char>, payload: Seq<char>)
    ensures
        classify_request(method, position_params_of(payload)) == Err::<crate::protocol::RequestModel, ExtractError>(ExtractError::MethodMismatch)
            <==> method != hover_method() && method != definition_method(),
        classify_request(method, position_params_of(payload)) == Err::<crate::protocol::RequestModel, ExtractError>(ExtractError::DecodeError)
            <==> (method == hover_method() || method == definition_method()) && position_params_of(payload) is None,
        classify_request(method, position_params_of(payload)) is Ok
            <==> (method == hover_method() || method == definition_method()) && position_params_of(payload) is Some,
{
    assert(hover_method() != definition_method()) by {
        assert(hover_method().len() != definition_method().len());
    }
}

/// A change of an open document whose text cannot be indexed keeps the
/// previous table: queries on the document answer as they did before.
pub proof fn law_stale_table_kept(m0: StoreModel, m1: StoreModel, id: Seq<char>, text: Seq<char>, pos: Position)
    requires
        m0.texts.contains_key(id),
        reindexed(m0, m1, id, text, true),
    ensures
        m1.tables == m0.tables,
        symbol_at(m1, id, pos) == symbol_at(m0, id, pos),
        hover_spec(m1, id, pos) == hover_spec(m0, id, pos),
        definition_spec(m1, id, pos) == definition_spec(m0, id, pos),
{
}

} // verus!
