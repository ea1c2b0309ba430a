use vstd::prelude::*;
use crate::analyzer::{AnalysisError, SymbolParser, all_occur, analyzable, symbols_of};
use crate::keyed::{find_key, key_map, remove_key, unique_keys, upsert};
use crate::symbols::{SymbolBook, SymbolBookModel};

verus! {

/// The store as plain values: the text and the symbol table of each document.
pub struct StoreModel {
    pub texts: Map<Seq<char>, Seq<char>>,
    pub tables: Map<Seq<char>, SymbolBookModel>,
}

/// The symbol tables of the open documents.
pub struct SymbolShelve {
    pub documents: Vec<(String, SymbolBook)>,
}

/// The open documents: their texts, their symbol tables, and the document
/// being changed, if any.
pub struct DocumentLibrary {
    pub raw_documents: Vec<(String, String)>,
    pub shelve: SymbolShelve,
    pub busy_document: Option<String>,
}

/// Why a change of the store was refused.
#[derive(Debug, Clone, Copy, PartialEq, Eq, Structural)]
pub enum StoreError {
    /// The document is not open.
    NotOpen,
}

pub open spec fn text_map(s: Seq<(String, String)>) -> Map<Seq<char>, Seq<char>> {
    key_map(s).map_values(|t: String| t@)
}

pub open spec fn table_map(s: Seq<(String, SymbolBook)>) -> Map<Seq<char>, SymbolBookModel> {
    key_map(s).map_values(|b: SymbolBook| b@)
}

/// The table that an analysis gives, if it succeeded.
pub open spec fn analysis_table(a: Result<SymbolBook, AnalysisError>) -> Option<SymbolBookModel> {
    match a {
        Ok(b) => Some(b@),
        Err(_) => None,
    }
}

/// The store after `id` was given `text`, and, where the analysis succeeded,
/// `table`; otherwise the previous table stays.
pub open spec fn committed(
    m: StoreModel,
    id: Seq<char>,
    text: Seq<char>,
    table: Option<SymbolBookModel>,
) -> StoreModel {
    StoreModel {
        texts: m.texts.insert(id, text),
        tables: match table {
            Some(b) => m.tables.insert(id, b),
            None => m.tables,
        },
    }
}

/// The store after `id` was closed.
pub open spec fn closed(m: StoreModel, id: Seq<char>) -> StoreModel {
    StoreModel { texts: m.texts.remove(id), tables: m.tables.remove(id) }
}

/// Every table belongs to an open document.
pub open spec fn model_wf(m: StoreModel) -> bool {
    m.tables.dom().subset_of(m.texts.dom())
}

/// The symbols of `b` all stand in `text` at their positions.
pub open spec fn table_sound(text: Seq<char>, b: SymbolBookModel) -> bool {
    &&& all_occur(text, b.functions)
    &&& all_occur(text, b.local_vars)
    &&& all_occur(text, b.global_vars)
}

impl View for DocumentLibrary {
    type V = StoreModel;

    open spec fn view(&self) -> StoreModel {
        StoreModel {
            texts: text_map(self.raw_documents@),
            tables: table_map(self.shelve.documents@),
        }
    }
}

impl DocumentLibrary {
    /// No document is busy, keys are unique, and every table has its document.
    pub open spec fn wf(&self) -> bool {
        &&& unique_keys(self.raw_documents@)
        &&& unique_keys(self.shelve.documents@)
        &&& model_wf(self@)
        &&& self.busy_document is None
    }

    /// A store with no document.
    pub fn new() -> (r: DocumentLibrary)
        ensures
            r.wf(),
            r@.texts == Map::<Seq<char>, Seq<char>>::empty(),
            r@.tables == Map::<Seq<char>, SymbolBookModel>::empty(),
    {
        let r = DocumentLibrary {
            raw_documents: Vec::new(),
            shelve: SymbolShelve { documents: Vec::new() },
            busy_document: None,
        };
        assert(r@.texts =~= Map::<Seq<char>, Seq<char>>::empty());
        assert(r@.tables =~= Map::<Seq<char>, SymbolBookModel>::empty());
        r
    }

    /// Stores `text` as the content of `id` and, where `analysis` succeeded,
    /// its table as the table of `id`; otherwise the previous table stays.
    pub fn commit(&mut self, id: String, text: String, analysis: Result<SymbolBook, AnalysisError>) -> (r:
        Result<(), AnalysisError>)
        requires
            old(self).wf(),
        ensures
            final(self).wf(),
            final(self)@ == committed(old(self)@, id@, text@, analysis_table(analysis)),
            r is Ok <==> analysis is Ok,
            r matches Err(e) ==> analysis == Err::<SymbolBook, AnalysisError>(e),
    {
        let ghost m0 = self@;
        self.busy_document = Some(id.clone());
        let ghost table = analysis_table(analysis);
        let r = match analysis {
            Ok(book) => {
                upsert(&mut self.shelve.documents, id.clone(), book);
                Ok(())
            },
            Err(e) => Err(e),
        };
        upsert(&mut self.raw_documents, id, text);
        self.busy_document = None;
        proof {
            let m1 = committed(m0, id@, text@, table);
            assert(self@.texts =~= m1.texts);
            assert(self@.tables =~= m1.tables);
        }
        r
    }

    /// Opens `id` with `text`, or overwrites it where it is open, and indexes it.
    /// The text is stored either way; `Err` says that indexing failed and the
    /// previous table of `id`, if any, was kept.
    pub fn open(&mut self, id: String, text: String) -> (r: Result<(), AnalysisError>)
        requires
            old(self).wf(),
        ensures
            final(self).wf(),
            r is Err <==> !analyzable(text@),
            r is Err ==> final(self)@ == committed(old(self)@, id@, text@, None),
            r is Ok ==> final(self)@ == committed(old(self)@, id@, text@, Some(symbols_of(text@))),
            r is Ok ==> table_sound(text@, symbols_of(text@)),
    {
        let analysis = SymbolParser::parse(text.as_str());
        self.commit(id, text, analysis)
    }

    /// Replaces the text of the open document `id` and indexes it again.
    /// `Ok(Err(_))` says that indexing failed and the previous table was kept.
    pub fn replace(&mut self, id: String, text: String) -> (r: Result<Result<(), AnalysisError>, StoreError>)
        requires
            old(self).wf(),
        ensures
            final(self).wf(),
            r is Err <==> !old(self)@.texts.contains_key(id@),
            r is Err ==> final(self)@ == old(self)@,
            r matches Ok(a) ==> {
                &&& a is Err <==> !analyzable(text@)
                &&& a is Err ==> final(self)@ == committed(old(self)@, id@, text@, None)
                &&& a is Ok ==> final(self)@ == committed(old(self)@, id@, text@, Some(symbols_of(text@)))
                &&& a is Ok ==> table_sound(text@, symbols_of(text@))
            },
    {
        match find_key(&self.raw_documents, &id) {
            None => Err(StoreError::NotOpen),
            Some(_) => Ok(self.open(id, text)),
        }
    }

    /// Closes `id`: its text and its table are gone. Nothing happens where it is not open.
    pub fn close(&mut self, id: &String)
        requires
            old(self).wf(),
        ensures
            final(self).wf(),
            final(self)@ == closed(old(self)@, id@),
    {
        let ghost m0 = self@;
        self.busy_document = Some(id.clone());
        remove_key(&mut self.shelve.documents, id);
        remove_key(&mut self.raw_documents, id);
        self.busy_document = None;
        proof {
            assert(self@.texts =~= closed(m0, id@).texts);
            assert(self@.tables =~= closed(m0, id@).tables);
        }
    }

    /// The current text of `id`.
    pub fn snapshot(&self, id: &String) -> (r: Option<String>)
        requires
            self.wf(),
        ensures
            match r {
                Some(t) => self@.texts.contains_key(id@) && t@ == self@.texts[id@],
                None => !self@.texts.contains_key(id@),
            },
    {
        match find_key(&self.raw_documents, id) {
            Some(i) => Some(self.raw_documents[i].1.clone()),
            None => None,
        }
    }

    /// The symbol table of `id`.
    pub fn table(&self, id: &String) -> (r: Option<&SymbolBook>)
        requires
            self.wf(),
        ensures
            match r {
                Some(b) => self@.tables.contains_key(id@) && b@ == self@.tables[id@],
                None => !self@.tables.contains_key(id@),
            },
    {
        match find_key(&self.shelve.documents, id) {
            Some(i) => Some(&self.shelve.documents[i].1),
            None => None,
        }
    }
}

} // verus!
