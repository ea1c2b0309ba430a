use vstd::prelude::*;

verus! {

/// One line of a document's text.
pub struct Row {
    pub line: String,
}

/// The texts of documents, line by line, keyed by document identity.
pub struct DocumentRecord {
    pub documents: Vec<(String, Vec<Row>)>,
}

} // verus!
