use vstd::prelude::*;
use vstd::string::*;
use crate::symbols::{Position, Symbol, SymbolBook, SymbolBookModel, SymbolKind, SymbolModel, symbols_view};

verus! {

/// Why a text could not be indexed.
#[derive(Debug, Clone, Copy, PartialEq, Eq, Structural)]
pub enum AnalysisError {
    /// A closing brace without an opening one, or an opening one never closed.
    UnbalancedBraces,
    /// The text is too long for its positions to be written as `u32`.
    TooLong,
}

/// Line and character of the `i`-th character of `text`.
pub open spec fn pos_at(text: Seq<char>, i: int) -> (int, int)
    decreases i,
{
    if i <= 0 {
        (0, 0)
    } else {
        let p = pos_at(text, i - 1);
        if text[i - 1] == '\n' {
            (p.0 + 1, 0)
        } else {
            (p.0, p.1 + 1)
        }
    }
}

/// Brace depth before the `i`-th character.
pub open spec fn depth_at(text: Seq<char>, i: int) -> int
    decreases i,
{
    if i <= 0 {
        0
    } else if text[i - 1] == '{' {
        depth_at(text, i - 1) + 1
    } else if text[i - 1] == '}' {
        depth_at(text, i - 1) - 1
    } else {
        depth_at(text, i - 1)
    }
}

/// Every brace closes one opened before it, and all are closed at the end.
pub open spec fn balanced(text: Seq<char>) -> bool {
    &&& forall|i: int| 0 <= i <= text.len() ==> depth_at(text, i) >= 0
    &&& depth_at(text, text.len() as int) == 0
}

pub open spec fn is_ident_char(c: char) -> bool {
    ('a' <= c && c <= 'z') || ('A' <= c && c <= 'Z') || ('0' <= c && c <= '9') || c == '_'
}

/// `sym`'s name stands in `text` from offset `k`, and `k` is at `sym`'s position.
pub open spec fn occurs_at(text: Seq<char>, sym: SymbolModel, k: int) -> bool {
    &&& 0 <= k
    &&& k + sym.name.len() <= text.len()
    &&& sym.name.len() > 0
    &&& pos_at(text, k) == (sym.position.line as int, sym.position.character as int)
    &&& text.subrange(k, k + sym.name.len()) == sym.name
}

/// `sym`'s name stands in `text` at `sym`'s position.
pub open spec fn occurs_in(text: Seq<char>, sym: SymbolModel) -> bool {
    exists|k: int| occurs_at(text, sym, k)
}

pub open spec fn all_occur(text: Seq<char>, s: Seq<SymbolModel>) -> bool {
    forall|i: int| 0 <= i < s.len() ==> occurs_in(text, #[trigger] s[i])
}

/// What the analyzer accepts: balanced braces, and positions that fit in `u32`.
pub open spec fn analyzable(text: Seq<char>) -> bool {
    balanced(text) && text.len() < u32::MAX
}

proof fn lemma_pos_bounded(text: Seq<char>, i: int)
    requires
        0 <= i <= text.len(),
    ensures
        0 <= pos_at(text, i).0 <= i,
        0 <= pos_at(text, i).1 <= i,
    decreases i,
{
    if i > 0 {
        lemma_pos_bounded(text, i - 1);
    }
}

proof fn lemma_pos_same_line(text: Seq<char>, i: int, j: int)
    requires
        0 <= i <= j <= text.len(),
        forall|k: int| i <= k < j ==> text[k] != '\n',
    ensures
        pos_at(text, j) == (pos_at(text, i).0, pos_at(text, i).1 + (j - i)),
    decreases j - i,
{
    if j > i {
        lemma_pos_same_line(text, i, j - 1);
    }
}

fn chars_of(text: &str) -> (r: Vec<char>)
    ensures
        r@ == text@,
{
    let n = text.unicode_len();
    let mut r: Vec<char> = Vec::new();
    let mut i: usize = 0;
    while i < n
        invariant
            n == text@.len(),
            i <= n,
            r@ == text@.take(i as int),
        decreases n - i,
    {
        r.push(text.get_char(i));
        assert(r@ =~= text@.take(i + 1));
        i = i + 1;
    }
    assert(r@ =~= text@);
    r
}


pub open spec fn function_word() -> Seq<char> {
    seq!['f', 'u', 'n', 'c', 't', 'i', 'o', 'n', ' ']
}

pub open spec fn let_word() -> Seq<char> {
    seq!['l', 'e', 't', ' ']
}

pub open spec fn var_word() -> Seq<char> {
    seq!['v', 'a', 'r', ' ']
}

/// `w` stands in `text` from offset `i`.
pub open spec fn word_in(text: Seq<char>, i: int, w: Seq<char>) -> bool {
    0 <= i && i + w.len() <= text.len() && text.subrange(i, i + w.len()) == w
}

/// Where the name after a declaration keyword at `i` starts, and which keyword
/// it is (1 `function`, 2 `let`, 3 `var`); 0 where none starts at `i` on a word boundary.
pub open spec fn keyword_spec(text: Seq<char>, i: int) -> (int, u8) {
    if i > 0 && is_ident_char(text[i - 1]) {
        (i, 0)
    } else if word_in(text, i, function_word()) {
        (i + 9, 1)
    } else if word_in(text, i, let_word()) {
        (i + 4, 2)
    } else if word_in(text, i, var_word()) {
        (i + 4, 3)
    } else {
        (i, 0)
    }
}

/// The end of the run of identifier characters that starts at `j`.
pub open spec fn ident_end_spec(text: Seq<char>, j: int) -> int
    decreases text.len() - j,
{
    if j < 0 || j >= text.len() || !is_ident_char(text[j]) {
        j
    } else {
        ident_end_spec(text, j + 1)
    }
}

pub open spec fn kind_of(keyword: u8, depth: int) -> SymbolKind {
    if keyword == 1 {
        SymbolKind::Function
    } else if keyword == 2 && depth > 0 {
        SymbolKind::LocalVariable
    } else {
        SymbolKind::GlobalVariable
    }
}

/// The declaration that starts at offset `i`, if any: a keyword, one space, and
/// a non-empty name, which gives the symbol at the name's position.
pub open spec fn decl_at(text: Seq<char>, i: int) -> Option<(SymbolKind, SymbolModel)> {
    let (j, keyword) = keyword_spec(text, i);
    let e = ident_end_spec(text, j);
    if keyword == 0 || e <= j {
        None
    } else {
        let p = pos_at(text, j);
        Some((kind_of(keyword, depth_at(text, i)), SymbolModel {
            name: text.subrange(j, e),
            position: Position { line: p.0 as u32, character: p.1 as u32 },
        }))
    }
}

pub open spec fn with_decl(b: SymbolBookModel, d: Option<(SymbolKind, SymbolModel)>) -> SymbolBookModel {
    match d {
        Some((SymbolKind::Function, s)) => SymbolBookModel { functions: b.functions.push(s), ..b },
        Some((SymbolKind::LocalVariable, s)) => SymbolBookModel { local_vars: b.local_vars.push(s), ..b },
        Some((SymbolKind::GlobalVariable, s)) => SymbolBookModel { global_vars: b.global_vars.push(s), ..b },
        None => b,
    }
}

/// The symbol table of the declarations that start before offset `n`, in order.
pub open spec fn scan(text: Seq<char>, n: int) -> SymbolBookModel
    decreases n,
{
    if n <= 0 {
        SymbolBookModel { functions: Seq::empty(), local_vars: Seq::empty(), global_vars: Seq::empty() }
    } else {
        with_decl(scan(text, n - 1), decl_at(text, n - 1))
    }
}

/// The symbol table of `text`.
pub open spec fn symbols_of(text: Seq<char>) -> SymbolBookModel {
    scan(text, text.len() as int)
}

proof fn lemma_ident_end(text: Seq<char>, j: int, e: int)
    requires
        0 <= j <= e <= text.len(),
        forall|m: int| j <= m < e ==> is_ident_char(#[trigger] text[m]),
        e == text.len() || !is_ident_char(text[e]),
    ensures
        ident_end_spec(text, j) == e,
    decreases e - j,
{
    if j < e {
        lemma_ident_end(text, j + 1, e);
    }
}

/// Whether `kw` stands in `cs` from offset `i`.
fn word_at(cs: &Vec<char>, i: usize, kw: &str) -> (r: bool)
    requires
        i <= cs.len(),
    ensures
        r == (i + kw@.len() <= cs.len() && cs@.subrange(i as int, i + kw@.len()) == kw@),
{
    let k = kw.unicode_len();
    if k > cs.len() - i {
        return false;
    }
    let mut j: usize = 0;
    while j < k
        invariant
            k == kw@.len(),
            i + k <= cs.len(),
            j <= k,
            forall|m: int| 0 <= m < j ==> cs@[i + m] == kw@[m],
        decreases k - j,
    {
        if cs[i + j] != kw.get_char(j) {
            assert(cs@.subrange(i as int, i + k)[j as int] != kw@[j as int]);
            return false;
        }
        j = j + 1;
    }
    assert(cs@.subrange(i as int, i + k) =~= kw@);
    true
}

/// The end of the run of identifier characters that starts at `j`.
fn ident_end(cs: &Vec<char>, j: usize) -> (e: usize)
    requires
        j <= cs.len(),
    ensures
        j <= e <= cs.len(),
        forall|m: int| j <= m < e ==> is_ident_char(#[trigger] cs@[m]),
        e == cs.len() || !is_ident_char(cs@[e as int]),
{
    let mut e = j;
    while e < cs.len()
        invariant
            j <= e <= cs.len(),
            forall|m: int| j <= m < e ==> is_ident_char(#[trigger] cs@[m]),
        decreases cs.len() - e,
    {
        let c = cs[e];
        if !(('a' <= c && c <= 'z') || ('A' <= c && c <= 'Z') || ('0' <= c && c <= '9') || c == '_') {
            return e;
        }
        e = e + 1;
    }
    e
}


/// Collects the symbols of one text while it is scanned.
pub struct SymbolParser {
    functions: Vec<Symbol>,
    local_vars: Vec<Symbol>,
    global_vars: Vec<Symbol>,
}

proof fn lemma_push_view(v: Seq<Symbol>, s: Symbol)
    ensures
        symbols_view(v.push(s)) == symbols_view(v).push(s@),
{
    assert(symbols_view(v.push(s)) =~= symbols_view(v).push(s@));
}

proof fn lemma_occur_push(text: Seq<char>, s: Seq<SymbolModel>, m: SymbolModel, k: int)
    requires
        all_occur(text, s),
        occurs_at(text, m, k),
    ensures
        all_occur(text, s.push(m)),
{
    assert forall|i: int| 0 <= i < s.push(m).len() implies occurs_in(
        text,
        #[trigger] s.push(m)[i],
    ) by {
        if i < s.len() {
            assert(s.push(m)[i] == s[i]);
        } else {
            assert(occurs_at(text, s.push(m)[i], k));
        }
    }
}

/// The offset just past a declaration keyword (`function`, `let` or `var`, then
/// one space) that starts at `i` on a word boundary, with 1, 2 or 3 for the keyword.
fn keyword_at(cs: &Vec<char>, i: usize) -> (r: (usize, u8))
    requires
        i < cs.len(),
    ensures
        r.1 == 0 || (i < r.0 <= cs.len() && forall|m: int| i <= m < r.0 ==> cs@[m] != '\n'),
        r.1 <= 3,
        (r.0 as int, r.1) == keyword_spec(cs@, i as int),
{
    proof {
        reveal_strlit("function ");
        reveal_strlit("let ");
        reveal_strlit("var ");
        assert("function "@ =~= function_word());
        assert("let "@ =~= let_word());
        assert("var "@ =~= var_word());
    }
    if i > 0 {
        let c = cs[i - 1];
        if ('a' <= c && c <= 'z') || ('A' <= c && c <= 'Z') || ('0' <= c && c <= '9') || c == '_' {
            return (i, 0);
        }
    }
    if word_at(cs, i, "function ") {
        assert forall|m: int| i <= m < i + 9 implies cs@[m] != '\n' by {
            assert(cs@[m] == cs@.subrange(i as int, i + 9)[m - i]);
        }
        (i + 9, 1)
    } else if word_at(cs, i, "let ") {
        assert forall|m: int| i <= m < i + 4 implies cs@[m] != '\n' by {
            assert(cs@[m] == cs@.subrange(i as int, i + 4)[m - i]);
        }
        (i + 4, 2)
    } else if word_at(cs, i, "var ") {
        assert forall|m: int| i <= m < i + 4 implies cs@[m] != '\n' by {
            assert(cs@[m] == cs@.subrange(i as int, i + 4)[m - i]);
        }
        (i + 4, 3)
    } else {
        (i, 0)
    }
}

impl SymbolParser {
    /// Indexes `text`: each `function`, `let` and `var` declaration gives a
    /// symbol at its name; `let` inside braces is local, outside global.
    pub fn parse(text: &str) -> (r: Result<SymbolBook, AnalysisError>)
        ensures
            r is Err <==> !analyzable(text@),
            r matches Err(e) ==> (e == AnalysisError::TooLong <==> text@.len() >= u32::MAX),
            r matches Ok(book) ==> {
                &&& book@ == symbols_of(text@)
                &&& all_occur(text@, book@.functions)
                &&& all_occur(text@, book@.local_vars)
                &&& all_occur(text@, book@.global_vars)
            },
    {
        let cs = chars_of(text);
        let n = cs.len();
        if n >= 4294967295 {
            return Err(AnalysisError::TooLong);
        }
        let mut p = SymbolParser { functions: Vec::new(), local_vars: Vec::new(), global_vars: Vec::new() };
        let mut line: u32 = 0;
        let mut col: u32 = 0;
        let mut depth: u64 = 0;
        let mut i: usize = 0;
        while i < n
            invariant
                n == cs.len(),
                cs@ == text@,
                n < u32::MAX,
                i <= n,
                pos_at(cs@, i as int) == (line as int, col as int),
                depth == depth_at(cs@, i as int),
                depth <= i,
                forall|k: int| 0 <= k <= i ==> depth_at(cs@, k) >= 0,
                all_occur(cs@, symbols_view(p.functions@)),
                all_occur(cs@, symbols_view(p.local_vars@)),
                all_occur(cs@, symbols_view(p.global_vars@)),
                symbols_view(p.functions@) == scan(cs@, i as int).functions,
                symbols_view(p.local_vars@) == scan(cs@, i as int).local_vars,
                symbols_view(p.global_vars@) == scan(cs@, i as int).global_vars,
            decreases n - i,
        {
            proof {
                lemma_pos_bounded(cs@, i as int);
            }
            let (j, kind) = keyword_at(&cs, i);
            if kind != 0 {
                let e = ident_end(&cs, j);
                proof {
                    lemma_ident_end(cs@, j as int, e as int);
                }
                if e > j {
                    proof {
                        lemma_pos_same_line(cs@, i as int, j as int);
                        lemma_pos_bounded(cs@, j as int);
                        lemma_ident_end(cs@, j as int, e as int);
                    }
                    let name = String::from_str(text.substring_char(j, e));
                    let sym = Symbol { name, position: Position { line, character: col + (j - i) as u32 } };
                    assert(occurs_at(cs@, sym@, j as int));
                    if kind == 1 {
                        proof {
                            lemma_push_view(p.functions@, sym);
                            lemma_occur_push(cs@, symbols_view(p.functions@), sym@, j as int);
                        }
                        p.functions.push(sym);
                    } else if kind == 2 && depth > 0 {
                        proof {
                            lemma_push_view(p.local_vars@, sym);
                            lemma_occur_push(cs@, symbols_view(p.local_vars@), sym@, j as int);
                        }
                        p.local_vars.push(sym);
                    } else {
                        proof {
                            lemma_push_view(p.global_vars@, sym);
                            lemma_occur_push(cs@, symbols_view(p.global_vars@), sym@, j as int);
                        }
                        p.global_vars.push(sym);
                    }
                }
            }
            let c = cs[i];
            if c == '\n' {
                line = line + 1;
                col = 0;
            } else {
                col = col + 1;
            }
            if c == '{' {
                depth = depth + 1;
            } else if c == '}' {
                if depth == 0 {
                    assert(depth_at(cs@, i + 1) < 0);
                    return Err(AnalysisError::UnbalancedBraces);
                }
                depth = depth - 1;
            }
            i = i + 1;
        }
        if depth != 0 {
            return Err(AnalysisError::UnbalancedBraces);
        }
        Ok(SymbolBook { functions: p.functions, local_vars: p.local_vars, global_vars: p.global_vars })
    }
}

} // verus!
