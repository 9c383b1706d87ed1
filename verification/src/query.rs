//! The query abstract syntax tree and its compiler.
//!
//! A [`QueryContent`] value holds a projection list, an optional source
//! (bucket and key), an optional path into the stored object, an optional
//! filter clause and an optional row limit. [`QueryContent::build`] renders
//! the value into the textual query the content-filtering endpoint accepts;
//! the spec function [`query_text`] states that text character by character.

use vstd::prelude::*;
use vstd::string::StringExecFns;
use crate::text::{int_text, isize_string, str_contains_char, u64_string, uint_text};

verus! {

/// One projection target: a literal list of field names, or one aggregate
/// function applied to a single field expression.
#[derive(Clone)]
pub enum Select {
    Elements(Vec<String>),
    Count(String),
    Avg(String),
    Max(String),
    Min(String),
    Sum(String),
}

/// A boolean predicate over fields, recursively composable with `And`/`Or`.
pub enum Clause {
    G(String, usize),
    L(String, usize),
    E(String, String),
    GE(String, usize),
    LE(String, usize),
    NotE(String, String),
    IsNotNull(String),
    IsNull(String),
    Between(String, isize, isize),
    In(String, Vec<String>),
    NotBetween(String, isize, isize),
    NotIn(String, Vec<String>),
    And(Box<Clause>, Box<Clause>),
    Or(Box<Clause>, Box<Clause>),
}

/// One step of a nested-access path inside the stored object.
#[derive(Clone)]
pub enum Path {
    Index(usize),
    WildCardIndex,
    Name(String),
    WildCardName,
}

/// The aggregate root of one query.
pub struct QueryContent {
    pub select: Vec<Select>,
    /// Key first, bucket second, as the source reference is carried.
    pub from: Option<(String, String)>,
    pub path: Option<Vec<Path>>,
    pub clauses: Option<Clause>,
    pub limit: Option<usize>,
}

/// The one way compilation can fail: the query has no source reference.
#[derive(Clone, Copy, PartialEq, Eq, Structural, Debug)]
pub enum CompileError {
    MissingSource,
}

// ---------------------------------------------------------------------------
// Spec-level rendering
// ---------------------------------------------------------------------------

/// A string literal value wrapped in double quotes.
pub open spec fn quote_text(s: Seq<char>) -> Seq<char> {
    "\""@ + s + "\""@
}

/// Each value quoted, joined with `", "`, in the order given.
pub open spec fn quoted_list_text(vals: Seq<String>) -> Seq<char>
    decreases vals.len(),
{
    if vals.len() == 0 {
        Seq::empty()
    } else if vals.len() == 1 {
        quote_text(vals[0]@)
    } else {
        quoted_list_text(vals.drop_last()) + ", "@ + quote_text(vals.last()@)
    }
}

/// Each field prefixed with the record variable, joined with `", "`.
pub open spec fn fields_text(fields: Seq<String>) -> Seq<char>
    decreases fields.len(),
{
    if fields.len() == 0 {
        Seq::empty()
    } else if fields.len() == 1 {
        "s."@ + fields[0]@
    } else {
        fields_text(fields.drop_last()) + ", "@ + "s."@ + fields.last()@
    }
}

/// An aggregate application. A field holding the wildcard character is
/// rendered verbatim; any other field gets the record-variable prefix.
pub open spec fn agg_text(func: Seq<char>, field: Seq<char>) -> Seq<char> {
    if field.contains('*') {
        func + "("@ + field + ")"@
    } else {
        func + "(s."@ + field + ")"@
    }
}

/// The rendering of one projection target.
pub open spec fn select_item_text(item: Select) -> Seq<char> {
    match item {
        Select::Elements(els) => fields_text(els@),
        Select::Count(el) => agg_text("Count"@, el@),
        Select::Avg(el) => agg_text("Avg"@, el@),
        Select::Max(el) => agg_text("Max"@, el@),
        Select::Min(el) => agg_text("Min"@, el@),
        Select::Sum(el) => agg_text("Sum"@, el@),
    }
}

/// The projection list: each item rendered, joined with `", "`.
pub open spec fn select_list_text(items: Seq<Select>) -> Seq<char>
    decreases items.len(),
{
    if items.len() == 0 {
        Seq::empty()
    } else if items.len() == 1 {
        select_item_text(items[0])
    } else {
        select_list_text(items.drop_last()) + ", "@ + select_item_text(items.last())
    }
}

/// The rendering of one filter clause, with `And`/`Or` joining their two
/// children by bare concatenation: no parentheses are ever inserted.
pub open spec fn clause_text(c: Clause) -> Seq<char>
    decreases c,
{
    match c {
        Clause::G(n, v) => "s."@ + n@ + " > "@ + uint_text(v as nat),
        Clause::GE(n, v) => "s."@ + n@ + " >= "@ + uint_text(v as nat),
        Clause::L(n, v) => "s."@ + n@ + " < "@ + uint_text(v as nat),
        Clause::LE(n, v) => "s."@ + n@ + " <= "@ + uint_text(v as nat),
        Clause::E(n, v) => "s."@ + n@ + " = "@ + quote_text(v@),
        Clause::NotE(n, v) => "s."@ + n@ + " != "@ + quote_text(v@),
        Clause::IsNotNull(n) => "s."@ + n@ + " IS NOT MISSING"@,
        Clause::IsNull(n) => "s."@ + n@ + " IS MISSING"@,
        Clause::In(n, v) => "s."@ + n@ + " IN ("@ + quoted_list_text(v@) + ")"@,
        Clause::NotIn(n, v) => "s."@ + n@ + " NOT IN ("@ + quoted_list_text(v@) + ")"@,
        Clause::Between(n, lo, hi) => "s."@ + n@ + " BETWEEN "@ + int_text(lo as int) + " AND "@
            + int_text(hi as int),
        Clause::NotBetween(n, lo, hi) => "s."@ + n@ + " NOTBETWEEN "@ + int_text(lo as int)
            + " AND "@ + int_text(hi as int),
        Clause::And(c1, c2) => clause_text(*c1) + " AND "@ + clause_text(*c2),
        Clause::Or(c1, c2) => clause_text(*c1) + " OR "@ + clause_text(*c2),
    }
}

/// The rendering of one path segment.
pub open spec fn path_seg_text(seg: Path) -> Seq<char> {
    match seg {
        Path::Index(i) => "["@ + uint_text(i as nat) + "]"@,
        Path::Name(n) => "."@ + n@,
        Path::WildCardIndex => "[*]"@,
        Path::WildCardName => ".*"@,
    }
}

/// The segments rendered in order with no separator between them.
pub open spec fn path_text(segs: Seq<Path>) -> Seq<char>
    decreases segs.len(),
{
    if segs.len() == 0 {
        Seq::empty()
    } else {
        path_text(segs.drop_last()) + path_seg_text(segs.last())
    }
}

/// The source clause: the fixed root source when no path was set, else the
/// root token, the path, and the record-variable alias.
pub open spec fn source_text(path: Option<Vec<Path>>) -> Seq<char> {
    match path {
        None => " FROM S3Object s"@,
        Some(p) => " FROM S3Object"@ + path_text(p@) + " s"@,
    }
}

/// The filter part: empty when no clause was set.
pub open spec fn filter_text(clauses: Option<Clause>) -> Seq<char> {
    match clauses {
        None => Seq::empty(),
        Some(c) => " WHERE "@ + clause_text(c),
    }
}

/// The limit part: empty when no limit was set.
pub open spec fn limit_text(limit: Option<usize>) -> Seq<char> {
    match limit {
        None => Seq::empty(),
        Some(n) => " LIMIT "@ + uint_text(n as nat),
    }
}

/// The whole query text: projection, source, filter and limit, in this
/// fixed order with these fixed separators.
pub open spec fn query_text(q: QueryContent) -> Seq<char> {
    "SELECT "@ + select_list_text(q.select@) + source_text(q.path) + filter_text(q.clauses)
        + limit_text(q.limit)
}

// ---------------------------------------------------------------------------
// Executable rendering
// ---------------------------------------------------------------------------

fn quoted_list_string(vals: &Vec<String>) -> (r: String)
    ensures
        r@ == quoted_list_text(vals@),
{
    let mut s = String::new();
    let mut i: usize = 0;
    while i < vals.len()
        invariant
            i <= vals.len(),
            s@ == quoted_list_text(vals@.take(i as int)),
        decreases vals.len() - i,
    {
        if i > 0 {
            s.append(", ");
        }
        s.append("\"");
        s.append(vals[i].as_str());
        s.append("\"");
        proof {
            assert(vals@.take(i + 1).drop_last() =~= vals@.take(i as int));
            assert(s@ =~= quoted_list_text(vals@.take(i + 1)));
        }
        i += 1;
    }
    proof {
        assert(vals@.take(vals.len() as int) =~= vals@);
    }
    s
}

fn fields_string(fields: &Vec<String>) -> (r: String)
    ensures
        r@ == fields_text(fields@),
{
    let mut s = String::new();
    let mut i: usize = 0;
    while i < fields.len()
        invariant
            i <= fields.len(),
            s@ == fields_text(fields@.take(i as int)),
        decreases fields.len() - i,
    {
        if i > 0 {
            s.append(", ");
        }
        s.append("s.");
        s.append(fields[i].as_str());
        proof {
            assert(fields@.take(i + 1).drop_last() =~= fields@.take(i as int));
            assert(s@ =~= fields_text(fields@.take(i + 1)));
        }
        i += 1;
    }
    proof {
        assert(fields@.take(fields.len() as int) =~= fields@);
    }
    s
}

/// Renders one aggregate projection. A field expression holding the
/// wildcard character is emitted verbatim; any other field is prefixed
/// with the record variable.
pub fn build_select_element(function: &str, el: &String) -> (r: String)
    ensures
        r@ == agg_text(function@, el@),
{
    let mut s = function.to_owned();
    if str_contains_char(el.as_str(), '*') {
        s.append("(");
        s.append(el.as_str());
        s.append(")");
    } else {
        s.append("(s.");
        s.append(el.as_str());
        s.append(")");
    }
    s
}

fn select_item_string(item: &Select) -> (r: String)
    ensures
        r@ == select_item_text(*item),
{
    match item {
        Select::Elements(els) => fields_string(els),
        Select::Count(el) => build_select_element("Count", el),
        Select::Avg(el) => build_select_element("Avg", el),
        Select::Max(el) => build_select_element("Max", el),
        Select::Min(el) => build_select_element("Min", el),
        Select::Sum(el) => build_select_element("Sum", el),
    }
}

/// Renders the projection list: each item rendered, joined with `", "`.
pub fn build_select(elements: &Vec<Select>) -> (r: String)
    ensures
        r@ == select_list_text(elements@),
{
    let mut s = String::new();
    let mut i: usize = 0;
    while i < elements.len()
        invariant
            i <= elements.len(),
            s@ == select_list_text(elements@.take(i as int)),
        decreases elements.len() - i,
    {
        if i > 0 {
            s.append(", ");
        }
        let item = select_item_string(&elements[i]);
        s.append(item.as_str());
        proof {
            assert(elements@.take(i + 1).drop_last() =~= elements@.take(i as int));
            assert(s@ =~= select_list_text(elements@.take(i + 1)));
        }
        i += 1;
    }
    proof {
        assert(elements@.take(elements.len() as int) =~= elements@);
    }
    s
}

/// Renders the source clause for a query that set a path.
pub fn build_path(path: &Vec<Path>) -> (r: String)
    ensures
        r@ == source_text(Some(*path)),
{
    let mut s = " FROM S3Object".to_owned();
    let mut i: usize = 0;
    while i < path.len()
        invariant
            i <= path.len(),
            s@ == " FROM S3Object"@ + path_text(path@.take(i as int)),
        decreases path.len() - i,
    {
        match &path[i] {
            Path::Index(idx) => {
                s.append("[");
                s.append(u64_string(*idx as u64).as_str());
                s.append("]");
            },
            Path::Name(name) => {
                s.append(".");
                s.append(name.as_str());
            },
            Path::WildCardIndex => {
                s.append("[*]");
            },
            Path::WildCardName => {
                s.append(".*");
            },
        }
        proof {
            assert(path@.take(i + 1).drop_last() =~= path@.take(i as int));
            assert(s@ =~= " FROM S3Object"@ + path_text(path@.take(i + 1)));
        }
        i += 1;
    }
    s.append(" s");
    proof {
        assert(path@.take(path.len() as int) =~= path@);
        assert(s@ =~= source_text(Some(*path)));
    }
    s
}

impl Clause {
    /// Renders this clause; `And`/`Or` join their children by bare
    /// concatenation, with no parentheses inserted.
    pub fn to_where(&self) -> (r: String)
        ensures
            r@ == clause_text(*self),
        decreases self,
    {
        match self {
            Clause::G(n, v) => {
                let mut s = "s.".to_owned();
                s.append(n.as_str());
                s.append(" > ");
                s.append(u64_string(*v as u64).as_str());
                s
            },
            Clause::GE(n, v) => {
                let mut s = "s.".to_owned();
                s.append(n.as_str());
                s.append(" >= ");
                s.append(u64_string(*v as u64).as_str());
                s
            },
            Clause::L(n, v) => {
                let mut s = "s.".to_owned();
                s.append(n.as_str());
                s.append(" < ");
                s.append(u64_string(*v as u64).as_str());
                s
            },
            Clause::LE(n, v) => {
                let mut s = "s.".to_owned();
                s.append(n.as_str());
                s.append(" <= ");
                s.append(u64_string(*v as u64).as_str());
                s
            },
            Clause::E(n, v) => {
                let mut s = "s.".to_owned();
                s.append(n.as_str());
                s.append(" = ");
                s.append("\"");
                s.append(v.as_str());
                s.append("\"");
                proof {
                    assert(s@ =~= clause_text(*self));
                }
                s
            },
            Clause::NotE(n, v) => {
                let mut s = "s.".to_owned();
                s.append(n.as_str());
                s.append(" != ");
                s.append("\"");
                s.append(v.as_str());
                s.append("\"");
                proof {
                    assert(s@ =~= clause_text(*self));
                }
                s
            },
            Clause::IsNotNull(n) => {
                let mut s = "s.".to_owned();
                s.append(n.as_str());
                s.append(" IS NOT MISSING");
                s
            },
            Clause::IsNull(n) => {
                let mut s = "s.".to_owned();
                s.append(n.as_str());
                s.append(" IS MISSING");
                s
            },
            Clause::In(n, v) => {
                let mut s = "s.".to_owned();
                s.append(n.as_str());
                s.append(" IN (");
                s.append(quoted_list_string(v).as_str());
                s.append(")");
                s
            },
            Clause::NotIn(n, v) => {
                let mut s = "s.".to_owned();
                s.append(n.as_str());
                s.append(" NOT IN (");
                s.append(quoted_list_string(v).as_str());
                s.append(")");
                s
            },
            Clause::Between(n, lo, hi) => {
                let mut s = "s.".to_owned();
                s.append(n.as_str());
                s.append(" BETWEEN ");
                s.append(isize_string(*lo).as_str());
                s.append(" AND ");
                s.append(isize_string(*hi).as_str());
                s
            },
            Clause::NotBetween(n, lo, hi) => {
                let mut s = "s.".to_owned();
                s.append(n.as_str());
                s.append(" NOTBETWEEN ");
                s.append(isize_string(*lo).as_str());
                s.append(" AND ");
                s.append(isize_string(*hi).as_str());
                s
            },
            Clause::And(c1, c2) => {
                let mut s = c1.to_where();
                s.append(" AND ");
                s.append(c2.to_where().as_str());
                s
            },
            Clause::Or(c1, c2) => {
                let mut s = c1.to_where();
                s.append(" OR ");
                s.append(c2.to_where().as_str());
                s
            },
        }
    }
}

/// Renders the filter part for a query that set a clause.
pub fn build_where(clause: &Clause) -> (r: String)
    ensures
        r@ == filter_text(Some(*clause)),
{
    let mut s = " WHERE ".to_owned();
    s.append(clause.to_where().as_str());
    s
}

// ---------------------------------------------------------------------------
// Builder and compilation
// ---------------------------------------------------------------------------

impl QueryContent {
    /// Creates the root of a query with its mandatory projection list;
    /// every optional part starts unset.
    pub fn select(elements: Vec<Select>) -> (r: QueryContent)
        ensures
            r.select == elements,
            r.from is None,
            r.path is None,
            r.clauses is None,
            r.limit is None,
    {
        QueryContent { select: elements, from: None, path: None, clauses: None, limit: None }
    }

    /// Sets the source reference, discarding any earlier one; every other
    /// part is left as it was.
    pub fn from(self, bucket: &str, key: &str) -> (r: Self)
        ensures
            r.from matches Some(kb) && kb.0@ == key@ && kb.1@ == bucket@,
            r.select == self.select,
            r.path == self.path,
            r.clauses == self.clauses,
            r.limit == self.limit,
    {
        let mut q = self;
        q.from = Some((key.to_owned(), bucket.to_owned()));
        q
    }

    /// Sets the row limit, discarding any earlier one; every other part is
    /// left as it was.
    pub fn limit(self, limit: usize) -> (r: Self)
        ensures
            r.limit == Some(limit),
            r.select == self.select,
            r.from == self.from,
            r.path == self.path,
            r.clauses == self.clauses,
    {
        let mut q = self;
        q.limit = Some(limit);
        q
    }

    /// Sets the path, discarding any earlier one; every other part is left
    /// as it was.
    pub fn from_path(self, path: Vec<Path>) -> (r: Self)
        ensures
            r.path == Some(path),
            r.select == self.select,
            r.from == self.from,
            r.clauses == self.clauses,
            r.limit == self.limit,
    {
        let mut q = self;
        q.path = Some(path);
        q
    }

    /// Sets the filter clause, discarding any earlier one; every other part
    /// is left as it was.
    pub fn where_clause(self, clauses: Clause) -> (r: Self)
        ensures
            r.clauses == Some(clauses),
            r.select == self.select,
            r.from == self.from,
            r.path == self.path,
            r.limit == self.limit,
    {
        let mut q = self;
        q.clauses = Some(clauses);
        q
    }

    /// Compiles the query. With a source set, the result is exactly
    /// [`query_text`] of this value; without one, compilation fails with
    /// [`CompileError::MissingSource`] and produces no text at all.
    pub fn build(&self) -> (r: Result<String, CompileError>)
        ensures
            self.from is Some ==> (r matches Ok(s) && s@ == query_text(*self)),
            self.from is None ==> r == Err::<String, CompileError>(CompileError::MissingSource),
    {
        if self.from.is_none() {
            return Err(CompileError::MissingSource);
        }

        let mut query = "SELECT ".to_owned();
        query.append(build_select(&self.select).as_str());
        match &self.path {
            None => {
                query.append(" FROM S3Object s");
            },
            Some(p) => {
                query.append(build_path(p).as_str());
            },
        }
        if let Some(c) = &self.clauses {
            query.append(build_where(c).as_str());
        }
        if let Some(l) = self.limit {
            query.append(" LIMIT ");
            query.append(u64_string(l as u64).as_str());
        }
        proof {
            assert(query@ =~= query_text(*self));
        }
        Ok(query)
    }
}

// ---------------------------------------------------------------------------
// Laws
// ---------------------------------------------------------------------------

/// A query holding one non-empty literal field list and no path, filter or
/// limit compiles to the bare projection followed by the root source
/// clause, and nothing else.
pub proof fn lemma_literal_select_text(q: QueryContent, fields: Vec<String>)
    requires
        fields@.len() > 0,
        q.select@ =~= seq![Select::Elements(fields)],
        q.path is None,
        q.clauses is None,
        q.limit is None,
    ensures
        query_text(q) == "SELECT "@ + fields_text(fields@) + " FROM S3Object s"@,
{
    assert(query_text(q) =~= "SELECT "@ + fields_text(fields@) + " FROM S3Object s"@);
}

/// Setting a limit changes the compiled text only by appending the limit
/// clause after every other part, whatever the query holds and in
/// whatever order its parts were set.
pub proof fn lemma_limit_appends(q: QueryContent, n: usize)
    requires
        q.limit == Some(n),
    ensures
        query_text(q) == query_text(
            QueryContent {
                select: q.select,
                from: q.from,
                path: q.path,
                clauses: q.clauses,
                limit: None,
            },
        ) + " LIMIT "@ + uint_text(n as nat),
{
    let base = QueryContent {
        select: q.select,
        from: q.from,
        path: q.path,
        clauses: q.clauses,
        limit: None,
    };
    assert(query_text(q) =~= query_text(base) + " LIMIT "@ + uint_text(n as nat));
}

/// `And` and `Or` render as their two children joined by the bare
/// connective token: no parentheses are inserted around either child, so
/// textual grouping is pure left-to-right concatenation.
pub proof fn lemma_connective_concat(c1: Box<Clause>, c2: Box<Clause>)
    ensures
        clause_text(Clause::And(c1, c2)) == clause_text(*c1) + " AND "@ + clause_text(*c2),
        clause_text(Clause::Or(c1, c2)) == clause_text(*c1) + " OR "@ + clause_text(*c2),
{
}

/// Ordering comparisons render as the prefixed field, the operator's
/// literal symbol, and the bare numeral.
pub proof fn lemma_comparison_text(f: String, v: usize)
    ensures
        clause_text(Clause::G(f, v)) == "s."@ + f@ + " > "@ + uint_text(v as nat),
        clause_text(Clause::GE(f, v)) == "s."@ + f@ + " >= "@ + uint_text(v as nat),
        clause_text(Clause::L(f, v)) == "s."@ + f@ + " < "@ + uint_text(v as nat),
        clause_text(Clause::LE(f, v)) == "s."@ + f@ + " <= "@ + uint_text(v as nat),
{
}

/// A set test renders its values quoted, joined with the fixed separator,
/// in exactly the order given: nothing is reordered and duplicates stay.
pub proof fn lemma_in_set_text(f: String, vals: Vec<String>)
    ensures
        clause_text(Clause::In(f, vals)) == "s."@ + f@ + " IN ("@ + quoted_list_text(vals@)
            + ")"@,
        vals@.len() == 1 ==> quoted_list_text(vals@) == quote_text(vals@[0]@),
        vals@.len() > 1 ==> quoted_list_text(vals@) == quoted_list_text(vals@.drop_last())
            + ", "@ + quote_text(vals@.last()@),
{
}

/// Compilation is pure: the compiled text is a function of the query value
/// alone, so any two compilations of one query agree byte for byte.
pub proof fn lemma_compile_deterministic(q: QueryContent, r1: String, r2: String)
    requires
        r1@ == query_text(q),
        r2@ == query_text(q),
    ensures
        r1@ == r2@,
{
}

/// An aggregate over a field holding the wildcard character renders the
/// field verbatim; over any other field the field gets the
/// record-variable prefix. The wildcard test is a plain character search
/// on the raw field token.
pub proof fn lemma_aggregate_wildcard(func: Seq<char>, field: Seq<char>)
    ensures
        field.contains('*') ==> agg_text(func, field) == func + "("@ + field + ")"@,
        !field.contains('*') ==> agg_text(func, field) == func + "(s."@ + field + ")"@,
{
}

} // verus!
