//! Identifiers, snapshots, rows and tables: the tabular structure that a flat
//! identifier-to-value snapshot encodes.
use crate::assoc::{
    assoc_view, lemma_assoc_contains, lemma_assoc_last, lemma_assoc_prefix, lemma_assoc_unique,
    unique_keys,
};
use crate::error::{result_view, ErrorView, ScrapeError};
use crate::column::{FromColumn, ValueError};
use crate::text::{find_first_dot, first_dot, has_prefix, lemma_first_dot_bounds};
use vstd::prelude::*;

verus! {

/// A dotted numeric object identifier.
#[derive(Clone, Debug, PartialEq, Eq, Hash)]
pub struct OID(pub String);

impl View for OID {
    type V = Seq<char>;

    open spec fn view(&self) -> Seq<char> {
        self.0@
    }
}

impl OID {
    pub fn new(value: &str) -> (r: OID)
        ensures
            r@ == value@,
    {
        OID(value.to_owned())
    }
}

/// The key of a scalar with base identifier `base`.
pub open spec fn scalar_key(base: Seq<char>) -> Seq<char> {
    base + seq!['.', '0']
}

/// What every key of a row of table `base` begins with.
pub open spec fn entry_prefix(base: Seq<char>) -> Seq<char> {
    base + seq!['.', '1', '.']
}

/// Whether key `k` lies under the entry prefix of table `base`.
pub open spec fn in_table(base: Seq<char>, k: Seq<char>) -> bool {
    let p = entry_prefix(base);
    p.len() <= k.len() && k.subrange(0, p.len() as int) == p
}

/// What follows the entry prefix in `k`: column segment, `.`, row index.
pub open spec fn key_rest(base: Seq<char>, k: Seq<char>) -> Seq<char> {
    k.skip(entry_prefix(base).len() as int)
}

/// Whether `k` is a cell of table `base`: under its entry prefix and with a
/// row index after the column segment.
pub open spec fn table_key(base: Seq<char>, k: Seq<char>) -> bool {
    in_table(base, k) && first_dot(key_rest(base, k)) >= 0
}

/// The row index of cell `k`: all that follows the first dot after the prefix.
pub open spec fn row_index(base: Seq<char>, k: Seq<char>) -> Seq<char> {
    let r = key_rest(base, k);
    r.skip(first_dot(r) + 1)
}

/// The column identifier of cell `k`: `base.1.<column segment>`.
pub open spec fn column_of(base: Seq<char>, k: Seq<char>) -> Seq<char> {
    k.subrange(0, k.len() - row_index(base, k).len() - 1)
}

/// The key of column `c` in row `idx`.
pub open spec fn cell_key(c: Seq<char>, idx: Seq<char>) -> Seq<char> {
    c + seq!['.'] + idx
}

/// Whether `k` is a key of snapshot `m` under table `base` with no row index.
pub open spec fn malformed_key(m: Map<Seq<char>, Seq<char>>, base: Seq<char>, k: Seq<char>) -> bool {
    m.contains_key(k) && in_table(base, k) && first_dot(key_rest(base, k)) < 0
}

/// Whether table `base` can be read from snapshot `m`.
pub open spec fn table_ok(m: Map<Seq<char>, Seq<char>>, base: Seq<char>) -> bool {
    forall|k: Seq<char>| !#[trigger] malformed_key(m, base, k)
}

/// Whether table `base` of snapshot `m` has a row with index `idx`.
pub open spec fn has_row(m: Map<Seq<char>, Seq<char>>, base: Seq<char>, idx: Seq<char>) -> bool {
    exists|k: Seq<char>| m.contains_key(k) && table_key(base, k) && #[trigger] row_index(base, k) == idx
}

/// Whether row `idx` of table `base` of snapshot `m` has column `c`.
pub open spec fn is_cell(
    m: Map<Seq<char>, Seq<char>>,
    base: Seq<char>,
    idx: Seq<char>,
    c: Seq<char>,
) -> bool {
    let k = cell_key(c, idx);
    m.contains_key(k) && table_key(base, k) && row_index(base, k) == idx
}

/// Row `idx` of table `base`: each of its columns with the value in `m`.
pub open spec fn spec_row(m: Map<Seq<char>, Seq<char>>, base: Seq<char>, idx: Seq<char>) -> Map<
    Seq<char>,
    Seq<char>,
> {
    Map::new(|c: Seq<char>| is_cell(m, base, idx, c), |c: Seq<char>| m[cell_key(c, idx)])
}

/// Table `base` of snapshot `m`: its rows by row index.
pub open spec fn spec_table(m: Map<Seq<char>, Seq<char>>, base: Seq<char>) -> Map<
    Seq<char>,
    Map<Seq<char>, Seq<char>>,
> {
    Map::new(|idx: Seq<char>| has_row(m, base, idx), |idx: Seq<char>| spec_row(m, base, idx))
}

/// The value of `s` as a `T`, or the error that names column `col`.
pub open spec fn value_of<T: FromColumn>(col: Seq<char>, s: Seq<char>) -> Result<T, ErrorView> {
    match T::spec_from_column(s) {
        Ok(v) => Ok(v),
        Err(ValueError::NotANumber) => Err(ErrorView::InvalidNumber { column: col, value: s }),
        Err(ValueError::UnknownCode) => Err(ErrorView::UnknownEnumCode { column: col, value: s }),
    }
}

/// Column `col` of `row` read as a `T`.
pub open spec fn spec_column<T: FromColumn>(row: Map<Seq<char>, Seq<char>>, col: Seq<char>) -> Result<
    T,
    ErrorView,
> {
    if row.contains_key(col) {
        value_of::<T>(col, row[col])
    } else {
        Err(ErrorView::ColumnNotFound { column: col })
    }
}

/// Scalar `base` of snapshot `m` read as a `T`.
pub open spec fn spec_scalar<T: FromColumn>(m: Map<Seq<char>, Seq<char>>, base: Seq<char>) -> Result<
    T,
    ErrorView,
> {
    if m.contains_key(scalar_key(base)) {
        value_of::<T>(scalar_key(base), m[scalar_key(base)])
    } else {
        Err(ErrorView::ScalarNotFound { oid: scalar_key(base) })
    }
}

/// A cell's key is its column identifier, a dot and its row index.
pub proof fn lemma_key_split(base: Seq<char>, k: Seq<char>)
    requires
        table_key(base, k),
    ensures
        k == cell_key(column_of(base, k), row_index(base, k)),
{
    let p = entry_prefix(base).len() as int;
    let r = key_rest(base, k);
    lemma_first_dot_bounds(r);
    let f = first_dot(r);
    assert(k[p + f] == r[f]);
    let c = column_of(base, k);
    let idx = row_index(base, k);
    assert(c.len() == p + f);
    assert forall|j: int| 0 <= j < idx.len() implies k[p + f + 1 + j] == #[trigger] idx[j] by {
        assert(idx[j] == r[f + 1 + j]);
    }
    assert(k =~= cell_key(c, idx));
}

/// The column of a cell key is the column it was built from.
pub proof fn lemma_cell_column(base: Seq<char>, c: Seq<char>, idx: Seq<char>)
    requires
        row_index(base, cell_key(c, idx)) == idx,
    ensures
        column_of(base, cell_key(c, idx)) == c,
{
    assert(column_of(base, cell_key(c, idx)) =~= c);
}

/// Adding a key to a snapshot adds at most that key's cell to a row.
pub proof fn lemma_spec_row_insert(
    m: Map<Seq<char>, Seq<char>>,
    base: Seq<char>,
    idx: Seq<char>,
    k: Seq<char>,
    v: Seq<char>,
)
    ensures
        spec_row(m.insert(k, v), base, idx) == if table_key(base, k) && row_index(base, k) == idx {
            spec_row(m, base, idx).insert(column_of(base, k), v)
        } else {
            spec_row(m, base, idx)
        },
{
    let m2 = m.insert(k, v);
    if table_key(base, k) && row_index(base, k) == idx {
        lemma_key_split(base, k);
        let c0 = column_of(base, k);
        assert forall|c: Seq<char>| #[trigger] cell_key(c, idx) == k implies c == c0 by {
            assert(c =~= cell_key(c, idx).subrange(0, c.len() as int));
            assert(c0 =~= cell_key(c0, idx).subrange(0, c0.len() as int));
        }
        assert(spec_row(m2, base, idx) =~= spec_row(m, base, idx).insert(c0, v));
    } else {
        assert(spec_row(m2, base, idx) =~= spec_row(m, base, idx));
    }
}

/// Table extraction is exact: every cell key of the snapshot appears as a
/// column of the row named by its index, holding the key's value, and every
/// row and column of the table comes from such a key.
pub proof fn lemma_table_exact(m: Map<Seq<char>, Seq<char>>, base: Seq<char>)
    ensures
        forall|k: Seq<char>|
            #![trigger m.contains_key(k), table_key(base, k)]
            m.contains_key(k) && table_key(base, k) ==> {
                let t = spec_table(m, base);
                &&& t.contains_key(row_index(base, k))
                &&& t[row_index(base, k)].contains_key(column_of(base, k))
                &&& t[row_index(base, k)][column_of(base, k)] == m[k]
            },
        forall|idx: Seq<char>, c: Seq<char>|
            #![trigger spec_table(m, base)[idx].contains_key(c)]
            spec_table(m, base).contains_key(idx) && spec_table(m, base)[idx].contains_key(c) ==> {
                let k = cell_key(c, idx);
                &&& m.contains_key(k)
                &&& table_key(base, k)
                &&& row_index(base, k) == idx
                &&& column_of(base, k) == c
            },
{
    assert forall|k: Seq<char>| m.contains_key(k) && table_key(base, k) implies {
        let t = spec_table(m, base);
        &&& t.contains_key(row_index(base, k))
        &&& t[row_index(base, k)].contains_key(column_of(base, k))
        &&& t[row_index(base, k)][column_of(base, k)] == m[k]
    } by {
        lemma_key_split(base, k);
        assert(has_row(m, base, row_index(base, k)));
    }
    assert forall|idx: Seq<char>, c: Seq<char>|
        spec_table(m, base).contains_key(idx) && spec_table(m, base)[idx].contains_key(c) implies column_of(
        base,
        cell_key(c, idx),
    ) == c by {
        lemma_cell_column(base, c, idx);
    }
}

/// A type whose values are converted from a whole table row.
pub trait FromRow: Sized {
    /// The value that `row` converts to, or why the conversion fails.
    spec fn spec_from_row(row: Map<Seq<char>, Seq<char>>) -> Result<Self, ErrorView>;

    fn from_row(entry: &TableEntry) -> (r: Result<Self, ScrapeError>)
        ensures
            result_view(r) == Self::spec_from_row(entry@),
    ;
}

/// Whether every row of table `base` of `m` converts to a `T`.
pub open spec fn rows_convert<T: FromRow>(m: Map<Seq<char>, Seq<char>>, base: Seq<char>) -> bool {
    forall|idx: Seq<char>| #[trigger] has_row(m, base, idx) ==> T::spec_from_row(spec_row(m, base, idx)) is Ok
}

/// Table `base` of `m` with each row converted to a `T`.
pub open spec fn spec_parsed_table<T: FromRow>(m: Map<Seq<char>, Seq<char>>, base: Seq<char>) -> Map<
    Seq<char>,
    T,
> {
    Map::new(
        |idx: Seq<char>| has_row(m, base, idx),
        |idx: Seq<char>| T::spec_from_row(spec_row(m, base, idx))->Ok_0,
    )
}

/// Whether `e` is an error of reading table `base` of `m` with rows
/// converted to `T`: a malformed key's, or a row's conversion error.
pub open spec fn parsed_table_error<T: FromRow>(
    m: Map<Seq<char>, Seq<char>>,
    base: Seq<char>,
    e: ErrorView,
) -> bool {
    ||| exists|k: Seq<char>| malformed_key(m, base, k) && e == ErrorView::MalformedIndex { oid: k }
    ||| exists|idx: Seq<char>|
        has_row(m, base, idx) && T::spec_from_row(spec_row(m, base, idx)) == Err::<T, ErrorView>(e)
}

/// Views of identifier/value pairs.
pub open spec fn pairs_view(s: Seq<(OID, String)>) -> Seq<(Seq<char>, Seq<char>)> {
    s.map_values(|e: (OID, String)| (e.0@, e.1@))
}

/// Views of row-index/value pairs.
pub open spec fn rows_view<T>(s: Seq<(String, T)>) -> Seq<(Seq<char>, T)> {
    s.map_values(|e: (String, T)| (e.0@, e.1))
}

/// Position of the last pair whose identifier is `key`.
fn find_key(entries: &Vec<(OID, String)>, key: &String) -> (r: Option<usize>)
    ensures
        ({
            let m = assoc_view(pairs_view(entries@));
            match r {
                Some(i) => i < entries@.len() && m.contains_key(key@) && m[key@]
                    == entries@[i as int].1@,
                None => !m.contains_key(key@),
            }
        }),
{
    let ghost s = pairs_view(entries@);
    let mut i: usize = entries.len();
    while i > 0
        invariant
            i <= entries@.len(),
            s == pairs_view(entries@),
            forall|j: int| i <= j < entries@.len() ==> s[j].0 != key@,
        decreases i,
    {
        if entries[i - 1].0.0 == *key {
            proof {
                lemma_assoc_last(s, i - 1);
            }
            return Some(i - 1);
        }
        i = i - 1;
    }
    proof {
        lemma_assoc_contains(s, key@);
    }
    None
}

/// One scrape's snapshot: identifier to value text. A later pair for an
/// identifier overrides an earlier one.
#[derive(Clone, Debug)]
pub struct List {
    entries: Vec<(OID, String)>,
}

impl View for List {
    type V = Map<Seq<char>, Seq<char>>;

    closed spec fn view(&self) -> Map<Seq<char>, Seq<char>> {
        assoc_view(pairs_view(self.entries@))
    }
}

/// One table row: column identifier to value text.
#[derive(Clone, Debug)]
pub struct TableEntry(Vec<(OID, String)>);

impl View for TableEntry {
    type V = Map<Seq<char>, Seq<char>>;

    closed spec fn view(&self) -> Map<Seq<char>, Seq<char>> {
        assoc_view(pairs_view(self.0@))
    }
}

impl List {
    /// A snapshot of the given pairs; a later pair for an identifier
    /// overrides an earlier one.
    pub fn new(entries: Vec<(OID, String)>) -> (r: List)
        ensures
            r@ == assoc_view(pairs_view(entries@)),
    {
        List { entries }
    }

    /// The value text of scalar `oid`, found at key `oid.0`.
    pub fn get_scalar(&self, oid: &OID) -> (r: Result<&String, ScrapeError>)
        ensures
            match r {
                Ok(v) => self@.contains_key(scalar_key(oid@)) && v@ == self@[scalar_key(oid@)],
                Err(e) => !self@.contains_key(scalar_key(oid@)) && e@ == ErrorView::ScalarNotFound {
                    oid: scalar_key(oid@),
                },
            },
    {
        let key = oid.0.clone().concat(".0");
        proof {
            reveal_strlit(".0");
            assert(key@ =~= scalar_key(oid@));
        }
        match find_key(&self.entries, &key) {
            Some(i) => Ok(&self.entries[i].1),
            None => Err(ScrapeError::ScalarNotFound { oid: key }),
        }
    }

    /// The row indices of table `base`, each once.
    fn table_indices(&self, prefix: &String, Ghost(base): Ghost<Seq<char>>) -> (r: Result<
        Vec<String>,
        ScrapeError,
    >)
        requires
            prefix@ == entry_prefix(base),
        ensures
            match r {
                Ok(v) => indices_inv(self@, base, strs_view(v@)),
                Err(e) => exists|k: Seq<char>|
                    malformed_key(self@, base, k) && e@ == ErrorView::MalformedIndex { oid: k },
            },
    {
        let ghost s = pairs_view(self.entries@);
        let mut indices: Vec<String> = Vec::new();
        let mut i: usize = 0;
        proof {
            lemma_indices_empty(base);
            assert(s.subrange(0, 0) =~= Seq::empty());
            assert(strs_view(indices@) =~= Seq::empty());
        }
        while i < self.entries.len()
            invariant
                i <= self.entries@.len(),
                s == pairs_view(self.entries@),
                prefix@ == entry_prefix(base),
                indices_inv(assoc_view(s.subrange(0, i as int)), base, strs_view(indices@)),
            decreases self.entries@.len() - i,
        {
            let ghost m = assoc_view(s.subrange(0, i as int));
            let ghost k = s[i as int].0;
            let ghost val = s[i as int].1;
            proof {
                lemma_assoc_prefix(s, i as int);
            }
            match place_key(prefix, &self.entries[i].0, Ghost(base)) {
                KeyPlace::Outside => {
                    proof {
                        lemma_indices_insert(m, base, k, val, strs_view(indices@));
                    }
                },
                KeyPlace::Malformed => {
                    proof {
                        lemma_assoc_contains(s, k);
                        assert(s[i as int].0 == k);
                        assert(malformed_key(self@, base, k));
                    }
                    return Err(ScrapeError::MalformedIndex { oid: self.entries[i].0.0.clone() });
                },
                KeyPlace::Cell { column, index } => {
                    match position_of(&indices, &index) {
                        Some(p) => {
                            proof {
                                assert(strs_view(indices@)[p as int] == index@);
                                lemma_indices_insert(m, base, k, val, strs_view(indices@));
                            }
                        },
                        None => {
                            let ghost before = strs_view(indices@);
                            proof {
                                lemma_indices_insert(m, base, k, val, before);
                            }
                            indices.push(index);
                            assert(strs_view(indices@) =~= before.push(row_index(base, k)));
                        },
                    }
                },
            }
            i = i + 1;
        }
        assert(s.subrange(0, i as int) =~= s);
        Ok(indices)
    }

    /// Row `idx` of the table whose entry prefix is `prefix`.
    fn table_row(&self, prefix: &String, idx: &String, Ghost(base): Ghost<Seq<char>>) -> (r: TableEntry)
        requires
            prefix@ == entry_prefix(base),
        ensures
            r@ == spec_row(self@, base, idx@),
    {
        let ghost s = pairs_view(self.entries@);
        let mut row: Vec<(OID, String)> = Vec::new();
        let mut i: usize = 0;
        assert(spec_row(assoc_view(s.subrange(0, 0)), base, idx@) =~= Map::empty());
        while i < self.entries.len()
            invariant
                i <= self.entries@.len(),
                s == pairs_view(self.entries@),
                prefix@ == entry_prefix(base),
                assoc_view(pairs_view(row@)) == spec_row(assoc_view(s.subrange(0, i as int)), base, idx@),
            decreases self.entries@.len() - i,
        {
            let ghost m = assoc_view(s.subrange(0, i as int));
            proof {
                lemma_assoc_prefix(s, i as int);
                lemma_spec_row_insert(m, base, idx@, s[i as int].0, s[i as int].1);
            }
            match place_key(prefix, &self.entries[i].0, Ghost(base)) {
                KeyPlace::Cell { column, index } => {
                    if index == *idx {
                        let ghost old_row = row@;
                        row.push((column, self.entries[i].1.clone()));
                        assert(pairs_view(row@).drop_last() =~= pairs_view(old_row));
                    }
                },
                _ => {},
            }
            i = i + 1;
        }
        assert(s.subrange(0, i as int) =~= s);
        TableEntry(row)
    }

    /// Table `oid`: for every key `oid.1.<column>.<index>`, row `<index>` holds
    /// column `oid.1.<column>` with the key's value.
    pub fn get_table(&self, oid: &OID) -> (r: Result<Table, ScrapeError>)
        ensures
            match r {
                Ok(t) => {
                    &&& table_ok(self@, oid@)
                    &&& t@.dom() == spec_table(self@, oid@).dom()
                    &&& forall|x: Seq<char>| #[trigger] t@.contains_key(x) ==> t@[x]@ == spec_row(self@, oid@, x)
                },
                Err(e) => !table_ok(self@, oid@) && exists|k: Seq<char>|
                    malformed_key(self@, oid@, k) && e@ == ErrorView::MalformedIndex { oid: k },
            },
    {
        let prefix = oid.0.clone().concat(".1.");
        proof {
            reveal_strlit(".1.");
            assert(prefix@ =~= entry_prefix(oid@));
        }
        let indices = match self.table_indices(&prefix, Ghost(oid@)) {
            Ok(v) => v,
            Err(e) => return Err(e),
        };
        let mut rows: Vec<(String, TableEntry)> = Vec::new();
        let mut t: usize = 0;
        while t < indices.len()
            invariant
                t <= indices@.len(),
                rows@.len() == t,
                prefix@ == entry_prefix(oid@),
                forall|u: int| 0 <= u < t ==> (#[trigger] rows@[u]).0@ == indices@[u]@ && rows@[u].1@ == spec_row(self@, oid@, indices@[u]@),
            decreases indices@.len() - t,
        {
            let row = self.table_row(&prefix, &indices[t], Ghost(oid@));
            rows.push((indices[t].clone(), row));
            t = t + 1;
        }
        let ghost rs = rows_view(rows@);
        let ghost iv = strs_view(indices@);
        proof {
            reveal(indices_inv);
            assert forall|u: int| 0 <= u < indices@.len() implies #[trigger] indices@[u]@ == iv[u] by {}
        }
        assert(unique_keys(rs)) by {
            assert forall|i: int, j: int| 0 <= i < rs.len() && 0 <= j < rs.len() && i != j implies #[trigger] rs[i].0 != #[trigger] rs[j].0 by {
                assert(rows@[i].0@ == iv[i]);
                assert(rows@[j].0@ == iv[j]);
            }
        }
        let table = Table { entries: rows };
        assert forall|x: Seq<char>| table@.contains_key(x) <==> has_row(self@, oid@, x) by {
            lemma_assoc_contains(rs, x);
            if has_row(self@, oid@, x) {
                assert(iv.contains(x));
                let u = choose|u: int| 0 <= u < iv.len() && iv[u] == x;
                assert(rs[u].0 == rows@[u].0@);
            }
            if table@.contains_key(x) {
                let u = choose|u: int| 0 <= u < rs.len() && #[trigger] rs[u].0 == x;
                assert(rows@[u].0@ == iv[u]);
            }
        }
        assert(table@.dom() =~= spec_table(self@, oid@).dom());
        assert forall|x: Seq<char>| #[trigger] table@.contains_key(x) implies table@[x]@ == spec_row(self@, oid@, x) by {
            lemma_assoc_contains(rs, x);
            let u = choose|u: int| 0 <= u < rs.len() && #[trigger] rs[u].0 == x;
            lemma_assoc_unique(rs, u);
            assert(rows@[u].0@ == indices@[u]@);
        }
        Ok(table)
    }

    /// Table `oid` with every row converted to a `T`; fails as a whole when
    /// the table cannot be read or any one row does not convert.
    pub fn parse_table<T: FromRow>(&self, oid: &OID) -> (r: Result<Table<T>, ScrapeError>)
        ensures
            (r is Ok) <==> table_ok(self@, oid@) && rows_convert::<T>(self@, oid@),
            match r {
                Ok(t) => t@ == spec_parsed_table::<T>(self@, oid@),
                Err(e) => parsed_table_error::<T>(self@, oid@, e@),
            },
    {
        let raw = match self.get_table(oid) {
            Ok(t) => t,
            Err(e) => return Err(e),
        };
        proof {
            use_type_invariant(&raw);
        }
        let ghost rs = rows_view(raw.entries@);
        let mut out: Vec<(String, T)> = Vec::new();
        let mut i: usize = 0;
        while i < raw.entries.len()
            invariant
                i <= raw.entries@.len(),
                out@.len() == i,
                rs == rows_view(raw.entries@),
                unique_keys(rs),
                table_ok(self@, oid@),
                raw@.dom() == spec_table(self@, oid@).dom(),
                forall|x: Seq<char>| #[trigger] raw@.contains_key(x) ==> raw@[x]@ == spec_row(self@, oid@, x),
                forall|u: int|
                    0 <= u < i ==> (#[trigger] out@[u]).0@ == rs[u].0 && T::spec_from_row(rs[u].1@) == Ok::<T, ErrorView>(out@[u].1),
            decreases raw.entries@.len() - i,
        {
            proof {
                lemma_assoc_unique(rs, i as int);
                assert(spec_table(self@, oid@).contains_key(rs[i as int].0));
            }
            match T::from_row(&raw.entries[i].1) {
                Ok(v) => {
                    out.push((raw.entries[i].0.clone(), v));
                },
                Err(e) => {
                    return Err(e);
                },
            }
            i = i + 1;
        }
        let ghost os = rows_view(out@);
        assert(unique_keys(os)) by {
            assert forall|a: int, b: int| 0 <= a < os.len() && 0 <= b < os.len() && a != b implies #[trigger] os[a].0 != #[trigger] os[b].0 by {
                assert(out@[a].0@ == rs[a].0);
                assert(out@[b].0@ == rs[b].0);
            }
        }
        let table = Table { entries: out };
        assert forall|x: Seq<char>| table@.contains_key(x) <==> raw@.contains_key(x) by {
            lemma_assoc_contains(os, x);
            lemma_assoc_contains(rs, x);
            if raw@.contains_key(x) {
                let u = choose|u: int| 0 <= u < rs.len() && #[trigger] rs[u].0 == x;
                assert(os[u].0 == out@[u].0@);
            }
            if table@.contains_key(x) {
                let u = choose|u: int| 0 <= u < os.len() && #[trigger] os[u].0 == x;
                assert(out@[u].0@ == rs[u].0);
            }
        }
        assert forall|idx: Seq<char>| #[trigger] has_row(self@, oid@, idx) implies T::spec_from_row(spec_row(self@, oid@, idx)) is Ok && table@[idx] == T::spec_from_row(spec_row(self@, oid@, idx))->Ok_0 by {
            assert(spec_table(self@, oid@).contains_key(idx));
            lemma_assoc_contains(os, idx);
            let u = choose|u: int| 0 <= u < os.len() && #[trigger] os[u].0 == idx;
            lemma_assoc_unique(os, u);
            lemma_assoc_unique(rs, u);
            assert(out@[u].0@ == rs[u].0);
        }
        assert(table@ =~= spec_parsed_table::<T>(self@, oid@));
        Ok(table)
    }

    /// Scalar `oid` read as a `T`.
    pub fn parse_scalar<T: FromColumn>(&self, oid: &OID) -> (r: Result<T, ScrapeError>)
        ensures
            result_view(r) == spec_scalar::<T>(self@, oid@),
    {
        match self.get_scalar(oid) {
            Ok(s) => {
                let key = oid.0.clone().concat(".0");
                proof {
                    reveal_strlit(".0");
                    assert(key@ =~= scalar_key(oid@));
                }
                value_from_text::<T>(key, s)
            },
            Err(e) => Err(e),
        }
    }
}

/// Views of strings.
pub open spec fn strs_view(v: Seq<String>) -> Seq<Seq<char>> {
    v.map_values(|s: String| s@)
}

/// `v` lists the row indices of table `base` of `m`, each once, and no key
/// of `m` under that table is malformed.
#[verifier::opaque]
pub open spec fn indices_inv(m: Map<Seq<char>, Seq<char>>, base: Seq<char>, v: Seq<Seq<char>>) -> bool {
    &&& table_ok(m, base)
    &&& forall|t: int| 0 <= t < v.len() ==> has_row(m, base, #[trigger] v[t])
    &&& forall|x: Seq<char>| has_row(m, base, x) ==> v.contains(x)
    &&& v.no_duplicates()
}

proof fn lemma_indices_empty(base: Seq<char>)
    ensures
        indices_inv(Map::empty(), base, Seq::empty()),
{
    reveal(indices_inv);
}

/// One more key keeps the index list exact: `v` when the key's row is
/// listed or the key is outside the table, `v` and the key's row otherwise.
proof fn lemma_indices_insert(
    m: Map<Seq<char>, Seq<char>>,
    base: Seq<char>,
    k: Seq<char>,
    val: Seq<char>,
    v: Seq<Seq<char>>,
)
    requires
        indices_inv(m, base, v),
        in_table(base, k) ==> table_key(base, k),
    ensures
        !in_table(base, k) || v.contains(row_index(base, k)) ==> indices_inv(m.insert(k, val), base, v),
        in_table(base, k) && !v.contains(row_index(base, k)) ==> indices_inv(
            m.insert(k, val),
            base,
            v.push(row_index(base, k)),
        ),
{
    reveal(indices_inv);
    let m2 = m.insert(k, val);
    assert forall|k2: Seq<char>| !#[trigger] malformed_key(m2, base, k2) by {
        assert(!malformed_key(m, base, k2));
    }
    assert forall|x: Seq<char>| has_row(m, base, x) implies has_row(m2, base, x) by {
        let w = choose|w: Seq<char>| m.contains_key(w) && table_key(base, w) && #[trigger] row_index(base, w) == x;
        assert(m2.contains_key(w));
    }
    assert forall|x: Seq<char>| has_row(m2, base, x) implies has_row(m, base, x) || (table_key(base, k) && x == row_index(base, k)) by {
        let w = choose|w: Seq<char>| m2.contains_key(w) && table_key(base, w) && #[trigger] row_index(base, w) == x;
        if w != k {
            assert(m.contains_key(w));
        }
    }
    if in_table(base, k) {
        assert(m2.contains_key(k));
        assert(has_row(m2, base, row_index(base, k)));
        if !v.contains(row_index(base, k)) {
            let v2 = v.push(row_index(base, k));
            assert forall|t: int| 0 <= t < v2.len() implies has_row(m2, base, #[trigger] v2[t]) by {
                if t < v.len() {
                    assert(v2[t] == v[t]);
                }
            }
            assert forall|x: Seq<char>| has_row(m2, base, x) implies v2.contains(x) by {
                if x == row_index(base, k) {
                    assert(v2[v.len() as int] == x);
                } else {
                    assert(has_row(m, base, x));
                    assert(v.contains(x));
                    let t = choose|t: int| 0 <= t < v.len() && v[t] == x;
                    assert(v2[t] == x);
                }
            }
            assert forall|a: int, b: int| 0 <= a < v2.len() && 0 <= b < v2.len() && a != b implies v2[a] != v2[b] by {
                if a < v.len() && b < v.len() {
                    assert(v2[a] == v[a] && v2[b] == v[b]);
                } else if a < v.len() {
                    assert(v2[a] == v[a]);
                    assert(v.contains(v[a]));
                } else {
                    assert(v2[b] == v[b]);
                    assert(v.contains(v[b]));
                }
            }
        }
    }
}

/// Where a snapshot key stands relative to one table.
enum KeyPlace {
    Outside,
    Malformed,
    Cell { column: OID, index: String },
}

/// Splits `key` against the entry prefix `prefix` of table `base`.
fn place_key(prefix: &String, key: &OID, Ghost(base): Ghost<Seq<char>>) -> (r: KeyPlace)
    requires
        prefix@ == entry_prefix(base),
    ensures
        match r {
            KeyPlace::Outside => !in_table(base, key@),
            KeyPlace::Malformed => in_table(base, key@) && !table_key(base, key@),
            KeyPlace::Cell { column, index } => table_key(base, key@) && column@ == column_of(
                base,
                key@,
            ) && index@ == row_index(base, key@),
        },
{
    let k = key.0.as_str();
    if !has_prefix(k, prefix.as_str()) {
        return KeyPlace::Outside;
    }
    let plen = prefix.as_str().unicode_len();
    let klen = k.unicode_len();
    let rest = k.substring_char(plen, klen);
    assert(rest@ =~= key_rest(base, key@));
    match find_first_dot(rest) {
        None => KeyPlace::Malformed,
        Some(f) => {
            let index = rest.substring_char(f + 1, klen - plen).to_owned();
            assert(index@ =~= row_index(base, key@));
            let column = OID(k.substring_char(0, plen + f).to_owned());
            assert(column@ =~= column_of(base, key@));
            KeyPlace::Cell { column, index }
        },
    }
}

/// Position of `s` in `v`.
fn position_of(v: &Vec<String>, s: &String) -> (r: Option<usize>)
    ensures
        match r {
            Some(i) => i < v@.len() && v@[i as int]@ == s@,
            None => forall|i: int| 0 <= i < v@.len() ==> v@[i]@ != s@,
        },
{
    let mut i: usize = 0;
    while i < v.len()
        invariant
            i <= v@.len(),
            forall|j: int| 0 <= j < i ==> v@[j]@ != s@,
        decreases v@.len() - i,
    {
        if v[i] == *s {
            return Some(i);
        }
        i = i + 1;
    }
    None
}

/// `s` read as a `T`; a failure names the column or scalar key `col`.
fn value_from_text<T: FromColumn>(col: String, s: &String) -> (r: Result<T, ScrapeError>)
    ensures
        result_view(r) == value_of::<T>(col@, s@),
{
    match T::from_column(s.as_str()) {
        Ok(v) => Ok(v),
        Err(ValueError::NotANumber) => Err(ScrapeError::InvalidNumber { column: col, value: s.clone() }),
        Err(ValueError::UnknownCode) => Err(
            ScrapeError::UnknownEnumCode { column: col, value: s.clone() },
        ),
    }
}

impl TableEntry {
    /// A row of the given column/value pairs; a later pair for a column
    /// overrides an earlier one.
    pub fn new(entries: Vec<(OID, String)>) -> (r: TableEntry)
        ensures
            r@ == assoc_view(pairs_view(entries@)),
    {
        TableEntry(entries)
    }

    /// The value text of column `oid`.
    pub fn get_column(&self, oid: &OID) -> (r: Result<&String, ScrapeError>)
        ensures
            match r {
                Ok(v) => self@.contains_key(oid@) && v@ == self@[oid@],
                Err(e) => !self@.contains_key(oid@) && e@ == ErrorView::ColumnNotFound { column: oid@ },
            },
    {
        match find_key(&self.0, &oid.0) {
            Some(i) => Ok(&self.0[i].1),
            None => Err(ScrapeError::ColumnNotFound { column: oid.0.clone() }),
        }
    }

    /// Column `oid` read as a `T`.
    pub fn parse_column<T: FromColumn>(&self, oid: &OID) -> (r: Result<T, ScrapeError>)
        ensures
            result_view(r) == spec_column::<T>(self@, oid@),
    {
        match self.get_column(oid) {
            Ok(s) => value_from_text::<T>(oid.0.clone(), s),
            Err(e) => Err(e),
        }
    }
}

/// Rows keyed by their row index, each index once.
#[derive(Debug)]
pub struct Table<T = TableEntry> {
    entries: Vec<(String, T)>,
}

impl<T> View for Table<T> {
    type V = Map<Seq<char>, T>;

    closed spec fn view(&self) -> Map<Seq<char>, T> {
        assoc_view(rows_view(self.entries@))
    }
}

impl<T> Table<T> {
    #[verifier::type_invariant]
    spec fn inv(self) -> bool {
        unique_keys(rows_view(self.entries@))
    }

    pub fn get(&self, index: &str) -> (r: Option<&T>)
        ensures
            match r {
                Some(v) => self@.contains_key(index@) && *v == self@[index@],
                None => !self@.contains_key(index@),
            },
    {
        proof {
            use_type_invariant(self);
        }
        let key = index.to_owned();
        let ghost s = rows_view(self.entries@);
        let mut i: usize = 0;
        while i < self.entries.len()
            invariant
                i <= self.entries@.len(),
                s == rows_view(self.entries@),
                unique_keys(s),
                key@ == index@,
                forall|j: int| 0 <= j < i ==> s[j].0 != key@,
            decreases self.entries@.len() - i,
        {
            if self.entries[i].0 == key {
                proof {
                    lemma_assoc_unique(s, i as int);
                }
                return Some(&self.entries[i].1);
            }
            i = i + 1;
        }
        proof {
            lemma_assoc_contains(s, key@);
        }
        None
    }

    /// The rows in the order the table keeps them.
    pub closed spec fn rows(&self) -> Seq<(String, T)> {
        self.entries@
    }

    /// The rows, each index once, in the order the table keeps them: the same
    /// sequence on every call on the same table.
    pub fn iter(&self) -> (r: &Vec<(String, T)>)
        ensures
            r@ == self.rows(),
            forall|i: int|
                0 <= i < r@.len() ==> self@.contains_key(#[trigger] r@[i].0@) && self@[r@[i].0@]
                    == r@[i].1,
            forall|k: Seq<char>|
                self@.contains_key(k) ==> exists|i: int| 0 <= i < r@.len() && #[trigger] r@[i].0@ == k,
            forall|i: int, j: int|
                0 <= i < r@.len() && 0 <= j < r@.len() && i != j ==> #[trigger] r@[i].0@
                    != #[trigger] r@[j].0@,
    {
        proof {
            use_type_invariant(self);
            let s = rows_view(self.entries@);
            assert forall|i: int|
                0 <= i < self.entries@.len() implies self@.contains_key(
                #[trigger] self.entries@[i].0@,
            ) && self@[self.entries@[i].0@] == self.entries@[i].1 by {
                lemma_assoc_unique(s, i);
            }
            assert forall|k: Seq<char>| self@.contains_key(k) implies exists|i: int|
                0 <= i < self.entries@.len() && #[trigger] self.entries@[i].0@ == k by {
                lemma_assoc_contains(s, k);
                let i = choose|i: int| 0 <= i < s.len() && #[trigger] s[i].0 == k;
                assert(self.entries@[i].0@ == k);
            }
            assert forall|i: int, j: int|
                0 <= i < self.entries@.len() && 0 <= j < self.entries@.len() && i != j
                implies #[trigger] self.entries@[i].0@ != #[trigger] self.entries@[j].0@ by {
                assert(s[i].0 != s[j].0);
            }
        }
        &self.entries
    }
}

} // verus!
