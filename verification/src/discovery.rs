//! Discovery of relationships between tables from the names of their columns.
use vstd::prelude::*;
use vstd::string::*;
use crate::model::{Column, ColumnView, ForeignKey, ForeignKeyView, Schema, SchemaView, TableView, names_distinct};
use crate::text::{lowercase, to_lowercase};

verus! {

/// Finds foreign keys that no constraint declares, by the names of the columns:
/// a column named `<other>_id`, `<other>id` or `<other>_uuid` (in any case)
/// refers to the table `<other>`, when that table has a primary key or an `id` column.
pub struct NameBasedRelationshipDiscoverer;

/// The lowercase column name `col_lower` is one of the names that refer to the table `other`.
pub open spec fn is_reference_name(col_lower: Seq<char>, other: Seq<char>) -> bool {
    col_lower == other + "_id"@ || col_lower == other + "id"@ || col_lower == other + "_uuid"@
}

/// A column that a discovered foreign key may point at.
pub open spec fn is_target_column(c: ColumnView) -> bool {
    c.is_primary_key || lowercase(c.name) == "id"@
}

/// The first column that a discovered foreign key may point at.
pub open spec fn target_column(cols: Seq<ColumnView>) -> Option<ColumnView>
    decreases cols.len(),
{
    if cols.len() == 0 {
        None
    } else if is_target_column(cols[0]) {
        Some(cols[0])
    } else {
        target_column(cols.drop_first())
    }
}

/// The foreign key that column `c` of table `i` suggests towards table `j`, if any.
pub open spec fn discovered_fk(s: SchemaView, i: int, c: ColumnView, j: int) -> Option<
    ForeignKeyView,
> {
    if s[j].0 == s[i].0 || !is_reference_name(lowercase(c.name), s[j].0) {
        None
    } else {
        match target_column(s[j].1.columns) {
            Some(t) => Some(
                ForeignKeyView {
                    constraint_name: "discovered_fk_"@ + s[i].0 + "_"@ + c.name + "_"@ + s[j].0,
                    column_name: c.name,
                    foreign_table: s[j].0,
                    foreign_column: t.name,
                },
            ),
            None => None,
        }
    }
}

pub open spec fn opt_seq<A>(o: Option<A>) -> Seq<A> {
    match o {
        Some(x) => seq![x],
        None => Seq::empty(),
    }
}

/// The foreign keys that column `c` of table `i` suggests towards the first `m` tables.
pub open spec fn column_candidates(s: SchemaView, i: int, c: ColumnView, m: int) -> Seq<
    ForeignKeyView,
>
    decreases m,
{
    if m <= 0 {
        Seq::empty()
    } else {
        column_candidates(s, i, c, m - 1) + opt_seq(discovered_fk(s, i, c, m - 1))
    }
}

/// The foreign keys that the first `k` columns of table `i` suggest.
pub open spec fn table_candidates(s: SchemaView, i: int, k: int) -> Seq<ForeignKeyView>
    decreases k,
{
    if k <= 0 {
        Seq::empty()
    } else {
        table_candidates(s, i, k - 1) + column_candidates(
            s,
            i,
            s[i].1.columns[k - 1],
            s.len() as int,
        )
    }
}

/// All the foreign keys that the columns of table `i` suggest, in the order of
/// its columns and then of the tables.
pub open spec fn candidates(s: SchemaView, i: int) -> Seq<ForeignKeyView> {
    table_candidates(s, i, s[i].1.columns.len() as int)
}

/// Two foreign keys link the same column to the same table.
pub open spec fn links_same(a: ForeignKeyView, b: ForeignKeyView) -> bool {
    a.column_name == b.column_name && a.foreign_table == b.foreign_table
}

/// Some key in `fks` already links the column of `f` to the table of `f`.
pub open spec fn already_linked(fks: Seq<ForeignKeyView>, f: ForeignKeyView) -> bool {
    exists|k: int| 0 <= k < fks.len() && links_same(fks[k], f)
}

/// `fks` with each of `news` appended, in order, unless a key before it links the same.
pub open spec fn merge_fks(fks: Seq<ForeignKeyView>, news: Seq<ForeignKeyView>) -> Seq<
    ForeignKeyView,
>
    decreases news.len(),
{
    if news.len() == 0 {
        fks
    } else {
        let prev = merge_fks(fks, news.drop_last());
        if already_linked(prev, news.last()) {
            prev
        } else {
            prev.push(news.last())
        }
    }
}

/// Table `i` after discovery: its foreign keys merged with those its columns suggest.
pub open spec fn discovered_table(s: SchemaView, i: int) -> TableView {
    TableView { foreign_keys: merge_fks(s[i].1.foreign_keys, candidates(s, i)), ..s[i].1 }
}

/// The schema after discovery.
pub open spec fn discover_spec(s: SchemaView) -> SchemaView {
    Seq::new(s.len(), |i: int| (s[i].0, discovered_table(s, i)))
}

/// The two schemas have the same names and columns, table by table.
pub open spec fn same_names_and_columns(s1: SchemaView, s2: SchemaView) -> bool {
    s1.len() == s2.len() && forall|t: int|
        0 <= t < s1.len() ==> s1[t].0 == s2[t].0 && s1[t].1.columns == s2[t].1.columns
}

proof fn lemma_column_candidates_same(
    s1: SchemaView,
    s2: SchemaView,
    i: int,
    c: ColumnView,
    m: int,
)
    requires
        same_names_and_columns(s1, s2),
        0 <= i < s1.len(),
        m <= s1.len(),
    ensures
        column_candidates(s1, i, c, m) == column_candidates(s2, i, c, m),
    decreases m,
{
    if m > 0 {
        lemma_column_candidates_same(s1, s2, i, c, m - 1);
        assert(discovered_fk(s1, i, c, m - 1) == discovered_fk(s2, i, c, m - 1));
    }
}

proof fn lemma_table_candidates_same(s1: SchemaView, s2: SchemaView, i: int, k: int)
    requires
        same_names_and_columns(s1, s2),
        0 <= i < s1.len(),
        k <= s1[i].1.columns.len(),
    ensures
        table_candidates(s1, i, k) == table_candidates(s2, i, k),
    decreases k,
{
    if k > 0 {
        lemma_table_candidates_same(s1, s2, i, k - 1);
        lemma_column_candidates_same(s1, s2, i, s1[i].1.columns[k - 1], s1.len() as int);
    }
}

/// The foreign keys a table's columns suggest depend only on the names and the columns.
pub proof fn lemma_candidates_same(s1: SchemaView, s2: SchemaView, i: int)
    requires
        same_names_and_columns(s1, s2),
        0 <= i < s1.len(),
    ensures
        candidates(s1, i) == candidates(s2, i),
{
    lemma_table_candidates_same(s1, s2, i, s1[i].1.columns.len() as int);
}

proof fn lemma_merge_extends(fks: Seq<ForeignKeyView>, news: Seq<ForeignKeyView>)
    ensures
        fks.len() <= merge_fks(fks, news).len(),
        forall|x: int| 0 <= x < fks.len() ==> merge_fks(fks, news)[x] == fks[x],
    decreases news.len(),
{
    if news.len() > 0 {
        lemma_merge_extends(fks, news.drop_last());
    }
}

proof fn lemma_merge_links_all(fks: Seq<ForeignKeyView>, news: Seq<ForeignKeyView>)
    ensures
        forall|k: int| 0 <= k < news.len() ==> already_linked(merge_fks(fks, news), news[k]),
    decreases news.len(),
{
    if news.len() > 0 {
        let front = news.drop_last();
        let prev = merge_fks(fks, front);
        lemma_merge_links_all(fks, front);
        let res = merge_fks(fks, news);
        lemma_merge_extends(prev, seq![news.last()]);
        assert forall|k: int| 0 <= k < news.len() implies already_linked(res, news[k]) by {
            if k < news.len() - 1 {
                assert(front[k] == news[k]);
                let w = choose|w: int| 0 <= w < prev.len() && links_same(prev[w], front[k]);
                assert(res[w] == prev[w]);
            } else if !already_linked(prev, news.last()) {
                assert(res[prev.len() as int] == news.last());
                assert(links_same(res[prev.len() as int], news[k]));
            }
        }
    }
}

proof fn lemma_merge_when_linked(fks: Seq<ForeignKeyView>, news: Seq<ForeignKeyView>)
    requires
        forall|k: int| 0 <= k < news.len() ==> already_linked(fks, news[k]),
    ensures
        merge_fks(fks, news) == fks,
    decreases news.len(),
{
    if news.len() > 0 {
        let front = news.drop_last();
        assert forall|k: int| 0 <= k < front.len() implies already_linked(fks, front[k]) by {
            assert(front[k] == news[k]);
        }
        lemma_merge_when_linked(fks, front);
        assert(already_linked(fks, news[news.len() - 1]));
    }
}

/// Discovery keeps every foreign key the table had, in front of those it adds,
/// and leaves the table names, columns, indexes and descriptions as they were.
pub proof fn law_discovery_keeps_existing_keys(s: SchemaView, i: int)
    requires
        0 <= i < s.len(),
    ensures
        discover_spec(s).len() == s.len(),
        discover_spec(s)[i].0 == s[i].0,
        discover_spec(s)[i].1.name == s[i].1.name,
        discover_spec(s)[i].1.columns == s[i].1.columns,
        discover_spec(s)[i].1.indexes == s[i].1.indexes,
        discover_spec(s)[i].1.description == s[i].1.description,
        s[i].1.foreign_keys.is_prefix_of(discover_spec(s)[i].1.foreign_keys),
{
    lemma_merge_extends(s[i].1.foreign_keys, candidates(s, i));
}

/// After discovery, every link that a column name suggests is present in the table:
/// either it was there already or it was added.
pub proof fn law_discovery_links_every_candidate(s: SchemaView, i: int, k: int)
    requires
        0 <= i < s.len(),
        0 <= k < candidates(s, i).len(),
    ensures
        already_linked(discover_spec(s)[i].1.foreign_keys, candidates(s, i)[k]),
{
    lemma_merge_links_all(s[i].1.foreign_keys, candidates(s, i));
}

/// A link that was already present is never added a second time.
pub proof fn law_discovery_adds_no_present_link(s: SchemaView, i: int, x: int)
    requires
        0 <= i < s.len(),
        s[i].1.foreign_keys.len() <= x < discover_spec(s)[i].1.foreign_keys.len(),
    ensures
        !already_linked(s[i].1.foreign_keys, discover_spec(s)[i].1.foreign_keys[x]),
        forall|y: int|
            0 <= y < x ==> !links_same(
                discover_spec(s)[i].1.foreign_keys[y],
                discover_spec(s)[i].1.foreign_keys[x],
            ),
{
    let f = s[i].1.foreign_keys;
    let res = discover_spec(s)[i].1.foreign_keys;
    lemma_merge_adds_fresh(f, candidates(s, i), x);
    lemma_merge_extends(f, candidates(s, i));
    assert forall|w: int| 0 <= w < f.len() implies !links_same(f[w], res[x]) by {
        assert(res[w] == f[w]);
    }
}

proof fn lemma_merge_adds_fresh(fks: Seq<ForeignKeyView>, news: Seq<ForeignKeyView>, x: int)
    requires
        fks.len() <= x < merge_fks(fks, news).len(),
    ensures
        forall|y: int|
            0 <= y < x ==> !links_same(merge_fks(fks, news)[y], merge_fks(fks, news)[x]),
    decreases news.len(),
{
    let res = merge_fks(fks, news);
    if news.len() > 0 {
        let prev = merge_fks(fks, news.drop_last());
        lemma_merge_extends(prev, seq![news.last()]);
        if x < prev.len() {
            lemma_merge_adds_fresh(fks, news.drop_last(), x);
            assert forall|y: int| 0 <= y < x implies !links_same(res[y], res[x]) by {
                assert(res[y] == prev[y]);
                assert(res[x] == prev[x]);
            }
        } else {
            assert forall|y: int| 0 <= y < x implies !links_same(res[y], res[x]) by {
                assert(res[y] == prev[y]);
            }
        }
    }
}

/// Running discovery a second time changes nothing.
pub proof fn law_discovery_idempotent(s: SchemaView)
    ensures
        discover_spec(discover_spec(s)) == discover_spec(s),
{
    let d = discover_spec(s);
    assert(same_names_and_columns(d, s));
    assert forall|i: int| 0 <= i < s.len() implies discover_spec(d)[i] == d[i] by {
        lemma_candidates_same(d, s, i);
        let c = candidates(s, i);
        lemma_merge_links_all(s[i].1.foreign_keys, c);
        lemma_merge_when_linked(merge_fks(s[i].1.foreign_keys, c), c);
    }
    assert(discover_spec(d) =~= d);
}

/// The key links a column of table `i` to another table, at a column that a
/// discovered key may point at.
pub open spec fn well_aimed(s: SchemaView, i: int, f: ForeignKeyView) -> bool {
    &&& f.foreign_table != s[i].0
    &&& exists|c: int|
        0 <= c < s[i].1.columns.len() && (#[trigger] s[i].1.columns[c]).name == f.column_name
    &&& exists|j: int, t: int|
        0 <= j < s.len() && 0 <= t < s[j].1.columns.len() && s[j].0 == f.foreign_table
            && (#[trigger] s[j].1.columns[t]).name == f.foreign_column && is_target_column(
            s[j].1.columns[t],
        )
}

proof fn lemma_target_column(cols: Seq<ColumnView>)
    ensures
        target_column(cols) matches Some(t) ==> exists|k: int|
            0 <= k < cols.len() && cols[k] == t && is_target_column(t),
    decreases cols.len(),
{
    if cols.len() > 0 && !is_target_column(cols[0]) {
        lemma_target_column(cols.drop_first());
        if let Some(t) = target_column(cols) {
            let k = choose|k: int|
                0 <= k < cols.drop_first().len() && cols.drop_first()[k] == t && is_target_column(t);
            assert(cols[k + 1] == t);
        }
    }
}

proof fn lemma_column_candidates_aimed(s: SchemaView, i: int, c: int, m: int)
    requires
        0 <= i < s.len(),
        0 <= c < s[i].1.columns.len(),
        m <= s.len(),
    ensures
        forall|k: int|
            0 <= k < column_candidates(s, i, s[i].1.columns[c], m).len() ==> well_aimed(
                s,
                i,
                #[trigger] column_candidates(s, i, s[i].1.columns[c], m)[k],
            ),
    decreases m,
{
    let col = s[i].1.columns[c];
    if m > 0 {
        lemma_column_candidates_aimed(s, i, c, m - 1);
        let prev = column_candidates(s, i, col, m - 1);
        let all = column_candidates(s, i, col, m);
        lemma_target_column(s[m - 1].1.columns);
        assert forall|k: int| 0 <= k < all.len() implies well_aimed(s, i, #[trigger] all[k]) by {
            if k < prev.len() {
                assert(all[k] == prev[k]);
            } else {
                let f = all[k];
                assert(discovered_fk(s, i, col, m - 1) == Some(f));
                let cols = s[m - 1].1.columns;
                let t = choose|t: int|
                    0 <= t < cols.len() && #[trigger] cols[t] == target_column(cols)->0
                        && is_target_column(cols[t]);
                assert(s[i].1.columns[c].name == f.column_name);
                assert(s[m - 1].1.columns[t].name == f.foreign_column);
            }
        }
    }
}

proof fn lemma_table_candidates_aimed(s: SchemaView, i: int, k: int)
    requires
        0 <= i < s.len(),
        k <= s[i].1.columns.len(),
    ensures
        forall|x: int|
            0 <= x < table_candidates(s, i, k).len() ==> well_aimed(
                s,
                i,
                #[trigger] table_candidates(s, i, k)[x],
            ),
    decreases k,
{
    if k > 0 {
        lemma_table_candidates_aimed(s, i, k - 1);
        lemma_column_candidates_aimed(s, i, k - 1, s.len() as int);
        let prev = table_candidates(s, i, k - 1);
        let more = column_candidates(s, i, s[i].1.columns[k - 1], s.len() as int);
        assert forall|x: int| 0 <= x < table_candidates(s, i, k).len() implies well_aimed(
            s,
            i,
            #[trigger] table_candidates(s, i, k)[x],
        ) by {
            if x < prev.len() {
                assert(table_candidates(s, i, k)[x] == prev[x]);
            } else {
                assert(table_candidates(s, i, k)[x] == more[x - prev.len()]);
            }
        }
    }
}

proof fn lemma_merge_from(fks: Seq<ForeignKeyView>, news: Seq<ForeignKeyView>)
    ensures
        forall|x: int|
            fks.len() <= x < merge_fks(fks, news).len() ==> exists|k: int|
                0 <= k < news.len() && news[k] == #[trigger] merge_fks(fks, news)[x],
    decreases news.len(),
{
    if news.len() > 0 {
        let front = news.drop_last();
        let prev = merge_fks(fks, front);
        lemma_merge_from(fks, front);
        lemma_merge_extends(fks, front);
        let res = merge_fks(fks, news);
        assert forall|x: int| fks.len() <= x < res.len() implies exists|k: int|
            0 <= k < news.len() && news[k] == #[trigger] res[x] by {
            if x < prev.len() {
                assert(res[x] == prev[x]);
                let k = choose|k: int| 0 <= k < front.len() && front[k] == #[trigger] prev[x];
                assert(news[k] == front[k]);
            } else {
                assert(res[x] == news[news.len() - 1]);
            }
        }
    }
}

/// Every key that discovery adds links a column of the table to another table,
/// at a column of that table that is its primary key or is named `id`.
pub proof fn law_discovered_keys_are_well_aimed(s: SchemaView, i: int, x: int)
    requires
        0 <= i < s.len(),
        s[i].1.foreign_keys.len() <= x < discover_spec(s)[i].1.foreign_keys.len(),
    ensures
        well_aimed(s, i, discover_spec(s)[i].1.foreign_keys[x]),
{
    let c = candidates(s, i);
    lemma_merge_from(s[i].1.foreign_keys, c);
    lemma_table_candidates_aimed(s, i, s[i].1.columns.len() as int);
    let k = choose|k: int|
        0 <= k < c.len() && c[k] == #[trigger] merge_fks(s[i].1.foreign_keys, c)[x];
    assert(well_aimed(s, i, c[k]));
}

proof fn lemma_target_exists(cols: Seq<ColumnView>, t: int)
    requires
        0 <= t < cols.len(),
        is_target_column(cols[t]),
    ensures
        target_column(cols) is Some,
    decreases cols.len(),
{
    if t > 0 && !is_target_column(cols[0]) {
        assert(cols.drop_first()[t - 1] == cols[t]);
        lemma_target_exists(cols.drop_first(), t - 1);
    }
}

proof fn lemma_in_column_candidates(s: SchemaView, i: int, c: ColumnView, m: int, j: int)
    requires
        0 <= j < m,
        discovered_fk(s, i, c, j) is Some,
    ensures
        column_candidates(s, i, c, m).contains(discovered_fk(s, i, c, j)->0),
    decreases m,
{
    let f = discovered_fk(s, i, c, j)->0;
    let prev = column_candidates(s, i, c, m - 1);
    let all = column_candidates(s, i, c, m);
    if j < m - 1 {
        lemma_in_column_candidates(s, i, c, m - 1, j);
        let x = choose|x: int| 0 <= x < prev.len() && prev[x] == f;
        assert(all[x] == prev[x]);
    } else {
        assert(all[prev.len() as int] == f);
    }
}

proof fn lemma_in_table_candidates(s: SchemaView, i: int, k: int, c: int, f: ForeignKeyView)
    requires
        0 <= i < s.len(),
        0 <= c < k <= s[i].1.columns.len(),
        column_candidates(s, i, s[i].1.columns[c], s.len() as int).contains(f),
    ensures
        table_candidates(s, i, k).contains(f),
    decreases k,
{
    let prev = table_candidates(s, i, k - 1);
    let more = column_candidates(s, i, s[i].1.columns[k - 1], s.len() as int);
    let all = table_candidates(s, i, k);
    assert(all == prev + more);
    if c < k - 1 {
        lemma_in_table_candidates(s, i, k - 1, c, f);
        let x = choose|x: int| 0 <= x < prev.len() && prev[x] == f;
        assert(all[x] == prev[x]);
    } else {
        let x = choose|x: int| 0 <= x < more.len() && more[x] == f;
        assert(all[prev.len() + x] == more[x]);
    }
}

/// Discovery finds every reference that the naming rule gives, whatever the
/// order of the tables: when a column of table `i`, in lowercase, is the name of
/// another table `j` followed by `_id`, `id` or `_uuid`, and `j` has a column that
/// is its primary key or is named `id` (in any case), then afterwards table `i`
/// has a foreign key from that column to `j`.
pub proof fn law_discovery_finds_every_named_reference(s: SchemaView, i: int, c: int, j: int, t: int)
    requires
        names_distinct(s),
        0 <= i < s.len(),
        0 <= j < s.len(),
        j != i,
        0 <= c < s[i].1.columns.len(),
        lowercase(s[i].1.columns[c].name) == s[j].0 + "_id"@ || lowercase(s[i].1.columns[c].name)
            == s[j].0 + "id"@ || lowercase(s[i].1.columns[c].name) == s[j].0 + "_uuid"@,
        0 <= t < s[j].1.columns.len(),
        s[j].1.columns[t].is_primary_key || lowercase(s[j].1.columns[t].name) == "id"@,
    ensures
        exists|x: int|
            0 <= x < discover_spec(s)[i].1.foreign_keys.len() && (#[trigger] discover_spec(
                s,
            )[i].1.foreign_keys[x]).column_name == s[i].1.columns[c].name && discover_spec(
                s,
            )[i].1.foreign_keys[x].foreign_table == s[j].0,
{
    let col = s[i].1.columns[c];
    lemma_target_exists(s[j].1.columns, t);
    assert(discovered_fk(s, i, col, j) is Some);
    let f = discovered_fk(s, i, col, j)->0;
    lemma_in_column_candidates(s, i, col, s.len() as int, j);
    lemma_in_table_candidates(s, i, s[i].1.columns.len() as int, c, f);
    let cands = candidates(s, i);
    let k = choose|k: int| 0 <= k < cands.len() && cands[k] == f;
    law_discovery_links_every_candidate(s, i, k);
    let fks = discover_spec(s)[i].1.foreign_keys;
    let x = choose|x: int| 0 <= x < fks.len() && links_same(fks[x], cands[k]);
    assert(fks[x].column_name == col.name && fks[x].foreign_table == s[j].0);
}

/// Copies a foreign key.
pub fn copy_foreign_key(f: &ForeignKey) -> (r: ForeignKey)
    ensures
        r@ == f@,
{
    ForeignKey {
        constraint_name: f.constraint_name.clone(),
        column_name: f.column_name.clone(),
        foreign_table: f.foreign_table.clone(),
        foreign_column: f.foreign_column.clone(),
    }
}

/// `a` followed by `b` as one string.
pub fn concat2(a: &str, b: &str) -> (r: String)
    ensures
        r@ == a@ + b@,
{
    let mut r = String::from_str(a);
    r.append(b);
    r
}

/// The index of the first column a discovered key may point at.
fn find_target_column(cols: &Vec<Column>) -> (r: Option<usize>)
    ensures
        match target_column(cols@.map_values(|c: Column| c@)) {
            Some(t) => r is Some && r->0 < cols@.len() && t == cols@[r->0 as int]@,
            None => r is None,
        },
{
    let ghost v = cols@.map_values(|c: Column| c@);
    let id = String::from_str("id");
    assert(v.skip(0) =~= v);
    let mut k: usize = 0;
    while k < cols.len()
        invariant
            v == cols@.map_values(|c: Column| c@),
            k <= cols@.len(),
            id@ == "id"@,
            target_column(v) == target_column(v.skip(k as int)),
        decreases cols.len() - k,
    {
        let c = &cols[k];
        let lower = to_lowercase(c.name.as_str());
        proof {
            assert(v.skip(k as int)[0] == c@);
            assert(v.skip(k as int).drop_first() =~= v.skip(k + 1));
        }
        if c.is_primary_key || lower == id {
            return Some(k);
        }
        k = k + 1;
    }
    proof {
        assert(v.skip(k as int).len() == 0);
    }
    None
}

/// Whether a key in `fks` already links the column of `f` to the table of `f`.
fn already_linked_exec(fks: &Vec<ForeignKey>, f: &ForeignKey) -> (r: bool)
    ensures
        r == already_linked(fks@.map_values(|x: ForeignKey| x@), f@),
{
    let ghost v = fks@.map_values(|x: ForeignKey| x@);
    let mut k: usize = 0;
    while k < fks.len()
        invariant
            v == fks@.map_values(|x: ForeignKey| x@),
            k <= fks@.len(),
            forall|t: int| 0 <= t < k ==> !links_same(v[t], f@),
        decreases fks.len() - k,
    {
        if fks[k].column_name == f.column_name && fks[k].foreign_table == f.foreign_table {
            assert(links_same(v[k as int], f@));
            return true;
        }
        k = k + 1;
    }
    false
}

impl NameBasedRelationshipDiscoverer {
    /// The foreign keys that the columns of table `i` suggest.
    fn candidates_for(schema: &Schema, i: usize) -> (r: Vec<ForeignKey>)
        requires
            i < schema@.len(),
        ensures
            r@.map_values(|f: ForeignKey| f@) == candidates(schema@, i as int),
    {
        let ghost s = schema@;
        let n = schema.tables.len();
        let key = &schema.tables[i].0;
        let table = &schema.tables[i].1;
        let ghost cols = s[i as int].1.columns;
        assert(cols == table.columns@.map_values(|c: Column| c@));
        let mut r: Vec<ForeignKey> = Vec::new();
        let mut k: usize = 0;
        while k < table.columns.len()
            invariant
                s == schema@,
                n == s.len(),
                i < n,
                key@ == s[i as int].0,
                cols == s[i as int].1.columns,
                cols == table.columns@.map_values(|c: Column| c@),
                k <= cols.len(),
                r@.map_values(|f: ForeignKey| f@) == table_candidates(s, i as int, k as int),
            decreases table.columns.len() - k,
        {
            let col = &table.columns[k];
            let lower = to_lowercase(col.name.as_str());
            let ghost before = r@.map_values(|f: ForeignKey| f@);
            let mut j: usize = 0;
            while j < n
                invariant
                    s == schema@,
                    n == s.len(),
                    i < n,
                    key@ == s[i as int].0,
                    k < cols.len(),
                    cols[k as int] == col@,
                    lower@ == lowercase(col.name@),
                    j <= n,
                    r@.map_values(|f: ForeignKey| f@) == before + column_candidates(
                        s,
                        i as int,
                        col@,
                        j as int,
                    ),
                decreases n - j,
            {
                let ghost prev = r@.map_values(|f: ForeignKey| f@);
                let other = &schema.tables[j].0;
                assert(other@ == s[j as int].0);
                if *other != *key {
                    let p1 = concat2(other.as_str(), "_id");
                    let p2 = concat2(other.as_str(), "id");
                    let p3 = concat2(other.as_str(), "_uuid");
                    if lower == p1 || lower == p2 || lower == p3 {
                        let other_cols = &schema.tables[j].1.columns;
                        assert(other_cols@.map_values(|c: Column| c@) == s[j as int].1.columns);
                        match find_target_column(other_cols) {
                            Some(t) => {
                                let mut name = concat2("discovered_fk_", key.as_str());
                                name.append("_");
                                name.append(col.name.as_str());
                                name.append("_");
                                name.append(other.as_str());
                                let fk = ForeignKey {
                                    constraint_name: name,
                                    column_name: col.name.clone(),
                                    foreign_table: other.clone(),
                                    foreign_column: other_cols[t].name.clone(),
                                };
                                assert(discovered_fk(s, i as int, col@, j as int) == Some(fk@));
                                r.push(fk);
                                assert(r@.map_values(|f: ForeignKey| f@) =~= prev.push(fk@));
                            },
                            None => {
                                assert(discovered_fk(s, i as int, col@, j as int) is None);
                            },
                        }
                    } else {
                        assert(discovered_fk(s, i as int, col@, j as int) is None);
                    }
                } else {
                    assert(discovered_fk(s, i as int, col@, j as int) is None);
                }
                proof {
                    assert(column_candidates(s, i as int, col@, j + 1) == column_candidates(
                        s,
                        i as int,
                        col@,
                        j as int,
                    ) + opt_seq(discovered_fk(s, i as int, col@, j as int)));
                    assert(r@.map_values(|f: ForeignKey| f@) =~= before + column_candidates(
                        s,
                        i as int,
                        col@,
                        j + 1,
                    ));
                }
                j = j + 1;
            }
            k = k + 1;
        }
        r
    }

    /// Adds to each table the foreign keys that its column names suggest, unless
    /// the table already has a key from the same column to the same table.
    pub fn discover(&self, schema: &mut Schema)
        requires
            old(schema).wf(),
        ensures
            final(schema)@ == discover_spec(old(schema)@),
    {
        let ghost s0 = schema@;
        let n = schema.tables.len();
        let mut i: usize = 0;
        while i < n
            invariant
                n == schema.tables@.len(),
                s0.len() == n,
                schema@.len() == n,
                names_distinct(s0),
                i <= n,
                forall|t: int| 0 <= t < i ==> schema@[t] == discover_spec(s0)[t],
                forall|t: int| i <= t < n ==> schema@[t] == s0[t],
                same_names_and_columns(schema@, s0),
            decreases n - i,
        {
            let news = Self::candidates_for(schema, i);
            proof {
                lemma_candidates_same(schema@, s0, i as int);
            }
            let ghost cands = news@.map_values(|f: ForeignKey| f@);
            let ghost mid = schema@;
            let mut t: usize = 0;
            while t < news.len()
                invariant
                    n == schema.tables@.len(),
                    i < n,
                    cands == news@.map_values(|f: ForeignKey| f@),
                    cands == candidates(s0, i as int),
                    mid[i as int] == s0[i as int],
                    t <= news@.len(),
                    schema@.len() == n,
                    forall|u: int| 0 <= u < n && u != i ==> schema@[u] == mid[u],
                    schema@[i as int] == (
                        s0[i as int].0,
                        TableView {
                            foreign_keys: merge_fks(
                                s0[i as int].1.foreign_keys,
                                cands.take(t as int),
                            ),
                            ..s0[i as int].1
                        },
                    ),
                decreases news.len() - t,
            {
                proof {
                    assert(cands.take(t + 1).drop_last() =~= cands.take(t as int));
                    assert(cands.take(t + 1).last() == news@[t as int]@);
                }
                let linked = already_linked_exec(&schema.tables[i].1.foreign_keys, &news[t]);
                if !linked {
                    let fk = copy_foreign_key(&news[t]);
                    let ghost before = schema.tables@[i as int].1.foreign_keys@;
                    schema.tables[i].1.foreign_keys.push(fk);
                    proof {
                        assert(schema.tables@[i as int].1.foreign_keys@.map_values(
                            |x: ForeignKey| x@,
                        ) =~= before.map_values(|x: ForeignKey| x@).push(fk@));
                    }
                }
                proof {
                    assert(schema@[i as int].1 =~= TableView {
                        foreign_keys: merge_fks(
                            s0[i as int].1.foreign_keys,
                            cands.take(t + 1),
                        ),
                        ..s0[i as int].1
                    });
                }
                t = t + 1;
            }
            proof {
                assert(cands.take(news@.len() as int) =~= cands);
                assert(schema@[i as int] == discover_spec(s0)[i as int]);
            }
            i = i + 1;
        }
        assert(schema@ =~= discover_spec(s0));
    }
}

} // verus!
