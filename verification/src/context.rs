//! The description of a schema that is given to a language model.
use vstd::prelude::*;
use vstd::string::*;
use crate::model::{Column, ColumnView, ForeignKey, ForeignKeyView, Index, IndexView, Schema, SchemaView, Table, TableView};
use crate::text::{
    concat_map, contains_text, has_substring, join_spec, join_text, lemma_concat_map_all,
    lemma_concat_map_split, lemma_concat_map_take, lowercase, occurs_at, to_lowercase,
};

verus! {

/// `  - <name> (<type>)` and a newline.
pub open spec fn brief_column_line(c: ColumnView) -> Seq<char> {
    "  - "@ + c.name + " ("@ + c.data_type + ")\n"@
}

/// `Table: <name>` and a line per column.
pub open spec fn brief_table_text(e: (Seq<char>, TableView)) -> Seq<char> {
    "Table: "@ + e.0 + "\n"@ + concat_map(e.1.columns, |c: ColumnView| brief_column_line(c))
}

/// The short description of a schema: each table with its columns and their types.
pub open spec fn brief_context_spec(s: SchemaView) -> Seq<char> {
    "Database Schema:\n"@ + concat_map(s, |e: (Seq<char>, TableView)| brief_table_text(e))
}

/// `  - <name> <type> <NOT NULL?><(PK)?>` and a newline.
pub open spec fn column_detail_line(c: ColumnView) -> Seq<char> {
    "  - "@ + c.name + " "@ + c.data_type + " "@ + (if c.is_nullable {
        Seq::<char>::empty()
    } else {
        " NOT NULL"@
    }) + (if c.is_primary_key {
        " (PK)"@
    } else {
        Seq::<char>::empty()
    }) + "\n"@
}

/// `    - <column> references <table>(<column>)` and a newline.
pub open spec fn foreign_key_line(f: ForeignKeyView) -> Seq<char> {
    "    - "@ + f.column_name + " references "@ + f.foreign_table + "("@ + f.foreign_column
        + ")\n"@
}

/// `    - <name> on (<columns>)<(UNIQUE)?>` and a newline.
pub open spec fn index_line(i: IndexView) -> Seq<char> {
    "    - "@ + i.name + " on ("@ + join_spec(i.columns, ", "@) + ")"@ + (if i.is_unique {
        " (UNIQUE)"@
    } else {
        Seq::<char>::empty()
    }) + "\n"@
}

/// A table with its columns, and its foreign keys and indexes when it has any.
pub open spec fn detailed_table_text(e: (Seq<char>, TableView)) -> Seq<char> {
    "Table: "@ + e.0 + "\n"@ + concat_map(e.1.columns, |c: ColumnView| column_detail_line(c)) + (
    if e.1.foreign_keys.len() == 0 {
        Seq::<char>::empty()
    } else {
        "  Foreign Keys:\n"@ + concat_map(e.1.foreign_keys, |f: ForeignKeyView| foreign_key_line(f))
    }) + (if e.1.indexes.len() == 0 {
        Seq::<char>::empty()
    } else {
        "  Indexes:\n"@ + concat_map(e.1.indexes, |i: IndexView| index_line(i))
    })
}

/// The prompt (in lowercase) names the table, or one of its columns.
pub open spec fn is_relevant(prompt_lower: Seq<char>, e: (Seq<char>, TableView)) -> bool {
    has_substring(prompt_lower, lowercase(e.0)) || exists|k: int|
        0 <= k < e.1.columns.len() && has_substring(
            prompt_lower,
            lowercase(#[trigger] e.1.columns[k].name),
        )
}

/// The table is described: schemas of more than ten tables keep only the
/// tables that the prompt names or whose columns it names.
pub open spec fn is_described(s: SchemaView, prompt: Seq<char>, e: (Seq<char>, TableView)) -> bool {
    is_relevant(lowercase(prompt), e) || s.len() <= 10
}

/// The detailed description of a schema for a prompt.
pub open spec fn pruned_context_spec(s: SchemaView, prompt: Seq<char>) -> Seq<char> {
    "Database Schema:\n"@ + concat_map(
        s,
        |e: (Seq<char>, TableView)|
            if is_described(s, prompt, e) {
                detailed_table_text(e)
            } else {
                Seq::<char>::empty()
            },
    )
}

/// Describes each table of the schema with its columns and their types.
pub fn brief_schema_context(schema: &Schema) -> (r: String)
    ensures
        r@ == brief_context_spec(schema@),
{
    let ghost s = schema@;
    let ghost f = |e: (Seq<char>, TableView)| brief_table_text(e);
    let mut r = String::from_str("Database Schema:\n");
    let mut i: usize = 0;
    while i < schema.tables.len()
        invariant
            s == schema@,
            i <= s.len(),
            r@ == "Database Schema:\n"@ + concat_map(s.take(i as int), f),
            f == (|e: (Seq<char>, TableView)| brief_table_text(e)),
        decreases schema.tables.len() - i,
    {
        let (name, table) = &schema.tables[i];
        let ghost cols = table.columns@.map_values(|c: Column| c@);
        let ghost g = |c: ColumnView| brief_column_line(c);
        let ghost before = r@;
        r.append("Table: ");
        r.append(name.as_str());
        r.append("\n");
        let mut k: usize = 0;
        while k < table.columns.len()
            invariant
                cols == table.columns@.map_values(|c: Column| c@),
                k <= cols.len(),
                r@ == before + "Table: "@ + name@ + "\n"@ + concat_map(cols.take(k as int), g),
                g == (|c: ColumnView| brief_column_line(c)),
            decreases table.columns.len() - k,
        {
            let c = &table.columns[k];
            r.append("  - ");
            r.append(c.name.as_str());
            r.append(" (");
            r.append(c.data_type.as_str());
            r.append(")\n");
            proof {
                lemma_concat_map_take(cols, g, k as int);
                assert(cols[k as int] == c@);
                assert(g(cols[k as int]) == brief_column_line(cols[k as int]));
                assert(r@ =~= before + "Table: "@ + name@ + "\n"@ + concat_map(cols.take(k + 1), g));
            }
            k = k + 1;
        }
        proof {
            lemma_concat_map_all(cols, g);
            lemma_concat_map_take(s, f, i as int);
            assert(s[i as int] == (name@, table@));
            assert(r@ =~= "Database Schema:\n"@ + concat_map(s.take(i + 1), f));
        }
        i = i + 1;
    }
    proof {
        lemma_concat_map_all(s, f);
    }
    r
}

/// Appends the line that describes a column in detail.
fn push_column_detail(r: &mut String, c: &Column)
    ensures
        final(r)@ == old(r)@ + column_detail_line(c@),
{
    let ghost start = r@;
    r.append("  - ");
    r.append(c.name.as_str());
    r.append(" ");
    r.append(c.data_type.as_str());
    r.append(" ");
    let ghost mid = r@;
    if !c.is_nullable {
        r.append(" NOT NULL");
    }
    let ghost mid2 = r@;
    assert(mid2 =~= mid + (if c.is_nullable { Seq::<char>::empty() } else { " NOT NULL"@ }));
    if c.is_primary_key {
        r.append(" (PK)");
    }
    let ghost mid3 = r@;
    assert(mid3 =~= mid2 + (if c.is_primary_key { " (PK)"@ } else { Seq::<char>::empty() }));
    r.append("\n");
    assert(r@ =~= start + column_detail_line(c@));
}

/// Appends the line that describes a foreign key.
fn push_foreign_key(r: &mut String, f: &ForeignKey)
    ensures
        final(r)@ == old(r)@ + foreign_key_line(f@),
{
    r.append("    - ");
    r.append(f.column_name.as_str());
    r.append(" references ");
    r.append(f.foreign_table.as_str());
    r.append("(");
    r.append(f.foreign_column.as_str());
    r.append(")\n");
    assert(final(r)@ =~= old(r)@ + foreign_key_line(f@));
}

/// Appends the line that describes an index.
fn push_index(r: &mut String, i: &Index)
    ensures
        final(r)@ == old(r)@ + index_line(i@),
{
    r.append("    - ");
    r.append(i.name.as_str());
    r.append(" on (");
    let cols = join_text(&i.columns, ", ");
    r.append(cols.as_str());
    r.append(")");
    let ghost mid = r@;
    if i.is_unique {
        r.append(" (UNIQUE)");
    }
    assert(r@ =~= mid + (if i.is_unique { " (UNIQUE)"@ } else { Seq::<char>::empty() }));
    r.append("\n");
    assert(r@ =~= old(r)@ + index_line(i@));
}

/// Appends the detailed lines of the columns.
fn push_column_details(r: &mut String, columns: &Vec<Column>)
    ensures
        final(r)@ == old(r)@ + concat_map(
            columns@.map_values(|c: Column| c@),
            |c: ColumnView| column_detail_line(c),
        ),
{
    let ghost cols = columns@.map_values(|c: Column| c@);
    let ghost g = |c: ColumnView| column_detail_line(c);
    let ghost head = r@;
    let mut k: usize = 0;
    while k < columns.len()
        invariant
            cols == columns@.map_values(|c: Column| c@),
            k <= cols.len(),
            r@ == head + concat_map(cols.take(k as int), g),
            g == (|c: ColumnView| column_detail_line(c)),
        decreases columns.len() - k,
    {
        push_column_detail(r, &columns[k]);
        proof {
            lemma_concat_map_take(cols, g, k as int);
            assert(cols[k as int] == columns@[k as int]@);
            assert(r@ =~= head + concat_map(cols.take(k + 1), g));
        }
        k = k + 1;
    }
    proof {
        lemma_concat_map_all(cols, g);
    }
}

/// Appends the section of foreign keys, when there are any.
fn push_foreign_keys_section(r: &mut String, keys: &Vec<ForeignKey>)
    ensures
        final(r)@ == old(r)@ + (if keys@.len() == 0 {
            Seq::<char>::empty()
        } else {
            "  Foreign Keys:\n"@ + concat_map(
                keys@.map_values(|f: ForeignKey| f@),
                |f: ForeignKeyView| foreign_key_line(f),
            )
        }),
{
    if keys.len() == 0 {
        assert(r@ =~= r@ + Seq::<char>::empty());
        return ;
    }
    let ghost fks = keys@.map_values(|f: ForeignKey| f@);
    let ghost h = |f: ForeignKeyView| foreign_key_line(f);
    let ghost start = r@;
    r.append("  Foreign Keys:\n");
    let ghost head = r@;
    let mut k: usize = 0;
    while k < keys.len()
        invariant
            fks == keys@.map_values(|f: ForeignKey| f@),
            k <= fks.len(),
            r@ == head + concat_map(fks.take(k as int), h),
            h == (|f: ForeignKeyView| foreign_key_line(f)),
        decreases keys.len() - k,
    {
        push_foreign_key(r, &keys[k]);
        proof {
            lemma_concat_map_take(fks, h, k as int);
            assert(fks[k as int] == keys@[k as int]@);
            assert(r@ =~= head + concat_map(fks.take(k + 1), h));
        }
        k = k + 1;
    }
    proof {
        lemma_concat_map_all(fks, h);
        assert(r@ =~= start + ("  Foreign Keys:\n"@ + concat_map(fks, h)));
    }
}

/// Appends the section of indexes, when there are any.
fn push_indexes_section(r: &mut String, indexes: &Vec<Index>)
    ensures
        final(r)@ == old(r)@ + (if indexes@.len() == 0 {
            Seq::<char>::empty()
        } else {
            "  Indexes:\n"@ + concat_map(
                indexes@.map_values(|i: Index| i@),
                |i: IndexView| index_line(i),
            )
        }),
{
    if indexes.len() == 0 {
        assert(r@ =~= r@ + Seq::<char>::empty());
        return ;
    }
    let ghost idxs = indexes@.map_values(|i: Index| i@);
    let ghost q = |i: IndexView| index_line(i);
    let ghost start = r@;
    r.append("  Indexes:\n");
    let ghost head = r@;
    let mut k: usize = 0;
    while k < indexes.len()
        invariant
            idxs == indexes@.map_values(|i: Index| i@),
            k <= idxs.len(),
            r@ == head + concat_map(idxs.take(k as int), q),
            q == (|i: IndexView| index_line(i)),
        decreases indexes.len() - k,
    {
        push_index(r, &indexes[k]);
        proof {
            lemma_concat_map_take(idxs, q, k as int);
            assert(idxs[k as int] == indexes@[k as int]@);
            assert(r@ =~= head + concat_map(idxs.take(k + 1), q));
        }
        k = k + 1;
    }
    proof {
        lemma_concat_map_all(idxs, q);
        assert(r@ =~= start + ("  Indexes:\n"@ + concat_map(idxs, q)));
    }
}

/// Appends the detailed description of a table.
fn push_detailed_table(r: &mut String, name: &String, table: &Table)
    ensures
        final(r)@ == old(r)@ + detailed_table_text((name@, table@)),
{
    let ghost start = r@;
    r.append("Table: ");
    r.append(name.as_str());
    r.append("\n");
    let ghost a = r@;
    push_column_details(r, &table.columns);
    let ghost b = r@;
    push_foreign_keys_section(r, &table.foreign_keys);
    let ghost c = r@;
    push_indexes_section(r, &table.indexes);
    proof {
        let d = detailed_table_text((name@, table@));
        assert(r@ =~= start + d);
    }
}

/// Whether the lowercase prompt names the table or one of its columns.
fn relevant_to(prompt_lower: &String, name: &String, table: &Table) -> (r: bool)
    ensures
        r == is_relevant(prompt_lower@, (name@, table@)),
{
    let name_lower = to_lowercase(name.as_str());
    if contains_text(prompt_lower.as_str(), name_lower.as_str()) {
        return true;
    }
    let ghost cols = table@.columns;
    let mut k: usize = 0;
    while k < table.columns.len()
        invariant
            cols == table@.columns,
            k <= cols.len(),
            forall|j: int|
                0 <= j < k ==> !has_substring(prompt_lower@, lowercase(#[trigger] cols[j].name)),
        decreases table.columns.len() - k,
    {
        let col_lower = to_lowercase(table.columns[k].name.as_str());
        if contains_text(prompt_lower.as_str(), col_lower.as_str()) {
            assert(cols[k as int].name == table.columns@[k as int].name@);
            return true;
        }
        k = k + 1;
    }
    false
}

/// Describes the schema in detail for a prompt: columns with their types,
/// nullability and primary keys, foreign keys and indexes. A schema of more than
/// ten tables keeps only the tables that the prompt names or whose columns it names.
pub fn pruned_schema_context(schema: &Schema, prompt: &str) -> (r: String)
    ensures
        r@ == pruned_context_spec(schema@, prompt@),
{
    let ghost s = schema@;
    let ghost f = |e: (Seq<char>, TableView)|
        if is_described(s, prompt@, e) {
            detailed_table_text(e)
        } else {
            Seq::<char>::empty()
        };
    let prompt_lower = to_lowercase(prompt);
    let mut r = String::from_str("Database Schema:\n");
    let mut i: usize = 0;
    while i < schema.tables.len()
        invariant
            s == schema@,
            prompt_lower@ == lowercase(prompt@),
            i <= s.len(),
            r@ == "Database Schema:\n"@ + concat_map(s.take(i as int), f),
            f == (|e: (Seq<char>, TableView)|
                if is_described(s, prompt@, e) {
                    detailed_table_text(e)
                } else {
                    Seq::<char>::empty()
                }),
        decreases schema.tables.len() - i,
    {
        let (name, table) = &schema.tables[i];
        proof {
            assert(s[i as int] == (name@, table@));
            lemma_concat_map_take(s, f, i as int);
        }
        let relevant = relevant_to(&prompt_lower, name, table);
        let ghost before = r@;
        if relevant || schema.tables.len() <= 10 {
            push_detailed_table(&mut r, name, table);
        }
        assert(r@ =~= before + f(s[i as int]));
        proof {
            assert(r@ =~= "Database Schema:\n"@ + concat_map(s.take(i + 1), f));
        }
        i = i + 1;
    }
    proof {
        lemma_concat_map_all(s, f);
    }
    r
}

/// A schema of at most ten tables is described whole; in a larger one, every
/// table that the prompt names is described.
pub proof fn law_small_schemas_described_whole(s: SchemaView, prompt: Seq<char>, i: int)
    requires
        0 <= i < s.len(),
        s.len() <= 10 || has_substring(lowercase(prompt), lowercase(s[i].0)),
    ensures
        is_described(s, prompt, s[i]),
{
}

/// The text of item `i` occurs in the text of all the items.
proof fn lemma_item_text_occurs<A>(items: Seq<A>, f: spec_fn(A) -> Seq<char>, i: int)
    requires
        0 <= i < items.len(),
    ensures
        occurs_at(concat_map(items, f), f(items[i]), concat_map(items.take(i), f).len() as int),
{
    lemma_concat_map_split(items, f, i);
    let rest = items.skip(i);
    lemma_concat_map_split(rest, f, 1);
    let one = rest.take(1);
    assert(one.drop_last() =~= Seq::<A>::empty());
    assert(one.last() == items[i]);
    assert(concat_map(one.drop_last(), f) =~= Seq::<char>::empty());
    assert(concat_map(one, f) =~= f(items[i]));
    let whole = concat_map(items, f);
    let pre = concat_map(items.take(i), f);
    assert(whole.subrange(pre.len() as int, pre.len() + f(items[i]).len() as int) =~= f(items[i]));
}

/// Every table that the context describes appears in it with its full
/// description: columns, foreign keys and indexes.
pub proof fn law_described_tables_in_context(s: SchemaView, prompt: Seq<char>, i: int)
    requires
        0 <= i < s.len(),
        is_described(s, prompt, s[i]),
    ensures
        has_substring(pruned_context_spec(s, prompt), detailed_table_text(s[i])),
{
    let f = |e: (Seq<char>, TableView)|
        if is_described(s, prompt, e) {
            detailed_table_text(e)
        } else {
            Seq::<char>::empty()
        };
    lemma_item_text_occurs(s, f, i);
    let head = "Database Schema:\n"@;
    let body = concat_map(s, f);
    let k = concat_map(s.take(i), f).len() as int;
    let whole = pruned_context_spec(s, prompt);
    assert(whole == head + body);
    assert(whole.subrange(head.len() + k, head.len() + k + f(s[i]).len() as int) =~= body.subrange(
        k,
        k + f(s[i]).len() as int,
    ));
    assert(occurs_at(whole, detailed_table_text(s[i]), head.len() + k));
}

/// Every table appears in the short description with its columns.
pub proof fn law_every_table_in_brief_context(s: SchemaView, i: int)
    requires
        0 <= i < s.len(),
    ensures
        has_substring(brief_context_spec(s), brief_table_text(s[i])),
{
    let f = |e: (Seq<char>, TableView)| brief_table_text(e);
    lemma_item_text_occurs(s, f, i);
    let head = "Database Schema:\n"@;
    let body = concat_map(s, f);
    let k = concat_map(s.take(i), f).len() as int;
    let whole = brief_context_spec(s);
    assert(whole == head + body);
    assert(whole.subrange(head.len() + k, head.len() + k + f(s[i]).len() as int) =~= body.subrange(
        k,
        k + f(s[i]).len() as int,
    ));
    assert(occurs_at(whole, brief_table_text(s[i]), head.len() + k));
}

/// In a schema of any size, a table is described in full whenever the prompt,
/// in lowercase, contains the lowercase name of the table or of any one of its
/// columns.
pub proof fn law_named_tables_kept(s: SchemaView, prompt: Seq<char>, i: int)
    requires
        0 <= i < s.len(),
        has_substring(lowercase(prompt), lowercase(s[i].0)) || exists|k: int|
            0 <= k < s[i].1.columns.len() && has_substring(
                lowercase(prompt),
                lowercase(#[trigger] s[i].1.columns[k].name),
            ),
    ensures
        has_substring(pruned_context_spec(s, prompt), detailed_table_text(s[i])),
{
    assert(is_described(s, prompt, s[i]));
    law_described_tables_in_context(s, prompt, i);
}

/// A table whose column `k` the prompt names is described in full.
pub proof fn law_table_kept_for_any_named_column(s: SchemaView, prompt: Seq<char>, i: int, k: int)
    requires
        0 <= i < s.len(),
        0 <= k < s[i].1.columns.len(),
        has_substring(lowercase(prompt), lowercase(s[i].1.columns[k].name)),
    ensures
        has_substring(pruned_context_spec(s, prompt), detailed_table_text(s[i])),
{
    law_named_tables_kept(s, prompt, i);
}

} // verus!
