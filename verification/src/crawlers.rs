//! Reading the schema of a database: what the crawlers make of what they read.
use vstd::prelude::*;
use vstd::string::*;
use crate::model::{Column, ColumnView, Index, IndexView, opt_str};
use crate::pattern::{regex_capture, regex_compiles, regex_group, regex_valid};
use crate::text::{contains_text, has_substring, split_spec, split_text, trim, trim_spec};

verus! {

#[verifier::external_type_specification]
#[verifier::external_body]
pub struct ExClient(mongodb::Client);

#[verifier::external_type_specification]
#[verifier::external_body]
pub struct ExDatabase(mongodb::Database);

/// Calls `mongodb::Client::database`, which makes a handle to the named database
/// of the client without any I/O. Nothing is stated of the handle, whose type
/// shows no contents.
#[verifier::external_body]
fn database_handle(client: &mongodb::Client, name: &str) -> mongodb::Database {
    client.database(name)
}

/// Reads the collections of a MongoDB database and infers their fields.
pub struct MongoSchemaCrawler {
    client: mongodb::Client,
    db_name: String,
}

impl MongoSchemaCrawler {
    /// A crawler for the named database of the client; it does no I/O.
    pub fn new(client: mongodb::Client, db_name: &str) -> (r: Self)
        ensures
            r.client() == client,
            r.db_name() == db_name@,
    {
        MongoSchemaCrawler { client, db_name: String::from_str(db_name) }
    }

    /// The client through which the crawler reads.
    pub closed spec fn client(self) -> mongodb::Client {
        self.client
    }

    /// The name of the database that the crawler reads.
    pub closed spec fn db_name(self) -> Seq<char> {
        self.db_name@
    }

    /// A handle to the database that the crawler reads: the database of its
    /// client named by its database name.
    pub fn database(&self) -> mongodb::Database {
        database_handle(&self.client, self.db_name.as_str())
    }
}

/// The column inferred from a field of a sampled document: nullable, and the
/// primary key when it is `_id`.
pub open spec fn inferred_column(key: Seq<char>, kind_text: Seq<char>) -> ColumnView {
    ColumnView {
        name: key,
        data_type: kind_text,
        is_nullable: true,
        is_primary_key: key == "_id"@,
        default_value: None,
        description: None,
    }
}

/// The first column with this name.
pub open spec fn column_named(cols: Seq<ColumnView>, name: Seq<char>) -> Option<int>
    decreases cols.len(),
{
    if cols.len() == 0 {
        None
    } else {
        match column_named(cols.drop_last(), name) {
            Some(i) => Some(i),
            None => if cols.last().name == name {
                Some(cols.len() - 1)
            } else {
                None
            },
        }
    }
}

/// The columns inferred from the fields (name, type) of the sampled documents,
/// in the order they were read: one column per field name, with the type it was
/// last seen with, in the order of first appearance.
pub open spec fn inferred_columns(fields: Seq<(Seq<char>, Seq<char>)>) -> Seq<ColumnView>
    decreases fields.len(),
{
    if fields.len() == 0 {
        Seq::empty()
    } else {
        let prev = inferred_columns(fields.drop_last());
        let (key, kind_text) = fields.last();
        match column_named(prev, key) {
            Some(i) => prev.update(i, inferred_column(key, kind_text)),
            None => prev.push(inferred_column(key, kind_text)),
        }
    }
}

proof fn lemma_column_named(cols: Seq<ColumnView>, name: Seq<char>)
    ensures
        match column_named(cols, name) {
            Some(i) => 0 <= i < cols.len() && cols[i].name == name && forall|j: int|
                0 <= j < i ==> cols[j].name != name,
            None => forall|j: int| 0 <= j < cols.len() ==> cols[j].name != name,
        },
    decreases cols.len(),
{
    if cols.len() > 0 {
        let front = cols.drop_last();
        lemma_column_named(front, name);
        assert forall|j: int| 0 <= j < front.len() implies front[j] == cols[j] by {}
    }
}

/// The first column whose name is `name`.
fn find_column(cols: &Vec<Column>, name: &String) -> (r: Option<usize>)
    ensures
        r matches Some(k) ==> column_named(cols@.map_values(|c: Column| c@), name@) == Some(
            k as int,
        ),
        r is None ==> column_named(cols@.map_values(|c: Column| c@), name@) is None,
{
    let ghost v = cols@.map_values(|c: Column| c@);
    proof {
        lemma_column_named(v, name@);
    }
    let mut i: usize = 0;
    while i < cols.len()
        invariant
            v == cols@.map_values(|c: Column| c@),
            i <= cols@.len(),
            forall|j: int| 0 <= j < i ==> v[j].name != name@,
        decreases cols.len() - i,
    {
        if cols[i].name == *name {
            proof {
                lemma_column_named(v, name@);
                assert(v[i as int].name == name@);
                match column_named(v, name@) {
                    Some(k) => {
                        assert(k == i);
                    },
                    None => {},
                }
            }
            return Some(i);
        }
        i = i + 1;
    }
    None
}

/// Makes the column inferred from a field.
fn make_inferred_column(key: &String, kind_text: &String) -> (r: Column)
    ensures
        r@ == inferred_column(key@, kind_text@),
{
    let id = String::from_str("_id");
    Column {
        name: key.clone(),
        data_type: kind_text.clone(),
        is_nullable: true,
        is_primary_key: *key == id,
        default_value: None,
        description: None,
    }
}

/// Infers the columns of a collection from the fields (name, type) of its sampled
/// documents, in the order they were read.
pub fn infer_columns(fields: &Vec<(String, String)>) -> (r: Vec<Column>)
    ensures
        r@.map_values(|c: Column| c@) == inferred_columns(
            fields@.map_values(|f: (String, String)| (f.0@, f.1@)),
        ),
{
    let ghost fs = fields@.map_values(|f: (String, String)| (f.0@, f.1@));
    let mut cols: Vec<Column> = Vec::new();
    let mut i: usize = 0;
    while i < fields.len()
        invariant
            fs == fields@.map_values(|f: (String, String)| (f.0@, f.1@)),
            i <= fields@.len(),
            cols@.map_values(|c: Column| c@) == inferred_columns(fs.take(i as int)),
        decreases fields.len() - i,
    {
        proof {
            assert(fs.take(i + 1).drop_last() =~= fs.take(i as int));
            assert(fs.take(i + 1).last() == (fields@[i as int].0@, fields@[i as int].1@));
        }
        let (key, kind_text) = &fields[i];
        let col = make_inferred_column(key, kind_text);
        let ghost before = cols@.map_values(|c: Column| c@);
        proof {
            lemma_column_named(before, key@);
        }
        match find_column(&cols, key) {
            Some(k) => {
                assert(column_named(before, key@) == Some(k as int));
                cols.set(k, col);
                assert(cols@.map_values(|c: Column| c@) =~= before.update(
                    k as int,
                    inferred_column(key@, kind_text@),
                ));
            },
            None => {
                assert(column_named(before, key@) is None);
                cols.push(col);
                assert(cols@.map_values(|c: Column| c@) =~= before.push(
                    inferred_column(key@, kind_text@),
                ));
            },
        }
        proof {
            let t = fs.take(i + 1);
            assert(t.drop_last() == fs.take(i as int));
            assert(t.last().0 == key@ && t.last().1 == kind_text@);
            assert(inferred_columns(t) == match column_named(before, key@) {
                Some(j) => before.update(j, inferred_column(key@, kind_text@)),
                None => before.push(inferred_column(key@, kind_text@)),
            });
            assert(cols@.map_values(|c: Column| c@) == inferred_columns(t));
        }
        i = i + 1;
    }
    assert(fs.take(fields@.len() as int) =~= fs);
    cols
}

/// Each field name gives exactly one column.
pub proof fn law_inferred_names_distinct(fields: Seq<(Seq<char>, Seq<char>)>)
    ensures
        forall|a: int, b: int|
            0 <= a < b < inferred_columns(fields).len() ==> inferred_columns(fields)[a].name
                != inferred_columns(fields)[b].name,
        forall|k: int|
            0 <= k < fields.len() ==> exists|c: int|
                0 <= c < inferred_columns(fields).len() && inferred_columns(fields)[c].name
                    == #[trigger] fields[k].0,
    decreases fields.len(),
{
    if fields.len() > 0 {
        let front = fields.drop_last();
        law_inferred_names_distinct(front);
        let prev = inferred_columns(front);
        let (key, kind_text) = fields.last();
        lemma_column_named(prev, key);
        let res = inferred_columns(fields);
        assert forall|k: int| 0 <= k < fields.len() implies exists|c: int|
            0 <= c < res.len() && res[c].name == #[trigger] fields[k].0 by {
            if k < fields.len() - 1 {
                assert(front[k] == fields[k]);
                let c = choose|c: int| 0 <= c < prev.len() && prev[c].name == #[trigger] front[k].0;
                assert(res[c].name == fields[k].0);
            } else {
                match column_named(prev, key) {
                    Some(i) => assert(res[i].name == fields[k].0),
                    None => assert(res[prev.len() as int].name == fields[k].0),
                }
            }
        }
    }
}

/// The index that MongoDB reports: its name (or `unnamed`) and its keys; not
/// marked unique, since MongoDB keeps that among the options.
pub fn mongo_index(name: Option<String>, keys: Vec<String>) -> (r: Index)
    ensures
        r@.name == match opt_str(name) {
            Some(n) => n,
            None => "unnamed"@,
        },
        r@.columns == keys@.map_values(|k: String| k@),
        !r.is_unique,
{
    let name = match name {
        Some(n) => n,
        None => String::from_str("unnamed"),
    };
    Index { name, columns: keys, is_unique: false }
}

/// The column that a row of `information_schema.columns` describes, with the
/// number of primary-key constraints on it: nullable when the row says `YES`, the
/// primary key when some constraint makes it so.
pub fn column_from_row(
    name: String,
    data_type: String,
    is_nullable: &str,
    default_value: Option<String>,
    primary_key_count: Option<i64>,
) -> (r: Column)
    ensures
        r.name@ == name@,
        r.data_type@ == data_type@,
        r.is_nullable == (is_nullable@ == "YES"@),
        r.is_primary_key == (match primary_key_count {
            Some(c) => c > 0,
            None => false,
        }),
        opt_str(r.default_value) == opt_str(default_value),
        r.description is None,
{
    let yes = String::from_str("YES");
    let nullable = String::from_str(is_nullable) == yes;
    let count = match primary_key_count {
        Some(c) => c,
        None => 0,
    };
    Column {
        name,
        data_type,
        is_nullable: nullable,
        is_primary_key: count > 0,
        default_value,
        description: None,
    }
}

/// The pattern that finds the column list of an index definition.
pub open spec fn index_columns_pattern() -> Seq<char> {
    "\\((.*)\\)"@
}

/// The text between the parentheses of an index definition, or nothing.
pub open spec fn index_columns_text(definition: Seq<char>) -> Seq<char> {
    match regex_group(index_columns_pattern(), definition, 1) {
        Some(Some(s)) => s,
        _ => Seq::empty(),
    }
}

/// The index that a row of `pg_indexes` describes: unique when its definition
/// says `UNIQUE INDEX`, with the comma-separated, trimmed names between the
/// parentheses of the definition as its columns.
pub open spec fn index_from_definition_spec(name: Seq<char>, definition: Seq<char>) -> IndexView {
    IndexView {
        name,
        columns: split_spec(index_columns_text(definition), ',').map_values(
            |p: Seq<char>| trim_spec(p),
        ),
        is_unique: has_substring(definition, "UNIQUE INDEX"@),
    }
}

/// Reads the index that a row of `pg_indexes` describes.
pub fn index_from_definition(name: String, definition: &str) -> (r: Index)
    requires
        regex_compiles(index_columns_pattern()),
    ensures
        r@ == index_from_definition_spec(name@, definition@),
{
    let is_unique = contains_text(definition, "UNIQUE INDEX");
    let columns_str = match regex_capture("\\((.*)\\)", definition, 1) {
        Some(Some(s)) => s,
        _ => String::new(),
    };
    proof {
        reveal_strlit(",");
    }
    let pieces = split_text(columns_str.as_str(), ",");
    let ghost ps = pieces@.map_values(|p: String| p@);
    let mut columns: Vec<String> = Vec::new();
    let mut i: usize = 0;
    while i < pieces.len()
        invariant
            ps == pieces@.map_values(|p: String| p@),
            i <= ps.len(),
            columns@.map_values(|c: String| c@) == ps.take(i as int).map_values(
                |p: Seq<char>| trim_spec(p),
            ),
        decreases pieces.len() - i,
    {
        let ghost before = columns@.map_values(|c: String| c@);
        assert(ps[i as int] == pieces@[i as int]@);
        assert(ps.take(i + 1).map_values(|p: Seq<char>| trim_spec(p)) =~= ps.take(i as int).map_values(
            |p: Seq<char>| trim_spec(p),
        ).push(trim_spec(ps[i as int])));
        columns.push(trim(pieces[i].as_str()));
        assert(columns@.map_values(|c: String| c@) =~= ps.take(i + 1).map_values(
            |p: Seq<char>| trim_spec(p),
        ));
        i = i + 1;
    }
    assert(ps.take(ps.len() as int) =~= ps);
    Index { name, columns, is_unique }
}

/// Checks that the pattern compiles, then reads the index; `None` when it does not.
pub fn try_index_from_definition(name: String, definition: &str) -> (r: Option<Index>)
    ensures
        r is Some <==> regex_compiles(index_columns_pattern()),
        r matches Some(i) ==> i@ == index_from_definition_spec(name@, definition@),
{
    if regex_valid("\\((.*)\\)") {
        Some(index_from_definition(name, definition))
    } else {
        None
    }
}

} // verus!
