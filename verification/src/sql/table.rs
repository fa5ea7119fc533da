//! Tables: validation at construction, the constraints a table derives
//! from its fields, and the `CREATE TABLE` statement.

use vstd::prelude::*;
use crate::sql::constraint::{
    foreign_key_sql, primary_key_sql, unique_key_sql, ForeignKey, ForeignKeyView, ForeignKeys,
    Index, IndexView, Indexes, KeyView, PrimaryKey, UniqueKey,
};
use crate::sql::dialect::TypeWriter;
use crate::sql::field::{field_sql, field_views, Field, FieldType, FieldView, Fields};
use crate::sql::path::{ObjectPath, ObjectPathView};
use crate::text::{join, join_strings, texts};

verus! {

/// The views of a list of foreign keys, element by element.
pub open spec fn foreign_key_views(keys: Seq<ForeignKey>) -> Seq<ForeignKeyView> {
    Seq::new(keys.len(), |i: int| keys[i]@)
}

/// The view of an optional list of foreign keys.
pub open spec fn optional_foreign_key_views(keys: Option<ForeignKeys>) -> Option<
    Seq<ForeignKeyView>,
> {
    match keys {
        Some(ks) => Some(foreign_key_views(ks@)),
        None => None,
    }
}

/// No two fields have the same name.
pub open spec fn names_unique(fields: Seq<FieldView>) -> bool {
    forall|i: int, j: int|
        0 <= i < j < fields.len() ==> (#[trigger] fields[i]).name != (#[trigger] fields[j]).name
}

/// An earlier field has the name of field `j`.
pub open spec fn named_before(fields: Seq<FieldView>, j: int) -> bool {
    exists|i: int| 0 <= i < j && (#[trigger] fields[i]).name == fields[j].name
}

/// Among the first `n` fields, the name of each one that repeats an earlier
/// name, in field order.
pub open spec fn repeated_names_first(fields: Seq<FieldView>, n: nat) -> Seq<Seq<char>>
    decreases n,
{
    if n == 0 {
        Seq::empty()
    } else {
        let earlier = repeated_names_first(fields, (n - 1) as nat);
        if named_before(fields, n - 1) {
            earlier.push(fields[n - 1].name)
        } else {
            earlier
        }
    }
}

/// The name of each field that repeats an earlier name, in field order.
pub open spec fn repeated_names(fields: Seq<FieldView>) -> Seq<Seq<char>> {
    repeated_names_first(fields, fields.len())
}

/// Every foreign key is one of the table at `path`: the path of its table
/// is that path, schema, name and kind.
pub open spec fn foreign_keys_belong(path: ObjectPathView, keys: Option<Seq<ForeignKeyView>>) -> bool {
    match keys {
        Some(ks) => forall|k: int| 0 <= k < ks.len() ==> path.same_as((#[trigger] ks[k]).table),
        None => true,
    }
}

/// Key `k` is the first that belongs to another table than the one at `path`.
pub open spec fn first_stranger(path: ObjectPathView, keys: Seq<ForeignKeyView>, k: int) -> bool {
    &&& 0 <= k < keys.len()
    &&& !path.same_as(keys[k].table)
    &&& forall|m: int| 0 <= m < k ==> path.same_as((#[trigger] keys[m]).table)
}

/// The position of the first foreign key that belongs to another table
/// than the one at `path`.
pub open spec fn first_stranger_index(path: ObjectPathView, keys: Seq<ForeignKeyView>) -> int {
    choose|k: int| first_stranger(path, keys, k)
}

/// There is one first stranger at most.
pub proof fn lemma_first_stranger_is_unique(path: ObjectPathView, keys: Seq<ForeignKeyView>, k: int)
    requires
        first_stranger(path, keys, k),
    ensures
        first_stranger_index(path, keys) == k,
{
    let c = first_stranger_index(path, keys);
    assert(first_stranger(path, keys, c));
    if c < k {
        assert(path.same_as(keys[c].table));
    } else if k < c {
        assert(path.same_as(keys[k].table));
    }
}

/// Nothing repeats among the first `n` fields exactly if their names differ
/// pairwise.
pub proof fn lemma_repeated_names_empty(fields: Seq<FieldView>, n: nat)
    requires
        n <= fields.len(),
    ensures
        repeated_names_first(fields, n).len() == 0 <==> names_unique(fields.take(n as int)),
    decreases n,
{
    if n > 0 {
        let m = (n - 1) as nat;
        lemma_repeated_names_empty(fields, m);
        let shorter = fields.take(m as int);
        let longer = fields.take(n as int);
        if names_unique(longer) {
            assert(names_unique(shorter)) by {
                assert forall|i: int, j: int| 0 <= i < j < shorter.len() implies (
                #[trigger] shorter[i]).name != (#[trigger] shorter[j]).name by {
                    assert(longer[i].name != longer[j].name);
                }
            }
            if named_before(fields, n - 1) {
                let i = choose|i: int| 0 <= i < n - 1 && (#[trigger] fields[i]).name == fields[n
                    - 1].name;
                assert(longer[i].name != longer[n - 1].name);
            }
        } else if names_unique(shorter) {
            let (i, j) = choose|i: int, j: int|
                0 <= i < j < longer.len() && (#[trigger] longer[i]).name == (
                #[trigger] longer[j]).name;
            if j < n - 1 {
                assert(shorter[i].name != shorter[j].name);
            }
            assert(fields[i].name == fields[n - 1].name);
        }
    }
}

/// Why a table cannot be built.
#[derive(Debug)]
pub enum TableError {
    /// Some field names occur more than once. `fields` holds the name of
    /// each field that repeats an earlier one.
    DuplicateFields { table: String, fields: Vec<String> },
    /// A foreign key belongs to another table. `foreign_key` is the full
    /// name of the table that the first such key names.
    ForeignKeyMismatch { table: String, foreign_key: String },
}

/// Mathematical model of a [`TableError`].
pub enum TableErrorView {
    DuplicateFields { table: Seq<char>, fields: Seq<Seq<char>> },
    ForeignKeyMismatch { table: Seq<char>, foreign_key: Seq<char> },
}

impl View for TableError {
    type V = TableErrorView;

    open spec fn view(&self) -> TableErrorView {
        match self {
            TableError::DuplicateFields { table, fields } => TableErrorView::DuplicateFields {
                table: table@,
                fields: texts(fields@),
            },
            TableError::ForeignKeyMismatch {
                table,
                foreign_key,
            } => TableErrorView::ForeignKeyMismatch { table: table@, foreign_key: foreign_key@ },
        }
    }
}

impl TableErrorView {
    /// The fault in words.
    pub open spec fn message(self) -> Seq<char> {
        match self {
            TableErrorView::DuplicateFields { table, fields } => table + " has duplicated fields: "@
                + join(fields, ", "@),
            TableErrorView::ForeignKeyMismatch { table, foreign_key } => foreign_key
                + " is not a valid fk for "@ + table,
        }
    }
}

impl TableError {
    /// The fault in words, naming the table and what is wrong with it.
    pub fn to_string(&self) -> (s: String)
        ensures
            s@ == self@.message(),
    {
        match self {
            TableError::DuplicateFields { table, fields } => {
                let mut s = table.clone();
                s.append(" has duplicated fields: ");
                s.append(join_strings(fields, ", ").as_str());
                s
            },
            TableError::ForeignKeyMismatch { table, foreign_key } => {
                let mut s = foreign_key.clone();
                s.append(" is not a valid fk for ");
                s.append(table.as_str());
                s
            },
        }
    }
}

/// A table: its path, its fields in column order, and its foreign keys.
#[derive(Debug)]
pub struct Table {
    pub path: ObjectPath,
    pub fields: Fields,
    pub fks: Option<ForeignKeys>,
}

/// Mathematical model of a [`Table`].
pub struct TableView {
    pub path: ObjectPathView,
    pub fields: Seq<FieldView>,
    pub fks: Option<Seq<ForeignKeyView>>,
}

impl View for Table {
    type V = TableView;

    open spec fn view(&self) -> TableView {
        TableView {
            path: self.path@,
            fields: field_views(self.fields@),
            fks: optional_foreign_key_views(self.fks),
        }
    }
}

impl Clone for Table {
    fn clone(&self) -> (r: Self)
        ensures
            r@ == self@,
    {
        let mut fields: Vec<Field> = Vec::new();
        let mut i: usize = 0;
        while i < self.fields.len()
            invariant
                i <= self.fields.len(),
                fields@.len() == i,
                forall|j: int| 0 <= j < i ==> (#[trigger] fields@[j])@ == self.fields@[j]@,
            decreases self.fields.len() - i,
        {
            fields.push(self.fields[i].clone());
            i = i + 1;
        }
        assert(field_views(fields@) =~= field_views(self.fields@));
        let fks = match &self.fks {
            Some(keys) => {
                let mut copies: Vec<ForeignKey> = Vec::new();
                let mut k: usize = 0;
                while k < keys.len()
                    invariant
                        k <= keys.len(),
                        copies@.len() == k,
                        forall|j: int| 0 <= j < k ==> (#[trigger] copies@[j])@ == keys@[j]@,
                    decreases keys.len() - k,
                {
                    copies.push(keys[k].clone());
                    k = k + 1;
                }
                assert(foreign_key_views(copies@) =~= foreign_key_views(keys@));
                Some(copies)
            },
            None => None,
        };
        Table { path: self.path.clone(), fields, fks }
    }
}

/// Whether a field counts for the primary-key constraint. An auto-increment
/// column counts only where the dialect lets such a column be named there.
pub open spec fn in_primary_key(f: FieldView, auto_increment_allowed: bool) -> bool {
    f.attributes.primary_key && (auto_increment_allowed || f.attributes.dtype != FieldType::AutoInc)
}

/// Among the first `n` fields, the names of those that count for the
/// primary key, in field order.
pub open spec fn primary_key_names_first(
    fields: Seq<FieldView>,
    auto_increment_allowed: bool,
    n: nat,
) -> Seq<Seq<char>>
    decreases n,
{
    if n == 0 {
        Seq::empty()
    } else {
        let earlier = primary_key_names_first(fields, auto_increment_allowed, (n - 1) as nat);
        if in_primary_key(fields[n - 1], auto_increment_allowed) {
            earlier.push(fields[n - 1].name)
        } else {
            earlier
        }
    }
}

/// The names of the fields that count for the primary key, in field order.
pub open spec fn primary_key_names(fields: Seq<FieldView>, auto_increment_allowed: bool) -> Seq<
    Seq<char>,
> {
    primary_key_names_first(fields, auto_increment_allowed, fields.len())
}

/// A name is among the primary-key names of the first `n` fields exactly if
/// one of those fields has it and counts for the primary key.
pub proof fn lemma_primary_key_names_contain(
    fields: Seq<FieldView>,
    auto_increment_allowed: bool,
    n: nat,
    name: Seq<char>,
)
    requires
        n <= fields.len(),
    ensures
        primary_key_names_first(fields, auto_increment_allowed, n).contains(name) <==> exists|
            j: int,
        |
            0 <= j < n && in_primary_key(#[trigger] fields[j], auto_increment_allowed) && fields[j].name
                == name,
    decreases n,
{
    if n > 0 {
        let m = (n - 1) as nat;
        lemma_primary_key_names_contain(fields, auto_increment_allowed, m, name);
        let earlier = primary_key_names_first(fields, auto_increment_allowed, m);
        let all = primary_key_names_first(fields, auto_increment_allowed, n);
        if in_primary_key(fields[n - 1], auto_increment_allowed) {
            assert(all == earlier.push(fields[n - 1].name));
            if all.contains(name) {
                let k = choose|k: int| 0 <= k < all.len() && all[k] == name;
                if k < earlier.len() {
                    assert(earlier[k] == name);
                    assert(earlier.contains(name));
                } else {
                    assert(in_primary_key(fields[n - 1], auto_increment_allowed) && fields[n
                        - 1].name == name);
                }
            }
            if exists|j: int|
                0 <= j < n && in_primary_key(#[trigger] fields[j], auto_increment_allowed)
                    && fields[j].name == name {
                let j = choose|j: int|
                    0 <= j < n && in_primary_key(#[trigger] fields[j], auto_increment_allowed)
                        && fields[j].name == name;
                if j < n - 1 {
                    assert(earlier.contains(name));
                    let k = choose|k: int| 0 <= k < earlier.len() && earlier[k] == name;
                    assert(all[k] == name);
                } else {
                    assert(all[all.len() - 1] == name);
                }
            }
        }
    }
}

/// The name of an auto-increment field that is flagged for the primary key
/// stands among the names of the table's primary-key constraint exactly if
/// the dialect lets an auto-increment column be named there.
pub proof fn lemma_auto_increment_in_primary_key<W: TypeWriter + ?Sized>(
    t: TableView,
    i: int,
    w: &W,
)
    requires
        t.well_formed(),
        0 <= i < t.fields.len(),
        t.fields[i].attributes.primary_key,
        t.fields[i].attributes.dtype == FieldType::AutoInc,
    ensures
        primary_key_names(t.fields, w.spec_supports_auto_increment()).contains(t.fields[i].name)
            <==> w.spec_supports_auto_increment(),
{
    let allowed = w.spec_supports_auto_increment();
    let name = t.fields[i].name;
    lemma_primary_key_names_contain(t.fields, allowed, t.fields.len(), name);
    if allowed {
        assert(in_primary_key(t.fields[i], allowed) && t.fields[i].name == name);
    } else {
        assert forall|j: int| 0 <= j < t.fields.len() && in_primary_key(
            #[trigger] t.fields[j],
            allowed,
        ) implies t.fields[j].name != name by {
            if j < i {
                assert(t.fields[j].name != t.fields[i].name);
            } else if i < j {
                assert(t.fields[i].name != t.fields[j].name);
            }
        }
    }
}

/// Among the first `n` fields, the names of those flagged unique.
pub open spec fn unique_names_first(fields: Seq<FieldView>, n: nat) -> Seq<Seq<char>>
    decreases n,
{
    if n == 0 {
        Seq::empty()
    } else {
        let earlier = unique_names_first(fields, (n - 1) as nat);
        if fields[n - 1].attributes.unique {
            earlier.push(fields[n - 1].name)
        } else {
            earlier
        }
    }
}

/// The names of the fields flagged unique, in field order.
pub open spec fn unique_names(fields: Seq<FieldView>) -> Seq<Seq<char>> {
    unique_names_first(fields, fields.len())
}

/// Among the first `n` fields, the names of those flagged for the index.
pub open spec fn indexed_names_first(fields: Seq<FieldView>, n: nat) -> Seq<Seq<char>>
    decreases n,
{
    if n == 0 {
        Seq::empty()
    } else {
        let earlier = indexed_names_first(fields, (n - 1) as nat);
        if fields[n - 1].attributes.index {
            earlier.push(fields[n - 1].name)
        } else {
            earlier
        }
    }
}

/// The names of the fields flagged for the index, in field order.
pub open spec fn indexed_names(fields: Seq<FieldView>) -> Seq<Seq<char>> {
    indexed_names_first(fields, fields.len())
}

/// The column definitions of the fields, in field order.
pub open spec fn column_definitions<W: TypeWriter + ?Sized>(fields: Seq<FieldView>, w: &W) -> Seq<
    Seq<char>,
> {
    Seq::new(fields.len(), |i: int| field_sql(fields[i], w))
}

/// The key over `names` of the table called `table`: its name is the
/// table's, an underscore, and the names joined by underscores.
pub open spec fn derived_key(table: Seq<char>, names: Seq<Seq<char>>) -> KeyView {
    KeyView { name: table + "_"@ + join(names, "_"@), fields: names }
}

/// The primary-key clause of a table, if any field counts for it.
pub open spec fn primary_key_clauses<W: TypeWriter + ?Sized>(t: TableView, w: &W) -> Seq<
    Seq<char>,
> {
    let names = primary_key_names(t.fields, w.spec_supports_auto_increment());
    if names.len() > 0 {
        seq![primary_key_sql(derived_key(t.path.name, names))]
    } else {
        Seq::empty()
    }
}

/// The unique-key clause of a table, if any field is flagged unique.
pub open spec fn unique_key_clauses(t: TableView) -> Seq<Seq<char>> {
    let names = unique_names(t.fields);
    if names.len() > 0 {
        seq![unique_key_sql(derived_key(t.path.name, names))]
    } else {
        Seq::empty()
    }
}

/// The clauses of the table's foreign keys, in their order.
pub open spec fn foreign_key_clauses<W: TypeWriter + ?Sized>(t: TableView, w: &W) -> Seq<
    Seq<char>,
> {
    match t.fks {
        Some(ks) => Seq::new(ks.len(), |i: int| foreign_key_sql(ks[i], w)),
        None => Seq::empty(),
    }
}

/// The constraint clauses of a table's own: primary key, unique key, then
/// the foreign keys.
pub open spec fn constraint_clauses<W: TypeWriter + ?Sized>(t: TableView, w: &W) -> Seq<Seq<char>> {
    primary_key_clauses(t, w) + unique_key_clauses(t) + foreign_key_clauses(t, w)
}

/// A group of clauses that follows others in a table body: each on a line
/// of its own after a comma; nothing for an empty group.
pub open spec fn continued(clauses: Seq<Seq<char>>) -> Seq<char> {
    if clauses.len() == 0 {
        Seq::empty()
    } else {
        ",\n  "@ + join(clauses, ",\n  "@)
    }
}

/// The `CREATE TABLE` statement of `t` in dialect `w`: the column
/// definitions, then the table's own constraints, then the clauses in
/// `extras`, which come from outside the table.
pub open spec fn table_sql<W: TypeWriter + ?Sized>(
    t: TableView,
    extras: Seq<Seq<char>>,
    w: &W,
) -> Seq<char> {
    "CREATE TABLE "@ + w.spec_schema(t.path) + " (\n  "@ + join(
        column_definitions(t.fields, w),
        ",\n  "@,
    ) + continued(constraint_clauses(t, w)) + continued(extras) + "\n);"@
}

impl TableView {
    /// What construction checks: field names are unique and every foreign
    /// key is one of this table.
    pub open spec fn well_formed(self) -> bool {
        names_unique(self.fields) && foreign_keys_belong(self.path, self.fks)
    }

    /// What is wrong with the table, if anything. Repeated field names
    /// come before a foreign key of another table.
    pub open spec fn fault(self) -> Option<TableErrorView> {
        if !names_unique(self.fields) {
            Some(
                TableErrorView::DuplicateFields {
                    table: self.path.qualified(),
                    fields: repeated_names(self.fields),
                },
            )
        } else if !foreign_keys_belong(self.path, self.fks) {
            Some(
                TableErrorView::ForeignKeyMismatch {
                    table: self.path.qualified(),
                    foreign_key: self.fks->0[first_stranger_index(
                        self.path,
                        self.fks->0,
                    )].table.qualified(),
                },
            )
        } else {
            None
        }
    }
}

/// The name of each field that repeats an earlier name, in field order.
/// There is none exactly if the names differ pairwise.
pub fn find_repeated_names(fields: &Fields) -> (dups: Vec<String>)
    ensures
        texts(dups@) == repeated_names(field_views(fields@)),
        dups@.len() == 0 <==> names_unique(field_views(fields@)),
{
    proof {
        let views = field_views(fields@);
        lemma_repeated_names_empty(views, views.len());
        assert(views.take(views.len() as int) =~= views);
    }
    let ghost views = field_views(fields@);
    let mut dups: Vec<String> = Vec::new();
    let mut j: usize = 0;
    while j < fields.len()
        invariant
            j <= fields.len(),
            views == field_views(fields@),
            texts(dups@) == repeated_names_first(views, j as nat),
        decreases fields.len() - j,
    {
        let mut seen = false;
        let mut i: usize = 0;
        while i < j && !seen
            invariant
                i <= j < fields.len(),
                views == field_views(fields@),
                seen ==> named_before(views, j as int),
                !seen ==> forall|k: int| 0 <= k < i ==> (#[trigger] views[k]).name != views[j as int].name,
            decreases j - i + (if seen { 0int } else { 1int }),
        {
            if fields[i].name == fields[j].name {
                assert(views[i as int].name == views[j as int].name);
                seen = true;
            } else {
                i = i + 1;
            }
        }
        if seen {
            let ghost before = texts(dups@);
            dups.push(fields[j].name.clone());
            assert(texts(dups@) =~= before.push(views[j as int].name));
        }
        j = j + 1;
    }
    dups
}

/// The position of the first foreign key that belongs to another table
/// than the one at `path`, if there is one.
fn find_stranger(path: &ObjectPath, keys: &ForeignKeys) -> (found: Option<usize>)
    ensures
        match found {
            Some(k) => first_stranger(path@, foreign_key_views(keys@), k as int),
            None => foreign_keys_belong(path@, Some(foreign_key_views(keys@))),
        },
{
    let ghost views = foreign_key_views(keys@);
    let mut k: usize = 0;
    while k < keys.len()
        invariant
            k <= keys.len(),
            views == foreign_key_views(keys@),
            forall|m: int| 0 <= m < k ==> path@.same_as((#[trigger] views[m]).table),
        decreases keys.len() - k,
    {
        if !path.is_equal(&keys[k].table) {
            return Some(k);
        }
        k = k + 1;
    }
    None
}

/// Adds to `s` the clauses as a group that follows others in a table body.
fn append_continued(s: &mut String, clauses: &Vec<String>)
    ensures
        final(s)@ == old(s)@ + continued(texts(clauses@)),
{
    if clauses.len() > 0 {
        let joined = join_strings(clauses, ",\n  ");
        let ghost before = s@;
        s.append(",\n  ");
        s.append(joined.as_str());
        assert(s@ =~= before + (",\n  "@ + joined@));
    } else {
        assert(s@ =~= s@ + Seq::<char>::empty());
    }
}

impl Table {
    /// Builds the table at `path` with the given fields and foreign keys.
    ///
    /// Fails if two fields have the same name, and otherwise if a foreign
    /// key belongs to another table; the error names the table and the
    /// offending fields, or the table of the first offending key.
    pub fn new(path: &ObjectPath, fields: Fields, fks: Option<ForeignKeys>) -> (r: Result<
        Table,
        TableError,
    >)
        ensures
            match r {
                Ok(table) => {
                    &&& table@ == (TableView {
                        path: path@,
                        fields: field_views(fields@),
                        fks: optional_foreign_key_views(fks),
                    })
                    &&& table@.fault() is None
                    &&& names_unique(table@.fields)
                    &&& table@.fks matches Some(keys) ==> forall|k: int|
                        0 <= k < keys.len() ==> (#[trigger] keys[k]).table == table@.path
                },
                Err(error) => (TableView {
                    path: path@,
                    fields: field_views(fields@),
                    fks: optional_foreign_key_views(fks),
                }).fault() == Some(error@),
            },
    {
        let dups = find_repeated_names(&fields);
        if dups.len() > 0 {
            return Err(TableError::DuplicateFields { table: path.full_name(), fields: dups });
        }
        match &fks {
            Some(keys) => {
                match find_stranger(path, keys) {
                    Some(k) => {
                        let ghost key_views = foreign_key_views(keys@);
                        assert(key_views[k as int] == keys@[k as int]@);
                        proof {
                            lemma_first_stranger_is_unique(path@, key_views, k as int);
                        }
                        return Err(
                            TableError::ForeignKeyMismatch {
                                table: path.full_name(),
                                foreign_key: keys[k].table.full_name(),
                            },
                        );
                    },
                    None => {},
                }
            },
            None => {},
        }
        Ok(Table { path: path.clone(), fields, fks })
    }

    /// The index over the fields flagged for it: one composite index in a
    /// list of one, or `None` where no field is flagged.
    pub fn indexes(&self) -> (r: Option<Indexes>)
        ensures
            match r {
                Some(list) => {
                    &&& indexed_names(self@.fields).len() > 0
                    &&& list@.len() == 1
                    &&& list@[0]@ == (IndexView {
                        table: self@.path,
                        fields: indexed_names(self@.fields),
                    })
                },
                None => indexed_names(self@.fields).len() == 0,
            },
    {
        let ghost views = field_views(self.fields@);
        let mut names: Vec<String> = Vec::new();
        let mut i: usize = 0;
        while i < self.fields.len()
            invariant
                i <= self.fields.len(),
                views == field_views(self.fields@),
                texts(names@) == indexed_names_first(views, i as nat),
            decreases self.fields.len() - i,
        {
            if self.fields[i].attributes.index {
                let ghost before = texts(names@);
                names.push(self.fields[i].name.clone());
                assert(texts(names@) =~= before.push(views[i as int].name));
            }
            i = i + 1;
        }
        if names.len() > 0 {
            let mut list: Vec<Index> = Vec::new();
            list.push(Index { table: self.path.clone(), fields: names });
            Some(list)
        } else {
            None
        }
    }

    /// The names of the fields that count for the primary key.
    fn primary_key_fields(&self, auto_increment_allowed: bool) -> (names: Vec<String>)
        ensures
            texts(names@) == primary_key_names(self@.fields, auto_increment_allowed),
    {
        let ghost views = field_views(self.fields@);
        let mut names: Vec<String> = Vec::new();
        let mut i: usize = 0;
        while i < self.fields.len()
            invariant
                i <= self.fields.len(),
                views == field_views(self.fields@),
                texts(names@) == primary_key_names_first(views, auto_increment_allowed, i as nat),
            decreases self.fields.len() - i,
        {
            let attributes = &self.fields[i].attributes;
            if attributes.primary_key && (auto_increment_allowed || attributes.dtype
                != FieldType::AutoInc) {
                let ghost before = texts(names@);
                names.push(self.fields[i].name.clone());
                assert(texts(names@) =~= before.push(views[i as int].name));
            }
            i = i + 1;
        }
        names
    }

    /// The names of the fields flagged unique.
    fn unique_fields(&self) -> (names: Vec<String>)
        ensures
            texts(names@) == unique_names(self@.fields),
    {
        let ghost views = field_views(self.fields@);
        let mut names: Vec<String> = Vec::new();
        let mut i: usize = 0;
        while i < self.fields.len()
            invariant
                i <= self.fields.len(),
                views == field_views(self.fields@),
                texts(names@) == unique_names_first(views, i as nat),
            decreases self.fields.len() - i,
        {
            if self.fields[i].attributes.unique {
                let ghost before = texts(names@);
                names.push(self.fields[i].name.clone());
                assert(texts(names@) =~= before.push(views[i as int].name));
            }
            i = i + 1;
        }
        names
    }

    /// The key over `names` that this table derives from its fields.
    fn key_name(&self, names: &Vec<String>) -> (name: String)
        ensures
            name@ == derived_key(self@.path.name, texts(names@)).name,
    {
        let mut name = self.path.name.clone();
        name.append("_");
        name.append(join_strings(names, "_").as_str());
        name
    }

    /// The table's own constraint clauses.
    fn own_clauses<W: TypeWriter + ?Sized>(&self, type_writer: &W) -> (clauses: Vec<String>)
        ensures
            texts(clauses@) == constraint_clauses(self@, type_writer),
    {
        let mut clauses: Vec<String> = Vec::new();
        let pks = self.primary_key_fields(type_writer.supports_auto_increment());
        if pks.len() > 0 {
            let key = PrimaryKey { name: self.key_name(&pks), fields: pks };
            clauses.push(key.to_sql(type_writer));
        }
        assert(texts(clauses@) =~= primary_key_clauses(self@, type_writer));
        let uks = self.unique_fields();
        if uks.len() > 0 {
            let key = UniqueKey { name: self.key_name(&uks), fields: uks };
            clauses.push(key.to_sql(type_writer));
        }
        let ghost derived = primary_key_clauses(self@, type_writer) + unique_key_clauses(self@);
        assert(texts(clauses@) =~= derived);
        match &self.fks {
            Some(keys) => {
                let ghost key_views = foreign_key_views(keys@);
                let mut k: usize = 0;
                while k < keys.len()
                    invariant
                        k <= keys.len(),
                        key_views == foreign_key_views(keys@),
                        texts(clauses@) =~= derived + Seq::new(
                            k as nat,
                            |i: int| foreign_key_sql(key_views[i], type_writer),
                        ),
                    decreases keys.len() - k,
                {
                    let ghost before = texts(clauses@);
                    clauses.push(keys[k].to_sql(type_writer));
                    assert(texts(clauses@) =~= before.push(
                        foreign_key_sql(key_views[k as int], type_writer),
                    ));
                    k = k + 1;
                }
                assert(texts(clauses@) =~= constraint_clauses(self@, type_writer));
            },
            None => {
                assert(texts(clauses@) =~= constraint_clauses(self@, type_writer));
            },
        }
        clauses
    }

    /// The `CREATE TABLE` statement with `extras` after the table's own
    /// constraints.
    pub fn gen_sql<W: TypeWriter + ?Sized>(&self, type_writer: &W, extras: &Vec<String>) -> (s:
        String)
        ensures
            s@ == table_sql(self@, texts(extras@), type_writer),
    {
        let ghost views = field_views(self.fields@);
        let mut cols: Vec<String> = Vec::new();
        let mut i: usize = 0;
        while i < self.fields.len()
            invariant
                i <= self.fields.len(),
                views == field_views(self.fields@),
                cols@.len() == i,
                forall|j: int| 0 <= j < i ==> (#[trigger] cols@[j])@ == field_sql(views[j], type_writer),
            decreases self.fields.len() - i,
        {
            cols.push(self.fields[i].to_sql(type_writer));
            i = i + 1;
        }
        assert(texts(cols@) =~= column_definitions(self@.fields, type_writer));
        let clauses = self.own_clauses(type_writer);
        let mut s = "CREATE TABLE ".to_owned();
        s.append(type_writer.schema(&self.path).as_str());
        s.append(" (\n  ");
        s.append(join_strings(&cols, ",\n  ").as_str());
        append_continued(&mut s, &clauses);
        append_continued(&mut s, extras);
        s.append("\n);");
        s
    }

    /// The `CREATE TABLE` statement.
    pub fn to_sql<W: TypeWriter + ?Sized>(&self, type_writer: &W) -> (s: String)
        ensures
            s@ == table_sql(self@, Seq::empty(), type_writer),
    {
        let extras: Vec<String> = Vec::new();
        assert(texts(extras@) =~= Seq::<Seq<char>>::empty());
        self.gen_sql(type_writer, &extras)
    }
}

} // verus!
