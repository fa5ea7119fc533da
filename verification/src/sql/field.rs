//! Column types, the attributes of a field, and the column definition a
//! field renders to.

use vstd::prelude::*;
use crate::sql::dialect::TypeWriter;

verus! {

/// Column types a field can have.
#[derive(Clone, Copy, Debug, PartialEq, Eq, Structural)]
pub enum FieldType {
    Int,
    BigInt,
    Txt,
    Dbl,
    Bool,
    AutoInc,
}

impl FieldType {
    /// The dialect's name of this column type.
    pub fn to_sql<W: TypeWriter + ?Sized>(&self, type_writer: &W) -> (s: String)
        ensures
            s@ == type_writer.spec_field_type(*self),
    {
        type_writer.field_type(self)
    }
}

/// What is known of a field besides its name.
#[derive(Debug, PartialEq)]
pub struct FieldAttributes {
    /// Column type.
    pub dtype: FieldType,
    /// Member of the table's `UNIQUE` constraint.
    pub unique: bool,
    /// May hold `NULL`.
    pub empty: bool,
    /// Belongs to a roster; left out of a table's non-roster variant.
    pub roster: bool,
    /// Default value, written as in SQL but without quotes.
    pub defval: Option<String>,
    /// Member of the table's primary key. A primary-key column holds no
    /// `NULL`: the builders that set this flag clear `empty`.
    pub primary_key: bool,
    /// Member of the table's index.
    pub index: bool,
    /// Present in the generated statements only, not in the field
    /// description the table was built from.
    pub only_db: bool,
    /// Another name under which the field is known outside the database.
    pub meta_name: Option<String>,
}

/// Mathematical model of [`FieldAttributes`].
pub struct FieldAttributesView {
    pub dtype: FieldType,
    pub unique: bool,
    pub empty: bool,
    pub roster: bool,
    pub defval: Option<Seq<char>>,
    pub primary_key: bool,
    pub index: bool,
    pub only_db: bool,
    pub meta_name: Option<Seq<char>>,
}

impl FieldAttributesView {
    /// The attributes of a plain nullable column of type `dt`.
    pub open spec fn plain(dt: FieldType) -> FieldAttributesView {
        FieldAttributesView {
            dtype: dt,
            unique: false,
            empty: true,
            roster: false,
            defval: None,
            primary_key: false,
            index: false,
            only_db: false,
            meta_name: None,
        }
    }

    /// ` DEFAULT value`, the value in double quotes for a text column;
    /// nothing where there is no default.
    pub open spec fn default_clause(self) -> Seq<char> {
        match self.defval {
            Some(value) => if self.dtype == FieldType::Txt {
                " DEFAULT \""@ + value + "\""@
            } else {
                " DEFAULT "@ + value
            },
            None => Seq::empty(),
        }
    }

    /// `NULL` or `NOT NULL`.
    pub open spec fn null_clause(self) -> Seq<char> {
        if self.empty {
            "NULL"@
        } else {
            "NOT NULL"@
        }
    }
}

/// The view of an optional string.
pub open spec fn optional_text(s: Option<String>) -> Option<Seq<char>> {
    match s {
        Some(s) => Some(s@),
        None => None,
    }
}

/// A copy of an optional string.
pub fn clone_optional_text(s: &Option<String>) -> (r: Option<String>)
    ensures
        optional_text(r) == optional_text(*s),
{
    match s {
        Some(s) => Some(s.clone()),
        None => None,
    }
}

impl View for FieldAttributes {
    type V = FieldAttributesView;

    open spec fn view(&self) -> FieldAttributesView {
        FieldAttributesView {
            dtype: self.dtype,
            unique: self.unique,
            empty: self.empty,
            roster: self.roster,
            defval: optional_text(self.defval),
            primary_key: self.primary_key,
            index: self.index,
            only_db: self.only_db,
            meta_name: optional_text(self.meta_name),
        }
    }
}

impl Clone for FieldAttributes {
    fn clone(&self) -> (r: Self)
        ensures
            r@ == self@,
    {
        FieldAttributes {
            dtype: self.dtype,
            unique: self.unique,
            empty: self.empty,
            roster: self.roster,
            defval: clone_optional_text(&self.defval),
            primary_key: self.primary_key,
            index: self.index,
            only_db: self.only_db,
            meta_name: clone_optional_text(&self.meta_name),
        }
    }
}

impl FieldAttributes {
    fn new_default(dt: FieldType) -> (a: Self)
        ensures
            a@ == FieldAttributesView::plain(dt),
    {
        FieldAttributes {
            dtype: dt,
            unique: false,
            empty: true,
            roster: false,
            defval: None,
            primary_key: false,
            index: false,
            only_db: false,
            meta_name: None,
        }
    }

    /// A plain nullable column.
    pub fn new(dt: FieldType) -> (a: Self)
        ensures
            a@ == FieldAttributesView::plain(dt),
    {
        FieldAttributes::new_default(dt)
    }

    /// A `NOT NULL` column.
    pub fn new_nn(dt: FieldType) -> (a: Self)
        ensures
            a@ == (FieldAttributesView { empty: false, ..FieldAttributesView::plain(dt) }),
    {
        let mut me = FieldAttributes::new_default(dt);
        me.empty = false;
        me
    }

    /// A `NOT NULL` column that is part of the table's index.
    pub fn new_nn_idx(dt: FieldType) -> (a: Self)
        ensures
            a@ == (FieldAttributesView {
                empty: false,
                index: true,
                ..FieldAttributesView::plain(dt)
            }),
    {
        let mut me = FieldAttributes::new_nn(dt);
        me.index = true;
        me
    }

    /// A `NOT NULL` column with a default value.
    pub fn new_nn_def(dt: FieldType, defval: &str) -> (a: Self)
        ensures
            a@ == (FieldAttributesView {
                empty: false,
                defval: Some(defval@),
                ..FieldAttributesView::plain(dt)
            }),
    {
        let mut me = FieldAttributes::new_nn(dt);
        me.defval = Some(defval.to_owned());
        me
    }

    /// A `NOT NULL` column that is part of the primary key.
    pub fn new_pk(dt: FieldType) -> (a: Self)
        ensures
            a@ == (FieldAttributesView {
                empty: false,
                primary_key: true,
                ..FieldAttributesView::plain(dt)
            }),
    {
        let mut me = FieldAttributes::new_nn(dt);
        me.primary_key = true;
        me
    }

    /// A nullable column that is part of the `UNIQUE` constraint.
    pub fn new_uk(dt: FieldType) -> (a: Self)
        ensures
            a@ == (FieldAttributesView { unique: true, ..FieldAttributesView::plain(dt) }),
    {
        let mut me = FieldAttributes::new_default(dt);
        me.unique = true;
        me
    }

    /// A `NOT NULL` column that is part of both the `UNIQUE` constraint
    /// and the primary key.
    pub fn new_uk_pk(dt: FieldType) -> (a: Self)
        ensures
            a@ == (FieldAttributesView {
                unique: true,
                primary_key: true,
                empty: false,
                ..FieldAttributesView::plain(dt)
            }),
    {
        let mut me = FieldAttributes::new_uk(dt);
        me.primary_key = true;
        me.empty = false;
        me
    }

    /// A plain column known elsewhere as `meta`.
    pub fn new_meta(dt: FieldType, meta: &str) -> (a: Self)
        ensures
            a@ == (FieldAttributesView { meta_name: Some(meta@), ..FieldAttributesView::plain(dt) }),
    {
        let mut me = FieldAttributes::new_default(dt);
        me.meta_name = Some(meta.to_owned());
        me
    }
}

/// A named column of a table.
#[derive(Debug, PartialEq)]
pub struct Field {
    pub name: String,
    pub attributes: FieldAttributes,
}

/// Mathematical model of a [`Field`].
pub struct FieldView {
    pub name: Seq<char>,
    pub attributes: FieldAttributesView,
}

impl View for Field {
    type V = FieldView;

    open spec fn view(&self) -> FieldView {
        FieldView { name: self.name@, attributes: self.attributes@ }
    }
}

impl Clone for Field {
    fn clone(&self) -> (r: Self)
        ensures
            r@ == self@,
    {
        Field { name: self.name.clone(), attributes: self.attributes.clone() }
    }
}

/// The fields of a table, in column order.
pub type Fields = Vec<Field>;

/// The views of a list of fields, element by element.
pub open spec fn field_views(fields: Seq<Field>) -> Seq<FieldView> {
    Seq::new(fields.len(), |i: int| fields[i]@)
}

/// A column name as it is written in a statement: `role`, a reserved word,
/// goes in double quotes; every other name stands as it is.
pub open spec fn written_name(name: Seq<char>) -> Seq<char> {
    if name == "role"@ {
        "\"role\""@
    } else {
        name
    }
}

/// The column definition of field `f` in dialect `w`:
/// `name type NULL|NOT NULL[ DEFAULT value]`.
pub open spec fn field_sql<W: TypeWriter + ?Sized>(f: FieldView, w: &W) -> Seq<char> {
    written_name(f.name) + " "@ + w.spec_field_type(f.attributes.dtype) + " "@
        + f.attributes.null_clause() + f.attributes.default_clause()
}

/// In every dialect the column definition of a field named `role` starts
/// with the name in double quotes.
pub proof fn lemma_role_is_quoted<W: TypeWriter + ?Sized>(f: FieldView, w: &W)
    requires
        f.name == "role"@,
    ensures
        "\"role\""@.is_prefix_of(field_sql(f, w)),
        field_sql(f, w) == "\"role\""@ + " "@ + w.spec_field_type(f.attributes.dtype) + " "@
            + f.attributes.null_clause() + f.attributes.default_clause(),
{
    let quoted = "\"role\""@;
    let whole = field_sql(f, w);
    assert(whole.subrange(0, quoted.len() as int) =~= quoted);
}

impl Field {
    /// The field `name` with a copy of `attrs`.
    pub fn new(name: &str, attrs: &FieldAttributes) -> (f: Self)
        ensures
            f@ == (FieldView { name: name@, attributes: attrs@ }),
    {
        Field { name: name.to_owned(), attributes: attrs.clone() }
    }

    /// As [`Field::new`], marked as present in the database only.
    pub fn new_only_db(name: &str, attrs: &FieldAttributes) -> (f: Self)
        ensures
            f@ == (FieldView {
                name: name@,
                attributes: FieldAttributesView { only_db: true, ..attrs@ },
            }),
    {
        let mut me = Field::new(name, attrs);
        me.attributes.only_db = true;
        me
    }

    /// The column definition of this field.
    pub fn to_sql<W: TypeWriter + ?Sized>(&self, type_writer: &W) -> (s: String)
        ensures
            s@ == field_sql(self@, type_writer),
    {
        let role = "role".to_owned();
        let mut s = if self.name == role {
            "\"role\"".to_owned()
        } else {
            self.name.clone()
        };
        let att = &self.attributes;
        s.append(" ");
        let column_type = att.dtype.to_sql(type_writer);
        s.append(column_type.as_str());
        s.append(" ");
        if att.empty {
            s.append("NULL");
        } else {
            s.append("NOT NULL");
        }
        match &att.defval {
            Some(value) => {
                if att.dtype == FieldType::Txt {
                    s.append(" DEFAULT \"");
                    s.append(value.as_str());
                    s.append("\"");
                } else {
                    s.append(" DEFAULT ");
                    s.append(value.as_str());
                }
            },
            None => {},
        }
        s
    }
}

} // verus!
