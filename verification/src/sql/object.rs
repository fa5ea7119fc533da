//! The closed set of database objects, and how each one renders.
//!
//! An object is an *anchor* if it renders to a statement of its own
//! (schema, table, grant, owner, index) and an *attachment* otherwise
//! (field, primary key, unique key, foreign key): an attachment has no
//! statement and is folded into the table that follows it.

use vstd::prelude::*;
use vstd::slice::slice_index_get;
use crate::sql::constraint::{
    foreign_key_sql, index_sql, primary_key_sql, unique_key_sql, ForeignKey, ForeignKeyView,
    Index, IndexView, KeyView, PrimaryKey, UniqueKey,
};
use crate::sql::dialect::TypeWriter;
use crate::sql::field::{field_sql, Field, FieldView};
use crate::sql::permission::{grant_sql, owner_sql, Grant, GrantView, Owner, OwnerView};
use crate::sql::schema::{schema_sql, Schema, SchemaView};
use crate::sql::table::{table_sql, Table, TableView};
use crate::text::texts;

verus! {

/// A database object of any kind.
#[derive(Debug)]
pub enum DBObject {
    Schema(Schema),
    Table(Table),
    Grant(Grant),
    Owner(Owner),
    Index(Index),
    PrimaryKey(PrimaryKey),
    UniqueKey(UniqueKey),
    ForeignKey(ForeignKey),
    Field(Field),
}

/// Mathematical model of a [`DBObject`].
pub enum DBObjectView {
    Schema(SchemaView),
    Table(TableView),
    Grant(GrantView),
    Owner(OwnerView),
    Index(IndexView),
    PrimaryKey(KeyView),
    UniqueKey(KeyView),
    ForeignKey(ForeignKeyView),
    Field(FieldView),
}

impl View for DBObject {
    type V = DBObjectView;

    open spec fn view(&self) -> DBObjectView {
        match self {
            DBObject::Schema(x) => DBObjectView::Schema(x@),
            DBObject::Table(x) => DBObjectView::Table(x@),
            DBObject::Grant(x) => DBObjectView::Grant(x@),
            DBObject::Owner(x) => DBObjectView::Owner(x@),
            DBObject::Index(x) => DBObjectView::Index(x@),
            DBObject::PrimaryKey(x) => DBObjectView::PrimaryKey(x@),
            DBObject::UniqueKey(x) => DBObjectView::UniqueKey(x@),
            DBObject::ForeignKey(x) => DBObjectView::ForeignKey(x@),
            DBObject::Field(x) => DBObjectView::Field(x@),
        }
    }
}

impl Clone for DBObject {
    fn clone(&self) -> (r: Self)
        ensures
            r@ == self@,
    {
        match self {
            DBObject::Schema(x) => DBObject::Schema(x.clone()),
            DBObject::Table(x) => DBObject::Table(x.clone()),
            DBObject::Grant(x) => DBObject::Grant(x.clone()),
            DBObject::Owner(x) => DBObject::Owner(x.clone()),
            DBObject::Index(x) => DBObject::Index(x.clone()),
            DBObject::PrimaryKey(x) => DBObject::PrimaryKey(x.clone()),
            DBObject::UniqueKey(x) => DBObject::UniqueKey(x.clone()),
            DBObject::ForeignKey(x) => DBObject::ForeignKey(x.clone()),
            DBObject::Field(x) => DBObject::Field(x.clone()),
        }
    }
}

/// The views of a list of objects, element by element.
pub open spec fn object_views(objects: Seq<DBObject>) -> Seq<DBObjectView> {
    Seq::new(objects.len(), |i: int| objects[i]@)
}

/// Among the first `n` of `objects`, the texts they render to on their own
/// in dialect `w`, those that are empty left out.
pub open spec fn clauses_first<W: TypeWriter + ?Sized>(
    objects: Seq<DBObjectView>,
    w: &W,
    n: nat,
) -> Seq<Seq<char>>
    decreases n,
{
    if n == 0 {
        Seq::empty()
    } else {
        let earlier = clauses_first(objects, w, (n - 1) as nat);
        let text = objects[n - 1].sql(w);
        if text.len() > 0 {
            earlier.push(text)
        } else {
            earlier
        }
    }
}

/// The non-empty texts that `objects` render to on their own, in order.
pub open spec fn clauses<W: TypeWriter + ?Sized>(objects: Seq<DBObjectView>, w: &W) -> Seq<
    Seq<char>,
> {
    clauses_first(objects, w, objects.len())
}

impl DBObjectView {
    /// Whether the object renders to a statement of its own.
    pub open spec fn is_anchor(self) -> bool {
        match self {
            DBObjectView::Schema(_) => true,
            DBObjectView::Table(_) => true,
            DBObjectView::Grant(_) => true,
            DBObjectView::Owner(_) => true,
            DBObjectView::Index(_) => true,
            DBObjectView::PrimaryKey(_) => false,
            DBObjectView::UniqueKey(_) => false,
            DBObjectView::ForeignKey(_) => false,
            DBObjectView::Field(_) => false,
        }
    }

    /// What the object renders to on its own in dialect `w`: a statement
    /// for an anchor, a clause of a table body for an attachment.
    pub open spec fn sql<W: TypeWriter + ?Sized>(self, w: &W) -> Seq<char> {
        match self {
            DBObjectView::Schema(x) => schema_sql(x, w),
            DBObjectView::Table(x) => table_sql(x, Seq::empty(), w),
            DBObjectView::Grant(x) => grant_sql(x, w),
            DBObjectView::Owner(x) => owner_sql(x, w),
            DBObjectView::Index(x) => index_sql(x, w),
            DBObjectView::PrimaryKey(x) => primary_key_sql(x),
            DBObjectView::UniqueKey(x) => unique_key_sql(x),
            DBObjectView::ForeignKey(x) => foreign_key_sql(x, w),
            DBObjectView::Field(x) => field_sql(x, w),
        }
    }

    /// What the object renders to when `pending` objects wait to be folded
    /// into it. A table takes them in as extra clauses of its body; every
    /// other kind renders as on its own.
    pub open spec fn sql_with<W: TypeWriter + ?Sized>(
        self,
        pending: Seq<DBObjectView>,
        w: &W,
    ) -> Seq<char> {
        match self {
            DBObjectView::Table(x) => table_sql(x, clauses(pending, w), w),
            _ => self.sql(w),
        }
    }
}

impl DBObject {
    /// What the object renders to on its own.
    pub fn to_sql<W: TypeWriter + ?Sized>(&self, type_writer: &W) -> (s: String)
        ensures
            s@ == self@.sql(type_writer),
    {
        match self {
            DBObject::Schema(x) => x.to_sql(type_writer),
            DBObject::Table(x) => x.to_sql(type_writer),
            DBObject::Grant(x) => x.to_sql(type_writer),
            DBObject::Owner(x) => x.to_sql(type_writer),
            DBObject::Index(x) => x.to_sql(type_writer),
            DBObject::PrimaryKey(x) => x.to_sql(type_writer),
            DBObject::UniqueKey(x) => x.to_sql(type_writer),
            DBObject::ForeignKey(x) => x.to_sql(type_writer),
            DBObject::Field(x) => x.to_sql(type_writer),
        }
    }

    /// Whether the object renders to a statement of its own.
    pub fn is_top_level(&self) -> (b: bool)
        ensures
            b == self@.is_anchor(),
    {
        match self {
            DBObject::Schema(_) => true,
            DBObject::Table(_) => true,
            DBObject::Grant(_) => true,
            DBObject::Owner(_) => true,
            DBObject::Index(_) => true,
            DBObject::PrimaryKey(_) => false,
            DBObject::UniqueKey(_) => false,
            DBObject::ForeignKey(_) => false,
            DBObject::Field(_) => false,
        }
    }

    /// What the object renders to when the `delayed` objects wait to be
    /// folded into it.
    pub fn top_level_to_sql<W: TypeWriter + ?Sized>(
        &self,
        type_writer: &W,
        delayed: &[DBObject],
    ) -> (s: String)
        ensures
            s@ == self@.sql_with(object_views(delayed@), type_writer),
    {
        match self {
            DBObject::Table(table) => {
                let ghost views = object_views(delayed@);
                let mut extras: Vec<String> = Vec::new();
                let mut i: usize = 0;
                while i < delayed.len()
                    invariant
                        i <= delayed.len(),
                        views == object_views(delayed@),
                        texts(extras@) == clauses_first(views, type_writer, i as nat),
                    decreases delayed.len() - i,
                {
                    let text = slice_index_get(delayed, i).to_sql(type_writer);
                    if !text.as_str().is_empty() {
                        let ghost before = texts(extras@);
                        extras.push(text);
                        assert(texts(extras@) =~= before.push(text@));
                    }
                    i = i + 1;
                }
                table.gen_sql(type_writer, &extras)
            },
            _ => self.to_sql(type_writer),
        }
    }
}

} // verus!
