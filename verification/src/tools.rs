//! Statement assembly: an ordered list of objects becomes the ordered list
//! of statements of a dialect.
//!
//! Attachments wait in a pending run until the next anchor; a table folds
//! the run into its body, any other anchor lets it go. A pending run that
//! no anchor follows is dropped. Empty renderings are left out.

use vstd::prelude::*;
use vstd::slice::slice_subrange;
use crate::assign::AsgRoles;
use crate::document::codec::{seen, DocumentError, DocumentErrorView};
use crate::document::objects::{objects_node, objects_of};
use crate::document::round_trip::{lemma_objects_round_trip, readable};
use crate::document::writable::lemma_objects_writable;
use crate::document::tree::NodeView;
use crate::document::read::read_objects;
use crate::document::write::objects_to_node;
use crate::document::yaml::{document_of, read_yaml, write_document, written};
use crate::sql::constraint::{FieldNames, Index, IndexView};
use crate::sql::dialect::TypeWriter;
use crate::sql::path::{ObjectPath, ObjectPathView};
use crate::sql::permission::{Grant, GrantType, GrantView, Owner, OwnerView};
use crate::sql::object::{clauses, clauses_first, object_views, DBObject, DBObjectView};
use crate::text::{join, join_strings, texts};
use crate::type_writers::Postgresql;

verus! {

/// Where the run of attachments that ends just before position `i` starts:
/// `i` itself if the object before is an anchor or there is none.
pub open spec fn run_start(objects: Seq<DBObjectView>, i: int) -> int
    decreases i,
{
    if i <= 0 {
        0
    } else if objects[i - 1].is_anchor() {
        i
    } else {
        run_start(objects, i - 1)
    }
}

/// The attachments that wait for the object at position `i`.
pub open spec fn pending_before(objects: Seq<DBObjectView>, i: int) -> Seq<DBObjectView> {
    objects.subrange(run_start(objects, i), i)
}

/// What the anchor at position `i` renders to, its pending attachments
/// handed to it.
pub open spec fn statement_at<W: TypeWriter + ?Sized>(
    objects: Seq<DBObjectView>,
    i: int,
    w: &W,
) -> Seq<char> {
    objects[i].sql_with(pending_before(objects, i), w)
}

/// The statements that the first `n` objects give.
pub open spec fn statements_first<W: TypeWriter + ?Sized>(
    objects: Seq<DBObjectView>,
    w: &W,
    n: nat,
) -> Seq<Seq<char>>
    decreases n,
{
    if n == 0 {
        Seq::empty()
    } else {
        let earlier = statements_first(objects, w, (n - 1) as nat);
        if objects[n - 1].is_anchor() && statement_at(objects, n - 1, w).len() > 0 {
            earlier.push(statement_at(objects, n - 1, w))
        } else {
            earlier
        }
    }
}

/// The statements of `objects` in dialect `w`: for each anchor in order
/// what it renders to, unless that is empty.
pub open spec fn statements<W: TypeWriter + ?Sized>(objects: Seq<DBObjectView>, w: &W) -> Seq<
    Seq<char>,
> {
    statements_first(objects, w, objects.len())
}

/// The run that ends before `i` starts at or before `i` and holds
/// attachments only.
proof fn lemma_run_start(objects: Seq<DBObjectView>, i: int)
    requires
        0 <= i <= objects.len(),
    ensures
        0 <= run_start(objects, i) <= i,
        forall|k: int| run_start(objects, i) <= k < i ==> !(#[trigger] objects[k]).is_anchor(),
        run_start(objects, i) > 0 ==> objects[run_start(objects, i) - 1].is_anchor(),
    decreases i,
{
    if i > 0 && !objects[i - 1].is_anchor() {
        lemma_run_start(objects, i - 1);
    }
}

/// The positions, among the first `n`, of the anchors that render to
/// something.
pub open spec fn origins_first<W: TypeWriter + ?Sized>(
    objects: Seq<DBObjectView>,
    w: &W,
    n: nat,
) -> Seq<int>
    decreases n,
{
    if n == 0 {
        Seq::empty()
    } else {
        let earlier = origins_first(objects, w, (n - 1) as nat);
        if objects[n - 1].is_anchor() && statement_at(objects, n - 1, w).len() > 0 {
            earlier.push(n - 1)
        } else {
            earlier
        }
    }
}

/// The positions of the anchors that render to something.
pub open spec fn origins<W: TypeWriter + ?Sized>(objects: Seq<DBObjectView>, w: &W) -> Seq<int> {
    origins_first(objects, w, objects.len())
}

/// Statements follow the order of the objects they come from: the
/// positions of the anchors that render to something ascend, every such
/// anchor is among them once, and statement `k` is what the anchor at the
/// `k`-th of these positions renders to. No statement is empty.
pub proof fn lemma_statements_keep_order<W: TypeWriter + ?Sized>(
    objects: Seq<DBObjectView>,
    w: &W,
)
    ensures
        statements(objects, w).len() == origins(objects, w).len(),
        statements(objects, w).len() <= objects.len(),
        forall|k: int|
            0 <= k < origins(objects, w).len() ==> {
                let i = #[trigger] origins(objects, w)[k];
                &&& 0 <= i < objects.len()
                &&& objects[i].is_anchor()
                &&& statements(objects, w)[k] == statement_at(objects, i, w)
                &&& statements(objects, w)[k].len() > 0
            },
        forall|k: int, l: int|
            0 <= k < l < origins(objects, w).len() ==> origins(objects, w)[k] < origins(
                objects,
                w,
            )[l],
        forall|i: int|
            0 <= i < objects.len() && objects[i].is_anchor() && statement_at(objects, i, w).len()
                > 0 ==> origins(objects, w).contains(i),
{
    lemma_statements_keep_order_first(objects, w, objects.len());
}

proof fn lemma_statements_keep_order_first<W: TypeWriter + ?Sized>(
    objects: Seq<DBObjectView>,
    w: &W,
    n: nat,
)
    requires
        n <= objects.len(),
    ensures
        statements_first(objects, w, n).len() == origins_first(objects, w, n).len(),
        statements_first(objects, w, n).len() <= n,
        forall|k: int|
            0 <= k < origins_first(objects, w, n).len() ==> {
                let i = #[trigger] origins_first(objects, w, n)[k];
                &&& 0 <= i < n
                &&& objects[i].is_anchor()
                &&& statements_first(objects, w, n)[k] == statement_at(objects, i, w)
                &&& statements_first(objects, w, n)[k].len() > 0
            },
        forall|k: int, l: int|
            0 <= k < l < origins_first(objects, w, n).len() ==> origins_first(objects, w, n)[k]
                < origins_first(objects, w, n)[l],
        forall|i: int|
            0 <= i < n && objects[i].is_anchor() && statement_at(objects, i, w).len() > 0
                ==> origins_first(objects, w, n).contains(i),
    decreases n,
{
    if n > 0 {
        let m = (n - 1) as nat;
        lemma_statements_keep_order_first(objects, w, m);
        let earlier = origins_first(objects, w, m);
        let all = origins_first(objects, w, n);
        assert forall|i: int|
            0 <= i < n && objects[i].is_anchor() && statement_at(objects, i, w).len()
                > 0 implies all.contains(i) by {
            if i < n - 1 {
                assert(earlier.contains(i));
                let k = choose|k: int| 0 <= k < earlier.len() && earlier[k] == i;
                assert(all[k] == i);
            } else {
                assert(all[all.len() - 1] == i);
            }
        }
    }
}

/// The statements of the first `n` objects depend on those objects only.
proof fn lemma_statements_first_prefix<W: TypeWriter + ?Sized>(
    a: Seq<DBObjectView>,
    b: Seq<DBObjectView>,
    w: &W,
    n: nat,
)
    requires
        n <= a.len(),
        n <= b.len(),
        forall|i: int| 0 <= i < n ==> a[i] == b[i],
    ensures
        statements_first(a, w, n) == statements_first(b, w, n),
        forall|i: int| 0 <= i <= n ==> run_start(a, i) == run_start(b, i),
    decreases n,
{
    if n > 0 {
        let m = (n - 1) as nat;
        lemma_statements_first_prefix(a, b, w, m);
        lemma_run_start(a, n - 1);
        assert(run_start(a, n as int) == run_start(b, n as int));
        assert(pending_before(a, n - 1) =~= pending_before(b, n - 1));
    }
}

/// After a list that is empty or ends with an anchor, a second list gives
/// the statements it gives alone.
pub proof fn lemma_statements_append<W: TypeWriter + ?Sized>(
    a: Seq<DBObjectView>,
    b: Seq<DBObjectView>,
    w: &W,
)
    requires
        a.len() == 0 || a.last().is_anchor(),
    ensures
        statements(a + b, w) == statements(a, w) + statements(b, w),
{
    lemma_statements_append_first(a, b, w, b.len());
    assert((a + b).len() == a.len() + b.len());
}

proof fn lemma_statements_append_first<W: TypeWriter + ?Sized>(
    a: Seq<DBObjectView>,
    b: Seq<DBObjectView>,
    w: &W,
    m: nat,
)
    requires
        a.len() == 0 || a.last().is_anchor(),
        m <= b.len(),
    ensures
        statements_first(a + b, w, a.len() + m) == statements(a, w) + statements_first(b, w, m),
        forall|j: int| 0 <= j <= m ==> run_start(a + b, a.len() + j) == a.len() + run_start(b, j),
    decreases m,
{
    let ab = a + b;
    if m == 0 {
        lemma_statements_first_prefix(ab, a, w, a.len());
        assert(statements(a, w) + statements_first(b, w, 0) =~= statements(a, w));
        if a.len() > 0 {
            assert(ab[a.len() - 1] == a.last());
        }
    } else {
        let k = m - 1;
        let at = a.len() + k;
        lemma_statements_append_first(a, b, w, k as nat);
        assert(ab[at] == b[k]);
        lemma_run_start(b, k);
        assert(run_start(ab, at + 1) == a.len() + run_start(b, k + 1));
        assert(pending_before(ab, at) =~= pending_before(b, k));
        assert(statement_at(ab, at, w) == statement_at(b, k, w));
        let head = statements(a, w);
        let tail = statements_first(b, w, k as nat);
        if b[k].is_anchor() && statement_at(b, k, w).len() > 0 {
            assert(head + tail.push(statement_at(b, k, w)) =~= (head + tail).push(
                statement_at(b, k, w),
            ));
        }
    }
}

/// Attachments that no anchor follows give no statement.
pub proof fn lemma_trailing_attachments_dropped<W: TypeWriter + ?Sized>(
    objects: Seq<DBObjectView>,
    n: nat,
    w: &W,
)
    requires
        n <= objects.len(),
        forall|k: int| n <= k < objects.len() ==> !(#[trigger] objects[k]).is_anchor(),
    ensures
        statements(objects, w) == statements(objects.take(n as int), w),
{
    lemma_statements_unchanged_by_attachments(objects, n, objects.len(), w);
    lemma_statements_first_prefix(objects, objects.take(n as int), w, n);
}

proof fn lemma_statements_unchanged_by_attachments<W: TypeWriter + ?Sized>(
    objects: Seq<DBObjectView>,
    n: nat,
    m: nat,
    w: &W,
)
    requires
        n <= m <= objects.len(),
        forall|k: int| n <= k < m ==> !(#[trigger] objects[k]).is_anchor(),
    ensures
        statements_first(objects, w, m) == statements_first(objects, w, n),
    decreases m - n,
{
    if n < m {
        lemma_statements_unchanged_by_attachments(objects, n, (m - 1) as nat, w);
    }
}

/// Where every object is an anchor, the statements are what the objects
/// render to on their own, the empty ones left out.
pub proof fn lemma_statements_of_anchors<W: TypeWriter + ?Sized>(objects: Seq<DBObjectView>, w: &W)
    requires
        forall|k: int| 0 <= k < objects.len() ==> (#[trigger] objects[k]).is_anchor(),
    ensures
        statements(objects, w) == clauses(objects, w),
{
    lemma_statements_of_anchors_first(objects, w, objects.len());
}

proof fn lemma_statements_of_anchors_first<W: TypeWriter + ?Sized>(
    objects: Seq<DBObjectView>,
    w: &W,
    n: nat,
)
    requires
        n <= objects.len(),
        forall|k: int| 0 <= k < n ==> (#[trigger] objects[k]).is_anchor(),
    ensures
        statements_first(objects, w, n) == clauses_first(objects, w, n),
    decreases n,
{
    if n > 0 {
        lemma_statements_of_anchors_first(objects, w, (n - 1) as nat);
        assert(run_start(objects, n - 1) == n - 1);
        assert(pending_before(objects, n - 1) =~= Seq::<DBObjectView>::empty());
    }
}

/// What three roles get on the object at `on`: ownership and all
/// permissions for `rw`, all permissions for `upd`, `SELECT` for `ro`.
pub open spec fn role_permissions(
    rw: Seq<char>,
    upd: Seq<char>,
    ro: Seq<char>,
    on: ObjectPathView,
) -> Seq<DBObjectView> {
    seq![
        DBObjectView::Owner(OwnerView { to: rw, of: on }),
        DBObjectView::Grant(GrantView { permission: GrantType::All, to: rw, on }),
        DBObjectView::Grant(GrantView { permission: GrantType::All, to: upd, on }),
        DBObjectView::Grant(GrantView { permission: GrantType::Select, to: ro, on }),
    ]
}

/// Collects objects and renders them with one dialect.
pub struct Processor<W: TypeWriter> {
    objs: Vec<DBObject>,
    type_writer: W,
}

impl<W: TypeWriter> View for Processor<W> {
    type V = Seq<DBObjectView>;

    /// The objects added so far, in the order they were added.
    closed spec fn view(&self) -> Seq<DBObjectView> {
        object_views(self.objs@)
    }
}

impl<W: TypeWriter> Processor<W> {
    /// The dialect the processor renders with.
    pub closed spec fn dialect(&self) -> W {
        self.type_writer
    }

    /// A processor for the dialect `type_writer`, with no objects.
    pub fn new(type_writer: W) -> (p: Self)
        ensures
            p@ == Seq::<DBObjectView>::empty(),
            p.dialect() == type_writer,
    {
        let p = Processor { objs: Vec::new(), type_writer };
        assert(p@ =~= Seq::<DBObjectView>::empty());
        p
    }

    /// A processor for the dialect `type_writer` that holds a copy of each
    /// of `objects`, in their order.
    pub fn new_with_objects(objects: &Vec<DBObject>, type_writer: W) -> (p: Self)
        ensures
            p@ == object_views(objects@),
            p.dialect() == type_writer,
    {
        let mut objs: Vec<DBObject> = Vec::new();
        let mut i: usize = 0;
        while i < objects.len()
            invariant
                i <= objects.len(),
                objs@.len() == i,
                forall|j: int| 0 <= j < i ==> (#[trigger] objs@[j])@ == objects@[j]@,
            decreases objects.len() - i,
        {
            objs.push(objects[i].clone());
            i = i + 1;
        }
        let p = Processor { objs, type_writer };
        assert(p@ =~= object_views(objects@));
        p
    }

    /// Adds an object after those that are there.
    pub fn add(&mut self, object: DBObject) -> (me: &Self)
        ensures
            final(self)@ == old(self)@.push(object@),
            final(self).dialect() == old(self).dialect(),
            *me == *final(self),
    {
        let ghost before = self@;
        self.objs.push(object);
        assert(self@ =~= before.push(object@));
        self
    }

    /// Adds an object after those that are there, as [`Processor::add`] does.
    pub fn add_all(&mut self, object: DBObject) -> (me: &Self)
        ensures
            final(self)@ == old(self)@.push(object@),
            final(self).dialect() == old(self).dialect(),
            *me == *final(self),
    {
        self.add(object)
    }

    /// Adds the grant of `perm` on `on` to the role `to`.
    pub fn add_grant(&mut self, perm: GrantType, to: &str, on: &ObjectPath)
        ensures
            final(self)@ == old(self)@.push(
                DBObjectView::Grant(GrantView { permission: perm, to: to@, on: on@ }),
            ),
            final(self).dialect() == old(self).dialect(),
    {
        self.add(DBObject::Grant(Grant::new(perm, to, on)));
    }

    /// Adds the ownership of `of` by the role `to`.
    pub fn add_owner(&mut self, to: &str, of: &ObjectPath)
        ensures
            final(self)@ == old(self)@.push(DBObjectView::Owner(OwnerView { to: to@, of: of@ })),
            final(self).dialect() == old(self).dialect(),
    {
        self.add(DBObject::Owner(Owner::new(to, of)));
    }

    /// Adds the index of `table` over `fields`.
    pub fn add_index(&mut self, table: &ObjectPath, fields: &FieldNames)
        ensures
            final(self)@ == old(self)@.push(
                DBObjectView::Index(IndexView { table: table@, fields: texts(fields@) }),
            ),
            final(self).dialect() == old(self).dialect(),
    {
        self.add(DBObject::Index(Index::new(table, fields)));
    }

    /// Adds what the three roles get on an object: the read-write role
    /// owns it and gets all permissions, the update role gets all
    /// permissions, the read-only role may select.
    pub fn grant_perms(&mut self, roles: &AsgRoles, on: &ObjectPath)
        ensures
            final(self)@ == old(self)@ + role_permissions(roles.rw@, roles.upd@, roles.ro@, on@),
            final(self).dialect() == old(self).dialect(),
    {
        let ghost before = self@;
        self.add_owner(roles.rw.as_str(), on);
        self.add_grant(GrantType::All, roles.rw.as_str(), on);
        self.add_grant(GrantType::All, roles.upd.as_str(), on);
        self.add_grant(GrantType::Select, roles.ro.as_str(), on);
        assert(self@ =~= before + role_permissions(roles.rw@, roles.upd@, roles.ro@, on@));
    }

    /// The objects added so far.
    pub fn objects(&self) -> (objs: &Vec<DBObject>)
        ensures
            object_views(objs@) == self@,
    {
        &self.objs
    }

    /// The statements of the objects, in order.
    pub fn sql_statements(&self) -> (out: Vec<String>)
        ensures
            texts(out@) == statements(self@, &self.dialect()),
    {
        let ghost views = object_views(self.objs@);
        let mut out: Vec<String> = Vec::new();
        let mut start: usize = 0;
        let mut i: usize = 0;
        while i < self.objs.len()
            invariant
                i <= self.objs.len(),
                views == object_views(self.objs@),
                start as int == run_start(views, i as int),
                start <= i,
                texts(out@) == statements_first(views, &self.type_writer, i as nat),
            decreases self.objs.len() - i,
        {
            if self.objs[i].is_top_level() {
                let delayed = slice_subrange(self.objs.as_slice(), start, i);
                assert(object_views(delayed@) =~= pending_before(views, i as int));
                let sql = if start == i {
                    self.objs[i].to_sql(&self.type_writer)
                } else {
                    self.objs[i].top_level_to_sql(&self.type_writer, delayed)
                };
                assert(sql@ == statement_at(views, i as int, &self.type_writer));
                if !sql.as_str().is_empty() {
                    let ghost before = texts(out@);
                    out.push(sql);
                    assert(texts(out@) =~= before.push(sql@));
                }
                start = i + 1;
            }
            i = i + 1;
        }
        out
    }

    /// The statements of the objects, one after the other on lines of
    /// their own.
    pub fn join_sql_statements(&self) -> (s: String)
        ensures
            s@ == join(statements(self@, &self.dialect()), "\n"@),
    {
        join_strings(&self.sql_statements(), "\n")
    }

    /// The YAML text of the document that describes the objects.
    pub fn serialize_to_yaml(&self) -> (r: Result<String, DocumentError>)
        ensures
            seen(r) == written(objects_node(self@)),
    {
        let document = objects_to_node(&self.objs);
        proof {
            lemma_objects_writable(self@);
        }
        write_document(&document)
    }

    /// The statements of the objects as one text, as
    /// [`Processor::join_sql_statements`] gives it.
    pub fn to_string(&self) -> (s: String)
        ensures
            s@ == join(statements(self@, &self.dialect()), "\n"@),
    {
        self.join_sql_statements()
    }
}

impl Default for Processor<Postgresql> {
    /// A processor for PostgreSQL, with no objects.
    fn default() -> (p: Self)
        ensures
            p@ == Seq::<DBObjectView>::empty(),
            p.dialect() == (Postgresql {}),
    {
        Processor::new(Postgresql {})
    }
}

/// The objects that YAML text describes, or why it describes none.
pub open spec fn loaded(text: Seq<char>) -> Result<Seq<DBObjectView>, DocumentErrorView> {
    match document_of(text) {
        Err(e) => Err(e),
        Ok(document) => objects_of(document),
    }
}

/// Objects are read back from the document that was written for them, and
/// writing them again gives the same document. A table among them must be
/// one that can be built.
pub proof fn lemma_rewritten_document_is_the_same(objects: Seq<DBObjectView>)
    requires
        forall|i: int| 0 <= i < objects.len() ==> readable(#[trigger] objects[i]),
    ensures
        objects_of(objects_node(objects)) == Ok::<Seq<DBObjectView>, DocumentErrorView>(objects),
        objects_node(objects_of(objects_node(objects))->Ok_0) == objects_node(objects),
{
    lemma_objects_round_trip(objects);
}

/// Where the YAML text written for some objects is read as the document
/// it was written for, loading the text gives the objects back, and
/// what is written for the loaded objects is that text again.
pub proof fn lemma_load_what_was_written(objects: Seq<DBObjectView>, text: Seq<char>)
    requires
        forall|i: int| 0 <= i < objects.len() ==> readable(#[trigger] objects[i]),
        written(objects_node(objects)) == Ok::<Seq<char>, DocumentErrorView>(text),
        document_of(text) == Ok::<NodeView, DocumentErrorView>(objects_node(objects)),
    ensures
        loaded(text) == Ok::<Seq<DBObjectView>, DocumentErrorView>(objects),
        written(objects_node(loaded(text)->Ok_0)) == Ok::<Seq<char>, DocumentErrorView>(text),
{
    lemma_objects_round_trip(objects);
}

/// Holds the objects that a document describes, for processors to be made
/// from.
pub struct Loader {
    objs: Vec<DBObject>,
}

impl View for Loader {
    type V = Seq<DBObjectView>;

    /// The objects held, in order.
    closed spec fn view(&self) -> Seq<DBObjectView> {
        object_views(self.objs@)
    }
}

impl Loader {
    /// A loader that holds the objects that the YAML text `data`
    /// describes.
    pub fn new(data: &str) -> (r: Result<Self, DocumentError>)
        ensures
            seen(r) == loaded(data@),
    {
        let document = read_yaml(data)?;
        let objs = read_objects(&document)?;
        Ok(Loader { objs })
    }

    /// A loader that holds `objects`.
    pub fn from_objects(objects: Vec<DBObject>) -> (l: Self)
        ensures
            l@ == object_views(objects@),
    {
        Loader { objs: objects }
    }

    /// The objects held.
    pub fn objects(&self) -> (objs: &Vec<DBObject>)
        ensures
            object_views(objs@) == self@,
    {
        &self.objs
    }
}

} // verus!
