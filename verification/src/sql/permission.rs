//! `GRANT` and `ALTER ... OWNER TO` statements.

use vstd::prelude::*;
use crate::sql::dialect::TypeWriter;
use crate::sql::path::{ObjectPath, ObjectPathView, ObjectType};

verus! {

/// The permissions a `GRANT` can give.
#[derive(Clone, Copy, Debug, PartialEq, Eq, Structural)]
pub enum GrantType {
    Select,
    Insert,
    Update,
    Delete,
    Truncate,
    References,
    Trigger,
    All,
    Usage,
}

impl GrantType {
    /// The SQL keyword of the permission.
    pub open spec fn keyword(self) -> Seq<char> {
        match self {
            GrantType::Select => "SELECT"@,
            GrantType::Insert => "INSERT"@,
            GrantType::Update => "UPDATE"@,
            GrantType::Delete => "DELETE"@,
            GrantType::Truncate => "TRUNCATE"@,
            GrantType::References => "REFERENCES"@,
            GrantType::Trigger => "TRIGGER"@,
            GrantType::All => "ALL"@,
            GrantType::Usage => "USAGE"@,
        }
    }

    pub fn to_string(&self) -> (s: String)
        ensures
            s@ == self.keyword(),
    {
        match self {
            GrantType::Select => "SELECT".to_owned(),
            GrantType::Insert => "INSERT".to_owned(),
            GrantType::Update => "UPDATE".to_owned(),
            GrantType::Delete => "DELETE".to_owned(),
            GrantType::Truncate => "TRUNCATE".to_owned(),
            GrantType::References => "REFERENCES".to_owned(),
            GrantType::Trigger => "TRIGGER".to_owned(),
            GrantType::All => "ALL".to_owned(),
            GrantType::Usage => "USAGE".to_owned(),
        }
    }
}

/// Whether dialect `w` has permission statements for `target`: it must have
/// permission statements at all, and sequence objects if the target is one.
pub open spec fn permits<W: TypeWriter + ?Sized>(target: ObjectPathView, w: &W) -> bool {
    w.spec_supports_permissions() && (target.otype != ObjectType::Sequence
        || w.spec_supports_sequences())
}

/// `permits`, computed.
pub fn dialect_permits<W: TypeWriter + ?Sized>(target: &ObjectPath, type_writer: &W) -> (b: bool)
    ensures
        b == permits(target@, type_writer),
{
    type_writer.supports_permissions() && (target.otype != ObjectType::Sequence
        || type_writer.supports_sequences())
}

/// A permission given to a role on an object.
#[derive(Debug)]
pub struct Grant {
    pub permission: GrantType,
    pub to: String,
    pub on: ObjectPath,
}

/// Mathematical model of a [`Grant`].
pub struct GrantView {
    pub permission: GrantType,
    pub to: Seq<char>,
    pub on: ObjectPathView,
}

impl View for Grant {
    type V = GrantView;

    open spec fn view(&self) -> GrantView {
        GrantView { permission: self.permission, to: self.to@, on: self.on@ }
    }
}

impl Clone for Grant {
    fn clone(&self) -> (r: Self)
        ensures
            r@ == self@,
    {
        Grant { permission: self.permission, to: self.to.clone(), on: self.on.clone() }
    }
}

/// `GRANT perm ON KIND path TO grantee;`, or nothing where the dialect has
/// no such statement for the target.
pub open spec fn grant_sql<W: TypeWriter + ?Sized>(g: GrantView, w: &W) -> Seq<char> {
    if permits(g.on, w) {
        "GRANT "@ + g.permission.keyword() + " ON "@ + g.on.otype.keyword() + " "@ + w.spec_schema(
            g.on,
        ) + " TO "@ + g.to + ";"@
    } else {
        Seq::empty()
    }
}

impl Grant {
    /// The grant of `perm` on `on` to the role `to`.
    pub fn new(perm: GrantType, to: &str, on: &ObjectPath) -> (g: Self)
        ensures
            g@ == (GrantView { permission: perm, to: to@, on: on@ }),
    {
        Grant { permission: perm, to: to.to_owned(), on: on.clone() }
    }

    /// The `GRANT` statement, empty where the dialect has none.
    pub fn to_sql<W: TypeWriter + ?Sized>(&self, type_writer: &W) -> (s: String)
        ensures
            s@ == grant_sql(self@, type_writer),
    {
        if dialect_permits(&self.on, type_writer) {
            let mut s = "GRANT ".to_owned();
            s.append(self.permission.to_string().as_str());
            s.append(" ON ");
            s.append(self.on.otype.to_string().as_str());
            s.append(" ");
            s.append(type_writer.schema(&self.on).as_str());
            s.append(" TO ");
            s.append(self.to.as_str());
            s.append(";");
            s
        } else {
            String::new()
        }
    }
}

/// The role that owns an object.
#[derive(Debug)]
pub struct Owner {
    pub to: String,
    pub of: ObjectPath,
}

/// Mathematical model of an [`Owner`].
pub struct OwnerView {
    pub to: Seq<char>,
    pub of: ObjectPathView,
}

impl View for Owner {
    type V = OwnerView;

    open spec fn view(&self) -> OwnerView {
        OwnerView { to: self.to@, of: self.of@ }
    }
}

impl Clone for Owner {
    fn clone(&self) -> (r: Self)
        ensures
            r@ == self@,
    {
        Owner { to: self.to.clone(), of: self.of.clone() }
    }
}

/// `ALTER KIND path OWNER TO grantee;`, or nothing where the dialect has no
/// such statement for the target.
pub open spec fn owner_sql<W: TypeWriter + ?Sized>(o: OwnerView, w: &W) -> Seq<char> {
    if permits(o.of, w) {
        "ALTER "@ + o.of.otype.keyword() + " "@ + w.spec_schema(o.of) + " OWNER TO "@ + o.to + ";"@
    } else {
        Seq::empty()
    }
}

impl Owner {
    /// The ownership of `of` by the role `to`.
    pub fn new(to: &str, of: &ObjectPath) -> (o: Self)
        ensures
            o@ == (OwnerView { to: to@, of: of@ }),
    {
        Owner { to: to.to_owned(), of: of.clone() }
    }

    /// The `ALTER ... OWNER TO` statement, empty where the dialect has none.
    pub fn to_sql<W: TypeWriter + ?Sized>(&self, type_writer: &W) -> (s: String)
        ensures
            s@ == owner_sql(self@, type_writer),
    {
        if dialect_permits(&self.of, type_writer) {
            let mut s = "ALTER ".to_owned();
            s.append(self.of.otype.to_string().as_str());
            s.append(" ");
            s.append(type_writer.schema(&self.of).as_str());
            s.append(" OWNER TO ");
            s.append(self.to.as_str());
            s.append(";");
            s
        } else {
            String::new()
        }
    }
}

} // verus!
