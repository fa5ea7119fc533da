//! A statement collector that renders each object as it is added.

use vstd::prelude::*;
use crate::sql::dialect::TypeWriter;
use crate::sql::object::DBObject;
use crate::text::{join, join_strings, texts};

verus! {

/// Renders objects one by one, each on its own, and keeps what they
/// render to, empty texts included.
pub struct Generator<W: TypeWriter> {
    out: Vec<String>,
    type_writer: W,
}

impl<W: TypeWriter> View for Generator<W> {
    type V = Seq<Seq<char>>;

    /// The texts collected so far.
    closed spec fn view(&self) -> Seq<Seq<char>> {
        texts(self.out@)
    }
}

impl<W: TypeWriter> Generator<W> {
    /// The dialect the generator renders with.
    pub closed spec fn dialect(&self) -> W {
        self.type_writer
    }

    /// A generator for the dialect `type_writer`, with nothing collected.
    pub fn new(type_writer: W) -> (g: Self)
        ensures
            g@ == Seq::<Seq<char>>::empty(),
            g.dialect() == type_writer,
    {
        let g = Generator { out: Vec::new(), type_writer };
        assert(g@ =~= Seq::<Seq<char>>::empty());
        g
    }

    /// Renders `object` on its own and keeps the text.
    pub fn add(&mut self, object: &DBObject) -> (me: &Self)
        ensures
            final(self)@ == old(self)@.push(object@.sql(&old(self).dialect())),
            final(self).dialect() == old(self).dialect(),
            *me == *final(self),
    {
        let ghost before = self@;
        let text = object.to_sql(&self.type_writer);
        self.out.push(text);
        assert(self@ =~= before.push(text@));
        self
    }

    /// The texts collected so far.
    pub fn statements(&self) -> (out: &Vec<String>)
        ensures
            texts(out@) == self@,
    {
        &self.out
    }

    /// The texts collected so far, one after the other on lines of their
    /// own.
    pub fn to_string(&self) -> (s: String)
        ensures
            s@ == join(self@, "\n"@),
    {
        join_strings(&self.out, "\n")
    }
}

} // verus!
