//! For the [`Builder::draw`](super::Builder::draw) method.

use super::{dl_appended, dl_appended_some, lemma_dl_appended_some, spec_vertex_2f, spec_vertex_2ii, Builder, DLCmd};
use crate::graphics::{Vertex2F, Vertex2II};
use vstd::prelude::*;
use vstd::std_specs::convert::IntoSpec;

verus! {

/// Appends vertices to the builder that `Builder::draw` lends it.
pub struct VertexBuilder<'a, DL: Builder> {
    /// The builder that the vertices are appended to.
    pub builder: &'a mut DL,
}

impl<'a, DL: Builder> VertexBuilder<'a, DL> {
    /// The display list log of the builder that the vertices go to.
    pub closed spec fn dl_log(&self) -> Seq<u32> {
        self.builder.dl_log()
    }

    pub fn vertex_2f<Pos: Into<Vertex2F>>(&mut self, pos: Pos) -> (r: Result<(), DL::Error>)
        ensures
            dl_appended_some(old(self).dl_log(), final(self).dl_log(), r is Ok, 1),
            exists|v: Vertex2F|
                #![trigger spec_vertex_2f(v)]
                dl_appended(old(self).dl_log(), final(self).dl_log(), r is Ok, seq![spec_vertex_2f(v)]),
            <Pos as IntoSpec<Vertex2F>>::obeys_into_spec() ==> dl_appended(
                old(self).dl_log(),
                final(self).dl_log(),
                r is Ok,
                seq![spec_vertex_2f(pos.into_spec())],
            ),
    {
        self.builder.vertex_2f(pos)
    }

    /// Appends the `VERTEX2F` command for the vertex.
    pub fn vertex_2f_of(&mut self, pos: Vertex2F) -> (r: Result<(), DL::Error>)
        ensures
            dl_appended(old(self).dl_log(), final(self).dl_log(), r is Ok, seq![spec_vertex_2f(pos)]),
    {
        self.builder.append_command(DLCmd::vertex_2f_of(pos))
    }

    /// Appends the `VERTEX2II` command for the vertex.
    pub fn vertex_2ii_of(&mut self, pos: Vertex2II) -> (r: Result<(), DL::Error>)
        ensures
            dl_appended(old(self).dl_log(), final(self).dl_log(), r is Ok, seq![spec_vertex_2ii(pos)]),
    {
        self.builder.append_command(DLCmd::vertex_2ii_of(pos))
    }

    pub fn vertex_2ii<Pos: Into<Vertex2II>>(&mut self, pos: Pos) -> (r: Result<(), DL::Error>)
        ensures
            dl_appended_some(old(self).dl_log(), final(self).dl_log(), r is Ok, 1),
            exists|v: Vertex2II|
                #![trigger spec_vertex_2ii(v)]
                dl_appended(old(self).dl_log(), final(self).dl_log(), r is Ok, seq![spec_vertex_2ii(v)]),
            <Pos as IntoSpec<Vertex2II>>::obeys_into_spec() ==> dl_appended(
                old(self).dl_log(),
                final(self).dl_log(),
                r is Ok,
                seq![spec_vertex_2ii(pos.into_spec())],
            ),
    {
        self.builder.vertex_2ii(pos)
    }
}

} // verus!
