//! The render server: the drawable objects of a scene, by id.

use smallvec::SmallVec;
use std::collections::HashMap;
use vstd::prelude::*;

verus! {

broadcast use vstd::std_specs::hash::group_hash_axioms;

/// The id of an object of the server. Zero is the id of no object.
pub type Id = u32;

/// A transform in the plane.
pub type Transform2D = u32;

/// The surfaces of a renderable, each a material and a mesh, kept in a
/// `smallvec::SmallVec` that holds the first three inline.
///
/// Trusted: the verifier sees nothing inside; `surface_list` names what the
/// vector holds.
#[verifier::external_body]
pub struct SurfaceList {
    inner: SmallVec<[(Id, Id); 3]>,
}

/// The surfaces that a list holds, in their order.
pub uninterp spec fn surface_list(surfaces: SurfaceList) -> Seq<(u32, u32)>;

/// Makes an empty list of surfaces with `SmallVec::new`.
///
/// Trusted: the new list is claimed to hold nothing. The constructor's check
/// of the backing array cannot fail for an array type of the language.
#[verifier::external_body]
fn no_surfaces() -> (surfaces: SurfaceList)
    ensures
        surface_list(surfaces) == Seq::<(u32, u32)>::empty(),
{
    SurfaceList { inner: SmallVec::new() }
}

/// Counts the surfaces of a list with `SmallVec::len`.
///
/// Trusted: the result is claimed to be the number of surfaces held.
#[verifier::external_body]
fn surface_count(surfaces: &SurfaceList) -> (count: usize)
    ensures
        count == surface_list(*surfaces).len(),
{
    surfaces.inner.len()
}

/// Something drawn in the plane: where it stands and the surfaces it shows.
pub struct Renderable2D {
    pub transform: Transform2D,
    pub surfaces: SurfaceList,
}

/// Keeps the objects that are drawn and hands out their ids.
pub struct RenderServer {
    next_id: Id,
    renderables_2d: HashMap<Id, Renderable2D>,
}

impl RenderServer {
    /// The id that the next object gets.
    pub closed spec fn spec_next_id(&self) -> Id {
        self.next_id
    }

    /// The renderables that the server keeps, by id.
    pub closed spec fn renderables(&self) -> Map<Id, Renderable2D> {
        self.renderables_2d@
    }

    /// Well-formedness: ids start at one, and every id in use was handed out
    /// before the next one.
    pub open spec fn wf(&self) -> bool {
        &&& self.spec_next_id() >= 1
        &&& forall|id: Id| #[trigger]
            self.renderables().contains_key(id) ==> 1 <= id < self.spec_next_id()
    }

    /// A server without objects, whose first id is one.
    pub fn new() -> (server: RenderServer)
        ensures
            server.wf(),
            server.spec_next_id() == 1,
            server.renderables() == Map::<Id, Renderable2D>::empty(),
    {
        RenderServer { next_id: 1, renderables_2d: HashMap::new() }
    }

    /// The id that the next object gets.
    pub fn next_id(&self) -> (id: Id)
        ensures
            id == self.spec_next_id(),
    {
        self.next_id
    }

    /// Whether the server keeps a renderable by the id.
    pub fn has_renderable_2d(&self, id: Id) -> (kept: bool)
        ensures
            kept == self.renderables().contains_key(id),
    {
        self.renderables_2d.contains_key(&id)
    }

    /// How many surfaces the renderable of the id shows; nothing where the
    /// server keeps no such renderable.
    pub fn renderable_2d_surface_count(&self, id: Id) -> (count: Option<usize>)
        ensures
            count is Some <==> self.renderables().contains_key(id),
            count is Some ==> count->Some_0 == surface_list(self.renderables()[id].surfaces).len(),
    {
        match self.renderables_2d.get(&id) {
            Some(renderable) => Some(surface_count(&renderable.surfaces)),
            None => None,
        }
    }

    /// Makes a renderable and gives its id: the next id, which no object of
    /// the server has. The renderable stands at the zero transform and shows
    /// no surface.
    pub fn renderable_2d_create(&mut self) -> (id: Id)
        requires
            old(self).wf(),
            old(self).spec_next_id() < u32::MAX,
        ensures
            final(self).wf(),
            id == old(self).spec_next_id(),
            !old(self).renderables().contains_key(id),
            final(self).spec_next_id() == id + 1,
            final(self).renderables().dom() == old(self).renderables().dom().insert(id),
            final(self).renderables()[id].transform == 0,
            surface_list(final(self).renderables()[id].surfaces) == Seq::<(u32, u32)>::empty(),
            forall|other: Id|
                other != id && old(self).renderables().contains_key(other) ==> final(self)
                    .renderables()[other] == old(self).renderables()[other],
    {
        let id = self.next_id;
        self.next_id = self.next_id + 1;
        self.renderables_2d.insert(id, Renderable2D { transform: 0, surfaces: no_surfaces() });
        proof {
            assert(self.renderables().dom() =~= old(self).renderables().dom().insert(id));
            assert forall|other: Id| #[trigger]
                self.renderables().contains_key(other) implies 1 <= other
                < self.spec_next_id() by {
                if other != id {
                    assert(old(self).renderables().contains_key(other));
                }
            }
        }
        id
    }

    /// Destroys the renderable of the id, if there is one. The other objects
    /// stay, and ids are not handed out again.
    pub fn renderable_2d_destroy(&mut self, id: Id)
        requires
            old(self).wf(),
        ensures
            final(self).wf(),
            final(self).spec_next_id() == old(self).spec_next_id(),
            final(self).renderables() == old(self).renderables().remove(id),
    {
        let _ = self.renderables_2d.remove(&id);
        proof {
            assert forall|other: Id| #[trigger]
                self.renderables().contains_key(other) implies 1 <= other
                < self.spec_next_id() by {
                assert(old(self).renderables().contains_key(other));
            }
        }
    }
}

} // verus!
