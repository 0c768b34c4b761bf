use vstd::prelude::*;
use vstd::pervasive::VecAdditionalExecFns;

pub mod descriptor;

use crate::error::Error;
use crate::shader::program::Program;
use crate::texture::Texture;
use crate::vertex::VertexObject;
use crate::context::call::GlCall;
use descriptor::{GLObjectDescriptor, GLObjectDescriptorKind};

verus! {

/// One GPU-side resource, as the registry stores it.
#[derive(Debug)]
pub enum GLObject {
    VertexObject(VertexObject),
    Program(Program),
    Texture(Texture),
}

/// A filled registry slot: the stored resource together with the generation
/// under which it was registered.  Keeping the generation beside the object
/// is what lets a lookup tell a stale handle from the slot's current owner.
#[derive(Debug)]
pub struct StoredObject {
    pub generation: usize,
    pub object: GLObject,
}

/// The owning table of all GPU-side resources.
///
/// Resources live in a growable slot array.  Every registration issues a
/// fresh generation from a monotonically increasing counter, so no two
/// handles ever issued by one registry carry the same generation.  Removing
/// a resource records its generation in `invalidated_ids`; a handle is valid
/// exactly as long as its generation still owns a slot, which (for issued
/// generations) is the same as not having been invalidated.
#[derive(Debug)]
pub struct GLObjectRegistry {
    objects: Vec<Option<StoredObject>>,
    object_capacity: usize,
    capacity_increment: usize,
    current_internal_id: usize,
    invalidated_ids: Vec<usize>,
}

impl GLObject {
    /// Whether a descriptor kind tag names this resource's kind.
    pub open spec fn is_kind(self, kind: GLObjectDescriptorKind) -> bool {
        match kind {
            GLObjectDescriptorKind::VertexObject(_) => self is VertexObject,
            GLObjectDescriptorKind::Program(_) => self is Program,
            GLObjectDescriptorKind::Texture(_) => self is Texture,
        }
    }
}

impl GLObject {
    /// The native delete calls that release exactly this resource's ids,
    /// one call per id: a vertex object owns its vertex array, its vertex
    /// buffer and (when indexed) its element buffer; a program and a
    /// texture each own one native object.
    pub open spec fn release_calls_spec(self) -> Seq<GlCall> {
        match self {
            GLObject::VertexObject(vo) => match vo.index_buffer_object {
                Some(ibo) => seq![
                    GlCall::DeleteVertexArray(vo.vertex_array_object),
                    GlCall::DeleteBuffer(vo.vertex_buffer_object),
                    GlCall::DeleteBuffer(ibo.gl_object_id),
                ],
                None => seq![
                    GlCall::DeleteVertexArray(vo.vertex_array_object),
                    GlCall::DeleteBuffer(vo.vertex_buffer_object),
                ],
            },
            GLObject::Program(p) => seq![GlCall::DeleteProgram(p.gl_object_id)],
            GLObject::Texture(t) => seq![GlCall::DeleteTexture(t.gl_object_id)],
        }
    }

    /// The native calls that release this resource.  The shell performs
    /// them exactly once, when it takes a resource out of the registry for
    /// good; issuing them twice would double-release the native ids.
    pub fn release_calls(&self) -> (r: Vec<GlCall>)
        ensures
            r@ == self.release_calls_spec(),
    {
        let mut calls: Vec<GlCall> = Vec::new();
        match self {
            GLObject::VertexObject(vo) => {
                calls.push(GlCall::DeleteVertexArray(vo.vertex_array_object));
                calls.push(GlCall::DeleteBuffer(vo.vertex_buffer_object));
                match &vo.index_buffer_object {
                    Some(ibo) => {
                        calls.push(GlCall::DeleteBuffer(ibo.gl_object_id));
                    },
                    None => {},
                }
            },
            GLObject::Program(p) => {
                calls.push(GlCall::DeleteProgram(p.gl_object_id));
            },
            GLObject::Texture(t) => {
                calls.push(GlCall::DeleteTexture(t.gl_object_id));
            },
        }
        proof {
            assert(calls@ =~= self.release_calls_spec());
        }
        calls
    }
}

impl Default for GLObjectRegistry {
    /// A registry with the default capacity and growth increment.
    fn default() -> (r: Self)
        ensures
            r.wf(),
            r.num_slots() == 0,
            r.capacity() == 1024,
            r.growth_increment() == 50,
            r.next_generation() == 0,
            r.invalidated_list().len() == 0,
    {
        Self::new(1024, 50)
    }
}

impl GLObjectRegistry {
    /// The slot array, abstractly.
    pub closed spec fn slots(self) -> Seq<Option<StoredObject>> {
        self.objects@
    }

    pub open spec fn num_slots(self) -> int {
        self.slots().len() as int
    }

    /// The generation the next registration will be issued under.
    pub closed spec fn next_generation(self) -> nat {
        self.current_internal_id as nat
    }

    /// The logical capacity: how many slots can fill before the table grows.
    pub closed spec fn capacity(self) -> int {
        self.object_capacity as int
    }

    /// The fixed amount the capacity grows by when the table is full.
    pub closed spec fn growth_increment(self) -> int {
        self.capacity_increment as int
    }

    /// The generations recorded as invalidated, abstractly.
    pub closed spec fn invalidated_list(self) -> Seq<usize> {
        self.invalidated_ids@
    }

    pub open spec fn slot_filled(self, i: int) -> bool {
        0 <= i < self.num_slots() && self.slots()[i] is Some
    }

    pub open spec fn gen_of_slot(self, i: int) -> nat {
        self.slots()[i]->Some_0.generation as nat
    }

    pub open spec fn object_in_slot(self, i: int) -> GLObject {
        self.slots()[i]->Some_0.object
    }

    /// Some slot currently holds generation `g`.
    pub open spec fn generation_live(self, g: nat) -> bool {
        exists|i: int| #[trigger] self.slot_filled(i) && self.gen_of_slot(i) == g
    }

    /// Generation `g` stands in the invalidated set.
    pub open spec fn generation_invalidated(self, g: nat) -> bool {
        exists|k: int|
            0 <= k < self.invalidated_list().len() && (#[trigger] self.invalidated_list()[k]) as nat
                == g
    }

    /// A handle is valid exactly when the slot it points at is filled and
    /// still owned by the handle's generation.
    pub open spec fn valid_descriptor(self, d: GLObjectDescriptor) -> bool {
        self.slot_filled(d.slot()) && self.gen_of_slot(d.slot()) == d.generation()
    }

    /// The resource a valid handle resolves to.
    pub open spec fn object_at(self, d: GLObjectDescriptor) -> GLObject {
        self.object_in_slot(d.slot())
    }

    /// The handle's kind tag agrees with the stored resource's kind.
    pub open spec fn kind_matches(self, d: GLObjectDescriptor) -> bool {
        self.object_at(d).is_kind(d.kind)
    }

    /// Well-formedness: generations are unique across filled slots, every
    /// recorded generation was issued, and an issued generation is live
    /// exactly when it has not been invalidated.
    pub open spec fn wf(self) -> bool {
        &&& forall|i: int, j: int|
            #![trigger self.gen_of_slot(i), self.gen_of_slot(j)]
            self.slot_filled(i) && self.slot_filled(j) && i != j ==> self.gen_of_slot(i)
                != self.gen_of_slot(j)
        &&& forall|i: int| #[trigger] self.slot_filled(i) ==> self.gen_of_slot(i)
            < self.next_generation()
        &&& forall|k: int|
            0 <= k < self.invalidated_list().len() ==> ((#[trigger] self.invalidated_list()[k]) as nat)
                < self.next_generation()
        &&& forall|g: nat|
            g < self.next_generation() ==> ((#[trigger] self.generation_live(g))
                <==> !self.generation_invalidated(g))
    }

    /// Some slot is empty.
    pub open spec fn has_empty_slot(self) -> bool {
        exists|i: int| 0 <= i < self.num_slots() && (#[trigger] self.slots()[i]) is None
    }

    /// `i` is the first empty slot.
    pub open spec fn is_first_empty_slot(self, i: int) -> bool {
        &&& 0 <= i < self.num_slots()
        &&& self.slots()[i] is None
        &&& forall|j: int| 0 <= j < i ==> (#[trigger] self.slots()[j]) is Some
    }

    /// The capacity after one growth step: it grows by the fixed increment,
    /// saturating at the machine limit.
    pub open spec fn grown_capacity(self) -> int {
        if self.capacity() + self.growth_increment() <= usize::MAX as int {
            self.capacity() + self.growth_increment()
        } else {
            usize::MAX as int
        }
    }

    /// How one registration changes the table: the fresh handle carries the
    /// next generation and the kind of the stored resource; the resource
    /// lands in the first empty slot if there is one, else in a fresh slot
    /// appended at the end, growing the capacity when the table was full.
    pub open spec fn register_step(
        pre: Self,
        post: Self,
        d: GLObjectDescriptor,
        obj: GLObject,
    ) -> bool {
        &&& d.generation() == pre.next_generation()
        &&& obj.is_kind(d.kind)
        &&& post.next_generation() == pre.next_generation() + 1
        &&& post.growth_increment() == pre.growth_increment()
        &&& post.invalidated_list() == pre.invalidated_list()
        &&& post.slots()[d.slot()] == Some(
            StoredObject { generation: d.internal_id, object: obj },
        )
        &&& if pre.has_empty_slot() {
            &&& pre.is_first_empty_slot(d.slot())
            &&& post.slots() == pre.slots().update(
                d.slot(),
                Some(StoredObject { generation: d.internal_id, object: obj }),
            )
            &&& post.capacity() == pre.capacity()
        } else {
            &&& d.slot() == pre.num_slots()
            &&& post.slots() == pre.slots().push(
                Some(StoredObject { generation: d.internal_id, object: obj }),
            )
            &&& if pre.num_slots() < pre.capacity() {
                post.capacity() == pre.capacity()
            } else {
                post.capacity() == pre.grown_capacity()
            }
        }
    }

    /// How one removal changes the table: the handle's slot empties and its
    /// generation joins the invalidated set; nothing else moves.
    pub open spec fn remove_step(pre: Self, post: Self, d: GLObjectDescriptor) -> bool {
        &&& post.slots() == pre.slots().update(d.slot(), None::<StoredObject>)
        &&& post.invalidated_list() == pre.invalidated_list().push(d.internal_id)
        &&& post.next_generation() == pre.next_generation()
        &&& post.capacity() == pre.capacity()
        &&& post.growth_increment() == pre.growth_increment()
    }

    /// What a lookup returns, as a function of the table and the handle.
    pub open spec fn get_object_spec(self, d: GLObjectDescriptor) -> Result<GLObject, Error> {
        if !self.valid_descriptor(d) {
            Err(Error::InvalidObjectDescriptor)
        } else if !self.kind_matches(d) {
            Err(Error::UnexpectedObjectDescriptorKind)
        } else {
            Ok(self.object_at(d))
        }
    }

    /// What a vertex-object lookup returns, as a function of the table and
    /// the handle.
    pub open spec fn get_vertex_object_spec(self, d: GLObjectDescriptor) -> Result<
        VertexObject,
        Error,
    > {
        match self.get_object_spec(d) {
            Ok(o) => if o is VertexObject {
                Ok(o->VertexObject_0)
            } else {
                Err(Error::UnexpectedObjectDescriptorKind)
            },
            Err(e) => Err(e),
        }
    }

    /// What a program lookup returns, as a function of the table and the
    /// handle.
    pub open spec fn get_program_spec(self, d: GLObjectDescriptor) -> Result<Program, Error> {
        match self.get_object_spec(d) {
            Ok(o) => if o is Program {
                Ok(o->Program_0)
            } else {
                Err(Error::UnexpectedObjectDescriptorKind)
            },
            Err(e) => Err(e),
        }
    }

    /// What a texture lookup returns, as a function of the table and the
    /// handle.
    pub open spec fn get_texture_spec(self, d: GLObjectDescriptor) -> Result<Texture, Error> {
        match self.get_object_spec(d) {
            Ok(o) => if o is Texture {
                Ok(o->Texture_0)
            } else {
                Err(Error::UnexpectedObjectDescriptorKind)
            },
            Err(e) => Err(e),
        }
    }

    pub fn new(object_capacity: usize, capacity_increment: usize) -> (r: Self)
        ensures
            r.wf(),
            r.num_slots() == 0,
            r.capacity() == object_capacity,
            r.growth_increment() == capacity_increment,
            r.next_generation() == 0,
            r.invalidated_list().len() == 0,
    {
        GLObjectRegistry {
            objects: Vec::new(),
            object_capacity,
            capacity_increment,
            current_internal_id: 0,
            invalidated_ids: Vec::new(),
        }
    }

    /// How many slots the table currently has, filled or empty.
    pub fn slot_count(&self) -> (r: usize)
        ensures
            r as int == self.num_slots(),
    {
        self.objects.len()
    }

    /// The current logical capacity.
    pub fn current_capacity(&self) -> (r: usize)
        ensures
            r as int == self.capacity(),
    {
        self.object_capacity
    }

    /// Builds the descriptor for a resource about to be stored.
    fn make_descriptor(obj: &GLObject, internal_id: usize, idx: usize) -> (r: GLObjectDescriptor)
        ensures
            r.internal_id == internal_id,
            r.slot() == idx as int,
            obj.is_kind(r.kind),
    {
        match obj {
            GLObject::VertexObject(_) => GLObjectDescriptor::new_vertex_object_descriptor(
                internal_id,
                idx,
            ),
            GLObject::Program(_) => GLObjectDescriptor::new_program_descriptor(internal_id, idx),
            GLObject::Texture(_) => GLObjectDescriptor::new_texture_descriptor(internal_id, idx),
        }
    }

    /// Stores a resource and hands out a fresh handle.  Registration always
    /// succeeds: a full table grows by the fixed increment.  The handle's
    /// generation has never been issued by this table before.
    pub fn register_object(&mut self, obj: GLObject) -> (r: GLObjectDescriptor)
        requires
            old(self).wf(),
            old(self).next_generation() < usize::MAX,
        ensures
            final(self).wf(),
            Self::register_step(*old(self), *final(self), r, obj),
            final(self).valid_descriptor(r),
            final(self).kind_matches(r),
            final(self).object_at(r) == obj,
    {
        let ghost pre = *self;
        let gen: usize = self.current_internal_id;

        // find the first empty slot, if any
        let n: usize = self.objects.len();
        let mut first_empty: Option<usize> = None;
        let mut i: usize = 0;
        while i < n
            invariant
                i <= n,
                n as int == self.num_slots(),
                *self == pre,
                match first_empty {
                    Some(k) => k < i && pre.is_first_empty_slot(k as int),
                    None => forall|j: int| 0 <= j < i ==> (#[trigger] pre.slots()[j]) is Some,
                },
            decreases n - i,
        {
            if first_empty.is_none() && self.objects[i].is_none() {
                first_empty = Some(i);
            }
            i = i + 1;
        }

        let ghost obj_spec = obj;
        match first_empty {
            Some(idx) => {
                let desc = Self::make_descriptor(&obj, gen, idx);
                self.objects.set(idx, Some(StoredObject { generation: gen, object: obj }));
                self.current_internal_id = gen + 1;
                proof {
                    assert(pre.slots()[idx as int] is None);
                    assert(pre.has_empty_slot());
                    assert(self.slots() =~= pre.slots().update(
                        idx as int,
                        Some(StoredObject { generation: gen, object: obj_spec }),
                    ));
                    assert(Self::register_step(pre, *self, desc, obj_spec));
                    Self::lemma_register_preserves_wf(pre, *self, desc);
                }
                desc
            },
            None => {
                let idx = self.objects.len();
                let desc = Self::make_descriptor(&obj, gen, idx);
                if idx >= self.object_capacity {
                    // the table is full: grow by the fixed increment,
                    // saturating at the machine limit
                    if self.object_capacity <= usize::MAX - self.capacity_increment {
                        self.object_capacity = self.object_capacity + self.capacity_increment;
                    } else {
                        self.object_capacity = usize::MAX;
                    }
                }
                self.objects.push(Some(StoredObject { generation: gen, object: obj }));
                self.current_internal_id = gen + 1;
                proof {
                    assert(forall|j: int|
                        0 <= j < pre.num_slots() ==> (#[trigger] pre.slots()[j]) is Some);
                    assert(!pre.has_empty_slot());
                    assert(self.slots() =~= pre.slots().push(
                        Some(StoredObject { generation: gen, object: obj_spec }),
                    ));
                    assert(Self::register_step(pre, *self, desc, obj_spec));
                    Self::lemma_register_preserves_wf(pre, *self, desc);
                }
                desc
            },
        }
    }

    /// Takes the resource out of the handle's slot, leaving the slot empty
    /// for reuse and invalidating the handle's generation.  Returns nothing
    /// if the handle was already invalid.  Either way the handle is invalid
    /// afterwards.
    pub fn remove_object(&mut self, obj_desc: GLObjectDescriptor) -> (r: Option<GLObject>)
        requires
            old(self).wf(),
        ensures
            final(self).wf(),
            match r {
                Some(obj) => {
                    &&& old(self).valid_descriptor(obj_desc)
                    &&& obj == old(self).object_at(obj_desc)
                    &&& Self::remove_step(*old(self), *final(self), obj_desc)
                },
                None => {
                    &&& !old(self).valid_descriptor(obj_desc)
                    &&& *final(self) == *old(self)
                },
            },
            !final(self).valid_descriptor(obj_desc),
    {
        let ghost pre = *self;
        if !self.descriptor_is_valid(obj_desc) {
            return None;
        }
        let idx = obj_desc.slot_index();
        let mut taken: Option<StoredObject> = None;
        self.objects.set_and_swap(idx, &mut taken);
        match taken {
            Some(stored) => {
                self.invalidated_ids.push(obj_desc.internal_id);
                proof {
                    Self::lemma_remove_preserves_wf(pre, *self, obj_desc);
                }
                Some(stored.object)
            },
            None => None,
        }
    }

    /// Resolves a handle.  Fails with `InvalidObjectDescriptor` when the
    /// handle's generation was invalidated or never issued, and with
    /// `UnexpectedObjectDescriptorKind` when the handle's kind tag does not
    /// match the stored resource.
    pub fn get_object(&self, obj_desc: GLObjectDescriptor) -> (r: Result<&GLObject, Error>)
        ensures
            match r {
                Ok(obj) => self.get_object_spec(obj_desc) == Ok::<GLObject, Error>(*obj),
                Err(e) => self.get_object_spec(obj_desc) == Err::<GLObject, Error>(e),
            },
    {
        let idx = obj_desc.slot_index();
        if idx >= self.objects.len() {
            return Err(Error::InvalidObjectDescriptor);
        }
        match &self.objects[idx] {
            None => Err(Error::InvalidObjectDescriptor),
            Some(stored) => {
                if stored.generation != obj_desc.generation_id() {
                    return Err(Error::InvalidObjectDescriptor);
                }
                match (&stored.object, obj_desc.kind) {
                    (GLObject::VertexObject(_), GLObjectDescriptorKind::VertexObject(_)) => Ok(
                        &stored.object,
                    ),
                    (GLObject::Program(_), GLObjectDescriptorKind::Program(_)) => Ok(
                        &stored.object,
                    ),
                    (GLObject::Texture(_), GLObjectDescriptorKind::Texture(_)) => Ok(
                        &stored.object,
                    ),
                    _ => Err(Error::UnexpectedObjectDescriptorKind),
                }
            },
        }
    }

    /// Resolves a handle that must name a vertex object.
    pub fn get_vertex_object(&self, obj_desc: GLObjectDescriptor) -> (r: Result<
        &VertexObject,
        Error,
    >)
        ensures
            match r {
                Ok(vo) => self.get_vertex_object_spec(obj_desc) == Ok::<VertexObject, Error>(*vo),
                Err(e) => self.get_vertex_object_spec(obj_desc) == Err::<VertexObject, Error>(e),
            },
    {
        match self.get_object(obj_desc)? {
            GLObject::VertexObject(vertex_object) => Ok(vertex_object),
            _ => Err(Error::UnexpectedObjectDescriptorKind),
        }
    }

    /// Resolves a handle that must name a program.
    pub fn get_program(&self, obj_desc: GLObjectDescriptor) -> (r: Result<&Program, Error>)
        ensures
            match r {
                Ok(p) => self.get_program_spec(obj_desc) == Ok::<Program, Error>(*p),
                Err(e) => self.get_program_spec(obj_desc) == Err::<Program, Error>(e),
            },
    {
        match self.get_object(obj_desc)? {
            GLObject::Program(program) => Ok(program),
            _ => Err(Error::UnexpectedObjectDescriptorKind),
        }
    }

    /// Resolves a handle that must name a texture.
    pub fn get_texture(&self, obj_desc: GLObjectDescriptor) -> (r: Result<&Texture, Error>)
        ensures
            match r {
                Ok(t) => self.get_texture_spec(obj_desc) == Ok::<Texture, Error>(*t),
                Err(e) => self.get_texture_spec(obj_desc) == Err::<Texture, Error>(e),
            },
    {
        match self.get_object(obj_desc)? {
            GLObject::Texture(texture) => Ok(texture),
            _ => Err(Error::UnexpectedObjectDescriptorKind),
        }
    }

    /// Whether the handle currently resolves to a resource.
    fn descriptor_is_valid(&self, obj_desc: GLObjectDescriptor) -> (r: bool)
        ensures
            r == self.valid_descriptor(obj_desc),
    {
        let idx = obj_desc.slot_index();
        if idx >= self.objects.len() {
            return false;
        }
        match &self.objects[idx] {
            Some(stored) => stored.generation == obj_desc.generation_id(),
            None => false,
        }
    }

    proof fn lemma_register_preserves_wf(pre: Self, post: Self, d: GLObjectDescriptor)
        requires
            pre.wf(),
            pre.next_generation() < usize::MAX,
            exists|obj: GLObject| Self::register_step(pre, post, d, obj),
        ensures
            post.wf(),
    {
        let obj = choose|obj: GLObject| Self::register_step(pre, post, d, obj);
        let s = d.slot();
        let g0 = pre.next_generation();

        // every pre slot other than `s` is unchanged, and `s` now holds g0
        assert forall|i: int| #[trigger] post.slot_filled(i) implies (i == s && post.gen_of_slot(i)
            == g0) || (pre.slot_filled(i) && post.gen_of_slot(i) == pre.gen_of_slot(i)) by {
            if i != s {
                assert(post.slots()[i] == pre.slots()[i]);
            }
        }
        assert forall|i: int| pre.slot_filled(i) implies #[trigger] post.slot_filled(i)
            && post.gen_of_slot(i) == pre.gen_of_slot(i) by {
            if i == s {
                assert(pre.has_empty_slot() ==> pre.slots()[s] is None);
            } else {
                assert(post.slots()[i] == pre.slots()[i]);
            }
        }
        assert(post.slot_filled(s) && post.gen_of_slot(s) == g0);

        // the partition of issued generations into live and invalidated
        assert forall|g: nat| g < post.next_generation() implies ((#[trigger] post.generation_live(
            g,
        )) <==> !post.generation_invalidated(g)) by {
            assert(post.generation_invalidated(g) == pre.generation_invalidated(g));
            if g == g0 {
                assert(post.generation_live(g));
                if pre.generation_invalidated(g) {
                    let k = choose|k: int|
                        0 <= k < pre.invalidated_list().len() && (
                        #[trigger] pre.invalidated_list()[k]) as nat == g;
                    assert((pre.invalidated_list()[k] as nat) < g0);
                }
            } else {
                assert(g < pre.next_generation());
                if pre.generation_live(g) {
                    let i = choose|i: int|
                        #[trigger] pre.slot_filled(i) && pre.gen_of_slot(i) == g;
                    assert(post.slot_filled(i) && post.gen_of_slot(i) == g);
                }
                if post.generation_live(g) {
                    let i = choose|i: int|
                        #[trigger] post.slot_filled(i) && post.gen_of_slot(i) == g;
                    assert(i != s);
                    assert(pre.slot_filled(i) && pre.gen_of_slot(i) == g);
                }
            }
        }
    }

    proof fn lemma_remove_preserves_wf(pre: Self, post: Self, d: GLObjectDescriptor)
        requires
            pre.wf(),
            pre.valid_descriptor(d),
            Self::remove_step(pre, post, d),
        ensures
            post.wf(),
            !post.valid_descriptor(d),
            post.generation_invalidated(d.generation()),
    {
        let s = d.slot();
        let gd = d.generation();

        assert forall|i: int| #[trigger] post.slot_filled(i) implies pre.slot_filled(i) && i != s
            && post.gen_of_slot(i) == pre.gen_of_slot(i) by {
            if i != s {
                assert(post.slots()[i] == pre.slots()[i]);
            }
        }
        assert(post.invalidated_list()[pre.invalidated_list().len() as int] == d.internal_id);
        assert(post.generation_invalidated(gd));

        assert forall|g: nat| g < post.next_generation() implies ((#[trigger] post.generation_live(
            g,
        )) <==> !post.generation_invalidated(g)) by {
            if g == gd {
                // gd was live in pre only at slot s, which is now empty
                if post.generation_live(g) {
                    let i = choose|i: int|
                        #[trigger] post.slot_filled(i) && post.gen_of_slot(i) == g;
                    assert(pre.slot_filled(i) && pre.gen_of_slot(i) == g);
                    assert(pre.slot_filled(s) && pre.gen_of_slot(s) == g);
                    assert(i != s);
                    assert(false);
                }
            } else {
                // membership in the invalidated list is unchanged for g
                assert forall|k: int|
                    0 <= k < post.invalidated_list().len() && (
                    #[trigger] post.invalidated_list()[k]) as nat == g implies 0 <= k
                    < pre.invalidated_list().len() && (pre.invalidated_list()[k] as nat) == g by {
                    if k == pre.invalidated_list().len() as int {
                        assert(post.invalidated_list()[k] == d.internal_id);
                    }
                }
                assert forall|k: int|
                    0 <= k < pre.invalidated_list().len() && (#[trigger] pre.invalidated_list()[k]) as
                    nat == g implies 0 <= k < post.invalidated_list().len() && (
                post.invalidated_list()[k] as nat) == g by {}
                assert(post.generation_invalidated(g) == pre.generation_invalidated(g));
                if pre.generation_live(g) {
                    let i = choose|i: int|
                        #[trigger] pre.slot_filled(i) && pre.gen_of_slot(i) == g;
                    assert(i != s);
                    assert(post.slots()[i] == pre.slots()[i]);
                    assert(post.slot_filled(i) && post.gen_of_slot(i) == g);
                }
                if post.generation_live(g) {
                    let i = choose|i: int|
                        #[trigger] post.slot_filled(i) && post.gen_of_slot(i) == g;
                    assert(pre.slot_filled(i) && pre.gen_of_slot(i) == g);
                }
            }
        }
    }
}

/// Law: looking a handle up after removing it always fails with
/// `InvalidObjectDescriptor`, whether or not the handle was still valid when
/// the removal ran.  The two premises are exactly the two outcomes
/// `remove_object` guarantees.
pub proof fn lemma_get_after_remove(
    pre: GLObjectRegistry,
    post: GLObjectRegistry,
    d: GLObjectDescriptor,
)
    requires
        pre.valid_descriptor(d) ==> GLObjectRegistry::remove_step(pre, post, d),
        !pre.valid_descriptor(d) ==> post == pre,
    ensures
        !post.valid_descriptor(d),
        post.get_object_spec(d) == Err::<GLObject, Error>(Error::InvalidObjectDescriptor),
{
    if pre.valid_descriptor(d) {
        assert(post.slots()[d.slot()] is None);
    }
}

/// Law: a generation is never issued twice.  Registering a resource,
/// removing it, and registering another resource hands out a handle with a
/// strictly larger generation, even when the freed slot is reused; the old
/// handle stays invalid.
pub proof fn lemma_no_generation_reuse(
    t0: GLObjectRegistry,
    t1: GLObjectRegistry,
    t2: GLObjectRegistry,
    t3: GLObjectRegistry,
    d1: GLObjectDescriptor,
    d2: GLObjectDescriptor,
    obj1: GLObject,
    obj2: GLObject,
)
    requires
        GLObjectRegistry::register_step(t0, t1, d1, obj1),
        GLObjectRegistry::remove_step(t1, t2, d1),
        GLObjectRegistry::register_step(t2, t3, d2, obj2),
    ensures
        d2.generation() > d1.generation(),
        t3.valid_descriptor(d2),
        !t3.valid_descriptor(d1),
{
    assert(d1.generation() == t0.next_generation());
    assert(d2.generation() == t0.next_generation() + 1);
    assert(t3.slots()[d2.slot()] == Some(
        StoredObject { generation: d2.internal_id, object: obj2 },
    ));
    // after the removal the old slot is empty; the re-registration either
    // fills it under the new generation or leaves it empty
    assert(t2.slots()[d1.slot()] is None);
    if t3.valid_descriptor(d1) {
        if d1.slot() == d2.slot() {
            assert(t3.gen_of_slot(d1.slot()) == d2.generation());
        } else {
            assert(t3.slots()[d1.slot()] == t2.slots()[d1.slot()]);
        }
        assert(false);
    }
}

/// Helper for the fill law: characterizes the table after `k` registrations
/// from empty, assuming no removals happened in between.
proof fn lemma_fill_run_invariant(
    states: Seq<GLObjectRegistry>,
    descs: Seq<GLObjectDescriptor>,
    objs: Seq<GLObject>,
    k: int,
)
    requires
        states.len() == descs.len() + 1,
        objs.len() == descs.len(),
        states[0].num_slots() == 0,
        states[0].next_generation() == 0,
        states[0].capacity() + states[0].growth_increment() <= usize::MAX,
        descs.len() <= states[0].capacity() + 1,
        forall|m: int|
            0 <= m < descs.len() ==> #[trigger] GLObjectRegistry::register_step(
                states[m],
                states[m + 1],
                descs[m],
                objs[m],
            ),
        0 <= k <= descs.len(),
    ensures
        states[k].num_slots() == k,
        states[k].next_generation() == k,
        forall|i: int|
            0 <= i < k ==> #[trigger] states[k].slot_filled(i) && states[k].gen_of_slot(i) == i,
        forall|i: int|
            0 <= i < k ==> (#[trigger] descs[i].generation()) == i && descs[i].slot() == i,
        states[k].growth_increment() == states[0].growth_increment(),
        k <= states[0].capacity() ==> states[k].capacity() == states[0].capacity(),
        k == states[0].capacity() + 1 ==> states[k].capacity() == states[0].capacity()
            + states[0].growth_increment(),
    decreases k,
{
    if k > 0 {
        lemma_fill_run_invariant(states, descs, objs, k - 1);
        assert(GLObjectRegistry::register_step(states[k - 1], states[(k - 1) + 1], descs[k - 1], objs[k - 1]));
        assert(states[(k - 1) + 1] == states[k]);
        // every slot of the previous state is filled, so the new resource
        // was appended at the end
        assert(!states[k - 1].has_empty_slot()) by {
            if states[k - 1].has_empty_slot() {
                let i = choose|i: int|
                    0 <= i < states[k - 1].num_slots() && (#[trigger] states[k - 1].slots()[i]) is None;
                assert(states[k - 1].slot_filled(i));
            }
        }
        assert(descs[k - 1].slot() == k - 1);
        assert(states[k].slots() == states[k - 1].slots().push(
            Some(StoredObject { generation: descs[k - 1].internal_id, object: objs[k - 1] }),
        ));
        assert forall|i: int| 0 <= i < k implies #[trigger] states[k].slot_filled(i)
            && states[k].gen_of_slot(i) == i by {
            if i < k - 1 {
                assert(states[k - 1].slot_filled(i));
                assert(states[k - 1].gen_of_slot(i) == i);
                assert(states[k].slots()[i] == states[k - 1].slots()[i]);
            } else {
                assert(states[k].slots()[i] == Some(
                    StoredObject { generation: descs[k - 1].internal_id, object: objs[k - 1] },
                ));
                assert(descs[k - 1].generation() == k - 1);
            }
        }
        // capacity bookkeeping: no growth while the run stays within the
        // initial capacity, one increment at the step past it
        if k - 1 < states[0].capacity() {
            assert(states[k - 1].num_slots() < states[k - 1].capacity());
            assert(states[k].capacity() == states[k - 1].capacity());
        } else {
            assert(k - 1 == states[0].capacity());
            assert(states[k - 1].capacity() == states[0].capacity());
            assert(!(states[k - 1].num_slots() < states[k - 1].capacity()));
            assert(states[k].capacity() == states[k - 1].grown_capacity());
        }
    }
}

/// Law: starting from an empty table with capacity `C`, the first `C`
/// registrations succeed without growing the capacity and hand out handles
/// with pairwise distinct generations, all still valid at the end of the
/// run; a `(C+1)`th registration grows the capacity by the fixed increment
/// and its handle is fresh and valid as well.
pub proof fn lemma_fresh_table_fill_and_growth(
    states: Seq<GLObjectRegistry>,
    descs: Seq<GLObjectDescriptor>,
    objs: Seq<GLObject>,
)
    requires
        states.len() == descs.len() + 1,
        objs.len() == descs.len(),
        states[0].num_slots() == 0,
        states[0].next_generation() == 0,
        states[0].capacity() + states[0].growth_increment() <= usize::MAX,
        descs.len() <= states[0].capacity() + 1,
        forall|m: int|
            0 <= m < descs.len() ==> #[trigger] GLObjectRegistry::register_step(
                states[m],
                states[m + 1],
                descs[m],
                objs[m],
            ),
    ensures
        forall|i: int, j: int|
            0 <= i < j < descs.len() ==> descs[i].generation() != descs[j].generation(),
        forall|i: int|
            0 <= i < descs.len() ==> states[descs.len() as int].valid_descriptor(
                #[trigger] descs[i],
            ),
        forall|k: int|
            0 <= k <= descs.len() && k <= states[0].capacity() ==> (#[trigger] states[k].capacity())
                == states[0].capacity(),
        descs.len() == states[0].capacity() + 1 ==> states[descs.len() as int].capacity()
            == states[0].capacity() + states[0].growth_increment(),
{
    let n = descs.len() as int;
    lemma_fill_run_invariant(states, descs, objs, n);
    assert forall|i: int, j: int| 0 <= i < j < n implies descs[i].generation()
        != descs[j].generation() by {
        assert(descs[i].generation() == i);
        assert(descs[j].generation() == j);
    }
    assert forall|i: int| 0 <= i < n implies states[n].valid_descriptor(#[trigger] descs[i]) by {
        assert(states[n].slot_filled(i) && states[n].gen_of_slot(i) == i);
        assert(descs[i].generation() == i && descs[i].slot() == i);
    }
    assert forall|k: int| 0 <= k <= n && k <= states[0].capacity() implies (
    #[trigger] states[k].capacity()) == states[0].capacity() by {
        lemma_fill_run_invariant(states, descs, objs, k);
    }
}

} // verus!
