use vstd::prelude::*;
use core::marker::PhantomData;
use crate::error::Error;

pub mod primitives;
pub mod usage;

pub use primitives::Primitive;
pub use usage::Usage;

verus! {

/// A GPU-resident description of a mesh: the native vertex-array and
/// vertex-buffer ids, an optional index buffer, the attribute layout the
/// buffer was interleaved from, and the topology used to draw it.
///
/// Attribute data is carried as `f32` bit patterns (`u32`), so the verified
/// core can hold and rearrange it without doing float arithmetic; the
/// unverified shell reinterprets the bits when it uploads them.
#[derive(Debug)]
pub struct VertexObject {
    pub vertex_array_object: u32,
    pub vertex_buffer_object: u32,
    pub index_buffer_object: Option<IndexObject>,
    pub attributes: Vec<VertexAttribute>,
    pub num_vertices: i32,
    pub primitive: Primitive,
    pub usage: Usage,
}

/// One named vertex attribute: its component count per vertex and its raw
/// values as `f32` bit patterns.
#[derive(Debug)]
pub struct VertexAttribute {
    pub name: String,
    pub component_size: i32,
    pub data: Vec<u32>,
    pub normalized: bool,
}

/// A native index (element) buffer and the indices stored in it.
#[derive(Debug)]
pub struct IndexObject {
    pub gl_object_id: u32,
    pub indexes: Vec<u32>,
}

impl VertexObject {
    /// How many vertices a non-indexed draw covers.
    pub open spec fn vertex_count(self) -> int {
        self.num_vertices as int
    }

    pub fn num_vertices(&self) -> (r: i32)
        ensures
            r as int == self.vertex_count(),
    {
        self.num_vertices
    }

    pub fn primitive(&self) -> (r: Primitive)
        ensures
            r == self.primitive,
    {
        self.primitive
    }

    pub fn has_index_buffer(&self) -> (r: bool)
        ensures
            r == self.index_buffer_object is Some,
    {
        self.index_buffer_object.is_some()
    }
}

impl VertexAttribute {
    pub fn name(&self) -> (r: &String)
        ensures
            r@ == self.name@,
    {
        &self.name
    }

    pub fn component_size(&self) -> (r: i32)
        ensures
            r == self.component_size,
    {
        self.component_size
    }
}

/// Copies a slice of raw values into an owned vector.
fn copy_u32_slice(data: &[u32]) -> (r: Vec<u32>)
    ensures
        r@ == data@,
{
    let mut copied: Vec<u32> = Vec::new();
    let n = data.len();
    let mut i: usize = 0;
    while i < n
        invariant
            i <= n,
            n == data@.len(),
            copied@ == data@.take(i as int),
        decreases n - i,
    {
        let value = data[i];
        copied.push(value);
        proof {
            assert(copied@ =~= data@.take(i as int + 1));
        }
        i = i + 1;
    }
    proof {
        assert(data@.take(n as int) =~= data@);
    }
    copied
}

/// Marks a builder that holds no attribute yet.
pub struct VOBInit;

/// Marks a builder that holds at least one attribute.
pub struct VOBAttr;

/// Builds a [`VertexObject`] from named attributes sharing one topology and
/// usage hint, with an optional index list.
///
/// The builder validates everything the native upload depends on: every
/// attribute's value count must divide evenly by its component size, all
/// attributes must describe the same number of vertices, and every index
/// must fall inside the vertex range.  The typestate parameter makes
/// supplying a first attribute a precondition for the later steps.
pub struct VertexObjectBuilder<T> {
    pub num_vertices: i32,
    pub attributes: Vec<VertexAttribute>,
    pub indexes: Option<Vec<u32>>,
    pub usage: Usage,
    pub primitive: Primitive,
    pub state: PhantomData<T>,
}

pub type VOBuilder = VertexObjectBuilder<VOBInit>;

/// The largest total component count per vertex the builder accepts: the
/// byte stride (four bytes per component) must fit the native signed size.
pub const MAX_TOTAL_COMPONENTS: i32 = 536870911;

/// The summed component size of the attributes.
pub open spec fn total_components(attrs: Seq<VertexAttribute>) -> int
    decreases attrs.len(),
{
    if attrs.len() == 0 {
        0
    } else {
        total_components(attrs.drop_last()) + attrs.last().component_size
    }
}

/// The largest value in the list, or zero when it is empty.
pub open spec fn max_index(s: Seq<u32>) -> u32
    decreases s.len(),
{
    if s.len() == 0 {
        0u32
    } else if s.last() >= max_index(s.drop_last()) {
        s.last()
    } else {
        max_index(s.drop_last())
    }
}

/// The values of one attribute for one vertex.
pub open spec fn attr_slice(a: VertexAttribute, v: int) -> Seq<u32> {
    a.data@.subrange(v * a.component_size, (v + 1) * a.component_size)
}

/// The values of all attributes for one vertex, in attribute order.
pub open spec fn interleaved_chunk(attrs: Seq<VertexAttribute>, v: int) -> Seq<u32>
    decreases attrs.len(),
{
    if attrs.len() == 0 {
        Seq::empty()
    } else {
        interleaved_chunk(attrs.drop_last(), v) + attr_slice(attrs.last(), v)
    }
}

/// The whole interleaved buffer: vertex by vertex, each vertex's values in
/// attribute order.
pub open spec fn interleaved(attrs: Seq<VertexAttribute>, num_vertices: int) -> Seq<u32>
    decreases num_vertices,
{
    if num_vertices <= 0 {
        Seq::empty()
    } else {
        interleaved(attrs, num_vertices - 1) + interleaved_chunk(attrs, num_vertices - 1)
    }
}

impl<T> VertexObjectBuilder<T> {
    /// The attributes agree with the recorded vertex count and keep the
    /// byte stride within the native signed size.
    pub open spec fn attrs_wf(self) -> bool {
        &&& self.num_vertices >= 1
        &&& self.attributes@.len() >= 1
        &&& forall|k: int|
            0 <= k < self.attributes@.len() ==> {
                let a = #[trigger] self.attributes@[k];
                a.component_size >= 1 && a.data@.len() == self.num_vertices * a.component_size
            }
        &&& total_components(self.attributes@) <= MAX_TOTAL_COMPONENTS
    }

    /// Every recorded index falls inside the vertex range.
    pub open spec fn indexes_wf(self) -> bool {
        match self.indexes {
            Some(idxs) => forall|k: int|
                0 <= k < idxs@.len() ==> (#[trigger] idxs@[k]) < self.num_vertices,
            None => true,
        }
    }

    pub fn new(primitive: Primitive, usage: Usage) -> (r: VertexObjectBuilder<VOBInit>)
        ensures
            r.attributes@.len() == 0,
            r.indexes is None,
            r.num_vertices == 0,
            r.usage == usage,
            r.primitive == primitive,
    {
        VertexObjectBuilder {
            usage,
            primitive,
            attributes: Vec::new(),
            indexes: None,
            num_vertices: 0,
            state: PhantomData,
        }
    }
}

impl VertexObjectBuilder<VOBInit> {
    /// Records the first attribute.  The data must be non-empty, fit the
    /// native signed size, divide evenly by the component size
    /// (`ComponentSizeMismatch` otherwise), and keep the stride within the
    /// native limit; the quotient becomes the vertex count every later
    /// attribute must match.
    pub fn attribute(self, name: &str, component_size: i32, data: &[u32]) -> (r: Result<
        VertexObjectBuilder<VOBAttr>,
        Error,
    >)
        requires
            self.attributes@.len() == 0,
            self.indexes is None,
        ensures
            match r {
                Ok(b) => {
                    &&& 1 <= data@.len() <= i32::MAX
                    &&& component_size >= 1
                    &&& data@.len() as int % (component_size as int) == 0
                    &&& component_size <= MAX_TOTAL_COMPONENTS
                    &&& b.attrs_wf()
                    &&& b.num_vertices as int == data@.len() as int / (component_size as int)
                    &&& b.attributes@.len() == 1
                    &&& b.attributes@[0].name@ == name@
                    &&& b.attributes@[0].component_size == component_size
                    &&& b.attributes@[0].data@ == data@
                    &&& b.attributes@[0].normalized == false
                    &&& b.indexes is None
                    &&& b.usage == self.usage
                    &&& b.primitive == self.primitive
                },
                Err(e) => match e {
                    Error::InvalidVertexObject(_) => data@.len() == 0 || data@.len() > i32::MAX
                        || (component_size >= 1 && data@.len() as int % (component_size as int) == 0
                        && component_size > MAX_TOTAL_COMPONENTS),
                    Error::ComponentSizeMismatch { num_values, component_size: cs } => {
                        &&& 1 <= data@.len() <= i32::MAX
                        &&& num_values as int == data@.len()
                        &&& cs == component_size
                        &&& (component_size < 1 || data@.len() as int % (component_size as int) != 0)
                    },
                    _ => false,
                },
            },
    {
        if data.len() == 0 {
            return Err(Error::InvalidVertexObject("vertex attribute must have data".to_owned()));
        }
        if data.len() > i32::MAX as usize {
            return Err(
                Error::InvalidVertexObject("vertex attribute data is too large".to_owned()),
            );
        }
        let num_values: i32 = data.len() as i32;
        if component_size < 1 || num_values % component_size != 0 {
            return Err(Error::ComponentSizeMismatch { num_values, component_size });
        }
        if component_size > MAX_TOTAL_COMPONENTS {
            return Err(
                Error::InvalidVertexObject("vertex attribute stride is too large".to_owned()),
            );
        }
        let num_vertices = num_values / component_size;
        let mut attributes = self.attributes;
        attributes.push(
            VertexAttribute {
                component_size,
                name: name.to_owned(),
                data: copy_u32_slice(data),
                normalized: false,
            },
        );
        let b = VertexObjectBuilder {
            num_vertices,
            attributes,
            indexes: self.indexes,
            usage: self.usage,
            primitive: self.primitive,
            state: PhantomData,
        };
        proof {
            assert(num_vertices >= 1) by (nonlinear_arith)
                requires
                    num_values >= 1,
                    component_size >= 1,
                    num_values % component_size == 0,
                    num_vertices == num_values / component_size,
            ;
            assert(num_vertices * component_size == num_values) by (nonlinear_arith)
                requires
                    component_size >= 1,
                    num_values % component_size == 0,
                    num_vertices == num_values / component_size,
            ;
            assert(b.attributes@.drop_last() =~= Seq::<VertexAttribute>::empty());
            assert(total_components(Seq::<VertexAttribute>::empty()) == 0);
            assert(b.attributes@.last().component_size == component_size);
            assert(total_components(b.attributes@) == total_components(b.attributes@.drop_last())
                + b.attributes@.last().component_size);
        }
        Ok(b)
    }
}

/// The total of a prefix never exceeds the total of the whole list when
/// every component size is non-negative.
proof fn lemma_total_components_prefix(attrs: Seq<VertexAttribute>, i: int)
    requires
        0 <= i <= attrs.len(),
        forall|k: int| 0 <= k < attrs.len() ==> (#[trigger] attrs[k]).component_size >= 0,
    ensures
        total_components(attrs.take(i)) <= total_components(attrs),
    decreases attrs.len() - i,
{
    if i == attrs.len() {
        assert(attrs.take(i) =~= attrs);
    } else {
        lemma_total_components_prefix(attrs, i + 1);
        assert(attrs.take(i + 1).drop_last() =~= attrs.take(i));
        assert(attrs.take(i + 1).last() == attrs[i]);
    }
}

/// No element exceeds the list's maximum.
proof fn lemma_max_index_bounds(s: Seq<u32>)
    ensures
        forall|k: int| 0 <= k < s.len() ==> (#[trigger] s[k]) <= max_index(s),
    decreases s.len(),
{
    if s.len() > 0 {
        lemma_max_index_bounds(s.drop_last());
        assert forall|k: int| 0 <= k < s.len() implies (#[trigger] s[k]) <= max_index(s) by {
            if k < s.len() - 1 {
                assert(s.drop_last()[k] == s[k]);
            }
        }
    }
}

impl VertexObjectBuilder<VOBAttr> {
    /// The summed component size of the attributes recorded so far.
    fn total_component_count(&self) -> (r: i32)
        requires
            self.attrs_wf(),
        ensures
            r as int == total_components(self.attributes@),
            0 <= r <= MAX_TOTAL_COMPONENTS,
    {
        let n = self.attributes.len();
        let mut total: i32 = 0;
        let mut i: usize = 0;
        while i < n
            invariant
                i <= n,
                n == self.attributes@.len(),
                self.attrs_wf(),
                total as int == total_components(self.attributes@.take(i as int)),
                0 <= total <= MAX_TOTAL_COMPONENTS,
            decreases n - i,
        {
            proof {
                assert(self.attributes@.take(i as int + 1).drop_last() =~= self.attributes@.take(
                    i as int,
                ));
                assert(self.attributes@.take(i as int + 1).last() == self.attributes@[i as int]);
                lemma_total_components_prefix(self.attributes@, i as int + 1);
            }
            total = total + self.attributes[i].component_size;
            i = i + 1;
        }
        proof {
            assert(self.attributes@.take(n as int) =~= self.attributes@);
        }
        total
    }

    /// Records a further attribute.  Beyond the checks of the first
    /// attribute, its vertex count (values over component size) must match
    /// the count established by the attributes before it
    /// (`AttributeCountMismatch` otherwise).
    pub fn attribute(self, name: &str, component_size: i32, data: &[u32]) -> (r: Result<
        Self,
        Error,
    >)
        requires
            self.attrs_wf(),
        ensures
            match r {
                Ok(b) => {
                    &&& 1 <= data@.len() <= i32::MAX
                    &&& component_size >= 1
                    &&& data@.len() as int % (component_size as int) == 0
                    &&& data@.len() as int / (component_size as int) == self.num_vertices
                    &&& total_components(self.attributes@) + component_size
                        <= MAX_TOTAL_COMPONENTS
                    &&& b.attrs_wf()
                    &&& b.num_vertices == self.num_vertices
                    &&& b.attributes@.len() == self.attributes@.len() + 1
                    &&& b.attributes@.drop_last() == self.attributes@
                    &&& b.attributes@.last().name@ == name@
                    &&& b.attributes@.last().component_size == component_size
                    &&& b.attributes@.last().data@ == data@
                    &&& b.attributes@.last().normalized == false
                    &&& b.indexes == self.indexes
                    &&& b.usage == self.usage
                    &&& b.primitive == self.primitive
                },
                Err(e) => match e {
                    Error::InvalidVertexObject(_) => data@.len() == 0 || data@.len() > i32::MAX
                        || (component_size >= 1 && data@.len() as int % (component_size as int)
                        == 0 && data@.len() as int / (component_size as int) == self.num_vertices
                        && total_components(self.attributes@) + component_size
                        > MAX_TOTAL_COMPONENTS),
                    Error::ComponentSizeMismatch { num_values, component_size: cs } => {
                        &&& 1 <= data@.len() <= i32::MAX
                        &&& num_values as int == data@.len()
                        &&& cs == component_size
                        &&& (component_size < 1 || data@.len() as int % (component_size as int)
                            != 0)
                    },
                    Error::AttributeCountMismatch { attribute } => {
                        &&& 1 <= data@.len() <= i32::MAX
                        &&& component_size >= 1
                        &&& data@.len() as int % (component_size as int) == 0
                        &&& data@.len() as int / (component_size as int) != self.num_vertices
                        &&& attribute@ == name@
                    },
                    _ => false,
                },
            },
    {
        if data.len() == 0 {
            return Err(Error::InvalidVertexObject("vertex attribute must have data".to_owned()));
        }
        if data.len() > i32::MAX as usize {
            return Err(
                Error::InvalidVertexObject("vertex attribute data is too large".to_owned()),
            );
        }
        let num_values: i32 = data.len() as i32;
        if component_size < 1 || num_values % component_size != 0 {
            return Err(Error::ComponentSizeMismatch { num_values, component_size });
        }
        let new_attr_num_vertices = num_values / component_size;
        if new_attr_num_vertices != self.num_vertices {
            return Err(Error::AttributeCountMismatch { attribute: name.to_owned() });
        }
        let total = self.total_component_count();
        if component_size > MAX_TOTAL_COMPONENTS - total {
            return Err(
                Error::InvalidVertexObject("vertex attribute stride is too large".to_owned()),
            );
        }
        let mut attributes = self.attributes;
        attributes.push(
            VertexAttribute {
                component_size,
                name: name.to_owned(),
                data: copy_u32_slice(data),
                normalized: false,
            },
        );
        let b = VertexObjectBuilder {
            num_vertices: self.num_vertices,
            attributes,
            indexes: self.indexes,
            usage: self.usage,
            primitive: self.primitive,
            state: PhantomData,
        };
        proof {
            assert(new_attr_num_vertices * component_size == num_values) by (nonlinear_arith)
                requires
                    component_size >= 1,
                    num_values % component_size == 0,
                    new_attr_num_vertices == num_values / component_size,
            ;
            assert(b.attributes@.drop_last() =~= self.attributes@);
            assert(total_components(b.attributes@) == total_components(self.attributes@)
                + component_size);
            assert forall|k: int| 0 <= k < b.attributes@.len() implies {
                let a = #[trigger] b.attributes@[k];
                a.component_size >= 1 && a.data@.len() == b.num_vertices * a.component_size
            } by {
                if k < self.attributes@.len() {
                    assert(b.attributes@[k] == self.attributes@[k]);
                }
            }
        }
        Ok(b)
    }

    /// Records the index list.  Every index must fall inside
    /// `[0, num_vertices)`; otherwise the error names the offending (largest)
    /// index and the largest index that would have been valid.
    pub fn indexes(self, indexes: &[u32]) -> (r: Result<Self, Error>)
        requires
            self.attrs_wf(),
        ensures
            match r {
                Ok(b) => {
                    &&& forall|k: int|
                        0 <= k < indexes@.len() ==> (#[trigger] indexes@[k]) < self.num_vertices
                    &&& b.num_vertices == self.num_vertices
                    &&& b.attributes@ == self.attributes@
                    &&& b.indexes matches Some(idxs) && idxs@ == indexes@
                    &&& b.usage == self.usage
                    &&& b.primitive == self.primitive
                    &&& b.attrs_wf()
                    &&& b.indexes_wf()
                },
                Err(e) => {
                    &&& max_index(indexes@) as int >= self.num_vertices
                    &&& e == (Error::InvalidIndex {
                        index: max_index(indexes@),
                        num_vertices: (self.num_vertices - 1) as i32,
                    })
                },
            },
    {
        let n = indexes.len();
        let mut m: u32 = 0;
        let mut i: usize = 0;
        while i < n
            invariant
                i <= n,
                n == indexes@.len(),
                m == max_index(indexes@.take(i as int)),
            decreases n - i,
        {
            proof {
                assert(indexes@.take(i as int + 1).drop_last() =~= indexes@.take(i as int));
                assert(indexes@.take(i as int + 1).last() == indexes@[i as int]);
            }
            let value = indexes[i];
            if value > m {
                m = value;
            }
            i = i + 1;
        }
        proof {
            assert(indexes@.take(n as int) =~= indexes@);
        }
        let bound: u32 = (self.num_vertices - 1) as u32;
        if m > bound {
            return Err(Error::InvalidIndex { index: m, num_vertices: self.num_vertices - 1 });
        }
        let b = VertexObjectBuilder {
            num_vertices: self.num_vertices,
            attributes: self.attributes,
            indexes: Some(copy_u32_slice(indexes)),
            usage: self.usage,
            primitive: self.primitive,
            state: PhantomData,
        };
        proof {
            lemma_max_index_bounds(indexes@);
        }
        Ok(b)
    }

    /// The byte stride of one interleaved vertex: four bytes for each
    /// component of each attribute.
    pub fn stride(&self) -> (r: i32)
        requires
            self.attrs_wf(),
        ensures
            r as int == 4 * total_components(self.attributes@),
    {
        let total = self.total_component_count();
        4 * total
    }

    /// The byte offset of each attribute inside one interleaved vertex:
    /// four bytes for each component of the attributes before it.
    pub fn attribute_offsets(&self) -> (r: Vec<i32>)
        requires
            self.attrs_wf(),
        ensures
            r@.len() == self.attributes@.len(),
            forall|k: int|
                0 <= k < r@.len() ==> (#[trigger] r@[k]) as int == 4 * total_components(
                    self.attributes@.take(k),
                ),
    {
        let n = self.attributes.len();
        let mut offsets: Vec<i32> = Vec::new();
        let mut total: i32 = 0;
        let mut i: usize = 0;
        while i < n
            invariant
                i <= n,
                n == self.attributes@.len(),
                self.attrs_wf(),
                total as int == total_components(self.attributes@.take(i as int)),
                0 <= total <= MAX_TOTAL_COMPONENTS,
                offsets@.len() == i,
                forall|k: int|
                    0 <= k < i ==> (#[trigger] offsets@[k]) as int == 4 * total_components(
                        self.attributes@.take(k),
                    ),
            decreases n - i,
        {
            offsets.push(4 * total);
            proof {
                assert(self.attributes@.take(i as int + 1).drop_last() =~= self.attributes@.take(
                    i as int,
                ));
                assert(self.attributes@.take(i as int + 1).last() == self.attributes@[i as int]);
                lemma_total_components_prefix(self.attributes@, i as int + 1);
            }
            total = total + self.attributes[i].component_size;
            i = i + 1;
        }
        offsets
    }

    /// Interleaves the attribute data into one buffer: vertex by vertex,
    /// each vertex's values in attribute-registration order.
    pub fn interleaved_buffer(&self) -> (r: Vec<u32>)
        requires
            self.attrs_wf(),
        ensures
            r@ == interleaved(self.attributes@, self.num_vertices as int),
    {
        let mut buffer: Vec<u32> = Vec::new();
        let nv: usize = self.num_vertices as usize;
        let n_attrs = self.attributes.len();
        let mut v: usize = 0;
        while v < nv
            invariant
                v <= nv,
                nv as int == self.num_vertices as int,
                n_attrs == self.attributes@.len(),
                self.attrs_wf(),
                buffer@ == interleaved(self.attributes@, v as int),
            decreases nv - v,
        {
            let mut a: usize = 0;
            while a < n_attrs
                invariant
                    a <= n_attrs,
                    v < nv,
                    nv as int == self.num_vertices as int,
                    n_attrs == self.attributes@.len(),
                    self.attrs_wf(),
                    buffer@ == interleaved(self.attributes@, v as int) + interleaved_chunk(
                        self.attributes@.take(a as int),
                        v as int,
                    ),
                decreases n_attrs - a,
            {
                let comp: usize = self.attributes[a].component_size as usize;
                let dlen: usize = self.attributes[a].data.len();
                proof {
                    assert(self.attributes@[a as int].component_size >= 1);
                    assert(dlen as int == (self.num_vertices as int) * (
                    self.attributes@[a as int].component_size as int));
                    assert((v + 1) * comp <= nv * comp) by (nonlinear_arith)
                        requires
                            v < nv,
                            comp >= 0,
                    ;
                    assert(nv * comp == dlen);
                    assert(v * comp + comp == (v + 1) * comp) by (nonlinear_arith);
                    assert(v * comp + comp <= dlen);
                }
                let base: usize = v * comp;
                let mut c: usize = 0;
                while c < comp
                    invariant
                        c <= comp,
                        v < nv,
                        a < n_attrs,
                        nv as int == self.num_vertices as int,
                        n_attrs == self.attributes@.len(),
                        self.attrs_wf(),
                        comp as int == self.attributes@[a as int].component_size as int,
                        base == v * comp,
                        dlen as nat == self.attributes@[a as int].data@.len(),
                        base + comp <= dlen,
                        buffer@ == interleaved(self.attributes@, v as int) + interleaved_chunk(
                            self.attributes@.take(a as int),
                            v as int,
                        ) + self.attributes@[a as int].data@.subrange(
                            base as int,
                            base as int + c as int,
                        ),
                    decreases comp - c,
                {
                    let value = self.attributes[a].data[base + c];
                    buffer.push(value);
                    proof {
                        assert(self.attributes@[a as int].data@.subrange(
                            base as int,
                            base as int + c as int + 1,
                        ) =~= self.attributes@[a as int].data@.subrange(
                            base as int,
                            base as int + c as int,
                        ).push(value));
                        assert(buffer@ =~= interleaved(self.attributes@, v as int)
                            + interleaved_chunk(self.attributes@.take(a as int), v as int)
                            + self.attributes@[a as int].data@.subrange(
                            base as int,
                            base as int + c as int + 1,
                        ));
                    }
                    c = c + 1;
                }
                proof {
                    assert(self.attributes@.take(a as int + 1).drop_last() =~= self.attributes@.take(
                        a as int,
                    ));
                    assert(self.attributes@.take(a as int + 1).last() == self.attributes@[
                        a as int
                    ]);
                    assert(attr_slice(self.attributes@[a as int], v as int)
                        == self.attributes@[a as int].data@.subrange(
                        base as int,
                        base as int + comp as int,
                    )) by {
                        assert(base as int == (v as int) * (
                        self.attributes@[a as int].component_size as int)) by (nonlinear_arith)
                            requires
                                base == v * comp,
                                comp as int == self.attributes@[a as int].component_size as int,
                        ;
                    }
                    assert(buffer@ =~= interleaved(self.attributes@, v as int)
                        + interleaved_chunk(self.attributes@.take(a as int + 1), v as int));
                }
                a = a + 1;
            }
            proof {
                assert(self.attributes@.take(n_attrs as int) =~= self.attributes@);
                assert(buffer@ =~= interleaved(self.attributes@, v as int + 1));
            }
            v = v + 1;
        }
        buffer
    }

    /// Finishes the builder into a vertex object, adopting the native ids
    /// the shell allocated for the uploaded buffers.  An element-buffer id
    /// is handed in exactly when an index list was recorded.
    pub fn into_vertex_object(
        self,
        vertex_array_object: u32,
        vertex_buffer_object: u32,
        index_buffer_id: Option<u32>,
    ) -> (r: VertexObject)
        requires
            (self.indexes is Some) <==> (index_buffer_id is Some),
        ensures
            r.vertex_array_object == vertex_array_object,
            r.vertex_buffer_object == vertex_buffer_object,
            r.attributes@ == self.attributes@,
            r.num_vertices == self.num_vertices,
            r.primitive == self.primitive,
            r.usage == self.usage,
            match (self.indexes, index_buffer_id) {
                (Some(idxs), Some(id)) => r.index_buffer_object == Some(
                    IndexObject { gl_object_id: id, indexes: idxs },
                ),
                (None, None) => r.index_buffer_object is None,
                _ => false,
            },
    {
        let index_buffer_object = match (self.indexes, index_buffer_id) {
            (Some(indexes), Some(gl_object_id)) => Some(IndexObject { gl_object_id, indexes }),
            _ => None,
        };
        VertexObject {
            vertex_array_object,
            vertex_buffer_object,
            index_buffer_object,
            attributes: self.attributes,
            num_vertices: self.num_vertices,
            primitive: self.primitive,
            usage: self.usage,
        }
    }

    /// Whether an index list was recorded.
    pub fn has_indexes(&self) -> (r: bool)
        ensures
            r == (self.indexes is Some),
    {
        self.indexes.is_some()
    }
}

} // verus!
