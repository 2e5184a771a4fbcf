use vstd::prelude::*;
use vstd::layout::size_of;

verus! {

/// Name of a GL buffer object (`glow::Buffer` on native targets is the
/// `GLuint` that `glGenBuffers` hands out).
pub type GlBuffer = u32;

/// A host-side copy of a shader storage buffer: its GL name, its size in
/// bytes, its element count and its elements.
pub struct StructuredBuffer<T> where T: Default + Clone {
    phantom: core::marker::PhantomData<T>,
    id: GlBuffer,
    buffer_size: usize,
    elements: usize,
    data: Vec<T>,
}

impl<T> StructuredBuffer<T> where T: Default + Clone {
    /// The byte size covers every element, and the element count is the
    /// number of elements held.
    #[verifier::type_invariant]
    spec fn well_formed(self) -> bool {
        &&& self.elements == self.data.len()
        &&& self.buffer_size == size_of::<T>() * self.elements
    }

    pub closed spec fn spec_id(self) -> GlBuffer {
        self.id
    }

    pub closed spec fn spec_buffer_size(self) -> nat {
        self.buffer_size as nat
    }

    pub closed spec fn spec_elements(self) -> nat {
        self.elements as nat
    }

    pub closed spec fn spec_data(self) -> Seq<T> {
        self.data@
    }

    /// A buffer named `id` holding `elements` copies of `value`; its byte
    /// size is `size_of::<T>() * elements`.
    pub fn filled(id: GlBuffer, elements: usize, value: T) -> (sb: Self)
        requires
            size_of::<T>() * elements <= usize::MAX,
        ensures
            sb.spec_id() == id,
            sb.spec_elements() == elements,
            sb.spec_buffer_size() == size_of::<T>() * elements,
            sb.spec_data().len() == elements,
            forall|i: int| 0 <= i < elements ==> cloned(value, #[trigger] sb.spec_data()[i]),
    {
        let buffer_size = core::mem::size_of::<T>() * elements;
        let data = vec![value; elements];
        StructuredBuffer { phantom: core::marker::PhantomData, id, buffer_size, elements, data }
    }

    /// The GL name of the buffer.
    pub fn id(&self) -> (r: GlBuffer)
        ensures
            r == self.spec_id(),
    {
        self.id
    }

    /// The size of the buffer in bytes.
    pub fn buffer_size(&self) -> (r: usize)
        ensures
            r == self.spec_buffer_size(),
            r == size_of::<T>() * self.spec_elements(),
    {
        proof {
            use_type_invariant(self);
        }
        self.buffer_size
    }

    /// The number of elements.
    pub fn elements(&self) -> (r: usize)
        ensures
            r == self.spec_elements(),
            r == self.spec_data().len(),
    {
        proof {
            use_type_invariant(self);
        }
        self.elements
    }

    /// The elements, in order.
    pub fn data(&self) -> (r: &[T])
        ensures
            r@ == self.spec_data(),
    {
        self.data.as_slice()
    }
}

} // verus!
