use vstd::prelude::*;

verus! {

/// One drawable item: where its vertices, indices and uniform data live.
///
/// Buffers are named by handles that the owner of the GPU memory hands out.
#[derive(Clone, Copy, Debug, PartialEq, Eq, Structural)]
pub struct SceneItem {
    pub vertex_buffer: u64,
    pub index_buffer: u64,
    pub index_count: u32,
    pub uniform_buffer: u64,
}

/// Contains all objects to be rendered, in insertion order.
pub struct Scene {
    m_objects: Vec<SceneItem>,
}

impl View for Scene {
    type V = Seq<SceneItem>;

    closed spec fn view(&self) -> Seq<SceneItem> {
        self.m_objects@
    }
}

impl Scene {
    /// An empty scene.
    pub fn new() -> (r: Scene)
        ensures
            r@ == Seq::<SceneItem>::empty(),
    {
        Scene { m_objects: Vec::new() }
    }

    /// A scene holding `items` in the given order.
    pub fn from_items(items: Vec<SceneItem>) -> (r: Scene)
        ensures
            r@ == items@,
    {
        Scene { m_objects: items }
    }

    /// Appends an item after all the others.
    pub fn push(&mut self, item: SceneItem)
        ensures
            final(self)@ == old(self)@.push(item),
    {
        self.m_objects.push(item);
    }

    /// The number of items.
    pub fn len(&self) -> (r: usize)
        ensures
            r == self@.len(),
    {
        self.m_objects.len()
    }

    /// The items, in insertion order.
    pub fn items(&self) -> (r: &[SceneItem])
        ensures
            r@ == self@,
    {
        self.m_objects.as_slice()
    }
}

} // verus!
