//! The stores in which the renderer keeps its resources. A resource is found
//! again by its index, which its handle holds.
use vstd::prelude::*;

verus! {

/// Where an item placed at `index` lands: at `index` when a resource already
/// stands there, otherwise at the end.
pub open spec fn placed_index<T>(s: Seq<T>, index: int) -> int {
    if index < s.len() {
        index
    } else {
        s.len() as int
    }
}

/// The items after `item` is placed at `index`: it replaces the resource at
/// `index` when there is one, and is appended otherwise.
pub open spec fn spec_place<T>(s: Seq<T>, index: int, item: T) -> Seq<T> {
    if index < s.len() {
        s.update(index, item)
    } else {
        s.push(item)
    }
}

/// A growable store of resources, each found again by its index.
pub struct ResourceStore<T> {
    items: Vec<T>,
}

impl<T> View for ResourceStore<T> {
    type V = Seq<T>;

    closed spec fn view(&self) -> Seq<T> {
        self.items@
    }
}

impl<T> ResourceStore<T> {
    /// An empty store.
    pub fn new() -> (s: ResourceStore<T>)
        ensures
            s@ == Seq::<T>::empty(),
    {
        ResourceStore { items: Vec::new() }
    }

    /// The number of resources held.
    pub fn len(&self) -> (n: usize)
        ensures
            n == self@.len(),
    {
        self.items.len()
    }

    /// Places `item` at `index`: it replaces the resource there, or, when the
    /// index is not taken yet, is appended at the end.
    pub fn place(&mut self, index: usize, item: T)
        ensures
            final(self)@ == spec_place(old(self)@, index as int, item),
    {
        if index >= self.items.len() {
            self.items.push(item);
        } else {
            self.items.set(index, item);
        }
    }

    /// Where an item placed at `index` lands.
    pub fn landing_index(&self, index: usize) -> (i: usize)
        ensures
            i == placed_index(self@, index as int),
    {
        if index < self.items.len() {
            index
        } else {
            self.items.len()
        }
    }

    /// Appends `item` and returns its index.
    pub fn add(&mut self, item: T) -> (index: usize)
        requires
            old(self)@.len() < usize::MAX,
        ensures
            index == old(self)@.len(),
            final(self)@ == old(self)@.push(item),
    {
        self.items.push(item);
        self.items.len() - 1
    }

    /// The resource at `index`, if there is one.
    pub fn get(&self, index: usize) -> (r: Option<&T>)
        ensures
            index < self@.len() ==> r == Some(&self@[index as int]),
            index >= self@.len() ==> r is None,
    {
        if index < self.items.len() {
            Some(&self.items[index])
        } else {
            None
        }
    }
}

/// Shaders kept with the descriptors they were built from, so that they can
/// be built again. Placing a shader at an index that is taken replaces the
/// shader and keeps the descriptor it was first built from.
pub struct ShaderStore<P, D> {
    entries: Vec<(P, D)>,
}

impl<P, D> ShaderStore<P, D> {
    /// The shaders held, in index order.
    pub closed spec fn shaders(self) -> Seq<P> {
        self.entries@.map_values(|e: (P, D)| e.0)
    }

    /// The descriptors held, in index order.
    pub closed spec fn descriptors(self) -> Seq<D> {
        self.entries@.map_values(|e: (P, D)| e.1)
    }

    /// An empty store.
    pub fn new() -> (s: ShaderStore<P, D>)
        ensures
            s.shaders() == Seq::<P>::empty(),
            s.descriptors() == Seq::<D>::empty(),
    {
        let s = ShaderStore { entries: Vec::new() };
        assert(s.shaders() =~= Seq::<P>::empty());
        assert(s.descriptors() =~= Seq::<D>::empty());
        s
    }

    /// The number of shaders held, which is also the number of descriptors.
    pub fn len(&self) -> (n: usize)
        ensures
            n == self.shaders().len(),
            n == self.descriptors().len(),
    {
        self.entries.len()
    }

    /// Places `shader`, built from `descriptor`, at `index`. At a taken index
    /// the shader is replaced and the stored descriptor kept; otherwise both
    /// are appended.
    pub fn place(&mut self, index: usize, shader: P, descriptor: D)
        ensures
            final(self).shaders() == spec_place(old(self).shaders(), index as int, shader),
            index < old(self).shaders().len() ==> final(self).descriptors() == old(
                self,
            ).descriptors(),
            index >= old(self).shaders().len() ==> final(self).descriptors() == old(
                self,
            ).descriptors().push(descriptor),
    {
        let ghost old_entries = self.entries@;
        if index >= self.entries.len() {
            self.entries.push((shader, descriptor));
            assert(self.shaders() =~= old(self).shaders().push(shader));
            assert(self.descriptors() =~= old(self).descriptors().push(descriptor));
        } else {
            let (_, kept) = self.entries.remove(index);
            self.entries.insert(index, (shader, kept));
            assert(self.entries@ =~= old_entries.update(index as int, (shader, kept)));
            assert(self.shaders() =~= old(self).shaders().update(index as int, shader));
            assert(self.descriptors() =~= old(self).descriptors());
        }
    }

    /// Where a shader placed at `index` lands.
    pub fn landing_index(&self, index: usize) -> (i: usize)
        ensures
            i == placed_index(self.shaders(), index as int),
    {
        if index < self.entries.len() {
            index
        } else {
            self.entries.len()
        }
    }

    /// The shader at `index`, if there is one.
    pub fn shader(&self, index: usize) -> (r: Option<&P>)
        ensures
            index < self.shaders().len() ==> r == Some(&self.shaders()[index as int]),
            index >= self.shaders().len() ==> r is None,
    {
        if index < self.entries.len() {
            Some(&self.entries[index].0)
        } else {
            None
        }
    }

    /// The descriptor the shader at `index` was built from, if there is one.
    pub fn descriptor(&self, index: usize) -> (r: Option<&D>)
        ensures
            index < self.descriptors().len() ==> r == Some(&self.descriptors()[index as int]),
            index >= self.descriptors().len() ==> r is None,
    {
        if index < self.entries.len() {
            Some(&self.entries[index].1)
        } else {
            None
        }
    }
}

/// Placing an item and then looking it up: the item is found where it
/// landed, every other resource is where it was, and the store grows by one
/// exactly when the index was not taken.
pub proof fn lemma_place_then_lookup<T>(s: Seq<T>, index: int, item: T)
    requires
        0 <= index,
    ensures
        spec_place(s, index, item)[placed_index(s, index)] == item,
        spec_place(s, index, item).len() == if index < s.len() {
            s.len()
        } else {
            s.len() + 1
        },
        forall|j: int|
            0 <= j < s.len() && j != placed_index(s, index) ==> #[trigger] spec_place(
                s,
                index,
                item,
            )[j] == s[j],
{
}

} // verus!
