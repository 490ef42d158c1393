//! A forward-only object pool: a fixed budget of bytes from which objects
//! are handed out one behind the other, each recorded by a header with its
//! type and size, and all given back at once.

use vstd::prelude::*;

verus! {

/// The bytes that a header takes at the start of every pooled object.
pub const HEADER_BYTES: usize = 4;

/// The largest size that a header can record.
pub const MAX_OBJECT_BYTES: usize = 0xffff;

/// The header of a pooled object: its type and its size in bytes.
#[derive(Copy, Clone, Debug, Default, PartialEq, Eq)]
pub struct PoolObjectBase {
    type_: u16,
    size: u16,
}

impl PoolObjectBase {
    /// The recorded type.
    pub closed spec fn tag(&self) -> nat {
        self.type_ as nat
    }

    /// The recorded size in bytes.
    pub closed spec fn bytes(&self) -> nat {
        self.size as nat
    }

    /// Two headers with the same type and size are the same header.
    pub proof fn lemma_header_is_its_fields(a: PoolObjectBase, b: PoolObjectBase)
        requires
            a.tag() == b.tag(),
            a.bytes() == b.bytes(),
        ensures
            a == b,
    {
    }
}

/// What can be asked of a pooled object.
pub trait PoolObject {
    /// The header of the object.
    spec fn header(&self) -> PoolObjectBase;

    /// The header.
    fn pool_object_base(&self) -> (r: &PoolObjectBase)
        ensures
            *r == self.header(),
    ;

    /// The header, to be changed in place.
    fn pool_object_base_mut(&mut self) -> (r: &mut PoolObjectBase)
        ensures
            *r == old(self).header(),
            final(self).header() == *final(r),
    ;

    /// The recorded type.
    fn pool_object_type(&self) -> (r: usize)
        ensures
            r == self.header().tag(),
    ;

    /// Records the low 16 bits of `type_` as the type.
    fn set_pool_object_type(&mut self, type_: usize)
        ensures
            final(self).header().tag() == type_ % 0x10000,
            final(self).header().bytes() == old(self).header().bytes(),
    ;

    /// The recorded size in bytes.
    fn pool_object_size(&self) -> (r: usize)
        ensures
            r == self.header().bytes(),
    ;

    /// Records the low 16 bits of `size` as the size.
    fn set_pool_object_size(&mut self, size: usize)
        ensures
            final(self).header().bytes() == size % 0x10000,
            final(self).header().tag() == old(self).header().tag(),
    ;
}

/// The low 16 bits of `x`.
fn low_16(x: usize) -> (r: u16)
    ensures
        r == x % 0x10000,
{
    (x % 0x10000) as u16
}

impl PoolObject for PoolObjectBase {
    open spec fn header(&self) -> PoolObjectBase {
        *self
    }

    fn pool_object_base(&self) -> (r: &PoolObjectBase) {
        self
    }

    fn pool_object_base_mut(&mut self) -> (r: &mut PoolObjectBase) {
        self
    }

    fn pool_object_type(&self) -> (r: usize) {
        self.type_ as usize
    }

    fn set_pool_object_type(&mut self, type_: usize) {
        self.type_ = low_16(type_);
    }

    fn pool_object_size(&self) -> (r: usize) {
        self.size as usize
    }

    fn set_pool_object_size(&mut self, size: usize) {
        self.size = low_16(size);
    }
}

/// The type number of a kind of pooled object.
pub trait PoolObjectTypeId {
    /// The type number; zero where a kind gives none.
    fn pool_object_type_id(&self) -> usize {
        0
    }
}

/// The bytes that the objects take together.
pub open spec fn total_bytes(objects: Seq<PoolObjectBase>) -> nat
    decreases objects.len(),
{
    if objects.len() == 0 {
        0
    } else {
        total_bytes(objects.drop_last()) + objects.last().bytes()
    }
}

/// The bytes of the first `i + 1` objects are those of the first `i` and
/// those of object `i`.
pub proof fn lemma_total_bytes_step(objects: Seq<PoolObjectBase>, i: int)
    requires
        0 <= i < objects.len(),
    ensures
        total_bytes(objects.take(i + 1)) == total_bytes(objects.take(i)) + objects[i].bytes(),
{
    assert(objects.take(i + 1).drop_last() =~= objects.take(i));
}

/// The bytes of a front part of the objects are at most those of all, and
/// fewer where an object with bytes is left out.
pub proof fn lemma_total_bytes_grows(objects: Seq<PoolObjectBase>, i: int)
    requires
        0 <= i <= objects.len(),
    ensures
        total_bytes(objects.take(i)) <= total_bytes(objects),
        i < objects.len() && objects[i].bytes() > 0 ==> total_bytes(objects.take(i)) < total_bytes(
            objects,
        ),
    decreases objects.len() - i,
{
    if i < objects.len() {
        lemma_total_bytes_step(objects, i);
        lemma_total_bytes_grows(objects, i + 1);
    } else {
        assert(objects.take(i) =~= objects);
    }
}

/// A pool as plain values.
pub struct PoolView {
    /// The budget in bytes.
    pub capacity: nat,
    /// The bytes handed out.
    pub used: nat,
    /// The headers of the objects handed out, oldest first.
    pub objects: Seq<PoolObjectBase>,
}

impl PoolView {
    /// The bytes handed out are those of the recorded objects and within
    /// the budget, and every object has room for its header.
    pub open spec fn well_formed(self) -> bool {
        &&& self.used <= self.capacity
        &&& self.used == total_bytes(self.objects)
        &&& forall|k: int|
            0 <= k < self.objects.len() ==> (#[trigger] self.objects[k]).bytes() >= HEADER_BYTES
    }
}

/// A pool that hands out objects one behind the other.
#[derive(Debug)]
pub struct ForwardPool {
    capacity: usize,
    offset: usize,
    objects: Vec<PoolObjectBase>,
}

impl View for ForwardPool {
    type V = PoolView;

    closed spec fn view(&self) -> PoolView {
        PoolView {
            capacity: self.capacity as nat,
            used: self.offset as nat,
            objects: self.objects@,
        }
    }
}

impl ForwardPool {
    /// An empty pool with a budget of `capacity` bytes.
    pub fn with_capacity(capacity: usize) -> (r: Self)
        ensures
            r@ == (PoolView {
                capacity: capacity as nat,
                used: 0,
                objects: Seq::<PoolObjectBase>::empty(),
            }),
            r@.well_formed(),
    {
        ForwardPool { capacity, offset: 0, objects: Vec::new() }
    }

    /// The bytes that are left.
    pub fn space(&self) -> (r: usize)
        requires
            self@.used <= self@.capacity,
        ensures
            r == self@.capacity - self@.used,
    {
        self.capacity - self.offset
    }

    /// The bytes handed out.
    pub fn used(&self) -> (r: usize)
        ensures
            r == self@.used,
    {
        self.offset
    }

    /// Hands out `size` bytes for an object of type `type_id`, and returns
    /// its header, in which type and size are recorded. `None` where fewer
    /// than `size` bytes are left; the pool is then unchanged.
    ///
    /// An object has room for its header and a size that the header can
    /// record.
    pub fn allocate(&mut self, type_id: usize, size: usize) -> (r: Option<&mut PoolObjectBase>)
        requires
            old(self)@.used <= old(self)@.capacity,
            HEADER_BYTES <= size <= MAX_OBJECT_BYTES,
        ensures
            r is Some <==> size <= old(self)@.capacity - old(self)@.used,
            r matches Some(h) ==> h.tag() == type_id % 0x10000 && h.bytes() == size && final(self)@
                == (PoolView {
                capacity: old(self)@.capacity,
                used: old(self)@.used + size as nat,
                objects: old(self)@.objects.push(*final(h)),
            }),
            r is None ==> final(self)@ == old(self)@,
    {
        if self.capacity - self.offset < size {
            None
        } else {
            let mut header = PoolObjectBase { type_: 0, size: 0 };
            header.set_pool_object_type(type_id);
            header.set_pool_object_size(size);
            self.offset = self.offset + size;
            self.objects.push(header);
            let last = self.objects.len() - 1;
            let ghost before = self.objects@;
            let h = &mut self.objects[last];
            proof {
                assert(before.update(last as int, *final(h)) =~= old(self)@.objects.push(
                    *final(h),
                ));
            }
            Some(h)
        }
    }

    /// Gives all objects back: the whole budget is free again.
    pub fn clear(&mut self)
        ensures
            final(self)@ == (PoolView {
                capacity: old(self)@.capacity,
                used: 0,
                objects: Seq::<PoolObjectBase>::empty(),
            }),
            final(self)@.well_formed(),
    {
        self.offset = 0;
        self.objects.clear();
    }

    /// A walk over the headers of the objects, oldest first.
    pub fn iter(&self) -> (r: ForwardPoolIter<'_>)
        ensures
            r.pool_view() == self@,
            r.position() == 0,
            self@.well_formed() ==> r.well_formed(),
    {
        ForwardPoolIter::new(self)
    }

    /// A walk over the headers of the objects, oldest first, that lets
    /// each be changed.
    pub fn iter_mut(&mut self) -> (r: ForwardPoolIterMut<'_>)
        ensures
            r.pool_view() == old(self)@,
            r.position() == 0,
            old(self)@.well_formed() ==> r.well_formed(),
    {
        ForwardPoolIterMut::new(self)
    }
}

/// A walk over a pool. It keeps the byte offset of the next object and
/// moves on by the size that each header records.
#[derive(Debug)]
pub struct ForwardPoolIter<'pool> {
    pool: &'pool ForwardPool,
    cursor: usize,
    index: usize,
}

impl<'pool> ForwardPoolIter<'pool> {
    /// The pool that is walked.
    pub closed spec fn pool_view(&self) -> PoolView {
        self.pool@
    }

    /// How many objects the walk has passed.
    pub closed spec fn position(&self) -> nat {
        self.index as nat
    }

    /// The pool is well formed, and the walk stands at the start of an
    /// object or at the end.
    pub closed spec fn well_formed(&self) -> bool {
        &&& self.pool@.well_formed()
        &&& self.index <= self.pool@.objects.len()
        &&& self.cursor == total_bytes(self.pool@.objects.take(self.index as int))
    }

    /// A walk that starts at the oldest object of `pool`.
    pub fn new(pool: &'pool ForwardPool) -> (r: Self)
        ensures
            r.pool_view() == pool@,
            r.position() == 0,
            pool@.well_formed() ==> r.well_formed(),
    {
        assert(pool@.objects.take(0) =~= Seq::<PoolObjectBase>::empty());
        ForwardPoolIter { pool, cursor: 0, index: 0 }
    }

    /// The header of the next object, if one is left, and moves behind it.
    pub fn next(&mut self) -> (r: Option<&'pool PoolObjectBase>)
        requires
            old(self).well_formed(),
        ensures
            final(self).well_formed(),
            final(self).pool_view() == old(self).pool_view(),
            match r {
                Some(h) => {
                    &&& old(self).position() < old(self).pool_view().objects.len()
                    &&& *h == old(self).pool_view().objects[old(self).position() as int]
                    &&& final(self).position() == old(self).position() + 1
                },
                None => {
                    &&& old(self).position() == old(self).pool_view().objects.len()
                    &&& final(self).position() == old(self).position()
                },
            },
    {
        proof {
            lemma_total_bytes_grows(self.pool@.objects, self.index as int);
        }
        if self.cursor >= self.pool.used() {
            None
        } else {
            proof {
                if self.index == self.pool@.objects.len() {
                    assert(self.pool@.objects.take(self.index as int) =~= self.pool@.objects);
                }
                lemma_total_bytes_step(self.pool@.objects, self.index as int);
                lemma_total_bytes_grows(self.pool@.objects, self.index as int + 1);
            }
            let count = self.pool.objects.len();
            assert(self.index < count);
            let base = &self.pool.objects[self.index];
            self.cursor = self.cursor + base.pool_object_size();
            self.index = self.index + 1;
            Some(base)
        }
    }
}

/// A walk over a pool that lets each header be changed. It keeps the byte
/// offset of the next object and moves on by the size that each header
/// records when it is reached.
#[derive(Debug)]
pub struct ForwardPoolIterMut<'pool> {
    pool: &'pool mut ForwardPool,
    cursor: usize,
    index: usize,
}

impl<'pool> ForwardPoolIterMut<'pool> {
    /// The pool that is walked.
    pub closed spec fn pool_view(&self) -> PoolView {
        self.pool@
    }

    /// How many objects the walk has passed.
    pub closed spec fn position(&self) -> nat {
        self.index as nat
    }

    /// The pool is well formed, and the walk stands at the start of an
    /// object or at the end.
    pub closed spec fn well_formed(&self) -> bool {
        &&& self.pool@.well_formed()
        &&& self.index <= self.pool@.objects.len()
        &&& self.cursor == total_bytes(self.pool@.objects.take(self.index as int))
    }

    /// A walk that starts at the oldest object of `pool`.
    pub fn new(pool: &'pool mut ForwardPool) -> (r: Self)
        ensures
            r.pool_view() == old(pool)@,
            r.position() == 0,
            old(pool)@.well_formed() ==> r.well_formed(),
    {
        assert(pool@.objects.take(0) =~= Seq::<PoolObjectBase>::empty());
        ForwardPoolIterMut { pool, cursor: 0, index: 0 }
    }

    /// The header of the next object, to be changed in place, if one is
    /// left, and moves behind it. The walk stays well formed as long as
    /// the size in the header is left as it is.
    pub fn next(&mut self) -> (r: Option<&mut PoolObjectBase>)
        requires
            old(self).well_formed(),
        ensures
            match r {
                Some(h) => {
                    &&& old(self).position() < old(self).pool_view().objects.len()
                    &&& *h == old(self).pool_view().objects[old(self).position() as int]
                    &&& final(self).position() == old(self).position() + 1
                    &&& final(self).pool_view() == (PoolView {
                        objects: old(self).pool_view().objects.update(
                            old(self).position() as int,
                            *final(h),
                        ),
                        ..old(self).pool_view()
                    })
                    &&& final(h).bytes() == h.bytes() ==> final(self).well_formed()
                },
                None => {
                    &&& old(self).position() == old(self).pool_view().objects.len()
                    &&& final(self).position() == old(self).position()
                    &&& final(self).pool_view() == old(self).pool_view()
                    &&& final(self).well_formed()
                },
            },
    {
        proof {
            lemma_total_bytes_grows(self.pool@.objects, self.index as int);
        }
        if self.cursor >= self.pool.used() {
            None
        } else {
            proof {
                if self.index == self.pool@.objects.len() {
                    assert(self.pool@.objects.take(self.index as int) =~= self.pool@.objects);
                }
                lemma_total_bytes_step(self.pool@.objects, self.index as int);
                lemma_total_bytes_grows(self.pool@.objects, self.index as int + 1);
            }
            let count = self.pool.objects.len();
            assert(self.index < count);
            let at = self.index;
            let size = self.pool.objects[at].pool_object_size();
            self.cursor = self.cursor + size;
            self.index = at + 1;
            let h = &mut self.pool.objects[at];
            proof {
                lemma_header_of_same_size(old(self).pool_view().objects, at as int);
            }
            Some(h)
        }
    }
}

/// Replacing a header by one of the same size changes neither the bytes
/// that the objects take together nor those up to and with that object.
pub proof fn lemma_header_of_same_size(objects: Seq<PoolObjectBase>, at: int)
    requires
        0 <= at < objects.len(),
    ensures
        forall|h: PoolObjectBase|
            h.bytes() == objects[at].bytes() ==> total_bytes(#[trigger] objects.update(at, h))
                == total_bytes(objects) && total_bytes(objects.update(at, h).take(at + 1))
                == total_bytes(objects.take(at + 1)),
{
    assert forall|h: PoolObjectBase| h.bytes() == objects[at].bytes() implies total_bytes(
        #[trigger] objects.update(at, h),
    ) == total_bytes(objects) && total_bytes(objects.update(at, h).take(at + 1)) == total_bytes(
        objects.take(at + 1),
    ) by {
        let after = objects.update(at, h);
        lemma_same_sizes_same_bytes(objects, after, objects.len() as int);
        lemma_same_sizes_same_bytes(objects, after, at + 1);
    }
}

/// Two lists of headers that agree in every size take the same bytes, in
/// every front part.
pub proof fn lemma_same_sizes_same_bytes(a: Seq<PoolObjectBase>, b: Seq<PoolObjectBase>, i: int)
    requires
        a.len() == b.len(),
        0 <= i <= a.len(),
        forall|k: int| 0 <= k < a.len() ==> (#[trigger] a[k]).bytes() == b[k].bytes(),
    ensures
        total_bytes(a.take(i)) == total_bytes(b.take(i)),
        i == a.len() ==> total_bytes(a) == total_bytes(b),
    decreases i,
{
    if i > 0 {
        lemma_same_sizes_same_bytes(a, b, i - 1);
        lemma_total_bytes_step(a, i - 1);
        lemma_total_bytes_step(b, i - 1);
    } else {
        assert(a.take(0) =~= Seq::<PoolObjectBase>::empty());
        assert(b.take(0) =~= Seq::<PoolObjectBase>::empty());
    }
    if i == a.len() {
        assert(a.take(i) =~= a);
        assert(b.take(i) =~= b);
    }
}

} // verus!
