use vstd::prelude::*;

verus! {

/// A reference to a value held by a `HandleTable`: a slot and the generation
/// of that slot when the value was put there.
#[derive(Clone, Copy, Debug, PartialEq, Eq, Structural)]
pub struct Handle {
    pub index: usize,
    pub generation: u64,
}

/// Values handed across the boundary by handle rather than by address.
///
/// Removing a value bumps the generation of its slot, so that a handle used
/// after its value was removed finds nothing instead of another value.
/// Generations start at 1 and skip 0, so that no handle has token 0 and a
/// null token reaches nothing.
pub struct HandleTable<T> {
    slots: Vec<Option<T>>,
    generations: Vec<u64>,
}

/// The generation that follows `g`.
pub open spec fn next_generation(g: u64) -> u64 {
    if g < u64::MAX {
        (g + 1) as u64
    } else {
        1
    }
}

impl<T> HandleTable<T> {
    pub closed spec fn wf(&self) -> bool {
        &&& self.slots@.len() == self.generations@.len()
        &&& forall|i: int| 0 <= i < self.generations@.len() ==> #[trigger] self.generations@[i] != 0
    }

    /// No handle of generation 0 reaches a value.
    pub proof fn lemma_generation_zero_reaches_nothing(&self, h: Handle)
        requires
            self.wf(),
            h.generation == 0,
        ensures
            self.lookup(h).is_none(),
    {
    }

    /// The value that a handle reaches, if any.
    pub closed spec fn lookup(&self, h: Handle) -> Option<T> {
        if h.index < self.slots@.len() && self.generations@[h.index as int] == h.generation {
            self.slots@[h.index as int]
        } else {
            None
        }
    }

    /// An empty table.
    pub fn new() -> (r: HandleTable<T>)
        ensures
            r.wf(),
            forall|h: Handle| #[trigger] r.lookup(h).is_none(),
    {
        HandleTable { slots: Vec::new(), generations: Vec::new() }
    }

    /// Stores a value and returns the handle that reaches it; no other handle
    /// changes what it reaches.
    pub fn insert(&mut self, value: T) -> (h: Handle)
        requires
            old(self).wf(),
        ensures
            final(self).wf(),
            old(self).lookup(h).is_none(),
            final(self).lookup(h) == Some(value),
            h.generation != 0,
            forall|h2: Handle| h2 != h ==> #[trigger] final(self).lookup(h2) == old(self).lookup(h2),
    {
        let n = self.slots.len();
        let mut i: usize = 0;
        while i < n
            invariant
                n == self.slots@.len(),
                self.wf(),
                i <= n,
                forall|j: int| 0 <= j < i ==> (#[trigger] self.slots@[j]).is_some(),
            decreases n - i,
        {
            if self.slots[i].is_none() {
                break;
            }
            i = i + 1;
        }
        if i < n && self.slots[i].is_none() {
            let g = self.generations[i];
            self.slots.set(i, Some(value));
            Handle { index: i, generation: g }
        } else {
            self.slots.push(Some(value));
            self.generations.push(1);
            Handle { index: n, generation: 1 }
        }
    }

    /// The value that a handle reaches, if any.
    pub fn get(&self, h: Handle) -> (r: Option<&T>)
        requires
            self.wf(),
        ensures
            match r {
                Some(v) => self.lookup(h) == Some(*v),
                None => self.lookup(h).is_none(),
            },
    {
        if h.index < self.slots.len() && self.generations[h.index] == h.generation {
            self.slots[h.index].as_ref()
        } else {
            None
        }
    }

    /// Takes out the value that a handle reaches; afterwards the handle reaches
    /// nothing, and no other handle changes what it reaches.
    pub fn remove(&mut self, h: Handle) -> (r: Option<T>)
        requires
            old(self).wf(),
        ensures
            final(self).wf(),
            r == old(self).lookup(h),
            final(self).lookup(h).is_none(),
            forall|h2: Handle| h2 != h ==> #[trigger] final(self).lookup(h2) == old(self).lookup(h2),
    {
        if h.index < self.slots.len() && self.generations[h.index] == h.generation
            && self.slots[h.index].is_some() {
            let i = h.index;
            let taken = self.slots.remove(i);
            self.slots.insert(i, None);
            assert(self.slots@ =~= old(self).slots@.update(i as int, None));
            let g = self.generations[i];
            let next = if g < u64::MAX {
                g + 1
            } else {
                1
            };
            self.generations.set(i, next);
            assert forall|h2: Handle| h2 != h implies #[trigger] self.lookup(h2) == old(
                self,
            ).lookup(h2) by {
                if h2.index == i {
                    assert(self.slots@[i as int].is_none());
                }
            }
            taken
        } else {
            None
        }
    }
}

/// The bound below which a slot index and a generation fit in one half of a
/// token.
pub const TOKEN_HALF: u64 = 0x1_0000_0000;

/// The single number that stands for a handle across the boundary: the
/// generation in the upper half and the slot index in the lower half.
pub open spec fn token_of(h: Handle) -> int {
    h.generation * TOKEN_HALF + h.index
}

impl Handle {
    /// The token of this handle, where its index and generation each fit in
    /// half of it.
    pub fn token(&self) -> (r: Option<u64>)
        ensures
            r.is_some() == (self.index < TOKEN_HALF && self.generation < TOKEN_HALF),
            r.is_some() ==> r.unwrap() == token_of(*self),
    {
        if self.index as u64 >= TOKEN_HALF || self.generation >= TOKEN_HALF {
            None
        } else {
            let g = self.generation;
            let i = self.index as u64;
            assert(g * TOKEN_HALF + i <= u64::MAX) by (nonlinear_arith)
                requires
                    g < TOKEN_HALF,
                    i < TOKEN_HALF,
                    TOKEN_HALF == 0x1_0000_0000u64,
            ;
            Some(g * TOKEN_HALF + i)
        }
    }

    /// The handle that a token stands for.
    pub fn from_token(t: u64) -> (r: Handle)
        ensures
            r.index == t % TOKEN_HALF,
            r.generation == t / TOKEN_HALF,
            token_of(r) == t,
    {
        let i = t % TOKEN_HALF;
        let g = t / TOKEN_HALF;
        assert(i < 0x1_0000_0000);
        assert(g * TOKEN_HALF + i == t) by (nonlinear_arith)
            requires
                i == t % TOKEN_HALF,
                g == t / TOKEN_HALF,
                TOKEN_HALF == 0x1_0000_0000u64,
        ;
        Handle { index: i as usize, generation: g }
    }
}

/// A handle turned into a token and back is the same handle.
pub proof fn lemma_token_round_trip(h: Handle, t: u64)
    requires
        h.index < TOKEN_HALF,
        h.generation < TOKEN_HALF,
        t == token_of(h),
    ensures
        t % TOKEN_HALF == h.index,
        t / TOKEN_HALF == h.generation,
{
    let g = h.generation as int;
    let i = h.index as int;
    let b = TOKEN_HALF as int;
    assert((g * b + i) % b == i && (g * b + i) / b == g) by (nonlinear_arith)
        requires
            0 <= i < b,
            0 <= g,
            b > 0,
    {
        vstd::arithmetic::div_mod::lemma_fundamental_div_mod_converse(g * b + i, b, g, i);
    }
}

} // verus!
