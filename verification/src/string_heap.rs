//! The variable-string heap. Variable strings are owned allocations keyed
//! by a handle that fits in the payload bits of a NaN-boxed word; constant
//! strings live in the code image and never pass through here. Whatever a
//! program never releases is freed in bulk by the end-of-generation leak
//! sweep.

use vstd::prelude::*;

use crate::errors::VmError;
use crate::values::STR_PAYLOAD_MASK;

verus! {

/// The heap of variable strings of one run. Handle `h` (always nonzero)
/// refers to slot `h - 1`; handle zero is the canonical empty string,
/// which is never allocated and never freed.
pub struct StrHeap {
    entries: Vec<Option<Vec<u8>>>,
}

/// The number of live allocations in a heap view.
pub open spec fn live_entries(s: Seq<Option<Seq<u8>>>) -> nat
    decreases s.len(),
{
    if s.len() == 0 {
        0
    } else {
        live_entries(s.drop_last()) + if s.last() is Some {
            1nat
        } else {
            0nat
        }
    }
}

/// The bytes a handle refers to, if it is the canonical empty string or a
/// live allocation.
pub open spec fn spec_read(s: Seq<Option<Seq<u8>>>, h: u64) -> Option<Seq<u8>> {
    if h == 0 {
        Option::Some(Seq::empty())
    } else if 1 <= h <= s.len() {
        s[h - 1]
    } else {
        Option::None
    }
}

proof fn lemma_live_entries_take(s: Seq<Option<Seq<u8>>>, i: int)
    requires
        0 <= i < s.len(),
    ensures
        live_entries(s.take(i + 1)) == live_entries(s.take(i)) + if s[i] is Some {
            1nat
        } else {
            0nat
        },
{
    assert(s.take(i + 1).drop_last() =~= s.take(i));
    assert(s.take(i + 1).last() == s[i]);
}

proof fn lemma_live_entries_update(s: Seq<Option<Seq<u8>>>, i: int, v: Option<Seq<u8>>)
    requires
        0 <= i < s.len(),
    ensures
        s[i] is Some && v is Some ==> live_entries(s.update(i, v)) == live_entries(s),
        s[i] is Some && v is None ==> live_entries(s.update(i, v)) + 1 == live_entries(s),
        s[i] is None && v is Some ==> live_entries(s.update(i, v)) == live_entries(s) + 1,
        s[i] is None && v is None ==> live_entries(s.update(i, v)) == live_entries(s),
    decreases s.len(),
{
    let t = s.update(i, v);
    if i == s.len() - 1 {
        assert(t.drop_last() =~= s.drop_last());
    } else {
        assert(t.drop_last() =~= s.drop_last().update(i, v));
        lemma_live_entries_update(s.drop_last(), i, v);
    }
}

proof fn lemma_live_entries_push(s: Seq<Option<Seq<u8>>>, v: Option<Seq<u8>>)
    ensures
        live_entries(s.push(v)) == live_entries(s) + if v is Some {
            1nat
        } else {
            0nat
        },
{
    assert(s.push(v).drop_last() =~= s);
}

impl StrHeap {
    /// The slots of the heap: `Some` bytes for a live allocation, `None`
    /// for a released one.
    pub closed spec fn view(&self) -> Seq<Option<Seq<u8>>> {
        Seq::new(
            self.entries@.len(),
            |i: int|
                match self.entries@[i] {
                    Option::Some(v) => Option::Some(v@),
                    Option::None => Option::None,
                },
        )
    }

    /// How many allocations are currently live.
    pub open spec fn spec_live(&self) -> nat {
        live_entries(self@)
    }

    /// A fresh, empty heap.
    pub fn new() -> (r: StrHeap)
        ensures
            r@ =~= Seq::<Option<Seq<u8>>>::empty(),
    {
        StrHeap { entries: Vec::new() }
    }

    /// Allocate a new variable string holding `bytes`. The handle is one
    /// past the previous slot count and always fits the payload bits of a
    /// word; allocation fails only if the payload space is exhausted.
    pub fn allocate(&mut self, bytes: Vec<u8>) -> (r: Result<u64, VmError>)
        ensures
            r is Ok <==> old(self)@.len() < STR_PAYLOAD_MASK,
            r is Err ==> *final(self) == *old(self) && r == Result::<u64, VmError>::Err(
                VmError::HeapExhausted,
            ),
            r is Ok ==> {
                &&& r->Ok_0 == old(self)@.len() + 1
                &&& 1 <= r->Ok_0 <= STR_PAYLOAD_MASK
                &&& final(self)@ =~= old(self)@.push(Option::Some(bytes@))
                &&& final(self).spec_live() == old(self).spec_live() + 1
            },
    {
        if self.entries.len() as u64 >= STR_PAYLOAD_MASK {
            return Result::Err(VmError::HeapExhausted);
        }
        let h = self.entries.len() as u64 + 1;
        let ghost prev = self@;
        self.entries.push(Option::Some(bytes));
        proof {
            assert(self@ =~= prev.push(Option::Some(bytes@)));
            lemma_live_entries_push(prev, Option::Some(bytes@));
        }
        Result::Ok(h)
    }

    /// The bytes handle `h` refers to: empty for handle zero, the stored
    /// bytes for a live allocation, nothing for anything else.
    pub fn read(&self, h: u64) -> (r: Option<Vec<u8>>)
        ensures
            r is Some <==> spec_read(self@, h) is Some,
            r is Some ==> r->0@ == spec_read(self@, h)->0,
    {
        if h == 0 {
            return Option::Some(Vec::new());
        }
        if h <= self.entries.len() as u64 {
            match &self.entries[(h - 1) as usize] {
                Option::Some(bytes) => Option::Some(bytes.clone()),
                Option::None => Option::None,
            }
        } else {
            Option::None
        }
    }

    /// Release handle `h`. Releasing the canonical empty string, a dead
    /// handle or an unknown one is a no-op, so nothing can be freed twice;
    /// the return value says whether a live allocation was freed.
    pub fn free(&mut self, h: u64) -> (freed: bool)
        ensures
            freed <==> h >= 1 && spec_read(old(self)@, h) is Some,
            !freed ==> final(self)@ == old(self)@,
            freed ==> final(self)@ =~= old(self)@.update(h - 1, Option::None),
            freed ==> final(self).spec_live() + 1 == old(self).spec_live(),
            final(self)@.len() == old(self)@.len(),
    {
        if h == 0 || h > self.entries.len() as u64 {
            return false;
        }
        let i = (h - 1) as usize;
        let was_live = self.entries[i].is_some();
        if was_live {
            let ghost prev = self@;
            proof {
                lemma_live_entries_update(self@, i as int, Option::None);
            }
            self.entries.set(i, Option::None);
            proof {
                assert(self@ =~= prev.update(h - 1, Option::None));
            }
            true
        } else {
            false
        }
    }

    /// Replace the bytes of live handle `h`, growing a variable string in
    /// place. Returns false (and changes nothing) if `h` is not a live
    /// allocation.
    pub fn replace(&mut self, h: u64, bytes: Vec<u8>) -> (ok: bool)
        ensures
            ok <==> h >= 1 && h <= old(self)@.len() && old(self)@[h - 1] is Some,
            !ok ==> final(self)@ == old(self)@,
            ok ==> final(self)@ =~= old(self)@.update(h - 1, Option::Some(bytes@)),
            ok ==> final(self).spec_live() == old(self).spec_live(),
            final(self)@.len() == old(self)@.len(),
    {
        if h == 0 || h > self.entries.len() as u64 {
            return false;
        }
        let i = (h - 1) as usize;
        if self.entries[i].is_some() {
            let ghost prev = self@;
            proof {
                lemma_live_entries_update(self@, i as int, Option::Some(bytes@));
            }
            self.entries.set(i, Option::Some(bytes));
            proof {
                assert(self@ =~= prev.update(h - 1, Option::Some(bytes@)));
            }
            true
        } else {
            false
        }
    }

    /// How many allocations are live.
    pub fn live(&self) -> (n: usize)
        ensures
            n == self.spec_live(),
    {
        let mut n: usize = 0;
        let mut i: usize = 0;
        proof {
            assert(self@.take(0) =~= Seq::<Option<Seq<u8>>>::empty());
        }
        while i < self.entries.len()
            invariant
                i <= self.entries@.len(),
                self@.len() == self.entries@.len(),
                n == live_entries(self@.take(i as int)),
                n <= i,
            decreases self.entries@.len() - i,
        {
            proof {
                lemma_live_entries_take(self@, i as int);
            }
            if self.entries[i].is_some() {
                n = n + 1;
            }
            i = i + 1;
        }
        proof {
            assert(self@.take(self@.len() as int) =~= self@);
        }
        n
    }

    /// The end-of-generation leak sweep: free every live allocation at
    /// once. Returns how many were freed — exactly the allocations the
    /// program never released.
    pub fn sweep(&mut self) -> (n: usize)
        ensures
            n == old(self).spec_live(),
            final(self)@ =~= Seq::<Option<Seq<u8>>>::empty(),
            final(self).spec_live() == 0,
    {
        let n = self.live();
        self.entries = Vec::new();
        n
    }
}

} // verus!
