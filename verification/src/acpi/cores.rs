//! The list of processors found: a fixed array and a count.

use vstd::prelude::*;

use crate::acpi::{Error, MAX_CORES};

verus! {

/// The APIC ids of the usable processors, in the order they were found.
/// Holds at most `MAX_CORES` of them.
#[derive(Debug, Clone, Copy)]
pub struct ProcessorList {
    ids: [u32; MAX_CORES],
    count: usize,
}

impl View for ProcessorList {
    type V = Seq<u32>;

    closed spec fn view(&self) -> Seq<u32> {
        self.ids@.take(self.count as int)
    }
}

impl ProcessorList {
    #[verifier::type_invariant]
    spec fn in_capacity(self) -> bool {
        self.count <= MAX_CORES
    }

    /// The empty list.
    pub fn new() -> (list: ProcessorList)
        ensures
            list@ == Seq::<u32>::empty(),
    {
        let list = ProcessorList { ids: [0u32; MAX_CORES], count: 0 };
        assert(list@ =~= Seq::<u32>::empty());
        list
    }

    /// How many ids are recorded.
    pub fn len(&self) -> (n: usize)
        ensures
            n == self@.len(),
            n <= MAX_CORES,
    {
        proof {
            use_type_invariant(self);
        }
        self.count
    }

    /// The id recorded at position `i`, if there is one.
    pub fn get(&self, i: usize) -> (id: Option<u32>)
        ensures
            id == if i < self@.len() { Some(self@[i as int]) } else { None },
    {
        proof {
            use_type_invariant(self);
        }
        if i < self.count {
            Some(self.ids[i])
        } else {
            None
        }
    }

    /// Appends `id`, or reports that the list is full and leaves it as it is.
    pub fn push(&mut self, id: u32) -> (r: Result<(), Error>)
        ensures
            old(self)@.len() < MAX_CORES ==> r == Ok::<(), Error>(()) && final(self)@ == old(self)@.push(id),
            old(self)@.len() >= MAX_CORES ==> r == Err::<(), Error>(Error::TooManyCores) && final(self)@
                == old(self)@,
    {
        proof {
            use_type_invariant(&*self);
        }
        if self.count >= MAX_CORES {
            return Err(Error::TooManyCores);
        }
        let ghost before = self@;
        self.ids[self.count] = id;
        self.count = self.count + 1;
        assert(self@ =~= before.push(id));
        Ok(())
    }
}

} // verus!
