//! The address space that every pointer of the model points into.
use vstd::prelude::*;

verus! {

/// A data address: the index of a cell of a [`Memory`].
pub type Address = usize;

/// A flat address space of cells, each holding one machine word.
///
/// The view is the sequence of the cells' contents; the cell at address `a` is
/// `self@[a]`.
pub struct Memory {
    cells: Vec<usize>,
}

impl View for Memory {
    type V = Seq<usize>;

    closed spec fn view(&self) -> Seq<usize> {
        self.cells@
    }
}

impl Memory {
    /// An address space that holds exactly `cells`, the first at address 0.
    pub fn new(cells: Vec<usize>) -> (memory: Memory)
        ensures
            memory@ == cells@,
    {
        Memory { cells }
    }

    /// The number of cells fits a machine word.
    pub proof fn len_fits(&self)
        ensures
            self@.len() <= usize::MAX,
    {
        let cells: usize = self.cells.len();
    }

    /// The number of cells.
    pub fn len(&self) -> (n: usize)
        ensures
            n == self@.len(),
    {
        self.cells.len()
    }

    /// The word held at `address`.
    pub fn load(&self, address: Address) -> (word: usize)
        requires
            address < self@.len(),
        ensures
            word == self@[address as int],
    {
        self.cells[address]
    }

    /// A copy of the `count` cells that start at `address`.
    pub fn read(&self, address: Address, count: usize) -> (words: Vec<usize>)
        requires
            address + count <= self@.len(),
        ensures
            words@ == self@.subrange(address as int, address + count),
    {
        proof {
            self.len_fits();
        }
        let mut words: Vec<usize> = Vec::new();
        let mut i: usize = 0;
        while i < count
            invariant
                i <= count,
                address + count <= self@.len() <= usize::MAX,
                words@ == self@.subrange(address as int, address + i),
            decreases count - i,
        {
            words.push(self.cells[address + i]);
            i += 1;
            assert(words@ =~= self@.subrange(address as int, address + i));
        }
        words
    }
}

} // verus!
