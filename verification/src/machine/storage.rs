//! Bounded, indexable storage: a read-only kind and a resizable read-write
//! kind. An access beyond the bound is reported and never faults.

use vstd::prelude::*;

verus! {

/// Why an access failed.
#[derive(Clone, Copy, Debug, PartialEq, Eq, Structural)]
pub enum StorageError {
    OutOfBounds,
}

/// Storage of a known size.
pub trait FiniteStorage {
    /// The number of cells.
    spec fn capacity(&self) -> nat;

    /// The number of cells.
    fn size(&self) -> (size: usize)
        ensures
            size == self.capacity(),
    ;
}

/// Storage that can be read cell by cell.
pub trait ReadableStorage<T>: FiniteStorage where T: Copy {
    /// The cells, in address order.
    spec fn cells(&self) -> Seq<T>;

    /// There are as many cells as the size says.
    proof fn cells_fill_capacity(&self)
        ensures
            self.cells().len() == self.capacity(),
    ;

    /// The cell at `address`, or `OutOfBounds` where `address` is not below
    /// the size.
    fn get(&self, address: usize) -> (result: core::result::Result<T, StorageError>)
        ensures
            address < self.capacity() ==> result == Ok::<T, StorageError>(
                self.cells()[address as int],
            ),
            address >= self.capacity() ==> result == Err::<T, StorageError>(
                StorageError::OutOfBounds,
            ),
    ;
}

/// Storage that can be written cell by cell.
pub trait WritableStorage<T>: FiniteStorage where T: Copy {
    /// The cells, in address order.
    spec fn slots(&self) -> Seq<T>;

    /// There are as many cells as the size says.
    proof fn slots_fill_capacity(&self)
        ensures
            self.slots().len() == self.capacity(),
    ;

    /// Puts `value` into the cell at `address` and leaves every other cell;
    /// where `address` is not below the size nothing changes and `OutOfBounds`
    /// is returned.
    fn set(&mut self, address: usize, value: T) -> (result: core::result::Result<(), StorageError>)
        ensures
            old(self).capacity() == final(self).capacity(),
            address < old(self).capacity() ==> result == Ok::<(), StorageError>(())
                && final(self).slots() == old(self).slots().update(address as int, value),
            address >= old(self).capacity() ==> result == Err::<(), StorageError>(
                StorageError::OutOfBounds,
            ) && final(self).slots() == old(self).slots(),
    ;
}

/// Storage that can be read and written: what is written is what is read.
pub trait Storage<T>: ReadableStorage<T> + WritableStorage<T> where T: Copy {
    /// Reading and writing speak of the same cells.
    proof fn read_what_is_written(&self)
        ensures
            self.cells() == self.slots(),
    ;
}

/// Read-only storage, fixed when it is made.
pub struct ROM<T> where T: Copy {
    data: Vec<T>,
}

impl<T> View for ROM<T> where T: Copy {
    type V = Seq<T>;

    closed spec fn view(&self) -> Seq<T> {
        self.data@
    }
}

impl<T> ROM<T> where T: Copy + Default {
    /// Storage of `size` cells that each hold the default value.
    pub fn new(size: usize) -> (rom: Self)
        ensures
            rom@.len() == size,
            forall|i: int| 0 <= i < size ==> call_ensures(T::default, (), #[trigger] rom@[i]),
    {
        Self { data: filled(size) }
    }
}

/// `size` default values.
fn filled<T: Copy + Default>(size: usize) -> (data: Vec<T>)
    ensures
        data@.len() == size,
        forall|i: int| 0 <= i < size ==> call_ensures(T::default, (), #[trigger] data@[i]),
{
    let mut data: Vec<T> = Vec::new();
    while data.len() < size
        invariant
            data@.len() <= size,
            forall|i: int| 0 <= i < data@.len() ==> call_ensures(T::default, (), #[trigger] data@[i]),
        decreases size - data@.len(),
    {
        data.push(T::default());
    }
    data
}

impl<T> From<Vec<T>> for ROM<T> where T: Copy {
    /// Storage that holds `value`, cell for cell.
    fn from(value: Vec<T>) -> (rom: Self)
        ensures
            rom@ == value@,
    {
        Self { data: value }
    }
}

impl<T> vstd::std_specs::convert::FromSpecImpl<Vec<T>> for ROM<T> where T: Copy {
    open spec fn obeys_from_spec() -> bool {
        true
    }

    closed spec fn from_spec(value: Vec<T>) -> Self {
        ROM { data: value }
    }
}

impl<T> FiniteStorage for ROM<T> where T: Copy {
    open spec fn capacity(&self) -> nat {
        self@.len()
    }

    fn size(&self) -> (size: usize) {
        self.data.len()
    }
}

impl<T> ReadableStorage<T> for ROM<T> where T: Copy {
    open spec fn cells(&self) -> Seq<T> {
        self@
    }

    proof fn cells_fill_capacity(&self) {
    }

    fn get(&self, address: usize) -> (result: core::result::Result<T, StorageError>) {
        if address < self.data.len() {
            Ok(self.data[address])
        } else {
            Err(StorageError::OutOfBounds)
        }
    }
}

/// Read-write storage that can grow and shrink.
pub struct RAM<T> where T: Copy {
    data: Vec<T>,
}

impl<T> View for RAM<T> where T: Copy {
    type V = Seq<T>;

    closed spec fn view(&self) -> Seq<T> {
        self.data@
    }
}

impl<T> RAM<T> where T: Copy + Default {
    /// Storage of `ram_size` cells that each hold the default value.
    pub fn new(ram_size: usize) -> (ram: Self)
        ensures
            ram@.len() == ram_size,
            forall|i: int| 0 <= i < ram_size ==> call_ensures(T::default, (), #[trigger] ram@[i]),
    {
        Self { data: filled(ram_size) }
    }

    /// Makes the storage `new_ram_size` cells long: cells beyond that are
    /// dropped, cells that are added hold the default value, and every cell
    /// that stays keeps what it held.
    pub fn resize(&mut self, new_ram_size: usize)
        ensures
            final(self)@.len() == new_ram_size,
            forall|i: int|
                0 <= i < new_ram_size && i < old(self)@.len() ==> #[trigger] final(self)@[i] == old(
                    self,
                )@[i],
            forall|i: int|
                old(self)@.len() <= i < new_ram_size ==> call_ensures(
                    T::default,
                    (),
                    #[trigger] final(self)@[i],
                ),
    {
        if new_ram_size <= self.data.len() {
            self.data.truncate(new_ram_size);
        } else {
            while self.data.len() < new_ram_size
                invariant
                    old(self)@.len() <= self.data@.len() <= new_ram_size,
                    forall|i: int| 0 <= i < old(self)@.len() ==> #[trigger] self.data@[i] == old(self)@[i],
                    forall|i: int|
                        old(self)@.len() <= i < self.data@.len() ==> call_ensures(
                            T::default,
                            (),
                            #[trigger] self.data@[i],
                        ),
                decreases new_ram_size - self.data@.len(),
            {
                self.data.push(T::default());
            }
        }
    }
}

impl<T> FiniteStorage for RAM<T> where T: Copy {
    open spec fn capacity(&self) -> nat {
        self@.len()
    }

    fn size(&self) -> (size: usize) {
        self.data.len()
    }
}

impl<T> ReadableStorage<T> for RAM<T> where T: Copy {
    open spec fn cells(&self) -> Seq<T> {
        self@
    }

    proof fn cells_fill_capacity(&self) {
    }

    fn get(&self, address: usize) -> (result: core::result::Result<T, StorageError>) {
        if address < self.data.len() {
            Ok(self.data[address])
        } else {
            Err(StorageError::OutOfBounds)
        }
    }
}

impl<T> WritableStorage<T> for RAM<T> where T: Copy {
    open spec fn slots(&self) -> Seq<T> {
        self@
    }

    proof fn slots_fill_capacity(&self) {
    }

    fn set(&mut self, address: usize, value: T) -> (result: core::result::Result<(), StorageError>) {
        if address < self.data.len() {
            self.data[address] = value;
            Ok(())
        } else {
            Err(StorageError::OutOfBounds)
        }
    }
}

impl<T> Storage<T> for RAM<T> where T: Copy {
    proof fn read_what_is_written(&self) {
    }
}

impl<T> From<Vec<T>> for RAM<T> where T: Copy {
    /// Storage that holds `value`, cell for cell.
    fn from(value: Vec<T>) -> (ram: Self)
        ensures
            ram@ == value@,
    {
        Self { data: value }
    }
}

impl<T> vstd::std_specs::convert::FromSpecImpl<Vec<T>> for RAM<T> where T: Copy {
    open spec fn obeys_from_spec() -> bool {
        true
    }

    closed spec fn from_spec(value: Vec<T>) -> Self {
        RAM { data: value }
    }
}

} // verus!
