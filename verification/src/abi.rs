//! The table of kernel entry points that applications call through.
//!
//! The kernel fills the table while it starts up and seals it before the
//! first application runs. A sealed table never changes again: applications
//! hold its address for the rest of the boot session.

use vstd::prelude::*;
use crate::config::ABI_TABLE_LEN;

verus! {

/// Why a registration was turned down.
#[derive(Clone, Copy, Debug, PartialEq, Eq, Structural)]
pub enum AbiError {
    /// The table is sealed.
    Sealed,
    /// The table has no slot of that number.
    BadNumber,
}

/// What an `AbiTable` holds.
pub struct AbiTableView {
    /// The handle in each slot. A slot that was never written holds zero.
    pub slots: Seq<usize>,
    /// Whether the table is sealed.
    pub sealed: bool,
}

/// The table after `seal`.
pub open spec fn seal_spec(t: AbiTableView) -> AbiTableView {
    AbiTableView { sealed: true, ..t }
}

/// What `register` answers for slot `num`.
pub open spec fn register_result(t: AbiTableView, num: usize) -> Result<(), AbiError> {
    if t.sealed {
        Err(AbiError::Sealed)
    } else if num >= ABI_TABLE_LEN {
        Err(AbiError::BadNumber)
    } else {
        Ok(())
    }
}

/// The table after `register` of `handle` in slot `num`.
pub open spec fn register_spec(t: AbiTableView, num: usize, handle: usize) -> AbiTableView {
    if register_result(t, num) is Ok {
        AbiTableView { slots: t.slots.update(num as int, handle), ..t }
    } else {
        t
    }
}

/// A sealed table turns every registration down and stays as it is.
pub proof fn lemma_sealed_rejects_register(t: AbiTableView, num: usize, handle: usize)
    ensures
        register_result(seal_spec(t), num) == Err::<(), AbiError>(AbiError::Sealed),
        register_spec(seal_spec(t), num, handle) == seal_spec(t),
        seal_spec(seal_spec(t)) == seal_spec(t),
{
}

/// The table of kernel entry points.
pub struct AbiTable {
    slots: [usize; ABI_TABLE_LEN],
    sealed: bool,
}

impl View for AbiTable {
    type V = AbiTableView;

    closed spec fn view(&self) -> AbiTableView {
        AbiTableView { slots: self.slots@, sealed: self.sealed }
    }
}

impl AbiTable {
    /// An open table whose slots all hold zero.
    pub fn new() -> (t: Self)
        ensures
            t@.slots.len() == ABI_TABLE_LEN,
            forall|i: int| 0 <= i < ABI_TABLE_LEN ==> t@.slots[i] == 0,
            !t@.sealed,
    {
        AbiTable { slots: [0; ABI_TABLE_LEN], sealed: false }
    }

    /// Writes `handle` into slot `num` of an open table. A sealed table, or a
    /// number that names no slot, is turned down and changes nothing.
    pub fn register(&mut self, num: usize, handle: usize) -> (r: Result<(), AbiError>)
        ensures
            r == register_result(old(self)@, num),
            final(self)@ == register_spec(old(self)@, num, handle),
    {
        if self.sealed {
            Err(AbiError::Sealed)
        } else if num >= ABI_TABLE_LEN {
            Err(AbiError::BadNumber)
        } else {
            self.slots[num] = handle;
            Ok(())
        }
    }

    /// Seals the table. Sealing a sealed table changes nothing.
    pub fn seal(&mut self)
        ensures
            final(self)@ == seal_spec(old(self)@),
    {
        self.sealed = true;
    }

    /// Tells whether the table is sealed.
    pub fn is_sealed(&self) -> (r: bool)
        ensures
            r == self@.sealed,
    {
        self.sealed
    }

    /// The handle in slot `num`, if the table has such a slot.
    pub fn get(&self, num: usize) -> (r: Option<usize>)
        ensures
            self@.slots.len() == ABI_TABLE_LEN,
            r == if num < ABI_TABLE_LEN {
                Some(self@.slots[num as int])
            } else {
                None
            },
    {
        if num < ABI_TABLE_LEN {
            Some(self.slots[num])
        } else {
            None
        }
    }

    /// The slots as they lie in memory. Applications are handed the address
    /// of the first slot.
    pub fn slots(&self) -> (r: &[usize; ABI_TABLE_LEN])
        ensures
            r@ == self@.slots,
    {
        &self.slots
    }
}

} // verus!
