//! A record that only accepts data below a fixed bound.

use vstd::prelude::*;

verus! {

/// The first value of `data` that a record refuses.
pub const DATA_LIMIT: u64 = 100;

/// A stored record.
#[derive(Clone, Copy, Debug, PartialEq, Eq, Structural)]
pub struct MyAccount {
    pub data: u64,
    pub age: u8,
}

/// Why a record was refused.
#[derive(Clone, Copy, Debug, PartialEq, Eq, Structural)]
pub enum MyError {
    /// The record's `data` is not below [`DATA_LIMIT`].
    DataTooLarge,
}

impl Default for MyAccount {
    fn default() -> (account: Self)
        ensures
            account == (MyAccount { data: 0, age: 0 }),
    {
        MyAccount { data: 0, age: 0 }
    }
}

/// Replaces the stored record by `data` if `data.data` is below
/// [`DATA_LIMIT`]; otherwise refuses it and leaves the stored record as it
/// was.
pub fn set_data(my_account: &mut MyAccount, data: MyAccount) -> (result: Result<(), MyError>)
    ensures
        match result {
            Ok(()) => data.data < DATA_LIMIT && *final(my_account) == data,
            Err(error) => {
                &&& error == MyError::DataTooLarge
                &&& data.data >= DATA_LIMIT
                &&& *final(my_account) == *old(my_account)
            },
        },
{
    if !(data.data < DATA_LIMIT) {
        return Err(MyError::DataTooLarge);
    }
    *my_account = data;
    Ok(())
}

} // verus!
