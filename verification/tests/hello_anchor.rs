use anchor_book::hello_anchor::{set_data, MyAccount, MyError, DATA_LIMIT};

#[test]
fn data_below_the_limit_is_stored() {
    let mut account = MyAccount::default();
    assert_eq!(set_data(&mut account, MyAccount { data: 42, age: 7 }), Ok(()));
    assert_eq!(account, MyAccount { data: 42, age: 7 });
    assert_eq!(set_data(&mut account, MyAccount { data: 0, age: 255 }), Ok(()));
    assert_eq!(account, MyAccount { data: 0, age: 255 });
}

#[test]
fn largest_accepted_data_is_one_below_the_limit() {
    assert_eq!(DATA_LIMIT, 100);
    let mut account = MyAccount::default();
    assert_eq!(set_data(&mut account, MyAccount { data: 99, age: 1 }), Ok(()));
    assert_eq!(account.data, 99);
}

#[test]
fn data_at_or_above_the_limit_is_refused() {
    let mut account = MyAccount { data: 5, age: 3 };
    for data in [100, 101, 1000, u64::MAX] {
        assert_eq!(set_data(&mut account, MyAccount { data, age: 9 }), Err(MyError::DataTooLarge));
        assert_eq!(account, MyAccount { data: 5, age: 3 });
    }
}

#[test]
fn default_account_is_zeroed() {
    assert_eq!(MyAccount::default(), MyAccount { data: 0, age: 0 });
}
