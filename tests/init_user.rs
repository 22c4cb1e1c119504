use serum_gov::errors::SerumGovError;
use serum_gov::ledger::Ledger;
use serum_gov::serum_gov::{init, init_user};
use serum_gov::state::{Pubkey, Record, RecordId, Stored};

fn user_key(b: u8) -> Pubkey {
    Pubkey::new_from_array([b; 32])
}

#[test]
fn success_init_user() {
    let mut ledger = Ledger::new();
    init(&mut ledger, user_key(9), user_key(1), user_key(2), user_key(3), 1000, 2000, 100, 1000).unwrap();
    let owner = user_key(5);
    init_user(&mut ledger, owner, owner).unwrap();
    match ledger.get(&RecordId::User { owner }) {
        Some(Stored { record: Record::User(u), .. }) => {
            assert_eq!(u.lock_index, 0);
            assert_eq!(u.vest_index, 0);
            assert_eq!(u.owner, owner);
        }
        other => panic!("no user: {:?}", other),
    }
}

#[test]
fn init_user_twice_conflicts() {
    let mut ledger = Ledger::new();
    let owner = user_key(5);
    init_user(&mut ledger, owner, owner).unwrap();
    assert_eq!(init_user(&mut ledger, owner, owner), Err(SerumGovError::AccountAlreadyExists));
}
