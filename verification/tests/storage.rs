use briq::table::Journal;
use briq::table::Table;
use briq::types::Address;
use briq::types::AddressKind;
use briq::types::Ident;
use briq::types::RecordId;

fn addr(n: u128) -> Address {
    Address { kind: AddressKind::Account, hi: 1, lo: n }
}

fn rid(n: u128) -> RecordId {
    RecordId { hi: 2, lo: n }
}

#[test]
fn identities_compare_all_bits() {
    assert!(addr(1).same(&addr(1)));
    assert!(!addr(1).same(&addr(2)));
    assert!(!Address { kind: AddressKind::Account, hi: 1, lo: 5 }.same(&Address { kind: AddressKind::Account, hi: 2, lo: 5 }));
    assert!(rid(1).same(&rid(1)));
    assert!(!rid(1).same(&rid(2)));
    assert!(!RecordId { hi: 1, lo: 5 }.same(&RecordId { hi: 2, lo: 5 }));
}

#[test]
fn table_keeps_the_last_value_of_each_key() {
    let mut t: Table<Address, i128> = Table::new();
    assert!(!t.contains(&addr(1)));
    assert_eq!(t.get(&addr(1)), None);
    t.insert(addr(1), 10);
    t.insert(addr(2), 20);
    t.insert(addr(1), 30);
    assert!(t.contains(&addr(1)));
    assert_eq!(t.get(&addr(1)), Some(&30));
    assert_eq!(t.get(&addr(2)), Some(&20));
    assert_eq!(t.get(&addr(3)), None);
}

#[test]
fn journal_lists_each_key_in_order() {
    let mut j: Journal<Address, RecordId> = Journal::new();
    assert!(j.list(&addr(1)).is_empty());
    j.append(addr(1), rid(1));
    j.append(addr(2), rid(2));
    j.append(addr(1), rid(3));
    j.append(addr(1), rid(1));
    assert_eq!(j.list(&addr(1)), vec![rid(1), rid(3), rid(1)]);
    assert_eq!(j.list(&addr(2)), vec![rid(2)]);
    assert!(j.list(&addr(3)).is_empty());
}
