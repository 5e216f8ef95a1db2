use briq::briq_token::BriqToken;
use briq::briq_token::ClaimKey;
use briq::briq_token::Metadata;
use briq::briq_token::RewardConfig;
use briq::briq_token::TokenParts;
use briq::escrow_manager::EscrowManager;
use briq::property_registry::PropertyRegistry;
use briq::rental_agreement::AgreementStatus;
use briq::rental_agreement::RentalAgreement;
use briq::rental_agreement::RentalAgreementContract;
use briq::review_system::ReviewSystem;
use briq::table::Journal;
use briq::table::Table;
use briq::types::Address;
use briq::types::RecordId;

const DAY: u64 = 86400;

fn rid(n: u128) -> RecordId {
    RecordId { hi: 8, lo: n }
}

fn agreement(id: RecordId) -> RentalAgreement {
    RentalAgreement {
        id,
        property_id: rid(100),
        landlord: Address::account(0, 10),
        tenant: Address::account(0, 20),
        monthly_rent: 1000,
        security_deposit: 500,
        start_date: 0,
        end_date: 60 * DAY,
        status: AgreementStatus::PendingPayment,
        landlord_signed: true,
        landlord_signed_at: 2,
        tenant_signed: true,
        tenant_signed_at: 1,
        deposit_paid: false,
        deposit_paid_at: 0,
        total_rent_paid: 0,
        months_paid: 0,
        created_at: 0,
        completed_at: 0,
    }
}

fn token_parts() -> TokenParts {
    TokenParts {
        admin: Some(Address::account(0, 1)),
        paused: false,
        metadata: Some(Metadata { name: "Briq Reward".to_string(), symbol: "BRIQ-R".to_string(), decimals: 7 }),
        total_supply: 30,
        holders: vec![Address::account(0, 10), Address::account(0, 20)],
        amounts: vec![10, 20],
        reward_config: Some(RewardConfig { first_payment_reward: 1, review_reward: 2, mutual_review_bonus: 3 }),
        agreement_contract: None,
        first_payment_claims: vec![ClaimKey { agreement_id: rid(1), party: Address::account(0, 20) }],
        review_claims: vec![],
        mutual_claims: vec![rid(1)],
        events: vec![],
    }
}

#[test]
fn addresses_of_two_kinds_differ() {
    assert_ne!(Address::account(1, 2), Address::contract(1, 2));
    assert_eq!(Address::account(1, 2), Address::account(1, 2));
    let mut t: Table<Address, u8> = Table::new();
    t.insert(Address::account(1, 2), 1);
    t.insert(Address::contract(1, 2), 2);
    assert_eq!(t.get(&Address::account(1, 2)), Some(&1));
    assert_eq!(t.get(&Address::contract(1, 2)), Some(&2));
}

#[test]
fn table_comes_back_from_its_columns() {
    let mut t: Table<RecordId, u32> = Table::new();
    t.insert(rid(2), 20);
    t.insert(rid(1), 10);
    t.insert(rid(2), 21);
    {
        let (keys, vals) = t.parts();
        assert_eq!(keys, &vec![rid(2), rid(1)]);
        assert_eq!(vals, &vec![21, 10]);
    }
    let (keys, vals) = t.into_parts();
    let back = Table::from_parts(keys, vals).unwrap();
    assert_eq!(back.get(&rid(1)), Some(&10));
    assert_eq!(back.get(&rid(2)), Some(&21));
}

#[test]
fn table_refuses_columns_that_do_not_pair() {
    assert!(Table::from_parts(vec![rid(1), rid(2)], vec![1u8]).is_none());
    assert!(Table::from_parts(vec![rid(1), rid(2), rid(1)], vec![1u8, 2, 3]).is_none());
    assert!(Table::from_parts(vec![rid(1), rid(2), rid(3)], vec![1u8, 1, 1]).is_some());
    assert!(Table::<RecordId, u8>::from_parts(vec![], vec![]).is_some());
}

#[test]
fn journal_comes_back_from_its_entries() {
    let mut j: Journal<RecordId, u32> = Journal::new();
    j.append(rid(1), 7);
    j.append(rid(2), 8);
    j.append(rid(1), 9);
    let entries = j.into_entries();
    assert_eq!(entries, vec![(rid(1), 7), (rid(2), 8), (rid(1), 9)]);
    let back = Journal::from_entries(entries);
    assert_eq!(back.list(&rid(1)), vec![7, 9]);
}

#[test]
fn ledger_comes_back_from_its_parts() {
    let mut c = RentalAgreementContract::new();
    let admin = Address::account(0, 1);
    c.initialize(admin, Address::contract(0, 2), 0).unwrap();
    c.set_escrow_contract(admin, Address::contract(0, 3), 0).unwrap();
    let mut parts = c.into_parts();
    assert_eq!(parts.admin, Some(admin));
    assert_eq!(parts.escrow_contract, Some(Address::contract(0, 3)));
    parts.agreement_ids.push(rid(1));
    parts.agreements.push(agreement(rid(1)));
    parts.agreement_list.push(rid(1));
    parts.by_tenant.push((Address::account(0, 20), rid(1)));
    let mut c = RentalAgreementContract::from_parts(parts).unwrap();
    assert_eq!(c.get_agreements_by_tenant(Address::account(0, 20)), vec![agreement(rid(1))]);
    c.mark_deposit_paid(Address::contract(0, 3), rid(1), 9).unwrap();
    let parts = c.into_parts();
    assert_eq!(parts.agreements[0].status, AgreementStatus::Active);
    assert_eq!(parts.agreement_ids, vec![rid(1)]);
    let mut twice = parts;
    twice.agreement_ids.push(rid(1));
    twice.agreements.push(agreement(rid(1)));
    assert!(RentalAgreementContract::from_parts(twice).is_none());
}

#[test]
fn other_components_come_back_from_their_parts() {
    let admin = Address::account(0, 1);
    let mut e = EscrowManager::new(Address::contract(0, 4));
    e.initialize(admin, Address::contract(0, 3), Address::contract(0, 5), 0).unwrap();
    e.deposit_security_and_rent(Address::account(0, 20), &agreement(rid(1)), 5, rid(50), rid(51)).unwrap();
    let parts = e.into_parts();
    assert_eq!(parts.custody, Address::contract(0, 4));
    assert_eq!(parts.escrow_ids, vec![rid(1)]);
    assert_eq!(parts.payments.len(), 2);
    let e = EscrowManager::from_parts(parts).unwrap();
    assert_eq!(e.get_escrow(rid(1)).unwrap().security_deposit_held, 500);
    let mut parts = e.into_parts();
    parts.escrows.clear();
    assert!(EscrowManager::from_parts(parts).is_none());

    let mut s = ReviewSystem::new();
    s.initialize(admin, Address::contract(0, 3), 0).unwrap();
    let mut a = agreement(rid(1));
    a.status = AgreementStatus::Active;
    s.submit_review(a.tenant, &a, 5, "Fine".to_string(), 31 * DAY, rid(60)).unwrap();
    let parts = s.into_parts();
    assert_eq!(parts.review_ids, vec![rid(60)]);
    assert_eq!(parts.by_agreement, vec![(rid(1), rid(60))]);
    let s = ReviewSystem::from_parts(parts).unwrap();
    assert_eq!(s.can_submit_review(&a, a.tenant, 32 * DAY), Ok(false));
    let mut parts = s.into_parts();
    parts.review_ids.push(rid(61));
    assert!(ReviewSystem::from_parts(parts).is_none());

    let mut r = PropertyRegistry::new();
    r.initialize(admin, 0).unwrap();
    r.create_property(
        a.landlord,
        "Loft".to_string(),
        String::new(),
        "Lyon".to_string(),
        900,
        300,
        30,
        90,
        String::new(),
        1,
        rid(100),
    )
    .unwrap();
    let parts = r.into_parts();
    assert_eq!(parts.property_ids, vec![rid(100)]);
    assert_eq!(parts.owner_index, vec![(a.landlord, rid(100))]);
    let r = PropertyRegistry::from_parts(parts).unwrap();
    assert_eq!(r.get_property(rid(100)).unwrap().title, "Loft");
    let mut parts = r.into_parts();
    parts.property_ids.push(rid(100));
    assert!(PropertyRegistry::from_parts(parts).is_none());
}

#[test]
fn token_comes_back_from_its_parts() {
    let t = BriqToken::from_parts(token_parts()).unwrap();
    assert_eq!(t.total_supply(), 30);
    assert_eq!(t.balance_of(Address::account(0, 10)), 10);
    assert_eq!(t.balance_of(Address::account(0, 20)), 20);
    assert_eq!(t.name(), "Briq Reward");
    let mut t = t;
    t.reward_first_payment(rid(1), Address::account(0, 20)).unwrap();
    assert_eq!(t.total_supply(), 30);
    t.reward_review(rid(1), Address::account(0, 20)).unwrap();
    assert_eq!(t.total_supply(), 32);
    assert_eq!(t.mutual_review_due(rid(1)), Ok(false));
    let parts = t.into_parts();
    assert_eq!(parts.amounts, vec![10, 22]);
    assert_eq!(parts.total_supply, 32);
    assert_eq!(parts.review_claims, vec![ClaimKey { agreement_id: rid(1), party: Address::account(0, 20) }]);
    assert!(BriqToken::from_parts(parts).is_some());
}

#[test]
fn token_refuses_parts_that_break_its_invariant() {
    let mut p = token_parts();
    p.total_supply = 31;
    assert!(BriqToken::from_parts(p).is_none());
    let mut p = token_parts();
    p.total_supply = 29;
    assert!(BriqToken::from_parts(p).is_none());
    let mut p = token_parts();
    p.amounts = vec![-10, 40];
    assert!(BriqToken::from_parts(p).is_none());
    let mut p = token_parts();
    p.amounts = vec![i128::MAX, i128::MAX];
    p.total_supply = i128::MAX;
    assert!(BriqToken::from_parts(p).is_none());
    let mut p = token_parts();
    p.holders.push(Address::account(0, 10));
    p.amounts.push(0);
    assert!(BriqToken::from_parts(p).is_none());
    let mut p = token_parts();
    p.amounts.push(0);
    assert!(BriqToken::from_parts(p).is_none());
    let mut p = token_parts();
    p.mutual_claims.push(rid(1));
    assert!(BriqToken::from_parts(p).is_none());
    let mut p = token_parts();
    p.first_payment_claims.push(p.first_payment_claims[0]);
    assert!(BriqToken::from_parts(p).is_none());
    let mut p = token_parts();
    p.reward_config = None;
    assert!(BriqToken::from_parts(p).is_none());
    let mut p = token_parts();
    p.metadata = None;
    assert!(BriqToken::from_parts(p).is_none());
    let mut p = token_parts();
    p.admin = None;
    p.reward_config = None;
    p.metadata = None;
    assert!(BriqToken::from_parts(p).is_none());
    let mut p = token_parts();
    p.total_supply = -1;
    p.holders.clear();
    p.amounts.clear();
    assert!(BriqToken::from_parts(p).is_none());
    let fresh = BriqToken::new().into_parts();
    assert!(BriqToken::from_parts(fresh).is_some());
}
