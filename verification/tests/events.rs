use briq::briq_token as token;
use briq::escrow_manager as escrow;
use briq::property_registry as catalog;
use briq::rental_agreement as ledger;
use briq::review_system as reviews;
use briq::types::Address;
use briq::types::RecordId;

const DAY: u64 = 86400;

fn admin() -> Address {
    Address::account(0, 1)
}

fn landlord() -> Address {
    Address::account(0, 10)
}

fn tenant() -> Address {
    Address::account(0, 20)
}

fn escrow_address() -> Address {
    Address::contract(0, 4)
}

fn rid(n: u128) -> RecordId {
    RecordId { hi: 11, lo: n }
}

fn property() -> catalog::Property {
    catalog::Property {
        id: rid(100),
        owner: landlord(),
        title: "Loft".to_string(),
        description: String::new(),
        location: "Lyon".to_string(),
        price_per_month: 1000,
        security_deposit: 500,
        min_stay_days: 30,
        max_stay_days: 365,
        image_url: String::new(),
        is_available: true,
        is_active: true,
        created_at: 1,
        updated_at: 1,
    }
}

fn agreement(status: ledger::AgreementStatus) -> ledger::RentalAgreement {
    ledger::RentalAgreement {
        id: rid(1),
        property_id: rid(100),
        landlord: landlord(),
        tenant: tenant(),
        monthly_rent: 1000,
        security_deposit: 500,
        start_date: 0,
        end_date: 60 * DAY,
        status,
        landlord_signed: true,
        landlord_signed_at: 2,
        tenant_signed: true,
        tenant_signed_at: 1,
        deposit_paid: false,
        deposit_paid_at: 0,
        total_rent_paid: 0,
        months_paid: 0,
        created_at: 0,
        completed_at: 0,
    }
}

#[test]
fn ledger_makes_each_change_known() {
    let mut c = ledger::RentalAgreementContract::new();
    assert!(c.take_events().is_empty());
    c.initialize(admin(), Address::contract(0, 2), 5).unwrap();
    c.pause(admin(), 6).unwrap();
    c.unpause(admin(), 7).unwrap();
    c.set_escrow_contract(admin(), escrow_address(), 8).unwrap();
    assert_eq!(
        c.take_events(),
        vec![
            ledger::Event::Initialized {
                admin: admin(),
                property_registry: Address::contract(0, 2),
                timestamp: 5,
            },
            ledger::Event::Paused { timestamp: 6 },
            ledger::Event::Unpaused { timestamp: 7 },
            ledger::Event::EscrowContractSet { escrow: escrow_address(), timestamp: 8 },
        ]
    );
    assert!(c.take_events().is_empty());
    let p = property();
    let id = c
        .create_agreement(landlord(), rid(100), Some(&p), tenant(), 0, 60 * DAY, 9, rid(1))
        .unwrap();
    c.tenant_sign(tenant(), id, 10).unwrap();
    c.landlord_sign(landlord(), id, 11).unwrap();
    c.mark_deposit_paid(escrow_address(), id, 12).unwrap();
    c.record_rent_payment(escrow_address(), id, 1000).unwrap();
    c.record_rent_payment(escrow_address(), id, 1000).unwrap();
    c.complete_agreement(tenant(), id, 60 * DAY).unwrap();
    assert_eq!(
        c.take_events(),
        vec![
            ledger::Event::AgreementCreated {
                agreement_id: id,
                property_id: rid(100),
                landlord: landlord(),
                tenant: tenant(),
                monthly_rent: 1000,
                security_deposit: 500,
            },
            ledger::Event::AgreementSigned {
                agreement_id: id,
                signer: tenant(),
                role: ledger::SignerRole::Tenant,
            },
            ledger::Event::AgreementSigned {
                agreement_id: id,
                signer: landlord(),
                role: ledger::SignerRole::Landlord,
            },
            ledger::Event::AgreementActivated { agreement_id: id, deposit_paid_at: 12 },
            ledger::Event::RentPaymentRecorded { agreement_id: id, amount: 1000, months_paid: 1 },
            ledger::Event::RentPaymentRecorded { agreement_id: id, amount: 1000, months_paid: 2 },
            ledger::Event::AgreementCompleted { agreement_id: id, completed_at: 60 * DAY },
        ]
    );
    let other = c
        .create_agreement(landlord(), rid(100), Some(&p), tenant(), 0, 60 * DAY, 9, rid(2))
        .unwrap();
    c.take_events();
    c.cancel_agreement(landlord(), other, 77).unwrap();
    assert_eq!(
        c.take_events(),
        vec![ledger::Event::AgreementCancelled { agreement_id: other, timestamp: 77 }]
    );
}

#[test]
fn refused_operations_make_nothing_known() {
    let mut c = ledger::RentalAgreementContract::new();
    assert!(c.pause(admin(), 1).is_err());
    c.initialize(admin(), Address::contract(0, 2), 5).unwrap();
    c.take_events();
    assert!(c.initialize(admin(), Address::contract(0, 2), 6).is_err());
    assert!(c.tenant_sign(tenant(), rid(1), 7).is_err());
    assert!(c.cancel_agreement(tenant(), rid(1), 7).is_err());
    assert!(c.create_agreement(landlord(), rid(100), None, tenant(), 0, 60 * DAY, 9, rid(1)).is_err());
    assert!(c.take_events().is_empty());

    let mut t = token::BriqToken::new();
    t.initialize(admin(), 1).unwrap();
    t.take_events();
    assert!(t.mint(tenant(), tenant(), 5).is_err());
    assert!(t.transfer(tenant(), landlord(), 5).is_err());
    assert!(t.burn(admin(), tenant(), 5).is_err());
    assert!(t.take_events().is_empty());
}

#[test]
fn escrow_makes_each_payment_known() {
    let mut m = escrow::EscrowManager::new(escrow_address());
    m.initialize(admin(), Address::contract(0, 3), Address::contract(0, 5), 5).unwrap();
    m.pause(admin(), 6).unwrap();
    m.unpause(admin(), 7).unwrap();
    assert_eq!(
        m.take_events(),
        vec![
            escrow::Event::Initialized {
                admin: admin(),
                agreement_contract: Address::contract(0, 3),
                xlm_token: Address::contract(0, 5),
                timestamp: 5,
            },
            escrow::Event::Paused { timestamp: 6 },
            escrow::Event::Unpaused { timestamp: 7 },
        ]
    );
    m.deposit_security_and_rent(
        tenant(),
        &agreement(ledger::AgreementStatus::PendingPayment),
        8,
        rid(50),
        rid(51),
    )
    .unwrap();
    m.pay_rent(tenant(), &agreement(ledger::AgreementStatus::Active), 9, rid(52)).unwrap();
    m.release_deposit_to_tenant(landlord(), &agreement(ledger::AgreementStatus::Completed), 10, rid(53))
        .unwrap();
    m.release_deposit_to_landlord(rid(1), 5);
    assert_eq!(
        m.take_events(),
        vec![
            escrow::Event::SecurityDepositReceived { agreement_id: rid(1), tenant: tenant(), amount: 500 },
            escrow::Event::RentReleasedToLandlord {
                agreement_id: rid(1),
                landlord: landlord(),
                amount: 1000,
            },
            escrow::Event::RentPaymentReceived { agreement_id: rid(1), tenant: tenant(), amount: 1000 },
            escrow::Event::RentReleasedToLandlord {
                agreement_id: rid(1),
                landlord: landlord(),
                amount: 1000,
            },
            escrow::Event::DepositReleasedToTenant { agreement_id: rid(1), tenant: tenant(), amount: 500 },
        ]
    );
    let mut second = agreement(ledger::AgreementStatus::PendingPayment);
    second.id = rid(2);
    m.deposit_security_and_rent(tenant(), &second, 11, rid(54), rid(55)).unwrap();
    m.take_events();
    let to = Address::account(9, 9);
    m.emergency_withdraw(admin(), rid(2), to, 12, rid(56)).unwrap();
    m.emergency_withdraw(admin(), rid(2), to, 13, rid(57)).unwrap();
    assert_eq!(
        m.take_events(),
        vec![escrow::Event::EmergencyWithdrawal { agreement_id: rid(2), to, amount: 500, admin: admin() }]
    );
}

#[test]
fn reviews_make_mutual_completion_known_once() {
    let mut s = reviews::ReviewSystem::new();
    s.initialize(admin(), Address::contract(0, 3), 5).unwrap();
    s.set_reward_token(admin(), Address::contract(0, 6), 6).unwrap();
    s.pause(admin(), 7).unwrap();
    s.unpause(admin(), 8).unwrap();
    assert_eq!(
        s.take_events(),
        vec![
            reviews::Event::Initialized {
                admin: admin(),
                agreement_contract: Address::contract(0, 3),
                timestamp: 5,
            },
            reviews::Event::RewardTokenSet { reward_token: Address::contract(0, 6), timestamp: 6 },
            reviews::Event::Paused { timestamp: 7 },
            reviews::Event::Unpaused { timestamp: 8 },
        ]
    );
    let a = agreement(ledger::AgreementStatus::Active);
    s.submit_review(tenant(), &a, 4, "Fine".to_string(), 31 * DAY, rid(60)).unwrap();
    assert_eq!(
        s.take_events(),
        vec![reviews::Event::ReviewSubmitted {
            review_id: rid(60),
            agreement_id: rid(1),
            reviewer: tenant(),
            reviewee: landlord(),
            rating: 4,
        }]
    );
    s.submit_review(landlord(), &a, 5, "Fine".to_string(), 32 * DAY, rid(61)).unwrap();
    assert_eq!(
        s.take_events(),
        vec![
            reviews::Event::ReviewSubmitted {
                review_id: rid(61),
                agreement_id: rid(1),
                reviewer: landlord(),
                reviewee: tenant(),
                rating: 5,
            },
            reviews::Event::MutualReviewCompleted { agreement_id: rid(1), timestamp: 32 * DAY },
        ]
    );
    assert!(s.submit_review(tenant(), &a, 4, "Again".to_string(), 33 * DAY, rid(62)).is_err());
    assert!(s.take_events().is_empty());
}

#[test]
fn token_makes_each_payment_known() {
    let mut t = token::BriqToken::new();
    t.initialize(admin(), 5).unwrap();
    t.pause(admin(), 6).unwrap();
    t.unpause(admin(), 7).unwrap();
    t.set_reward_config(admin(), 11, 12, 13).unwrap();
    t.set_agreement_contract(admin(), Address::contract(0, 3), 8).unwrap();
    t.mint(admin(), tenant(), 100).unwrap();
    t.transfer(tenant(), landlord(), 40).unwrap();
    t.burn(admin(), landlord(), 10).unwrap();
    assert_eq!(
        t.take_events(),
        vec![
            token::Event::Initialized { admin: admin(), timestamp: 5 },
            token::Event::Paused { timestamp: 6 },
            token::Event::Unpaused { timestamp: 7 },
            token::Event::RewardConfigSet {
                first_payment_reward: 11,
                review_reward: 12,
                mutual_review_bonus: 13,
            },
            token::Event::AgreementContractSet {
                agreement_contract: Address::contract(0, 3),
                timestamp: 8,
            },
            token::Event::Mint { to: tenant(), amount: 100 },
            token::Event::Transfer { from: tenant(), to: landlord(), amount: 40 },
            token::Event::Burn { from: landlord(), amount: 10 },
        ]
    );
    let a = agreement(ledger::AgreementStatus::Active);
    t.reward_first_payment(rid(1), tenant()).unwrap();
    t.reward_first_payment(rid(1), tenant()).unwrap();
    t.reward_review(rid(1), tenant()).unwrap();
    t.reward_review(rid(1), tenant()).unwrap();
    t.reward_mutual_review(&a).unwrap();
    t.reward_mutual_review(&a).unwrap();
    assert_eq!(
        t.take_events(),
        vec![
            token::Event::RewardIssued {
                kind: token::RewardKind::FirstPayment,
                agreement_id: rid(1),
                recipient: tenant(),
                amount: 11,
            },
            token::Event::RewardIssued {
                kind: token::RewardKind::Review,
                agreement_id: rid(1),
                recipient: tenant(),
                amount: 12,
            },
            token::Event::RewardIssued {
                kind: token::RewardKind::MutualReview,
                agreement_id: rid(1),
                recipient: tenant(),
                amount: 13,
            },
            token::Event::RewardIssued {
                kind: token::RewardKind::MutualReview,
                agreement_id: rid(1),
                recipient: landlord(),
                amount: 13,
            },
        ]
    );
}

#[test]
fn catalog_makes_each_change_known() {
    let mut r = catalog::PropertyRegistry::new();
    r.initialize(admin(), 5).unwrap();
    r.pause(admin(), 6).unwrap();
    r.unpause(admin(), 7).unwrap();
    let id = r
        .create_property(
            landlord(),
            "Loft".to_string(),
            String::new(),
            "Lyon".to_string(),
            900,
            300,
            30,
            90,
            String::new(),
            8,
            rid(100),
        )
        .unwrap();
    r.update_property(
        landlord(),
        id,
        "Den".to_string(),
        String::new(),
        "Nice".to_string(),
        800,
        0,
        40,
        50,
        String::new(),
        9,
    )
    .unwrap();
    r.set_availability(landlord(), id, false, 10).unwrap();
    r.deactivate_property(landlord(), id, 11).unwrap();
    assert_eq!(
        r.take_events(),
        vec![
            catalog::Event::Initialized { admin: admin(), timestamp: 5 },
            catalog::Event::Paused { timestamp: 6 },
            catalog::Event::Unpaused { timestamp: 7 },
            catalog::Event::PropertyCreated {
                property_id: id,
                owner: landlord(),
                price_per_month: 900,
                security_deposit: 300,
            },
            catalog::Event::PropertyUpdated { property_id: id, updated_at: 9 },
            catalog::Event::PropertyAvailabilityChanged { property_id: id, is_available: false },
            catalog::Event::PropertyDeactivated { property_id: id, updated_at: 11 },
        ]
    );
}

#[test]
fn events_that_wait_are_kept_with_the_parts() {
    let mut c = ledger::RentalAgreementContract::new();
    c.initialize(admin(), Address::contract(0, 2), 5).unwrap();
    let parts = c.into_parts();
    assert_eq!(parts.events.len(), 1);
    let mut c = ledger::RentalAgreementContract::from_parts(parts).unwrap();
    assert_eq!(c.take_events().len(), 1);
    assert!(c.into_parts().events.is_empty());
}
