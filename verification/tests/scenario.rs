use std::collections::HashMap;

use briq::briq_token::BriqToken;
use briq::escrow_manager::Error as EscrowError;
use briq::escrow_manager::EscrowManager;
use briq::escrow_manager::LedgerNotice;
use briq::escrow_manager::Settlement;
use briq::property_registry::PropertyRegistry;
use briq::rental_agreement::AgreementStatus;
use briq::rental_agreement::RentalAgreementContract;
use briq::review_system::ReviewSystem;
use briq::review_system::RewardNotice;
use briq::review_system::Submission;
use briq::types::Address;
use briq::types::AddressKind;
use briq::types::RecordId;

const DAY: u64 = 86400;
const ADMIN: Address = Address { kind: AddressKind::Account, hi: 0, lo: 1 };
const CATALOG: Address = Address { kind: AddressKind::Account, hi: 0, lo: 2 };
const LEDGER: Address = Address { kind: AddressKind::Account, hi: 0, lo: 3 };
const ESCROW: Address = Address { kind: AddressKind::Account, hi: 0, lo: 4 };
const ASSET: Address = Address { kind: AddressKind::Account, hi: 0, lo: 5 };
const TOKEN: Address = Address { kind: AddressKind::Account, hi: 0, lo: 6 };
const LANDLORD: Address = Address { kind: AddressKind::Account, hi: 0, lo: 10 };
const TENANT: Address = Address { kind: AddressKind::Account, hi: 0, lo: 20 };

fn rid(n: u128) -> RecordId {
    RecordId { hi: 6, lo: n }
}

/// The settlement asset of the scenario: balances that transfers move.
struct Asset {
    balances: HashMap<Address, i128>,
}

impl Asset {
    fn balance(&self, who: Address) -> i128 {
        *self.balances.get(&who).unwrap_or(&0)
    }

    fn settle(&mut self, settlement: &Settlement) {
        for t in &settlement.transfers {
            assert!(self.balance(t.from) >= t.amount);
            *self.balances.entry(t.from).or_insert(0) -= t.amount;
            *self.balances.entry(t.to).or_insert(0) += t.amount;
        }
    }
}

fn deliver(ledger: &mut RentalAgreementContract, settlement: &Settlement, now: u64) {
    for notice in &settlement.notices {
        match *notice {
            LedgerNotice::DepositPaid { agreement_id } => {
                ledger.mark_deposit_paid(ESCROW, agreement_id, now).unwrap();
            }
            LedgerNotice::RentPaid { agreement_id, amount } => {
                ledger.record_rent_payment(ESCROW, agreement_id, amount).unwrap();
            }
        }
    }
}

fn pay_rewards(token: &mut BriqToken, ledger: &RentalAgreementContract, submission: &Submission) {
    for notice in &submission.rewards {
        match *notice {
            RewardNotice::Review { agreement_id, reviewer } => {
                token.reward_review(agreement_id, reviewer).unwrap();
            }
            RewardNotice::MutualReview { agreement_id } => {
                if token.mutual_review_due(agreement_id).unwrap() {
                    let a = ledger.get_agreement(agreement_id).unwrap();
                    token.reward_mutual_review(&a).unwrap();
                }
            }
        }
    }
}

#[test]
fn rental_from_listing_to_released_deposit() {
    let mut catalog = PropertyRegistry::new();
    catalog.initialize(ADMIN, 0).unwrap();
    let mut ledger = RentalAgreementContract::new();
    ledger.initialize(ADMIN, CATALOG, 0).unwrap();
    ledger.set_escrow_contract(ADMIN, ESCROW, 0).unwrap();
    let mut escrow = EscrowManager::new(ESCROW);
    escrow.initialize(ADMIN, LEDGER, ASSET, 0).unwrap();
    let mut reviews = ReviewSystem::new();
    reviews.initialize(ADMIN, LEDGER, 0).unwrap();
    reviews.set_reward_token(ADMIN, TOKEN, 0).unwrap();
    let mut token = BriqToken::new();
    token.initialize(ADMIN, 0).unwrap();
    token.set_agreement_contract(ADMIN, LEDGER, 0).unwrap();
    let mut asset = Asset { balances: HashMap::new() };
    asset.balances.insert(TENANT, 10_000);
    asset.balances.insert(LANDLORD, 70);

    let property_id = catalog
        .create_property(
            LANDLORD,
            "Garden flat".to_string(),
            "Two rooms".to_string(),
            "Porto".to_string(),
            1000,
            500,
            30,
            365,
            String::new(),
            1,
            rid(100),
        )
        .unwrap();

    let start = 1_000_000;
    let end = start + 60 * DAY;
    let id = ledger
        .create_agreement(
            LANDLORD,
            property_id,
            catalog.get_property(property_id).ok(),
            TENANT,
            start,
            end,
            2,
            rid(1),
        )
        .unwrap();
    ledger.tenant_sign(TENANT, id, 3).unwrap();
    ledger.landlord_sign(LANDLORD, id, 4).unwrap();
    assert_eq!(ledger.get_agreement(id).unwrap().status, AgreementStatus::PendingPayment);

    let snapshot = ledger.get_agreement(id).unwrap();
    let funding = escrow.deposit_security_and_rent(TENANT, &snapshot, 5, rid(50), rid(51)).unwrap();
    asset.settle(&funding);
    deliver(&mut ledger, &funding, 5);
    assert_eq!(escrow.get_escrow(id).unwrap().security_deposit_held, 500);
    assert_eq!(asset.balance(LANDLORD), 70 + 1000);
    assert_eq!(asset.balance(TENANT), 10_000 - 1500);
    assert_eq!(asset.balance(ESCROW), 500);
    let active = ledger.get_agreement(id).unwrap();
    assert_eq!(active.status, AgreementStatus::Active);
    assert!(active.deposit_paid);
    assert_eq!(active.total_rent_paid, 1000);
    assert_eq!(active.months_paid, 1);
    token.reward_first_payment(id, TENANT).unwrap();
    token.reward_first_payment(id, TENANT).unwrap();
    assert_eq!(token.balance_of(TENANT), 100_000_000);

    let early = start + 30 * DAY - 1;
    assert_eq!(reviews.can_submit_review(&active, TENANT, early), Ok(false));
    let later = start + 31 * DAY;
    let mut mutual_notices = 0;
    let first = reviews
        .submit_review(TENANT, &active, 4, "Good landlord".to_string(), later, rid(60))
        .unwrap();
    if first.mutual_completed {
        mutual_notices += 1;
    }
    pay_rewards(&mut token, &ledger, &first);
    let second = reviews
        .submit_review(LANDLORD, &active, 5, "Good tenant".to_string(), later + 1, rid(61))
        .unwrap();
    if second.mutual_completed {
        mutual_notices += 1;
    }
    pay_rewards(&mut token, &ledger, &second);
    pay_rewards(&mut token, &ledger, &second);
    assert_eq!(mutual_notices, 1);
    let completions = reviews
        .take_events()
        .iter()
        .filter(|e| matches!(e, briq::review_system::Event::MutualReviewCompleted { .. }))
        .count();
    assert_eq!(completions, 1);
    let bonuses = token
        .take_events()
        .iter()
        .filter(|e| {
            matches!(
                e,
                briq::briq_token::Event::RewardIssued {
                    kind: briq::briq_token::RewardKind::MutualReview,
                    ..
                }
            )
        })
        .count();
    assert_eq!(bonuses, 2);
    assert_eq!(token.balance_of(TENANT), 100_000_000 + 250_000_000 + 150_000_000);
    assert_eq!(token.balance_of(LANDLORD), 250_000_000 + 150_000_000);
    assert_eq!(token.total_supply(), 900_000_000);
    let listed = reviews.get_reviews_for_agreement(id);
    assert_eq!(listed.len(), 2);
    assert_eq!(listed[0].rating, 4);
    assert_eq!(listed[1].rating, 5);

    ledger.complete_agreement(TENANT, id, end + 1).unwrap();
    let done = ledger.get_agreement(id).unwrap();
    assert_eq!(done.status, AgreementStatus::Completed);
    let before = asset.balance(TENANT);
    let release = escrow.release_deposit_to_tenant(TENANT, &done, end + 2, rid(52)).unwrap();
    asset.settle(&release);
    assert_eq!(asset.balance(TENANT), before + 500);
    assert_eq!(asset.balance(ESCROW), 0);
    assert_eq!(
        escrow.release_deposit_to_tenant(TENANT, &done, end + 3, rid(53)).err(),
        Some(EscrowError::DepositAlreadyReleased)
    );
    assert_eq!(asset.balance(TENANT), before + 500);
}

#[test]
fn second_month_of_rent() {
    let mut ledger = RentalAgreementContract::new();
    ledger.initialize(ADMIN, CATALOG, 0).unwrap();
    ledger.set_escrow_contract(ADMIN, ESCROW, 0).unwrap();
    let mut catalog = PropertyRegistry::new();
    catalog.initialize(ADMIN, 0).unwrap();
    catalog
        .create_property(
            LANDLORD,
            "Garden flat".to_string(),
            String::new(),
            "Porto".to_string(),
            1000,
            500,
            30,
            365,
            String::new(),
            1,
            rid(100),
        )
        .unwrap();
    let mut escrow = EscrowManager::new(ESCROW);
    escrow.initialize(ADMIN, LEDGER, ASSET, 0).unwrap();
    let mut asset = Asset { balances: HashMap::new() };
    asset.balances.insert(TENANT, 5000);

    let id = ledger
        .create_agreement(LANDLORD, rid(100), catalog.get_property(rid(100)).ok(), TENANT, 0, 90 * DAY, 2, rid(1))
        .unwrap();
    ledger.landlord_sign(LANDLORD, id, 3).unwrap();
    ledger.tenant_sign(TENANT, id, 4).unwrap();
    let funding = escrow
        .deposit_security_and_rent(TENANT, &ledger.get_agreement(id).unwrap(), 5, rid(50), rid(51))
        .unwrap();
    asset.settle(&funding);
    deliver(&mut ledger, &funding, 5);
    let rent = escrow.pay_rent(TENANT, &ledger.get_agreement(id).unwrap(), 40 * DAY, rid(52)).unwrap();
    asset.settle(&rent);
    deliver(&mut ledger, &rent, 40 * DAY);
    let a = ledger.get_agreement(id).unwrap();
    assert_eq!(a.months_paid, 2);
    assert_eq!(a.total_rent_paid, 2000);
    assert_eq!(asset.balance(LANDLORD), 2000);
    assert_eq!(asset.balance(TENANT), 5000 - 2500);
    assert_eq!(asset.balance(ESCROW), 500);
    let e = escrow.get_escrow(id).unwrap();
    assert_eq!(e.total_rent_received, 2000);
    assert_eq!(e.total_rent_released, 2000);
    assert_eq!(
        escrow.deposit_security_and_rent(TENANT, &a, 6, rid(53), rid(54)).err(),
        Some(EscrowError::InvalidAgreementState)
    );
}
