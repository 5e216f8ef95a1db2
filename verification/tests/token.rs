use briq::briq_token::BriqToken;
use briq::briq_token::Error;
use briq::briq_token::RewardConfig;
use briq::rental_agreement::AgreementStatus;
use briq::rental_agreement::RentalAgreement;
use briq::types::Address;
use briq::types::AddressKind;
use briq::types::RecordId;

const ADMIN: Address = Address { kind: AddressKind::Account, hi: 0, lo: 1 };
const LEDGER: Address = Address { kind: AddressKind::Account, hi: 0, lo: 2 };
const LANDLORD: Address = Address { kind: AddressKind::Account, hi: 0, lo: 10 };
const TENANT: Address = Address { kind: AddressKind::Account, hi: 0, lo: 20 };

fn rid(n: u128) -> RecordId {
    RecordId { hi: 3, lo: n }
}

fn token() -> BriqToken {
    let mut t = BriqToken::new();
    t.initialize(ADMIN, 0).unwrap();
    t
}

fn agreement(id: RecordId, tenant: Address, landlord: Address) -> RentalAgreement {
    RentalAgreement {
        id,
        property_id: rid(100),
        landlord,
        tenant,
        monthly_rent: 1000,
        security_deposit: 500,
        start_date: 0,
        end_date: 60 * 86400,
        status: AgreementStatus::Active,
        landlord_signed: true,
        landlord_signed_at: 2,
        tenant_signed: true,
        tenant_signed_at: 1,
        deposit_paid: true,
        deposit_paid_at: 3,
        total_rent_paid: 1000,
        months_paid: 1,
        created_at: 0,
        completed_at: 0,
    }
}

#[test]
fn mint_and_transfer() {
    let mut t = BriqToken::new();
    let admin = ADMIN;
    t.initialize(admin, 0).unwrap();
    let alice = Address { kind: AddressKind::Account, hi: 0, lo: 100 };
    let bob = Address { kind: AddressKind::Account, hi: 0, lo: 101 };
    t.mint(admin, alice, 100).unwrap();
    assert_eq!(t.balance_of(alice), 100);
    t.transfer(alice, bob, 25).unwrap();
    assert_eq!(t.balance_of(alice), 75);
    assert_eq!(t.balance_of(bob), 25);
}

#[test]
fn token_starts_with_its_defaults() {
    let t = token();
    assert_eq!(t.name(), "Briq Reward");
    assert_eq!(t.symbol(), "BRIQ-R");
    assert_eq!(t.decimals(), 7);
    assert_eq!(t.total_supply(), 0);
    assert_eq!(t.balance_of(TENANT), 0);
    assert_eq!(
        t.get_reward_config(),
        RewardConfig {
            first_payment_reward: 100_000_000,
            review_reward: 250_000_000,
            mutual_review_bonus: 150_000_000,
        }
    );
    assert_eq!(t.agreement_contract(), None);
    assert_eq!(t.require_admin(), Ok(ADMIN));
}

#[test]
fn token_initialize_twice_is_refused() {
    let mut t = token();
    t.mint(ADMIN, TENANT, 5).unwrap();
    assert_eq!(t.initialize(LANDLORD, 0), Err(Error::AlreadyInitialized));
    assert_eq!(t.total_supply(), 5);
    assert_eq!(t.require_admin(), Ok(ADMIN));
}

#[test]
fn token_pause_blocks_changes() {
    let mut t = BriqToken::new();
    assert_eq!(t.pause(ADMIN, 0), Err(Error::Unauthorized));
    t.initialize(ADMIN, 0).unwrap();
    t.mint(ADMIN, TENANT, 50).unwrap();
    assert_eq!(t.pause(TENANT, 0), Err(Error::Unauthorized));
    assert_eq!(t.pause(ADMIN, 0), Ok(()));
    assert!(t.is_paused());
    assert_eq!(t.check_not_paused(), Err(Error::ContractPaused));
    assert_eq!(t.mint(ADMIN, TENANT, 1), Err(Error::ContractPaused));
    assert_eq!(t.burn(ADMIN, TENANT, 1), Err(Error::ContractPaused));
    assert_eq!(t.transfer(TENANT, LANDLORD, 1), Err(Error::ContractPaused));
    assert_eq!(t.set_reward_config(ADMIN, 1, 1, 1), Err(Error::ContractPaused));
    assert_eq!(t.set_agreement_contract(ADMIN, LEDGER, 0), Err(Error::ContractPaused));
    assert_eq!(t.reward_first_payment(rid(1), TENANT), Err(Error::ContractPaused));
    assert_eq!(t.reward_review(rid(1), TENANT), Err(Error::ContractPaused));
    assert_eq!(t.mutual_review_due(rid(1)), Err(Error::ContractPaused));
    assert_eq!(
        t.reward_mutual_review(&agreement(rid(1), TENANT, LANDLORD)),
        Err(Error::ContractPaused)
    );
    assert_eq!(t.total_supply(), 50);
    assert_eq!(t.unpause(TENANT, 0), Err(Error::Unauthorized));
    assert_eq!(t.unpause(ADMIN, 0), Ok(()));
    assert_eq!(t.mint(ADMIN, TENANT, 1), Ok(()));
}

#[test]
fn mint_needs_the_administrator_and_a_positive_amount() {
    let mut t = token();
    assert_eq!(t.mint(TENANT, TENANT, 10), Err(Error::Unauthorized));
    assert_eq!(t.mint(ADMIN, TENANT, 0), Err(Error::InvalidAmount));
    assert_eq!(t.mint(ADMIN, TENANT, -5), Err(Error::InvalidAmount));
    assert_eq!(t.total_supply(), 0);
    assert_eq!(t.mint(ADMIN, TENANT, 10), Ok(()));
    assert_eq!(t.mint(ADMIN, LANDLORD, 32), Ok(()));
    assert_eq!(t.total_supply(), 42);
    assert_eq!(t.balance_of(TENANT), 10);
    assert_eq!(t.balance_of(LANDLORD), 32);
}

#[test]
fn mint_beyond_the_range_is_refused() {
    let mut t = token();
    t.mint(ADMIN, TENANT, i128::MAX - 1).unwrap();
    assert_eq!(t.mint(ADMIN, LANDLORD, 2), Err(Error::Overflow));
    assert_eq!(t.total_supply(), i128::MAX - 1);
    assert_eq!(t.balance_of(LANDLORD), 0);
    assert_eq!(t.mint(ADMIN, LANDLORD, 1), Ok(()));
    assert_eq!(t.total_supply(), i128::MAX);
    assert_eq!(t.reward_first_payment(rid(1), TENANT), Err(Error::Overflow));
    assert_eq!(t.reward_review(rid(1), TENANT), Err(Error::Overflow));
    t.set_agreement_contract(ADMIN, LEDGER, 0).unwrap();
    assert_eq!(
        t.reward_mutual_review(&agreement(rid(1), TENANT, LANDLORD)),
        Err(Error::Overflow)
    );
    assert_eq!(t.total_supply(), i128::MAX);
}

#[test]
fn burn_needs_the_balance() {
    let mut t = token();
    t.mint(ADMIN, TENANT, 10).unwrap();
    assert_eq!(t.burn(TENANT, TENANT, 5), Err(Error::Unauthorized));
    assert_eq!(t.burn(ADMIN, TENANT, 0), Err(Error::InvalidAmount));
    assert_eq!(t.burn(ADMIN, TENANT, 11), Err(Error::InsufficientBalance));
    assert_eq!(t.burn(ADMIN, LANDLORD, 1), Err(Error::InsufficientBalance));
    assert_eq!(t.burn(ADMIN, TENANT, 4), Ok(()));
    assert_eq!(t.balance_of(TENANT), 6);
    assert_eq!(t.total_supply(), 6);
    assert_eq!(t.burn(ADMIN, TENANT, 6), Ok(()));
    assert_eq!(t.balance_of(TENANT), 0);
    assert_eq!(t.total_supply(), 0);
}

#[test]
fn transfer_needs_the_balance() {
    let mut t = token();
    t.mint(ADMIN, TENANT, 10).unwrap();
    assert_eq!(t.transfer(TENANT, LANDLORD, 0), Err(Error::InvalidAmount));
    assert_eq!(t.transfer(TENANT, LANDLORD, -1), Err(Error::InvalidAmount));
    assert_eq!(t.transfer(TENANT, LANDLORD, 11), Err(Error::InsufficientBalance));
    assert_eq!(t.transfer(LANDLORD, TENANT, 1), Err(Error::InsufficientBalance));
    assert_eq!(t.transfer(TENANT, LANDLORD, 10), Ok(()));
    assert_eq!(t.balance_of(TENANT), 0);
    assert_eq!(t.balance_of(LANDLORD), 10);
    assert_eq!(t.total_supply(), 10);
}

#[test]
fn transfer_to_oneself_changes_nothing() {
    let mut t = token();
    t.mint(ADMIN, TENANT, 10).unwrap();
    assert_eq!(t.transfer(TENANT, TENANT, 4), Ok(()));
    assert_eq!(t.balance_of(TENANT), 10);
    assert_eq!(t.total_supply(), 10);
}

#[test]
fn balances_add_up_to_the_supply() {
    let mut t = token();
    let c = Address { kind: AddressKind::Account, hi: 1, lo: 0 };
    t.mint(ADMIN, TENANT, 100).unwrap();
    t.mint(ADMIN, LANDLORD, 40).unwrap();
    t.transfer(TENANT, c, 30).unwrap();
    t.burn(ADMIN, LANDLORD, 15).unwrap();
    t.reward_review(rid(1), c).unwrap();
    let sum = t.balance_of(TENANT) + t.balance_of(LANDLORD) + t.balance_of(c);
    assert_eq!(sum, t.total_supply());
    assert_eq!(t.total_supply(), 100 + 40 - 15 + 250_000_000);
}

#[test]
fn reward_config_must_not_be_negative() {
    let mut t = token();
    assert_eq!(t.set_reward_config(TENANT, 1, 2, 3), Err(Error::Unauthorized));
    assert_eq!(t.set_reward_config(ADMIN, -1, 2, 3), Err(Error::InvalidAmount));
    assert_eq!(t.set_reward_config(ADMIN, 1, -2, 3), Err(Error::InvalidAmount));
    assert_eq!(t.set_reward_config(ADMIN, 1, 2, -3), Err(Error::InvalidAmount));
    assert_eq!(t.get_reward_config().review_reward, 250_000_000);
    assert_eq!(t.set_reward_config(ADMIN, 1, 0, 3), Ok(()));
    assert_eq!(
        t.get_reward_config(),
        RewardConfig { first_payment_reward: 1, review_reward: 0, mutual_review_bonus: 3 }
    );
}

#[test]
fn first_payment_reward_is_paid_once() {
    let mut t = token();
    assert_eq!(t.reward_first_payment(rid(1), TENANT), Ok(()));
    assert_eq!(t.total_supply(), 100_000_000);
    assert_eq!(t.balance_of(TENANT), 100_000_000);
    assert_eq!(t.reward_first_payment(rid(1), TENANT), Ok(()));
    assert_eq!(t.total_supply(), 100_000_000);
    assert_eq!(t.balance_of(TENANT), 100_000_000);
    assert_eq!(t.reward_first_payment(rid(2), TENANT), Ok(()));
    assert_eq!(t.reward_first_payment(rid(1), LANDLORD), Ok(()));
    assert_eq!(t.total_supply(), 300_000_000);
    assert_eq!(t.balance_of(TENANT), 200_000_000);
    assert_eq!(t.balance_of(LANDLORD), 100_000_000);
}

#[test]
fn review_reward_is_paid_once() {
    let mut t = token();
    assert_eq!(t.reward_review(rid(1), TENANT), Ok(()));
    assert_eq!(t.reward_review(rid(1), TENANT), Ok(()));
    assert_eq!(t.balance_of(TENANT), 250_000_000);
    assert_eq!(t.reward_review(rid(1), LANDLORD), Ok(()));
    assert_eq!(t.balance_of(LANDLORD), 250_000_000);
    assert_eq!(t.total_supply(), 500_000_000);
    assert_eq!(t.reward_first_payment(rid(1), TENANT), Ok(()));
    assert_eq!(t.balance_of(TENANT), 350_000_000);
}

#[test]
fn reward_of_zero_leaves_no_claim() {
    let mut t = token();
    t.set_reward_config(ADMIN, 0, 0, 0).unwrap();
    assert_eq!(t.reward_first_payment(rid(1), TENANT), Ok(()));
    assert_eq!(t.reward_review(rid(1), TENANT), Ok(()));
    assert_eq!(t.mutual_review_due(rid(1)), Ok(false));
    assert_eq!(t.reward_mutual_review(&agreement(rid(1), TENANT, LANDLORD)), Ok(()));
    assert_eq!(t.total_supply(), 0);
    t.set_reward_config(ADMIN, 5, 6, 7).unwrap();
    t.set_agreement_contract(ADMIN, LEDGER, 0).unwrap();
    assert_eq!(t.reward_first_payment(rid(1), TENANT), Ok(()));
    assert_eq!(t.reward_review(rid(1), TENANT), Ok(()));
    assert_eq!(t.reward_mutual_review(&agreement(rid(1), TENANT, LANDLORD)), Ok(()));
    assert_eq!(t.balance_of(TENANT), 5 + 6 + 7);
    assert_eq!(t.balance_of(LANDLORD), 7);
    assert_eq!(t.total_supply(), 25);
}

#[test]
fn mutual_bonus_is_paid_once_to_both() {
    let mut t = token();
    let a = agreement(rid(1), TENANT, LANDLORD);
    assert_eq!(t.mutual_review_due(rid(1)), Err(Error::AgreementContractNotSet));
    assert_eq!(t.reward_mutual_review(&a), Err(Error::AgreementContractNotSet));
    assert_eq!(t.set_agreement_contract(TENANT, LEDGER, 0), Err(Error::Unauthorized));
    t.set_agreement_contract(ADMIN, LEDGER, 0).unwrap();
    assert_eq!(t.agreement_contract(), Some(LEDGER));
    assert_eq!(t.mutual_review_due(rid(1)), Ok(true));
    assert_eq!(t.reward_mutual_review(&a), Ok(()));
    assert_eq!(t.balance_of(TENANT), 150_000_000);
    assert_eq!(t.balance_of(LANDLORD), 150_000_000);
    assert_eq!(t.total_supply(), 300_000_000);
    assert_eq!(t.mutual_review_due(rid(1)), Ok(false));
    assert_eq!(t.reward_mutual_review(&a), Ok(()));
    let other = Address { kind: AddressKind::Account, hi: 5, lo: 5 };
    assert_eq!(t.reward_mutual_review(&agreement(rid(1), other, other)), Ok(()));
    assert_eq!(t.balance_of(other), 0);
    assert_eq!(t.total_supply(), 300_000_000);
    assert_eq!(t.mutual_review_due(rid(2)), Ok(true));
}

#[test]
fn mutual_bonus_for_one_party_on_both_sides() {
    let mut t = token();
    t.set_agreement_contract(ADMIN, LEDGER, 0).unwrap();
    assert_eq!(t.reward_mutual_review(&agreement(rid(1), TENANT, TENANT)), Ok(()));
    assert_eq!(t.balance_of(TENANT), 300_000_000);
    assert_eq!(t.total_supply(), 300_000_000);
}

#[test]
fn token_error_codes() {
    assert_eq!(Error::ContractPaused.code(), 1);
    assert_eq!(Error::Unauthorized.code(), 2);
    assert_eq!(Error::AlreadyInitialized.code(), 3);
    assert_eq!(Error::InvalidAmount.code(), 500);
    assert_eq!(Error::InsufficientBalance.code(), 501);
    assert_eq!(Error::Overflow.code(), 502);
    assert_eq!(Error::AgreementContractNotSet.code(), 503);
}
