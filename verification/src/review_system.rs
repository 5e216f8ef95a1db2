//! The review engine: who may review an agreement and when, the reviews
//! themselves, and the moment at which both parties have reviewed.

use vstd::prelude::*;
use crate::rental_agreement::AgreementStatus;
use crate::rental_agreement::RentalAgreement;
use crate::table::filed_under;
use crate::table::pairable;
use crate::table::paired;
use crate::table::filed_under_push;
use crate::table::Journal;
use crate::table::Table;
use crate::types::byte_len;
use crate::types::Address;
use crate::types::Ident;
use crate::types::RecordId;

verus! {

/// How long after the start of an agreement its parties must wait before
/// they review it: thirty days, in seconds.
pub const REVIEW_DELAY_SECONDS: u64 = 2592000;

/// The longest review text that is accepted, in bytes.
pub const MAX_REVIEW_LENGTH: usize = 2000;

/// Why the engine refused an operation.
#[derive(Clone, Copy, Debug, PartialEq, Eq, Structural)]
pub enum Error {
    ContractPaused,
    Unauthorized,
    AlreadyInitialized,
    AgreementNotFound,
    NotAgreementParty,
    NotEligibleYet,
    AlreadyReviewed,
    InvalidRating,
    ReviewTooLong,
    InvalidAgreementState,
}

impl Error {
    /// The number under which this error is reported.
    pub open spec fn spec_code(self) -> u32 {
        match self {
            Error::ContractPaused => 1,
            Error::Unauthorized => 2,
            Error::AlreadyInitialized => 3,
            Error::AgreementNotFound => 400,
            Error::NotAgreementParty => 401,
            Error::NotEligibleYet => 402,
            Error::AlreadyReviewed => 403,
            Error::InvalidRating => 404,
            Error::ReviewTooLong => 405,
            Error::InvalidAgreementState => 406,
        }
    }

    /// The number under which this error is reported.
    pub fn code(&self) -> (c: u32)
        ensures
            c == self.spec_code(),
    {
        match self {
            Error::ContractPaused => 1,
            Error::Unauthorized => 2,
            Error::AlreadyInitialized => 3,
            Error::AgreementNotFound => 400,
            Error::NotAgreementParty => 401,
            Error::NotEligibleYet => 402,
            Error::AlreadyReviewed => 403,
            Error::InvalidRating => 404,
            Error::ReviewTooLong => 405,
            Error::InvalidAgreementState => 406,
        }
    }
}

/// The side of the agreement that the author of a review is on.
#[derive(Clone, Copy, Debug, PartialEq, Eq, Structural)]
pub enum ReviewerType {
    Tenant,
    Landlord,
}

/// One review. Reviews are never changed.
#[derive(Clone, Debug)]
pub struct Review {
    pub id: RecordId,
    pub agreement_id: RecordId,
    pub reviewer: Address,
    pub reviewee: Address,
    pub reviewer_type: ReviewerType,
    pub rating: u32,
    pub review_text: String,
    pub created_at: u64,
}

/// What the engine lets the outside know of a change.
#[derive(Clone, Copy, Debug, PartialEq, Eq, Structural)]
pub enum Event {
    Initialized { admin: Address, agreement_contract: Address, timestamp: u64 },
    RewardTokenSet { reward_token: Address, timestamp: u64 },
    Paused { timestamp: u64 },
    Unpaused { timestamp: u64 },
    ReviewSubmitted {
        review_id: RecordId,
        agreement_id: RecordId,
        reviewer: Address,
        reviewee: Address,
        rating: u32,
    },
    /// Both parties of the agreement have reviewed it.
    MutualReviewCompleted { agreement_id: RecordId, timestamp: u64 },
}

/// A reward that the reward token is to be asked for.
#[derive(Clone, Copy, Debug, PartialEq, Eq, Structural)]
pub enum RewardNotice {
    /// The reward for one review.
    Review { agreement_id: RecordId, reviewer: Address },
    /// The bonus for an agreement that both parties have reviewed.
    MutualReview { agreement_id: RecordId },
}

/// What a successful submission leaves for its caller.
#[derive(Debug)]
pub struct Submission {
    /// The identifier of the review that was stored.
    pub review_id: RecordId,
    /// Whether the agreement now has a review from each side.
    pub mutual_completed: bool,
    /// The rewards to ask the reward token for, in order. Asking is best
    /// effort: the review stays recorded whatever comes of it.
    pub rewards: Vec<RewardNotice>,
}

/// Whether, at `now`, thirty days have passed since `start_date`.
pub open spec fn review_is_open(start_date: u64, now: u64) -> bool {
    now >= start_date + REVIEW_DELAY_SECONDS
}

/// Whether, at `now`, thirty days have passed since `start_date`.
pub fn thirty_days_passed(start_date: u64, now: u64) -> (open: bool)
    ensures
        open == review_is_open(start_date, now),
{
    now >= start_date && now - start_date >= REVIEW_DELAY_SECONDS
}

/// Whether one of the reviews that `ids` name was written by the given author.
pub open spec fn reviewed_by(
    reviews: Map<RecordId, Review>,
    ids: Seq<RecordId>,
    reviewer: Address,
) -> bool {
    exists|i: int|
        0 <= i < ids.len() && reviews.dom().contains(#[trigger] ids[i]) && reviews[ids[i]].reviewer
            == reviewer
}

/// Whether one of the reviews that `ids` name comes from the given side.
pub open spec fn reviewed_from(
    reviews: Map<RecordId, Review>,
    ids: Seq<RecordId>,
    side: ReviewerType,
) -> bool {
    exists|i: int|
        0 <= i < ids.len() && reviews.dom().contains(#[trigger] ids[i])
            && reviews[ids[i]].reviewer_type == side
}

/// The reviews that `ids` name, in that order, leaving out any that the map
/// does not hold.
pub open spec fn hydrated(reviews: Map<RecordId, Review>, ids: Seq<RecordId>) -> Seq<Review>
    decreases ids.len(),
{
    if ids.len() == 0 {
        Seq::empty()
    } else {
        let earlier = hydrated(reviews, ids.drop_last());
        if reviews.dom().contains(ids.last()) {
            earlier.push(reviews[ids.last()])
        } else {
            earlier
        }
    }
}

/// Whether `out` refers to exactly the reviews of `expected`, in order.
pub open spec fn refers_to(out: Seq<&Review>, expected: Seq<Review>) -> bool {
    &&& out.len() == expected.len()
    &&& forall|i: int| 0 <= i < out.len() ==> *#[trigger] out[i] == expected[i]
}

/// What the engine holds, as mathematical values.
pub struct ReviewView {
    pub admin: Option<Address>,
    pub paused: bool,
    pub agreement_contract: Option<Address>,
    pub reward_token: Option<Address>,
    pub reviews: Map<RecordId, Review>,
    pub by_agreement: Seq<(RecordId, RecordId)>,
    pub by_user: Seq<(Address, RecordId)>,
    /// The events that wait to be published, oldest first.
    pub events: Seq<Event>,
}

impl ReviewView {
    /// Whether `caller` is the administrator.
    pub open spec fn is_admin(self, caller: Address) -> bool {
        self.admin == Some(caller)
    }

    /// This state with one more event waiting to be published.
    pub open spec fn emitted(self, event: Event) -> ReviewView {
        ReviewView { events: self.events.push(event), ..self }
    }

    /// The identifiers of the reviews of `agreement_id`, oldest first.
    pub open spec fn review_ids(self, agreement_id: RecordId) -> Seq<RecordId> {
        filed_under(self.by_agreement, agreement_id)
    }

    /// Whether the author has a review of `agreement_id` on record.
    pub open spec fn has_reviewed(self, agreement_id: RecordId, reviewer: Address) -> bool {
        reviewed_by(self.reviews, self.review_ids(agreement_id), reviewer)
    }

    /// Whether `agreement_id` has a review from each side on record.
    pub open spec fn has_mutual_reviews(self, agreement_id: RecordId) -> bool {
        &&& reviewed_from(self.reviews, self.review_ids(agreement_id), ReviewerType::Tenant)
        &&& reviewed_from(self.reviews, self.review_ids(agreement_id), ReviewerType::Landlord)
    }

    /// Whether the author may review `agreement` at `now`: a party to it, the
    /// agreement active or completed, thirty days gone since its start, and no
    /// review from this author yet.
    pub open spec fn eligible(
        self,
        agreement: RentalAgreement,
        reviewer: Address,
        now: u64,
    ) -> bool {
        &&& agreement.is_party(reviewer)
        &&& (agreement.status == AgreementStatus::Active || agreement.status
            == AgreementStatus::Completed)
        &&& review_is_open(agreement.start_date, now)
        &&& !self.has_reviewed(agreement.id, reviewer)
    }

    /// What naming the administrator and the ledger gives.
    pub open spec fn initialize(self, admin: Address, agreement_contract: Address, now: u64) -> (
        Result<(), Error>,
        ReviewView,
    ) {
        if self.admin.is_some() {
            (Err(Error::AlreadyInitialized), self)
        } else {
            (
                Ok(()),
                ReviewView {
                    admin: Some(admin),
                    paused: false,
                    agreement_contract: Some(agreement_contract),
                    ..self
                }.emitted(Event::Initialized { admin, agreement_contract, timestamp: now }),
            )
        }
    }

    /// What pausing, or taking the pause back, gives.
    pub open spec fn set_paused(self, caller: Address, paused: bool, now: u64) -> (
        Result<(), Error>,
        ReviewView,
    ) {
        if !self.is_admin(caller) {
            (Err(Error::Unauthorized), self)
        } else {
            (
                Ok(()),
                ReviewView { paused, ..self }.emitted(
                    if paused {
                        Event::Paused { timestamp: now }
                    } else {
                        Event::Unpaused { timestamp: now }
                    },
                ),
            )
        }
    }

    /// What naming the reward token gives.
    pub open spec fn set_reward_token(self, caller: Address, reward_token: Address, now: u64) -> (
        Result<(), Error>,
        ReviewView,
    ) {
        if self.paused {
            (Err(Error::ContractPaused), self)
        } else if !self.is_admin(caller) {
            (Err(Error::Unauthorized), self)
        } else {
            (
                Ok(()),
                ReviewView { reward_token: Some(reward_token), ..self }.emitted(
                    Event::RewardTokenSet { reward_token, timestamp: now },
                ),
            )
        }
    }

    /// Why a submission is refused before the agreement is looked at, if it
    /// is: the engine is paused, the rating or the text is out of bounds, or
    /// no agreement ledger is configured to read the agreement from.
    pub open spec fn form_error(self, rating: u32, review_text: &String) -> Option<Error> {
        if self.paused {
            Some(Error::ContractPaused)
        } else if rating < 1 || rating > 5 {
            Some(Error::InvalidRating)
        } else if byte_len(review_text) > MAX_REVIEW_LENGTH {
            Some(Error::ReviewTooLong)
        } else if self.agreement_contract.is_none() {
            Some(Error::Unauthorized)
        } else {
            None
        }
    }

    /// Why a submission is refused, if it is. A submission that comes before
    /// thirty days have passed since the start of the agreement is refused as
    /// too early, whoever makes it and whatever the status of the agreement.
    pub open spec fn submission_error(
        self,
        reviewer: Address,
        agreement: RentalAgreement,
        rating: u32,
        review_text: &String,
        now: u64,
    ) -> Option<Error> {
        if self.form_error(rating, review_text).is_some() {
            self.form_error(rating, review_text)
        } else if !review_is_open(agreement.start_date, now) {
            Some(Error::NotEligibleYet)
        } else if !agreement.is_party(reviewer) {
            Some(Error::NotAgreementParty)
        } else if !(agreement.status == AgreementStatus::Active || agreement.status
            == AgreementStatus::Completed) {
            Some(Error::InvalidAgreementState)
        } else if self.has_reviewed(agreement.id, reviewer) {
            Some(Error::AlreadyReviewed)
        } else {
            None
        }
    }

    /// The review that a submission stores.
    pub open spec fn new_review(
        reviewer: Address,
        agreement: RentalAgreement,
        rating: u32,
        review_text: String,
        now: u64,
        review_id: RecordId,
    ) -> Review {
        Review {
            id: review_id,
            agreement_id: agreement.id,
            reviewer,
            reviewee: if reviewer == agreement.tenant {
                agreement.landlord
            } else {
                agreement.tenant
            },
            reviewer_type: if reviewer == agreement.tenant {
                ReviewerType::Tenant
            } else {
                ReviewerType::Landlord
            },
            rating,
            review_text,
            created_at: now,
        }
    }

    /// This state with `review` stored and filed under its agreement and its
    /// author.
    pub open spec fn recorded(self, review: Review) -> ReviewView {
        ReviewView {
            reviews: self.reviews.insert(review.id, review),
            by_agreement: self.by_agreement.push((review.agreement_id, review.id)),
            by_user: self.by_user.push((review.reviewer, review.id)),
            ..self
        }
    }

    /// The state after the submission of `review` at `now`: the review on
    /// record, its submission made known, and, where the agreement now has a
    /// review from each side, that made known too.
    pub open spec fn submitted(self, review: Review, now: u64) -> ReviewView {
        let stored = self.recorded(review).emitted(
            Event::ReviewSubmitted {
                review_id: review.id,
                agreement_id: review.agreement_id,
                reviewer: review.reviewer,
                reviewee: review.reviewee,
                rating: review.rating,
            },
        );
        if stored.has_mutual_reviews(review.agreement_id) {
            stored.emitted(
                Event::MutualReviewCompleted { agreement_id: review.agreement_id, timestamp: now },
            )
        } else {
            stored
        }
    }

    /// The rewards to ask for after a review by its author of `agreement_id`:
    /// none where no reward token is configured; else the review reward,
    /// followed by the mutual bonus where both sides have now reviewed.
    pub open spec fn rewards_due(
        self,
        agreement_id: RecordId,
        reviewer: Address,
    ) -> Seq<RewardNotice> {
        if self.reward_token.is_none() {
            Seq::empty()
        } else if self.has_mutual_reviews(agreement_id) {
            seq![
                RewardNotice::Review { agreement_id, reviewer },
                RewardNotice::MutualReview { agreement_id },
            ]
        } else {
            seq![RewardNotice::Review { agreement_id, reviewer }]
        }
    }
}

/// The review engine.
pub struct ReviewSystem {
    admin: Option<Address>,
    paused: bool,
    agreement_contract: Option<Address>,
    reward_token: Option<Address>,
    reviews: Table<RecordId, Review>,
    by_agreement: Journal<RecordId, RecordId>,
    by_user: Journal<Address, RecordId>,
    events: Vec<Event>,
}

impl View for ReviewSystem {
    type V = ReviewView;

    closed spec fn view(&self) -> ReviewView {
        ReviewView {
            admin: self.admin,
            paused: self.paused,
            agreement_contract: self.agreement_contract,
            reward_token: self.reward_token,
            reviews: self.reviews.map(),
            by_agreement: self.by_agreement.entries(),
            by_user: self.by_user.entries(),
            events: self.events@,
        }
    }
}

impl ReviewSystem {
    /// The stored table is in order.
    pub closed spec fn wf(&self) -> bool {
        self.reviews.wf()
    }

    /// An engine that holds nothing and has no administrator yet.
    pub fn new() -> (s: Self)
        ensures
            s.wf(),
            s@ == (ReviewView {
                admin: None,
                paused: false,
                agreement_contract: None,
                reward_token: None,
                reviews: Map::empty(),
                by_agreement: Seq::empty(),
                by_user: Seq::empty(),
                events: Seq::empty(),
            }),
    {
        ReviewSystem {
            admin: None,
            paused: false,
            agreement_contract: None,
            reward_token: None,
            reviews: Table::new(),
            by_agreement: Journal::new(),
            by_user: Journal::new(),
            events: Vec::new(),
        }
    }

    /// Names the administrator and the agreement ledger. Works once.
    pub fn initialize(&mut self, admin: Address, agreement_contract: Address, now: u64) -> (r:
        Result<(), Error>)
        requires
            old(self).wf(),
        ensures
            final(self).wf(),
            (r, final(self)@) == old(self)@.initialize(admin, agreement_contract, now),
    {
        if self.admin.is_some() {
            return Err(Error::AlreadyInitialized);
        }
        self.admin = Some(admin);
        self.paused = false;
        self.agreement_contract = Some(agreement_contract);
        self.events.push(Event::Initialized { admin, agreement_contract, timestamp: now });
        Ok(())
    }

    /// Names the reward token. Until one is named no reward is asked for.
    /// `caller` must be the administrator.
    pub fn set_reward_token(&mut self, caller: Address, reward_token: Address, now: u64) -> (r:
        Result<(), Error>)
        requires
            old(self).wf(),
        ensures
            final(self).wf(),
            (r, final(self)@) == old(self)@.set_reward_token(caller, reward_token, now),
    {
        self.check_not_paused()?;
        let admin = self.require_admin()?;
        if !admin.same(&caller) {
            return Err(Error::Unauthorized);
        }
        self.reward_token = Some(reward_token);
        self.events.push(Event::RewardTokenSet { reward_token, timestamp: now });
        Ok(())
    }

    /// Stops every state-changing operation until `unpause`. `caller` must be
    /// the administrator.
    pub fn pause(&mut self, caller: Address, now: u64) -> (r: Result<(), Error>)
        requires
            old(self).wf(),
        ensures
            final(self).wf(),
            (r, final(self)@) == old(self)@.set_paused(caller, true, now),
    {
        let admin = self.require_admin()?;
        if !admin.same(&caller) {
            return Err(Error::Unauthorized);
        }
        self.paused = true;
        self.events.push(Event::Paused { timestamp: now });
        Ok(())
    }

    /// Lets state-changing operations through again. `caller` must be the
    /// administrator.
    pub fn unpause(&mut self, caller: Address, now: u64) -> (r: Result<(), Error>)
        requires
            old(self).wf(),
        ensures
            final(self).wf(),
            (r, final(self)@) == old(self)@.set_paused(caller, false, now),
    {
        let admin = self.require_admin()?;
        if !admin.same(&caller) {
            return Err(Error::Unauthorized);
        }
        self.paused = false;
        self.events.push(Event::Unpaused { timestamp: now });
        Ok(())
    }

    /// Whether the author may review `agreement`, which is the ledger's
    /// current record of it, at `now`. Fails where no agreement ledger is
    /// configured.
    pub fn can_submit_review(&self, agreement: &RentalAgreement, reviewer: Address, now: u64) -> (r:
        Result<bool, Error>)
        requires
            self.wf(),
        ensures
            r == if self@.agreement_contract.is_none() {
                Err::<bool, Error>(Error::Unauthorized)
            } else {
                Ok(self@.eligible(*agreement, reviewer, now))
            },
    {
        if self.agreement_contract.is_none() {
            return Err(Error::Unauthorized);
        }
        if !reviewer.same(&agreement.tenant) && !reviewer.same(&agreement.landlord) {
            return Ok(false);
        }
        match agreement.status {
            AgreementStatus::Active => {},
            AgreementStatus::Completed => {},
            _ => {
                return Ok(false);
            },
        }
        if !thirty_days_passed(agreement.start_date, now) {
            return Ok(false);
        }
        Ok(!self.reviewer_on_record(&agreement.id, &reviewer))
    }

    /// Checks what can be checked of a submission before its agreement is
    /// read from the ledger.
    pub fn check_review_form(&self, rating: u32, review_text: &String) -> (r: Result<(), Error>)
        ensures
            r == match self@.form_error(rating, review_text) {
                Some(e) => Err::<(), Error>(e),
                None => Ok(()),
            },
    {
        self.check_not_paused()?;
        if rating < 1 || rating > 5 {
            return Err(Error::InvalidRating);
        }
        if review_text.as_str().len() > MAX_REVIEW_LENGTH {
            return Err(Error::ReviewTooLong);
        }
        if self.agreement_contract.is_none() {
            return Err(Error::Unauthorized);
        }
        Ok(())
    }

    /// Stores a review by its author of `agreement`, which is the ledger's
    /// current record of it. The author is the authenticated caller;
    /// `review_id` is the fresh identifier of the review: a review that is
    /// stored must not take the place of one that is on record.
    pub fn submit_review(
        &mut self,
        reviewer: Address,
        agreement: &RentalAgreement,
        rating: u32,
        review_text: String,
        now: u64,
        review_id: RecordId,
    ) -> (r: Result<Submission, Error>)
        requires
            old(self).wf(),
            old(self)@.submission_error(reviewer, *agreement, rating, &review_text, now).is_none()
                ==> !old(self)@.reviews.dom().contains(review_id),
        ensures
            final(self).wf(),
            match r {
                Ok(s) => {
                    &&& old(self)@.submission_error(reviewer, *agreement, rating, &review_text, now)
                        .is_none()
                    &&& final(self)@ == old(self)@.submitted(
                        ReviewView::new_review(
                            reviewer,
                            *agreement,
                            rating,
                            review_text,
                            now,
                            review_id,
                        ),
                        now,
                    )
                    &&& final(self)@.review_ids(agreement.id) == old(self)@.review_ids(
                        agreement.id,
                    ).push(review_id)
                    &&& s.review_id == review_id
                    &&& s.mutual_completed == final(self)@.has_mutual_reviews(agreement.id)
                    &&& s.rewards@ == final(self)@.rewards_due(agreement.id, reviewer)
                },
                Err(e) => {
                    &&& old(self)@.submission_error(reviewer, *agreement, rating, &review_text, now)
                        == Some(e)
                    &&& final(self)@ == old(self)@
                },
            },
    {
        self.check_review_form(rating, &review_text)?;
        if !thirty_days_passed(agreement.start_date, now) {
            return Err(Error::NotEligibleYet);
        }
        if !reviewer.same(&agreement.tenant) && !reviewer.same(&agreement.landlord) {
            return Err(Error::NotAgreementParty);
        }
        match agreement.status {
            AgreementStatus::Active => {},
            AgreementStatus::Completed => {},
            _ => {
                return Err(Error::InvalidAgreementState);
            },
        }
        if self.reviewer_on_record(&agreement.id, &reviewer) {
            return Err(Error::AlreadyReviewed);
        }
        let by_tenant = reviewer.same(&agreement.tenant);
        let review = Review {
            id: review_id,
            agreement_id: agreement.id,
            reviewer,
            reviewee: if by_tenant {
                agreement.landlord
            } else {
                agreement.tenant
            },
            reviewer_type: if by_tenant {
                ReviewerType::Tenant
            } else {
                ReviewerType::Landlord
            },
            rating,
            review_text,
            created_at: now,
        };
        self.reviews.insert(review_id, review);
        self.by_agreement.append(agreement.id, review_id);
        self.by_user.append(reviewer, review_id);
        proof {
            filed_under_push(old(self)@.by_agreement, agreement.id, review_id, agreement.id);
        }
        self.events.push(
            Event::ReviewSubmitted {
                review_id,
                agreement_id: agreement.id,
                reviewer,
                reviewee: if by_tenant {
                    agreement.landlord
                } else {
                    agreement.tenant
                },
                rating,
            },
        );

        let mut rewards: Vec<RewardNotice> = Vec::new();
        match self.maybe_reward_review(agreement.id, reviewer) {
            Some(notice) => {
                rewards.push(notice);
            },
            None => {},
        }
        let mutual_completed = self.has_mutual_reviews(&agreement.id);
        if mutual_completed {
            self.events.push(
                Event::MutualReviewCompleted { agreement_id: agreement.id, timestamp: now },
            );
            match self.maybe_reward_mutual(agreement.id) {
                Some(notice) => {
                    rewards.push(notice);
                },
                None => {},
            }
        }
        proof {
            assert(rewards@ =~= self@.rewards_due(agreement.id, reviewer));
        }
        Ok(Submission { review_id, mutual_completed, rewards })
    }

    /// The review stored under `review_id`.
    pub fn get_review(&self, review_id: RecordId) -> (r: Result<&Review, Error>)
        requires
            self.wf(),
        ensures
            match r {
                Ok(review) => self@.reviews.dom().contains(review_id) && *review
                    == self@.reviews[review_id],
                Err(e) => !self@.reviews.dom().contains(review_id) && e
                    == Error::AgreementNotFound,
            },
    {
        match self.reviews.get(&review_id) {
            Some(review) => Ok(review),
            None => Err(Error::AgreementNotFound),
        }
    }

    /// The reviews of `agreement_id`, oldest first.
    pub fn get_reviews_for_agreement(&self, agreement_id: RecordId) -> (out: Vec<&Review>)
        requires
            self.wf(),
        ensures
            refers_to(out@, hydrated(self@.reviews, self@.review_ids(agreement_id))),
    {
        let ids = self.review_ids_by_agreement(&agreement_id);
        self.hydrate_reviews(&ids)
    }

    /// The reviews that `user` wrote, oldest first.
    pub fn get_reviews_by_user(&self, user: Address) -> (out: Vec<&Review>)
        requires
            self.wf(),
        ensures
            refers_to(out@, hydrated(self@.reviews, filed_under(self@.by_user, user))),
    {
        let ids = self.by_user.list(&user);
        self.hydrate_reviews(&ids)
    }

    /// Hands over the events that wait to be published, oldest first, and
    /// keeps none.
    pub fn take_events(&mut self) -> (events: Vec<Event>)
        requires
            old(self).wf(),
        ensures
            final(self).wf(),
            events@ == old(self)@.events,
            final(self)@ == (ReviewView { events: Seq::empty(), ..old(self)@ }),
    {
        let mut events: Vec<Event> = Vec::new();
        core::mem::swap(&mut events, &mut self.events);
        events
    }

    /// Whether the engine is paused.
    pub fn is_paused(&self) -> (p: bool)
        ensures
            p == self@.paused,
    {
        self.paused
    }

    /// The address of the agreement ledger, once the engine is initialized.
    pub fn agreement_contract(&self) -> (r: Option<Address>)
        ensures
            r == self@.agreement_contract,
    {
        self.agreement_contract
    }

    /// The address of the reward token, once one is named.
    pub fn reward_token(&self) -> (r: Option<Address>)
        ensures
            r == self@.reward_token,
    {
        self.reward_token
    }

    /// Fails while the engine is paused.
    pub fn check_not_paused(&self) -> (r: Result<(), Error>)
        ensures
            r == if self@.paused {
                Err::<(), Error>(Error::ContractPaused)
            } else {
                Ok(())
            },
    {
        if self.paused {
            Err(Error::ContractPaused)
        } else {
            Ok(())
        }
    }

    /// The administrator, once there is one.
    pub fn require_admin(&self) -> (r: Result<Address, Error>)
        ensures
            r == match self@.admin {
                Some(a) => Ok::<Address, Error>(a),
                None => Err(Error::Unauthorized),
            },
    {
        match self.admin {
            Some(a) => Ok(a),
            None => Err(Error::Unauthorized),
        }
    }

    /// The identifiers of the reviews of `agreement_id`, oldest first.
    fn review_ids_by_agreement(&self, agreement_id: &RecordId) -> (ids: Vec<RecordId>)
        ensures
            ids@ == self@.review_ids(*agreement_id),
    {
        self.by_agreement.list(agreement_id)
    }

    /// Whether the author has a review of `agreement_id` on record.
    fn reviewer_on_record(&self, agreement_id: &RecordId, reviewer: &Address) -> (found: bool)
        requires
            self.wf(),
        ensures
            found == self@.has_reviewed(*agreement_id, *reviewer),
    {
        let ids = self.review_ids_by_agreement(agreement_id);
        let mut i: usize = 0;
        while i < ids.len()
            invariant
                self.wf(),
                i <= ids@.len(),
                ids@ == self@.review_ids(*agreement_id),
                forall|j: int|
                    0 <= j < i ==> !(self@.reviews.dom().contains(#[trigger] ids@[j])
                        && self@.reviews[ids@[j]].reviewer == *reviewer),
            decreases ids@.len() - i,
        {
            match self.reviews.get(&ids[i]) {
                Some(review) => {
                    if review.reviewer.same(reviewer) {
                        proof {
                            assert(self@.reviews.dom().contains(ids@[i as int]));
                        }
                        return true;
                    }
                },
                None => {},
            }
            i += 1;
        }
        false
    }

    /// Whether `agreement_id` has a review from each side on record.
    fn has_mutual_reviews(&self, agreement_id: &RecordId) -> (mutual: bool)
        requires
            self.wf(),
        ensures
            mutual == self@.has_mutual_reviews(*agreement_id),
    {
        let ids = self.review_ids_by_agreement(agreement_id);
        let mut has_tenant = false;
        let mut has_landlord = false;
        let mut i: usize = 0;
        while i < ids.len()
            invariant
                self.wf(),
                i <= ids@.len(),
                has_tenant ==> reviewed_from(self@.reviews, ids@, ReviewerType::Tenant),
                has_landlord ==> reviewed_from(self@.reviews, ids@, ReviewerType::Landlord),
                !has_tenant ==> forall|j: int|
                    0 <= j < i ==> !(self@.reviews.dom().contains(#[trigger] ids@[j])
                        && self@.reviews[ids@[j]].reviewer_type == ReviewerType::Tenant),
                !has_landlord ==> forall|j: int|
                    0 <= j < i ==> !(self@.reviews.dom().contains(#[trigger] ids@[j])
                        && self@.reviews[ids@[j]].reviewer_type == ReviewerType::Landlord),
            decreases ids@.len() - i,
        {
            match self.reviews.get(&ids[i]) {
                Some(review) => {
                    match review.reviewer_type {
                        ReviewerType::Tenant => {
                            proof {
                                assert(self@.reviews.dom().contains(ids@[i as int]));
                            }
                            has_tenant = true;
                        },
                        ReviewerType::Landlord => {
                            proof {
                                assert(self@.reviews.dom().contains(ids@[i as int]));
                            }
                            has_landlord = true;
                        },
                    }
                },
                None => {},
            }
            i += 1;
        }
        has_tenant && has_landlord
    }

    /// The review reward to ask for, where a reward token is configured.
    fn maybe_reward_review(&self, agreement_id: RecordId, reviewer: Address) -> (r: Option<
        RewardNotice,
    >)
        ensures
            r == if self@.reward_token.is_some() {
                Some(RewardNotice::Review { agreement_id, reviewer })
            } else {
                None
            },
    {
        match self.reward_token {
            Some(_) => Some(RewardNotice::Review { agreement_id, reviewer }),
            None => None,
        }
    }

    /// The mutual bonus to ask for, where a reward token is configured.
    fn maybe_reward_mutual(&self, agreement_id: RecordId) -> (r: Option<RewardNotice>)
        ensures
            r == if self@.reward_token.is_some() {
                Some(RewardNotice::MutualReview { agreement_id })
            } else {
                None
            },
    {
        match self.reward_token {
            Some(_) => Some(RewardNotice::MutualReview { agreement_id }),
            None => None,
        }
    }

    /// The reviews that `ids` name, in that order, leaving out any that the
    /// engine does not hold.
    fn hydrate_reviews(&self, ids: &Vec<RecordId>) -> (out: Vec<&Review>)
        requires
            self.wf(),
        ensures
            refers_to(out@, hydrated(self@.reviews, ids@)),
    {
        let mut out: Vec<&Review> = Vec::new();
        let mut i: usize = 0;
        while i < ids.len()
            invariant
                self.wf(),
                i <= ids@.len(),
                refers_to(out@, hydrated(self@.reviews, ids@.take(i as int))),
            decreases ids@.len() - i,
        {
            proof {
                assert(ids@.take(i + 1).drop_last() =~= ids@.take(i as int));
            }
            match self.reviews.get(&ids[i]) {
                Some(review) => {
                    out.push(review);
                },
                None => {},
            }
            i += 1;
        }
        proof {
            assert(ids@.take(i as int) =~= ids@);
        }
        out
    }
}

/// Everything the engine holds, as plain values: what is written down to
/// keep an engine, and read back to go on with it.
pub struct ReviewParts {
    pub admin: Option<Address>,
    pub paused: bool,
    pub agreement_contract: Option<Address>,
    pub reward_token: Option<Address>,
    /// The identifiers under which the reviews are stored.
    pub review_ids: Vec<RecordId>,
    /// The review stored under each identifier, at the same place.
    pub reviews: Vec<Review>,
    pub by_agreement: Vec<(RecordId, RecordId)>,
    pub by_user: Vec<(Address, RecordId)>,
    /// The events that wait to be published, oldest first.
    pub events: Vec<Event>,
}

impl View for ReviewParts {
    type V = ReviewView;

    open spec fn view(&self) -> ReviewView {
        ReviewView {
            admin: self.admin,
            paused: self.paused,
            agreement_contract: self.agreement_contract,
            reward_token: self.reward_token,
            reviews: paired(self.review_ids@, self.reviews@),
            by_agreement: self.by_agreement@,
            by_user: self.by_user@,
            events: self.events@,
        }
    }
}

impl ReviewParts {
    /// Whether these parts make up an engine: one review for each
    /// identifier, and no identifier twice.
    pub open spec fn valid(&self) -> bool {
        pairable(self.review_ids@, self.reviews@)
    }
}

impl ReviewSystem {
    /// The engine that `parts` make up, where they make up one.
    pub fn from_parts(parts: ReviewParts) -> (r: Option<Self>)
        ensures
            r.is_some() == parts.valid(),
            match r {
                Some(s) => s.wf() && s@ == parts@,
                None => true,
            },
    {
        let reviews = match Table::from_parts(parts.review_ids, parts.reviews) {
            Some(t) => t,
            None => {
                return None;
            },
        };
        Some(
            ReviewSystem {
                admin: parts.admin,
                paused: parts.paused,
                agreement_contract: parts.agreement_contract,
                reward_token: parts.reward_token,
                reviews,
                by_agreement: Journal::from_entries(parts.by_agreement),
                by_user: Journal::from_entries(parts.by_user),
                events: parts.events,
            },
        )
    }

    /// Everything the engine holds, as plain values.
    pub fn into_parts(self) -> (parts: ReviewParts)
        requires
            self.wf(),
        ensures
            parts.valid(),
            parts@ == self@,
    {
        let (review_ids, reviews) = self.reviews.into_parts();
        ReviewParts {
            admin: self.admin,
            paused: self.paused,
            agreement_contract: self.agreement_contract,
            reward_token: self.reward_token,
            review_ids,
            reviews,
            by_agreement: self.by_agreement.into_entries(),
            by_user: self.by_user.into_entries(),
            events: self.events,
        }
    }
}

/// Before thirty days have passed since the start of an agreement nobody can
/// review it, whoever the author and whatever the status of the agreement:
/// the eligibility predicate is false, and a submission that a running
/// engine can read, with a rating and a text within bounds, is refused as too
/// early. A submission that is refused before the agreement is read is
/// refused all the same.
pub proof fn early_review_refused(
    engine: ReviewView,
    reviewer: Address,
    agreement: RentalAgreement,
    rating: u32,
    review_text: &String,
    now: u64,
)
    requires
        now < agreement.start_date + REVIEW_DELAY_SECONDS,
    ensures
        !engine.eligible(agreement, reviewer, now),
        engine.submission_error(reviewer, agreement, rating, review_text, now).is_some(),
        engine.form_error(rating, review_text).is_none() ==> engine.submission_error(
            reviewer,
            agreement,
            rating,
            review_text,
            now,
        ) == Some(Error::NotEligibleYet),
        ({
            &&& !engine.paused
            &&& 1 <= rating <= 5
            &&& byte_len(review_text) <= MAX_REVIEW_LENGTH
            &&& engine.agreement_contract.is_some()
        }) ==> engine.form_error(rating, review_text).is_none(),
{
}

/// A submission goes through exactly when the engine is running and knows
/// its ledger, the rating and the text are acceptable, and the author is
/// eligible.
pub proof fn submission_needs_eligibility(
    engine: ReviewView,
    reviewer: Address,
    agreement: RentalAgreement,
    rating: u32,
    review_text: &String,
    now: u64,
)
    ensures
        engine.submission_error(reviewer, agreement, rating, review_text, now).is_none() <==> {
            &&& !engine.paused
            &&& engine.agreement_contract.is_some()
            &&& 1 <= rating <= 5
            &&& byte_len(review_text) <= MAX_REVIEW_LENGTH
            &&& engine.eligible(agreement, reviewer, now)
        },
{
}

/// An author reviews an agreement once: after a submission that went
/// through, a further one by the same author on the same agreement is
/// refused, whatever its rating, text and time.
pub proof fn second_review_refused(
    engine: ReviewView,
    reviewer: Address,
    agreement: RentalAgreement,
    first: Review,
    rating: u32,
    review_text: &String,
    now: u64,
)
    requires
        first.agreement_id == agreement.id,
        first.reviewer == reviewer,
    ensures
        engine.recorded(first).has_reviewed(agreement.id, reviewer),
        engine.recorded(first).submission_error(reviewer, agreement, rating, review_text, now)
            .is_some(),
{
    let after = engine.recorded(first);
    let ids = after.review_ids(agreement.id);
    filed_under_push(engine.by_agreement, agreement.id, first.id, agreement.id);
    let last = ids.len() - 1;
    assert(ids[last] == first.id);
    assert(after.reviews.dom().contains(ids[last]));
}

/// While the engine is paused, a submission is refused for that reason,
/// whatever else is wrong with it, and so is naming a reward token.
pub proof fn pause_blocks_changes(
    engine: ReviewView,
    caller: Address,
    other: Address,
    agreement: RentalAgreement,
    rating: u32,
    review_text: &String,
    now: u64,
)
    requires
        engine.paused,
    ensures
        engine.submission_error(caller, agreement, rating, review_text, now) == Some(
            Error::ContractPaused,
        ),
        engine.set_reward_token(caller, other, now) == (
            Err::<(), Error>(Error::ContractPaused),
            engine,
        ),
{
}

/// The mutual bonus is asked for only when both sides have reviewed, and a
/// first review of an agreement never completes it: with no review of the
/// agreement on record, the submission of one leaves the other side missing.
pub proof fn first_review_is_not_mutual(engine: ReviewView, review: Review, now: u64)
    requires
        engine.review_ids(review.agreement_id).len() == 0,
    ensures
        !engine.submitted(review, now).has_mutual_reviews(review.agreement_id),
        !engine.submitted(review, now).rewards_due(review.agreement_id, review.reviewer).contains(
            RewardNotice::MutualReview { agreement_id: review.agreement_id },
        ),
{
    let after = engine.submitted(review, now);
    let ids = after.review_ids(review.agreement_id);
    filed_under_push(engine.by_agreement, review.agreement_id, review.id, review.agreement_id);
    assert(ids =~= seq![review.id]);
    let other = match review.reviewer_type {
        ReviewerType::Tenant => ReviewerType::Landlord,
        ReviewerType::Landlord => ReviewerType::Tenant,
    };
    assert(!reviewed_from(after.reviews, ids, other)) by {
        if reviewed_from(after.reviews, ids, other) {
            let i = choose|i: int|
                0 <= i < ids.len() && after.reviews.dom().contains(#[trigger] ids[i])
                    && after.reviews[ids[i]].reviewer_type == other;
            assert(ids[i] == review.id);
        }
    }
    let due = after.rewards_due(review.agreement_id, review.reviewer);
    assert(!due.contains(RewardNotice::MutualReview { agreement_id: review.agreement_id })) by {
        if due.contains(RewardNotice::MutualReview { agreement_id: review.agreement_id }) {
            let j = due.index_of(RewardNotice::MutualReview { agreement_id: review.agreement_id });
            assert(due[j] == RewardNotice::MutualReview { agreement_id: review.agreement_id });
        }
    }
}

/// A submission never changes a review on record: the submission of a
/// review under a fresh identifier leaves every stored review as it was.
pub proof fn reviews_are_never_changed(
    engine: ReviewView,
    review: Review,
    now: u64,
    stored: RecordId,
)
    requires
        !engine.reviews.dom().contains(review.id),
        engine.reviews.dom().contains(stored),
    ensures
        engine.submitted(review, now).reviews.dom().contains(stored),
        engine.submitted(review, now).reviews[stored] == engine.reviews[stored],
{
}

/// Both parties review an agreement that has no review yet, the tenant
/// first: both submissions go through, the agreement is complete on both
/// sides only after the second, which alone makes that known, once, and the
/// reviews of the agreement are then the tenant's and the landlord's, in that
/// order.
pub proof fn both_parties_review(
    engine: ReviewView,
    agreement: RentalAgreement,
    tenant_rating: u32,
    tenant_text: String,
    tenant_time: u64,
    tenant_review_id: RecordId,
    landlord_rating: u32,
    landlord_text: String,
    landlord_time: u64,
    landlord_review_id: RecordId,
)
    requires
        engine.form_error(tenant_rating, &tenant_text).is_none(),
        engine.form_error(landlord_rating, &landlord_text).is_none(),
        agreement.tenant != agreement.landlord,
        agreement.status == AgreementStatus::Active || agreement.status
            == AgreementStatus::Completed,
        review_is_open(agreement.start_date, tenant_time),
        review_is_open(agreement.start_date, landlord_time),
        engine.review_ids(agreement.id).len() == 0,
        !engine.reviews.dom().contains(tenant_review_id),
        !engine.reviews.dom().contains(landlord_review_id),
        tenant_review_id != landlord_review_id,
    ensures
        ({
            let first = ReviewView::new_review(
                agreement.tenant,
                agreement,
                tenant_rating,
                tenant_text,
                tenant_time,
                tenant_review_id,
            );
            let second = ReviewView::new_review(
                agreement.landlord,
                agreement,
                landlord_rating,
                landlord_text,
                landlord_time,
                landlord_review_id,
            );
            let after_first = engine.submitted(first, tenant_time);
            let after_both = after_first.submitted(second, landlord_time);
            &&& engine.submission_error(
                agreement.tenant,
                agreement,
                tenant_rating,
                &tenant_text,
                tenant_time,
            ).is_none()
            &&& after_first.submission_error(
                agreement.landlord,
                agreement,
                landlord_rating,
                &landlord_text,
                landlord_time,
            ).is_none()
            &&& !after_first.has_mutual_reviews(agreement.id)
            &&& after_both.has_mutual_reviews(agreement.id)
            &&& after_first.events == engine.events.push(
                Event::ReviewSubmitted {
                    review_id: tenant_review_id,
                    agreement_id: agreement.id,
                    reviewer: agreement.tenant,
                    reviewee: agreement.landlord,
                    rating: tenant_rating,
                },
            )
            &&& after_both.events == after_first.events.push(
                Event::ReviewSubmitted {
                    review_id: landlord_review_id,
                    agreement_id: agreement.id,
                    reviewer: agreement.landlord,
                    reviewee: agreement.tenant,
                    rating: landlord_rating,
                },
            ).push(
                Event::MutualReviewCompleted {
                    agreement_id: agreement.id,
                    timestamp: landlord_time,
                },
            )
            &&& first.reviewer_type == ReviewerType::Tenant
            &&& second.reviewer_type == ReviewerType::Landlord
            &&& hydrated(after_both.reviews, after_both.review_ids(agreement.id)) == seq![
                first,
                second,
            ]
        }),
{
    let first = ReviewView::new_review(
        agreement.tenant,
        agreement,
        tenant_rating,
        tenant_text,
        tenant_time,
        tenant_review_id,
    );
    let second = ReviewView::new_review(
        agreement.landlord,
        agreement,
        landlord_rating,
        landlord_text,
        landlord_time,
        landlord_review_id,
    );
    let after_first = engine.submitted(first, tenant_time);
    let after_both = after_first.submitted(second, landlord_time);
    let one = after_first.review_ids(agreement.id);
    let two = after_both.review_ids(agreement.id);

    assert(engine.review_ids(agreement.id) =~= Seq::<RecordId>::empty());
    assert(!engine.has_reviewed(agreement.id, agreement.tenant));
    first_review_is_not_mutual(engine, first, tenant_time);

    filed_under_push(engine.by_agreement, agreement.id, tenant_review_id, agreement.id);
    assert(one =~= seq![tenant_review_id]);
    assert(!after_first.has_reviewed(agreement.id, agreement.landlord)) by {
        if after_first.has_reviewed(agreement.id, agreement.landlord) {
            let i = choose|i: int|
                0 <= i < one.len() && after_first.reviews.dom().contains(#[trigger] one[i])
                    && after_first.reviews[one[i]].reviewer == agreement.landlord;
            assert(one[i] == tenant_review_id);
        }
    }

    filed_under_push(
        after_first.by_agreement,
        agreement.id,
        landlord_review_id,
        agreement.id,
    );
    assert(two =~= seq![tenant_review_id, landlord_review_id]);
    let stored = after_first.recorded(second);
    assert(stored.reviews[tenant_review_id] == first);
    assert(stored.reviews[landlord_review_id] == second);
    assert(reviewed_from(stored.reviews, two, ReviewerType::Tenant)) by {
        assert(stored.reviews.dom().contains(two[0]));
    }
    assert(reviewed_from(stored.reviews, two, ReviewerType::Landlord)) by {
        assert(stored.reviews.dom().contains(two[1]));
    }
    assert(after_both.has_mutual_reviews(agreement.id));

    assert(two.drop_last() =~= seq![tenant_review_id]);
    assert(two.drop_last().drop_last() =~= Seq::<RecordId>::empty());
    assert(hydrated(after_both.reviews, two.drop_last().drop_last()) =~= Seq::<Review>::empty());
    assert(hydrated(after_both.reviews, two.drop_last()) =~= seq![first]);
    assert(hydrated(after_both.reviews, two) =~= seq![first, second]);
}

} // verus!
