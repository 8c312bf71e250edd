//! One campaign: its metadata, the asset it accepts, the contribution
//! ledger and the amount held in custody.
//!
//! Until the deadline the project takes contributions; after it the
//! creator may collect what is in custody. The project never moves assets
//! itself. `fund` and `withdraw` return the transfer that has to be carried
//! out, and the state they leave is the one to keep if that transfer is
//! accepted. If it is refused the caller keeps the state from before the
//! call, so that a contribution is on the ledger only when it was paid.

use crate::address::Address;
use crate::ledger::{
    contribution_in, credited, distinct_funders, entries_map, ledger_sum, lemma_sum_credited,
    no_negative_amount, Contribution, Ledger,
};
use vstd::prelude::*;

verus! {

/// Why a call on a project was refused.
#[derive(Clone, Copy, Debug, PartialEq, Eq, PartialOrd, Ord, Hash, Structural)]
pub enum Error {
    /// `withdraw` came while the deadline had not passed.
    DeadlineNotReached,
    /// The caller is not the one the call needs.
    NotAuthorized,
    /// `fund` came after the deadline.
    DeadlineReached,
}

impl Error {
    /// The number under which the error is reported.
    pub open spec fn spec_code(self) -> u32 {
        match self {
            Error::DeadlineNotReached => 1,
            Error::NotAuthorized => 2,
            Error::DeadlineReached => 3,
        }
    }

    /// The number under which the error is reported.
    pub fn code(&self) -> (code: u32)
        ensures
            code == self.spec_code(),
    {
        match self {
            Error::DeadlineNotReached => 1,
            Error::NotAuthorized => 2,
            Error::DeadlineReached => 3,
        }
    }
}

/// What a campaign is about. Fixed when the project is set up.
#[derive(Debug, PartialEq, Eq)]
pub struct ProjectData {
    pub title: String,
    pub description: String,
    pub image_url: String,
    /// The only one who may collect the funds.
    pub creator: Address,
    /// The last moment, in seconds since the Unix epoch, at which a
    /// contribution is taken.
    pub deadline: u64,
}

impl Clone for ProjectData {
    fn clone(&self) -> (copy: ProjectData)
        ensures
            copy == *self,
    {
        ProjectData {
            title: self.title.clone(),
            description: self.description.clone(),
            image_url: self.image_url.clone(),
            creator: self.creator,
            deadline: self.deadline,
        }
    }
}

/// A movement of the funding asset that a call asks for.
#[derive(Clone, Copy, Debug, PartialEq, Eq)]
pub enum Transfer {
    /// `amount` of `token` goes from `from` into the project's custody.
    Deposit { token: Address, from: Address, amount: i128 },
    /// `amount` of `token` goes out of the project's custody to `to`.
    Payout { token: Address, to: Address, amount: i128 },
}

impl Transfer {
    /// What the transfer adds to the balance of `who`, the project's own
    /// custody left aside.
    pub open spec fn gain_of(self, who: Address) -> int {
        match self {
            Transfer::Deposit { token, from, amount } => if from == who {
                -amount
            } else {
                0
            },
            Transfer::Payout { token, to, amount } => if to == who {
                amount as int
            } else {
                0
            },
        }
    }

    /// What the transfer adds to the project's custody.
    pub open spec fn custody_gain(self) -> int {
        match self {
            Transfer::Deposit { token, from, amount } => amount as int,
            Transfer::Payout { token, to, amount } => -amount,
        }
    }
}

/// The state of a project as the contracts speak of it.
pub struct ProjectState {
    pub data: ProjectData,
    /// The asset in which contributions are taken, once the creator has
    /// named one.
    pub token: Option<Address>,
    /// For each funder the cumulative amount contributed.
    pub ledger: Map<Address, int>,
    /// The amount in custody.
    pub total_funded: int,
}

impl ProjectState {
    /// What holds of every state that the calls below can reach: the
    /// ledger is finite and has no negative amount, custody is not negative
    /// and never exceeds what the ledger records, and nothing is in custody
    /// before an asset was named.
    pub open spec fn wf(self) -> bool {
        &&& self.ledger.dom().finite()
        &&& forall|funder: Address|
            self.ledger.contains_key(funder) ==> 0 <= #[trigger] self.ledger[funder] <= i128::MAX
        &&& 0 <= self.total_funded <= i128::MAX
        &&& self.total_funded <= ledger_sum(self.ledger)
        &&& self.total_funded > 0 ==> self.token is Some
    }

    /// The state of a project that was just set up.
    pub open spec fn init(data: ProjectData) -> ProjectState {
        ProjectState { data, token: None, ledger: Map::empty(), total_funded: 0 }
    }

    /// What `funder` has contributed: zero for an unknown funder.
    pub open spec fn contribution(self, funder: Address) -> int {
        contribution_in(self.ledger, funder)
    }

    /// What the ledger records beyond the amount in custody: the sum of
    /// what has been paid out.
    pub open spec fn released(self) -> int {
        ledger_sum(self.ledger) - self.total_funded
    }

    /// Whether the ledger and the amount in custody agree.
    pub open spec fn balanced(self) -> bool {
        self.total_funded == ledger_sum(self.ledger)
    }

    /// Whether `now` is in the funding phase. After the deadline comes the
    /// settlement phase.
    pub open spec fn funding_at(self, now: u64) -> bool {
        now <= self.data.deadline
    }

    /// What `set_token` answers.
    pub open spec fn set_token_result(self, caller: Address) -> Result<(), Error> {
        if caller != self.data.creator {
            Err(Error::NotAuthorized)
        } else {
            Ok(())
        }
    }

    /// The state that `set_token` leaves.
    pub open spec fn after_set_token(self, caller: Address, token: Address) -> ProjectState {
        if self.set_token_result(caller) is Ok {
            ProjectState { token: Some(token), ..self }
        } else {
            self
        }
    }

    /// What `fund` answers.
    pub open spec fn fund_result(self, caller: Address, from: Address, amount: i128, now: u64)
        -> Result<Transfer, Error> {
        if caller != from {
            Err(Error::NotAuthorized)
        } else if !self.funding_at(now) {
            Err(Error::DeadlineReached)
        } else {
            Ok(Transfer::Deposit { token: self.token->Some_0, from, amount })
        }
    }

    /// Whether `fund` can take the call: where the call gets as far as the
    /// transfer, an asset has been named, the amount is not negative, and
    /// neither the funder's entry nor the amount in custody leaves the
    /// range of the amounts.
    pub open spec fn admits_fund(self, caller: Address, from: Address, amount: i128, now: u64)
        -> bool {
        self.fund_result(caller, from, amount, now) is Ok ==> {
            &&& self.token is Some
            &&& amount >= 0
            &&& self.contribution(from) + amount <= i128::MAX
            &&& self.total_funded + amount <= i128::MAX
        }
    }

    /// The state that `fund` leaves.
    pub open spec fn after_fund(self, caller: Address, from: Address, amount: i128, now: u64)
        -> ProjectState {
        if self.fund_result(caller, from, amount, now) is Ok {
            ProjectState {
                ledger: credited(self.ledger, from, amount as int),
                total_funded: self.total_funded + amount,
                ..self
            }
        } else {
            self
        }
    }

    /// What `withdraw` answers.
    pub open spec fn withdraw_result(self, caller: Address, now: u64) -> Result<
        Option<Transfer>,
        Error,
    > {
        if caller != self.data.creator {
            Err(Error::NotAuthorized)
        } else if self.funding_at(now) {
            Err(Error::DeadlineNotReached)
        } else if self.total_funded > 0 {
            Ok(
                Some(
                    Transfer::Payout {
                        token: self.token->Some_0,
                        to: self.data.creator,
                        amount: self.total_funded as i128,
                    },
                ),
            )
        } else {
            Ok(None)
        }
    }

    /// The state that `withdraw` leaves.
    pub open spec fn after_withdraw(self, caller: Address, now: u64) -> ProjectState {
        if self.withdraw_result(caller, now) is Ok {
            ProjectState { total_funded: 0, ..self }
        } else {
            self
        }
    }
}

/// A project instance.
pub struct CrowdfundingProject {
    data: ProjectData,
    token: Option<Address>,
    ledger: Ledger,
    total_funded: i128,
}

impl View for CrowdfundingProject {
    type V = ProjectState;

    closed spec fn view(&self) -> ProjectState {
        ProjectState {
            data: self.data,
            token: self.token,
            ledger: self.ledger@,
            total_funded: self.total_funded as int,
        }
    }
}

impl CrowdfundingProject {
    /// The project's invariant.
    pub closed spec fn wf(&self) -> bool {
        &&& self.ledger.wf()
        &&& self@.wf()
    }

    /// The invariant of the instance is that of its state.
    pub proof fn lemma_wf(&self)
        requires
            self.wf(),
        ensures
            self@.wf(),
    {
    }

    /// Sets a project up: stores the campaign's data, with an empty ledger,
    /// nothing in custody and no asset named. Of `deadline` the low 64 bits
    /// are kept.
    pub fn init(
        title: String,
        description: String,
        image_url: String,
        creator: Address,
        deadline: i128,
    ) -> (project: CrowdfundingProject)
        ensures
            project.wf(),
            project@ == ProjectState::init(
                ProjectData { title, description, image_url, creator, deadline: deadline as u64 },
            ),
            0 <= deadline <= u64::MAX ==> project@.data.deadline == deadline,
    {
        let data = ProjectData { title, description, image_url, creator, deadline: deadline as u64 };
        CrowdfundingProject { data, token: None, ledger: Ledger::new(), total_funded: 0 }
    }

    /// The project that holds the given parts, as they were read from
    /// storage. There is none if a funder occurs twice, an amount is
    /// negative, the amount in custody is negative or above the sum of the
    /// contributions, or something is in custody though no asset is named.
    pub fn from_parts(
        data: ProjectData,
        token: Option<Address>,
        contributions: Vec<Contribution>,
        total_funded: i128,
    ) -> (project: Option<CrowdfundingProject>)
        ensures
            project is Some <==> {
                &&& distinct_funders(contributions@)
                &&& no_negative_amount(contributions@)
                &&& 0 <= total_funded <= ledger_sum(entries_map(contributions@))
                &&& total_funded > 0 ==> token is Some
            },
            project matches Some(p) ==> p.wf() && p@ == (ProjectState {
                data,
                token,
                ledger: entries_map(contributions@),
                total_funded: total_funded as int,
            }),
    {
        if total_funded < 0 {
            return None;
        }
        if total_funded > 0 && token.is_none() {
            return None;
        }
        match Ledger::from_entries(contributions) {
            None => None,
            Some(ledger) => {
                if !ledger.covers(total_funded) {
                    return None;
                }
                proof {
                    ledger.lemma_wf();
                }
                Some(CrowdfundingProject { data, token, ledger, total_funded })
            },
        }
    }

    /// Names the asset in which contributions are taken. Only the creator
    /// may; the asset may be named anew at any time.
    pub fn set_token(&mut self, caller: &Address, token_id: Address) -> (result: Result<(), Error>)
        requires
            old(self).wf(),
        ensures
            final(self).wf(),
            result == old(self)@.set_token_result(*caller),
            final(self)@ == old(self)@.after_set_token(*caller, token_id),
    {
        if *caller != self.data.creator {
            return Err(Error::NotAuthorized);
        }
        self.token = Some(token_id);
        Ok(())
    }

    /// Whether `fund` can take the call, that is whether the call meets
    /// what `fund` requires.
    pub fn can_fund(&self, caller: &Address, from: &Address, amount: i128, now: u64) -> (admitted:
        bool)
        requires
            self.wf(),
        ensures
            admitted == self@.admits_fund(*caller, *from, amount, now),
    {
        if *caller != *from || now > self.data.deadline {
            return true;
        }
        if self.token.is_none() || amount < 0 {
            return false;
        }
        let contributed = self.ledger.get(from);
        amount <= i128::MAX - contributed && amount <= i128::MAX - self.total_funded
    }

    /// Takes a contribution of `amount` from `from`, who must be the
    /// caller, if `now` is not after the deadline. The ledger and the
    /// amount in custody are raised by `amount`, and the deposit to carry
    /// out is returned. A refused call changes nothing.
    pub fn fund(&mut self, caller: &Address, from: Address, amount: i128, now: u64) -> (result:
        Result<Transfer, Error>)
        requires
            old(self).wf(),
            old(self)@.admits_fund(*caller, from, amount, now),
        ensures
            final(self).wf(),
            result == old(self)@.fund_result(*caller, from, amount, now),
            final(self)@ == old(self)@.after_fund(*caller, from, amount, now),
    {
        if *caller != from {
            return Err(Error::NotAuthorized);
        }
        if now > self.data.deadline {
            return Err(Error::DeadlineReached);
        }
        let token = self.token.unwrap();
        proof {
            self.ledger.lemma_wf();
            lemma_sum_credited(self.ledger@, from, amount as int);
        }
        self.ledger.credit(from, amount);
        self.total_funded = self.total_funded + amount;
        Ok(Transfer::Deposit { token, from, amount })
    }

    /// Releases everything in custody to the creator, who must be the
    /// caller, if `now` is after the deadline. The amount in custody falls
    /// to zero, the ledger stays, and the payout to carry out is returned:
    /// none where nothing was in custody. A refused call changes nothing.
    pub fn withdraw(&mut self, caller: &Address, now: u64) -> (result: Result<
        Option<Transfer>,
        Error,
    >)
        requires
            old(self).wf(),
        ensures
            final(self).wf(),
            result == old(self)@.withdraw_result(*caller, now),
            final(self)@ == old(self)@.after_withdraw(*caller, now),
    {
        if *caller != self.data.creator {
            return Err(Error::NotAuthorized);
        }
        if now <= self.data.deadline {
            return Err(Error::DeadlineNotReached);
        }
        if self.total_funded > 0 {
            let payout = Transfer::Payout {
                token: self.token.unwrap(),
                to: self.data.creator,
                amount: self.total_funded,
            };
            self.total_funded = 0;
            Ok(Some(payout))
        } else {
            Ok(None)
        }
    }

    /// The campaign's data.
    pub fn get_project_data(&self) -> (data: ProjectData)
        ensures
            data == self@.data,
    {
        self.data.clone()
    }

    /// The amount in custody.
    pub fn get_total_funded(&self) -> (total: i128)
        ensures
            total == self@.total_funded,
    {
        self.total_funded
    }

    /// What `funder` has contributed so far: zero for an unknown funder.
    pub fn get_contribution(&self, funder: &Address) -> (amount: i128)
        requires
            self.wf(),
        ensures
            amount == self@.contribution(*funder),
    {
        self.ledger.get(funder)
    }

    /// The whole ledger: one entry for each funder.
    pub fn get_all_contributions(&self) -> (contributions: Vec<Contribution>)
        requires
            self.wf(),
        ensures
            distinct_funders(contributions@),
            no_negative_amount(contributions@),
            entries_map(contributions@) == self@.ledger,
    {
        self.ledger.entries()
    }

    /// The asset in which contributions are taken, if one was named.
    pub fn get_token(&self) -> (token: Option<Address>)
        ensures
            token == self@.token,
    {
        self.token
    }
}

} // verus!
