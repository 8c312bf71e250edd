//! The contribution ledger: for each funder the cumulative amount
//! contributed. Entries are never removed and amounts never decrease.

use crate::address::Address;
use vstd::prelude::*;

verus! {

/// The sum of all amounts recorded in a finite ledger.
pub open spec fn ledger_sum(ledger: Map<Address, int>) -> int
    decreases ledger.dom().len(),
    when ledger.dom().finite()
{
    if ledger.dom().is_empty() {
        0
    } else {
        let funder = ledger.dom().choose();
        ledger[funder] + ledger_sum(ledger.remove(funder))
    }
}

/// What `funder` has contributed according to `ledger`: zero for a funder
/// without an entry.
pub open spec fn contribution_in(ledger: Map<Address, int>, funder: Address) -> int {
    if ledger.contains_key(funder) {
        ledger[funder]
    } else {
        0
    }
}

/// `ledger` after `funder` has contributed `amount` more.
pub open spec fn credited(ledger: Map<Address, int>, funder: Address, amount: int) -> Map<
    Address,
    int,
> {
    ledger.insert(funder, contribution_in(ledger, funder) + amount)
}

/// Any entry can be split off the sum, not only the one that the
/// definition happens to pick.
pub proof fn lemma_sum_remove(ledger: Map<Address, int>, funder: Address)
    requires
        ledger.dom().finite(),
        ledger.contains_key(funder),
    ensures
        ledger_sum(ledger) == ledger[funder] + ledger_sum(ledger.remove(funder)),
    decreases ledger.dom().len(),
{
    let picked = ledger.dom().choose();
    if picked != funder {
        lemma_sum_remove(ledger.remove(picked), funder);
        lemma_sum_remove(ledger.remove(funder), picked);
        assert(ledger.remove(picked).remove(funder) =~= ledger.remove(funder).remove(picked));
    }
}

/// Writing an entry changes the sum by the difference between the new
/// amount and what the funder had before.
pub proof fn lemma_sum_insert(ledger: Map<Address, int>, funder: Address, amount: int)
    requires
        ledger.dom().finite(),
    ensures
        ledger_sum(ledger.insert(funder, amount)) == ledger_sum(ledger) - contribution_in(
            ledger,
            funder,
        ) + amount,
{
    let written = ledger.insert(funder, amount);
    lemma_sum_remove(written, funder);
    assert(written.remove(funder) =~= ledger.remove(funder));
    if ledger.contains_key(funder) {
        lemma_sum_remove(ledger, funder);
    } else {
        assert(ledger.remove(funder) =~= ledger);
    }
}

/// A contribution raises the sum by exactly its amount.
pub proof fn lemma_sum_credited(ledger: Map<Address, int>, funder: Address, amount: int)
    requires
        ledger.dom().finite(),
    ensures
        ledger_sum(credited(ledger, funder, amount)) == ledger_sum(ledger) + amount,
{
    lemma_sum_insert(ledger, funder, contribution_in(ledger, funder) + amount);
}

/// A ledger without negative amounts does not sum to a negative amount.
pub proof fn lemma_sum_not_negative(ledger: Map<Address, int>)
    requires
        ledger.dom().finite(),
        forall|funder: Address| ledger.contains_key(funder) ==> ledger[funder] >= 0,
    ensures
        ledger_sum(ledger) >= 0,
    decreases ledger.dom().len(),
{
    if !ledger.dom().is_empty() {
        lemma_sum_not_negative(ledger.remove(ledger.dom().choose()));
    }
}

/// One entry of the ledger.
#[derive(Clone, Copy, Debug, PartialEq, Eq)]
pub struct Contribution {
    pub funder: Address,
    pub amount: i128,
}

/// The ledger that a list of entries stands for. Where a funder occurs
/// twice the later entry counts.
pub open spec fn entries_map(entries: Seq<Contribution>) -> Map<Address, int>
    decreases entries.len(),
{
    if entries.len() == 0 {
        Map::empty()
    } else {
        entries_map(entries.drop_last()).insert(
            entries.last().funder,
            entries.last().amount as int,
        )
    }
}

/// No funder has two entries.
pub open spec fn distinct_funders(entries: Seq<Contribution>) -> bool {
    forall|i: int, j: int|
        0 <= i < j < entries.len() ==> entries[i].funder != entries[j].funder
}

/// No entry holds a negative amount.
pub open spec fn no_negative_amount(entries: Seq<Contribution>) -> bool {
    forall|i: int| 0 <= i < entries.len() ==> entries[i].amount >= 0
}

/// The amounts of a list of entries, added up in order.
pub open spec fn entries_sum(entries: Seq<Contribution>) -> int
    decreases entries.len(),
{
    if entries.len() == 0 {
        0
    } else {
        entries_sum(entries.drop_last()) + entries.last().amount
    }
}

/// The ledger of a list has exactly the list's funders as keys.
pub proof fn lemma_entries_map_keys(entries: Seq<Contribution>)
    ensures
        entries_map(entries).dom().finite(),
        forall|funder: Address|
            entries_map(entries).contains_key(funder) <==> exists|i: int|
                0 <= i < entries.len() && entries[i].funder == funder,
    decreases entries.len(),
{
    if entries.len() > 0 {
        let front = entries.drop_last();
        lemma_entries_map_keys(front);
        assert forall|funder: Address|
            entries_map(entries).contains_key(funder) <==> exists|i: int|
                0 <= i < entries.len() && entries[i].funder == funder by {
            if entries_map(entries).contains_key(funder) {
                if funder == entries.last().funder {
                    assert(entries[entries.len() - 1].funder == funder);
                } else {
                    assert(entries_map(front).contains_key(funder));
                    let i = choose|i: int| 0 <= i < front.len() && front[i].funder == funder;
                    assert(entries[i].funder == funder);
                }
            }
            if exists|i: int| 0 <= i < entries.len() && entries[i].funder == funder {
                let i = choose|i: int| 0 <= i < entries.len() && entries[i].funder == funder;
                if i < front.len() {
                    assert(front[i].funder == funder);
                }
            }
        }
    }
}

/// With distinct funders, each entry's amount is what the ledger holds for
/// its funder.
pub proof fn lemma_entries_map_lookup(entries: Seq<Contribution>, i: int)
    requires
        distinct_funders(entries),
        0 <= i < entries.len(),
    ensures
        entries_map(entries).contains_key(entries[i].funder),
        entries_map(entries)[entries[i].funder] == entries[i].amount,
    decreases entries.len(),
{
    let front = entries.drop_last();
    if i < entries.len() - 1 {
        assert(distinct_funders(front)) by {
            assert forall|a: int, b: int| 0 <= a < b < front.len() implies front[a].funder
                != front[b].funder by {
                assert(entries[a].funder != entries[b].funder);
            }
        }
        lemma_entries_map_lookup(front, i);
        assert(front[i] == entries[i]);
        assert(entries[i].funder != entries[entries.len() - 1].funder);
    }
}

/// Appending an entry writes it into the ledger.
pub proof fn lemma_entries_map_push(entries: Seq<Contribution>, entry: Contribution)
    ensures
        entries_map(entries.push(entry)) == entries_map(entries).insert(
            entry.funder,
            entry.amount as int,
        ),
{
    assert(entries.push(entry).drop_last() =~= entries);
}

/// Replacing the entry of a funder, among distinct funders, writes the new
/// amount into the ledger and touches nothing else.
pub proof fn lemma_entries_map_update(entries: Seq<Contribution>, i: int, entry: Contribution)
    requires
        distinct_funders(entries),
        0 <= i < entries.len(),
        entry.funder == entries[i].funder,
    ensures
        entries_map(entries.update(i, entry)) == entries_map(entries).insert(
            entry.funder,
            entry.amount as int,
        ),
        distinct_funders(entries.update(i, entry)),
    decreases entries.len(),
{
    let updated = entries.update(i, entry);
    let front = entries.drop_last();
    let last = entries.last();
    assert(distinct_funders(updated)) by {
        assert forall|a: int, b: int| 0 <= a < b < updated.len() implies updated[a].funder
            != updated[b].funder by {
            assert(entries[a].funder != entries[b].funder);
        }
    }
    if i == entries.len() - 1 {
        assert(updated.drop_last() =~= front);
        assert(entries_map(updated) =~= entries_map(entries).insert(
            entry.funder,
            entry.amount as int,
        ));
    } else {
        assert(distinct_funders(front)) by {
            assert forall|a: int, b: int| 0 <= a < b < front.len() implies front[a].funder
                != front[b].funder by {
                assert(entries[a].funder != entries[b].funder);
            }
        }
        lemma_entries_map_update(front, i, entry);
        assert(updated.drop_last() =~= front.update(i, entry));
        assert(entries[i].funder != entries[entries.len() - 1].funder);
        assert(entries_map(updated) =~= entries_map(entries).insert(
            entry.funder,
            entry.amount as int,
        ));
    }
}

/// With distinct funders, adding up the list gives the sum of its ledger.
pub proof fn lemma_entries_sum(entries: Seq<Contribution>)
    requires
        distinct_funders(entries),
    ensures
        entries_sum(entries) == ledger_sum(entries_map(entries)),
    decreases entries.len(),
{
    if entries.len() > 0 {
        let front = entries.drop_last();
        let last = entries.last();
        assert(distinct_funders(front)) by {
            assert forall|a: int, b: int| 0 <= a < b < front.len() implies front[a].funder
                != front[b].funder by {
                assert(entries[a].funder != entries[b].funder);
            }
        }
        lemma_entries_sum(front);
        lemma_entries_map_keys(front);
        assert(!entries_map(front).contains_key(last.funder)) by {
            if entries_map(front).contains_key(last.funder) {
                let i = choose|i: int| 0 <= i < front.len() && front[i].funder == last.funder;
                assert(entries[i].funder != entries[entries.len() - 1].funder);
            }
        }
        lemma_sum_insert(entries_map(front), last.funder, last.amount as int);
    }
}

/// The contribution ledger of one project.
pub struct Ledger {
    entries: Vec<Contribution>,
}

impl View for Ledger {
    type V = Map<Address, int>;

    closed spec fn view(&self) -> Map<Address, int> {
        entries_map(self.entries@)
    }
}

impl Ledger {
    /// Every funder has one entry, and no amount is negative.
    pub closed spec fn wf(&self) -> bool {
        &&& distinct_funders(self.entries@)
        &&& no_negative_amount(self.entries@)
    }

    /// A well-formed ledger is finite, and each amount in it is in the
    /// range of the amounts and not negative.
    pub proof fn lemma_wf(&self)
        requires
            self.wf(),
        ensures
            self@.dom().finite(),
            forall|funder: Address|
                self@.contains_key(funder) ==> 0 <= #[trigger] self@[funder] <= i128::MAX,
    {
        lemma_entries_map_keys(self.entries@);
        assert forall|funder: Address| self@.contains_key(funder) implies 0 <= #[trigger] self@[funder]
            <= i128::MAX by {
            let i = choose|i: int| 0 <= i < self.entries@.len() && self.entries@[i].funder == funder;
            lemma_entries_map_lookup(self.entries@, i);
        }
    }

    /// The ledger without any entry.
    pub fn new() -> (ledger: Ledger)
        ensures
            ledger.wf(),
            ledger@ == Map::<Address, int>::empty(),
    {
        Ledger { entries: Vec::new() }
    }

    /// Where `funder`'s entry stands, if there is one.
    fn position(&self, funder: &Address) -> (found: Option<usize>)
        ensures
            match found {
                Some(i) => i < self.entries@.len() && self.entries@[i as int].funder == *funder,
                None => forall|j: int|
                    0 <= j < self.entries@.len() ==> self.entries@[j].funder != *funder,
            },
    {
        let mut i: usize = 0;
        while i < self.entries.len()
            invariant
                i <= self.entries@.len(),
                forall|j: int| 0 <= j < i ==> self.entries@[j].funder != *funder,
            decreases self.entries@.len() - i,
        {
            if self.entries[i].funder == *funder {
                return Some(i);
            }
            i += 1;
        }
        None
    }

    /// What `funder` has contributed so far: zero for an unknown funder.
    pub fn get(&self, funder: &Address) -> (amount: i128)
        requires
            self.wf(),
        ensures
            amount == contribution_in(self@, *funder),
            amount >= 0,
    {
        proof {
            lemma_entries_map_keys(self.entries@);
        }
        match self.position(funder) {
            Some(i) => {
                proof {
                    lemma_entries_map_lookup(self.entries@, i as int);
                }
                self.entries[i].amount
            },
            None => 0,
        }
    }

    /// Adds `amount` to what `funder` has contributed, starting from zero
    /// for a funder without an entry.
    pub fn credit(&mut self, funder: Address, amount: i128)
        requires
            old(self).wf(),
            amount >= 0,
            contribution_in(old(self)@, funder) + amount <= i128::MAX,
        ensures
            final(self).wf(),
            final(self)@ == credited(old(self)@, funder, amount as int),
    {
        proof {
            lemma_entries_map_keys(self.entries@);
        }
        match self.position(&funder) {
            Some(i) => {
                proof {
                    lemma_entries_map_lookup(self.entries@, i as int);
                }
                let entry = Contribution { funder, amount: self.entries[i].amount + amount };
                proof {
                    lemma_entries_map_update(self.entries@, i as int, entry);
                }
                self.entries.set(i, entry);
            },
            None => {
                let entry = Contribution { funder, amount };
                proof {
                    lemma_entries_map_push(self.entries@, entry);
                }
                self.entries.push(entry);
            },
        }
    }

    /// The entries of the ledger, one for each funder, in the order in
    /// which the funders first contributed.
    pub fn entries(&self) -> (entries: Vec<Contribution>)
        requires
            self.wf(),
        ensures
            entries_map(entries@) == self@,
            distinct_funders(entries@),
            no_negative_amount(entries@),
    {
        self.entries.clone()
    }

    /// The ledger that `entries` stands for, unless a funder occurs twice
    /// or an amount is negative.
    pub fn from_entries(entries: Vec<Contribution>) -> (ledger: Option<Ledger>)
        ensures
            ledger is Some <==> distinct_funders(entries@) && no_negative_amount(entries@),
            ledger matches Some(l) ==> l.wf() && l@ == entries_map(entries@),
    {
        let mut i: usize = 0;
        while i < entries.len()
            invariant
                i <= entries@.len(),
                forall|a: int, b: int| 0 <= a < b < i ==> entries@[a].funder != entries@[b].funder,
                forall|a: int| 0 <= a < i ==> entries@[a].amount >= 0,
            decreases entries@.len() - i,
        {
            if entries[i].amount < 0 {
                return None;
            }
            let mut j: usize = 0;
            while j < i
                invariant
                    j <= i < entries@.len(),
                    forall|a: int| 0 <= a < j ==> entries@[a].funder != entries@[i as int].funder,
                decreases i - j,
            {
                if entries[j].funder == entries[i].funder {
                    return None;
                }
                j += 1;
            }
            i += 1;
        }
        Some(Ledger { entries })
    }

    /// Whether the amounts of the ledger add up to at least `total`.
    pub fn covers(&self, total: i128) -> (covered: bool)
        requires
            self.wf(),
        ensures
            covered == (total <= ledger_sum(self@)),
    {
        proof {
            lemma_entries_sum(self.entries@);
            assert(self.entries@.take(0) =~= Seq::<Contribution>::empty());
        }
        if total <= 0 {
            proof {
                self.lemma_wf();
                lemma_sum_not_negative(self@);
            }
            return true;
        }
        let mut missing: i128 = total;
        let mut i: usize = 0;
        while i < self.entries.len()
            invariant
                i <= self.entries@.len(),
                no_negative_amount(self.entries@),
                entries_sum(self.entries@) == ledger_sum(self@),
                0 < missing,
                missing == total - entries_sum(self.entries@.take(i as int)),
            decreases self.entries@.len() - i,
        {
            let amount = self.entries[i].amount;
            proof {
                lemma_entries_sum_take(self.entries@, i as int);
            }
            if amount >= missing {
                proof {
                    lemma_entries_sum_grows(self.entries@, i as int + 1);
                }
                return true;
            }
            missing = missing - amount;
            i += 1;
        }
        proof {
            assert(self.entries@.take(i as int) =~= self.entries@);
        }
        false
    }
}

/// Taking one entry more adds its amount.
pub proof fn lemma_entries_sum_take(entries: Seq<Contribution>, i: int)
    requires
        0 <= i < entries.len(),
    ensures
        entries_sum(entries.take(i + 1)) == entries_sum(entries.take(i)) + entries[i].amount,
{
    assert(entries.take(i + 1).drop_last() =~= entries.take(i));
}

/// Without negative amounts the sum of a prefix is at most the sum of the
/// whole list.
pub proof fn lemma_entries_sum_grows(entries: Seq<Contribution>, i: int)
    requires
        0 <= i <= entries.len(),
        no_negative_amount(entries),
    ensures
        entries_sum(entries.take(i)) <= entries_sum(entries),
    decreases entries.len() - i,
{
    if i < entries.len() {
        lemma_entries_sum_take(entries, i);
        lemma_entries_sum_grows(entries, i + 1);
    } else {
        assert(entries.take(i) =~= entries);
    }
}

} // verus!
