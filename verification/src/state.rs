use vstd::prelude::*;

verus! {

/// The singleton configuration record: the minimum deposit fee, the account
/// authorized to reconfigure and withdraw, and the account that performed
/// initialization (retained for audit only).
#[derive(Clone, Debug, PartialEq, Eq)]
pub struct Config {
    pub fee: u128,
    pub owner: String,
    pub deployer: String,
}

/// The externally visible part of the configuration: the deployer is
/// intentionally not exposed.
#[derive(Clone, Debug, PartialEq, Eq)]
pub struct ConfigResponse {
    pub fee: u128,
    pub owner: String,
}

/// One stake record: the latest accepted deposit amount of one account.
#[derive(Clone, Debug, PartialEq, Eq)]
pub struct StakeEntry {
    pub account: String,
    pub amount: u128,
}

/// The amount recorded for `who` in `s`: the first entry whose account
/// matches, or `None` if no entry matches.
pub open spec fn lookup_stake(s: Seq<StakeEntry>, who: Seq<char>) -> Option<u128>
    decreases s.len(),
{
    if s.len() == 0 {
        None
    } else if s[0].account@ == who {
        Some(s[0].amount)
    } else {
        lookup_stake(s.skip(1), who)
    }
}

/// No two entries record the same account.
pub open spec fn distinct_accounts(s: Seq<StakeEntry>) -> bool {
    forall|i: int, j: int|
        0 <= i < j < s.len() ==> (#[trigger] s[i]).account@ != (#[trigger] s[j]).account@
}

/// The whole persistent state of the ledger: the configuration singleton,
/// the contract identity tag written at initialization, and the stake
/// records.
pub struct Ledger {
    pub config: Config,
    pub contract_name: String,
    pub stakes: Vec<StakeEntry>,
}

impl Ledger {
    /// The configured minimum deposit fee.
    pub open spec fn spec_fee(&self) -> u128 {
        self.config.fee
    }

    /// The account currently authorized for owner-gated operations.
    pub open spec fn spec_owner(&self) -> Seq<char> {
        self.config.owner@
    }

    /// The account that performed initialization.
    pub open spec fn spec_deployer(&self) -> Seq<char> {
        self.config.deployer@
    }

    /// The persisted contract identity tag.
    pub open spec fn spec_name(&self) -> Seq<char> {
        self.contract_name@
    }

    /// Whether `who` is the current owner: the authorization guard consulted
    /// by every owner-gated operation.
    pub open spec fn is_owner(&self, who: Seq<char>) -> bool {
        self.spec_owner() == who
    }

    /// The recorded stake of `who`, if any.
    pub open spec fn stake_of(&self, who: Seq<char>) -> Option<u128> {
        lookup_stake(self.stakes@, who)
    }

    /// Well-formedness: at most one stake record per account.
    pub open spec fn wf(&self) -> bool {
        distinct_accounts(self.stakes@)
    }

    /// Overwrites (never accumulates) the stake record of `account` with
    /// `amount`, creating the record on the account's first stake. All other
    /// records and the configuration are unchanged.
    pub fn save_stake(&mut self, account: String, amount: u128)
        ensures
            final(self).stake_of(account@) == Some(amount),
            forall|w: Seq<char>|
                w != account@ ==> final(self).stake_of(w) == old(self).stake_of(w),
            old(self).wf() ==> final(self).wf(),
            final(self).config == old(self).config,
            final(self).contract_name == old(self).contract_name,
    {
        let n: usize = self.stakes.len();
        let mut idx: usize = 0;
        while idx < n
            invariant
                n == self.stakes@.len(),
                idx <= n,
                forall|j: int| 0 <= j < idx ==> (#[trigger] self.stakes@[j]).account@ != account@,
                self.stakes@ == old(self).stakes@,
                self.config == old(self).config,
                self.contract_name == old(self).contract_name,
            decreases n - idx,
        {
            if self.stakes[idx].account == account {
                let ghost s0 = self.stakes@;
                let ghost i = idx as int;
                self.stakes[idx] = StakeEntry { account, amount };
                proof {
                    let s1 = self.stakes@;
                    assert(s1 == s0.update(i, StakeEntry { account: s1[i].account, amount }));
                    assert forall|j: int| 0 <= j < i implies (#[trigger] s1[j]).account@
                        != account@ by {
                        assert(s1[j] == s0[j]);
                    }
                    lemma_lookup_found(s1, account@, i);
                    assert forall|w: Seq<char>| w != account@ implies lookup_stake(s1, w)
                        == lookup_stake(s0, w) by {
                        lemma_lookup_update_same_account(s0, i, s1[i], w);
                    }
                    if distinct_accounts(s0) {
                        assert forall|a: int, b: int| 0 <= a < b < s1.len() implies (
                        #[trigger] s1[a]).account@ != (#[trigger] s1[b]).account@ by {
                            assert(s1[a].account@ == s0[a].account@);
                            assert(s1[b].account@ == s0[b].account@);
                        }
                    }
                }
                return;
            }
            idx += 1;
        }
        let ghost s0 = self.stakes@;
        proof {
            lemma_lookup_none(s0, account@);
        }
        self.stakes.push(StakeEntry { account, amount });
        proof {
            let s1 = self.stakes@;
            assert(s1 == s0.push(s1.last()));
            lemma_lookup_push(s0, s1.last(), account@);
            assert forall|w: Seq<char>| w != account@ implies lookup_stake(s1, w)
                == lookup_stake(s0, w) by {
                lemma_lookup_push(s0, s1.last(), w);
            }
            if distinct_accounts(s0) {
                assert forall|a: int, b: int| 0 <= a < b < s1.len() implies (
                #[trigger] s1[a]).account@ != (#[trigger] s1[b]).account@ by {
                    if b < s0.len() {
                        assert(s1[a] == s0[a] && s1[b] == s0[b]);
                    } else {
                        assert(s1[a] == s0[a]);
                    }
                }
            }
        }
    }
}

/// An account that matches no entry has no recorded stake.
pub proof fn lemma_lookup_none(s: Seq<StakeEntry>, who: Seq<char>)
    requires
        forall|i: int| 0 <= i < s.len() ==> (#[trigger] s[i]).account@ != who,
    ensures
        lookup_stake(s, who) is None,
    decreases s.len(),
{
    if s.len() > 0 {
        assert(s[0].account@ != who);
        assert forall|i: int| 0 <= i < s.skip(1).len() implies (#[trigger] s.skip(1)[i]).account@
            != who by {
            assert(s.skip(1)[i] == s[i + 1]);
        }
        lemma_lookup_none(s.skip(1), who);
    }
}

/// If entry `i` is the first whose account matches `who`, the recorded stake
/// is that entry's amount.
pub proof fn lemma_lookup_found(s: Seq<StakeEntry>, who: Seq<char>, i: int)
    requires
        0 <= i < s.len(),
        s[i].account@ == who,
        forall|j: int| 0 <= j < i ==> (#[trigger] s[j]).account@ != who,
    ensures
        lookup_stake(s, who) == Some(s[i].amount),
    decreases i,
{
    if i > 0 {
        assert(s[0].account@ != who);
        assert forall|j: int| 0 <= j < i - 1 implies (#[trigger] s.skip(1)[j]).account@
            != who by {
            assert(s.skip(1)[j] == s[j + 1]);
        }
        assert(s.skip(1)[i - 1] == s[i]);
        lemma_lookup_found(s.skip(1), who, i - 1);
    }
}

/// Replacing entry `i` with one that records the same account leaves the
/// stake of every other account unchanged.
pub proof fn lemma_lookup_update_same_account(s: Seq<StakeEntry>, i: int, e: StakeEntry, who: Seq<char>)
    requires
        0 <= i < s.len(),
        e.account@ == s[i].account@,
        who != s[i].account@,
    ensures
        lookup_stake(s.update(i, e), who) == lookup_stake(s, who),
    decreases s.len(),
{
    let t = s.update(i, e);
    if i == 0 {
        assert(t[0] == e);
        assert(t.skip(1) =~= s.skip(1));
    } else {
        assert(t[0] == s[0]);
        if s[0].account@ != who {
            assert(t.skip(1) =~= s.skip(1).update(i - 1, e));
            assert(s.skip(1)[i - 1] == s[i]);
            lemma_lookup_update_same_account(s.skip(1), i - 1, e, who);
        }
    }
}

/// Appending an entry changes only the stake of an account with no earlier
/// record, which afterwards records the appended amount.
pub proof fn lemma_lookup_push(s: Seq<StakeEntry>, e: StakeEntry, who: Seq<char>)
    ensures
        lookup_stake(s.push(e), who) == if lookup_stake(s, who) is Some {
            lookup_stake(s, who)
        } else if e.account@ == who {
            Some(e.amount)
        } else {
            None::<u128>
        },
    decreases s.len(),
{
    let t = s.push(e);
    if s.len() == 0 {
        assert(t[0] == e);
        assert(lookup_stake(s, who) is None);
        if e.account@ != who {
            assert(t.skip(1) =~= Seq::<StakeEntry>::empty());
            assert(lookup_stake(t.skip(1), who) is None);
        } else {
            assert(lookup_stake(t, who) == Some(e.amount));
        }
    } else {
        assert(t[0] == s[0]);
        if s[0].account@ != who {
            assert(t.skip(1) =~= s.skip(1).push(e));
            lemma_lookup_push(s.skip(1), e, who);
        }
    }
}

} // verus!
