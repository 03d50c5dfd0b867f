use vstd::prelude::*;
use crate::address::{addr_eq, Address};
use crate::error::ErrorCode;

verus! {

/// One native-currency account: an identity and its balance, in the
/// currency's smallest unit.
pub struct BankEntry {
    pub owner: Address,
    pub lamports: u64,
}

impl View for BankEntry {
    type V = (Seq<u8>, u64);

    open spec fn view(&self) -> (Seq<u8>, u64) {
        (self.owner@, self.lamports)
    }
}

/// The native-currency ledger: the balances of every account the engine
/// touches. Stands for the external native-transfer collaborator.
pub struct Bank {
    pub accounts: Vec<BankEntry>,
}

impl View for Bank {
    type V = Seq<(Seq<u8>, u64)>;

    open spec fn view(&self) -> Seq<(Seq<u8>, u64)> {
        self.accounts@.map(|i: int, e: BankEntry| e@)
    }
}

/// The balance of `a` in the ledger `s`: the balance of the first entry
/// owned by `a`, or zero when no entry exists.
pub open spec fn sbal(s: Seq<(Seq<u8>, u64)>, a: Seq<u8>) -> u64
    decreases s.len(),
{
    if s.len() == 0 {
        0u64
    } else if s[0].0 == a {
        s[0].1
    } else {
        sbal(s.drop_first(), a)
    }
}

/// No two ledger entries share an owner.
pub open spec fn bank_keys_distinct(s: Seq<(Seq<u8>, u64)>) -> bool {
    forall|i: int, j: int| 0 <= i < j < s.len() ==> s[i].0 != s[j].0
}

/// The total currency in the ledger: the sum of every balance.
pub open spec fn bank_total(s: Seq<(Seq<u8>, u64)>) -> int
    decreases s.len(),
{
    if s.len() == 0 {
        0
    } else {
        s[0].1 + bank_total(s.drop_first())
    }
}

proof fn lemma_total_update(s: Seq<(Seq<u8>, u64)>, i: int, v: u64)
    requires
        0 <= i < s.len(),
    ensures
        bank_total(s.update(i, (s[i].0, v))) == bank_total(s) - s[i].1 + v,
    decreases i,
{
    let t = s.update(i, (s[i].0, v));
    if i == 0 {
        assert(t.drop_first() =~= s.drop_first());
    } else {
        assert(t[0] == s[0]);
        assert(t.drop_first() =~= s.drop_first().update(i - 1, (s[i].0, v)));
        assert(s.drop_first()[i - 1] == s[i]);
        lemma_total_update(s.drop_first(), i - 1, v);
    }
}

proof fn lemma_total_push(s: Seq<(Seq<u8>, u64)>, a: Seq<u8>, v: u64)
    ensures
        bank_total(s.push((a, v))) == bank_total(s) + v,
    decreases s.len(),
{
    let t = s.push((a, v));
    if s.len() == 0 {
        assert(t[0] == (a, v));
        assert(t.drop_first() =~= Seq::<(Seq<u8>, u64)>::empty());
        assert(bank_total(t.drop_first()) == 0);
        assert(bank_total(t) == v + 0);
        assert(bank_total(s) == 0);
    } else {
        assert(t[0] == s[0]);
        assert(t.drop_first() =~= s.drop_first().push((a, v)));
        lemma_total_push(s.drop_first(), a, v);
        assert(bank_total(t) == t[0].1 + bank_total(t.drop_first()));
        assert(bank_total(s) == s[0].1 + bank_total(s.drop_first()));
    }
}

proof fn lemma_sbal_skip(s: Seq<(Seq<u8>, u64)>, a: Seq<u8>, i: int)
    requires
        0 <= i <= s.len(),
        forall|j: int| 0 <= j < i ==> s[j].0 != a,
    ensures
        sbal(s.skip(i), a) == sbal(s, a),
    decreases i,
{
    if i > 0 {
        assert(forall|j: int| 0 <= j < i - 1 ==> s.drop_first()[j].0 != a);
        lemma_sbal_skip(s.drop_first(), a, i - 1);
        assert(s.drop_first().skip(i - 1) =~= s.skip(i));
    } else {
        assert(s.skip(0) =~= s);
    }
}

proof fn lemma_sbal_update(s: Seq<(Seq<u8>, u64)>, i: int, v: u64, x: Seq<u8>)
    requires
        0 <= i < s.len(),
        bank_keys_distinct(s),
    ensures
        sbal(s.update(i, (s[i].0, v)), x) == if x == s[i].0 {
            v
        } else {
            sbal(s, x)
        },
    decreases i,
{
    let t = s.update(i, (s[i].0, v));
    if i == 0 {
        assert(t.drop_first() =~= s.drop_first());
    } else {
        assert(t[0] == s[0]);
        assert(t.drop_first() =~= s.drop_first().update(i - 1, (s[i].0, v)));
        assert(bank_keys_distinct(s.drop_first())) by {
            assert(forall|p: int, q: int|
                0 <= p < q < s.drop_first().len() ==> s.drop_first()[p].0 != s.drop_first()[q].0);
        }
        assert(s.drop_first()[i - 1] == s[i]);
        lemma_sbal_update(s.drop_first(), i - 1, v, x);
    }
}

proof fn lemma_sbal_push(s: Seq<(Seq<u8>, u64)>, a: Seq<u8>, v: u64, x: Seq<u8>)
    requires
        forall|j: int| 0 <= j < s.len() ==> s[j].0 != a,
    ensures
        sbal(s.push((a, v)), x) == if x == a {
            v
        } else {
            sbal(s, x)
        },
    decreases s.len(),
{
    let t = s.push((a, v));
    if s.len() == 0 {
        assert(t[0] == (a, v));
        assert(t.drop_first() =~= Seq::<(Seq<u8>, u64)>::empty());
        if x == a {
            assert(sbal(t, x) == v);
        } else {
            assert(sbal(t, x) == sbal(t.drop_first(), x));
            assert(sbal(t, x) == 0);
        }
    } else {
        assert(t[0] == s[0]);
        assert(t.drop_first() =~= s.drop_first().push((a, v)));
        assert(forall|j: int| 0 <= j < s.drop_first().len() ==> s.drop_first()[j].0 != a);
        lemma_sbal_push(s.drop_first(), a, v, x);
        assert(s[0].0 != a);
        if x == s[0].0 {
            assert(sbal(t, x) == s[0].1);
            assert(sbal(s, x) == s[0].1);
        } else {
            assert(sbal(t, x) == sbal(t.drop_first(), x));
            assert(sbal(s, x) == sbal(s.drop_first(), x));
        }
    }
}

impl Bank {
    /// Well-formed: one entry per owner.
    pub open spec fn wf(&self) -> bool {
        bank_keys_distinct(self@)
    }

    /// An empty ledger: every balance is zero.
    pub fn empty() -> (r: Bank)
        ensures
            r.wf(),
            forall|x: Seq<u8>| sbal(r@, x) == 0,
    {
        Bank { accounts: Vec::new() }
    }

    fn index_of(&self, a: &Address) -> (r: Option<usize>)
        ensures
            match r {
                Some(i) => {
                    &&& i < self@.len()
                    &&& self@[i as int].0 == a@
                    &&& forall|j: int| 0 <= j < i ==> self@[j].0 != a@
                },
                None => forall|j: int| 0 <= j < self@.len() ==> self@[j].0 != a@,
            },
    {
        let n = self.accounts.len();
        let mut i: usize = 0;
        while i < n
            invariant
                n == self.accounts.len(),
                i <= n,
                forall|j: int| 0 <= j < i ==> self@[j].0 != a@,
            decreases n - i,
        {
            if addr_eq(&self.accounts[i].owner, a) {
                return Some(i);
            }
            i += 1;
        }
        None
    }

    /// The balance of `a`, zero when `a` holds no account.
    pub fn balance_of(&self, a: &Address) -> (r: u64)
        ensures
            r == sbal(self@, a@),
    {
        match self.index_of(a) {
            Some(i) => {
                proof {
                    lemma_sbal_skip(self@, a@, i as int);
                    assert(self@.skip(i as int)[0] == self@[i as int]);
                }
                self.accounts[i].lamports
            },
            None => {
                proof {
                    lemma_sbal_skip(self@, a@, self@.len() as int);
                    assert(self@.skip(self@.len() as int) =~= Seq::<(Seq<u8>, u64)>::empty());
                }
                0
            },
        }
    }

    /// Sets the balance of `a`, leaving every other balance unchanged.
    pub fn set_balance(&mut self, a: &Address, v: u64)
        requires
            old(self).wf(),
        ensures
            final(self).wf(),
            forall|x: Seq<u8>|
                sbal(final(self)@, x) == if x == a@ {
                    v
                } else {
                    sbal(old(self)@, x)
                },
            bank_total(final(self)@) == bank_total(old(self)@) - sbal(old(self)@, a@) + v,
    {
        let ghost s0 = self@;
        match self.index_of(a) {
            Some(i) => {
                let mut e = self.accounts.remove(i);
                e.lamports = v;
                self.accounts.insert(i, e);
                proof {
                    assert(self@ =~= s0.update(i as int, (a@, v)));
                    assert(s0[i as int].0 == a@);
                    lemma_sbal_skip(s0, a@, i as int);
                    assert(s0.skip(i as int)[0] == s0[i as int]);
                    assert(sbal(s0, a@) == s0[i as int].1);
                    lemma_total_update(s0, i as int, v);
                    assert forall|x: Seq<u8>|
                        sbal(self@, x) == if x == a@ {
                            v
                        } else {
                            sbal(s0, x)
                        } by {
                        lemma_sbal_update(s0, i as int, v, x);
                    }
                }
            },
            None => {
                self.accounts.push(BankEntry { owner: a.duplicate(), lamports: v });
                proof {
                    assert(self@ =~= s0.push((a@, v)));
                    lemma_sbal_skip(s0, a@, s0.len() as int);
                    assert(s0.skip(s0.len() as int) =~= Seq::<(Seq<u8>, u64)>::empty());
                    assert(sbal(s0, a@) == 0);
                    lemma_total_push(s0, a@, v);
                    assert forall|x: Seq<u8>|
                        sbal(self@, x) == if x == a@ {
                            v
                        } else {
                            sbal(s0, x)
                        } by {
                        lemma_sbal_push(s0, a@, v, x);
                    }
                }
            },
        }
    }

    /// Moves `amount` from `from` to `to`, atomically: on any failure the
    /// ledger is unchanged. Fails with `InsufficientFunds` when `from`'s
    /// balance is below `amount`, and with `ArithmeticOverflow` when the
    /// credit would push `to`'s balance past `u64::MAX`. The total currency
    /// in the ledger never changes: none is created or destroyed.
    pub fn transfer(&mut self, from: &Address, to: &Address, amount: u64) -> (r: Result<
        (),
        ErrorCode,
    >)
        requires
            old(self).wf(),
        ensures
            final(self).wf(),
            bank_total(final(self)@) == bank_total(old(self)@),
            match r {
                Ok(()) => {
                    &&& sbal(old(self)@, from@) >= amount
                    &&& from@ != to@ ==> sbal(old(self)@, to@) + amount <= u64::MAX
                    &&& forall|x: Seq<u8>|
                        sbal(final(self)@, x) == if x == from@ && x == to@ {
                            sbal(old(self)@, x)
                        } else if x == from@ {
                            (sbal(old(self)@, x) - amount) as u64
                        } else if x == to@ {
                            (sbal(old(self)@, x) + amount) as u64
                        } else {
                            sbal(old(self)@, x)
                        }
                },
                Err(e) => {
                    &&& final(self)@ == old(self)@
                    &&& if sbal(old(self)@, from@) < amount {
                        e == ErrorCode::InsufficientFunds
                    } else {
                        e == ErrorCode::ArithmeticOverflow && from@ != to@ && sbal(old(self)@, to@)
                            + amount > u64::MAX
                    }
                },
            },
    {
        let bal_from = self.balance_of(from);
        if bal_from < amount {
            return Err(ErrorCode::InsufficientFunds);
        }
        if addr_eq(from, to) {
            return Ok(());
        }
        let bal_to = self.balance_of(to);
        match bal_to.checked_add(amount) {
            Some(credited) => {
                self.set_balance(from, bal_from - amount);
                self.set_balance(to, credited);
                Ok(())
            },
            None => Err(ErrorCode::ArithmeticOverflow),
        }
    }
}

} // verus!
