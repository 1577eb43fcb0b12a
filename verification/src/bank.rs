//! A model of the external collaborators' observable state: native-value
//! balances and token-ledger balances. The core's handlers only decide which
//! calls to make; this model gives those calls exact semantics — a transfer
//! moves the amount or fails, a mint adds the amount or fails — so that whole
//! instructions can be run and checked end to end.

use vstd::prelude::*;

use crate::effects::{MintToCall, TransferCall};
use crate::errors::CharityError;
use crate::keys::Pubkey;

verus! {

/// One account's native-value balance.
#[derive(Clone, Copy, Debug)]
pub struct LamportAccount {
    pub key: Pubkey,
    pub lamports: u64,
}

/// Mathematical view of [`LamportAccount`].
#[verifier::ext_equal]
pub struct LamportAccountV {
    pub key: Seq<u8>,
    pub lamports: u64,
}

impl View for LamportAccount {
    type V = LamportAccountV;

    open spec fn view(&self) -> LamportAccountV {
        LamportAccountV { key: self.key@, lamports: self.lamports }
    }
}

/// One token account's balance under a mint.
#[derive(Clone, Copy, Debug)]
pub struct TokenBalance {
    pub mint: Pubkey,
    pub account: Pubkey,
    pub amount: u64,
}

/// Mathematical view of [`TokenBalance`].
#[verifier::ext_equal]
pub struct TokenBalanceV {
    pub mint: Seq<u8>,
    pub account: Seq<u8>,
    pub amount: u64,
}

impl View for TokenBalance {
    type V = TokenBalanceV;

    open spec fn view(&self) -> TokenBalanceV {
        TokenBalanceV { mint: self.mint@, account: self.account@, amount: self.amount }
    }
}

/// Whether the ledger holds an entry for the key.
pub open spec fn has_lamport_entry(s: Seq<LamportAccountV>, key: Seq<u8>) -> bool {
    exists|i: int| 0 <= i < s.len() && s[i].key == key
}

/// The native-value balance of a key; an absent account holds nothing.
pub open spec fn lamports_of(s: Seq<LamportAccountV>, key: Seq<u8>) -> u64 {
    if has_lamport_entry(s, key) {
        s[choose|i: int| 0 <= i < s.len() && s[i].key == key].lamports
    } else {
        0
    }
}

/// Whether the token ledger holds an entry for the (mint, account) pair.
pub open spec fn has_token_entry(s: Seq<TokenBalanceV>, mint: Seq<u8>, account: Seq<u8>) -> bool {
    exists|i: int| 0 <= i < s.len() && s[i].mint == mint && s[i].account == account
}

/// The token balance of an account under a mint; an absent account holds
/// nothing.
pub open spec fn token_balance_of(s: Seq<TokenBalanceV>, mint: Seq<u8>, account: Seq<u8>) -> u64 {
    if has_token_entry(s, mint, account) {
        s[choose|i: int| 0 <= i < s.len() && s[i].mint == mint && s[i].account == account].amount
    } else {
        0
    }
}

/// At most one entry per key.
pub open spec fn distinct_lamport_keys(s: Seq<LamportAccountV>) -> bool {
    forall|i: int, j: int| 0 <= i < j < s.len() ==> s[i].key != s[j].key
}

/// At most one entry per (mint, account) pair.
pub open spec fn distinct_token_keys(s: Seq<TokenBalanceV>) -> bool {
    forall|i: int, j: int|
        0 <= i < j < s.len() ==> !(s[i].mint == s[j].mint && s[i].account == s[j].account)
}

/// The collaborators' observable state: every balance either ledger holds.
pub struct Bank {
    pub lamports: Vec<LamportAccount>,
    pub tokens: Vec<TokenBalance>,
}

/// Mathematical view of [`Bank`].
#[verifier::ext_equal]
pub struct BankV {
    pub lamports: Seq<LamportAccountV>,
    pub tokens: Seq<TokenBalanceV>,
}

impl View for Bank {
    type V = BankV;

    open spec fn view(&self) -> BankV {
        BankV {
            lamports: self.lamports@.map_values(|a: LamportAccount| a@),
            tokens: self.tokens@.map_values(|t: TokenBalance| t@),
        }
    }
}

impl Bank {
    /// Each account has one entry.
    pub open spec fn wf(&self) -> bool {
        distinct_lamport_keys(self@.lamports) && distinct_token_keys(self@.tokens)
    }

    /// An empty ledger: every balance is zero.
    pub fn new() -> (r: Bank)
        ensures
            r.wf(),
            forall|k: Seq<u8>| lamports_of(r@.lamports, k) == 0u64,
            forall|m: Seq<u8>, a: Seq<u8>| token_balance_of(r@.tokens, m, a) == 0u64,
    {
        let r = Bank { lamports: Vec::new(), tokens: Vec::new() };
        proof {
            assert(r@.lamports =~= Seq::<LamportAccountV>::empty());
            assert(r@.tokens =~= Seq::<TokenBalanceV>::empty());
        }
        r
    }

    fn find_lamport_index(&self, key: &Pubkey) -> (r: Option<usize>)
        ensures
            match r {
                Some(i) => i < self@.lamports.len() && self@.lamports[i as int].key == key@,
                None => !has_lamport_entry(self@.lamports, key@),
            },
    {
        let mut i: usize = 0;
        while i < self.lamports.len()
            invariant
                i <= self.lamports.len(),
                self@.lamports.len() == self.lamports.len(),
                forall|j: int| 0 <= j < i ==> self@.lamports[j].key != key@,
            decreases self.lamports.len() - i,
        {
            assert(self@.lamports[i as int] == self.lamports@[i as int]@);
            if self.lamports[i].key.equals(key) {
                return Some(i);
            }
            i = i + 1;
        }
        None
    }

    fn find_token_index(&self, mint: &Pubkey, account: &Pubkey) -> (r: Option<usize>)
        ensures
            match r {
                Some(i) => i < self@.tokens.len() && self@.tokens[i as int].mint == mint@
                    && self@.tokens[i as int].account == account@,
                None => !has_token_entry(self@.tokens, mint@, account@),
            },
    {
        let mut i: usize = 0;
        while i < self.tokens.len()
            invariant
                i <= self.tokens.len(),
                self@.tokens.len() == self.tokens.len(),
                forall|j: int|
                    0 <= j < i ==> !(self@.tokens[j].mint == mint@ && self@.tokens[j].account
                        == account@),
            decreases self.tokens.len() - i,
        {
            assert(self@.tokens[i as int] == self.tokens@[i as int]@);
            if self.tokens[i].mint.equals(mint) && self.tokens[i].account.equals(account) {
                return Some(i);
            }
            i = i + 1;
        }
        None
    }

    /// The native-value balance held by a key.
    pub fn lamports_balance(&self, key: &Pubkey) -> (r: u64)
        requires
            self.wf(),
        ensures
            r == lamports_of(self@.lamports, key@),
    {
        match self.find_lamport_index(key) {
            Some(i) => {
                proof {
                    let s = self@.lamports;
                    let k = choose|k: int| 0 <= k < s.len() && s[k].key == key@;
                    assert(s[i as int].key == key@);
                    assert(k == i as int);
                    assert(self@.lamports[i as int] == self.lamports@[i as int]@);
                }
                self.lamports[i].lamports
            },
            None => 0,
        }
    }

    /// The token balance an account holds under a mint.
    pub fn token_balance(&self, mint: &Pubkey, account: &Pubkey) -> (r: u64)
        requires
            self.wf(),
        ensures
            r == token_balance_of(self@.tokens, mint@, account@),
    {
        match self.find_token_index(mint, account) {
            Some(i) => {
                proof {
                    let s = self@.tokens;
                    let k = choose|k: int|
                        0 <= k < s.len() && s[k].mint == mint@ && s[k].account == account@;
                    assert(s[i as int].mint == mint@ && s[i as int].account == account@);
                    assert(k == i as int);
                    assert(self@.tokens[i as int] == self.tokens@[i as int]@);
                }
                self.tokens[i].amount
            },
            None => 0,
        }
    }

    /// Writes one key's native-value balance, creating the entry if absent.
    pub fn set_lamports(&mut self, key: &Pubkey, value: u64)
        requires
            old(self).wf(),
        ensures
            final(self).wf(),
            final(self)@.tokens == old(self)@.tokens,
            forall|k: Seq<u8>|
                lamports_of(final(self)@.lamports, k) == if k == key@ {
                    value
                } else {
                    lamports_of(old(self)@.lamports, k)
                },
    {
        let ghost pre = self@.lamports;
        match self.find_lamport_index(key) {
            Some(i) => {
                self.lamports[i].lamports = value;
                proof {
                    let s = self@.lamports;
                    assert forall|j: int| 0 <= j < s.len() implies s[j] == if j == i as int {
                        (LamportAccountV { key: key@, lamports: value })
                    } else {
                        pre[j]
                    } by {
                        assert(s[j] == self.lamports@[j]@);
                    }
                    lemma_lamports_pointwise(pre, s, i as int, key@, value);
                }
            },
            None => {
                self.lamports.push(LamportAccount { key: *key, lamports: value });
                proof {
                    let s = self@.lamports;
                    assert forall|j: int| 0 <= j < s.len() implies s[j] == if j == pre.len() {
                        (LamportAccountV { key: key@, lamports: value })
                    } else {
                        pre[j]
                    } by {
                        assert(s[j] == self.lamports@[j]@);
                    }
                    lemma_lamports_pushed(pre, s, key@, value);
                }
            },
        }
    }

    /// Writes one token account's balance under a mint, creating the entry if
    /// absent.
    pub fn set_token_balance(&mut self, mint: &Pubkey, account: &Pubkey, value: u64)
        requires
            old(self).wf(),
        ensures
            final(self).wf(),
            final(self)@.lamports == old(self)@.lamports,
            forall|m: Seq<u8>, a: Seq<u8>|
                token_balance_of(final(self)@.tokens, m, a) == if m == mint@ && a == account@ {
                    value
                } else {
                    token_balance_of(old(self)@.tokens, m, a)
                },
    {
        let ghost pre = self@.tokens;
        match self.find_token_index(mint, account) {
            Some(i) => {
                self.tokens[i].amount = value;
                proof {
                    let s = self@.tokens;
                    assert forall|j: int| 0 <= j < s.len() implies s[j] == if j == i as int {
                        (TokenBalanceV { mint: mint@, account: account@, amount: value })
                    } else {
                        pre[j]
                    } by {
                        assert(s[j] == self.tokens@[j]@);
                    }
                    lemma_tokens_pointwise(pre, s, i as int, mint@, account@, value);
                }
            },
            None => {
                self.tokens.push(TokenBalance { mint: *mint, account: *account, amount: value });
                proof {
                    let s = self@.tokens;
                    assert forall|j: int| 0 <= j < s.len() implies s[j] == if j == pre.len() {
                        (TokenBalanceV { mint: mint@, account: account@, amount: value })
                    } else {
                        pre[j]
                    } by {
                        assert(s[j] == self.tokens@[j]@);
                    }
                    lemma_tokens_pushed(pre, s, mint@, account@, value);
                }
            },
        }
    }

    /// Performs a decided transfer: moves the amount from payer to payee, or
    /// fails — leaving every balance unchanged — when the payer's balance is
    /// short or the payee's balance cannot take the amount.
    pub fn transfer(&mut self, call: &TransferCall) -> (r: Result<(), CharityError>)
        requires
            old(self).wf(),
        ensures
            final(self).wf(),
            r == if transfer_fails(old(self)@, call@.from, call@.to, call.lamports) {
                Err::<(), CharityError>(CharityError::TransferFailed)
            } else {
                Ok::<(), CharityError>(())
            },
            r is Err ==> final(self)@ == old(self)@,
            r is Ok ==> final(self)@.tokens == old(self)@.tokens && forall|k: Seq<u8>|
                lamports_of(final(self)@.lamports, k) == spec_transfer(
                    old(self)@,
                    call@.from,
                    call@.to,
                    call.lamports,
                    k,
                ),
    {
        let from_balance = self.lamports_balance(&call.from);
        if from_balance < call.lamports {
            return Err(CharityError::TransferFailed);
        }
        if call.from.equals(&call.to) {
            return Ok(());
        }
        let to_balance = self.lamports_balance(&call.to);
        if to_balance > u64::MAX - call.lamports {
            return Err(CharityError::TransferFailed);
        }
        self.set_lamports(&call.from, from_balance - call.lamports);
        self.set_lamports(&call.to, to_balance + call.lamports);
        Ok(())
    }

    /// Performs a decided mint: adds the amount to the target token account,
    /// or fails — leaving every balance unchanged — when that account's
    /// balance cannot take the amount.
    pub fn mint_to(&mut self, call: &MintToCall) -> (r: Result<(), CharityError>)
        requires
            old(self).wf(),
        ensures
            final(self).wf(),
            r == if mint_fails(old(self)@, call@.mint, call@.to, call.amount) {
                Err::<(), CharityError>(CharityError::RewardMintFailed)
            } else {
                Ok::<(), CharityError>(())
            },
            r is Err ==> final(self)@ == old(self)@,
            r is Ok ==> final(self)@.lamports == old(self)@.lamports && forall|
                m: Seq<u8>,
                a: Seq<u8>,
            |
                token_balance_of(final(self)@.tokens, m, a) == if m == call@.mint && a
                    == call@.to {
                    (token_balance_of(old(self)@.tokens, m, a) + call.amount) as u64
                } else {
                    token_balance_of(old(self)@.tokens, m, a)
                },
    {
        let balance = self.token_balance(&call.mint, &call.to);
        if balance > u64::MAX - call.amount {
            return Err(CharityError::RewardMintFailed);
        }
        self.set_token_balance(&call.mint, &call.to, balance + call.amount);
        Ok(())
    }
}

/// When a transfer must fail: the payer's balance is short, or the payee's
/// balance cannot take the amount.
pub open spec fn transfer_fails(bank: BankV, from: Seq<u8>, to: Seq<u8>, amount: u64) -> bool {
    ||| lamports_of(bank.lamports, from) < amount
    ||| (from != to && lamports_of(bank.lamports, to) + amount > u64::MAX)
}

/// Each balance after a successful transfer.
pub open spec fn spec_transfer(
    bank: BankV,
    from: Seq<u8>,
    to: Seq<u8>,
    amount: u64,
    k: Seq<u8>,
) -> u64 {
    if from == to {
        lamports_of(bank.lamports, k)
    } else if k == from {
        (lamports_of(bank.lamports, from) - amount) as u64
    } else if k == to {
        (lamports_of(bank.lamports, to) + amount) as u64
    } else {
        lamports_of(bank.lamports, k)
    }
}

/// When a mint must fail: the target balance cannot take the amount.
pub open spec fn mint_fails(bank: BankV, mint: Seq<u8>, to: Seq<u8>, amount: u64) -> bool {
    token_balance_of(bank.tokens, mint, to) + amount > u64::MAX
}

proof fn lemma_lamports_pointwise(
    pre: Seq<LamportAccountV>,
    post: Seq<LamportAccountV>,
    i: int,
    key: Seq<u8>,
    value: u64,
)
    requires
        distinct_lamport_keys(pre),
        0 <= i < pre.len(),
        pre[i].key == key,
        post.len() == pre.len(),
        forall|j: int|
            0 <= j < post.len() ==> post[j] == if j == i {
                (LamportAccountV { key, lamports: value })
            } else {
                pre[j]
            },
    ensures
        distinct_lamport_keys(post),
        forall|k: Seq<u8>|
            lamports_of(post, k) == if k == key {
                value
            } else {
                lamports_of(pre, k)
            },
{
    assert forall|j: int| 0 <= j < post.len() implies post[j].key == pre[j].key by {}
    assert forall|k: Seq<u8>|
        lamports_of(post, k) == if k == key {
            value
        } else {
            lamports_of(pre, k)
        } by {
        if k == key {
            assert(post[i].key == k);
            let j = choose|j: int| 0 <= j < post.len() && post[j].key == k;
            assert(j == i);
        } else {
            if has_lamport_entry(pre, k) {
                let j = choose|j: int| 0 <= j < pre.len() && pre[j].key == k;
                assert(post[j].key == k);
                let j2 = choose|j2: int| 0 <= j2 < post.len() && post[j2].key == k;
                assert(pre[j2].key == k);
                assert(j2 == j);
            } else {
                assert(!has_lamport_entry(post, k));
            }
        }
    }
}

proof fn lemma_lamports_pushed(
    pre: Seq<LamportAccountV>,
    post: Seq<LamportAccountV>,
    key: Seq<u8>,
    value: u64,
)
    requires
        distinct_lamport_keys(pre),
        !has_lamport_entry(pre, key),
        post.len() == pre.len() + 1,
        forall|j: int|
            0 <= j < post.len() ==> post[j] == if j == pre.len() {
                (LamportAccountV { key, lamports: value })
            } else {
                pre[j]
            },
    ensures
        distinct_lamport_keys(post),
        forall|k: Seq<u8>|
            lamports_of(post, k) == if k == key {
                value
            } else {
                lamports_of(pre, k)
            },
{
    assert forall|k: Seq<u8>|
        lamports_of(post, k) == if k == key {
            value
        } else {
            lamports_of(pre, k)
        } by {
        if k == key {
            assert(post[pre.len() as int].key == k);
            let j = choose|j: int| 0 <= j < post.len() && post[j].key == k;
            assert(j == pre.len());
        } else {
            if has_lamport_entry(pre, k) {
                let j = choose|j: int| 0 <= j < pre.len() && pre[j].key == k;
                assert(post[j].key == k);
                let j2 = choose|j2: int| 0 <= j2 < post.len() && post[j2].key == k;
                assert(j2 < pre.len() && pre[j2].key == k);
                assert(j2 == j);
            } else {
                assert(!has_lamport_entry(post, k));
            }
        }
    }
}

proof fn lemma_tokens_pointwise(
    pre: Seq<TokenBalanceV>,
    post: Seq<TokenBalanceV>,
    i: int,
    mint: Seq<u8>,
    account: Seq<u8>,
    value: u64,
)
    requires
        distinct_token_keys(pre),
        0 <= i < pre.len(),
        pre[i].mint == mint,
        pre[i].account == account,
        post.len() == pre.len(),
        forall|j: int|
            0 <= j < post.len() ==> post[j] == if j == i {
                (TokenBalanceV { mint, account, amount: value })
            } else {
                pre[j]
            },
    ensures
        distinct_token_keys(post),
        forall|m: Seq<u8>, a: Seq<u8>|
            token_balance_of(post, m, a) == if m == mint && a == account {
                value
            } else {
                token_balance_of(pre, m, a)
            },
{
    assert forall|j: int| 0 <= j < post.len() implies post[j].mint == pre[j].mint
        && post[j].account == pre[j].account by {}
    assert forall|m: Seq<u8>, a: Seq<u8>|
        token_balance_of(post, m, a) == if m == mint && a == account {
            value
        } else {
            token_balance_of(pre, m, a)
        } by {
        if m == mint && a == account {
            assert(post[i].mint == m && post[i].account == a);
            let j = choose|j: int| 0 <= j < post.len() && post[j].mint == m && post[j].account == a;
            assert(j == i);
        } else {
            if has_token_entry(pre, m, a) {
                let j = choose|j: int| 0 <= j < pre.len() && pre[j].mint == m && pre[j].account == a;
                assert(post[j].mint == m && post[j].account == a);
                let j2 = choose|j2: int|
                    0 <= j2 < post.len() && post[j2].mint == m && post[j2].account == a;
                assert(pre[j2].mint == m && pre[j2].account == a);
                assert(j2 == j);
            } else {
                assert(!has_token_entry(post, m, a));
            }
        }
    }
}

proof fn lemma_tokens_pushed(
    pre: Seq<TokenBalanceV>,
    post: Seq<TokenBalanceV>,
    mint: Seq<u8>,
    account: Seq<u8>,
    value: u64,
)
    requires
        distinct_token_keys(pre),
        !has_token_entry(pre, mint, account),
        post.len() == pre.len() + 1,
        forall|j: int|
            0 <= j < post.len() ==> post[j] == if j == pre.len() {
                (TokenBalanceV { mint, account, amount: value })
            } else {
                pre[j]
            },
    ensures
        distinct_token_keys(post),
        forall|m: Seq<u8>, a: Seq<u8>|
            token_balance_of(post, m, a) == if m == mint && a == account {
                value
            } else {
                token_balance_of(pre, m, a)
            },
{
    assert forall|m: Seq<u8>, a: Seq<u8>|
        token_balance_of(post, m, a) == if m == mint && a == account {
            value
        } else {
            token_balance_of(pre, m, a)
        } by {
        if m == mint && a == account {
            assert(post[pre.len() as int].mint == m && post[pre.len() as int].account == a);
            let j = choose|j: int| 0 <= j < post.len() && post[j].mint == m && post[j].account == a;
            assert(j == pre.len());
        } else {
            if has_token_entry(pre, m, a) {
                let j = choose|j: int| 0 <= j < pre.len() && pre[j].mint == m && pre[j].account == a;
                assert(post[j].mint == m && post[j].account == a);
                let j2 = choose|j2: int|
                    0 <= j2 < post.len() && post[j2].mint == m && post[j2].account == a;
                assert(j2 < pre.len() && pre[j2].mint == m && pre[j2].account == a);
                assert(j2 == j);
            } else {
                assert(!has_token_entry(post, m, a));
            }
        }
    }
}

} // verus!
