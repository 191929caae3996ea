//! Per-user multi-instrument spot sub-ledger.
//!
//! A spot account holds a bounded table of per-instrument balances — each
//! slot an instrument identifier with an available and a locked amount —
//! plus a strictly increasing settlement-sequence watermark that rejects
//! replayed or out-of-order settlement messages. A slot is allocated on an
//! instrument's first touch and never reclaimed; once every slot is
//! assigned, new instruments are rejected.
//!
//! Trade settlement comes in two variants: the basic, single-account form
//! draws the paid leg from the locked bucket only, while the
//! relayer-driven form draws from the available bucket first and falls
//! back to locked, and carries a fee on the quote leg.

use vstd::prelude::*;
use vstd::pervasive::VecAdditionalExecFns;

use crate::addr::Address;
use crate::error::VaultError;
use crate::utils::checked_add;

verus! {

/// Fixed capacity of the per-instrument balance table.
pub const MAX_TOKEN_SLOTS: usize = 16;

/// Size in bytes of one persisted balance slot.
pub const TOKEN_BALANCE_SIZE: usize = 32;

/// Size in bytes of the persisted spot account record.
pub const SPOT_USER_ACCOUNT_SIZE: usize = 8 + 32 + 1 + 8 + 2 + (16 * 32) + 8 + 64;

/// Record-type tag of the spot account record.
pub const SPOT_USER_ACCOUNT_DISCRIMINATOR: u64 = 0x53504F545F555352;

/// One instrument's balances inside a spot account.
#[derive(Clone, Copy, Debug, PartialEq, Eq, Structural)]
pub struct TokenBalance {
    /// Instrument identifier, assigned by the external instrument registry.
    pub token_index: u16,
    /// Freely usable amount, in e6 units.
    pub available_e6: i64,
    /// Amount locked behind resting orders, in e6 units.
    pub locked_e6: i64,
}

impl TokenBalance {
    /// Whether the slot is indistinguishable from a never-touched one.
    pub fn is_empty(&self) -> (r: bool)
        ensures
            r == (self.token_index == 0 && self.available_e6 == 0 && self.locked_e6 == 0),
    {
        self.token_index == 0 && self.available_e6 == 0 && self.locked_e6 == 0
    }

    /// Total balance of the instrument: available plus locked.
    pub fn total(&self) -> (r: i64)
        requires
            i64::MIN <= self.available_e6 + self.locked_e6 <= i64::MAX,
        ensures
            r == self.available_e6 + self.locked_e6,
    {
        self.available_e6 + self.locked_e6
    }
}

/// Mathematical model of a spot account: its scalar fields plus the balance
/// table as a sequence.
#[verifier::ext_equal]
pub struct SpotView {
    pub discriminator: u64,
    pub wallet: Address,
    pub bump: u8,
    pub last_settled_sequence: u64,
    pub balances: Seq<TokenBalance>,
    pub last_update_ts: i64,
}

/// Occupied slots carry pairwise distinct instrument identifiers.
pub open spec fn tokens_unique(s: Seq<TokenBalance>) -> bool {
    forall|i: int, j: int|
        #![trigger s[i], s[j]]
        0 <= i < s.len() && 0 <= j < s.len() && i != j ==> s[i].token_index != s[j].token_index
}

/// Whether some slot holds the instrument.
pub open spec fn has_token(s: Seq<TokenBalance>, idx: u16) -> bool {
    exists|i: int| #![trigger s[i]] 0 <= i < s.len() && s[i].token_index == idx
}

/// The slot index of the instrument; meaningful when `has_token` holds and
/// the identifiers are unique.
pub open spec fn token_slot(s: Seq<TokenBalance>, idx: u16) -> int {
    choose|i: int| #![trigger s[i]] 0 <= i < s.len() && s[i].token_index == idx
}

/// With unique identifiers, any slot holding the instrument is the slot
/// `token_slot` names.
pub proof fn lemma_token_slot(s: Seq<TokenBalance>, idx: u16, i: int)
    requires
        tokens_unique(s),
        0 <= i < s.len(),
        s[i].token_index == idx,
    ensures
        has_token(s, idx),
        token_slot(s, idx) == i,
{
    assert(has_token(s, idx));
    let k = token_slot(s, idx);
    assert(0 <= k < s.len() && s[k].token_index == idx);
    if k != i {
        assert(s[i].token_index != s[k].token_index);
    }
}

/// Credits `amount` to the instrument's available bucket, allocating a
/// fresh slot on first touch; rejects a full table.
pub open spec fn credit_spec(s: Seq<TokenBalance>, idx: u16, amount: int) -> Result<
    Seq<TokenBalance>,
    VaultError,
> {
    if has_token(s, idx) {
        let k = token_slot(s, idx);
        if s[k].available_e6 + amount > i64::MAX {
            Err(VaultError::Overflow)
        } else {
            Ok(
                s.update(
                    k,
                    TokenBalance { available_e6: (s[k].available_e6 + amount) as i64, ..s[k] },
                ),
            )
        }
    } else if s.len() >= MAX_TOKEN_SLOTS {
        Err(VaultError::TokenSlotsFull)
    } else {
        Ok(s.push(TokenBalance { token_index: idx, available_e6: amount as i64, locked_e6: 0 }))
    }
}

/// Debits `amount` from the instrument's locked bucket.
pub open spec fn debit_locked_spec(s: Seq<TokenBalance>, idx: u16, amount: int) -> Result<
    Seq<TokenBalance>,
    VaultError,
> {
    if !has_token(s, idx) {
        Err(VaultError::InvalidAccount)
    } else {
        let k = token_slot(s, idx);
        if s[k].locked_e6 < amount {
            Err(VaultError::InsufficientMargin)
        } else {
            Ok(s.update(k, TokenBalance { locked_e6: (s[k].locked_e6 - amount) as i64, ..s[k] }))
        }
    }
}

/// Debits `need` from the instrument, drawing the available bucket first
/// and falling back to the locked bucket for the remainder.
pub open spec fn debit_avail_then_locked_spec(s: Seq<TokenBalance>, idx: u16, need: int) -> Result<
    Seq<TokenBalance>,
    VaultError,
> {
    if !has_token(s, idx) {
        Err(VaultError::InvalidAccount)
    } else {
        let k = token_slot(s, idx);
        if s[k].available_e6 >= need {
            Ok(
                s.update(
                    k,
                    TokenBalance { available_e6: (s[k].available_e6 - need) as i64, ..s[k] },
                ),
            )
        } else if s[k].available_e6 + s[k].locked_e6 >= need {
            Ok(
                s.update(
                    k,
                    TokenBalance {
                        available_e6: 0,
                        locked_e6: (s[k].locked_e6 - (need - s[k].available_e6)) as i64,
                        ..s[k]
                    },
                ),
            )
        } else {
            Err(VaultError::InsufficientBalance)
        }
    }
}

/// Transition of a spot deposit into one instrument's available bucket.
pub open spec fn spot_deposit_spec(v: SpotView, idx: u16, amount: i64, now: i64) -> Result<
    SpotView,
    VaultError,
> {
    if amount <= 0 {
        Err(VaultError::InvalidAmount)
    } else {
        match credit_spec(v.balances, idx, amount as int) {
            Ok(b) => Ok(SpotView { balances: b, last_update_ts: now, ..v }),
            Err(e) => Err(e),
        }
    }
}

/// Transition of a spot withdrawal from one instrument's available bucket.
pub open spec fn spot_withdraw_spec(v: SpotView, idx: u16, amount: i64, now: i64) -> Result<
    SpotView,
    VaultError,
> {
    if amount <= 0 {
        Err(VaultError::InvalidAmount)
    } else if !has_token(v.balances, idx) {
        Err(VaultError::InvalidAccount)
    } else {
        let k = token_slot(v.balances, idx);
        if v.balances[k].available_e6 < amount {
            Err(VaultError::InsufficientBalance)
        } else {
            Ok(
                SpotView {
                    balances: v.balances.update(
                        k,
                        TokenBalance {
                            available_e6: (v.balances[k].available_e6 - amount) as i64,
                            ..v.balances[k]
                        },
                    ),
                    last_update_ts: now,
                    ..v
                },
            )
        }
    }
}

/// Transition of locking an instrument's funds behind a resting order.
pub open spec fn spot_lock_spec(v: SpotView, idx: u16, amount: i64, now: i64) -> Result<
    SpotView,
    VaultError,
> {
    if amount <= 0 {
        Err(VaultError::InvalidAmount)
    } else if !has_token(v.balances, idx) {
        Err(VaultError::InvalidAccount)
    } else {
        let k = token_slot(v.balances, idx);
        if v.balances[k].available_e6 < amount {
            Err(VaultError::InsufficientBalance)
        } else if v.balances[k].locked_e6 + amount > i64::MAX {
            Err(VaultError::Overflow)
        } else {
            Ok(
                SpotView {
                    balances: v.balances.update(
                        k,
                        TokenBalance {
                            available_e6: (v.balances[k].available_e6 - amount) as i64,
                            locked_e6: (v.balances[k].locked_e6 + amount) as i64,
                            ..v.balances[k]
                        },
                    ),
                    last_update_ts: now,
                    ..v
                },
            )
        }
    }
}

/// Transition of unlocking an instrument's funds when an order is pulled.
pub open spec fn spot_unlock_spec(v: SpotView, idx: u16, amount: i64, now: i64) -> Result<
    SpotView,
    VaultError,
> {
    if amount <= 0 {
        Err(VaultError::InvalidAmount)
    } else if !has_token(v.balances, idx) {
        Err(VaultError::InvalidAccount)
    } else {
        let k = token_slot(v.balances, idx);
        if v.balances[k].locked_e6 < amount {
            Err(VaultError::InsufficientMargin)
        } else if v.balances[k].available_e6 + amount > i64::MAX {
            Err(VaultError::Overflow)
        } else {
            Ok(
                SpotView {
                    balances: v.balances.update(
                        k,
                        TokenBalance {
                            available_e6: (v.balances[k].available_e6 + amount) as i64,
                            locked_e6: (v.balances[k].locked_e6 - amount) as i64,
                            ..v.balances[k]
                        },
                    ),
                    last_update_ts: now,
                    ..v
                },
            )
        }
    }
}

/// Transition of the basic, sequence-gated trade settlement: the paid leg
/// leaves the locked bucket, the received leg lands in the available
/// bucket, and the watermark advances.
pub open spec fn spot_settle_spec(
    v: SpotView,
    is_buy: bool,
    base_idx: u16,
    quote_idx: u16,
    base_amount: i64,
    quote_amount: i64,
    sequence: u64,
    now: i64,
) -> Result<SpotView, VaultError> {
    if sequence <= v.last_settled_sequence {
        Err(VaultError::InvalidSequence)
    } else if base_amount <= 0 || quote_amount <= 0 {
        Err(VaultError::InvalidAmount)
    } else {
        let debit_idx = if is_buy { quote_idx } else { base_idx };
        let debit_amt = if is_buy { quote_amount } else { base_amount };
        let credit_idx = if is_buy { base_idx } else { quote_idx };
        let credit_amt = if is_buy { base_amount } else { quote_amount };
        match debit_locked_spec(v.balances, debit_idx, debit_amt as int) {
            Err(e) => Err(e),
            Ok(b1) => match credit_spec(b1, credit_idx, credit_amt as int) {
                Err(e) => Err(e),
                Ok(b2) => Ok(
                    SpotView {
                        last_settled_sequence: sequence,
                        balances: b2,
                        last_update_ts: now,
                        ..v
                    },
                ),
            },
        }
    }
}

/// Transition of the relayer-driven trade settlement for one account: the
/// paid leg (plus the fee on a buy) draws available funds first and falls
/// back to locked; the received leg (minus the fee on a sell) lands in the
/// available bucket; the watermark advances.
pub open spec fn spot_settle_v2_spec(
    v: SpotView,
    is_buy: bool,
    base_idx: u16,
    quote_idx: u16,
    base_amount: i64,
    quote_amount: i64,
    fee: i64,
    sequence: u64,
    now: i64,
) -> Result<SpotView, VaultError> {
    if sequence <= v.last_settled_sequence {
        Err(VaultError::InvalidSequence)
    } else if base_amount <= 0 || quote_amount <= 0 || fee < 0 {
        Err(VaultError::InvalidAmount)
    } else if is_buy && quote_amount + fee > i64::MAX {
        Err(VaultError::Overflow)
    } else if !is_buy && fee > quote_amount {
        Err(VaultError::InvalidAmount)
    } else {
        let debit_idx = if is_buy { quote_idx } else { base_idx };
        let debit_amt: int = if is_buy { quote_amount + fee } else { base_amount as int };
        let credit_idx = if is_buy { base_idx } else { quote_idx };
        let credit_amt: int = if is_buy { base_amount as int } else { quote_amount - fee };
        match debit_avail_then_locked_spec(v.balances, debit_idx, debit_amt) {
            Err(e) => Err(e),
            Ok(b1) => match credit_spec(b1, credit_idx, credit_amt) {
                Err(e) => Err(e),
                Ok(b2) => Ok(
                    SpotView {
                        last_settled_sequence: sequence,
                        balances: b2,
                        last_update_ts: now,
                        ..v
                    },
                ),
            },
        }
    }
}

/// Per-user spot account: the balance table plus the settlement watermark.
#[derive(Clone, Debug)]
pub struct SpotUserAccount {
    /// Record-type tag.
    pub discriminator: u64,
    /// The owning user identity.
    pub wallet: Address,
    /// Derivation bump of the record's host address.
    pub bump: u8,
    /// Highest settlement sequence applied so far; applied sequences must
    /// strictly increase.
    pub last_settled_sequence: u64,
    /// Occupied per-instrument balance slots, in allocation order.
    pub token_balances: Vec<TokenBalance>,
    /// Timestamp of the last mutation.
    pub last_update_ts: i64,
}

impl View for SpotUserAccount {
    type V = SpotView;

    open spec fn view(&self) -> SpotView {
        SpotView {
            discriminator: self.discriminator,
            wallet: self.wallet,
            bump: self.bump,
            last_settled_sequence: self.last_settled_sequence,
            balances: self.token_balances@,
            last_update_ts: self.last_update_ts,
        }
    }
}

impl SpotUserAccount {
    /// Well-formedness: the table fits its fixed capacity, occupied slots
    /// hold distinct instruments, and no bucket is negative.
    pub open spec fn wf(self) -> bool {
        &&& self.token_balances.len() <= MAX_TOKEN_SLOTS
        &&& tokens_unique(self.token_balances@)
        &&& forall|i: int|
                #![trigger self.token_balances@[i]]
                0 <= i < self.token_balances.len() ==> self.token_balances@[i].available_e6 >= 0
                    && self.token_balances@[i].locked_e6 >= 0
    }

    /// Builds a fresh spot account with no slot occupied.
    pub fn new(wallet: Address, bump: u8, created_at: i64) -> (r: SpotUserAccount)
        ensures
            r.wf(),
            r@ == (SpotView {
                discriminator: SPOT_USER_ACCOUNT_DISCRIMINATOR,
                wallet,
                bump,
                last_settled_sequence: 0,
                balances: Seq::<TokenBalance>::empty(),
                last_update_ts: created_at,
            }),
    {
        let r = SpotUserAccount {
            discriminator: SPOT_USER_ACCOUNT_DISCRIMINATOR,
            wallet,
            bump,
            last_settled_sequence: 0,
            token_balances: Vec::new(),
            last_update_ts: created_at,
        };
        proof {
            assert(r@.balances =~= Seq::<TokenBalance>::empty());
            assert(r@ =~= (SpotView {
                discriminator: SPOT_USER_ACCOUNT_DISCRIMINATOR,
                wallet,
                bump,
                last_settled_sequence: 0,
                balances: Seq::<TokenBalance>::empty(),
                last_update_ts: created_at,
            }));
        }
        r
    }

    /// Finds the slot of an instrument, scanning occupied slots in order.
    pub fn find_token_slot(&self, token_index: u16) -> (r: Option<usize>)
        ensures
            match r {
                Some(i) => i < self.token_balances.len() && self.token_balances@[i as int].token_index
                    == token_index,
                None => !has_token(self.token_balances@, token_index),
            },
    {
        let n = self.token_balances.len();
        let mut i: usize = 0;
        while i < n
            invariant
                n == self.token_balances.len(),
                i <= n,
                forall|j: int|
                    #![trigger self.token_balances@[j]]
                    0 <= j < i ==> self.token_balances@[j].token_index != token_index,
            decreases n - i,
        {
            if self.token_balances[i].token_index == token_index {
                return Some(i);
            }
            i += 1;
        }
        None
    }

    /// Returns the instrument's balances, or `None` when it has no slot.
    pub fn get_token_balance(&self, token_index: u16) -> (r: Option<TokenBalance>)
        requires
            self.wf(),
        ensures
            match r {
                Some(b) => has_token(self.token_balances@, token_index) && b
                    == self.token_balances@[token_slot(self.token_balances@, token_index)],
                None => !has_token(self.token_balances@, token_index),
            },
    {
        match self.find_token_slot(token_index) {
            Some(i) => {
                proof {
                    lemma_token_slot(self.token_balances@, token_index, i as int);
                }
                Some(self.token_balances[i])
            },
            None => None,
        }
    }

    /// Returns the instrument's slot, allocating the next free one on
    /// first touch; `None` once the table is saturated.
    pub fn get_or_create_token_slot(&mut self, token_index: u16) -> (r: Option<usize>)
        requires
            old(self).wf(),
        ensures
            final(self).wf(),
            match r {
                Some(i) => {
                    &&& i < final(self).token_balances.len()
                    &&& final(self).token_balances@[i as int].token_index == token_index
                    &&& {
                        if has_token(old(self).token_balances@, token_index) {
                            *final(self) == *old(self) && i as int == token_slot(
                                old(self).token_balances@,
                                token_index,
                            )
                        } else {
                            final(self).token_balances@ =~= old(self).token_balances@.push(
                                TokenBalance { token_index, available_e6: 0, locked_e6: 0 },
                            ) && i as int == old(self).token_balances@.len()
                                && final(self).last_settled_sequence == old(
                                self,
                            ).last_settled_sequence && final(self).last_update_ts == old(
                                self,
                            ).last_update_ts && final(self).wallet == old(self).wallet
                        }
                    }
                },
                None => *final(self) == *old(self) && !has_token(
                    old(self).token_balances@,
                    token_index,
                ) && old(self).token_balances.len() >= MAX_TOKEN_SLOTS,
            },
    {
        match self.find_token_slot(token_index) {
            Some(i) => {
                proof {
                    lemma_token_slot(self.token_balances@, token_index, i as int);
                }
                Some(i)
            },
            None => {
                if self.token_balances.len() >= MAX_TOKEN_SLOTS {
                    return None;
                }
                let slot = self.token_balances.len();
                self.token_balances.push(
                    TokenBalance { token_index, available_e6: 0, locked_e6: 0 },
                );
                Some(slot)
            },
        }
    }

    /// Copies the record, slot by slot.
    pub(crate) fn duplicate(&self) -> (r: SpotUserAccount)
        ensures
            r@ == self@,
    {
        let n = self.token_balances.len();
        let mut balances: Vec<TokenBalance> = Vec::new();
        let mut i: usize = 0;
        while i < n
            invariant
                n == self.token_balances.len(),
                i <= n,
                balances@ =~= self.token_balances@.subrange(0, i as int),
            decreases n - i,
        {
            balances.push(self.token_balances[i]);
            i += 1;
        }
        let r = SpotUserAccount {
            discriminator: self.discriminator,
            wallet: self.wallet,
            bump: self.bump,
            last_settled_sequence: self.last_settled_sequence,
            token_balances: balances,
            last_update_ts: self.last_update_ts,
        };
        proof {
            assert(r.token_balances@ =~= self.token_balances@);
            assert(r@ =~= self@);
        }
        r
    }

    /// Credits a deposit of one instrument, allocating its slot on first
    /// touch.
    pub fn deposit(&mut self, token_index: u16, amount: i64, current_ts: i64) -> (r: Result<
        (),
        VaultError,
    >)
        requires
            old(self).wf(),
        ensures
            final(self).wf(),
            ({
                let s = spot_deposit_spec(old(self)@, token_index, amount, current_ts);
                match s {
                    Ok(post) => r == Ok::<(), VaultError>(()) && final(self)@ == post,
                    Err(e) => r == Err::<(), VaultError>(e) && *final(self) == *old(self),
                }
            }),
    {
        if amount <= 0 {
            return Err(VaultError::InvalidAmount);
        }
        match self.find_token_slot(token_index) {
            Some(k) => {
                proof {
                    lemma_token_slot(self.token_balances@, token_index, k as int);
                }
                let bal = self.token_balances[k];
                let new_av = match checked_add(bal.available_e6, amount) {
                    Ok(v) => v,
                    Err(e) => {
                        return Err(e);
                    },
                };
                self.token_balances.set(k, TokenBalance { available_e6: new_av, ..bal });
                self.last_update_ts = current_ts;
                proof {
                    let s = spot_deposit_spec(old(self)@, token_index, amount, current_ts);
                    assert(s is Ok);
                    assert(self@ =~= s->Ok_0);
                }
                Ok(())
            },
            None => {
                if self.token_balances.len() >= MAX_TOKEN_SLOTS {
                    return Err(VaultError::TokenSlotsFull);
                }
                self.token_balances.push(
                    TokenBalance { token_index, available_e6: amount, locked_e6: 0 },
                );
                self.last_update_ts = current_ts;
                proof {
                    let s = spot_deposit_spec(old(self)@, token_index, amount, current_ts);
                    assert(s is Ok);
                    assert(self@ =~= s->Ok_0);
                }
                Ok(())
            },
        }
    }

    /// Debits a withdrawal of one instrument from its available bucket.
    pub fn withdraw(&mut self, token_index: u16, amount: i64, current_ts: i64) -> (r: Result<
        (),
        VaultError,
    >)
        requires
            old(self).wf(),
        ensures
            final(self).wf(),
            ({
                let s = spot_withdraw_spec(old(self)@, token_index, amount, current_ts);
                match s {
                    Ok(post) => r == Ok::<(), VaultError>(()) && final(self)@ == post,
                    Err(e) => r == Err::<(), VaultError>(e) && *final(self) == *old(self),
                }
            }),
    {
        if amount <= 0 {
            return Err(VaultError::InvalidAmount);
        }
        let k = match self.find_token_slot(token_index) {
            Some(k) => k,
            None => {
                return Err(VaultError::InvalidAccount);
            },
        };
        proof {
            lemma_token_slot(self.token_balances@, token_index, k as int);
        }
        let bal = self.token_balances[k];
        if bal.available_e6 < amount {
            return Err(VaultError::InsufficientBalance);
        }
        self.token_balances.set(
            k,
            TokenBalance { available_e6: bal.available_e6 - amount, ..bal },
        );
        self.last_update_ts = current_ts;
        proof {
            let s = spot_withdraw_spec(old(self)@, token_index, amount, current_ts);
            assert(s is Ok);
            assert(self@ =~= s->Ok_0);
        }
        Ok(())
    }

    /// Locks funds of one instrument behind a resting order.
    pub fn lock_balance(&mut self, token_index: u16, amount: i64, current_ts: i64) -> (r: Result<
        (),
        VaultError,
    >)
        requires
            old(self).wf(),
        ensures
            final(self).wf(),
            ({
                let s = spot_lock_spec(old(self)@, token_index, amount, current_ts);
                match s {
                    Ok(post) => r == Ok::<(), VaultError>(()) && final(self)@ == post,
                    Err(e) => r == Err::<(), VaultError>(e) && *final(self) == *old(self),
                }
            }),
    {
        if amount <= 0 {
            return Err(VaultError::InvalidAmount);
        }
        let k = match self.find_token_slot(token_index) {
            Some(k) => k,
            None => {
                return Err(VaultError::InvalidAccount);
            },
        };
        proof {
            lemma_token_slot(self.token_balances@, token_index, k as int);
        }
        let bal = self.token_balances[k];
        if bal.available_e6 < amount {
            return Err(VaultError::InsufficientBalance);
        }
        let new_locked = match checked_add(bal.locked_e6, amount) {
            Ok(v) => v,
            Err(e) => {
                return Err(e);
            },
        };
        self.token_balances.set(
            k,
            TokenBalance {
                available_e6: bal.available_e6 - amount,
                locked_e6: new_locked,
                ..bal
            },
        );
        self.last_update_ts = current_ts;
        proof {
            let s = spot_lock_spec(old(self)@, token_index, amount, current_ts);
            assert(s is Ok);
            assert(self@ =~= s->Ok_0);
        }
        Ok(())
    }

    /// Unlocks funds of one instrument when an order is pulled.
    pub fn unlock_balance(&mut self, token_index: u16, amount: i64, current_ts: i64) -> (r: Result<
        (),
        VaultError,
    >)
        requires
            old(self).wf(),
        ensures
            final(self).wf(),
            ({
                let s = spot_unlock_spec(old(self)@, token_index, amount, current_ts);
                match s {
                    Ok(post) => r == Ok::<(), VaultError>(()) && final(self)@ == post,
                    Err(e) => r == Err::<(), VaultError>(e) && *final(self) == *old(self),
                }
            }),
    {
        if amount <= 0 {
            return Err(VaultError::InvalidAmount);
        }
        let k = match self.find_token_slot(token_index) {
            Some(k) => k,
            None => {
                return Err(VaultError::InvalidAccount);
            },
        };
        proof {
            lemma_token_slot(self.token_balances@, token_index, k as int);
        }
        let bal = self.token_balances[k];
        if bal.locked_e6 < amount {
            return Err(VaultError::InsufficientMargin);
        }
        let new_av = match checked_add(bal.available_e6, amount) {
            Ok(v) => v,
            Err(e) => {
                return Err(e);
            },
        };
        self.token_balances.set(
            k,
            TokenBalance { available_e6: new_av, locked_e6: bal.locked_e6 - amount, ..bal },
        );
        self.last_update_ts = current_ts;
        proof {
            let s = spot_unlock_spec(old(self)@, token_index, amount, current_ts);
            assert(s is Ok);
            assert(self@ =~= s->Ok_0);
        }
        Ok(())
    }

    /// Applies a basic, sequence-gated trade settlement: for a buy, the
    /// quote leg leaves the locked bucket and the base leg lands in the
    /// available bucket; for a sell, the mirror. Rejects any sequence that
    /// does not strictly advance the watermark, with no balance touched.
    pub fn settle_trade(
        &mut self,
        is_buy: bool,
        base_token_index: u16,
        quote_token_index: u16,
        base_amount: i64,
        quote_amount: i64,
        sequence: u64,
        current_ts: i64,
    ) -> (r: Result<(), VaultError>)
        requires
            old(self).wf(),
        ensures
            final(self).wf(),
            ({
                let s = spot_settle_spec(
                    old(self)@,
                    is_buy,
                    base_token_index,
                    quote_token_index,
                    base_amount,
                    quote_amount,
                    sequence,
                    current_ts,
                );
                match s {
                    Ok(post) => r == Ok::<(), VaultError>(()) && final(self)@ == post,
                    Err(e) => r == Err::<(), VaultError>(e) && *final(self) == *old(self),
                }
            }),
    {
        if sequence <= self.last_settled_sequence {
            return Err(VaultError::InvalidSequence);
        }
        if base_amount <= 0 || quote_amount <= 0 {
            return Err(VaultError::InvalidAmount);
        }
        let debit_idx = if is_buy { quote_token_index } else { base_token_index };
        let debit_amt = if is_buy { quote_amount } else { base_amount };
        let credit_idx = if is_buy { base_token_index } else { quote_token_index };
        let credit_amt = if is_buy { base_amount } else { quote_amount };
        let dk = match self.find_token_slot(debit_idx) {
            Some(k) => k,
            None => {
                return Err(VaultError::InvalidAccount);
            },
        };
        proof {
            lemma_token_slot(self.token_balances@, debit_idx, dk as int);
        }
        let dbal = self.token_balances[dk];
        if dbal.locked_e6 < debit_amt {
            return Err(VaultError::InsufficientMargin);
        }
        let new_dbal = TokenBalance { locked_e6: dbal.locked_e6 - debit_amt, ..dbal };
        let ghost b1 = self.token_balances@.update(dk as int, new_dbal);
        proof {
            assert(forall|i: int|
                0 <= i < b1.len() ==> (#[trigger] b1[i]).token_index
                    == self.token_balances@[i].token_index);
            assert(tokens_unique(b1));
        }
        match self.find_token_slot(credit_idx) {
            Some(ck) => {
                proof {
                    assert(b1[ck as int].token_index == credit_idx);
                    lemma_token_slot(b1, credit_idx, ck as int);
                }
                let cbase = if ck == dk {
                    new_dbal
                } else {
                    self.token_balances[ck]
                };
                proof {
                    assert(b1[ck as int] == cbase);
                }
                let new_av = match checked_add(cbase.available_e6, credit_amt) {
                    Ok(v) => v,
                    Err(e) => {
                        return Err(e);
                    },
                };
                self.token_balances.set(dk, new_dbal);
                let updated = TokenBalance { available_e6: new_av, ..cbase };
                self.token_balances.set(ck, updated);
                self.last_settled_sequence = sequence;
                self.last_update_ts = current_ts;
                proof {
                    assert(self.token_balances@ =~= b1.update(ck as int, updated));
                    let s = spot_settle_spec(
                        old(self)@,
                        is_buy,
                        base_token_index,
                        quote_token_index,
                        base_amount,
                        quote_amount,
                        sequence,
                        current_ts,
                    );
                    assert(s is Ok);
                    assert(self@ =~= s->Ok_0);
                }
                Ok(())
            },
            None => {
                if self.token_balances.len() >= MAX_TOKEN_SLOTS {
                    return Err(VaultError::TokenSlotsFull);
                }
                self.token_balances.set(dk, new_dbal);
                let fresh = TokenBalance {
                    token_index: credit_idx,
                    available_e6: credit_amt,
                    locked_e6: 0,
                };
                self.token_balances.push(fresh);
                self.last_settled_sequence = sequence;
                self.last_update_ts = current_ts;
                proof {
                    assert(!has_token(b1, credit_idx));
                    assert(self.token_balances@ =~= b1.push(fresh));
                    let s = spot_settle_spec(
                        old(self)@,
                        is_buy,
                        base_token_index,
                        quote_token_index,
                        base_amount,
                        quote_amount,
                        sequence,
                        current_ts,
                    );
                    assert(s is Ok);
                    assert(self@ =~= s->Ok_0);
                }
                Ok(())
            },
        }
    }

    /// Applies one account's side of a relayer-driven trade settlement:
    /// the paid leg (plus the fee on a buy) draws the available bucket
    /// first and falls back to locked; the received leg (minus the fee on
    /// a sell, which must not exceed the quote leg) lands in the available
    /// bucket. Rejects any sequence that does not strictly advance the
    /// watermark, with no balance touched.
    pub fn settle_trade_v2(
        &mut self,
        is_buy: bool,
        base_token_index: u16,
        quote_token_index: u16,
        base_amount: i64,
        quote_amount: i64,
        fee: i64,
        sequence: u64,
        current_ts: i64,
    ) -> (r: Result<(), VaultError>)
        requires
            old(self).wf(),
        ensures
            final(self).wf(),
            ({
                let s = spot_settle_v2_spec(
                    old(self)@,
                    is_buy,
                    base_token_index,
                    quote_token_index,
                    base_amount,
                    quote_amount,
                    fee,
                    sequence,
                    current_ts,
                );
                match s {
                    Ok(post) => r == Ok::<(), VaultError>(()) && final(self)@ == post,
                    Err(e) => r == Err::<(), VaultError>(e) && *final(self) == *old(self),
                }
            }),
    {
        if sequence <= self.last_settled_sequence {
            return Err(VaultError::InvalidSequence);
        }
        if base_amount <= 0 || quote_amount <= 0 || fee < 0 {
            return Err(VaultError::InvalidAmount);
        }
        if is_buy && quote_amount > i64::MAX - fee {
            return Err(VaultError::Overflow);
        }
        if !is_buy && fee > quote_amount {
            return Err(VaultError::InvalidAmount);
        }
        let debit_idx = if is_buy { quote_token_index } else { base_token_index };
        let need = if is_buy { quote_amount + fee } else { base_amount };
        let credit_idx = if is_buy { base_token_index } else { quote_token_index };
        let credit_amt = if is_buy { base_amount } else { quote_amount - fee };
        let dk = match self.find_token_slot(debit_idx) {
            Some(k) => k,
            None => {
                return Err(VaultError::InvalidAccount);
            },
        };
        proof {
            lemma_token_slot(self.token_balances@, debit_idx, dk as int);
        }
        let dbal = self.token_balances[dk];
        let new_dbal = if dbal.available_e6 >= need {
            TokenBalance { available_e6: dbal.available_e6 - need, ..dbal }
        } else {
            let rem = need - dbal.available_e6;
            if dbal.locked_e6 < rem {
                return Err(VaultError::InsufficientBalance);
            }
            TokenBalance { available_e6: 0, locked_e6: dbal.locked_e6 - rem, ..dbal }
        };
        let ghost b1 = self.token_balances@.update(dk as int, new_dbal);
        proof {
            assert(forall|i: int|
                0 <= i < b1.len() ==> (#[trigger] b1[i]).token_index
                    == self.token_balances@[i].token_index);
            assert(tokens_unique(b1));
        }
        match self.find_token_slot(credit_idx) {
            Some(ck) => {
                proof {
                    assert(b1[ck as int].token_index == credit_idx);
                    lemma_token_slot(b1, credit_idx, ck as int);
                }
                let cbase = if ck == dk {
                    new_dbal
                } else {
                    self.token_balances[ck]
                };
                proof {
                    assert(b1[ck as int] == cbase);
                }
                let new_av = match checked_add(cbase.available_e6, credit_amt) {
                    Ok(v) => v,
                    Err(e) => {
                        return Err(e);
                    },
                };
                self.token_balances.set(dk, new_dbal);
                let updated = TokenBalance { available_e6: new_av, ..cbase };
                self.token_balances.set(ck, updated);
                self.last_settled_sequence = sequence;
                self.last_update_ts = current_ts;
                proof {
                    assert(self.token_balances@ =~= b1.update(ck as int, updated));
                    let s = spot_settle_v2_spec(
                        old(self)@,
                        is_buy,
                        base_token_index,
                        quote_token_index,
                        base_amount,
                        quote_amount,
                        fee,
                        sequence,
                        current_ts,
                    );
                    assert(s is Ok);
                    assert(self@ =~= s->Ok_0);
                }
                Ok(())
            },
            None => {
                if self.token_balances.len() >= MAX_TOKEN_SLOTS {
                    return Err(VaultError::TokenSlotsFull);
                }
                self.token_balances.set(dk, new_dbal);
                let fresh = TokenBalance {
                    token_index: credit_idx,
                    available_e6: credit_amt,
                    locked_e6: 0,
                };
                self.token_balances.push(fresh);
                self.last_settled_sequence = sequence;
                self.last_update_ts = current_ts;
                proof {
                    assert(!has_token(b1, credit_idx));
                    assert(self.token_balances@ =~= b1.push(fresh));
                    let s = spot_settle_v2_spec(
                        old(self)@,
                        is_buy,
                        base_token_index,
                        quote_token_index,
                        base_amount,
                        quote_amount,
                        fee,
                        sequence,
                        current_ts,
                    );
                    assert(s is Ok);
                    assert(self@ =~= s->Ok_0);
                }
                Ok(())
            },
        }
    }
}

} // verus!
