use vstd::prelude::*;

use std::collections::HashMap;

use crate::error::ContractError;

verus! {

broadcast use vstd::std_specs::hash::group_hash_axioms;

/// An amount of one asset, as attached to a call or sent by the bank.
pub struct Coin {
    pub denom: String,
    pub amount: u128,
}

/// What the tool directory says of a tool at the time of a lock.
pub struct ToolInfo {
    pub provider: String,
    pub price: u128,
    pub denom: String,
    pub is_active: bool,
}

/// One locked payment, present in the store until it is released or refunded.
pub struct EscrowRecord {
    pub tool_id: String,
    pub payer: String,
    pub provider: String,
    pub max_fee: u128,
    pub denom: String,
    pub expires: u64,
    pub auth_token: String,
}

/// A credit that the host's bank must make to an account.
pub struct Transfer {
    pub to: String,
    pub amount: u128,
    pub denom: String,
}

impl EscrowRecord {
    /// A field-by-field copy.
    pub fn duplicate(&self) -> (r: EscrowRecord)
        ensures
            r == *self,
    {
        EscrowRecord {
            tool_id: self.tool_id.clone(),
            payer: self.payer.clone(),
            provider: self.provider.clone(),
            max_fee: self.max_fee,
            denom: self.denom.clone(),
            expires: self.expires,
            auth_token: self.auth_token.clone(),
        }
    }
}

/// The attached funds are a single coin of `denom` worth exactly `amount`.
pub open spec fn pays_exactly(funds: Seq<Coin>, denom: Seq<char>, amount: u128) -> bool {
    funds.len() == 1 && funds[0].denom@ == denom && funds[0].amount == amount
}

/// Total of the attached funds in `denom`.
pub open spec fn paid(funds: Seq<Coin>, denom: Seq<char>) -> int
    decreases funds.len(),
{
    if funds.len() == 0 {
        0
    } else {
        paid(funds.drop_last(), denom) + if funds.last().denom@ == denom {
            funds.last().amount as int
        } else {
            0
        }
    }
}

/// Total that the transfers credit to account `to` in `denom`.
pub open spec fn credited(ts: Seq<Transfer>, to: Seq<char>, denom: Seq<char>) -> int
    decreases ts.len(),
{
    if ts.len() == 0 {
        0
    } else {
        credited(ts.drop_last(), to, denom) + if ts.last().to@ == to && ts.last().denom@ == denom {
            ts.last().amount as int
        } else {
            0
        }
    }
}

/// The checks of a lock, in order; the first that fails decides the error.
pub open spec fn lock_check(
    frozen: bool,
    tool: Option<ToolInfo>,
    max_fee: u128,
    expires: u64,
    funds: Seq<Coin>,
    height: u64,
) -> Result<(), ContractError> {
    if frozen {
        Err(ContractError::Frozen)
    } else {
        match tool {
            None => Err(ContractError::ToolNotFound),
            Some(t) => if !t.is_active {
                Err(ContractError::ToolInactive)
            } else if !pays_exactly(funds, t.denom@, max_fee) {
                Err(ContractError::FundsMismatch)
            } else if max_fee > t.price {
                Err(ContractError::FeeExceedsMax)
            } else if expires <= height {
                Err(ContractError::InvalidExpiration)
            } else {
                Ok(())
            },
        }
    }
}

/// The record that a successful lock stores: the provider and the denom are
/// taken from the tool as it was at lock time.
pub open spec fn locked_record(
    tool_id: String,
    payer: String,
    tool: ToolInfo,
    max_fee: u128,
    expires: u64,
    auth_token: String,
) -> EscrowRecord {
    EscrowRecord {
        tool_id,
        payer,
        provider: tool.provider,
        max_fee,
        denom: tool.denom,
        expires,
        auth_token,
    }
}

/// The checks of a release, in order.
pub open spec fn release_check(
    records: Map<u64, EscrowRecord>,
    frozen: bool,
    sender: Seq<char>,
    id: u64,
    usage_fee: u128,
) -> Result<(), ContractError> {
    if frozen {
        Err(ContractError::Frozen)
    } else if !records.contains_key(id) {
        Err(ContractError::EscrowNotFound)
    } else if sender != records[id].provider@ {
        Err(ContractError::Unauthorized)
    } else if usage_fee > records[id].max_fee {
        Err(ContractError::FeeExceedsLocked)
    } else {
        Ok(())
    }
}

/// A release pays the usage fee to the provider and the rest back to the
/// payer; a zero amount is not sent.
pub open spec fn release_transfers(rec: EscrowRecord, usage_fee: u128) -> Seq<Transfer> {
    let rest = (rec.max_fee - usage_fee) as u128;
    let to_provider = if usage_fee > 0 {
        seq![Transfer { to: rec.provider, amount: usage_fee, denom: rec.denom }]
    } else {
        Seq::empty()
    };
    let to_payer = if rest > 0 {
        seq![Transfer { to: rec.payer, amount: rest, denom: rec.denom }]
    } else {
        Seq::empty()
    };
    to_provider + to_payer
}

/// The checks of a refund, in order.
pub open spec fn refund_check(
    records: Map<u64, EscrowRecord>,
    frozen: bool,
    sender: Seq<char>,
    id: u64,
    height: u64,
) -> Result<(), ContractError> {
    if frozen {
        Err(ContractError::Frozen)
    } else if !records.contains_key(id) {
        Err(ContractError::EscrowNotFound)
    } else if sender != records[id].payer@ {
        Err(ContractError::Unauthorized)
    } else if height <= records[id].expires {
        Err(ContractError::NotExpired)
    } else {
        Ok(())
    }
}

/// A refund pays the whole locked amount back to the payer.
pub open spec fn refund_transfers(rec: EscrowRecord) -> Seq<Transfer> {
    if rec.max_fee > 0 {
        seq![Transfer { to: rec.payer, amount: rec.max_fee, denom: rec.denom }]
    } else {
        Seq::empty()
    }
}

/// The escrow ledger: the pending records by id, the next id to hand out,
/// and whether the contract is frozen.
pub struct EscrowState {
    escrows: HashMap<u64, EscrowRecord>,
    next_id: u64,
    frozen: bool,
}

impl EscrowState {
    /// The pending records by id.
    pub closed spec fn records(&self) -> Map<u64, EscrowRecord> {
        self.escrows@
    }

    /// The id that the next lock will receive.
    pub closed spec fn next(&self) -> nat {
        self.next_id as nat
    }

    pub closed spec fn frozen(&self) -> bool {
        self.frozen
    }

    /// Every pending id was handed out before the next one.
    pub open spec fn wf(&self) -> bool {
        forall|id: u64| #[trigger] self.records().contains_key(id) ==> id < self.next()
    }

    /// An empty, active ledger whose first id is 1.
    pub fn new() -> (r: EscrowState)
        ensures
            r.wf(),
            r.records() == Map::<u64, EscrowRecord>::empty(),
            r.next() == 1,
            !r.frozen(),
    {
        EscrowState { escrows: HashMap::new(), next_id: 1, frozen: false }
    }

    pub fn is_frozen(&self) -> (r: bool)
        ensures
            r == self.frozen(),
    {
        self.frozen
    }

    /// The id that the next lock will receive.
    pub fn next_escrow_id(&self) -> (r: u64)
        ensures
            r == self.next(),
    {
        self.next_id
    }

    /// A copy of the pending record `id`, if there is one.
    pub fn get_escrow(&self, id: u64) -> (r: Option<EscrowRecord>)
        ensures
            r == (if self.records().contains_key(id) {
                Some(self.records()[id])
            } else {
                None::<EscrowRecord>
            }),
    {
        match self.escrows.get(&id) {
            Some(rec) => Some(rec.duplicate()),
            None => None,
        }
    }

    /// Stops every lock, release and refund until `unfreeze`.
    pub fn freeze(&mut self)
        ensures
            final(self).records() == old(self).records(),
            final(self).next() == old(self).next(),
            final(self).frozen(),
    {
        self.frozen = true;
    }

    /// Lets locks, releases and refunds run again.
    pub fn unfreeze(&mut self)
        ensures
            final(self).records() == old(self).records(),
            final(self).next() == old(self).next(),
            !final(self).frozen(),
    {
        self.frozen = false;
    }
}

proof fn lemma_paid_single(funds: Seq<Coin>, denom: Seq<char>, amount: u128)
    requires
        pays_exactly(funds, denom, amount),
    ensures
        paid(funds, denom) == amount,
{
    assert(funds.drop_last() =~= Seq::<Coin>::empty());
    assert(paid(funds.drop_last(), denom) == 0);
}

impl EscrowState {
    /// Locks the attached funds for a call of `tool_id` and returns the new
    /// escrow id. `tool` is what the tool directory returned for `tool_id`
    /// and `height` is the current block height.
    pub fn lock_funds(
        &mut self,
        sender: String,
        tool_id: String,
        tool: Option<ToolInfo>,
        max_fee: u128,
        expires: u64,
        auth_token: String,
        funds: &Vec<Coin>,
        height: u64,
    ) -> (r: Result<u64, ContractError>)
        requires
            old(self).wf(),
            old(self).next() < u64::MAX,
        ensures
            final(self).wf(),
            final(self).frozen() == old(self).frozen(),
            match r {
                Ok(id) => {
                    &&& lock_check(old(self).frozen(), tool, max_fee, expires, funds@, height)
                        == Ok::<(), ContractError>(())
                    &&& id == old(self).next()
                    &&& !old(self).records().contains_key(id)
                    &&& final(self).records() == old(self).records().insert(
                        id,
                        locked_record(tool_id, sender, tool.unwrap(), max_fee, expires, auth_token),
                    )
                    &&& final(self).next() == old(self).next() + 1
                    &&& paid(funds@, tool.unwrap().denom@) == max_fee
                },
                Err(e) => {
                    &&& lock_check(old(self).frozen(), tool, max_fee, expires, funds@, height)
                        == Err::<(), ContractError>(e)
                    &&& *final(self) == *old(self)
                },
            },
    {
        if self.frozen {
            return Err(ContractError::Frozen);
        }
        let t = match tool {
            None => {
                return Err(ContractError::ToolNotFound);
            },
            Some(t) => t,
        };
        if !t.is_active {
            return Err(ContractError::ToolInactive);
        }
        if funds.len() != 1 || !funds[0].denom.eq(&t.denom) || funds[0].amount != max_fee {
            return Err(ContractError::FundsMismatch);
        }
        if max_fee > t.price {
            return Err(ContractError::FeeExceedsMax);
        }
        if expires <= height {
            return Err(ContractError::InvalidExpiration);
        }
        proof {
            lemma_paid_single(funds@, t.denom@, max_fee);
        }
        let id = self.next_id;
        let rec = EscrowRecord {
            tool_id,
            payer: sender,
            provider: t.provider,
            max_fee,
            denom: t.denom,
            expires,
            auth_token,
        };
        self.escrows.insert(id, rec);
        self.next_id = id + 1;
        assert forall|k: u64| #[trigger] self.records().contains_key(k) implies k < self.next() by {
            if k != id {
                assert(old(self).records().contains_key(k));
            }
        }
        Ok(id)
    }

    /// Settles escrow `escrow_id`: the provider is paid `usage_fee` and the
    /// payer gets the rest back. Returns the credits the bank must make.
    pub fn release(&mut self, sender: &String, escrow_id: u64, usage_fee: u128) -> (r: Result<
        Vec<Transfer>,
        ContractError,
    >)
        requires
            old(self).wf(),
        ensures
            final(self).wf(),
            final(self).frozen() == old(self).frozen(),
            final(self).next() == old(self).next(),
            match r {
                Ok(ts) => {
                    &&& release_check(
                        old(self).records(),
                        old(self).frozen(),
                        sender@,
                        escrow_id,
                        usage_fee,
                    ) == Ok::<(), ContractError>(())
                    &&& ts@ == release_transfers(old(self).records()[escrow_id], usage_fee)
                    &&& final(self).records() == old(self).records().remove(escrow_id)
                },
                Err(e) => {
                    &&& release_check(
                        old(self).records(),
                        old(self).frozen(),
                        sender@,
                        escrow_id,
                        usage_fee,
                    ) == Err::<(), ContractError>(e)
                    &&& *final(self) == *old(self)
                },
            },
    {
        if self.frozen {
            return Err(ContractError::Frozen);
        }
        let rec = match self.escrows.get(&escrow_id) {
            None => {
                return Err(ContractError::EscrowNotFound);
            },
            Some(rec) => rec,
        };
        if !sender.eq(&rec.provider) {
            return Err(ContractError::Unauthorized);
        }
        if usage_fee > rec.max_fee {
            return Err(ContractError::FeeExceedsLocked);
        }
        let rest = rec.max_fee - usage_fee;
        let mut ts: Vec<Transfer> = Vec::new();
        if usage_fee > 0 {
            ts.push(Transfer { to: rec.provider.clone(), amount: usage_fee, denom: rec.denom.clone() });
        }
        if rest > 0 {
            ts.push(Transfer { to: rec.payer.clone(), amount: rest, denom: rec.denom.clone() });
        }
        assert(ts@ =~= release_transfers(self.escrows@[escrow_id], usage_fee));
        self.escrows.remove(&escrow_id);
        Ok(ts)
    }

    /// Returns the whole locked amount of an expired escrow to its payer.
    /// `height` is the current block height.
    pub fn refund_expired(&mut self, sender: &String, escrow_id: u64, height: u64) -> (r: Result<
        Vec<Transfer>,
        ContractError,
    >)
        requires
            old(self).wf(),
        ensures
            final(self).wf(),
            final(self).frozen() == old(self).frozen(),
            final(self).next() == old(self).next(),
            match r {
                Ok(ts) => {
                    &&& refund_check(
                        old(self).records(),
                        old(self).frozen(),
                        sender@,
                        escrow_id,
                        height,
                    ) == Ok::<(), ContractError>(())
                    &&& ts@ == refund_transfers(old(self).records()[escrow_id])
                    &&& final(self).records() == old(self).records().remove(escrow_id)
                },
                Err(e) => {
                    &&& refund_check(
                        old(self).records(),
                        old(self).frozen(),
                        sender@,
                        escrow_id,
                        height,
                    ) == Err::<(), ContractError>(e)
                    &&& *final(self) == *old(self)
                },
            },
    {
        if self.frozen {
            return Err(ContractError::Frozen);
        }
        let rec = match self.escrows.get(&escrow_id) {
            None => {
                return Err(ContractError::EscrowNotFound);
            },
            Some(rec) => rec,
        };
        if !sender.eq(&rec.payer) {
            return Err(ContractError::Unauthorized);
        }
        if height <= rec.expires {
            return Err(ContractError::NotExpired);
        }
        let mut ts: Vec<Transfer> = Vec::new();
        if rec.max_fee > 0 {
            ts.push(Transfer { to: rec.payer.clone(), amount: rec.max_fee, denom: rec.denom.clone() });
        }
        assert(ts@ =~= refund_transfers(self.escrows@[escrow_id]));
        self.escrows.remove(&escrow_id);
        Ok(ts)
    }
}

/// Once an escrow has been resolved and its record removed, a further release
/// or refund of the same id fails with `EscrowNotFound`.
pub proof fn lemma_resolution_is_final(
    records: Map<u64, EscrowRecord>,
    id: u64,
    sender: Seq<char>,
    usage_fee: u128,
    height: u64,
)
    ensures
        release_check(records.remove(id), false, sender, id, usage_fee) == Err::<(), ContractError>(
            ContractError::EscrowNotFound,
        ),
        refund_check(records.remove(id), false, sender, id, height) == Err::<(), ContractError>(
            ContractError::EscrowNotFound,
        ),
{
}

/// A release that passes its checks credits the provider with the usage fee
/// and the payer with the rest of the locked amount, distributes exactly the
/// locked amount, and leaves no record behind to resolve a second time.
pub proof fn lemma_release_settles(
    records: Map<u64, EscrowRecord>,
    sender: Seq<char>,
    id: u64,
    usage_fee: u128,
    later_sender: Seq<char>,
    later_fee: u128,
    later_height: u64,
)
    requires
        release_check(records, false, sender, id, usage_fee) == Ok::<(), ContractError>(()),
    ensures
        ({
            let rec = records[id];
            let ts = release_transfers(rec, usage_fee);
            &&& rec.provider@ != rec.payer@ ==> credited(ts, rec.provider@, rec.denom@)
                == usage_fee
            &&& rec.provider@ != rec.payer@ ==> credited(ts, rec.payer@, rec.denom@) == rec.max_fee
                - usage_fee
            &&& rec.provider@ == rec.payer@ ==> credited(ts, rec.payer@, rec.denom@)
                == rec.max_fee
        }),
        release_check(records.remove(id), false, later_sender, id, later_fee) == Err::<
            (),
            ContractError,
        >(ContractError::EscrowNotFound),
        refund_check(records.remove(id), false, later_sender, id, later_height) == Err::<
            (),
            ContractError,
        >(ContractError::EscrowNotFound),
{
    let rec = records[id];
    let ts = release_transfers(rec, usage_fee);
    let rest = (rec.max_fee - usage_fee) as u128;
    let a = Transfer { to: rec.provider, amount: usage_fee, denom: rec.denom };
    let b = Transfer { to: rec.payer, amount: rest, denom: rec.denom };
    reveal_with_fuel(credited, 3);
    if usage_fee > 0 && rest > 0 {
        assert(ts =~= seq![a, b]);
        assert(ts.drop_last() =~= seq![a]);
        assert(ts.drop_last().drop_last() =~= Seq::<Transfer>::empty());
    } else if usage_fee > 0 {
        assert(ts =~= seq![a]);
        assert(ts.drop_last() =~= Seq::<Transfer>::empty());
    } else if rest > 0 {
        assert(ts =~= seq![b]);
        assert(ts.drop_last() =~= Seq::<Transfer>::empty());
    } else {
        assert(ts =~= Seq::<Transfer>::empty());
    }
    lemma_resolution_is_final(records, id, later_sender, later_fee, later_height);
}

/// Locking funds and refunding the escrow after it expired gives the payer
/// back exactly what was attached to the lock; before expiry the refund is
/// refused with `NotExpired`.
pub proof fn lemma_lock_then_refund(
    records: Map<u64, EscrowRecord>,
    id: u64,
    sender: String,
    tool_id: String,
    tool: ToolInfo,
    max_fee: u128,
    expires: u64,
    auth_token: String,
    funds: Seq<Coin>,
    lock_height: u64,
    refund_height: u64,
)
    requires
        lock_check(false, Some(tool), max_fee, expires, funds, lock_height) == Ok::<
            (),
            ContractError,
        >(()),
    ensures
        ({
            let after = records.insert(
                id,
                locked_record(tool_id, sender, tool, max_fee, expires, auth_token),
            );
            &&& refund_height > expires ==> refund_check(after, false, sender@, id, refund_height)
                == Ok::<(), ContractError>(())
            &&& refund_height > expires ==> credited(
                refund_transfers(after[id]),
                sender@,
                tool.denom@,
            ) == paid(funds, tool.denom@)
            &&& refund_height <= expires ==> refund_check(
                after,
                false,
                sender@,
                id,
                refund_height,
            ) == Err::<(), ContractError>(ContractError::NotExpired)
        }),
{
    let rec = locked_record(tool_id, sender, tool, max_fee, expires, auth_token);
    let after = records.insert(id, rec);
    assert(after[id] == rec);
    lemma_paid_single(funds, tool.denom@, max_fee);
    let ts = refund_transfers(rec);
    reveal_with_fuel(credited, 2);
    if max_fee > 0 {
        assert(ts.drop_last() =~= Seq::<Transfer>::empty());
    }
}

/// Only the recorded provider may release and only the recorded payer may
/// refund, the latter even after expiry.
pub proof fn lemma_only_parties_resolve(
    records: Map<u64, EscrowRecord>,
    sender: Seq<char>,
    id: u64,
    usage_fee: u128,
    height: u64,
)
    requires
        records.contains_key(id),
    ensures
        sender != records[id].provider@ ==> release_check(records, false, sender, id, usage_fee)
            == Err::<(), ContractError>(ContractError::Unauthorized),
        sender != records[id].payer@ ==> refund_check(records, false, sender, id, height) == Err::<
            (),
            ContractError,
        >(ContractError::Unauthorized),
{
}

/// While the ledger is frozen, every lock, release and refund fails with
/// `Frozen`, whatever its inputs.
pub proof fn lemma_freeze_gates(
    records: Map<u64, EscrowRecord>,
    sender: Seq<char>,
    tool: Option<ToolInfo>,
    max_fee: u128,
    expires: u64,
    funds: Seq<Coin>,
    id: u64,
    usage_fee: u128,
    height: u64,
)
    ensures
        lock_check(true, tool, max_fee, expires, funds, height) == Err::<(), ContractError>(
            ContractError::Frozen,
        ),
        release_check(records, true, sender, id, usage_fee) == Err::<(), ContractError>(
            ContractError::Frozen,
        ),
        refund_check(records, true, sender, id, height) == Err::<(), ContractError>(
            ContractError::Frozen,
        ),
{
}

/// Freezing and then unfreezing a ledger leaves every lock, release and
/// refund with the outcome it had before the freeze.
pub proof fn lemma_unfreeze_restores(
    before: EscrowState,
    frozen: EscrowState,
    thawed: EscrowState,
    sender: Seq<char>,
    tool: Option<ToolInfo>,
    max_fee: u128,
    expires: u64,
    funds: Seq<Coin>,
    id: u64,
    usage_fee: u128,
    height: u64,
)
    requires
        !before.frozen(),
        frozen.records() == before.records(),
        frozen.frozen(),
        thawed.records() == frozen.records(),
        !thawed.frozen(),
    ensures
        lock_check(thawed.frozen(), tool, max_fee, expires, funds, height) == lock_check(
            before.frozen(),
            tool,
            max_fee,
            expires,
            funds,
            height,
        ),
        release_check(thawed.records(), thawed.frozen(), sender, id, usage_fee) == release_check(
            before.records(),
            before.frozen(),
            sender,
            id,
            usage_fee,
        ),
        refund_check(thawed.records(), thawed.frozen(), sender, id, height) == refund_check(
            before.records(),
            before.frozen(),
            sender,
            id,
            height,
        ),
{
}

} // verus!
