//! The summary of a transaction that is collected while its inputs and
//! outputs stream in: its type, the account command of its inputs, and the
//! totals of each asset that it consumes and produces, from which the fees
//! follow.

use vstd::prelude::*;

use crate::messages::{AdditionalOrderInfo, AdditionalUtxoInfo, TxInputWithAdditionalInfo};
use crate::primitives::{
    AccountCommand, AccountSpending, Amount, OrderAccountCommand, OutputValue, TxOutput,
};
use crate::status::StatusWord;
use crate::totals::{add_to, entries_map, key_index, sorted_keys, total_of, CoinOrTokenId, Totals};

verus! {

/// The kind of a transaction, as shown in the title of its review.
#[derive(Clone, Copy, Debug, PartialEq, Eq, Structural)]
pub enum TxType {
    Transfer,
    Burn,
    Htlc,
    CreateDelegation,
    DelegateStaking,
    DelegationWithdrawal,
    CreateStakePool,
    DecommissionStakePool,
    CreateNft,
    CreateToken,
    MintTokens,
    UnmintTokens,
    FreezeToken,
    UnfreezeToken,
    LockTokenSupply,
    ChangeTokenAuthority,
    ChangeTokenMetadataUri,
    FillOrder,
    FreezeOrder,
    CreateOrder,
    ConcludeOrder,
    DataDeposit,
    ComplexTransaction,
}

/// The type of a transaction after one more part of type `new_type`: the first
/// type stays when a transfer follows (transfers may be change), and any other
/// second type makes the transaction complex.
pub open spec fn spec_merge_tx_type(tx_type: Option<TxType>, new_type: TxType) -> Option<TxType> {
    match tx_type {
        None => Some(new_type),
        Some(_) => if new_type == TxType::Transfer {
            tx_type
        } else {
            Some(TxType::ComplexTransaction)
        },
    }
}

/// Merges the type of one more part of a transaction into its type.
pub fn merge_tx_type(tx_type: Option<TxType>, new_type: TxType) -> (r: Option<TxType>)
    ensures
        r == spec_merge_tx_type(tx_type, new_type),
{
    match tx_type {
        None => Some(new_type),
        Some(_) => if new_type == TxType::Transfer {
            tx_type
        } else {
            Some(TxType::ComplexTransaction)
        },
    }
}

/// The first part fixes the type of a transaction.
pub proof fn lemma_merge_first(new_type: TxType)
    ensures
        spec_merge_tx_type(None, new_type) == Some(new_type),
{
}

/// A transfer never changes the type that a transaction has.
pub proof fn lemma_merge_transfer_keeps(tx_type: Option<TxType>)
    ensures
        tx_type is Some ==> spec_merge_tx_type(tx_type, TxType::Transfer) == tx_type,
{
}

/// A complex transaction stays complex, whatever follows.
pub proof fn lemma_merge_complex_stays(new_type: TxType)
    ensures
        spec_merge_tx_type(Some(TxType::ComplexTransaction), new_type) == Some(
            TxType::ComplexTransaction,
        ),
{
}

/// Once a transaction has a type, it keeps having one.
pub proof fn lemma_merge_some(tx_type: Option<TxType>, new_type: TxType)
    ensures
        spec_merge_tx_type(tx_type, new_type) is Some,
{
}

/// The account command (or account spending) of a transaction's inputs.
#[derive(Clone, Debug)]
pub enum InputCommand {
    AccountSpending(AccountSpending),
    AccountCommand(AccountCommand),
    OrderCommand(OrderAccountCommand, AdditionalOrderInfo),
}

/// Two account commands are the same command with the same data.
pub open spec fn same_account_command(a: AccountCommand, b: AccountCommand) -> bool {
    match (a, b) {
        (
            AccountCommand::ChangeTokenMetadataUri(x, u),
            AccountCommand::ChangeTokenMetadataUri(y, v),
        ) => x == y && u@ == v@,
        (AccountCommand::ChangeTokenMetadataUri(_, _), _) => false,
        (_, AccountCommand::ChangeTokenMetadataUri(_, _)) => false,
        _ => a == b,
    }
}

/// Two input commands are the same command with the same data.
pub open spec fn same_input_command(a: InputCommand, b: InputCommand) -> bool {
    match (a, b) {
        (InputCommand::AccountSpending(x), InputCommand::AccountSpending(y)) => x == y,
        (InputCommand::AccountCommand(x), InputCommand::AccountCommand(y)) => same_account_command(
            x,
            y,
        ),
        (InputCommand::OrderCommand(c, i), InputCommand::OrderCommand(d, j)) => c == d && i == j,
        _ => false,
    }
}

/// A copy of a byte vector.
fn copy_bytes(v: &Vec<u8>) -> (r: Vec<u8>)
    ensures
        r@ == v@,
{
    let mut out: Vec<u8> = Vec::new();
    crate::primitives::push_bytes(&mut out, v.as_slice());
    out
}

/// A copy of an account command.
pub fn copy_account_command(c: &AccountCommand) -> (r: AccountCommand)
    ensures
        same_account_command(r, *c),
{
    match c {
        AccountCommand::MintTokens(id, a) => AccountCommand::MintTokens(*id, *a),
        AccountCommand::UnmintTokens(id) => AccountCommand::UnmintTokens(*id),
        AccountCommand::LockTokenSupply(id) => AccountCommand::LockTokenSupply(*id),
        AccountCommand::FreezeToken(id, u) => AccountCommand::FreezeToken(*id, *u),
        AccountCommand::UnfreezeToken(id) => AccountCommand::UnfreezeToken(*id),
        AccountCommand::ChangeTokenAuthority(id, d) => AccountCommand::ChangeTokenAuthority(*id, *d),
        AccountCommand::ConcludeOrder(id) => AccountCommand::ConcludeOrder(*id),
        AccountCommand::FillOrder(id, a, d) => AccountCommand::FillOrder(*id, *a, *d),
        AccountCommand::ChangeTokenMetadataUri(id, uri) => AccountCommand::ChangeTokenMetadataUri(
            *id,
            copy_bytes(uri),
        ),
    }
}

/// The asset and atoms of an output value.
pub open spec fn spec_value_key(value: OutputValue) -> CoinOrTokenId {
    match value {
        OutputValue::Coin(_) => CoinOrTokenId::Coin,
        OutputValue::TokenV1(id, _) => CoinOrTokenId::TokenId(id),
    }
}

/// The atoms of an output value.
pub open spec fn spec_value_atoms(value: OutputValue) -> u128 {
    match value {
        OutputValue::Coin(a) => a.atoms,
        OutputValue::TokenV1(_, a) => a.atoms,
    }
}

/// Splits an output value into its asset and amount.
pub fn into_coin_or_token_id_and_amount(value: &OutputValue) -> (r: (CoinOrTokenId, Amount))
    ensures
        r.0 == spec_value_key(*value),
        r.1.atoms == spec_value_atoms(*value),
{
    match value {
        OutputValue::Coin(amount) => (CoinOrTokenId::Coin, *amount),
        OutputValue::TokenV1(token_id, amount) => (CoinOrTokenId::TokenId(*token_id), *amount),
    }
}

/// What the summary states of a transaction: its type and the totals of each
/// asset over its inputs and over its outputs.
pub struct SummaryView {
    pub tx_type: Option<TxType>,
    pub inputs: Map<CoinOrTokenId, u128>,
    pub outputs: Map<CoinOrTokenId, u128>,
}

/// The summary with a part of the given type merged in.
pub open spec fn with_type(s: SummaryView, t: TxType) -> SummaryView {
    SummaryView { tx_type: spec_merge_tx_type(s.tx_type, t), ..s }
}

/// The summary with `amount` added to the inputs' total of `k`; on overflow,
/// the summary unchanged and the error.
pub open spec fn add_input(s: SummaryView, k: CoinOrTokenId, amount: int) -> (
    SummaryView,
    Result<(), StatusWord>,
) {
    match add_to(s.inputs, k, amount) {
        None => (s, Err(StatusWord::TxNumericOperationFail)),
        Some(m) => (SummaryView { inputs: m, ..s }, Ok(())),
    }
}

/// The summary with `amount` added to the outputs' total of `k`; on overflow,
/// the summary unchanged and the error.
pub open spec fn add_output(s: SummaryView, k: CoinOrTokenId, amount: int) -> (
    SummaryView,
    Result<(), StatusWord>,
) {
    match add_to(s.outputs, k, amount) {
        None => (s, Err(StatusWord::TxNumericOperationFail)),
        Some(m) => (SummaryView { outputs: m, ..s }, Ok(())),
    }
}

/// The type that an output gives a transaction, if any.
pub open spec fn spec_output_tx_type(out: TxOutput) -> Option<TxType> {
    match out {
        TxOutput::Transfer(_, _) | TxOutput::LockThenTransfer(_, _, _) => Some(TxType::Transfer),
        TxOutput::Burn(_) => Some(TxType::Burn),
        TxOutput::Htlc(_, _) => Some(TxType::Htlc),
        TxOutput::CreateStakePool(_, _) => Some(TxType::CreateStakePool),
        TxOutput::ProduceBlockFromStake(_, _) => None,
        TxOutput::DelegateStaking(_, _) => Some(TxType::DelegateStaking),
        TxOutput::CreateDelegationId(_, _) => Some(TxType::CreateDelegation),
        TxOutput::IssueFungibleToken(_) => Some(TxType::CreateToken),
        TxOutput::DataDeposit(_) => Some(TxType::DataDeposit),
        TxOutput::IssueNft(_, _, _) => Some(TxType::CreateNft),
        TxOutput::CreateOrder(_) => Some(TxType::CreateOrder),
    }
}

/// The asset and atoms that an output adds to the outputs' totals, if any.
pub open spec fn spec_output_amount(out: TxOutput) -> Option<(CoinOrTokenId, u128)> {
    match out {
        TxOutput::Transfer(v, _)
        | TxOutput::LockThenTransfer(v, _, _)
        | TxOutput::Burn(v)
        | TxOutput::Htlc(v, _) => Some((spec_value_key(v), spec_value_atoms(v))),
        TxOutput::CreateStakePool(_, data) => Some((CoinOrTokenId::Coin, data.pledge.atoms)),
        TxOutput::DelegateStaking(amount, _) => Some((CoinOrTokenId::Coin, amount.atoms)),
        TxOutput::CreateOrder(data) => Some((spec_value_key(data.give), spec_value_atoms(data.give))),
        _ => None,
    }
}

/// The summary after an output, and whether it was accepted.
pub open spec fn spec_process_output(s: SummaryView, out: TxOutput) -> (
    SummaryView,
    Result<(), StatusWord>,
) {
    let s1 = match spec_output_tx_type(out) {
        Some(t) => with_type(s, t),
        None => s,
    };
    match spec_output_amount(out) {
        Some((k, a)) => add_output(s1, k, a as int),
        None => (s1, Ok(())),
    }
}

/// The summary after a fill of an order of `fill` atoms of the asked asset:
/// the filled atoms count as an output, and what the order gives for them
/// (in proportion to what it initially gave and asked, rounded down) as an
/// input.
pub open spec fn spec_fill_order(s: SummaryView, fill: u128, info: AdditionalOrderInfo) -> (
    SummaryView,
    Result<(), StatusWord>,
) {
    let asked = spec_value_atoms(info.initially_asked);
    let given = spec_value_atoms(info.initially_given);
    let (s1, r1) = add_output(s, spec_value_key(info.initially_asked), fill as int);
    if r1 is Err {
        (s1, r1)
    } else if given * fill > u128::MAX || asked == 0 {
        (s1, Err(StatusWord::TxNumericOperationFail))
    } else {
        let (s2, r2) = add_input(s1, spec_value_key(info.initially_given), (given * fill) / (asked as int));
        if r2 is Err {
            (s2, r2)
        } else {
            (with_type(s2, TxType::FillOrder), Ok(()))
        }
    }
}

/// The summary after an input, and whether it was accepted.
pub open spec fn spec_process_input(s: SummaryView, inp: TxInputWithAdditionalInfo) -> (
    SummaryView,
    Result<(), StatusWord>,
) {
    match inp {
        TxInputWithAdditionalInfo::Utxo(_, info) => match info {
            AdditionalUtxoInfo::UtxoWithPoolData { utxo: _, staker_balance } => add_input(
                with_type(s, TxType::DecommissionStakePool),
                CoinOrTokenId::Coin,
                staker_balance.atoms as int,
            ),
            AdditionalUtxoInfo::Utxo(utxo) => match utxo {
                TxOutput::Transfer(v, _) | TxOutput::LockThenTransfer(v, _, _) | TxOutput::Htlc(
                    v,
                    _,
                ) => add_input(s, spec_value_key(v), spec_value_atoms(v) as int),
                TxOutput::CreateStakePool(_, data) => add_input(
                    s,
                    CoinOrTokenId::Coin,
                    data.pledge.atoms as int,
                ),
                TxOutput::IssueNft(id, _, _) => add_input(s, CoinOrTokenId::TokenId(id), 1),
                _ => (s, Err(StatusWord::TxInvalidInputUtxo)),
            },
        },
        TxInputWithAdditionalInfo::Account(acc) => match acc.spending {
            AccountSpending::DelegationBalance(_, amount) => add_input(
                with_type(s, TxType::DelegationWithdrawal),
                CoinOrTokenId::Coin,
                amount.atoms as int,
            ),
        },
        TxInputWithAdditionalInfo::AccountCommand(_, cmd) => match cmd {
            AccountCommand::MintTokens(id, amount) => add_input(
                with_type(s, TxType::MintTokens),
                CoinOrTokenId::TokenId(id),
                amount.atoms as int,
            ),
            AccountCommand::ConcludeOrder(_) | AccountCommand::FillOrder(_, _, _) => (
                s,
                Err(StatusWord::OrdersV0NotSupported),
            ),
            AccountCommand::UnmintTokens(_) => (with_type(s, TxType::UnmintTokens), Ok(())),
            AccountCommand::LockTokenSupply(_) => (with_type(s, TxType::LockTokenSupply), Ok(())),
            AccountCommand::FreezeToken(_, _) => (with_type(s, TxType::FreezeToken), Ok(())),
            AccountCommand::UnfreezeToken(_) => (with_type(s, TxType::UnfreezeToken), Ok(())),
            AccountCommand::ChangeTokenAuthority(_, _) => (
                with_type(s, TxType::ChangeTokenAuthority),
                Ok(()),
            ),
            AccountCommand::ChangeTokenMetadataUri(_, _) => (
                with_type(s, TxType::ChangeTokenMetadataUri),
                Ok(()),
            ),
        },
        TxInputWithAdditionalInfo::OrderAccountCommand(cmd, info) => match cmd {
            OrderAccountCommand::FillOrder(_, fill) => spec_fill_order(s, fill.atoms, info),
            OrderAccountCommand::ConcludeOrder(_) => {
                let (s1, r1) = add_input(
                    s,
                    spec_value_key(info.initially_asked),
                    info.ask_balance.atoms as int,
                );
                if r1 is Err {
                    (s1, r1)
                } else {
                    let (s2, r2) = add_input(
                        s1,
                        spec_value_key(info.initially_given),
                        info.give_balance.atoms as int,
                    );
                    if r2 is Err {
                        (s2, r2)
                    } else {
                        (with_type(s2, TxType::ConcludeOrder), Ok(()))
                    }
                }
            },
            OrderAccountCommand::FreezeOrder(_) => (with_type(s, TxType::FreezeOrder), Ok(())),
        },
    }
}

/// The input command that an input records, if it records one.
pub open spec fn records_input_command(inp: TxInputWithAdditionalInfo, c: InputCommand) -> bool {
    match inp {
        TxInputWithAdditionalInfo::Utxo(_, _) => false,
        TxInputWithAdditionalInfo::Account(acc) => c == InputCommand::AccountSpending(acc.spending),
        TxInputWithAdditionalInfo::AccountCommand(_, cmd) => match c {
            InputCommand::AccountCommand(x) => same_account_command(x, cmd),
            _ => false,
        },
        TxInputWithAdditionalInfo::OrderAccountCommand(cmd, info) => c == InputCommand::OrderCommand(
            cmd,
            info,
        ),
    }
}

/// The fee of each asset that the inputs hold: the inputs' total less the
/// outputs' total, or `TxFeeUnderflow` where the outputs hold more.
pub open spec fn spec_fee(entry: (CoinOrTokenId, Amount), outputs: Map<CoinOrTokenId, u128>) -> Result<
    (CoinOrTokenId, u128),
    StatusWord,
> {
    if entry.1.atoms < total_of(outputs, entry.0) {
        Err(StatusWord::TxFeeUnderflow)
    } else {
        Ok((entry.0, (entry.1.atoms - total_of(outputs, entry.0)) as u128))
    }
}

/// How many of the entries are for assets that `inputs` has no total of.
pub open spec fn spec_missing_inputs(
    outs: Seq<(CoinOrTokenId, Amount)>,
    inputs: Map<CoinOrTokenId, u128>,
) -> nat
    decreases outs.len(),
{
    if outs.len() == 0 {
        0
    } else {
        spec_missing_inputs(outs.drop_last(), inputs) + if inputs.contains_key(outs.last().0) {
            0nat
        } else {
            1nat
        }
    }
}

/// `n` fee underflows.
pub open spec fn spec_underflows(n: nat) -> Seq<Result<(CoinOrTokenId, u128), StatusWord>> {
    Seq::new(n, |i: int| Err::<(CoinOrTokenId, u128), StatusWord>(StatusWord::TxFeeUnderflow))
}

/// Entries for an asset that `inputs` lacks make the count positive.
pub proof fn lemma_missing_positive(
    outs: Seq<(CoinOrTokenId, Amount)>,
    inputs: Map<CoinOrTokenId, u128>,
    x: int,
)
    requires
        0 <= x < outs.len(),
        !inputs.contains_key(outs[x].0),
    ensures
        spec_missing_inputs(outs, inputs) > 0,
    decreases outs.len(),
{
    if x < outs.len() - 1 {
        assert(outs.drop_last()[x] == outs[x]);
        lemma_missing_positive(outs.drop_last(), inputs, x);
    }
}

/// Collects the summary of a transaction.
pub struct TxSummaryCollector {
    tx_type: Option<TxType>,
    input_command: Option<InputCommand>,
    total_inputs: Totals,
    total_outputs: Totals,
}

impl TxSummaryCollector {
    /// The type collected so far.
    pub closed spec fn tx_type_view(&self) -> Option<TxType> {
        self.tx_type
    }

    /// The input command recorded so far.
    pub closed spec fn input_command_view(&self) -> Option<InputCommand> {
        self.input_command
    }

    /// The inputs' totals, in ascending order of the assets.
    pub closed spec fn input_entries(&self) -> Seq<(CoinOrTokenId, Amount)> {
        self.total_inputs.entries_view()
    }

    /// The outputs' totals, in ascending order of the assets.
    pub closed spec fn output_entries(&self) -> Seq<(CoinOrTokenId, Amount)> {
        self.total_outputs.entries_view()
    }

    /// The totals are kept in ascending order of the assets.
    pub open spec fn wf(&self) -> bool {
        sorted_keys(self.input_entries()) && sorted_keys(self.output_entries())
    }

    /// The type and totals collected so far.
    pub open spec fn view(&self) -> SummaryView {
        SummaryView {
            tx_type: self.tx_type_view(),
            inputs: entries_map(self.input_entries()),
            outputs: entries_map(self.output_entries()),
        }
    }

    /// An empty summary.
    pub fn new() -> (c: TxSummaryCollector)
        ensures
            c.wf(),
            c@.tx_type is None,
            c.input_command_view() is None,
            c@.inputs == Map::<CoinOrTokenId, u128>::empty(),
            c@.outputs == Map::<CoinOrTokenId, u128>::empty(),
            c.input_entries().len() == 0,
            c.output_entries().len() == 0,
    {
        TxSummaryCollector {
            tx_type: None,
            input_command: None,
            total_inputs: Totals::new(),
            total_outputs: Totals::new(),
        }
    }

    /// The account command of the inputs, if there is one.
    pub fn input_command(&self) -> (r: Option<&InputCommand>)
        ensures
            match r {
                Some(c) => self.input_command_view() == Some(*c),
                None => self.input_command_view() is None,
            },
    {
        match &self.input_command {
            Some(c) => Some(c),
            None => None,
        }
    }

    /// The type of the transaction, if it has one yet.
    pub fn tx_type(&self) -> (r: Option<TxType>)
        ensures
            r == self@.tx_type,
    {
        self.tx_type
    }

    /// The inputs' total of each asset.
    pub fn total_inputs(&self) -> (r: &Totals)
        ensures
            r.entries_view() == self.input_entries(),
            r.map() == self@.inputs,
    {
        &self.total_inputs
    }

    /// The outputs' total of each asset.
    pub fn total_outputs(&self) -> (r: &Totals)
        ensures
            r.entries_view() == self.output_entries(),
            r.map() == self@.outputs,
    {
        &self.total_outputs
    }

    /// The fee of each asset that the inputs hold, in ascending order of the
    /// assets (an asset whose outputs exceed its inputs gives
    /// `TxFeeUnderflow`), followed by a `TxFeeUnderflow` for each asset that
    /// only the outputs hold.
    pub fn fees_iter(&self) -> (r: Vec<Result<(CoinOrTokenId, u128), StatusWord>>)
        requires
            self.wf(),
        ensures
            r@ == spec_fees(*self),
            (exists|k: CoinOrTokenId| #[trigger] self@.outputs.contains_key(k)
                && !self@.inputs.contains_key(k)) ==> exists|i: int|
                0 <= i < r@.len() && r@[i] == Err::<(CoinOrTokenId, u128), StatusWord>(
                    StatusWord::TxFeeUnderflow,
                ),
    {
        let entries = self.total_inputs.entries();
        let mut out: Vec<Result<(CoinOrTokenId, u128), StatusWord>> = Vec::new();
        let mut i: usize = 0;
        while i < entries.len()
            invariant
                entries@ == self.input_entries(),
                self.wf(),
                i <= entries@.len(),
                out@.len() == i,
                forall|j: int|
                    0 <= j < i ==> out@[j] == spec_fee(self.input_entries()[j], self@.outputs),
            decreases entries@.len() - i,
        {
            let (key, amount) = entries[i];
            let spent = match self.total_outputs.get(&key) {
                Some(a) => a.atoms,
                None => 0,
            };
            if amount.atoms < spent {
                out.push(Err(StatusWord::TxFeeUnderflow));
            } else {
                out.push(Ok((key, amount.atoms - spent)));
            }
            i += 1;
        }
        let ghost head = out@;
        assert(head =~= spec_input_fees(*self));
        let outs = self.total_outputs.entries();
        let mut j: usize = 0;
        while j < outs.len()
            invariant
                outs@ == self.output_entries(),
                self.wf(),
                j <= outs@.len(),
                head == spec_input_fees(*self),
                out@ == head + spec_underflows(
                    spec_missing_inputs(outs@.subrange(0, j as int), self@.inputs),
                ),
            decreases outs@.len() - j,
        {
            let (key, _) = outs[j];
            let ghost before = out@;
            let missing = match self.total_inputs.get(&key) {
                Some(_) => false,
                None => true,
            };
            if missing {
                out.push(Err(StatusWord::TxFeeUnderflow));
            }
            j += 1;
            proof {
                assert(outs@.subrange(0, j as int).drop_last() =~= outs@.subrange(
                    0,
                    (j - 1) as int,
                ));
                assert(outs@.subrange(0, j as int).last() == outs@[j - 1]);
                let n0 = spec_missing_inputs(outs@.subrange(0, (j - 1) as int), self@.inputs);
                if missing {
                    assert(spec_underflows(n0 + 1) =~= spec_underflows(n0).push(
                        Err(StatusWord::TxFeeUnderflow),
                    ));
                    assert(out@ =~= head + spec_underflows(n0 + 1));
                }
            }
        }
        proof {
            assert(outs@.subrange(0, outs@.len() as int) =~= outs@);
            if exists|k: CoinOrTokenId| #[trigger] self@.outputs.contains_key(k)
                && !self@.inputs.contains_key(k) {
                let k = choose|k: CoinOrTokenId| #[trigger] self@.outputs.contains_key(k)
                    && !self@.inputs.contains_key(k);
                let x = key_index(outs@, k);
                lemma_missing_positive(outs@, self@.inputs, x);
                assert(out@[head.len() as int] == Err::<(CoinOrTokenId, u128), StatusWord>(
                    StatusWord::TxFeeUnderflow,
                ));
            }
        }
        out
    }

    /// Adds an output to the summary.
    pub fn process_output(&mut self, out: &TxOutput) -> (r: Result<(), StatusWord>)
        requires
            old(self).wf(),
        ensures
            final(self).wf(),
            (final(self)@, r) == spec_process_output(old(self)@, *out),
            final(self).input_command_view() == old(self).input_command_view(),
            final(self).input_entries() == old(self).input_entries(),
    {
        match out {
            TxOutput::Transfer(value, _) | TxOutput::LockThenTransfer(value, _, _) => {
                self.tx_type = merge_tx_type(self.tx_type, TxType::Transfer);
                let (key, amount) = into_coin_or_token_id_and_amount(value);
                self.total_outputs.add(key, amount)
            },
            TxOutput::Burn(value) => {
                self.tx_type = merge_tx_type(self.tx_type, TxType::Burn);
                let (key, amount) = into_coin_or_token_id_and_amount(value);
                self.total_outputs.add(key, amount)
            },
            TxOutput::Htlc(value, _) => {
                self.tx_type = merge_tx_type(self.tx_type, TxType::Htlc);
                let (key, amount) = into_coin_or_token_id_and_amount(value);
                self.total_outputs.add(key, amount)
            },
            TxOutput::CreateStakePool(_, data) => {
                self.tx_type = merge_tx_type(self.tx_type, TxType::CreateStakePool);
                self.total_outputs.add(CoinOrTokenId::Coin, data.pledge)
            },
            TxOutput::ProduceBlockFromStake(_, _) => Ok(()),
            TxOutput::DelegateStaking(amount, _) => {
                self.tx_type = merge_tx_type(self.tx_type, TxType::DelegateStaking);
                self.total_outputs.add(CoinOrTokenId::Coin, *amount)
            },
            TxOutput::CreateDelegationId(_, _) => {
                self.tx_type = merge_tx_type(self.tx_type, TxType::CreateDelegation);
                Ok(())
            },
            TxOutput::IssueFungibleToken(_) => {
                self.tx_type = merge_tx_type(self.tx_type, TxType::CreateToken);
                Ok(())
            },
            TxOutput::DataDeposit(_) => {
                self.tx_type = merge_tx_type(self.tx_type, TxType::DataDeposit);
                Ok(())
            },
            TxOutput::IssueNft(_, _, _) => {
                self.tx_type = merge_tx_type(self.tx_type, TxType::CreateNft);
                Ok(())
            },
            TxOutput::CreateOrder(order_data) => {
                self.tx_type = merge_tx_type(self.tx_type, TxType::CreateOrder);
                let (key, amount) = into_coin_or_token_id_and_amount(&order_data.give);
                self.total_outputs.add(key, amount)
            },
        }
    }

    /// Adds `amount` to the inputs' total of `key`.
    fn increase_input_totals(&mut self, key: CoinOrTokenId, amount: Amount) -> (r: Result<
        (),
        StatusWord,
    >)
        requires
            old(self).wf(),
        ensures
            final(self).wf(),
            (final(self)@, r) == add_input(old(self)@, key, amount.atoms as int),
            final(self).input_command_view() == old(self).input_command_view(),
            r is Err ==> final(self).input_entries() == old(self).input_entries(),
            final(self).output_entries() == old(self).output_entries(),
    {
        let r = self.total_inputs.add(key, amount);
        proof {
            if r is Err {
                assert(self@.inputs == old(self)@.inputs);
            }
        }
        r
    }

    /// Adds `amount` to the outputs' total of `key`.
    fn increase_output_totals(&mut self, key: CoinOrTokenId, amount: Amount) -> (r: Result<
        (),
        StatusWord,
    >)
        requires
            old(self).wf(),
        ensures
            final(self).wf(),
            (final(self)@, r) == add_output(old(self)@, key, amount.atoms as int),
            final(self).input_command_view() == old(self).input_command_view(),
            final(self).input_entries() == old(self).input_entries(),
            r is Err ==> final(self).output_entries() == old(self).output_entries(),
    {
        let r = self.total_outputs.add(key, amount);
        proof {
            if r is Err {
                assert(self@.outputs == old(self)@.outputs);
            }
        }
        r
    }

    /// Adds an input to the summary, and records its account command, if any.
    pub fn process_input(&mut self, inp: &TxInputWithAdditionalInfo) -> (r: Result<(), StatusWord>)
        requires
            old(self).wf(),
        ensures
            final(self).wf(),
            (final(self)@, r) == spec_process_input(old(self)@, *inp),
            match *inp {
                TxInputWithAdditionalInfo::Utxo(_, _) => final(self).input_command_view()
                    == old(self).input_command_view(),
                _ => final(self).input_command_view() matches Some(c) && records_input_command(
                    *inp,
                    c,
                ),
            },
    {
        match inp {
            TxInputWithAdditionalInfo::Utxo(_, info) => match info {
                AdditionalUtxoInfo::UtxoWithPoolData { utxo: _, staker_balance } => {
                    self.tx_type = merge_tx_type(self.tx_type, TxType::DecommissionStakePool);
                    self.increase_input_totals(CoinOrTokenId::Coin, *staker_balance)
                },
                AdditionalUtxoInfo::Utxo(utxo) => match utxo {
                    TxOutput::Transfer(value, _)
                    | TxOutput::LockThenTransfer(value, _, _)
                    | TxOutput::Htlc(value, _) => {
                        let (key, amount) = into_coin_or_token_id_and_amount(value);
                        self.increase_input_totals(key, amount)
                    },
                    TxOutput::Burn(_)
                    | TxOutput::ProduceBlockFromStake(_, _)
                    | TxOutput::CreateDelegationId(_, _)
                    | TxOutput::IssueFungibleToken(_)
                    | TxOutput::DataDeposit(_)
                    | TxOutput::DelegateStaking(_, _)
                    | TxOutput::CreateOrder(_) => Err(StatusWord::TxInvalidInputUtxo),
                    TxOutput::CreateStakePool(_, data) => {
                        self.increase_input_totals(CoinOrTokenId::Coin, data.pledge)
                    },
                    TxOutput::IssueNft(nft_id, _, _) => {
                        self.increase_input_totals(
                            CoinOrTokenId::TokenId(*nft_id),
                            Amount::from_atoms(1),
                        )
                    },
                },
            },
            TxInputWithAdditionalInfo::Account(acc) => {
                self.input_command = Some(InputCommand::AccountSpending(acc.spending));
                match acc.spending {
                    AccountSpending::DelegationBalance(_, amount) => {
                        self.tx_type = merge_tx_type(self.tx_type, TxType::DelegationWithdrawal);
                        self.increase_input_totals(CoinOrTokenId::Coin, amount)
                    },
                }
            },
            TxInputWithAdditionalInfo::AccountCommand(_, cmd) => {
                self.input_command = Some(InputCommand::AccountCommand(copy_account_command(cmd)));
                match cmd {
                    AccountCommand::MintTokens(token_id, amount) => {
                        self.tx_type = merge_tx_type(self.tx_type, TxType::MintTokens);
                        self.increase_input_totals(CoinOrTokenId::TokenId(*token_id), *amount)
                    },
                    AccountCommand::ConcludeOrder(_) | AccountCommand::FillOrder(_, _, _) => {
                        Err(StatusWord::OrdersV0NotSupported)
                    },
                    AccountCommand::UnmintTokens(_) => {
                        self.tx_type = merge_tx_type(self.tx_type, TxType::UnmintTokens);
                        Ok(())
                    },
                    AccountCommand::LockTokenSupply(_) => {
                        self.tx_type = merge_tx_type(self.tx_type, TxType::LockTokenSupply);
                        Ok(())
                    },
                    AccountCommand::FreezeToken(_, _) => {
                        self.tx_type = merge_tx_type(self.tx_type, TxType::FreezeToken);
                        Ok(())
                    },
                    AccountCommand::UnfreezeToken(_) => {
                        self.tx_type = merge_tx_type(self.tx_type, TxType::UnfreezeToken);
                        Ok(())
                    },
                    AccountCommand::ChangeTokenAuthority(_, _) => {
                        self.tx_type = merge_tx_type(self.tx_type, TxType::ChangeTokenAuthority);
                        Ok(())
                    },
                    AccountCommand::ChangeTokenMetadataUri(_, _) => {
                        self.tx_type = merge_tx_type(self.tx_type, TxType::ChangeTokenMetadataUri);
                        Ok(())
                    },
                }
            },
            TxInputWithAdditionalInfo::OrderAccountCommand(cmd, info) => {
                self.input_command = Some(InputCommand::OrderCommand(*cmd, *info));
                match cmd {
                    OrderAccountCommand::FillOrder(_, fill_amount) => {
                        self.process_fill_order(*fill_amount, info)
                    },
                    OrderAccountCommand::ConcludeOrder(_) => {
                        let (ask_key, _) = into_coin_or_token_id_and_amount(&info.initially_asked);
                        let r1 = self.increase_input_totals(ask_key, info.ask_balance);
                        if r1.is_err() {
                            return r1;
                        }
                        let (give_key, _) = into_coin_or_token_id_and_amount(
                            &info.initially_given,
                        );
                        let r2 = self.increase_input_totals(give_key, info.give_balance);
                        if r2.is_err() {
                            return r2;
                        }
                        self.tx_type = merge_tx_type(self.tx_type, TxType::ConcludeOrder);
                        Ok(())
                    },
                    OrderAccountCommand::FreezeOrder(_) => {
                        self.tx_type = merge_tx_type(self.tx_type, TxType::FreezeOrder);
                        Ok(())
                    },
                }
            },
        }
    }

    /// Adds a fill of an order to the summary.
    fn process_fill_order(&mut self, fill_amount: Amount, info: &AdditionalOrderInfo) -> (r: Result<
        (),
        StatusWord,
    >)
        requires
            old(self).wf(),
        ensures
            final(self).wf(),
            (final(self)@, r) == spec_fill_order(old(self)@, fill_amount.atoms, *info),
            final(self).input_command_view() == old(self).input_command_view(),
    {
        let (fill_key, asked_amount) = into_coin_or_token_id_and_amount(&info.initially_asked);
        let (given_key, given_amount) = into_coin_or_token_id_and_amount(&info.initially_given);
        let r1 = self.increase_output_totals(fill_key, fill_amount);
        if r1.is_err() {
            return r1;
        }
        let product = match given_amount.atoms.checked_mul(fill_amount.atoms) {
            Some(p) => p,
            None => {
                return Err(StatusWord::TxNumericOperationFail);
            },
        };
        let atoms = match product.checked_div(asked_amount.atoms) {
            Some(a) => a,
            None => {
                return Err(StatusWord::TxNumericOperationFail);
            },
        };
        let r2 = self.increase_input_totals(given_key, Amount::from_atoms(atoms));
        if r2.is_err() {
            return r2;
        }
        self.tx_type = merge_tx_type(self.tx_type, TxType::FillOrder);
        Ok(())
    }
}

/// The fees of the assets that the inputs hold, in ascending order of the
/// assets.
pub open spec fn spec_input_fees(c: TxSummaryCollector) -> Seq<Result<(CoinOrTokenId, u128), StatusWord>> {
    Seq::new(c.input_entries().len(), |i: int| spec_fee(c.input_entries()[i], c@.outputs))
}

/// The fees of a summary: those of the assets that the inputs hold, then an
/// underflow for each asset that only the outputs hold.
pub open spec fn spec_fees(c: TxSummaryCollector) -> Seq<Result<(CoinOrTokenId, u128), StatusWord>> {
    spec_input_fees(c) + spec_underflows(spec_missing_inputs(c.output_entries(), c@.inputs))
}

/// `after` holds each asset's total of `before`, with `a` more atoms of `k`.
pub open spec fn spec_credited(
    before: Map<CoinOrTokenId, u128>,
    after: Map<CoinOrTokenId, u128>,
    k: CoinOrTokenId,
    a: int,
) -> bool {
    forall|x: CoinOrTokenId| #[trigger]
        total_of(after, x) == total_of(before, x) + (if x == k {
            a
        } else {
            0
        })
}

/// Concluding an order brings back what is left of it as inputs: its ask
/// balance in the asset it asked for and its give balance in the asset it
/// gives (both in one total where the assets are the same). Nothing else
/// changes but the transaction's type; it fails, with
/// `TxNumericOperationFail`, exactly when a total would overflow.
pub proof fn lemma_conclude_order_returns_balances(
    s: SummaryView,
    id: crate::primitives::H256,
    info: AdditionalOrderInfo,
)
    ensures
        ({
            let (t, r) = spec_process_input(
                s,
                TxInputWithAdditionalInfo::OrderAccountCommand(
                    OrderAccountCommand::ConcludeOrder(id),
                    info,
                ),
            );
            let asked = spec_value_key(info.initially_asked);
            let given = spec_value_key(info.initially_given);
            let ask = info.ask_balance.atoms as int;
            let give = info.give_balance.atoms as int;
            &&& r is Ok ==> forall|x: CoinOrTokenId| #[trigger]
                total_of(t.inputs, x) == total_of(s.inputs, x) + (if x == asked {
                    ask
                } else {
                    0
                }) + (if x == given {
                    give
                } else {
                    0
                })
            &&& r is Ok ==> t.outputs == s.outputs && t.tx_type == spec_merge_tx_type(
                s.tx_type,
                TxType::ConcludeOrder,
            )
            &&& r is Ok <==> total_of(s.inputs, asked) + ask <= u128::MAX && (if asked == given {
                total_of(s.inputs, asked) + ask + give
            } else {
                total_of(s.inputs, given) + give
            }) <= u128::MAX
            &&& r is Err ==> r == Err::<(), StatusWord>(StatusWord::TxNumericOperationFail)
        }),
{
    let asked = spec_value_key(info.initially_asked);
    let given = spec_value_key(info.initially_given);
    let (s1, r1) = add_input(s, asked, info.ask_balance.atoms as int);
    if r1 is Ok {
        assert(total_of(s1.inputs, asked) == total_of(s.inputs, asked) + info.ask_balance.atoms);
        assert forall|x: CoinOrTokenId| x != asked implies #[trigger] total_of(s1.inputs, x)
            == total_of(s.inputs, x) by {}
        let (s2, r2) = add_input(s1, given, info.give_balance.atoms as int);
        if r2 is Ok {
            assert forall|x: CoinOrTokenId| #[trigger]
                total_of(s2.inputs, x) == total_of(s.inputs, x) + (if x == asked {
                    info.ask_balance.atoms as int
                } else {
                    0
                }) + (if x == given {
                    info.give_balance.atoms as int
                } else {
                    0
                }) by {
                if x != given {
                    assert(total_of(s2.inputs, x) == total_of(s1.inputs, x));
                }
            }
        }
    }
}

/// Spending an output that holds a value (a transfer, a locked transfer or
/// a hashed time-locked contract) adds the value's atoms to the inputs' total
/// of its asset, and changes nothing else; it fails, with
/// `TxNumericOperationFail`, exactly when that total would overflow.
pub proof fn lemma_spent_value_is_input(
    s: SummaryView,
    outpoint: crate::primitives::UtxoOutPoint,
    utxo: TxOutput,
    v: OutputValue,
)
    requires
        (utxo matches TxOutput::Transfer(w, _) && w == v) || (utxo matches TxOutput::LockThenTransfer(
            w,
            _,
            _,
        ) && w == v) || (utxo matches TxOutput::Htlc(w, _) && w == v),
    ensures
        ({
            let (t, r) = spec_process_input(
                s,
                TxInputWithAdditionalInfo::Utxo(outpoint, AdditionalUtxoInfo::Utxo(utxo)),
            );
            &&& r is Ok ==> spec_credited(
                s.inputs,
                t.inputs,
                spec_value_key(v),
                spec_value_atoms(v) as int,
            )
            &&& r is Ok ==> t.outputs == s.outputs && t.tx_type == s.tx_type
            &&& r is Ok <==> total_of(s.inputs, spec_value_key(v)) + spec_value_atoms(v)
                <= u128::MAX
            &&& r is Err ==> r == Err::<(), StatusWord>(StatusWord::TxNumericOperationFail)
        }),
{
}

/// Withdrawing from a delegation adds the withdrawn coins to the inputs'
/// total of coins and makes it a delegation withdrawal.
pub proof fn lemma_delegation_withdrawal_is_input(
    s: SummaryView,
    acc: crate::primitives::AccountOutPoint,
)
    ensures
        ({
            let (t, r) = spec_process_input(s, TxInputWithAdditionalInfo::Account(acc));
            let AccountSpending::DelegationBalance(_, amount) = acc.spending;
            &&& r is Ok ==> spec_credited(
                s.inputs,
                t.inputs,
                CoinOrTokenId::Coin,
                amount.atoms as int,
            )
            &&& r is Ok ==> t.outputs == s.outputs && t.tx_type == spec_merge_tx_type(
                s.tx_type,
                TxType::DelegationWithdrawal,
            )
            &&& r is Ok <==> total_of(s.inputs, CoinOrTokenId::Coin) + amount.atoms <= u128::MAX
        }),
{
}

/// Minting tokens adds the minted atoms to the inputs' total of that token.
pub proof fn lemma_minted_tokens_are_input(
    s: SummaryView,
    nonce: u64,
    id: crate::primitives::H256,
    amount: Amount,
)
    ensures
        ({
            let (t, r) = spec_process_input(
                s,
                TxInputWithAdditionalInfo::AccountCommand(
                    nonce,
                    AccountCommand::MintTokens(id, amount),
                ),
            );
            &&& r is Ok ==> spec_credited(
                s.inputs,
                t.inputs,
                CoinOrTokenId::TokenId(id),
                amount.atoms as int,
            )
            &&& r is Ok ==> t.outputs == s.outputs && t.tx_type == spec_merge_tx_type(
                s.tx_type,
                TxType::MintTokens,
            )
            &&& r is Ok <==> total_of(s.inputs, CoinOrTokenId::TokenId(id)) + amount.atoms
                <= u128::MAX
        }),
{
}

/// Filling an order pays the filled atoms of the asked asset as an output
/// and receives, as an input, the given asset in proportion to what the
/// order initially gave for what it asked (rounded down). It fails, with
/// `TxNumericOperationFail`, when a total would overflow, when the product
/// of the fill and the initially given atoms does not fit in 128 bits, or
/// when the order asked for nothing.
pub proof fn lemma_fill_order_exchanges(
    s: SummaryView,
    id: crate::primitives::H256,
    fill: Amount,
    info: AdditionalOrderInfo,
)
    ensures
        ({
            let (t, r) = spec_process_input(
                s,
                TxInputWithAdditionalInfo::OrderAccountCommand(
                    OrderAccountCommand::FillOrder(id, fill),
                    info,
                ),
            );
            let asked = spec_value_atoms(info.initially_asked);
            let given = spec_value_atoms(info.initially_given);
            let ok = total_of(s.outputs, spec_value_key(info.initially_asked)) + fill.atoms
                <= u128::MAX && given * fill.atoms <= u128::MAX && asked != 0 && total_of(
                s.inputs,
                spec_value_key(info.initially_given),
            ) + (given * fill.atoms) / (asked as int) <= u128::MAX;
            &&& r is Ok <==> ok
            &&& r is Err ==> r == Err::<(), StatusWord>(StatusWord::TxNumericOperationFail)
            &&& r is Ok ==> spec_credited(
                s.outputs,
                t.outputs,
                spec_value_key(info.initially_asked),
                fill.atoms as int,
            )
            &&& r is Ok ==> spec_credited(
                s.inputs,
                t.inputs,
                spec_value_key(info.initially_given),
                (given * fill.atoms) / (asked as int),
            )
            &&& r is Ok ==> t.tx_type == spec_merge_tx_type(s.tx_type, TxType::FillOrder)
        }),
{
}

/// An output that pays a value (a transfer, a locked transfer, a burn or a
/// hashed time-locked contract) adds the value's atoms to the outputs' total
/// of its asset, and changes no input total; it fails exactly when that total
/// would overflow.
pub proof fn lemma_paid_value_is_output(s: SummaryView, out: TxOutput, v: OutputValue)
    requires
        (out matches TxOutput::Transfer(w, _) && w == v) || (out matches TxOutput::LockThenTransfer(
            w,
            _,
            _,
        ) && w == v) || (out matches TxOutput::Burn(w) && w == v) || (out matches TxOutput::Htlc(
            w,
            _,
        ) && w == v),
    ensures
        ({
            let (t, r) = spec_process_output(s, out);
            &&& r is Ok ==> spec_credited(
                s.outputs,
                t.outputs,
                spec_value_key(v),
                spec_value_atoms(v) as int,
            )
            &&& r is Ok ==> t.inputs == s.inputs
            &&& r is Ok <==> total_of(s.outputs, spec_value_key(v)) + spec_value_atoms(v)
                <= u128::MAX
        }),
{
}

/// Creating an order pays what the order gives as an output: its atoms are
/// added to the outputs' total of the given asset, and nothing of what it
/// asks for.
pub proof fn lemma_created_order_gives(s: SummaryView, data: crate::primitives::OrderData)
    ensures
        ({
            let (t, r) = spec_process_output(s, TxOutput::CreateOrder(data));
            &&& r is Ok ==> spec_credited(
                s.outputs,
                t.outputs,
                spec_value_key(data.give),
                spec_value_atoms(data.give) as int,
            )
            &&& r is Ok ==> t.inputs == s.inputs && t.tx_type == spec_merge_tx_type(
                s.tx_type,
                TxType::CreateOrder,
            )
            &&& r is Ok <==> total_of(s.outputs, spec_value_key(data.give)) + spec_value_atoms(
                data.give,
            ) <= u128::MAX
        }),
{
}

/// The fee of an asset that the inputs hold is its inputs' total less its
/// outputs' total, and an underflow exactly when the outputs hold more.
pub proof fn lemma_fee_is_difference(c: TxSummaryCollector, i: int)
    requires
        c.wf(),
        0 <= i < c.input_entries().len(),
    ensures
        ({
            let k = c.input_entries()[i].0;
            let diff = total_of(c@.inputs, k) - total_of(c@.outputs, k);
            &&& c@.inputs.contains_key(k)
            &&& spec_fees(c)[i] == if diff < 0 {
                Err::<(CoinOrTokenId, u128), StatusWord>(StatusWord::TxFeeUnderflow)
            } else {
                Ok((k, diff as u128))
            }
        }),
{
    crate::totals::lemma_entries_map_at(c.input_entries(), i);
    assert(spec_fees(c)[i] == spec_input_fees(c)[i]);
}

/// A staking pool's creation pays its pledge, and a staking delegation its
/// delegated amount, as outputs of coins.
pub proof fn lemma_staking_outputs_pay_coins(
    s: SummaryView,
    pool_id: crate::primitives::H256,
    data: crate::primitives::StakePoolData,
    amount: Amount,
    delegation_id: crate::primitives::H256,
)
    ensures
        ({
            let (t, r) = spec_process_output(s, TxOutput::CreateStakePool(pool_id, data));
            &&& r is Ok <==> total_of(s.outputs, CoinOrTokenId::Coin) + data.pledge.atoms
                <= u128::MAX
            &&& r is Ok ==> spec_credited(
                s.outputs,
                t.outputs,
                CoinOrTokenId::Coin,
                data.pledge.atoms as int,
            ) && t.inputs == s.inputs
        }),
        ({
            let (t, r) = spec_process_output(s, TxOutput::DelegateStaking(amount, delegation_id));
            &&& r is Ok <==> total_of(s.outputs, CoinOrTokenId::Coin) + amount.atoms <= u128::MAX
            &&& r is Ok ==> spec_credited(
                s.outputs,
                t.outputs,
                CoinOrTokenId::Coin,
                amount.atoms as int,
            ) && t.inputs == s.inputs
        }),
{
}

/// Spending a staking pool's output brings back its pledge, spending a pool
/// with its data brings back the staker's balance (and decommissions the
/// pool), and spending an NFT brings back that one token; all as inputs.
pub proof fn lemma_pool_and_nft_inputs(
    s: SummaryView,
    outpoint: crate::primitives::UtxoOutPoint,
    utxo: TxOutput,
    staker_balance: Amount,
)
    ensures
        ({
            let (t, r) = spec_process_input(
                s,
                TxInputWithAdditionalInfo::Utxo(
                    outpoint,
                    AdditionalUtxoInfo::UtxoWithPoolData { utxo, staker_balance },
                ),
            );
            &&& r is Ok <==> total_of(s.inputs, CoinOrTokenId::Coin) + staker_balance.atoms
                <= u128::MAX
            &&& r is Ok ==> spec_credited(
                s.inputs,
                t.inputs,
                CoinOrTokenId::Coin,
                staker_balance.atoms as int,
            ) && t.outputs == s.outputs && t.tx_type == spec_merge_tx_type(
                s.tx_type,
                TxType::DecommissionStakePool,
            )
        }),
        utxo matches TxOutput::CreateStakePool(_, data) ==> {
            let (t, r) = spec_process_input(
                s,
                TxInputWithAdditionalInfo::Utxo(outpoint, AdditionalUtxoInfo::Utxo(utxo)),
            );
            &&& r is Ok <==> total_of(s.inputs, CoinOrTokenId::Coin) + data.pledge.atoms
                <= u128::MAX
            &&& r is Ok ==> spec_credited(
                s.inputs,
                t.inputs,
                CoinOrTokenId::Coin,
                data.pledge.atoms as int,
            )
        },
        utxo matches TxOutput::IssueNft(id, _, _) ==> {
            let (t, r) = spec_process_input(
                s,
                TxInputWithAdditionalInfo::Utxo(outpoint, AdditionalUtxoInfo::Utxo(utxo)),
            );
            &&& r is Ok <==> total_of(s.inputs, CoinOrTokenId::TokenId(id)) + 1 <= u128::MAX
            &&& r is Ok ==> spec_credited(s.inputs, t.inputs, CoinOrTokenId::TokenId(id), 1)
        },
{
}

} // verus!
