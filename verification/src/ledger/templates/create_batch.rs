//! The ledger template that a batch of payouts is posted with: its
//! parameters, its transaction input, and its sixteen entries, which keep
//! every layer of the ledger balanced.
use crate::error::BriaError;
use crate::ledger::constants::{
    create_batch_code, CREATE_BATCH_ID, LOGICAL_AT_REST_ID, LOGICAL_OUTGOING_ID, ONCHAIN_FEE_ID,
    ONCHAIN_UTXO_AT_REST_ID, ONCHAIN_UTXO_INCOMING_ID, ONCHAIN_UTXO_OUTGOING_ID,
};
use crate::primitives::{
    btc_of, uuid_hyphenated, uuid_text, BatchGroupId, BatchId, BtcAmount, JournalId, Satoshis, Txid,
};
use vstd::prelude::*;

verus! {

/// The types a template parameter can have.
#[derive(Clone, Copy, Debug, PartialEq, Eq)]
pub enum ParamDataType {
    String,
    Integer,
    Decimal,
    Boolean,
    Uuid,
    Date,
    Timestamp,
    Json,
}

/// The parameters of the batch template.
#[derive(Clone, Copy, Debug, PartialEq, Eq)]
pub enum CreateBatchParam {
    JournalId,
    LogicalOutgoingAccountId,
    LogicalAtRestAccountId,
    OnchainFeeAccountId,
    OnchainAtRestAccountId,
    OnchainIncomeAccountId,
    OnchainOutgoingAccountId,
    TotalIn,
    TotalSpent,
    Fees,
    ReservedFees,
    CorrelationId,
    Meta,
    Effective,
}

/// The name a parameter is defined and referred to by.
pub open spec fn param_name(param: CreateBatchParam) -> Seq<char> {
    match param {
        CreateBatchParam::JournalId => "journal_id"@,
        CreateBatchParam::LogicalOutgoingAccountId => "logical_outgoing_account_id"@,
        CreateBatchParam::LogicalAtRestAccountId => "logical_at_rest_account_id"@,
        CreateBatchParam::OnchainFeeAccountId => "onchain_fee_account_id"@,
        CreateBatchParam::OnchainAtRestAccountId => "onchain_at_rest_account_id"@,
        CreateBatchParam::OnchainIncomeAccountId => "onchain_income_account_id"@,
        CreateBatchParam::OnchainOutgoingAccountId => "onchain_outgoing_account_id"@,
        CreateBatchParam::TotalIn => "total_in"@,
        CreateBatchParam::TotalSpent => "total_spent"@,
        CreateBatchParam::Fees => "fees"@,
        CreateBatchParam::ReservedFees => "reserved_fees"@,
        CreateBatchParam::CorrelationId => "correlation_id"@,
        CreateBatchParam::Meta => "meta"@,
        CreateBatchParam::Effective => "effective"@,
    }
}

/// The declared type of a parameter.
pub open spec fn param_type(param: CreateBatchParam) -> ParamDataType {
    match param {
        CreateBatchParam::TotalIn
        | CreateBatchParam::TotalSpent
        | CreateBatchParam::Fees
        | CreateBatchParam::ReservedFees => ParamDataType::Decimal,
        CreateBatchParam::Meta => ParamDataType::Json,
        CreateBatchParam::Effective => ParamDataType::Date,
        _ => ParamDataType::Uuid,
    }
}

/// The parameters of the batch template in the order they are defined.
pub open spec fn batch_params() -> Seq<CreateBatchParam> {
    seq![
        CreateBatchParam::JournalId,
        CreateBatchParam::LogicalOutgoingAccountId,
        CreateBatchParam::LogicalAtRestAccountId,
        CreateBatchParam::OnchainFeeAccountId,
        CreateBatchParam::OnchainAtRestAccountId,
        CreateBatchParam::OnchainIncomeAccountId,
        CreateBatchParam::OnchainOutgoingAccountId,
        CreateBatchParam::TotalIn,
        CreateBatchParam::TotalSpent,
        CreateBatchParam::Fees,
        CreateBatchParam::ReservedFees,
        CreateBatchParam::CorrelationId,
        CreateBatchParam::Meta,
        CreateBatchParam::Effective,
    ]
}

impl CreateBatchParam {
    /// The name of the parameter.
    pub fn name(&self) -> (name: &'static str)
        ensures
            name@ == param_name(*self),
    {
        match self {
            CreateBatchParam::JournalId => "journal_id",
            CreateBatchParam::LogicalOutgoingAccountId => "logical_outgoing_account_id",
            CreateBatchParam::LogicalAtRestAccountId => "logical_at_rest_account_id",
            CreateBatchParam::OnchainFeeAccountId => "onchain_fee_account_id",
            CreateBatchParam::OnchainAtRestAccountId => "onchain_at_rest_account_id",
            CreateBatchParam::OnchainIncomeAccountId => "onchain_income_account_id",
            CreateBatchParam::OnchainOutgoingAccountId => "onchain_outgoing_account_id",
            CreateBatchParam::TotalIn => "total_in",
            CreateBatchParam::TotalSpent => "total_spent",
            CreateBatchParam::Fees => "fees",
            CreateBatchParam::ReservedFees => "reserved_fees",
            CreateBatchParam::CorrelationId => "correlation_id",
            CreateBatchParam::Meta => "meta",
            CreateBatchParam::Effective => "effective",
        }
    }

    /// The declared type of the parameter.
    pub fn data_type(&self) -> (data_type: ParamDataType)
        ensures
            data_type == param_type(*self),
    {
        match self {
            CreateBatchParam::TotalIn
            | CreateBatchParam::TotalSpent
            | CreateBatchParam::Fees
            | CreateBatchParam::ReservedFees => ParamDataType::Decimal,
            CreateBatchParam::Meta => ParamDataType::Json,
            CreateBatchParam::Effective => ParamDataType::Date,
            _ => ParamDataType::Uuid,
        }
    }
}

/// All parameters of the batch template, in the order they are defined.
pub fn all_batch_params() -> (params: Vec<CreateBatchParam>)
    ensures
        params@ == batch_params(),
{
    let params = vec![
        CreateBatchParam::JournalId,
        CreateBatchParam::LogicalOutgoingAccountId,
        CreateBatchParam::LogicalAtRestAccountId,
        CreateBatchParam::OnchainFeeAccountId,
        CreateBatchParam::OnchainAtRestAccountId,
        CreateBatchParam::OnchainIncomeAccountId,
        CreateBatchParam::OnchainOutgoingAccountId,
        CreateBatchParam::TotalIn,
        CreateBatchParam::TotalSpent,
        CreateBatchParam::Fees,
        CreateBatchParam::ReservedFees,
        CreateBatchParam::CorrelationId,
        CreateBatchParam::Meta,
        CreateBatchParam::Effective,
    ];
    assert(params@ =~= batch_params());
    params
}

/// The definition of one template parameter: its name and type.
#[derive(Debug)]
pub struct ParamDefinition {
    pub name: String,
    pub data_type: ParamDataType,
}

/// `defs` defines the parameters `params`, in order, by name and type.
pub open spec fn defines(defs: Seq<ParamDefinition>, params: Seq<CreateBatchParam>) -> bool {
    &&& defs.len() == params.len()
    &&& forall|i: int|
        0 <= i < defs.len() ==> {
            &&& (#[trigger] defs[i]).name@ == param_name(params[i])
            &&& defs[i].data_type == param_type(params[i])
        }
}

/// What a batch's ledger transaction records about it.
#[derive(Clone, Copy, Debug, PartialEq, Eq)]
pub struct CreateBatchMeta {
    pub batch_id: BatchId,
    pub batch_group_id: BatchGroupId,
    pub bitcoin_tx_id: Txid,
}

/// The ledger accounts of a wallet.
#[derive(Clone, Copy, Debug, PartialEq, Eq)]
pub struct WalletLedgerAccountIds {
    pub onchain_incoming_id: u128,
    pub onchain_at_rest_id: u128,
    pub onchain_outgoing_id: u128,
    pub logical_at_rest_id: u128,
    pub logical_outgoing_id: u128,
    pub fee_id: u128,
}

/// The values a batch is posted to the ledger with.
#[derive(Debug)]
pub struct CreateBatchParams {
    pub journal_id: JournalId,
    pub ledger_account_ids: WalletLedgerAccountIds,
    pub total_in_sats: Satoshis,
    pub total_spent_sats: Satoshis,
    pub fee_sats: Satoshis,
    pub reserved_fees: Satoshis,
    pub correlation_id: u128,
    pub meta: CreateBatchMeta,
}

impl CreateBatchParams {
    /// The definitions of the template's parameters, in order.
    pub fn defs() -> (defs: Vec<ParamDefinition>)
        ensures
            defines(defs@, batch_params()),
    {
        let params = all_batch_params();
        let mut defs: Vec<ParamDefinition> = Vec::new();
        let mut i: usize = 0;
        while i < params.len()
            invariant
                params@ == batch_params(),
                i <= params@.len(),
                defines(defs@, params@.take(i as int)),
            decreases params@.len() - i,
        {
            let param = params[i];
            defs.push(ParamDefinition { name: String::from_str(param.name()), data_type: param.data_type() });
            i += 1;
        }
        assert(params@.take(params@.len() as int) =~= params@);
        defs
    }
}

/// The layer of the ledger an entry books to.
#[derive(Clone, Copy, Debug, PartialEq, Eq)]
pub enum Layer {
    Settled,
    Pending,
    Encumbered,
}

/// The side of an entry.
#[derive(Clone, Copy, Debug, PartialEq, Eq)]
pub enum Direction {
    Debit,
    Credit,
}

/// The account an entry books to: one given as a parameter of the
/// transaction, or one of the accounts that all wallets share.
#[derive(Clone, Copy, Debug, PartialEq, Eq)]
pub enum EntryAccount {
    Param(CreateBatchParam),
    Fixed(u128),
}

/// One amount parameter of an entry's units, added or subtracted.
#[derive(Clone, Copy, Debug, PartialEq, Eq)]
pub struct UnitTerm {
    pub negated: bool,
    pub param: CreateBatchParam,
}

/// One entry of a template: its type code, currency, account, side, layer,
/// and its units as a sum of amount parameters.
#[derive(Debug)]
pub struct EntryTemplate {
    pub entry_type: &'static str,
    pub currency: &'static str,
    pub account: EntryAccount,
    pub direction: Direction,
    pub layer: Layer,
    pub units: Vec<UnitTerm>,
}

/// The mathematical value of an [`EntryTemplate`].
pub struct EntrySpec {
    pub entry_type: Seq<char>,
    pub currency: Seq<char>,
    pub account: EntryAccount,
    pub direction: Direction,
    pub layer: Layer,
    pub units: Seq<UnitTerm>,
}

impl View for EntryTemplate {
    type V = EntrySpec;

    open spec fn view(&self) -> EntrySpec {
        EntrySpec {
            entry_type: self.entry_type@,
            currency: self.currency@,
            account: self.account,
            direction: self.direction,
            layer: self.layer,
            units: self.units@,
        }
    }
}

/// The entries of the batch template: each movement is booked twice, once
/// on the wallet's account and once on a shared account, on opposite sides.
pub open spec fn batch_entries() -> Seq<EntrySpec> {
    seq![
        EntrySpec {
            entry_type: "CREATE_BATCH_LOGICAL_ENCUMBERED_DR"@,
            currency: "BTC"@,
            account: EntryAccount::Param(CreateBatchParam::LogicalOutgoingAccountId),
            direction: Direction::Debit,
            layer: Layer::Encumbered,
            units: seq![UnitTerm { negated: false, param: CreateBatchParam::TotalSpent }],
        },
        EntrySpec {
            entry_type: "CREATE_BATCH_LOGICAL_ENCUMBERED_CR"@,
            currency: "BTC"@,
            account: EntryAccount::Fixed(LOGICAL_OUTGOING_ID),
            direction: Direction::Credit,
            layer: Layer::Encumbered,
            units: seq![UnitTerm { negated: false, param: CreateBatchParam::TotalSpent }],
        },
        EntrySpec {
            entry_type: "CREATE_BATCH_LOGICAL_PENDING_CR"@,
            currency: "BTC"@,
            account: EntryAccount::Param(CreateBatchParam::LogicalOutgoingAccountId),
            direction: Direction::Credit,
            layer: Layer::Pending,
            units: seq![UnitTerm { negated: false, param: CreateBatchParam::TotalSpent }],
        },
        EntrySpec {
            entry_type: "CREATE_BATCH_LOGICAL_PENDING_DR"@,
            currency: "BTC"@,
            account: EntryAccount::Fixed(LOGICAL_OUTGOING_ID),
            direction: Direction::Debit,
            layer: Layer::Pending,
            units: seq![UnitTerm { negated: false, param: CreateBatchParam::TotalSpent }],
        },
        EntrySpec {
            entry_type: "CREATE_BATCH_LOGICAL_SETTLED_DR"@,
            currency: "BTC"@,
            account: EntryAccount::Param(CreateBatchParam::LogicalAtRestAccountId),
            direction: Direction::Debit,
            layer: Layer::Settled,
            units: seq![UnitTerm { negated: false, param: CreateBatchParam::TotalSpent }, UnitTerm { negated: false, param: CreateBatchParam::Fees }],
        },
        EntrySpec {
            entry_type: "CREATE_BATCH_LOGICAL_SETTLED_CR"@,
            currency: "BTC"@,
            account: EntryAccount::Fixed(LOGICAL_AT_REST_ID),
            direction: Direction::Credit,
            layer: Layer::Settled,
            units: seq![UnitTerm { negated: false, param: CreateBatchParam::TotalSpent }, UnitTerm { negated: false, param: CreateBatchParam::Fees }],
        },
        EntrySpec {
            entry_type: "CREATE_BATCH_FEE_PENDING_DR"@,
            currency: "BTC"@,
            account: EntryAccount::Param(CreateBatchParam::OnchainFeeAccountId),
            direction: Direction::Debit,
            layer: Layer::Pending,
            units: seq![UnitTerm { negated: false, param: CreateBatchParam::Fees }],
        },
        EntrySpec {
            entry_type: "CREATE_BATCH_FEE_PENDING_CR"@,
            currency: "BTC"@,
            account: EntryAccount::Fixed(ONCHAIN_FEE_ID),
            direction: Direction::Credit,
            layer: Layer::Pending,
            units: seq![UnitTerm { negated: false, param: CreateBatchParam::Fees }],
        },
        EntrySpec {
            entry_type: "CREATE_BATCH_FEE_ENCUMBERED_CR"@,
            currency: "BTC"@,
            account: EntryAccount::Param(CreateBatchParam::OnchainFeeAccountId),
            direction: Direction::Credit,
            layer: Layer::Encumbered,
            units: seq![UnitTerm { negated: false, param: CreateBatchParam::ReservedFees }],
        },
        EntrySpec {
            entry_type: "CREATE_BATCH_FEE_ENCUMBERED_DR"@,
            currency: "BTC"@,
            account: EntryAccount::Fixed(ONCHAIN_FEE_ID),
            direction: Direction::Debit,
            layer: Layer::Encumbered,
            units: seq![UnitTerm { negated: false, param: CreateBatchParam::ReservedFees }],
        },
        EntrySpec {
            entry_type: "CREATE_BATCH_UTXO_PENDING_DR"@,
            currency: "BTC"@,
            account: EntryAccount::Fixed(ONCHAIN_UTXO_OUTGOING_ID),
            direction: Direction::Debit,
            layer: Layer::Pending,
            units: seq![UnitTerm { negated: false, param: CreateBatchParam::TotalIn }, UnitTerm { negated: true, param: CreateBatchParam::Fees }],
        },
        EntrySpec {
            entry_type: "CREATE_BATCH_UTXO_PENDING_CR"@,
            currency: "BTC"@,
            account: EntryAccount::Param(CreateBatchParam::OnchainOutgoingAccountId),
            direction: Direction::Credit,
            layer: Layer::Pending,
            units: seq![UnitTerm { negated: false, param: CreateBatchParam::TotalIn }, UnitTerm { negated: true, param: CreateBatchParam::Fees }],
        },
        EntrySpec {
            entry_type: "CREATE_BATCH_UTXO_SETTLED_DR"@,
            currency: "BTC"@,
            account: EntryAccount::Param(CreateBatchParam::OnchainAtRestAccountId),
            direction: Direction::Debit,
            layer: Layer::Settled,
            units: seq![UnitTerm { negated: false, param: CreateBatchParam::TotalIn }],
        },
        EntrySpec {
            entry_type: "CREATE_BATCH_UTXO_SETTLED_CR"@,
            currency: "BTC"@,
            account: EntryAccount::Fixed(ONCHAIN_UTXO_AT_REST_ID),
            direction: Direction::Credit,
            layer: Layer::Settled,
            units: seq![UnitTerm { negated: false, param: CreateBatchParam::TotalIn }],
        },
        EntrySpec {
            entry_type: "CREATE_BATCH_UTXO_ENCUMBERED_DR"@,
            currency: "BTC"@,
            account: EntryAccount::Fixed(ONCHAIN_UTXO_INCOMING_ID),
            direction: Direction::Debit,
            layer: Layer::Encumbered,
            units: seq![UnitTerm { negated: false, param: CreateBatchParam::TotalIn }, UnitTerm { negated: true, param: CreateBatchParam::Fees }, UnitTerm { negated: true, param: CreateBatchParam::TotalSpent }],
        },
        EntrySpec {
            entry_type: "CREATE_BATCH_UTXO_ENCUMBERED_CR"@,
            currency: "BTC"@,
            account: EntryAccount::Param(CreateBatchParam::OnchainIncomeAccountId),
            direction: Direction::Credit,
            layer: Layer::Encumbered,
            units: seq![UnitTerm { negated: false, param: CreateBatchParam::TotalIn }, UnitTerm { negated: true, param: CreateBatchParam::Fees }, UnitTerm { negated: true, param: CreateBatchParam::TotalSpent }],
        },
    ]
}

/// A bitcoin entry of the batch template.
fn entry(
    entry_type: &'static str,
    account: EntryAccount,
    direction: Direction,
    layer: Layer,
    units: Vec<UnitTerm>,
) -> (e: EntryTemplate)
    ensures
        e@ == (EntrySpec {
            entry_type: entry_type@,
            currency: "BTC"@,
            account,
            direction,
            layer,
            units: units@,
        }),
{
    EntryTemplate { entry_type, currency: "BTC", account, direction, layer, units }
}

/// The views of `entries`.
pub open spec fn entry_specs(entries: Seq<EntryTemplate>) -> Seq<EntrySpec> {
    entries.map_values(|e: EntryTemplate| e@)
}

/// Units made of one term.
fn units_1(a: UnitTerm) -> (units: Vec<UnitTerm>)
    ensures
        units@ == seq![a],
{
    let units = vec![a];
    assert(units@ =~= seq![a]);
    units
}

/// Units made of two terms.
fn units_2(a: UnitTerm, b: UnitTerm) -> (units: Vec<UnitTerm>)
    ensures
        units@ == seq![a, b],
{
    let units = vec![a, b];
    assert(units@ =~= seq![a, b]);
    units
}

/// Units made of three terms.
fn units_3(a: UnitTerm, b: UnitTerm, c: UnitTerm) -> (units: Vec<UnitTerm>)
    ensures
        units@ == seq![a, b, c],
{
    let units = vec![a, b, c];
    assert(units@ =~= seq![a, b, c]);
    units
}

pub fn batch_entry_templates() -> (entries: Vec<EntryTemplate>)
    ensures
        entry_specs(entries@) == batch_entries(),
{
    let mut entries: Vec<EntryTemplate> = Vec::new();
    entries.push(
        entry(
            "CREATE_BATCH_LOGICAL_ENCUMBERED_DR",
            EntryAccount::Param(CreateBatchParam::LogicalOutgoingAccountId),
            Direction::Debit,
            Layer::Encumbered,
            units_1(UnitTerm { negated: false, param: CreateBatchParam::TotalSpent }),
        ),
    );
    entries.push(
        entry(
            "CREATE_BATCH_LOGICAL_ENCUMBERED_CR",
            EntryAccount::Fixed(LOGICAL_OUTGOING_ID),
            Direction::Credit,
            Layer::Encumbered,
            units_1(UnitTerm { negated: false, param: CreateBatchParam::TotalSpent }),
        ),
    );
    entries.push(
        entry(
            "CREATE_BATCH_LOGICAL_PENDING_CR",
            EntryAccount::Param(CreateBatchParam::LogicalOutgoingAccountId),
            Direction::Credit,
            Layer::Pending,
            units_1(UnitTerm { negated: false, param: CreateBatchParam::TotalSpent }),
        ),
    );
    entries.push(
        entry(
            "CREATE_BATCH_LOGICAL_PENDING_DR",
            EntryAccount::Fixed(LOGICAL_OUTGOING_ID),
            Direction::Debit,
            Layer::Pending,
            units_1(UnitTerm { negated: false, param: CreateBatchParam::TotalSpent }),
        ),
    );
    entries.push(
        entry(
            "CREATE_BATCH_LOGICAL_SETTLED_DR",
            EntryAccount::Param(CreateBatchParam::LogicalAtRestAccountId),
            Direction::Debit,
            Layer::Settled,
            units_2(UnitTerm { negated: false, param: CreateBatchParam::TotalSpent }, UnitTerm { negated: false, param: CreateBatchParam::Fees }),
        ),
    );
    entries.push(
        entry(
            "CREATE_BATCH_LOGICAL_SETTLED_CR",
            EntryAccount::Fixed(LOGICAL_AT_REST_ID),
            Direction::Credit,
            Layer::Settled,
            units_2(UnitTerm { negated: false, param: CreateBatchParam::TotalSpent }, UnitTerm { negated: false, param: CreateBatchParam::Fees }),
        ),
    );
    entries.push(
        entry(
            "CREATE_BATCH_FEE_PENDING_DR",
            EntryAccount::Param(CreateBatchParam::OnchainFeeAccountId),
            Direction::Debit,
            Layer::Pending,
            units_1(UnitTerm { negated: false, param: CreateBatchParam::Fees }),
        ),
    );
    entries.push(
        entry(
            "CREATE_BATCH_FEE_PENDING_CR",
            EntryAccount::Fixed(ONCHAIN_FEE_ID),
            Direction::Credit,
            Layer::Pending,
            units_1(UnitTerm { negated: false, param: CreateBatchParam::Fees }),
        ),
    );
    entries.push(
        entry(
            "CREATE_BATCH_FEE_ENCUMBERED_CR",
            EntryAccount::Param(CreateBatchParam::OnchainFeeAccountId),
            Direction::Credit,
            Layer::Encumbered,
            units_1(UnitTerm { negated: false, param: CreateBatchParam::ReservedFees }),
        ),
    );
    entries.push(
        entry(
            "CREATE_BATCH_FEE_ENCUMBERED_DR",
            EntryAccount::Fixed(ONCHAIN_FEE_ID),
            Direction::Debit,
            Layer::Encumbered,
            units_1(UnitTerm { negated: false, param: CreateBatchParam::ReservedFees }),
        ),
    );
    entries.push(
        entry(
            "CREATE_BATCH_UTXO_PENDING_DR",
            EntryAccount::Fixed(ONCHAIN_UTXO_OUTGOING_ID),
            Direction::Debit,
            Layer::Pending,
            units_2(UnitTerm { negated: false, param: CreateBatchParam::TotalIn }, UnitTerm { negated: true, param: CreateBatchParam::Fees }),
        ),
    );
    entries.push(
        entry(
            "CREATE_BATCH_UTXO_PENDING_CR",
            EntryAccount::Param(CreateBatchParam::OnchainOutgoingAccountId),
            Direction::Credit,
            Layer::Pending,
            units_2(UnitTerm { negated: false, param: CreateBatchParam::TotalIn }, UnitTerm { negated: true, param: CreateBatchParam::Fees }),
        ),
    );
    entries.push(
        entry(
            "CREATE_BATCH_UTXO_SETTLED_DR",
            EntryAccount::Param(CreateBatchParam::OnchainAtRestAccountId),
            Direction::Debit,
            Layer::Settled,
            units_1(UnitTerm { negated: false, param: CreateBatchParam::TotalIn }),
        ),
    );
    entries.push(
        entry(
            "CREATE_BATCH_UTXO_SETTLED_CR",
            EntryAccount::Fixed(ONCHAIN_UTXO_AT_REST_ID),
            Direction::Credit,
            Layer::Settled,
            units_1(UnitTerm { negated: false, param: CreateBatchParam::TotalIn }),
        ),
    );
    entries.push(
        entry(
            "CREATE_BATCH_UTXO_ENCUMBERED_DR",
            EntryAccount::Fixed(ONCHAIN_UTXO_INCOMING_ID),
            Direction::Debit,
            Layer::Encumbered,
            units_3(UnitTerm { negated: false, param: CreateBatchParam::TotalIn }, UnitTerm { negated: true, param: CreateBatchParam::Fees }, UnitTerm { negated: true, param: CreateBatchParam::TotalSpent }),
        ),
    );
    entries.push(
        entry(
            "CREATE_BATCH_UTXO_ENCUMBERED_CR",
            EntryAccount::Param(CreateBatchParam::OnchainIncomeAccountId),
            Direction::Credit,
            Layer::Encumbered,
            units_3(UnitTerm { negated: false, param: CreateBatchParam::TotalIn }, UnitTerm { negated: true, param: CreateBatchParam::Fees }, UnitTerm { negated: true, param: CreateBatchParam::TotalSpent }),
        ),
    );
    assert(entry_specs(entries@) =~= batch_entries());
    entries
}

/// The amount one term adds to an entry's units, given the amount that
/// each parameter stands for.
pub open spec fn term_amount(term: UnitTerm, amounts: spec_fn(CreateBatchParam) -> int) -> int {
    if term.negated {
        -amounts(term.param)
    } else {
        amounts(term.param)
    }
}

/// The amount of the first `n` terms of `units`.
pub open spec fn units_amount_upto(
    units: Seq<UnitTerm>,
    n: nat,
    amounts: spec_fn(CreateBatchParam) -> int,
) -> int
    decreases n,
{
    if n == 0 {
        0
    } else {
        units_amount_upto(units, (n - 1) as nat, amounts) + term_amount(units[n - 1], amounts)
    }
}

/// The amount an entry's units stand for.
pub open spec fn units_amount(units: Seq<UnitTerm>, amounts: spec_fn(CreateBatchParam) -> int) -> int {
    units_amount_upto(units, units.len(), amounts)
}

/// What an entry adds to the balance of `layer`: its amount if it is a
/// debit there, minus its amount if it is a credit there, else nothing.
pub open spec fn entry_balance(
    entry: EntrySpec,
    layer: Layer,
    amounts: spec_fn(CreateBatchParam) -> int,
) -> int {
    if entry.layer == layer {
        match entry.direction {
            Direction::Debit => units_amount(entry.units, amounts),
            Direction::Credit => -units_amount(entry.units, amounts),
        }
    } else {
        0
    }
}

/// Debits minus credits of the first `n` entries in `layer`.
pub open spec fn layer_balance_upto(
    entries: Seq<EntrySpec>,
    n: nat,
    layer: Layer,
    amounts: spec_fn(CreateBatchParam) -> int,
) -> int
    decreases n,
{
    if n == 0 {
        0
    } else {
        layer_balance_upto(entries, (n - 1) as nat, layer, amounts) + entry_balance(
            entries[n - 1],
            layer,
            amounts,
        )
    }
}

/// Debits minus credits of `entries` in `layer`.
pub open spec fn layer_balance(
    entries: Seq<EntrySpec>,
    layer: Layer,
    amounts: spec_fn(CreateBatchParam) -> int,
) -> int {
    layer_balance_upto(entries, entries.len(), layer, amounts)
}

/// Whatever amounts a batch is posted with, the batch template debits each
/// layer of the ledger by exactly what it credits there, and it books every
/// entry in bitcoin: the transaction it produces is balanced.
pub proof fn lemma_batch_template_balanced(
    layer: Layer,
    amounts: spec_fn(CreateBatchParam) -> int,
)
    ensures
        layer_balance(batch_entries(), layer, amounts) == 0,
        forall|i: int| 0 <= i < batch_entries().len() ==> #[trigger] batch_entries()[i].currency == "BTC"@,
{
    let entries = batch_entries();
    reveal_with_fuel(layer_balance_upto, 17);
    reveal_with_fuel(units_amount_upto, 4);
    assert(layer_balance(entries, layer, amounts) == 0);
}

/// The expression that refers to a parameter.
pub open spec fn param_ref(param: CreateBatchParam) -> Seq<char> {
    "params."@ + param_name(param)
}

/// `text` as a string literal of the template language.
pub open spec fn quoted(text: Seq<char>) -> Seq<char> {
    "'"@ + text + "'"@
}

/// The expression for the account of an entry.
pub open spec fn account_expr(account: EntryAccount) -> Seq<char> {
    match account {
        EntryAccount::Param(param) => param_ref(param),
        EntryAccount::Fixed(id) => "uuid('"@ + uuid_hyphenated(id) + "')"@,
    }
}

/// The expression for the side of an entry.
pub open spec fn direction_expr(direction: Direction) -> Seq<char> {
    match direction {
        Direction::Debit => "DEBIT"@,
        Direction::Credit => "CREDIT"@,
    }
}

/// The expression for the layer of an entry.
pub open spec fn layer_expr(layer: Layer) -> Seq<char> {
    match layer {
        Layer::Settled => "SETTLED"@,
        Layer::Pending => "PENDING"@,
        Layer::Encumbered => "ENCUMBERED"@,
    }
}

/// The expression for the first `n` terms of an entry's units: the first
/// parameter, then each further one after ` + ` or ` - `.
pub open spec fn units_expr_upto(units: Seq<UnitTerm>, n: nat) -> Seq<char>
    decreases n,
{
    if n == 0 {
        Seq::empty()
    } else if n == 1 {
        param_ref(units[0].param)
    } else {
        units_expr_upto(units, (n - 1) as nat) + (if units[n - 1].negated {
            " - "@
        } else {
            " + "@
        }) + param_ref(units[n - 1].param)
    }
}

/// The expression for an entry's units.
pub open spec fn units_expr(units: Seq<UnitTerm>) -> Seq<char> {
    units_expr_upto(units, units.len())
}

/// Units can be written as an expression: there is a first term, and it is added.
pub open spec fn units_wf(units: Seq<UnitTerm>) -> bool {
    units.len() >= 1 && !units[0].negated
}

/// An entry written as the expressions the ledger evaluates.
#[derive(Debug)]
pub struct RenderedEntry {
    pub entry_type: String,
    pub currency: String,
    pub account_id: String,
    pub direction: String,
    pub layer: String,
    pub units: String,
}

/// The expression that refers to `param`.
fn param_ref_text(param: CreateBatchParam) -> (text: String)
    ensures
        text@ == param_ref(param),
{
    let mut text = String::from_str("params.");
    text.append(param.name());
    text
}

/// `text` as a string literal of the template language.
fn quoted_text(text: &str) -> (quoted_text: String)
    ensures
        quoted_text@ == quoted(text@),
{
    let mut out = String::from_str("'");
    out.append(text);
    out.append("'");
    out
}

impl EntryTemplate {
    /// Writes the entry as the expressions the ledger evaluates.
    pub fn render(&self) -> (rendered: RenderedEntry)
        ensures
            rendered.entry_type@ == quoted(self.entry_type@),
            rendered.currency@ == quoted(self.currency@),
            rendered.account_id@ == account_expr(self.account),
            rendered.direction@ == direction_expr(self.direction),
            rendered.layer@ == layer_expr(self.layer),
            rendered.units@ == units_expr(self.units@),
    {
        let account_id = match self.account {
            EntryAccount::Param(param) => param_ref_text(param),
            EntryAccount::Fixed(id) => {
                let mut text = String::from_str("uuid('");
                let id_text = uuid_text(id);
                text.append(id_text.as_str());
                text.append("')");
                text
            },
        };
        let direction = match self.direction {
            Direction::Debit => String::from_str("DEBIT"),
            Direction::Credit => String::from_str("CREDIT"),
        };
        let layer = match self.layer {
            Layer::Settled => String::from_str("SETTLED"),
            Layer::Pending => String::from_str("PENDING"),
            Layer::Encumbered => String::from_str("ENCUMBERED"),
        };
        let mut units = String::new();
        let mut i: usize = 0;
        while i < self.units.len()
            invariant
                i <= self.units@.len(),
                units@ == units_expr_upto(self.units@, i as nat),
            decreases self.units@.len() - i,
        {
            let term = self.units[i];
            if i > 0 {
                if term.negated {
                    units.append(" - ");
                } else {
                    units.append(" + ");
                }
            }
            units.append("params.");
            units.append(term.param.name());
            i += 1;
        }
        RenderedEntry {
            entry_type: quoted_text(self.entry_type),
            currency: quoted_text(self.currency),
            account_id,
            direction,
            layer,
            units,
        }
    }
}

/// The transaction a template produces: which parameters give its journal,
/// effective date, correlation id and metadata, and its description.
#[derive(Clone, Copy, Debug, PartialEq, Eq)]
pub struct TxInputTemplate {
    pub journal_id: CreateBatchParam,
    pub effective: CreateBatchParam,
    pub correlation_id: CreateBatchParam,
    pub metadata: CreateBatchParam,
    pub description: &'static str,
}

/// The transaction input of the batch template.
pub open spec fn batch_tx_input() -> TxInputTemplate {
    TxInputTemplate {
        journal_id: CreateBatchParam::JournalId,
        effective: CreateBatchParam::Effective,
        correlation_id: CreateBatchParam::CorrelationId,
        metadata: CreateBatchParam::Meta,
        description: "Construct Batch",
    }
}

/// A transaction input written as the expressions the ledger evaluates.
#[derive(Debug)]
pub struct RenderedTxInput {
    pub journal_id: String,
    pub effective: String,
    pub correlation_id: String,
    pub metadata: String,
    pub description: String,
}

impl TxInputTemplate {
    /// Writes the transaction input as the expressions the ledger evaluates.
    pub fn render(&self) -> (rendered: RenderedTxInput)
        ensures
            rendered.journal_id@ == param_ref(self.journal_id),
            rendered.effective@ == param_ref(self.effective),
            rendered.correlation_id@ == param_ref(self.correlation_id),
            rendered.metadata@ == param_ref(self.metadata),
            rendered.description@ == quoted(self.description@),
    {
        RenderedTxInput {
            journal_id: param_ref_text(self.journal_id),
            effective: param_ref_text(self.effective),
            correlation_id: param_ref_text(self.correlation_id),
            metadata: param_ref_text(self.metadata),
            description: quoted_text(self.description),
        }
    }
}

/// A ledger transaction template: id, code, transaction input, entries and
/// parameter definitions.
#[derive(Debug)]
pub struct BatchTemplate {
    pub id: u128,
    pub code: &'static str,
    pub tx_input: TxInputTemplate,
    pub entries: Vec<EntryTemplate>,
    pub params: Vec<ParamDefinition>,
}

/// How creating a template in the ledger went.
#[derive(Debug)]
pub enum TemplateCreation {
    Created,
    /// A template with the same id or code is already there.
    AlreadyExists,
    Failed(sqlx_ledger::SqlxLedgerError),
}

/// Registers the batch template with the ledger.
pub struct CreateBatch {}

impl CreateBatch {
    /// The batch template.
    pub fn template() -> (template: BatchTemplate)
        ensures
            template.id == CREATE_BATCH_ID,
            template.code@ == create_batch_code(),
            template.tx_input == batch_tx_input(),
            entry_specs(template.entries@) == batch_entries(),
            defines(template.params@, batch_params()),
    {
        BatchTemplate {
            id: CREATE_BATCH_ID,
            code: "CREATE_BATCH",
            tx_input: TxInputTemplate {
                journal_id: CreateBatchParam::JournalId,
                effective: CreateBatchParam::Effective,
                correlation_id: CreateBatchParam::CorrelationId,
                metadata: CreateBatchParam::Meta,
                description: "Construct Batch",
            },
            entries: batch_entry_templates(),
            params: CreateBatchParams::defs(),
        }
    }

    /// What registering the template comes to: a template that is already
    /// there counts as registered; any other failure is the ledger's error.
    pub fn init_result(creation: TemplateCreation) -> (result: Result<(), BriaError>)
        ensures
            match creation {
                TemplateCreation::Failed(e) => result == Err::<(), BriaError>(BriaError::SqlxLedger(e)),
                _ => result == Ok::<(), BriaError>(()),
            },
    {
        match creation {
            TemplateCreation::AlreadyExists => Ok(()),
            TemplateCreation::Failed(e) => Err(BriaError::SqlxLedger(e)),
            TemplateCreation::Created => Ok(()),
        }
    }
}

/// The day a transaction takes effect.
#[derive(Clone, Copy, Debug, PartialEq, Eq)]
pub struct EffectiveDate {
    pub year: i32,
    pub month: u32,
    pub day: u32,
}

/// Whether `year` is a leap year of the Gregorian calendar.
pub open spec fn is_leap_year(year: int) -> bool {
    (year % 4 == 0 && year % 100 != 0) || year % 400 == 0
}

/// How many days month `month` (1 to 12) of `year` has.
pub open spec fn days_in_month(year: int, month: int) -> int {
    if month == 2 {
        if is_leap_year(year) {
            29
        } else {
            28
        }
    } else if month == 4 || month == 6 || month == 9 || month == 11 {
        30
    } else {
        31
    }
}

/// `date` is a day of the Gregorian calendar no earlier than 1970.
pub open spec fn is_valid_date_since_epoch(date: EffectiveDate) -> bool {
    &&& 1970 <= date.year <= 262142
    &&& 1 <= date.month <= 12
    &&& 1 <= date.day <= days_in_month(date.year as int, date.month as int)
}

/// Today's date in UTC.
///
/// Calls `chrono::Utc::now().date_naive()` and reads its year, month and
/// day. The date depends on the clock. The contract claims that it is a
/// valid Gregorian date (chrono's `NaiveDate` holds only such dates, up to
/// the year 262142) and not before 1970 (`Utc::now` measures from the Unix
/// epoch and does not return for an earlier clock).
#[verifier::external_body]
fn today_utc() -> (date: EffectiveDate)
    ensures
        is_valid_date_since_epoch(date),
{
    let today = chrono::Utc::now().date_naive();
    EffectiveDate {
        year: chrono::Datelike::year(&today),
        month: chrono::Datelike::month(&today),
        day: chrono::Datelike::day(&today),
    }
}

/// The value a transaction gives one parameter.
#[derive(Clone, Copy, Debug, PartialEq, Eq)]
pub enum TxParamValue {
    Uuid(u128),
    /// An amount of bitcoin, as an exact decimal.
    Btc(BtcAmount),
    Json(CreateBatchMeta),
    Date(EffectiveDate),
}

/// The type of a parameter value.
pub open spec fn value_type(value: TxParamValue) -> ParamDataType {
    match value {
        TxParamValue::Uuid(_) => ParamDataType::Uuid,
        TxParamValue::Btc(_) => ParamDataType::Decimal,
        TxParamValue::Json(_) => ParamDataType::Json,
        TxParamValue::Date(_) => ParamDataType::Date,
    }
}

/// The value that `params`, effective on `effective`, give `param`.
pub open spec fn param_value(
    params: CreateBatchParams,
    param: CreateBatchParam,
    effective: EffectiveDate,
) -> TxParamValue {
    let ids = params.ledger_account_ids;
    match param {
        CreateBatchParam::JournalId => TxParamValue::Uuid(params.journal_id.0),
        CreateBatchParam::LogicalOutgoingAccountId => TxParamValue::Uuid(ids.logical_outgoing_id),
        CreateBatchParam::LogicalAtRestAccountId => TxParamValue::Uuid(ids.logical_at_rest_id),
        CreateBatchParam::OnchainFeeAccountId => TxParamValue::Uuid(ids.fee_id),
        CreateBatchParam::OnchainAtRestAccountId => TxParamValue::Uuid(ids.onchain_at_rest_id),
        CreateBatchParam::OnchainIncomeAccountId => TxParamValue::Uuid(ids.onchain_incoming_id),
        CreateBatchParam::OnchainOutgoingAccountId => TxParamValue::Uuid(ids.onchain_outgoing_id),
        CreateBatchParam::TotalIn => TxParamValue::Btc(btc_of(params.total_in_sats)),
        CreateBatchParam::TotalSpent => TxParamValue::Btc(btc_of(params.total_spent_sats)),
        CreateBatchParam::Fees => TxParamValue::Btc(btc_of(params.fee_sats)),
        CreateBatchParam::ReservedFees => TxParamValue::Btc(btc_of(params.reserved_fees)),
        CreateBatchParam::CorrelationId => TxParamValue::Uuid(params.correlation_id),
        CreateBatchParam::Meta => TxParamValue::Json(params.meta),
        CreateBatchParam::Effective => TxParamValue::Date(effective),
    }
}

/// The order in which a batch's values are handed to the ledger.
pub open spec fn tx_param_order() -> Seq<CreateBatchParam> {
    seq![
        CreateBatchParam::JournalId,
        CreateBatchParam::LogicalOutgoingAccountId,
        CreateBatchParam::LogicalAtRestAccountId,
        CreateBatchParam::OnchainFeeAccountId,
        CreateBatchParam::OnchainOutgoingAccountId,
        CreateBatchParam::OnchainIncomeAccountId,
        CreateBatchParam::OnchainAtRestAccountId,
        CreateBatchParam::TotalIn,
        CreateBatchParam::TotalSpent,
        CreateBatchParam::Fees,
        CreateBatchParam::ReservedFees,
        CreateBatchParam::CorrelationId,
        CreateBatchParam::Meta,
        CreateBatchParam::Effective,
    ]
}

/// The values that `params`, effective on `effective`, hand to the ledger.
pub open spec fn tx_param_values_of(
    params: CreateBatchParams,
    effective: EffectiveDate,
) -> Seq<(CreateBatchParam, TxParamValue)> {
    tx_param_order().map_values(|p: CreateBatchParam| (p, param_value(params, p, effective)))
}

impl CreateBatchParams {
    /// The value this batch gives `param`.
    fn value_of(&self, param: CreateBatchParam, effective: EffectiveDate) -> (value: TxParamValue)
        ensures
            value == param_value(*self, param, effective),
    {
        let ids = self.ledger_account_ids;
        match param {
            CreateBatchParam::JournalId => TxParamValue::Uuid(self.journal_id.0),
            CreateBatchParam::LogicalOutgoingAccountId => TxParamValue::Uuid(ids.logical_outgoing_id),
            CreateBatchParam::LogicalAtRestAccountId => TxParamValue::Uuid(ids.logical_at_rest_id),
            CreateBatchParam::OnchainFeeAccountId => TxParamValue::Uuid(ids.fee_id),
            CreateBatchParam::OnchainAtRestAccountId => TxParamValue::Uuid(ids.onchain_at_rest_id),
            CreateBatchParam::OnchainIncomeAccountId => TxParamValue::Uuid(ids.onchain_incoming_id),
            CreateBatchParam::OnchainOutgoingAccountId => TxParamValue::Uuid(ids.onchain_outgoing_id),
            CreateBatchParam::TotalIn => TxParamValue::Btc(self.total_in_sats.to_btc()),
            CreateBatchParam::TotalSpent => TxParamValue::Btc(self.total_spent_sats.to_btc()),
            CreateBatchParam::Fees => TxParamValue::Btc(self.fee_sats.to_btc()),
            CreateBatchParam::ReservedFees => TxParamValue::Btc(self.reserved_fees.to_btc()),
            CreateBatchParam::CorrelationId => TxParamValue::Uuid(self.correlation_id),
            CreateBatchParam::Meta => TxParamValue::Json(self.meta),
            CreateBatchParam::Effective => TxParamValue::Date(effective),
        }
    }

    /// The values the batch is posted with, taking effect on `effective`.
    pub fn tx_param_values_at(&self, effective: EffectiveDate) -> (values: Vec<(CreateBatchParam, TxParamValue)>)
        ensures
            values@ == tx_param_values_of(*self, effective),
    {
        let mut values: Vec<(CreateBatchParam, TxParamValue)> = Vec::new();
        values.push((CreateBatchParam::JournalId, self.value_of(CreateBatchParam::JournalId, effective)));
        values.push((CreateBatchParam::LogicalOutgoingAccountId, self.value_of(CreateBatchParam::LogicalOutgoingAccountId, effective)));
        values.push((CreateBatchParam::LogicalAtRestAccountId, self.value_of(CreateBatchParam::LogicalAtRestAccountId, effective)));
        values.push((CreateBatchParam::OnchainFeeAccountId, self.value_of(CreateBatchParam::OnchainFeeAccountId, effective)));
        values.push((CreateBatchParam::OnchainOutgoingAccountId, self.value_of(CreateBatchParam::OnchainOutgoingAccountId, effective)));
        values.push((CreateBatchParam::OnchainIncomeAccountId, self.value_of(CreateBatchParam::OnchainIncomeAccountId, effective)));
        values.push((CreateBatchParam::OnchainAtRestAccountId, self.value_of(CreateBatchParam::OnchainAtRestAccountId, effective)));
        values.push((CreateBatchParam::TotalIn, self.value_of(CreateBatchParam::TotalIn, effective)));
        values.push((CreateBatchParam::TotalSpent, self.value_of(CreateBatchParam::TotalSpent, effective)));
        values.push((CreateBatchParam::Fees, self.value_of(CreateBatchParam::Fees, effective)));
        values.push((CreateBatchParam::ReservedFees, self.value_of(CreateBatchParam::ReservedFees, effective)));
        values.push((CreateBatchParam::CorrelationId, self.value_of(CreateBatchParam::CorrelationId, effective)));
        values.push((CreateBatchParam::Meta, self.value_of(CreateBatchParam::Meta, effective)));
        values.push((CreateBatchParam::Effective, self.value_of(CreateBatchParam::Effective, effective)));
        assert(values@ =~= tx_param_values_of(*self, effective));
        values
    }

    /// The values the batch is posted with, taking effect today (UTC).
    pub fn tx_param_values(&self) -> (values: Vec<(CreateBatchParam, TxParamValue)>)
        ensures
            exists|effective: EffectiveDate|
                is_valid_date_since_epoch(effective) && values@ == tx_param_values_of(*self, effective),
    {
        let effective = today_utc();
        self.tx_param_values_at(effective)
    }
}

/// Every parameter of the batch template is defined, once each.
pub proof fn lemma_batch_params_defined_once(param: CreateBatchParam)
    ensures
        batch_params().contains(param),
        batch_params().no_duplicates(),
{
    match param {
        CreateBatchParam::JournalId => assert(batch_params()[0] == param),
        CreateBatchParam::LogicalOutgoingAccountId => assert(batch_params()[1] == param),
        CreateBatchParam::LogicalAtRestAccountId => assert(batch_params()[2] == param),
        CreateBatchParam::OnchainFeeAccountId => assert(batch_params()[3] == param),
        CreateBatchParam::OnchainAtRestAccountId => assert(batch_params()[4] == param),
        CreateBatchParam::OnchainIncomeAccountId => assert(batch_params()[5] == param),
        CreateBatchParam::OnchainOutgoingAccountId => assert(batch_params()[6] == param),
        CreateBatchParam::TotalIn => assert(batch_params()[7] == param),
        CreateBatchParam::TotalSpent => assert(batch_params()[8] == param),
        CreateBatchParam::Fees => assert(batch_params()[9] == param),
        CreateBatchParam::ReservedFees => assert(batch_params()[10] == param),
        CreateBatchParam::CorrelationId => assert(batch_params()[11] == param),
        CreateBatchParam::Meta => assert(batch_params()[12] == param),
        CreateBatchParam::Effective => assert(batch_params()[13] == param),
    }
}

/// The values a batch is posted with are exactly the template's parameters,
/// one value each, each of its declared type: the ledger finds a value for
/// every definition, no value without one, and no type mismatch.
pub proof fn lemma_batch_values_match_definitions(params: CreateBatchParams, effective: EffectiveDate)
    ensures
        tx_param_values_of(params, effective).map_values(|v: (CreateBatchParam, TxParamValue)| v.0).to_set()
            == batch_params().to_set(),
        tx_param_values_of(params, effective).map_values(|v: (CreateBatchParam, TxParamValue)| v.0).no_duplicates(),
        forall|i: int|
            0 <= i < tx_param_values_of(params, effective).len() ==> value_type(
                (#[trigger] tx_param_values_of(params, effective)[i]).1,
            ) == param_type(tx_param_values_of(params, effective)[i].0),
{
    let names = tx_param_values_of(params, effective).map_values(|v: (CreateBatchParam, TxParamValue)| v.0);
    assert(names =~= tx_param_order());
    assert forall|p: CreateBatchParam| names.to_set().contains(p) == batch_params().to_set().contains(p) by {
        lemma_batch_params_defined_once(p);
        lemma_order_lists_param(p);
    }
    assert(names.to_set() =~= batch_params().to_set());
    lemma_order_lists_param(CreateBatchParam::JournalId);
}

/// Every parameter is handed to the ledger, once.
proof fn lemma_order_lists_param(param: CreateBatchParam)
    ensures
        tx_param_order().contains(param),
        tx_param_order().no_duplicates(),
{
    match param {
        CreateBatchParam::JournalId => assert(tx_param_order()[0] == param),
        CreateBatchParam::LogicalOutgoingAccountId => assert(tx_param_order()[1] == param),
        CreateBatchParam::LogicalAtRestAccountId => assert(tx_param_order()[2] == param),
        CreateBatchParam::OnchainFeeAccountId => assert(tx_param_order()[3] == param),
        CreateBatchParam::OnchainOutgoingAccountId => assert(tx_param_order()[4] == param),
        CreateBatchParam::OnchainIncomeAccountId => assert(tx_param_order()[5] == param),
        CreateBatchParam::OnchainAtRestAccountId => assert(tx_param_order()[6] == param),
        CreateBatchParam::TotalIn => assert(tx_param_order()[7] == param),
        CreateBatchParam::TotalSpent => assert(tx_param_order()[8] == param),
        CreateBatchParam::Fees => assert(tx_param_order()[9] == param),
        CreateBatchParam::ReservedFees => assert(tx_param_order()[10] == param),
        CreateBatchParam::CorrelationId => assert(tx_param_order()[11] == param),
        CreateBatchParam::Meta => assert(tx_param_order()[12] == param),
        CreateBatchParam::Effective => assert(tx_param_order()[13] == param),
    }
}

/// An entry refers to its parameters with the right types: its account, if a
/// parameter, is a UUID, and its units are a sum of decimal amounts.
pub open spec fn entry_well_typed(entry: EntrySpec) -> bool {
    &&& units_wf(entry.units)
    &&& forall|j: int| 0 <= j < entry.units.len() ==> param_type(#[trigger] entry.units[j].param) == ParamDataType::Decimal
    &&& match entry.account {
        EntryAccount::Param(param) => param_type(param) == ParamDataType::Uuid,
        EntryAccount::Fixed(_) => true,
    }
}

/// The batch template uses each parameter as what it is declared to be:
/// every entry's units can be written out and are sums of decimal amounts,
/// every parameter account is a UUID, and the transaction's journal,
/// effective date, correlation id and metadata are a UUID, a date, a UUID
/// and a JSON value.
pub proof fn lemma_batch_template_well_typed()
    ensures
        forall|i: int| 0 <= i < batch_entries().len() ==> entry_well_typed(#[trigger] batch_entries()[i]),
        param_type(batch_tx_input().journal_id) == ParamDataType::Uuid,
        param_type(batch_tx_input().effective) == ParamDataType::Date,
        param_type(batch_tx_input().correlation_id) == ParamDataType::Uuid,
        param_type(batch_tx_input().metadata) == ParamDataType::Json,
{
    assert forall|i: int| 0 <= i < batch_entries().len() implies entry_well_typed(#[trigger] batch_entries()[i]) by {
        let e = batch_entries()[i];
        assert forall|j: int| 0 <= j < e.units.len() implies param_type(#[trigger] e.units[j].param) == ParamDataType::Decimal by {
        }
    }
}

/// Distinct parameters have distinct names, so no definition or value of
/// one parameter can be taken for another's.
pub proof fn lemma_param_names_distinct(a: CreateBatchParam, b: CreateBatchParam)
    requires
        a != b,
    ensures
        param_name(a) != param_name(b),
{
    reveal_strlit("journal_id");
    reveal_strlit("logical_outgoing_account_id");
    reveal_strlit("logical_at_rest_account_id");
    reveal_strlit("onchain_fee_account_id");
    reveal_strlit("onchain_at_rest_account_id");
    reveal_strlit("onchain_income_account_id");
    reveal_strlit("onchain_outgoing_account_id");
    reveal_strlit("total_in");
    reveal_strlit("total_spent");
    reveal_strlit("fees");
    reveal_strlit("reserved_fees");
    reveal_strlit("correlation_id");
    reveal_strlit("meta");
    reveal_strlit("effective");
    let (name_a, name_b) = (param_name(a), param_name(b));
    if name_a == name_b {
        // Equal names agree in length and in every character; length, first,
        // eighth and last character already tell any two of these names apart.
        assert(name_a.len() == name_b.len() && name_a[0] == name_b[0] && name_a[7] == name_b[7]
            && name_a.last() == name_b.last());
    }
}

/// The word an entry type uses for a layer.
pub open spec fn layer_word(layer: Layer) -> Seq<char> {
    match layer {
        Layer::Settled => "SETTLED"@,
        Layer::Pending => "PENDING"@,
        Layer::Encumbered => "ENCUMBERED"@,
    }
}

/// The suffix an entry type uses for a side: `DR` for a debit, `CR` for a credit.
pub open spec fn side_word(direction: Direction) -> Seq<char> {
    match direction {
        Direction::Debit => "DR"@,
        Direction::Credit => "CR"@,
    }
}

/// The entry type `CREATE_BATCH_<kind>_<layer>_<DR|CR>`.
pub open spec fn entry_type_named(kind: Seq<char>, layer: Layer, direction: Direction) -> Seq<char> {
    "CREATE_BATCH_"@ + kind + "_"@ + layer_word(layer) + "_"@ + side_word(direction)
}

/// Every entry of the batch template is named for what it books: its type
/// is `CREATE_BATCH_` and the kind of money it moves (`LOGICAL`, `FEE` or
/// `UTXO`), then the layer it books to, then `DR` if it is a debit and `CR`
/// if it is a credit. So an entry whose type ends in `_DR` debits and one
/// whose type ends in `_CR` credits, in the layer its type names.
pub proof fn lemma_batch_entry_types_name_layer_and_side(i: int)
    requires
        0 <= i < batch_entries().len(),
    ensures
        exists|kind: Seq<char>|
            (kind == "LOGICAL"@ || kind == "FEE"@ || kind == "UTXO"@) && #[trigger] entry_type_named(
                kind,
                batch_entries()[i].layer,
                batch_entries()[i].direction,
            ) == batch_entries()[i].entry_type,
{
    reveal_strlit("CR");
    reveal_strlit("CREATE_BATCH_");
    reveal_strlit("CREATE_BATCH_FEE_ENCUMBERED_CR");
    reveal_strlit("CREATE_BATCH_FEE_ENCUMBERED_DR");
    reveal_strlit("CREATE_BATCH_FEE_PENDING_CR");
    reveal_strlit("CREATE_BATCH_FEE_PENDING_DR");
    reveal_strlit("CREATE_BATCH_LOGICAL_ENCUMBERED_CR");
    reveal_strlit("CREATE_BATCH_LOGICAL_ENCUMBERED_DR");
    reveal_strlit("CREATE_BATCH_LOGICAL_PENDING_CR");
    reveal_strlit("CREATE_BATCH_LOGICAL_PENDING_DR");
    reveal_strlit("CREATE_BATCH_LOGICAL_SETTLED_CR");
    reveal_strlit("CREATE_BATCH_LOGICAL_SETTLED_DR");
    reveal_strlit("CREATE_BATCH_UTXO_ENCUMBERED_CR");
    reveal_strlit("CREATE_BATCH_UTXO_ENCUMBERED_DR");
    reveal_strlit("CREATE_BATCH_UTXO_PENDING_CR");
    reveal_strlit("CREATE_BATCH_UTXO_PENDING_DR");
    reveal_strlit("CREATE_BATCH_UTXO_SETTLED_CR");
    reveal_strlit("CREATE_BATCH_UTXO_SETTLED_DR");
    reveal_strlit("DR");
    reveal_strlit("ENCUMBERED");
    reveal_strlit("FEE");
    reveal_strlit("LOGICAL");
    reveal_strlit("PENDING");
    reveal_strlit("SETTLED");
    reveal_strlit("UTXO");
    reveal_strlit("_");
    let entry = batch_entries()[i];
    if i == 0 {
        assert(entry.entry_type =~= entry_type_named("LOGICAL"@, entry.layer, entry.direction));
    } else if i == 1 {
        assert(entry.entry_type =~= entry_type_named("LOGICAL"@, entry.layer, entry.direction));
    } else if i == 2 {
        assert(entry.entry_type =~= entry_type_named("LOGICAL"@, entry.layer, entry.direction));
    } else if i == 3 {
        assert(entry.entry_type =~= entry_type_named("LOGICAL"@, entry.layer, entry.direction));
    } else if i == 4 {
        assert(entry.entry_type =~= entry_type_named("LOGICAL"@, entry.layer, entry.direction));
    } else if i == 5 {
        assert(entry.entry_type =~= entry_type_named("LOGICAL"@, entry.layer, entry.direction));
    } else if i == 6 {
        assert(entry.entry_type =~= entry_type_named("FEE"@, entry.layer, entry.direction));
    } else if i == 7 {
        assert(entry.entry_type =~= entry_type_named("FEE"@, entry.layer, entry.direction));
    } else if i == 8 {
        assert(entry.entry_type =~= entry_type_named("FEE"@, entry.layer, entry.direction));
    } else if i == 9 {
        assert(entry.entry_type =~= entry_type_named("FEE"@, entry.layer, entry.direction));
    } else if i == 10 {
        assert(entry.entry_type =~= entry_type_named("UTXO"@, entry.layer, entry.direction));
    } else if i == 11 {
        assert(entry.entry_type =~= entry_type_named("UTXO"@, entry.layer, entry.direction));
    } else if i == 12 {
        assert(entry.entry_type =~= entry_type_named("UTXO"@, entry.layer, entry.direction));
    } else if i == 13 {
        assert(entry.entry_type =~= entry_type_named("UTXO"@, entry.layer, entry.direction));
    } else if i == 14 {
        assert(entry.entry_type =~= entry_type_named("UTXO"@, entry.layer, entry.direction));
    } else if i == 15 {
        assert(entry.entry_type =~= entry_type_named("UTXO"@, entry.layer, entry.direction));
    }
}

/// The batch template books in pairs: entries `2k` and `2k + 1` move the
/// same units in the same layer and of the same kind, one on a wallet's
/// account given as a parameter and one on a shared account, on opposite
/// sides.
pub proof fn lemma_batch_entries_pair_up(k: int)
    requires
        0 <= k < 8,
    ensures
        ({
            let a = batch_entries()[2 * k];
            let b = batch_entries()[2 * k + 1];
            &&& a.layer == b.layer
            &&& a.units == b.units
            &&& a.direction != b.direction
            &&& (a.account is Param) != (b.account is Param)
            &&& a.entry_type.subrange(0, a.entry_type.len() - 3) == b.entry_type.subrange(
                0,
                b.entry_type.len() - 3,
            )
        }),
{
    reveal_strlit("CR");
    reveal_strlit("CREATE_BATCH_");
    reveal_strlit("CREATE_BATCH_FEE_ENCUMBERED_CR");
    reveal_strlit("CREATE_BATCH_FEE_ENCUMBERED_DR");
    reveal_strlit("CREATE_BATCH_FEE_PENDING_CR");
    reveal_strlit("CREATE_BATCH_FEE_PENDING_DR");
    reveal_strlit("CREATE_BATCH_LOGICAL_ENCUMBERED_CR");
    reveal_strlit("CREATE_BATCH_LOGICAL_ENCUMBERED_DR");
    reveal_strlit("CREATE_BATCH_LOGICAL_PENDING_CR");
    reveal_strlit("CREATE_BATCH_LOGICAL_PENDING_DR");
    reveal_strlit("CREATE_BATCH_LOGICAL_SETTLED_CR");
    reveal_strlit("CREATE_BATCH_LOGICAL_SETTLED_DR");
    reveal_strlit("CREATE_BATCH_UTXO_ENCUMBERED_CR");
    reveal_strlit("CREATE_BATCH_UTXO_ENCUMBERED_DR");
    reveal_strlit("CREATE_BATCH_UTXO_PENDING_CR");
    reveal_strlit("CREATE_BATCH_UTXO_PENDING_DR");
    reveal_strlit("CREATE_BATCH_UTXO_SETTLED_CR");
    reveal_strlit("CREATE_BATCH_UTXO_SETTLED_DR");
    reveal_strlit("DR");
    reveal_strlit("ENCUMBERED");
    reveal_strlit("FEE");
    reveal_strlit("LOGICAL");
    reveal_strlit("PENDING");
    reveal_strlit("SETTLED");
    reveal_strlit("UTXO");
    reveal_strlit("_");
    let a = batch_entries()[2 * k];
    let b = batch_entries()[2 * k + 1];
    assert(a.entry_type.subrange(0, a.entry_type.len() - 3) =~= b.entry_type.subrange(
        0,
        b.entry_type.len() - 3,
    ));
}

/// Where a batch books `total_spent` as pending: the wallet's logical
/// outgoing account is credited and the shared logical outgoing account is
/// debited, so the wallet's pending logical balance goes down by what the
/// batch spends.
pub proof fn lemma_batch_pending_spend_leaves_wallet()
    ensures
        exists|i: int|
            0 <= i < batch_entries().len() && #[trigger] batch_entries()[i] == (EntrySpec {
                entry_type: "CREATE_BATCH_LOGICAL_PENDING_CR"@,
                currency: "BTC"@,
                account: EntryAccount::Param(CreateBatchParam::LogicalOutgoingAccountId),
                direction: Direction::Credit,
                layer: Layer::Pending,
                units: seq![UnitTerm { negated: false, param: CreateBatchParam::TotalSpent }],
            }),
        exists|i: int|
            0 <= i < batch_entries().len() && #[trigger] batch_entries()[i] == (EntrySpec {
                entry_type: "CREATE_BATCH_LOGICAL_PENDING_DR"@,
                currency: "BTC"@,
                account: EntryAccount::Fixed(LOGICAL_OUTGOING_ID),
                direction: Direction::Debit,
                layer: Layer::Pending,
                units: seq![UnitTerm { negated: false, param: CreateBatchParam::TotalSpent }],
            }),
{
    assert(batch_entries()[2].units =~= seq![UnitTerm { negated: false, param: CreateBatchParam::TotalSpent }]);
    assert(batch_entries()[3].units =~= seq![UnitTerm { negated: false, param: CreateBatchParam::TotalSpent }]);
}

} // verus!
