use bria::error::BriaError;
use bria::ledger::constants::CREATE_BATCH_ID;
use bria::ledger::templates::create_batch::{
    all_batch_params, batch_entry_templates, CreateBatch, CreateBatchMeta, CreateBatchParam,
    CreateBatchParams, Direction, EffectiveDate, EntryAccount, Layer, ParamDataType,
    TemplateCreation, TxParamValue, WalletLedgerAccountIds,
};
use bria::primitives::{BatchGroupId, BatchId, BtcAmount, JournalId, Satoshis, Txid};

fn params() -> CreateBatchParams {
    CreateBatchParams {
        journal_id: JournalId(100),
        ledger_account_ids: WalletLedgerAccountIds {
            onchain_incoming_id: 101,
            onchain_at_rest_id: 102,
            onchain_outgoing_id: 103,
            logical_at_rest_id: 104,
            logical_outgoing_id: 105,
            fee_id: 106,
        },
        total_in_sats: Satoshis(100_000),
        total_spent_sats: Satoshis(60_000),
        fee_sats: Satoshis(1_500),
        reserved_fees: Satoshis(2_000),
        correlation_id: 107,
        meta: CreateBatchMeta {
            batch_id: BatchId(108),
            batch_group_id: BatchGroupId(109),
            bitcoin_tx_id: Txid([7; 32]),
        },
    }
}

#[test]
fn param_definitions_are_listed_in_order() {
    let defs = CreateBatchParams::defs();
    let expected = [
        ("journal_id", ParamDataType::Uuid),
        ("logical_outgoing_account_id", ParamDataType::Uuid),
        ("logical_at_rest_account_id", ParamDataType::Uuid),
        ("onchain_fee_account_id", ParamDataType::Uuid),
        ("onchain_at_rest_account_id", ParamDataType::Uuid),
        ("onchain_income_account_id", ParamDataType::Uuid),
        ("onchain_outgoing_account_id", ParamDataType::Uuid),
        ("total_in", ParamDataType::Decimal),
        ("total_spent", ParamDataType::Decimal),
        ("fees", ParamDataType::Decimal),
        ("reserved_fees", ParamDataType::Decimal),
        ("correlation_id", ParamDataType::Uuid),
        ("meta", ParamDataType::Json),
        ("effective", ParamDataType::Date),
    ];
    assert_eq!(defs.len(), expected.len());
    for (def, (name, data_type)) in defs.iter().zip(expected.iter()) {
        assert_eq!(def.name, *name);
        assert_eq!(def.data_type, *data_type);
    }
}

#[test]
fn param_names_are_distinct() {
    let params = all_batch_params();
    for (i, a) in params.iter().enumerate() {
        for b in params.iter().skip(i + 1) {
            assert_ne!(a.name(), b.name());
        }
    }
}

#[test]
fn template_has_id_code_and_sixteen_entries() {
    let template = CreateBatch::template();
    assert_eq!(template.id, CREATE_BATCH_ID);
    assert_eq!(template.code, "CREATE_BATCH");
    assert_eq!(template.entries.len(), 16);
    assert_eq!(template.params.len(), 14);
    let input = template.tx_input.render();
    assert_eq!(input.journal_id, "params.journal_id");
    assert_eq!(input.effective, "params.effective");
    assert_eq!(input.correlation_id, "params.correlation_id");
    assert_eq!(input.metadata, "params.meta");
    assert_eq!(input.description, "'Construct Batch'");
}

#[test]
fn entries_render_to_ledger_expressions() {
    let entries = batch_entry_templates();
    let first = entries[0].render();
    assert_eq!(first.entry_type, "'CREATE_BATCH_LOGICAL_ENCUMBERED_DR'");
    assert_eq!(first.currency, "'BTC'");
    assert_eq!(first.account_id, "params.logical_outgoing_account_id");
    assert_eq!(first.direction, "DEBIT");
    assert_eq!(first.layer, "ENCUMBERED");
    assert_eq!(first.units, "params.total_spent");

    let shared = entries[1].render();
    assert_eq!(shared.entry_type, "'CREATE_BATCH_LOGICAL_ENCUMBERED_CR'");
    assert_eq!(shared.account_id, "uuid('00000000-0000-0000-0000-000000000006')");
    assert_eq!(shared.direction, "CREDIT");

    let settled = entries[4].render();
    assert_eq!(settled.layer, "SETTLED");
    assert_eq!(settled.units, "params.total_spent + params.fees");

    let pending = entries[10].render();
    assert_eq!(pending.entry_type, "'CREATE_BATCH_UTXO_PENDING_DR'");
    assert_eq!(pending.layer, "PENDING");
    assert_eq!(pending.units, "params.total_in - params.fees");
    assert_eq!(pending.account_id, "uuid('00000000-0000-0000-0000-000000000003')");

    let last = entries[15].render();
    assert_eq!(last.entry_type, "'CREATE_BATCH_UTXO_ENCUMBERED_CR'");
    assert_eq!(last.account_id, "params.onchain_income_account_id");
    assert_eq!(last.units, "params.total_in - params.fees - params.total_spent");
}

fn amount(param: CreateBatchParam) -> i128 {
    match param {
        CreateBatchParam::TotalIn => 100_000,
        CreateBatchParam::TotalSpent => 60_000,
        CreateBatchParam::Fees => 1_500,
        CreateBatchParam::ReservedFees => 2_000,
        _ => panic!("not an amount"),
    }
}

#[test]
fn every_layer_is_balanced() {
    let entries = batch_entry_templates();
    for layer in [Layer::Settled, Layer::Pending, Layer::Encumbered] {
        let mut debits: i128 = 0;
        let mut credits: i128 = 0;
        for entry in entries.iter().filter(|e| e.layer == layer) {
            assert_eq!(entry.currency, "BTC");
            let units: i128 = entry
                .units
                .iter()
                .map(|t| if t.negated { -amount(t.param) } else { amount(t.param) })
                .sum();
            match entry.direction {
                Direction::Debit => debits += units,
                Direction::Credit => credits += units,
            }
        }
        assert_eq!(debits, credits);
        assert!(debits > 0);
    }
}

#[test]
fn entry_accounts_are_uuid_params_or_shared_accounts() {
    for entry in batch_entry_templates().iter() {
        match entry.account {
            EntryAccount::Param(param) => assert_eq!(param.data_type(), ParamDataType::Uuid),
            EntryAccount::Fixed(id) => assert!((1..=6).contains(&id)),
        }
        assert!(!entry.units[0].negated);
        for term in entry.units.iter() {
            assert_eq!(term.param.data_type(), ParamDataType::Decimal);
        }
    }
}

#[test]
fn tx_params_give_each_definition_a_value_of_its_type() {
    let date = EffectiveDate { year: 2023, month: 1, day: 31 };
    let values = params().tx_param_values_at(date);
    assert_eq!(values.len(), 14);
    let defs = CreateBatchParams::defs();
    for def in defs.iter() {
        let matching: Vec<_> = values.iter().filter(|(p, _)| p.name() == def.name).collect();
        assert_eq!(matching.len(), 1);
        let data_type = match matching[0].1 {
            TxParamValue::Uuid(_) => ParamDataType::Uuid,
            TxParamValue::Btc(_) => ParamDataType::Decimal,
            TxParamValue::Json(_) => ParamDataType::Json,
            TxParamValue::Date(_) => ParamDataType::Date,
        };
        assert_eq!(data_type, def.data_type);
    }
}

#[test]
fn tx_params_carry_the_batch_values() {
    let date = EffectiveDate { year: 2023, month: 1, day: 31 };
    let values = params().tx_param_values_at(date);
    let expected = vec![
        (CreateBatchParam::JournalId, TxParamValue::Uuid(100)),
        (CreateBatchParam::LogicalOutgoingAccountId, TxParamValue::Uuid(105)),
        (CreateBatchParam::LogicalAtRestAccountId, TxParamValue::Uuid(104)),
        (CreateBatchParam::OnchainFeeAccountId, TxParamValue::Uuid(106)),
        (CreateBatchParam::OnchainOutgoingAccountId, TxParamValue::Uuid(103)),
        (CreateBatchParam::OnchainIncomeAccountId, TxParamValue::Uuid(101)),
        (CreateBatchParam::OnchainAtRestAccountId, TxParamValue::Uuid(102)),
        (CreateBatchParam::TotalIn, TxParamValue::Btc(BtcAmount { mantissa: 100_000, scale: 8 })),
        (CreateBatchParam::TotalSpent, TxParamValue::Btc(BtcAmount { mantissa: 60_000, scale: 8 })),
        (CreateBatchParam::Fees, TxParamValue::Btc(BtcAmount { mantissa: 1_500, scale: 8 })),
        (CreateBatchParam::ReservedFees, TxParamValue::Btc(BtcAmount { mantissa: 2_000, scale: 8 })),
        (CreateBatchParam::CorrelationId, TxParamValue::Uuid(107)),
        (CreateBatchParam::Meta, TxParamValue::Json(params().meta)),
        (CreateBatchParam::Effective, TxParamValue::Date(date)),
    ];
    assert_eq!(values, expected);
}

#[test]
fn tx_params_take_effect_today() {
    let values = params().tx_param_values();
    match values[13] {
        (CreateBatchParam::Effective, TxParamValue::Date(date)) => {
            assert!((1..=12).contains(&date.month));
            assert!((1..=31).contains(&date.day));
            assert!(date.year >= 2023);
            assert!(chrono::NaiveDate::from_ymd_opt(date.year, date.month, date.day).is_some());
        }
        other => panic!("unexpected value {other:?}"),
    }
}

#[test]
fn template_registration_outcomes() {
    assert!(matches!(CreateBatch::init_result(TemplateCreation::Created), Ok(())));
    assert!(matches!(CreateBatch::init_result(TemplateCreation::AlreadyExists), Ok(())));
    let failed = CreateBatch::init_result(TemplateCreation::Failed(
        sqlx_ledger::SqlxLedgerError::OptimisticLockingError,
    ));
    assert!(matches!(
        failed,
        Err(BriaError::SqlxLedger(sqlx_ledger::SqlxLedgerError::OptimisticLockingError))
    ));
}

#[test]
fn satoshis_become_exact_btc_decimals() {
    assert_eq!(Satoshis(1).to_btc(), BtcAmount { mantissa: 1, scale: 8 });
    assert_eq!(Satoshis(150_000_000).to_btc(), BtcAmount { mantissa: 150_000_000, scale: 8 });
    let max = Satoshis(u64::MAX).to_btc();
    assert_eq!(max.mantissa, u64::MAX);
    let decimal = rust_decimal::Decimal::from_i128_with_scale(i128::from(max.mantissa), max.scale);
    assert_eq!(decimal.to_string(), "184467440737.09551615");
}
