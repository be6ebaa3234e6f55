//! Field-decoding behavior: funds types, classification tables, and
//! continuation transparency.
use bai2::amount_type::{AmountSubtype, AmountType};
use bai2::funds_type::{FundsSubType, FundsType};
use bai2::group::{AsOfDateModifier, GroupStatus};
use bai2::transaction_type::{TransactionSubType, TransactionType};
use bai2::util::Date;
use bai2::Bai2File;

fn one_transaction_file(txn_line: &str) -> Result<bai2::Bai2File, &'static str> {
    let content = [
        "01,S,R,250101,0800,F,80,10,2/",
        "02,R,O,1,250101,0800,USD,1/",
        "03,A1,USD,010,1,0,0/",
        txn_line,
        "49,0,1/",
        "98,0,0,2/",
        "99,0,0,2/",
    ]
    .join("\n");
    Bai2File::new(content)
}

#[test]
fn value_dated_transactions_carry_date_and_time() {
    let file = one_transaction_file("16,165,100,V,250102,0930,REF,CREF/").unwrap();
    let txn = &file.groups[0].accounts[0].transactions[0];
    assert_eq!(txn.funds_type, FundsType::ValueDated);
    assert_eq!(txn.value_date, Some(Date { year: 2025, month: 1, day: 2 }));
    assert_eq!(txn.value_time, Some("09:30:00".to_string()));
    assert_eq!(txn.bank_reference_number, "REF");
    assert_eq!(txn.customer_reference_number, "CREF");
}

#[test]
fn fixed_distributed_availability_fills_three_buckets() {
    let file = one_transaction_file("16,165,100,S,10,20,30,REF,CREF/").unwrap();
    let txn = &file.groups[0].accounts[0].transactions[0];
    assert_eq!(
        txn.funds_type,
        FundsType::DistributedAvailability(FundsSubType::S),
    );
    assert_eq!(txn.availability.len(), 3);
    assert_eq!(txn.availability.get(&0), Some(&10));
    assert_eq!(txn.availability.get(&1), Some(&20));
    assert_eq!(txn.availability.get(&2), Some(&30));
    assert_eq!(txn.bank_reference_number, "REF");
}

#[test]
fn an_unparseable_fixed_availability_amount_fails_the_record() {
    assert_eq!(
        one_transaction_file("16,165,100,S,10,oops,30,REF,CREF/").unwrap_err(),
        "Invalid availability amount. Expected an integer.",
    );
}

#[test]
fn variable_distributed_availability_consumes_count_and_pairs() {
    let file = one_transaction_file("16,165,100,D,2,5,500,7,700,REF,CREF/").unwrap();
    let txn = &file.groups[0].accounts[0].transactions[0];
    assert_eq!(
        txn.funds_type,
        FundsType::DistributedAvailability(FundsSubType::D),
    );
    assert_eq!(txn.availability.len(), 2);
    assert_eq!(txn.availability.get(&5), Some(&500));
    assert_eq!(txn.availability.get(&7), Some(&700));
    // the cursor advanced past exactly 1 + 2 * 2 fields
    assert_eq!(txn.bank_reference_number, "REF");
    assert_eq!(txn.customer_reference_number, "CREF");
}

#[test]
fn a_zero_distribution_count_consumes_only_the_count_field() {
    let file = one_transaction_file("16,165,100,D,0,REF,CREF/").unwrap();
    let txn = &file.groups[0].accounts[0].transactions[0];
    assert_eq!(txn.availability.len(), 0);
    assert_eq!(txn.bank_reference_number, "REF");
    assert_eq!(txn.customer_reference_number, "CREF");
}

#[test]
fn a_repeated_distribution_day_keeps_the_later_amount() {
    let file = one_transaction_file("16,165,100,D,2,5,500,5,900,REF,CREF/").unwrap();
    let txn = &file.groups[0].accounts[0].transactions[0];
    assert_eq!(txn.availability.len(), 1);
    assert_eq!(txn.availability.get(&5), Some(&900));
}

#[test]
fn a_distribution_pair_that_fails_to_parse_is_dropped() {
    let file = one_transaction_file("16,165,100,D,2,oops,500,7,700,REF,CREF/").unwrap();
    let txn = &file.groups[0].accounts[0].transactions[0];
    assert_eq!(txn.availability.len(), 1);
    assert_eq!(txn.availability.get(&7), Some(&700));
    assert_eq!(txn.bank_reference_number, "REF");
}

#[test]
fn running_out_of_funds_type_fields_fails_the_record() {
    assert_eq!(
        one_transaction_file("16,165,100,V,250102/").unwrap_err(),
        "Invalid availability. Expected more fields, but found less.",
    );
    assert_eq!(
        one_transaction_file("16,165,100,D,3,5,500/").unwrap_err(),
        "Invalid availability. Expected more fields, but found less.",
    );
}

#[test]
fn a_transaction_needs_its_three_fixed_fields() {
    assert_eq!(
        one_transaction_file("16,475/").unwrap_err(),
        "Invalid transaction detail. Expected 3 fields, but found less.",
    );
}

#[test]
fn account_amounts_decode_back_to_back() {
    let content = [
        "01,S,R,250101,0800,F,80,10,2/",
        "02,R,O,1,250101,0800,USD,1/",
        "03,A1,USD,010,100,1,0,045,200,2,V,250102,0930/",
        "49,0,1/",
        "98,0,0,2/",
        "99,0,0,2/",
    ]
    .join("\n");
    let file = Bai2File::new(content).unwrap();
    let account = &file.groups[0].accounts[0];
    assert_eq!(account.amounts.len(), 2);
    let first = &account.amounts[0];
    assert_eq!(first.amount_type_code, "010");
    assert!(matches!(
        &first.amount_type,
        AmountType::Status(code, AmountSubtype::OpeningLedger) if code == "010"
    ));
    assert_eq!(first.amount, Some(100));
    assert_eq!(first.item_count, Some(1));
    assert_eq!(first.funds_type, FundsType::ImmediateAvailability);
    let second = &account.amounts[1];
    assert!(matches!(
        &second.amount_type,
        AmountType::Status(code, AmountSubtype::ClosingAvailable) if code == "045"
    ));
    assert_eq!(second.funds_type, FundsType::ValueDated);
    assert_eq!(second.value_date, Some(Date { year: 2025, month: 1, day: 2 }));
    assert_eq!(second.value_time, Some("09:30:00".to_string()));
}

#[test]
fn an_amount_missing_its_fixed_fields_fails_the_account() {
    let content = [
        "01,S,R,250101,0800,F,80,10,2/",
        "02,R,O,1,250101,0800,USD,1/",
        "03,A1,USD,010,100,1,0,045,200/",
        "49,0,1/",
        "98,0,0,2/",
        "99,0,0,2/",
    ]
    .join("\n");
    assert_eq!(
        Bai2File::new(content).unwrap_err(),
        "Invalid amount. Expected more fields, but found less.",
    );
}

#[test]
fn a_record_split_across_continuations_decodes_identically() {
    let split = [
        "01,S,R,250101,0800,F,80,10,2/",
        "02,R,O,1,250101,0800,USD,1/",
        "03,A1,USD,010/",
        "88,100,1,0/",
        "16,475,500,0/",
        "88,REF1,CREF1,Memo text/",
        "49,0,1/",
        "98,0,0,2/",
        "99,0,0,2/",
    ]
    .join("\n");
    let joined = [
        "01,S,R,250101,0800,F,80,10,2/",
        "02,R,O,1,250101,0800,USD,1/",
        "03,A1,USD,010/,100,1,0/",
        "16,475,500,0/,REF1,CREF1,Memo text/",
        "49,0,1/",
        "98,0,0,2/",
        "99,0,0,2/",
    ]
    .join("\n");
    let a = Bai2File::new(split).unwrap();
    let b = Bai2File::new(joined).unwrap();
    let (aa, ba) = (&a.groups[0].accounts[0], &b.groups[0].accounts[0]);
    assert_eq!(aa.amounts.len(), ba.amounts.len());
    assert_eq!(aa.amounts[0].amount, ba.amounts[0].amount);
    assert_eq!(aa.amounts[0].amount_type_code, ba.amounts[0].amount_type_code);
    assert_eq!(aa.amounts[0].item_count, ba.amounts[0].item_count);
    assert_eq!(aa.amounts[0].funds_type, ba.amounts[0].funds_type);
    let (at, bt) = (&aa.transactions[0], &ba.transactions[0]);
    assert_eq!(at.amount, bt.amount);
    assert_eq!(at.bank_reference_number, bt.bank_reference_number);
    assert_eq!(at.customer_reference_number, bt.customer_reference_number);
    assert_eq!(at.text, bt.text);
    assert_eq!(at.bank_reference_number, "REF1");
    assert_eq!(at.text, vec!["Memo text".to_string()]);
}

#[test]
fn transaction_codes_classify_by_the_table() {
    assert!(matches!(
        TransactionType::parse("475"),
        TransactionType::Debit(c, TransactionSubType::CheckPaid) if c == "475"
    ));
    assert!(matches!(
        TransactionType::parse("108"),
        TransactionType::Credit(c, TransactionSubType::Credit) if c == "108"
    ));
    assert!(matches!(
        TransactionType::parse("890"),
        TransactionType::Unknown(c, TransactionSubType::Info) if c == "890"
    ));
    assert!(matches!(
        TransactionType::parse("xyz"),
        TransactionType::Unknown(c, TransactionSubType::Unknown) if c == "xyz"
    ));
}

#[test]
fn custom_transaction_ranges_stay_directional() {
    assert!(matches!(
        TransactionType::parse("935"),
        TransactionType::Credit(c, TransactionSubType::Custom) if c == "935"
    ));
    assert!(matches!(
        TransactionType::parse("975"),
        TransactionType::Debit(c, TransactionSubType::Custom) if c == "975"
    ));
    // a leading zero falls back to the plain integer parse and still
    // lands in the custom range
    assert!(matches!(
        TransactionType::parse("0935"),
        TransactionType::Credit(c, TransactionSubType::Custom) if c == "0935"
    ));
    // just outside the ranges nothing is custom
    assert!(matches!(
        TransactionType::parse("919"),
        TransactionType::Unknown(_, TransactionSubType::Unknown)
    ));
    assert!(matches!(
        TransactionType::parse("900"),
        TransactionType::Unknown(_, TransactionSubType::Unknown)
    ));
    assert!(matches!(
        TransactionType::parse("1000"),
        TransactionType::Unknown(_, TransactionSubType::Unknown)
    ));
}

#[test]
fn classification_is_idempotent() {
    for code in ["475", "935", "890", "xyz", "010", "905", "970"] {
        let a = TransactionType::parse(code);
        let b = TransactionType::parse(code);
        assert_eq!(format!("{:?}", a), format!("{:?}", b));
        let c = AmountType::parse(code);
        let d = AmountType::parse(code);
        assert_eq!(format!("{:?}", c), format!("{:?}", d));
    }
}

#[test]
fn amount_codes_classify_by_the_table() {
    assert!(matches!(
        AmountType::parse("010"),
        AmountType::Status(c, AmountSubtype::OpeningLedger) if c == "010"
    ));
    assert!(matches!(
        AmountType::parse("100"),
        AmountType::CreditSummary(c, AmountSubtype::TotalCredits) if c == "100"
    ));
    assert!(matches!(
        AmountType::parse("400"),
        AmountType::DebitSummary(c, AmountSubtype::TotalDebits) if c == "400"
    ));
    assert!(matches!(
        AmountType::parse("banana"),
        AmountType::Unknown(_, AmountSubtype::Unknown)
    ));
}

#[test]
fn custom_amount_ranges_stay_directional() {
    assert!(matches!(
        AmountType::parse("905"),
        AmountType::Status(c, AmountSubtype::CustomStatus) if c == "905"
    ));
    assert!(matches!(
        AmountType::parse("940"),
        AmountType::CreditSummary(c, AmountSubtype::CustomCreditSummary) if c == "940"
    ));
    assert!(matches!(
        AmountType::parse("970"),
        AmountType::DebitSummary(c, AmountSubtype::CustomDebitSummary) if c == "970"
    ));
    // between the table's last entry and the custom ranges nothing is
    // custom
    assert!(matches!(
        AmountType::parse("800"),
        AmountType::Unknown(_, AmountSubtype::Unknown)
    ));
}

#[test]
fn funds_types_parse_from_their_codes() {
    assert_eq!(FundsType::parse("0"), FundsType::ImmediateAvailability);
    assert_eq!(FundsType::parse("1"), FundsType::OneDayAvailability);
    assert_eq!(FundsType::parse("2"), FundsType::TwoOrMoreDaysAvailability);
    assert_eq!(FundsType::parse(" V/"), FundsType::ValueDated);
    assert_eq!(
        FundsType::parse("S"),
        FundsType::DistributedAvailability(FundsSubType::S),
    );
    assert_eq!(
        FundsType::parse("D"),
        FundsType::DistributedAvailability(FundsSubType::D),
    );
    assert_eq!(FundsType::parse("Z"), FundsType::Unknown);
    assert_eq!(FundsType::parse(""), FundsType::Unknown);
}

#[test]
fn group_fields_decode_from_header_and_trailer() {
    let content = [
        "01,S,R,250101,0800,F,80,10,2/",
        "02,ULT,ORIG,1,250103,2400,EUR,2/",
        "98,77,1,4/",
        "99,77,1,6/",
    ]
    .join("\n");
    let file = Bai2File::new(content).unwrap();
    let group = &file.groups[0];
    assert!(matches!(group.status, GroupStatus::Update));
    assert_eq!(group.ultimate_receiver, "ULT");
    assert_eq!(group.originator, "ORIG");
    assert_eq!(group.currency_code, "EUR");
    assert_eq!(group.as_of_date, Some(Date { year: 2025, month: 1, day: 3 }));
    assert_eq!(group.as_of_time, Some("end of day".to_string()));
    assert_eq!(
        group.as_of_date_modifier,
        Some(AsOfDateModifier::FinalPreviousDayData),
    );
    assert_eq!(group.total, Some(77));
    assert_eq!(group.number_of_accounts, Some(1));
    assert_eq!(group.number_of_records, Some(4));
}

#[test]
fn group_status_and_modifier_codes() {
    assert!(matches!(GroupStatus::parse("1"), GroupStatus::Update));
    assert!(matches!(GroupStatus::parse("2"), GroupStatus::Deletion));
    assert!(matches!(GroupStatus::parse("3"), GroupStatus::Correction));
    assert!(matches!(GroupStatus::parse("4"), GroupStatus::TestOnly));
    assert!(matches!(GroupStatus::parse("9"), GroupStatus::Unknown(c) if c == "9"));
    assert_eq!(
        AsOfDateModifier::parse("1"),
        Some(AsOfDateModifier::InterimPreviousDayData),
    );
    assert_eq!(
        AsOfDateModifier::parse("3"),
        Some(AsOfDateModifier::InterimSameDayData),
    );
    assert_eq!(
        AsOfDateModifier::parse("4"),
        Some(AsOfDateModifier::FinalSameDayData),
    );
    assert_eq!(AsOfDateModifier::parse("7"), None);
}

#[test]
fn file_header_and_trailer_fields_decode() {
    let content = ["01,SNDR,RCVR,250101,0800,FID,80,10,2/", "99,123,0,2/"].join("\n");
    let file = Bai2File::new(content).unwrap();
    assert_eq!(file.sender, "SNDR");
    assert_eq!(file.receiver, "RCVR");
    assert_eq!(file.creation_date, Some(Date { year: 2025, month: 1, day: 1 }));
    assert_eq!(file.creation_time, Some("08:00:00".to_string()));
    assert_eq!(file.file_id, "FID");
    assert_eq!(file.version_number, Some(2));
    assert_eq!(file.total, Some(123));
    assert_eq!(file.number_of_groups, None);
    assert_eq!(file.number_of_records, Some(2));
}

#[test]
fn too_few_header_fields_fail_each_level() {
    assert_eq!(
        Bai2File::new("01,S,R/".to_string()).unwrap_err(),
        "Invalid file header. Expected 9 fields, but found less.",
    );
    let content = ["01,S,R,250101,0800,F,80,10,2/", "99,0/"].join("\n");
    assert_eq!(
        Bai2File::new(content).unwrap_err(),
        "Invalid file trailer. Expected 4 fields, but found less.",
    );
    let content = [
        "01,S,R,250101,0800,F,80,10,2/",
        "02,R,O/",
        "98,0,0,2/",
        "99,0,0,2/",
    ]
    .join("\n");
    assert_eq!(
        Bai2File::new(content).unwrap_err(),
        "Invalid group header. Expected 7 fields, but found less.",
    );
    let content = [
        "01,S,R,250101,0800,F,80,10,2/",
        "02,R,O,1,250101,0800,USD,1/",
        "98,0,0/",
        "99,0,0,2/",
    ]
    .join("\n");
    assert_eq!(
        Bai2File::new(content).unwrap_err(),
        "Invalid group trailer. Expected 4 fields, but found less.",
    );
    let content = [
        "01,S,R,250101,0800,F,80,10,2/",
        "02,R,O,1,250101,0800,USD,1/",
        "03,A,USD,010,1,0,0/",
        "49,0/",
        "98,0,0,2/",
        "99,0,0,2/",
    ]
    .join("\n");
    assert_eq!(
        Bai2File::new(content).unwrap_err(),
        "Invalid account trailer. Expected 3 fields, but found less.",
    );
}
