//! Structural-scanner behavior: nesting, rejection, and the scanned tree.
use bai2::node::NodeType;
use bai2::scanner::Scanner;
use bai2::Bai2File;

fn lines(parts: &[&str]) -> String {
    parts.join("\n")
}

#[test]
fn example_scenario_parses_one_of_each_level() {
    // the account header carries its seven fixed fields, then one balance
    // amount with an unrecognized funds type
    let content = lines(&[
        "01,SENDER,RECEIVER,250101,0800,FILEID,80,10,2/",
        "02,RECV,ORIG,1,250101,0800,USD,1/",
        "03,ACCT1,USD,040,1000,0,CHK/",
        "16,475,500,0,REF1,CREF1,Memo text/",
        "49,1500,2/",
        "98,1500,1,4/",
        "99,1500,1,6/",
    ]);
    let file = Bai2File::new(content).expect("the file should parse");
    assert_eq!(file.sender, "SENDER");
    assert_eq!(file.receiver, "RECEIVER");
    assert_eq!(file.file_id, "FILEID");
    assert_eq!(file.groups.len(), 1);
    let group = &file.groups[0];
    assert_eq!(group.accounts.len(), 1);
    let account = &group.accounts[0];
    assert_eq!(account.transactions.len(), 1);
    assert_eq!(account.total, Some(1500));
    assert_eq!(account.number_of_records, Some(2));
    let txn = &account.transactions[0];
    assert_eq!(txn.amount, Some(500));
    assert!(matches!(
        &txn.transaction_type,
        bai2::transaction_type::TransactionType::Debit(
            code,
            bai2::transaction_type::TransactionSubType::CheckPaid,
        ) if code == "475"
    ));
    assert_eq!(txn.bank_reference_number, "REF1");
    assert_eq!(txn.customer_reference_number, "CREF1");
    assert_eq!(txn.text, vec!["Memo text".to_string()]);
}

#[test]
fn a_six_field_account_header_is_too_short() {
    let content = lines(&[
        "01,SENDER,RECEIVER,250101,0800,FILEID,80,10,2/",
        "02,RECV,ORIG,1,250101,0800,USD,1/",
        "03,ACCT1,USD,040,1000,CHK/",
        "49,1500,2/",
        "98,1500,1,4/",
        "99,1500,1,6/",
    ]);
    assert_eq!(
        Bai2File::new(content).unwrap_err(),
        "Invalid account header. Expected 7 fields, but found less.",
    );
}

#[test]
fn nesting_counts_match_the_input() {
    // two groups: the first with two accounts carrying two and zero
    // transactions, the second with no accounts
    let content = lines(&[
        "01,S,R,250101,0800,F,80,10,2/",
        "02,R,O,1,250101,0800,USD,1/",
        "03,A1,USD,010,1,0,0/",
        "16,475,1,0,R1,C1/",
        "16,475,2,0,R2,C2/",
        "49,3,4/",
        "03,A2,USD,010,1,0,0/",
        "49,1,2/",
        "98,4,2,8/",
        "02,R,O,1,250101,0800,USD,1/",
        "98,0,0,2/",
        "99,4,2,12/",
    ]);
    let file = Bai2File::new(content).expect("the file should parse");
    assert_eq!(file.groups.len(), 2);
    assert_eq!(file.groups[0].accounts.len(), 2);
    assert_eq!(file.groups[0].accounts[0].transactions.len(), 2);
    assert_eq!(file.groups[0].accounts[1].transactions.len(), 0);
    assert_eq!(file.groups[1].accounts.len(), 0);
    // the trailer-stated counts are observable beside the actual counts
    assert_eq!(file.groups[0].number_of_accounts, Some(2));
    assert_eq!(file.number_of_groups, Some(2));
}

#[test]
fn empty_input_reports_no_lines() {
    assert_eq!(Bai2File::new(String::new()).unwrap_err(), "no lines found in file");
    assert_eq!(Bai2File::new("\n\n".to_string()).unwrap_err(), "no lines found in file");
}

#[test]
fn blank_lines_before_the_header_are_skipped() {
    let content = lines(&["", "", "01,S,R,250101,0800,F,80,10,2/", "99,0,0,2/"]);
    let file = Bai2File::new(content).expect("the file should parse");
    assert_eq!(file.groups.len(), 0);
}

#[test]
fn a_file_must_open_with_a_file_header() {
    assert_eq!(
        Bai2File::new("02,R,O,1,250101,0800,USD,1/".to_string()).unwrap_err(),
        "file header not found",
    );
    assert_eq!(
        Bai2File::new("xx,1,2".to_string()).unwrap_err(),
        "file header not found",
    );
}

#[test]
fn lines_too_short_for_a_code_are_blank() {
    // a line shorter than the two-character record-type code is blank:
    // skipped while seeking, like any blank line
    assert_eq!(Bai2File::new("x".to_string()).unwrap_err(), "no lines found in file");
    let content = lines(&["9", "01,S,R,250101,0800,F,80,10,2/", "99,0,0,2/"]);
    let file = Bai2File::new(content).expect("the file should parse");
    assert_eq!(file.groups.len(), 0);
}

#[test]
fn a_second_file_header_is_rejected() {
    let header = "01,S,R,250101,0800,F,80,10,2/";
    assert_eq!(
        Bai2File::new(lines(&[header, header, "99,0,0,2/"])).unwrap_err(),
        "file header found inside an open file",
    );
    assert_eq!(
        Bai2File::new(lines(&[header, "02,R,O,1,250101,0800,USD,1/", header])).unwrap_err(),
        "file header found inside an open file",
    );
}

#[test]
fn transaction_detail_before_any_account_is_rejected() {
    let content = lines(&[
        "01,S,R,250101,0800,F,80,10,2/",
        "16,475,500,0,REF1,CREF1/",
    ]);
    assert_eq!(
        Bai2File::new(content).unwrap_err(),
        "transaction detail found without account identifier",
    );
    // the same record under a group but with no account identifier
    let content = lines(&[
        "01,S,R,250101,0800,F,80,10,2/",
        "02,R,O,1,250101,0800,USD,1/",
        "16,475,500,0,REF1,CREF1/",
    ]);
    assert_eq!(
        Bai2File::new(content).unwrap_err(),
        "transaction detail found without account identifier",
    );
}

#[test]
fn a_transaction_with_no_file_header_reports_the_missing_header() {
    assert_eq!(
        Bai2File::new("16,475,500,0,R,C/".to_string()).unwrap_err(),
        "file header not found",
    );
}

#[test]
fn other_nesting_violations_are_rejected() {
    let header = "01,S,R,250101,0800,F,80,10,2/";
    assert_eq!(
        Bai2File::new(lines(&[header, "03,A,USD,010,1,0,0/"])).unwrap_err(),
        "account identifier found without group header",
    );
    assert_eq!(
        Bai2File::new(lines(&[header, "49,0,1/"])).unwrap_err(),
        "account control found without account identifier",
    );
    assert_eq!(
        Bai2File::new(lines(&[header, "98,0,0,2/"])).unwrap_err(),
        "group trailer found without group header",
    );
    assert_eq!(
        Bai2File::new(lines(&[header, "02,R,O,1,250101,0800,USD,1/", "02,R,O,1,250101,0800,USD,1/"])).unwrap_err(),
        "group header found without file header",
    );
    assert_eq!(
        Bai2File::new(lines(&[header, "02,R,O,1,250101,0800,USD,1/", "99,0,0,2/"])).unwrap_err(),
        "file trailer found without file header",
    );
}

#[test]
fn unrecognized_record_codes_are_skipped() {
    let content = lines(&[
        "01,S,R,250101,0800,F,80,10,2/",
        "77,vendor,extension/",
        "xx",
        "9",
        "99,0,0,2/",
    ]);
    let file = Bai2File::new(content).expect("the file should parse");
    assert_eq!(file.groups.len(), 0);
}

#[test]
fn lines_after_the_file_trailer_cannot_alter_the_structure() {
    let content = lines(&[
        "01,S,R,250101,0800,F,80,10,2/",
        "99,0,0,2/",
        "16,475,500,0,R,C/",
        "02,R,O,1,250101,0800,USD,1/",
    ]);
    let file = Bai2File::new(content).expect("the file should parse");
    assert_eq!(file.groups.len(), 0);
}

#[test]
fn the_scanner_exposes_the_raw_tree() {
    let content = lines(&[
        "01,S,R,250101,0800,F,80,10,2/",
        "02,R,O,1,250101,0800,USD,1/",
        "88,extra,fields/",
        "98,0,0,2/",
        "99,0,0,2/",
    ]);
    let mut scanner = Scanner::new(&content);
    let root = scanner.scan().expect("the scan should succeed");
    assert_eq!(root.kind, NodeType::FileHeader);
    assert_eq!(root.children.len(), 1);
    let group = &root.children[0];
    assert_eq!(group.kind, NodeType::GroupHeader);
    assert!(group.has_continuations());
    assert_eq!(
        group.fields(),
        vec!["02", "R", "O", "1", "250101", "0800", "USD", "1/", "extra", "fields/"],
    );
    assert_eq!(group.sibling_fields(), vec!["98", "0", "0", "2/"]);
    assert!(root.sibling.is_some());
    let trailer = root.sibling.as_ref().as_ref().unwrap();
    assert_eq!(trailer.kind, NodeType::FileTrailer);
    assert_eq!(root.line, "01,S,R,250101,0800,F,80,10,2/");
}

#[test]
fn an_unterminated_file_folds_open_levels_into_the_root() {
    // end of input with open records: each still-open record is closed
    // into the one below it, and the scan returns the file-header root
    let content = lines(&[
        "01,S,R,250101,0800,F,80,10,2/",
        "02,R,O,1,250101,0800,USD,1/",
        "03,A,USD,010,1,0,0/",
        "16,475,1,0,R1,C1/",
    ]);
    let mut scanner = Scanner::new(&content);
    let root = scanner.scan().expect("the scan should succeed");
    assert_eq!(root.kind, NodeType::FileHeader);
    assert!(root.sibling.is_none());
    assert_eq!(root.children.len(), 1);
    let group = &root.children[0];
    assert_eq!(group.kind, NodeType::GroupHeader);
    assert_eq!(group.children.len(), 1);
    let account = &group.children[0];
    assert_eq!(account.kind, NodeType::AccountIdentifier);
    assert_eq!(account.children.len(), 1);
    assert_eq!(account.children[0].kind, NodeType::TransactionDetail);
}
