//! The account level of the document: the account-identifier record with
//! its repeating balance Amount sub-records, its transactions, and its
//! control trailer.
use crate::amount_type::{amount_type_spec, AmountType, AmountTypeS};
use crate::funds_type::{
    decode_availability, decode_availability_spec, dist_count_spec,
    lemma_decode_availability_consumed, FundsSubType, FundsType,
};
use crate::node::{lemma_views_of_nodes, Node, NodeS};
use crate::transaction::{transaction_from_fields_spec, Transaction, TransactionS};
use crate::util::{
    normalize_spec, parse_currency_spec, parse_i64_spec, parse_string, parse_u16_spec,
    parse_u32_spec, parse_u64_spec, seq_views, Date,
};
use std::collections::HashMap;
use vstd::prelude::*;

verus! {

/// One decoded balance Amount sub-record of an account header.
#[derive(Debug)]
pub struct Amount {
    pub amount_type: AmountType,
    pub amount_type_code: String,
    pub amount: Option<i64>,
    pub availability: HashMap<u16, i64>,
    pub funds_type: FundsType,
    pub item_count: Option<u16>,
    pub value_date: Option<Date>,
    pub value_time: Option<String>,
}

/// The mathematical shape of an [`Amount`].
pub struct AmountS {
    pub amount_type: AmountTypeS,
    pub amount_type_code: Seq<char>,
    pub amount: Option<i64>,
    pub availability: Map<u16, i64>,
    pub funds_type: FundsType,
    pub item_count: Option<u16>,
    pub value_date: Option<Date>,
    pub value_time: Option<Seq<char>>,
}

impl View for Amount {
    type V = AmountS;

    open spec fn view(&self) -> AmountS {
        AmountS {
            amount_type: self.amount_type@,
            amount_type_code: self.amount_type_code@,
            amount: self.amount,
            availability: self.availability@,
            funds_type: self.funds_type,
            item_count: self.item_count,
            value_date: self.value_date,
            value_time: match self.value_time {
                Some(t) => Some(t@),
                None => None,
            },
        }
    }
}

/// The views of a sequence of amounts.
pub open spec fn views_of_amounts(s: Seq<Amount>) -> Seq<AmountS> {
    Seq::new(s.len(), |i: int| s[i]@)
}

/// The back-to-back Amount sub-records starting at field `next`: each
/// starts with a type code and a quantity, then an item count and a funds
/// type, then the funds-type-dependent fields; decoding continues until
/// fewer than two fields remain. An amount whose four fixed fields are
/// not all present fails the record.
pub open spec fn amounts_spec(fields: Seq<Seq<char>>, next: int) -> Result<Seq<AmountS>, Seq<char>>
    decreases fields.len() - next,
    via amounts_spec_decreases
{
    if next + 1 >= fields.len() {
        Ok(Seq::<AmountS>::empty())
    } else if next + 4 > fields.len() {
        Err("Invalid amount. Expected more fields, but found less."@)
    } else {
        let code = normalize_spec(fields[next]);
        let ft = crate::funds_type::funds_type_spec(fields[next + 3]);
        match decode_availability_spec(fields, next + 4, ft) {
            Err(m) => Err(m),
            Ok(av) => {
                let a = AmountS {
                    amount_type: amount_type_spec(code),
                    amount_type_code: code,
                    amount: parse_i64_spec(fields[next + 1]),
                    availability: av.availability,
                    funds_type: ft,
                    item_count: parse_u16_spec(fields[next + 2]),
                    value_date: av.value_date,
                    value_time: av.value_time,
                };
                match amounts_spec(fields, next + 4 + av.consumed) {
                    Ok(rest) => Ok(seq![a] + rest),
                    Err(m) => Err(m),
                }
            },
        }
    }
}

/// Funds-type field-consumption at the account level: an Amount
/// sub-record at cursor `c` with the variable-layout funds type consumes
/// its four fixed fields, the count field, and the `2k` pair fields, so
/// the rest of the record decodes from `c + 5 + 2k`; its availability
/// breakdown has at most `k` entries, fewer when a pair fails to parse.
pub proof fn lemma_amount_distributed_consumption(fields: Seq<Seq<char>>, c: int)
    requires
        0 <= c,
        c + 5 <= fields.len(),
        crate::funds_type::funds_type_spec(fields[c + 3]) == FundsType::DistributedAvailability(
            FundsSubType::D,
        ),
        c + 5 + 2 * dist_count_spec(fields[c + 4]) <= fields.len(),
    ensures
        ({
            let k = dist_count_spec(fields[c + 4]);
            match amounts_spec(fields, c) {
                Ok(amts) => {
                    &&& amts.len() >= 1
                    &&& amts[0].availability.len() <= k
                    &&& amounts_spec(fields, c + 5 + 2 * k) is Ok
                    &&& amts.drop_first() == amounts_spec(fields, c + 5 + 2 * k)->Ok_0
                },
                Err(m) => amounts_spec(fields, c + 5 + 2 * k) == Err::<Seq<AmountS>, Seq<char>>(
                    m,
                ),
            }
        }),
{
    let k = dist_count_spec(fields[c + 4]);
    crate::funds_type::lemma_distributed_consumption(fields, c + 4);
    let av = decode_availability_spec(
        fields,
        c + 4,
        FundsType::DistributedAvailability(FundsSubType::D),
    )->Ok_0;
    assert(av.consumed == 1 + 2 * k);
    match amounts_spec(fields, c) {
        Ok(amts) => {
            match amounts_spec(fields, c + 5 + 2 * k) {
                Ok(rest) => {
                    assert(amts.drop_first() =~= rest);
                },
                Err(_) => {},
            }
        },
        Err(_) => {},
    }
}

#[via_fn]
proof fn amounts_spec_decreases(fields: Seq<Seq<char>>, next: int) {
    if next + 1 < fields.len() && next + 4 <= fields.len() {
        let ft = crate::funds_type::funds_type_spec(fields[next + 3]);
        if decode_availability_spec(fields, next + 4, ft) is Ok {
            lemma_decode_availability_consumed(fields, next + 4, ft);
        }
    }
}

impl Amount {
    /// Decodes the repeating Amount sub-records in an account header's
    /// trailing fields, starting at field `start`.
    pub fn parse(fields: &Vec<String>, start: usize) -> (r: Result<Vec<Amount>, &'static str>)
        ensures
            match r {
                Ok(v) => amounts_spec(seq_views(fields@), start as int) == Ok::<
                    Seq<AmountS>,
                    Seq<char>,
                >(views_of_amounts(v@)),
                Err(m) => amounts_spec(seq_views(fields@), start as int) == Err::<
                    Seq<AmountS>,
                    Seq<char>,
                >(m@),
            },
    {
        let ghost fv = seq_views(fields@);
        let len = fields.len();
        let mut out: Vec<Amount> = Vec::new();
        let mut next: usize = start;
        proof {
            assert(views_of_amounts(out@) =~= Seq::<AmountS>::empty());
            assert(views_of_amounts(out@) + amounts_spec(fv, next as int)->Ok_0
                =~= amounts_spec(fv, next as int)->Ok_0);
        }
        while next < len && len - next >= 2
            invariant
                len == fields@.len(),
                fv == seq_views(fields@),
                match amounts_spec(fv, next as int) {
                    Ok(rest) => amounts_spec(fv, start as int) == Ok::<Seq<AmountS>, Seq<char>>(
                        views_of_amounts(out@) + rest,
                    ),
                    Err(m) => amounts_spec(fv, start as int) == Err::<Seq<AmountS>, Seq<char>>(m),
                },
            decreases len - next,
        {
            if len - next < 4 {
                return Err("Invalid amount. Expected more fields, but found less.");
            }
            let amount_type_code = parse_string(fields[next].as_str());
            let amount_type = AmountType::parse(amount_type_code.as_str());
            let funds_type = FundsType::parse(fields[next + 3].as_str());
            let av = match decode_availability(fields, next + 4, funds_type) {
                Ok(a) => a,
                Err(m) => {
                    return Err(m);
                },
            };
            proof {
                lemma_decode_availability_consumed(fv, next as int + 4, funds_type);
            }
            let amount = Amount {
                amount: crate::util::parse_int(fields[next + 1].as_str()),
                amount_type,
                amount_type_code,
                availability: av.availability,
                funds_type,
                item_count: crate::util::parse_int_u16(fields[next + 2].as_str()),
                value_date: av.value_date,
                value_time: av.value_time,
            };
            proof {
                let rest_next = next as int + 4 + av@.consumed;
                assert(views_of_amounts(out@.push(amount)) =~= views_of_amounts(out@).push(
                    amount@,
                ));
                match amounts_spec(fv, rest_next) {
                    Ok(rest2) => {
                        assert(amounts_spec(fv, next as int) == Ok::<Seq<AmountS>, Seq<char>>(
                            seq![amount@] + rest2,
                        ));
                        assert(views_of_amounts(out@) + (seq![amount@] + rest2)
                            =~= views_of_amounts(out@).push(amount@) + rest2);
                    },
                    Err(m2) => {
                        assert(amounts_spec(fv, next as int) == Err::<Seq<AmountS>, Seq<char>>(
                            m2,
                        ));
                    },
                }
            }
            out.push(amount);
            next = next + 4 + av.consumed;
        }
        proof {
            assert(amounts_spec(fv, next as int) == Ok::<Seq<AmountS>, Seq<char>>(
                Seq::<AmountS>::empty(),
            ));
            assert(views_of_amounts(out@) + Seq::<AmountS>::empty() =~= views_of_amounts(out@));
        }
        Ok(out)
    }
}

/// One decoded account: its balance amounts, its transactions, and the
/// control totals from its trailer.
#[derive(Debug)]
pub struct Account {
    pub amounts: Vec<Amount>,
    pub currency_code: String,
    pub customer_account_number: String,
    pub number_of_records: Option<u32>,
    pub transactions: Vec<Transaction>,
    pub total: Option<u64>,
    pub value_date: Option<Date>,
    pub value_time: Option<String>,
}

/// The mathematical shape of an [`Account`].
pub struct AccountS {
    pub amounts: Seq<AmountS>,
    pub currency_code: Seq<char>,
    pub customer_account_number: Seq<char>,
    pub number_of_records: Option<u32>,
    pub transactions: Seq<TransactionS>,
    pub total: Option<u64>,
    pub value_date: Option<Date>,
    pub value_time: Option<Seq<char>>,
}

impl View for Account {
    type V = AccountS;

    open spec fn view(&self) -> AccountS {
        AccountS {
            amounts: views_of_amounts(self.amounts@),
            currency_code: self.currency_code@,
            customer_account_number: self.customer_account_number@,
            number_of_records: self.number_of_records,
            transactions: views_of_transactions(self.transactions@),
            total: self.total,
            value_date: self.value_date,
            value_time: match self.value_time {
                Some(t) => Some(t@),
                None => None,
            },
        }
    }
}

/// The views of a sequence of transactions.
pub open spec fn views_of_transactions(s: Seq<Transaction>) -> Seq<TransactionS> {
    Seq::new(s.len(), |i: int| s[i]@)
}

/// The transactions an account's child nodes decode to, in order; the
/// first failing child fails the account.
pub open spec fn transactions_of_children(children: Seq<NodeS>) -> Result<
    Seq<TransactionS>,
    Seq<char>,
>
    decreases children.len(),
{
    if children.len() == 0 {
        Ok(Seq::<TransactionS>::empty())
    } else {
        match transactions_of_children(children.drop_last()) {
            Err(m) => Err(m),
            Ok(ts) => match transaction_from_fields_spec(children.last().fields()) {
                Ok(t) => Ok(ts.push(t)),
                Err(m) => Err(m),
            },
        }
    }
}

proof fn lemma_transactions_err_extends(children: Seq<NodeS>, k: int, m: Seq<char>)
    requires
        0 <= k <= children.len(),
        transactions_of_children(children.subrange(0, k)) == Err::<Seq<TransactionS>, Seq<char>>(
            m,
        ),
    ensures
        transactions_of_children(children) == Err::<Seq<TransactionS>, Seq<char>>(m),
    decreases children.len() - k,
{
    if k == children.len() {
        assert(children.subrange(0, k) =~= children);
    } else {
        let up = children.subrange(0, k + 1);
        assert(up.drop_last() =~= children.subrange(0, k));
        assert(transactions_of_children(up) == Err::<Seq<TransactionS>, Seq<char>>(m));
        lemma_transactions_err_extends(children, k + 1, m);
    }
}

/// What an account node decodes to: its header's trailing fields as
/// Amount sub-records, its children as transactions, and its trailer's
/// control totals; too few header or trailer fields fail the account.
pub open spec fn account_from_node_spec(n: NodeS, default_currency: Seq<char>) -> Result<
    AccountS,
    Seq<char>,
> {
    let hf = n.fields();
    if hf.len() < 7 {
        Err("Invalid account header. Expected 7 fields, but found less."@)
    } else {
        let tf = n.sibling_fields();
        if tf.len() < 3 {
            Err("Invalid account trailer. Expected 3 fields, but found less."@)
        } else {
            match transactions_of_children(n.children) {
                Err(m) => Err(m),
                Ok(txns) => match amounts_spec(hf, 3) {
                    Err(m) => Err(m),
                    Ok(amounts) => Ok(
                        AccountS {
                            amounts,
                            currency_code: parse_currency_spec(hf[2], default_currency),
                            customer_account_number: normalize_spec(hf[1]),
                            number_of_records: parse_u32_spec(tf[2]),
                            transactions: txns,
                            total: parse_u64_spec(tf[1]),
                            value_date: None,
                            value_time: None,
                        },
                    ),
                },
            }
        }
    }
}

impl Account {
    /// Decodes one account-identifier node, its children, and its paired
    /// trailer.
    #[verifier::rlimit(60)]
    pub fn from_node(node: &Node, default_currency: &str) -> (r: Result<Account, &'static str>)
        ensures
            match r {
                Ok(a) => account_from_node_spec(node@, default_currency@) == Ok::<
                    AccountS,
                    Seq<char>,
                >(a@),
                Err(m) => account_from_node_spec(node@, default_currency@) == Err::<
                    AccountS,
                    Seq<char>,
                >(m@),
            },
    {
        let header_fields = node.fields();
        if header_fields.len() < 7 {
            return Err("Invalid account header. Expected 7 fields, but found less.");
        }
        let trailer_fields = node.sibling_fields();
        if trailer_fields.len() < 3 {
            return Err("Invalid account trailer. Expected 3 fields, but found less.");
        }
        proof {
            lemma_views_of_nodes(node.children@);
        }
        let ghost children = node@.children;
        let mut transactions: Vec<Transaction> = Vec::new();
        let mut i: usize = 0;
        proof {
            assert(children.subrange(0, 0) =~= Seq::<NodeS>::empty());
            assert(views_of_transactions(transactions@) =~= Seq::<TransactionS>::empty());
        }
        while i < node.children.len()
            invariant
                0 <= i <= node.children@.len(),
                children == node@.children,
                seq_views(header_fields@) == node@.fields(),
                header_fields@.len() >= 7,
                seq_views(trailer_fields@) == node@.sibling_fields(),
                trailer_fields@.len() >= 3,
                children.len() == node.children@.len(),
                forall|k: int| 0 <= k < children.len() ==> children[k]
                    == node.children@[k].view_rec(),
                transactions_of_children(children.subrange(0, i as int)) == Ok::<
                    Seq<TransactionS>,
                    Seq<char>,
                >(views_of_transactions(transactions@)),
            decreases node.children@.len() - i,
        {
            let t = match Transaction::from_node(&node.children[i]) {
                Ok(t) => t,
                Err(m) => {
                    proof {
                        let up = children.subrange(0, i + 1);
                        assert(up.drop_last() =~= children.subrange(0, i as int));
                        assert(up.last() == children[i as int]);
                        assert(transactions_of_children(up) == Err::<
                            Seq<TransactionS>,
                            Seq<char>,
                        >(m@));
                        lemma_transactions_err_extends(children, i + 1, m@);
                    }
                    return Err(m);
                },
            };
            proof {
                let up = children.subrange(0, i + 1);
                assert(up.drop_last() =~= children.subrange(0, i as int));
                assert(up.last() == children[i as int]);
                assert(views_of_transactions(transactions@.push(t)) =~= views_of_transactions(
                    transactions@,
                ).push(t@));
            }
            transactions.push(t);
            i = i + 1;
        }
        proof {
            assert(children.subrange(0, children.len() as int) =~= children);
        }
        let amounts = match Amount::parse(&header_fields, 3) {
            Ok(a) => a,
            Err(m) => {
                return Err(m);
            },
        };
        let account = Account {
            amounts,
            currency_code: crate::util::parse_currency(
                header_fields[2].as_str(),
                default_currency,
            ),
            customer_account_number: parse_string(header_fields[1].as_str()),
            number_of_records: crate::util::parse_int_u32(trailer_fields[2].as_str()),
            transactions,
            total: crate::util::parse_int_u64(trailer_fields[1].as_str()),
            value_date: None,
            value_time: None,
        };
        Ok(account)
    }
}

} // verus!
