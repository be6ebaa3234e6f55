//! The transaction level of the document: one transaction-detail record,
//! decoded from its merged field list.
use crate::funds_type::{decode_availability, decode_availability_spec, FundsType};
use crate::node::Node;
use crate::transaction_type::{transaction_type_spec, TransactionType, TransactionTypeS};
use crate::util::{
    normalize_spec, parse_string, parse_u64_spec, seq_views, Date,
};
use std::collections::HashMap;
use vstd::prelude::*;

verus! {

/// One decoded transaction-detail record.
#[derive(Debug)]
pub struct Transaction {
    pub amount: Option<u64>,
    pub availability: HashMap<u16, i64>,
    pub bank_reference_number: String,
    pub customer_reference_number: String,
    pub funds_type: FundsType,
    pub text: Vec<String>,
    pub transaction_type: TransactionType,
    pub value_date: Option<Date>,
    pub value_time: Option<String>,
}

/// The mathematical shape of a [`Transaction`].
pub struct TransactionS {
    pub amount: Option<u64>,
    pub availability: Map<u16, i64>,
    pub bank_reference_number: Seq<char>,
    pub customer_reference_number: Seq<char>,
    pub funds_type: FundsType,
    pub text: Seq<Seq<char>>,
    pub transaction_type: TransactionTypeS,
    pub value_date: Option<Date>,
    pub value_time: Option<Seq<char>>,
}

impl View for Transaction {
    type V = TransactionS;

    open spec fn view(&self) -> TransactionS {
        TransactionS {
            amount: self.amount,
            availability: self.availability@,
            bank_reference_number: self.bank_reference_number@,
            customer_reference_number: self.customer_reference_number@,
            funds_type: self.funds_type,
            text: seq_views(self.text@),
            transaction_type: self.transaction_type@,
            value_date: self.value_date,
            value_time: match self.value_time {
                Some(t) => Some(t@),
                None => None,
            },
        }
    }
}

/// The free-text fields: everything from field `from` on, each normalized.
pub open spec fn text_fields_spec(fields: Seq<Seq<char>>, from: int) -> Seq<Seq<char>> {
    if from >= fields.len() {
        Seq::<Seq<char>>::empty()
    } else {
        Seq::new((fields.len() - from) as nat, |i: int| normalize_spec(fields[from + i]))
    }
}

/// What a transaction-detail record's merged field list decodes to: the
/// type code, the amount, the funds type with its dependent fields, the
/// two reference numbers, and the free text; a record with fewer than
/// three fields, or one whose funds-type fields run out, fails.
pub open spec fn transaction_from_fields_spec(fields: Seq<Seq<char>>) -> Result<
    TransactionS,
    Seq<char>,
> {
    if fields.len() < 3 {
        Err("Invalid transaction detail. Expected 3 fields, but found less."@)
    } else {
        let code = normalize_spec(fields[1]);
        let ft = crate::funds_type::funds_type_spec(
            if fields.len() > 3 {
                fields[3]
            } else {
                Seq::<char>::empty()
            },
        );
        match decode_availability_spec(fields, 4, ft) {
            Err(m) => Err(m),
            Ok(av) => {
                let next = 4 + av.consumed;
                Ok(
                    TransactionS {
                        amount: parse_u64_spec(fields[2]),
                        availability: av.availability,
                        bank_reference_number: normalize_spec(
                            if next < fields.len() {
                                fields[next]
                            } else {
                                Seq::<char>::empty()
                            },
                        ),
                        customer_reference_number: normalize_spec(
                            if next + 1 < fields.len() {
                                fields[next + 1]
                            } else {
                                Seq::<char>::empty()
                            },
                        ),
                        funds_type: ft,
                        text: text_fields_spec(fields, next + 2),
                        transaction_type: transaction_type_spec(code),
                        value_date: av.value_date,
                        value_time: av.value_time,
                    },
                )
            },
        }
    }
}

impl Transaction {
    /// Decodes one transaction-detail node's merged field list.
    pub fn from_node(node: &Node) -> (r: Result<Transaction, &'static str>)
        ensures
            match r {
                Ok(t) => transaction_from_fields_spec(node@.fields()) == Ok::<
                    TransactionS,
                    Seq<char>,
                >(t@),
                Err(m) => transaction_from_fields_spec(node@.fields()) == Err::<
                    TransactionS,
                    Seq<char>,
                >(m@),
            },
    {
        let fields = node.fields();
        let ghost fv = seq_views(fields@);
        let num_fields = fields.len();
        if num_fields < 3 {
            return Err("Invalid transaction detail. Expected 3 fields, but found less.");
        }
        let transaction_type_code = parse_string(fields[1].as_str());
        let transaction_type = TransactionType::parse(transaction_type_code.as_str());
        let empty_field = String::new();
        proof {
            assert(normalize_spec(empty_field@) =~= Seq::<char>::empty());
        }
        let funds_type = if num_fields > 3 {
            FundsType::parse(fields[3].as_str())
        } else {
            FundsType::parse(empty_field.as_str())
        };
        let av = match decode_availability(&fields, 4, funds_type) {
            Ok(av) => av,
            Err(m) => {
                return Err(m);
            },
        };
        proof {
            crate::funds_type::lemma_decode_availability_consumed(fv, 4, funds_type);
        }
        let next_start_index = 4 + av.consumed;
        let rem = if next_start_index <= num_fields {
            num_fields - next_start_index
        } else {
            0
        };
        let bank_reference_number = if rem >= 1 {
            parse_string(fields[next_start_index].as_str())
        } else {
            String::new()
        };
        let customer_reference_number = if rem >= 2 {
            parse_string(fields[next_start_index + 1].as_str())
        } else {
            String::new()
        };
        let text_count = if rem >= 2 {
            rem - 2
        } else {
            0
        };
        let ghost text_from = next_start_index as int + 2;
        let mut text: Vec<String> = Vec::new();
        let mut k: usize = 0;
        proof {
            assert(seq_views(text@) =~= Seq::<Seq<char>>::empty());
        }
        while k < text_count
            invariant
                0 <= k <= text_count,
                num_fields == fields@.len(),
                fv == seq_views(fields@),
                text_from == next_start_index as int + 2,
                text_count == (if next_start_index as int + 2 <= num_fields {
                    num_fields - next_start_index - 2
                } else {
                    0int
                }),
                next_start_index as int + 2 + text_count <= num_fields || text_count == 0,
                text@.len() == k,
                forall|j: int| 0 <= j < k ==> text@[j]@ == normalize_spec(fv[text_from + j]),
            decreases text_count - k,
        {
            let piece = parse_string(fields[next_start_index + 2 + k].as_str());
            text.push(piece);
            k = k + 1;
        }
        let amount = crate::util::parse_int_u64(fields[2].as_str());
        let r = Transaction {
            amount,
            availability: av.availability,
            bank_reference_number,
            customer_reference_number,
            funds_type,
            text,
            transaction_type,
            value_date: av.value_date,
            value_time: av.value_time,
        };
        proof {
            assert(seq_views(r.text@) =~= text_fields_spec(fv, text_from));
            let spec_r = transaction_from_fields_spec(node@.fields());
            assert(spec_r matches Ok(t) && t.availability == r@.availability);
            assert(spec_r matches Ok(t) && t.text == r@.text);
            assert(spec_r == Ok::<TransactionS, Seq<char>>(r@));
        }
        Ok(r)
    }
}

} // verus!
