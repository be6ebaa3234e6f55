//! The group level of the document: a group of accounts reported by one
//! originator, with its status and as-of date fields.
use crate::account::{account_from_node_spec, Account, AccountS};
use crate::node::{lemma_views_of_nodes, Node, NodeS};
use crate::util::{
    normalize_spec, parse_currency_spec, parse_date_spec, parse_string, parse_time_spec,
    parse_u16_spec, parse_u64_spec, seq_views, Date,
};
use vstd::prelude::*;

verus! {

/// The as-of-date modifier a group header may carry.
#[derive(Clone, Copy, Debug, PartialEq, Eq, Structural)]
pub enum AsOfDateModifier {
    InterimPreviousDayData,
    FinalPreviousDayData,
    InterimSameDayData,
    FinalSameDayData,
}

/// The modifier a raw field value names, after normalization.
pub open spec fn as_of_date_modifier_spec(v: Seq<char>) -> Option<AsOfDateModifier> {
    let t = normalize_spec(v);
    if t == seq!['1'] {
        Some(AsOfDateModifier::InterimPreviousDayData)
    } else if t == seq!['2'] {
        Some(AsOfDateModifier::FinalPreviousDayData)
    } else if t == seq!['3'] {
        Some(AsOfDateModifier::InterimSameDayData)
    } else if t == seq!['4'] {
        Some(AsOfDateModifier::FinalSameDayData)
    } else {
        None
    }
}

impl AsOfDateModifier {
    /// Reads the as-of-date modifier from a raw field value.
    pub fn parse(value: &str) -> (r: Option<AsOfDateModifier>)
        ensures
            r == as_of_date_modifier_spec(value@),
    {
        let t = crate::util::parse_string(value);
        let n = t.as_str().unicode_len();
        if n != 1 {
            return None;
        }
        let c = t.as_str().get_char(0);
        proof {
            assert(t@ =~= seq![t@[0]]);
        }
        match c {
            '1' => Some(AsOfDateModifier::InterimPreviousDayData),
            '2' => Some(AsOfDateModifier::FinalPreviousDayData),
            '3' => Some(AsOfDateModifier::InterimSameDayData),
            '4' => Some(AsOfDateModifier::FinalSameDayData),
            _ => None,
        }
    }
}

/// The status code a group header carries.
#[derive(Debug)]
pub enum GroupStatus {
    Update,
    Deletion,
    Correction,
    TestOnly,
    Unknown(String),
}

/// The mathematical shape of a [`GroupStatus`]: the unknown code as a
/// character sequence.
pub enum GroupStatusS {
    Update,
    Deletion,
    Correction,
    TestOnly,
    Unknown(Seq<char>),
}

impl View for GroupStatus {
    type V = GroupStatusS;

    open spec fn view(&self) -> GroupStatusS {
        match self {
            GroupStatus::Update => GroupStatusS::Update,
            GroupStatus::Deletion => GroupStatusS::Deletion,
            GroupStatus::Correction => GroupStatusS::Correction,
            GroupStatus::TestOnly => GroupStatusS::TestOnly,
            GroupStatus::Unknown(code) => GroupStatusS::Unknown(code@),
        }
    }
}

/// The status a raw field value names, after normalization; an
/// unrecognized code is kept.
pub open spec fn group_status_spec(v: Seq<char>) -> GroupStatusS {
    let t = normalize_spec(v);
    if t == seq!['1'] {
        GroupStatusS::Update
    } else if t == seq!['2'] {
        GroupStatusS::Deletion
    } else if t == seq!['3'] {
        GroupStatusS::Correction
    } else if t == seq!['4'] {
        GroupStatusS::TestOnly
    } else {
        GroupStatusS::Unknown(t)
    }
}

impl GroupStatus {
    /// Reads the group status from a raw field value.
    pub fn parse(value: &str) -> (r: GroupStatus)
        ensures
            r@ == group_status_spec(value@),
    {
        let t = crate::util::parse_string(value);
        let n = t.as_str().unicode_len();
        if n == 1 {
            let c = t.as_str().get_char(0);
            proof {
                assert(t@ =~= seq![t@[0]]);
            }
            match c {
                '1' => GroupStatus::Update,
                '2' => GroupStatus::Deletion,
                '3' => GroupStatus::Correction,
                '4' => GroupStatus::TestOnly,
                _ => GroupStatus::Unknown(t),
            }
        } else {
            GroupStatus::Unknown(t)
        }
    }
}

/// One decoded group: its accounts and the control totals from its
/// trailer.
#[derive(Debug)]
pub struct Group {
    pub accounts: Vec<Account>,
    pub as_of_date: Option<Date>,
    pub as_of_date_modifier: Option<AsOfDateModifier>,
    pub as_of_time: Option<String>,
    pub currency_code: String,
    pub originator: String,
    pub number_of_accounts: Option<u16>,
    pub number_of_records: Option<u16>,
    pub status: GroupStatus,
    pub total: Option<u64>,
    pub ultimate_receiver: String,
}

/// The mathematical shape of a [`Group`].
pub struct GroupS {
    pub accounts: Seq<AccountS>,
    pub as_of_date: Option<Date>,
    pub as_of_date_modifier: Option<AsOfDateModifier>,
    pub as_of_time: Option<Seq<char>>,
    pub currency_code: Seq<char>,
    pub originator: Seq<char>,
    pub number_of_accounts: Option<u16>,
    pub number_of_records: Option<u16>,
    pub status: GroupStatusS,
    pub total: Option<u64>,
    pub ultimate_receiver: Seq<char>,
}

impl View for Group {
    type V = GroupS;

    open spec fn view(&self) -> GroupS {
        GroupS {
            accounts: views_of_accounts(self.accounts@),
            as_of_date: self.as_of_date,
            as_of_date_modifier: self.as_of_date_modifier,
            as_of_time: match self.as_of_time {
                Some(t) => Some(t@),
                None => None,
            },
            currency_code: self.currency_code@,
            originator: self.originator@,
            number_of_accounts: self.number_of_accounts,
            number_of_records: self.number_of_records,
            status: self.status@,
            total: self.total,
            ultimate_receiver: self.ultimate_receiver@,
        }
    }
}

/// The views of a sequence of accounts.
pub open spec fn views_of_accounts(s: Seq<Account>) -> Seq<AccountS> {
    Seq::new(s.len(), |i: int| s[i]@)
}

/// The accounts a group's child nodes decode to, in order, each under the
/// group's currency; the first failing child fails the group.
pub open spec fn accounts_of_children(children: Seq<NodeS>, currency: Seq<char>) -> Result<
    Seq<AccountS>,
    Seq<char>,
>
    decreases children.len(),
{
    if children.len() == 0 {
        Ok(Seq::<AccountS>::empty())
    } else {
        match accounts_of_children(children.drop_last(), currency) {
            Err(m) => Err(m),
            Ok(accs) => match account_from_node_spec(children.last(), currency) {
                Ok(a) => Ok(accs.push(a)),
                Err(m) => Err(m),
            },
        }
    }
}

proof fn lemma_accounts_err_extends(children: Seq<NodeS>, currency: Seq<char>, k: int, m: Seq<char>)
    requires
        0 <= k <= children.len(),
        accounts_of_children(children.subrange(0, k), currency) == Err::<Seq<AccountS>, Seq<char>>(
            m,
        ),
    ensures
        accounts_of_children(children, currency) == Err::<Seq<AccountS>, Seq<char>>(m),
    decreases children.len() - k,
{
    if k == children.len() {
        assert(children.subrange(0, k) =~= children);
    } else {
        let up = children.subrange(0, k + 1);
        assert(up.drop_last() =~= children.subrange(0, k));
        assert(accounts_of_children(up, currency) == Err::<Seq<AccountS>, Seq<char>>(m));
        lemma_accounts_err_extends(children, currency, k + 1, m);
    }
}

/// What a group node decodes to: its children as accounts under the
/// group's currency, and its trailer's control totals; too few header or
/// trailer fields fail the group.
pub open spec fn group_from_node_spec(n: NodeS) -> Result<GroupS, Seq<char>> {
    let hf = n.fields();
    if hf.len() < 7 {
        Err("Invalid group header. Expected 7 fields, but found less."@)
    } else {
        let tf = n.sibling_fields();
        if tf.len() < 4 {
            Err("Invalid group trailer. Expected 4 fields, but found less."@)
        } else {
            let currency = parse_currency_spec(hf[6], "USD"@);
            match accounts_of_children(n.children, currency) {
                Err(m) => Err(m),
                Ok(accounts) => Ok(
                    GroupS {
                        accounts,
                        as_of_date: parse_date_spec(hf[4]),
                        as_of_date_modifier: if hf.len() > 7 {
                            as_of_date_modifier_spec(hf[7])
                        } else {
                            None
                        },
                        as_of_time: parse_time_spec(hf[5]),
                        currency_code: currency,
                        originator: normalize_spec(hf[2]),
                        number_of_accounts: parse_u16_spec(tf[2]),
                        number_of_records: parse_u16_spec(tf[3]),
                        status: group_status_spec(hf[3]),
                        total: parse_u64_spec(tf[1]),
                        ultimate_receiver: normalize_spec(hf[1]),
                    },
                ),
            }
        }
    }
}

impl Group {
    /// Decodes one group-header node, its children, and its paired
    /// trailer.
    #[verifier::rlimit(60)]
    pub fn from_node(node: &Node) -> (r: Result<Group, &'static str>)
        ensures
            match r {
                Ok(g) => group_from_node_spec(node@) == Ok::<GroupS, Seq<char>>(g@),
                Err(m) => group_from_node_spec(node@) == Err::<GroupS, Seq<char>>(m@),
            },
    {
        let header_fields = node.fields();
        if header_fields.len() < 7 {
            return Err("Invalid group header. Expected 7 fields, but found less.");
        }
        let trailer_fields = node.sibling_fields();
        if trailer_fields.len() < 4 {
            return Err("Invalid group trailer. Expected 4 fields, but found less.");
        }
        let currency_code = crate::util::parse_currency(header_fields[6].as_str(), "USD");
        proof {
            lemma_views_of_nodes(node.children@);
        }
        let ghost children = node@.children;
        let mut accounts: Vec<Account> = Vec::new();
        let mut i: usize = 0;
        proof {
            assert(children.subrange(0, 0) =~= Seq::<NodeS>::empty());
            assert(views_of_accounts(accounts@) =~= Seq::<AccountS>::empty());
        }
        while i < node.children.len()
            invariant
                0 <= i <= node.children@.len(),
                children == node@.children,
                seq_views(header_fields@) == node@.fields(),
                header_fields@.len() >= 7,
                seq_views(trailer_fields@) == node@.sibling_fields(),
                trailer_fields@.len() >= 4,
                currency_code@ == parse_currency_spec(node@.fields()[6], "USD"@),
                children.len() == node.children@.len(),
                forall|k: int| 0 <= k < children.len() ==> children[k]
                    == node.children@[k].view_rec(),
                accounts_of_children(children.subrange(0, i as int), currency_code@) == Ok::<
                    Seq<AccountS>,
                    Seq<char>,
                >(views_of_accounts(accounts@)),
            decreases node.children@.len() - i,
        {
            let a = match Account::from_node(&node.children[i], currency_code.as_str()) {
                Ok(a) => a,
                Err(m) => {
                    proof {
                        let up = children.subrange(0, i + 1);
                        assert(up.drop_last() =~= children.subrange(0, i as int));
                        assert(up.last() == children[i as int]);
                        assert(accounts_of_children(up, currency_code@) == Err::<
                            Seq<AccountS>,
                            Seq<char>,
                        >(m@));
                        lemma_accounts_err_extends(children, currency_code@, i + 1, m@);
                    }
                    return Err(m);
                },
            };
            proof {
                let up = children.subrange(0, i + 1);
                assert(up.drop_last() =~= children.subrange(0, i as int));
                assert(up.last() == children[i as int]);
                assert(views_of_accounts(accounts@.push(a)) =~= views_of_accounts(
                    accounts@,
                ).push(a@));
            }
            accounts.push(a);
            i = i + 1;
        }
        proof {
            assert(children.subrange(0, children.len() as int) =~= children);
        }
        let group = Group {
            accounts,
            as_of_date: crate::util::parse_date(header_fields[4].as_str()),
            as_of_date_modifier: if header_fields.len() > 7 {
                AsOfDateModifier::parse(header_fields[7].as_str())
            } else {
                None
            },
            as_of_time: crate::util::parse_time(header_fields[5].as_str()),
            currency_code,
            number_of_accounts: crate::util::parse_int_u16(trailer_fields[2].as_str()),
            number_of_records: crate::util::parse_int_u16(trailer_fields[3].as_str()),
            originator: parse_string(header_fields[2].as_str()),
            status: GroupStatus::parse(header_fields[3].as_str()),
            total: crate::util::parse_int_u64(trailer_fields[1].as_str()),
            ultimate_receiver: parse_string(header_fields[1].as_str()),
        };
        Ok(group)
    }
}

} // verus!
