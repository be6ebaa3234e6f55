//! The funds-type discriminant: the field that decides how many and which
//! additional fields follow in an Amount or Transaction record, and the
//! decoding of those funds-type-dependent fields.
use crate::util::{
    normalize_spec, parse_date_spec, parse_i64_spec, parse_time_spec, parse_u16_spec, seq_views,
    Date,
};
use std::collections::HashMap;
use vstd::prelude::*;

verus! {

broadcast use vstd::std_specs::hash::group_hash_axioms;

/// The funds-type discriminant of an Amount or Transaction record.
#[derive(Clone, Copy, Debug, PartialEq, Eq, Structural)]
pub enum FundsType {
    Unknown,
    ImmediateAvailability,
    OneDayAvailability,
    TwoOrMoreDaysAvailability,
    ValueDated,
    DistributedAvailability(FundsSubType),
}

/// The two distributed-availability layouts: `S` is a fixed three-bucket
/// breakdown, `D` a count-prefixed list of (days, amount) pairs.
#[derive(Clone, Copy, Debug, PartialEq, Eq, Structural)]
pub enum FundsSubType {
    S,
    D,
}

/// The funds type a raw field value names, after normalization; anything
/// unrecognized is tolerated as `Unknown`.
pub open spec fn funds_type_spec(v: Seq<char>) -> FundsType {
    let t = normalize_spec(v);
    if t == seq!['0'] {
        FundsType::ImmediateAvailability
    } else if t == seq!['1'] {
        FundsType::OneDayAvailability
    } else if t == seq!['2'] {
        FundsType::TwoOrMoreDaysAvailability
    } else if t == seq!['V'] {
        FundsType::ValueDated
    } else if t == seq!['S'] {
        FundsType::DistributedAvailability(FundsSubType::S)
    } else if t == seq!['D'] {
        FundsType::DistributedAvailability(FundsSubType::D)
    } else {
        FundsType::Unknown
    }
}

impl FundsType {
    /// Reads the funds-type discriminant from a raw field value.
    pub fn parse(value: &str) -> (r: FundsType)
        ensures
            r == funds_type_spec(value@),
    {
        let t = crate::util::parse_string(value);
        let n = t.as_str().unicode_len();
        if n != 1 {
            return FundsType::Unknown;
        }
        let c = t.as_str().get_char(0);
        proof {
            assert(t@ =~= seq![t@[0]]);
        }
        match c {
            '0' => FundsType::ImmediateAvailability,
            '1' => FundsType::OneDayAvailability,
            '2' => FundsType::TwoOrMoreDaysAvailability,
            'V' => FundsType::ValueDated,
            'S' => FundsType::DistributedAvailability(FundsSubType::S),
            'D' => FundsType::DistributedAvailability(FundsSubType::D),
            _ => FundsType::Unknown,
        }
    }
}

/// The funds-type-dependent part of an Amount or Transaction record: a
/// value date/time pair, or an availability breakdown, and how many
/// fields it consumed.
pub struct Availability {
    pub value_date: Option<Date>,
    pub value_time: Option<String>,
    pub availability: HashMap<u16, i64>,
    pub consumed: usize,
}

/// The mathematical shape of an [`Availability`].
pub struct AvailabilityS {
    pub value_date: Option<Date>,
    pub value_time: Option<Seq<char>>,
    pub availability: Map<u16, i64>,
    pub consumed: int,
}

impl View for Availability {
    type V = AvailabilityS;

    open spec fn view(&self) -> AvailabilityS {
        AvailabilityS {
            value_date: self.value_date,
            value_time: match self.value_time {
                Some(t) => Some(t@),
                None => None,
            },
            availability: self.availability@,
            consumed: self.consumed as int,
        }
    }
}

/// The distribution count a `D`-type record announces: a count field that
/// does not parse as a nonnegative 32-bit integer counts as zero.
pub open spec fn dist_count_spec(v: Seq<char>) -> int {
    match parse_i64_spec(v) {
        Some(k) => if 0 <= k <= i32::MAX {
            k as int
        } else {
            0
        },
        None => 0,
    }
}

/// The availability breakdown the first `k` (days, amount) pairs starting
/// at field `p` describe; a pair in which either value fails to parse is
/// dropped.
pub open spec fn avail_pairs_spec(fields: Seq<Seq<char>>, p: int, k: int) -> Map<u16, i64>
    decreases k,
{
    if k <= 0 {
        Map::<u16, i64>::empty()
    } else {
        let m = avail_pairs_spec(fields, p, k - 1);
        match (parse_u16_spec(fields[p + 2 * (k - 1)]), parse_i64_spec(
            fields[p + 2 * (k - 1) + 1],
        )) {
            (Some(d), Some(a)) => m.insert(d, a),
            _ => m,
        }
    }
}

pub proof fn lemma_avail_pairs_len(fields: Seq<Seq<char>>, p: int, k: int)
    requires
        k >= 0,
    ensures
        avail_pairs_spec(fields, p, k).dom().finite(),
        avail_pairs_spec(fields, p, k).len() <= k,
    decreases k,
{
    if k > 0 {
        lemma_avail_pairs_len(fields, p, k - 1);
        let m = avail_pairs_spec(fields, p, k - 1);
        match (parse_u16_spec(fields[p + 2 * (k - 1)]), parse_i64_spec(
            fields[p + 2 * (k - 1) + 1],
        )) {
            (Some(d), Some(a)) => {
                assert(m.insert(d, a).dom() =~= m.dom().insert(d));
                vstd::set::axiom_set_insert_len(m.dom(), d);
            },
            _ => {},
        }
    }
}

/// Funds-type field-consumption correctness for the variable layout: for
/// funds type `D` with a distribution count of zero, the decoder consumes
/// exactly the one count field and no pairs; for count `k`, exactly
/// `1 + 2k` fields are consumed, and the availability breakdown has at
/// most `k` entries, fewer when a pair fails to parse.
pub proof fn lemma_distributed_consumption(fields: Seq<Seq<char>>, start: int)
    requires
        0 <= start < fields.len(),
        start + 1 + 2 * dist_count_spec(fields[start]) <= fields.len(),
    ensures
        ({
            let k = dist_count_spec(fields[start]);
            let r = decode_availability_spec(
                fields,
                start,
                FundsType::DistributedAvailability(FundsSubType::D),
            );
            &&& r is Ok
            &&& r->Ok_0.consumed == 1 + 2 * k
            &&& r->Ok_0.availability.len() <= k
            &&& (k == 0 ==> r->Ok_0.availability == Map::<u16, i64>::empty())
        }),
{
    let k = dist_count_spec(fields[start]);
    lemma_avail_pairs_len(fields, start + 1, k);
}

/// A successful availability decode consumes no fields at all, or fields
/// that all lie within the record.
pub proof fn lemma_decode_availability_consumed(fields: Seq<Seq<char>>, start: int, ft: FundsType)
    requires
        decode_availability_spec(fields, start, ft) is Ok,
    ensures
        ({
            let a = decode_availability_spec(fields, start, ft)->Ok_0;
            0 <= a.consumed && (a.consumed == 0 || start + a.consumed <= fields.len())
        }),
{
}

/// What the funds-type-dependent fields of a record describe, and how
/// many fields they consume, starting at field `start`: a value date and
/// time for `V`, a fixed three-bucket breakdown for `S`, a count-prefixed
/// pair list for `D`, and nothing for any other funds type. Running out
/// of fields, or an unparseable fixed-layout amount, fails the record.
pub open spec fn decode_availability_spec(fields: Seq<Seq<char>>, start: int, ft: FundsType) -> Result<
    AvailabilityS,
    Seq<char>,
> {
    match ft {
        FundsType::ValueDated => {
            if 0 <= start && start + 2 <= fields.len() {
                Ok(
                    AvailabilityS {
                        value_date: parse_date_spec(fields[start]),
                        value_time: parse_time_spec(fields[start + 1]),
                        availability: Map::<u16, i64>::empty(),
                        consumed: 2,
                    },
                )
            } else {
                Err("Invalid availability. Expected more fields, but found less."@)
            }
        },
        FundsType::DistributedAvailability(FundsSubType::S) => {
            if 0 <= start && start + 3 <= fields.len() {
                match (parse_i64_spec(fields[start]), parse_i64_spec(fields[start + 1]),
                parse_i64_spec(fields[start + 2])) {
                    (Some(a0), Some(a1), Some(a2)) => Ok(
                        AvailabilityS {
                            value_date: None,
                            value_time: None,
                            availability: Map::<u16, i64>::empty().insert(0u16, a0).insert(
                                1u16,
                                a1,
                            ).insert(2u16, a2),
                            consumed: 3,
                        },
                    ),
                    _ => Err("Invalid availability amount. Expected an integer."@),
                }
            } else {
                Err("Invalid availability. Expected more fields, but found less."@)
            }
        },
        FundsType::DistributedAvailability(FundsSubType::D) => {
            if 0 <= start && start < fields.len() {
                let k = dist_count_spec(fields[start]);
                if start + 1 + 2 * k <= fields.len() {
                    Ok(
                        AvailabilityS {
                            value_date: None,
                            value_time: None,
                            availability: avail_pairs_spec(fields, start + 1, k),
                            consumed: 1 + 2 * k,
                        },
                    )
                } else {
                    Err("Invalid availability. Expected more fields, but found less."@)
                }
            } else {
                Err("Invalid availability. Expected more fields, but found less."@)
            }
        },
        _ => Ok(
            AvailabilityS {
                value_date: None,
                value_time: None,
                availability: Map::<u16, i64>::empty(),
                consumed: 0,
            },
        ),
    }
}

/// Decodes the funds-type-dependent fields of a record, advancing a
/// cursor: the caller learns exactly how many fields were consumed.
pub fn decode_availability(fields: &Vec<String>, start: usize, ft: FundsType) -> (r: Result<
    Availability,
    &'static str,
>)
    ensures
        match r {
            Ok(a) => decode_availability_spec(seq_views(fields@), start as int, ft) == Ok::<
                AvailabilityS,
                Seq<char>,
            >(a@),
            Err(m) => decode_availability_spec(seq_views(fields@), start as int, ft) == Err::<
                AvailabilityS,
                Seq<char>,
            >(m@),
        },
{
    let len = fields.len();
    let ghost fv = seq_views(fields@);
    match ft {
        FundsType::ValueDated => {
            if start <= len && len - start >= 2 {
                let value_date = crate::util::parse_date(fields[start].as_str());
                let value_time = crate::util::parse_time(fields[start + 1].as_str());
                Ok(
                    Availability {
                        value_date,
                        value_time,
                        availability: HashMap::new(),
                        consumed: 2,
                    },
                )
            } else {
                Err("Invalid availability. Expected more fields, but found less.")
            }
        },
        FundsType::DistributedAvailability(FundsSubType::S) => {
            if start <= len && len - start >= 3 {
                let a0 = crate::util::parse_int(fields[start].as_str());
                let a1 = crate::util::parse_int(fields[start + 1].as_str());
                let a2 = crate::util::parse_int(fields[start + 2].as_str());
                match (a0, a1, a2) {
                    (Some(x0), Some(x1), Some(x2)) => {
                        let mut m: HashMap<u16, i64> = HashMap::new();
                        m.insert(0, x0);
                        m.insert(1, x1);
                        m.insert(2, x2);
                        Ok(
                            Availability {
                                value_date: None,
                                value_time: None,
                                availability: m,
                                consumed: 3,
                            },
                        )
                    },
                    _ => Err("Invalid availability amount. Expected an integer."),
                }
            } else {
                Err("Invalid availability. Expected more fields, but found less.")
            }
        },
        FundsType::DistributedAvailability(FundsSubType::D) => {
            if start < len {
                let count: usize = match crate::util::parse_int(fields[start].as_str()) {
                    Some(v) => {
                        if 0 <= v && v <= i32::MAX as i64 {
                            v as usize
                        } else {
                            0
                        }
                    },
                    None => 0,
                };
                let rem = len - start - 1;
                proof {
                    vstd::arithmetic::div_mod::lemma_fundamental_div_mod(rem as int, 2);
                    vstd::arithmetic::div_mod::lemma_mod_bound(rem as int, 2);
                }
                if count > rem / 2 {
                    return Err("Invalid availability. Expected more fields, but found less.");
                }
                let mut m: HashMap<u16, i64> = HashMap::new();
                let p = start + 1;
                let mut j: usize = 0;
                while j < count
                    invariant
                        p == start + 1,
                        0 <= j <= count,
                        start + 1 + 2 * count <= len == fields@.len(),
                        fv == seq_views(fields@),
                        m@ == avail_pairs_spec(fv, p as int, j as int),
                    decreases count - j,
                {
                    let days = crate::util::parse_int_u16(fields[p + 2 * j].as_str());
                    let amt = crate::util::parse_int(fields[p + 2 * j + 1].as_str());
                    match (days, amt) {
                        (Some(d), Some(a)) => {
                            m.insert(d, a);
                        },
                        _ => {},
                    }
                    j = j + 1;
                }
                Ok(
                    Availability {
                        value_date: None,
                        value_time: None,
                        availability: m,
                        consumed: 1 + 2 * count,
                    },
                )
            } else {
                Err("Invalid availability. Expected more fields, but found less.")
            }
        },
        _ => Ok(
            Availability {
                value_date: None,
                value_time: None,
                availability: HashMap::new(),
                consumed: 0,
            },
        ),
    }
}

} // verus!
