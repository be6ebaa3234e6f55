//! A verified parser for BAI2, a line-oriented, comma-delimited banking
//! file format for cash-management balance and transaction reporting.
//!
//! The parser works in two layers. The structural scanner classifies each
//! physical line by its two-character record-type code, enforces the legal
//! File -> Group -> Account -> Transaction nesting with a stack of open
//! records, merges continuation lines into their owning record, and builds
//! a tree of [`node::Node`] values. The field-decoding layer consumes
//! each node's merged field list and produces the typed document, driving
//! variable-length decoding of availability schedules off the funds-type
//! discriminant field.
use vstd::prelude::*;

pub mod account;
pub mod amount_type;
pub mod funds_type;
pub mod group;
pub mod node;
pub mod scanner;
pub mod transaction;
pub mod transaction_type;
pub mod util;

use crate::group::{group_from_node_spec, Group, GroupS};
use crate::node::{lemma_views_of_nodes, Node, NodeS};
use crate::scanner::{spec_scan, Scanner};
use crate::util::{
    lines_spec, normalize_spec, parse_date_spec, parse_time_spec, parse_u16_spec, parse_u64_spec,
    parse_u8_spec, seq_views, Date,
};

verus! {

/// One fully decoded BAI2 file: its groups and the control totals from
/// its trailer.
#[derive(Debug)]
pub struct Bai2File {
    pub creation_date: Option<Date>,
    pub creation_time: Option<String>,
    pub file_id: String,
    pub groups: Vec<Group>,
    pub number_of_groups: Option<u16>,
    pub number_of_records: Option<u16>,
    pub total: Option<u64>,
    pub receiver: String,
    pub sender: String,
    pub version_number: Option<u8>,
}

/// The mathematical shape of a [`Bai2File`].
pub struct Bai2FileS {
    pub creation_date: Option<Date>,
    pub creation_time: Option<Seq<char>>,
    pub file_id: Seq<char>,
    pub groups: Seq<GroupS>,
    pub number_of_groups: Option<u16>,
    pub number_of_records: Option<u16>,
    pub total: Option<u64>,
    pub receiver: Seq<char>,
    pub sender: Seq<char>,
    pub version_number: Option<u8>,
}

impl View for Bai2File {
    type V = Bai2FileS;

    open spec fn view(&self) -> Bai2FileS {
        Bai2FileS {
            creation_date: self.creation_date,
            creation_time: match self.creation_time {
                Some(t) => Some(t@),
                None => None,
            },
            file_id: self.file_id@,
            groups: views_of_groups(self.groups@),
            number_of_groups: self.number_of_groups,
            number_of_records: self.number_of_records,
            total: self.total,
            receiver: self.receiver@,
            sender: self.sender@,
            version_number: self.version_number,
        }
    }
}

/// The views of a sequence of groups.
pub open spec fn views_of_groups(s: Seq<Group>) -> Seq<GroupS> {
    Seq::new(s.len(), |i: int| s[i]@)
}

/// The groups a file's child nodes decode to, in order; the first failing
/// child fails the file.
pub open spec fn groups_of_children(children: Seq<NodeS>) -> Result<Seq<GroupS>, Seq<char>>
    decreases children.len(),
{
    if children.len() == 0 {
        Ok(Seq::<GroupS>::empty())
    } else {
        match groups_of_children(children.drop_last()) {
            Err(m) => Err(m),
            Ok(gs) => match group_from_node_spec(children.last()) {
                Ok(g) => Ok(gs.push(g)),
                Err(m) => Err(m),
            },
        }
    }
}

proof fn lemma_groups_err_extends(children: Seq<NodeS>, k: int, m: Seq<char>)
    requires
        0 <= k <= children.len(),
        groups_of_children(children.subrange(0, k)) == Err::<Seq<GroupS>, Seq<char>>(m),
    ensures
        groups_of_children(children) == Err::<Seq<GroupS>, Seq<char>>(m),
    decreases children.len() - k,
{
    if k == children.len() {
        assert(children.subrange(0, k) =~= children);
    } else {
        let up = children.subrange(0, k + 1);
        assert(up.drop_last() =~= children.subrange(0, k));
        assert(groups_of_children(up) == Err::<Seq<GroupS>, Seq<char>>(m));
        lemma_groups_err_extends(children, k + 1, m);
    }
}

/// What the scanned root node decodes to: its children as groups, and the
/// file header and trailer fields; too few header or trailer fields fail
/// the file.
pub open spec fn file_from_scan_spec(root: NodeS) -> Result<Bai2FileS, Seq<char>> {
    let hf = root.fields();
    if hf.len() < 9 {
        Err("Invalid file header. Expected 9 fields, but found less."@)
    } else {
        let tf = root.sibling_fields();
        if tf.len() < 4 {
            Err("Invalid file trailer. Expected 4 fields, but found less."@)
        } else {
            match groups_of_children(root.children) {
                Err(m) => Err(m),
                Ok(groups) => Ok(
                    Bai2FileS {
                        creation_date: parse_date_spec(hf[3]),
                        creation_time: parse_time_spec(hf[4]),
                        file_id: normalize_spec(hf[5]),
                        groups,
                        number_of_groups: parse_u16_spec(tf[2]),
                        number_of_records: parse_u16_spec(tf[3]),
                        total: parse_u64_spec(tf[1]),
                        receiver: normalize_spec(hf[2]),
                        sender: normalize_spec(hf[1]),
                        version_number: parse_u8_spec(hf[8]),
                    },
                ),
            }
        }
    }
}

/// What a whole BAI2 text decodes to: the scan of its physical lines,
/// then the decode of the resulting tree; the first structural violation
/// or decoding failure is the result.
pub open spec fn bai2_file_spec(content: Seq<char>) -> Result<Bai2FileS, Seq<char>> {
    match spec_scan(lines_spec(content)) {
        Ok(root) => file_from_scan_spec(root),
        Err(m) => Err(m),
    }
}

impl Bai2File {
    /// Parses a whole BAI2 text into the decoded document.
    pub fn new(content: String) -> (r: Result<Bai2File, &'static str>)
        ensures
            match r {
                Ok(f) => bai2_file_spec(content@) == Ok::<Bai2FileS, Seq<char>>(f@),
                Err(m) => bai2_file_spec(content@) == Err::<Bai2FileS, Seq<char>>(m@),
            },
    {
        let mut scanner = Scanner::new(content.as_str());
        match scanner.scan() {
            Ok(scan_tree) => Bai2File::from_scan(scan_tree),
            Err(e) => Err(e),
        }
    }

    /// Decodes the scanned root node into the document.
    #[verifier::rlimit(60)]
    fn from_scan(root_node: Node) -> (r: Result<Bai2File, &'static str>)
        ensures
            match r {
                Ok(f) => file_from_scan_spec(root_node@) == Ok::<Bai2FileS, Seq<char>>(f@),
                Err(m) => file_from_scan_spec(root_node@) == Err::<Bai2FileS, Seq<char>>(m@),
            },
    {
        let header_fields = root_node.fields();
        if header_fields.len() < 9 {
            return Err("Invalid file header. Expected 9 fields, but found less.");
        }
        let trailer_fields = root_node.sibling_fields();
        if trailer_fields.len() < 4 {
            return Err("Invalid file trailer. Expected 4 fields, but found less.");
        }
        proof {
            lemma_views_of_nodes(root_node.children@);
        }
        let ghost children = root_node@.children;
        let mut groups: Vec<Group> = Vec::new();
        let mut i: usize = 0;
        proof {
            assert(children.subrange(0, 0) =~= Seq::<NodeS>::empty());
            assert(views_of_groups(groups@) =~= Seq::<GroupS>::empty());
        }
        while i < root_node.children.len()
            invariant
                0 <= i <= root_node.children@.len(),
                children == root_node@.children,
                seq_views(header_fields@) == root_node@.fields(),
                header_fields@.len() >= 9,
                seq_views(trailer_fields@) == root_node@.sibling_fields(),
                trailer_fields@.len() >= 4,
                children.len() == root_node.children@.len(),
                forall|k: int| 0 <= k < children.len() ==> children[k]
                    == root_node.children@[k].view_rec(),
                groups_of_children(children.subrange(0, i as int)) == Ok::<
                    Seq<GroupS>,
                    Seq<char>,
                >(views_of_groups(groups@)),
            decreases root_node.children@.len() - i,
        {
            let g = match Group::from_node(&root_node.children[i]) {
                Ok(g) => g,
                Err(m) => {
                    proof {
                        let up = children.subrange(0, i + 1);
                        assert(up.drop_last() =~= children.subrange(0, i as int));
                        assert(up.last() == children[i as int]);
                        assert(groups_of_children(up) == Err::<Seq<GroupS>, Seq<char>>(m@));
                        lemma_groups_err_extends(children, i + 1, m@);
                    }
                    return Err(m);
                },
            };
            proof {
                let up = children.subrange(0, i + 1);
                assert(up.drop_last() =~= children.subrange(0, i as int));
                assert(up.last() == children[i as int]);
                assert(views_of_groups(groups@.push(g)) =~= views_of_groups(groups@).push(g@));
            }
            groups.push(g);
            i = i + 1;
        }
        proof {
            assert(children.subrange(0, children.len() as int) =~= children);
        }
        let file = Bai2File {
            creation_date: crate::util::parse_date(header_fields[3].as_str()),
            creation_time: crate::util::parse_time(header_fields[4].as_str()),
            file_id: crate::util::parse_string(header_fields[5].as_str()),
            groups,
            number_of_groups: crate::util::parse_int_u16(trailer_fields[2].as_str()),
            number_of_records: crate::util::parse_int_u16(trailer_fields[3].as_str()),
            total: crate::util::parse_int_u64(trailer_fields[1].as_str()),
            receiver: crate::util::parse_string(header_fields[2].as_str()),
            sender: crate::util::parse_string(header_fields[1].as_str()),
            version_number: crate::util::parse_int_u8(header_fields[8].as_str()),
        };
        Ok(file)
    }
}

} // verus!
