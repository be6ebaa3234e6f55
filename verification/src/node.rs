//! The tree entity the structural scanner builds: one node per logical
//! record, owning its nested children, its continuation records, and, for a
//! header record, the paired trailer record (its sibling).
use crate::util::{
    has_no, join_spec, lemma_split_elems_free, lemma_split_join, lemma_split_nonempty, seq_views,
    split_spec,
};
use vstd::prelude::*;

verus! {

/// The role of a record, as the two-character record-type code names it.
#[derive(Clone, Copy, Debug, PartialEq, Eq, Structural)]
pub enum NodeType {
    AccountIdentifier,
    AccountTrailer,
    Continuation,
    FileHeader,
    FileTrailer,
    GroupHeader,
    GroupTrailer,
    TransactionDetail,
}

/// One logical record of the file.
#[derive(Debug)]
pub struct Node {
    /// The records nested inside this one, in input order.
    pub children: Vec<Node>,
    /// The continuation records extending this record's field list.
    pub continuations: Vec<Node>,
    /// The original physical line.
    pub line: String,
    /// The paired trailer record, for a header record that has seen one.
    pub sibling: Box<Option<Node>>,
    /// The record's role.
    pub kind: NodeType,
}

/// The mathematical shape of a [`Node`]: the same tree over sequences.
#[verifier::ext_equal]
pub struct NodeS {
    pub children: Seq<NodeS>,
    pub continuations: Seq<NodeS>,
    pub line: Seq<char>,
    pub sibling: Option<Box<NodeS>>,
    pub kind: NodeType,
}

impl Node {
    pub open spec fn view_rec(self) -> NodeS
        decreases self,
    {
        NodeS {
            children: views_of_nodes(self.children@),
            continuations: views_of_nodes(self.continuations@),
            line: self.line@,
            sibling: match *self.sibling {
                Some(s) => Some(Box::new(s.view_rec())),
                None => None,
            },
            kind: self.kind,
        }
    }
}

/// The views of a sequence of nodes.
pub open spec fn views_of_nodes(s: Seq<Node>) -> Seq<NodeS>
    decreases s,
{
    if s.len() == 0 {
        Seq::<NodeS>::empty()
    } else {
        views_of_nodes(s.subrange(0, s.len() - 1)).push(s[s.len() - 1].view_rec())
    }
}

pub proof fn lemma_views_of_nodes(s: Seq<Node>)
    ensures
        views_of_nodes(s).len() == s.len(),
        forall|i: int| 0 <= i < s.len() ==> views_of_nodes(s)[i] == s[i].view_rec(),
    decreases s.len(),
{
    if s.len() > 0 {
        lemma_views_of_nodes(s.subrange(0, s.len() - 1));
    }
}

impl View for Node {
    type V = NodeS;

    open spec fn view(&self) -> NodeS {
        self.view_rec()
    }
}

impl NodeS {
    /// The merged field list: the node's own comma-split fields, then each
    /// continuation's fields with the continuation's own leading
    /// record-type field dropped.
    pub open spec fn fields(self) -> Seq<Seq<char>> {
        split_spec(self.line, ',') + flat_continuation_fields(self.continuations)
    }

    /// The merged field list of the paired trailer, or nothing when no
    /// trailer has been attached.
    pub open spec fn sibling_fields(self) -> Seq<Seq<char>> {
        match self.sibling {
            Some(s) => s.fields(),
            None => Seq::<Seq<char>>::empty(),
        }
    }
}

/// The fields the continuation records contribute, in order: each
/// continuation's comma-split line minus its leading field.
pub open spec fn flat_continuation_fields(conts: Seq<NodeS>) -> Seq<Seq<char>>
    decreases conts.len(),
{
    if conts.len() == 0 {
        Seq::<Seq<char>>::empty()
    } else {
        flat_continuation_fields(conts.drop_last()) + split_spec(conts.last().line, ',').skip(1)
    }
}

/// Every field a record's continuations contribute is itself free of the
/// field separator.
proof fn lemma_continuation_fields_free(conts: Seq<NodeS>)
    ensures
        forall|k: int|
            0 <= k < flat_continuation_fields(conts).len() ==> has_no(
                #[trigger] flat_continuation_fields(conts)[k],
                ',',
            ),
    decreases conts.len(),
{
    if conts.len() > 0 {
        lemma_continuation_fields_free(conts.drop_last());
        lemma_split_elems_free(conts.last().line, ',');
        let left = flat_continuation_fields(conts.drop_last());
        let pieces = split_spec(conts.last().line, ',');
        let right = pieces.skip(1);
        assert(forall|j: int| 0 <= j < right.len() ==> right[j] == pieces[j + 1]);
        assert(flat_continuation_fields(conts) == left + right);
        assert forall|k: int| 0 <= k < (left + right).len() implies has_no(
            (left + right)[k],
            ',',
        ) by {
            if k < left.len() {
                assert((left + right)[k] == left[k]);
            } else {
                assert((left + right)[k] == right[k - left.len()]);
            }
        }
    }
}

/// Continuation transparency: a record split across continuation lines
/// has exactly the field list of the same logical record written on one
/// line, with all its fields joined back together; the decoders read
/// nothing but that field list, so the two decode identically.
pub proof fn lemma_continuation_transparency(split_node: NodeS, single: NodeS)
    requires
        single.continuations.len() == 0,
        single.line == join_spec(split_node.fields(), ','),
    ensures
        single.fields() == split_node.fields(),
{
    let fs = split_node.fields();
    lemma_split_nonempty(split_node.line, ',');
    lemma_split_elems_free(split_node.line, ',');
    lemma_continuation_fields_free(split_node.continuations);
    assert(forall|k: int| 0 <= k < fs.len() ==> has_no(#[trigger] fs[k], ','));
    lemma_split_join(fs, ',');
    assert(flat_continuation_fields(single.continuations) =~= Seq::<Seq<char>>::empty());
    assert(single.fields() =~= fs);
}

impl Node {
    /// The merged, flattened field view across this record and its
    /// continuations.
    pub fn fields(&self) -> (r: Vec<String>)
        ensures
            seq_views(r@) == self@.fields(),
    {
        let mut out = crate::util::split_exec(self.line.as_str(), ',');
        proof {
            lemma_views_of_nodes(self.continuations@);
            assert(flat_continuation_fields(self@.continuations.subrange(0, 0))
                =~= Seq::<Seq<char>>::empty());
            assert(seq_views(out@) =~= split_spec(self.line@, ',') + flat_continuation_fields(
                self@.continuations.subrange(0, 0),
            ));
        }
        let mut i: usize = 0;
        while i < self.continuations.len()
            invariant
                0 <= i <= self.continuations@.len(),
                self@.continuations == views_of_nodes(self.continuations@),
                self@.continuations.len() == self.continuations@.len(),
                forall|k: int| 0 <= k < self.continuations@.len() ==> self@.continuations[k]
                    == self.continuations@[k].view_rec(),
                seq_views(out@) == split_spec(self.line@, ',') + flat_continuation_fields(
                    self@.continuations.subrange(0, i as int),
                ),
            decreases self.continuations@.len() - i,
        {
            let cont_fields = crate::util::split_exec(self.continuations[i].line.as_str(), ',');
            let mut j: usize = 1;
            while j < cont_fields.len()
                invariant
                    1 <= j <= cont_fields@.len() || cont_fields@.len() == 0,
                    0 <= i < self.continuations@.len(),
                    self@.continuations == views_of_nodes(self.continuations@),
                    self@.continuations.len() == self.continuations@.len(),
                    self@.continuations[i as int] == self.continuations@[i as int].view_rec(),
                    seq_views(cont_fields@) == split_spec(
                        self.continuations@[i as int].line@,
                        ',',
                    ),
                    seq_views(out@) == split_spec(self.line@, ',') + flat_continuation_fields(
                        self@.continuations.subrange(0, i as int),
                    ) + seq_views(cont_fields@).subrange(1, j as int),
                decreases cont_fields@.len() - j,
            {
                let piece = cont_fields[j].clone();
                proof {
                    assert(seq_views(out@.push(piece)) =~= seq_views(out@) + seq![piece@]);
                    assert(seq_views(cont_fields@).subrange(1, j + 1) =~= seq_views(
                        cont_fields@,
                    ).subrange(1, j as int).push(cont_fields@[j as int]@));
                }
                out.push(piece);
                j = j + 1;
            }
            proof {
                let conts = self@.continuations;
                let upto = conts.subrange(0, i + 1);
                assert(upto.drop_last() =~= conts.subrange(0, i as int));
                assert(upto.last() == conts[i as int]);
                assert(conts[i as int].line == self.continuations@[i as int].line@);
                if cont_fields@.len() == 0 {
                    crate::util::lemma_split_nonempty(self.continuations@[i as int].line@, ',');
                }
                assert(seq_views(cont_fields@).subrange(1, cont_fields@.len() as int)
                    =~= split_spec(conts[i as int].line, ',').skip(1));
            }
            i = i + 1;
        }
        proof {
            assert(self@.continuations.subrange(0, self.continuations@.len() as int)
                =~= self@.continuations);
        }
        out
    }

    /// Whether any continuation records have been attached.
    pub fn has_continuations(&self) -> (r: bool)
        ensures
            r == (self@.continuations.len() > 0),
    {
        proof {
            lemma_views_of_nodes(self.continuations@);
        }
        !self.continuations.is_empty()
    }

    /// Appends a nested record.
    pub fn push_child(&mut self, node: Node)
        ensures
            final(self)@ == (NodeS { children: old(self)@.children.push(node@), ..old(self)@ }),
    {
        self.children.push(node);
        proof {
            let s = self.children@;
            assert(s.len() == old(self).children@.len() + 1);
            assert(s.subrange(0, s.len() - 1) =~= old(self).children@);
            assert(s[s.len() - 1] == node);
            assert(views_of_nodes(s) == views_of_nodes(s.subrange(0, s.len() - 1)).push(
                s[s.len() - 1].view_rec()));
            assert(views_of_nodes(s.subrange(0, s.len() - 1)) == views_of_nodes(
                old(self).children@));
            assert(self@.children == views_of_nodes(s));
            assert(old(self)@.children == views_of_nodes(old(self).children@));
            assert(self@.children =~= old(self)@.children.push(node@));
        }
    }

    /// Appends a continuation record.
    pub fn push_continuation(&mut self, node: Node)
        ensures
            final(self)@ == (NodeS {
                continuations: old(self)@.continuations.push(node@),
                ..old(self)@
            }),
    {
        self.continuations.push(node);
        proof {
            let s = self.continuations@;
            assert(s.len() == old(self).continuations@.len() + 1);
            assert(s.subrange(0, s.len() - 1) =~= old(self).continuations@);
            assert(s[s.len() - 1] == node);
            assert(views_of_nodes(s) == views_of_nodes(s.subrange(0, s.len() - 1)).push(
                s[s.len() - 1].view_rec()));
            assert(views_of_nodes(s.subrange(0, s.len() - 1)) == views_of_nodes(
                old(self).continuations@));
            assert(self@.continuations == views_of_nodes(s));
            assert(old(self)@.continuations == views_of_nodes(old(self).continuations@));
            assert(self@.continuations =~= old(self)@.continuations.push(node@));
        }
    }

    /// The merged field list of the paired trailer, or no fields when no
    /// trailer has been attached.
    pub fn sibling_fields(&self) -> (r: Vec<String>)
        ensures
            seq_views(r@) == self@.sibling_fields(),
    {
        match &*self.sibling {
            Some(sibling) => {
                let r = sibling.fields();
                proof {
                    assert(seq_views(r@) =~= self@.sibling_fields());
                }
                r
            },
            None => {
                let r = Vec::new();
                proof {
                    assert(seq_views(r@) =~= Seq::<Seq<char>>::empty());
                }
                r
            },
        }
    }
}

} // verus!
