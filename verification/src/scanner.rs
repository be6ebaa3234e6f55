//! The structural scanner: a single-pass, stack-based state machine that
//! classifies each physical line by its two-character record-type code,
//! enforces the legal nesting transitions, merges continuation lines into
//! their owning record, and builds the validated tree of nodes.
use crate::node::{lemma_views_of_nodes, views_of_nodes, Node, NodeS, NodeType};
use crate::util::{lines_spec, seq_views, split_lines};
use vstd::prelude::*;

verus! {

/// The record kind the first two characters of a line name, or nothing for
/// a line that is too short or carries an unrecognized code.
pub open spec fn classify_spec(l: Seq<char>) -> Option<NodeType> {
    if l.len() < 2 {
        None
    } else if l[0] == '0' && l[1] == '1' {
        Some(NodeType::FileHeader)
    } else if l[0] == '0' && l[1] == '2' {
        Some(NodeType::GroupHeader)
    } else if l[0] == '0' && l[1] == '3' {
        Some(NodeType::AccountIdentifier)
    } else if l[0] == '1' && l[1] == '6' {
        Some(NodeType::TransactionDetail)
    } else if l[0] == '4' && l[1] == '9' {
        Some(NodeType::AccountTrailer)
    } else if l[0] == '8' && l[1] == '8' {
        Some(NodeType::Continuation)
    } else if l[0] == '9' && l[1] == '8' {
        Some(NodeType::GroupTrailer)
    } else if l[0] == '9' && l[1] == '9' {
        Some(NodeType::FileTrailer)
    } else {
        None
    }
}

/// Reads the record-type code in the first two characters of a line.
pub fn classify(l: &str) -> (r: Option<NodeType>)
    ensures
        r == classify_spec(l@),
{
    let n = l.unicode_len();
    if n < 2 {
        return None;
    }
    let c0 = l.get_char(0);
    let c1 = l.get_char(1);
    if c0 == '0' && c1 == '1' {
        Some(NodeType::FileHeader)
    } else if c0 == '0' && c1 == '2' {
        Some(NodeType::GroupHeader)
    } else if c0 == '0' && c1 == '3' {
        Some(NodeType::AccountIdentifier)
    } else if c0 == '1' && c1 == '6' {
        Some(NodeType::TransactionDetail)
    } else if c0 == '4' && c1 == '9' {
        Some(NodeType::AccountTrailer)
    } else if c0 == '8' && c1 == '8' {
        Some(NodeType::Continuation)
    } else if c0 == '9' && c1 == '8' {
        Some(NodeType::GroupTrailer)
    } else if c0 == '9' && c1 == '9' {
        Some(NodeType::FileTrailer)
    } else {
        None
    }
}

/// The scanner's state between lines.
pub enum ScanState {
    /// No file header yet; blank lines are being skipped.
    Seeking,
    /// The stack of open records, bottom first; the bottom is the file
    /// header.
    Open(Seq<NodeS>),
    /// The file trailer has been attached to the file header; the structure
    /// is final and later lines cannot alter it.
    Finished(NodeS),
    /// The first structural violation, with its message.
    Failed(Seq<char>),
}

/// A node as the scanner creates it from one line: no children, no
/// continuations, no sibling yet.
pub open spec fn fresh_node_spec(kind: NodeType, l: Seq<char>) -> NodeS {
    NodeS {
        children: Seq::<NodeS>::empty(),
        continuations: Seq::<NodeS>::empty(),
        line: l,
        sibling: None,
        kind,
    }
}

/// The stack with its top record closed: the top is attached as the last
/// child of the record below it.
pub open spec fn pop_attach_spec(stack: Seq<NodeS>) -> Seq<NodeS>
    recommends
        stack.len() >= 2,
{
    let child = stack.last();
    let parent = stack[stack.len() - 2];
    stack.subrange(0, stack.len() - 2).push(
        NodeS { children: parent.children.push(child), ..parent },
    )
}

/// `n` with `sib` attached as its paired trailer.
pub open spec fn with_sibling_spec(n: NodeS, sib: NodeS) -> NodeS {
    NodeS { sibling: Some(Box::new(sib)), ..n }
}

/// `n` with one more continuation record appended.
pub open spec fn with_continuation_spec(n: NodeS, cont: NodeS) -> NodeS {
    NodeS { continuations: n.continuations.push(cont), ..n }
}

/// The shape every reachable open-record stack has: at most the four
/// nesting levels, in their fixed order.
pub open spec fn wf_stack(stack: Seq<NodeS>) -> bool {
    &&& 1 <= stack.len() <= 4
    &&& stack[0].kind == NodeType::FileHeader
    &&& (stack.len() >= 2 ==> stack[1].kind == NodeType::GroupHeader)
    &&& (stack.len() >= 3 ==> stack[2].kind == NodeType::AccountIdentifier)
    &&& (stack.len() >= 4 ==> stack[3].kind == NodeType::TransactionDetail)
}

/// One transition of the open-record stack on a classified line.
pub open spec fn scan_open_step(stack: Seq<NodeS>, l: Seq<char>) -> ScanState
    recommends
        stack.len() >= 1,
{
    let top = stack.last();
    match classify_spec(l) {
        None => ScanState::Open(stack),
        Some(kind) => match kind {
            // a second file header cannot open anything: the file is
            // already open
            NodeType::FileHeader => ScanState::Failed(
                "file header found inside an open file"@,
            ),
            NodeType::GroupHeader => {
                if top.kind == NodeType::FileHeader {
                    ScanState::Open(stack.push(fresh_node_spec(NodeType::GroupHeader, l)))
                } else {
                    ScanState::Failed("group header found without file header"@)
                }
            },
            NodeType::AccountIdentifier => {
                if top.kind == NodeType::GroupHeader {
                    ScanState::Open(stack.push(fresh_node_spec(NodeType::AccountIdentifier, l)))
                } else {
                    ScanState::Failed("account identifier found without group header"@)
                }
            },
            NodeType::TransactionDetail => {
                if top.kind == NodeType::AccountIdentifier {
                    ScanState::Open(stack.push(fresh_node_spec(NodeType::TransactionDetail, l)))
                } else if top.kind == NodeType::TransactionDetail && stack.len() >= 2 {
                    ScanState::Open(
                        pop_attach_spec(stack).push(
                            fresh_node_spec(NodeType::TransactionDetail, l),
                        ),
                    )
                } else {
                    ScanState::Failed("transaction detail found without account identifier"@)
                }
            },
            NodeType::AccountTrailer => {
                let s1 = if top.kind == NodeType::TransactionDetail && stack.len() >= 2 {
                    pop_attach_spec(stack)
                } else {
                    stack
                };
                if (top.kind == NodeType::TransactionDetail || top.kind
                    == NodeType::AccountIdentifier) && s1.last().kind
                    == NodeType::AccountIdentifier && s1.len() >= 2 {
                    ScanState::Open(
                        pop_attach_spec(
                            s1.update(
                                s1.len() - 1,
                                with_sibling_spec(
                                    s1.last(),
                                    fresh_node_spec(NodeType::AccountTrailer, l),
                                ),
                            ),
                        ),
                    )
                } else {
                    ScanState::Failed("account control found without account identifier"@)
                }
            },
            NodeType::Continuation => {
                ScanState::Open(
                    stack.update(
                        stack.len() - 1,
                        with_continuation_spec(top, fresh_node_spec(NodeType::Continuation, l)),
                    ),
                )
            },
            NodeType::GroupTrailer => {
                if top.kind == NodeType::GroupHeader && stack.len() >= 2 {
                    ScanState::Open(
                        pop_attach_spec(
                            stack.update(
                                stack.len() - 1,
                                with_sibling_spec(
                                    top,
                                    fresh_node_spec(NodeType::GroupTrailer, l),
                                ),
                            ),
                        ),
                    )
                } else {
                    ScanState::Failed("group trailer found without group header"@)
                }
            },
            NodeType::FileTrailer => {
                if top.kind == NodeType::FileHeader {
                    ScanState::Finished(
                        with_sibling_spec(top, fresh_node_spec(NodeType::FileTrailer, l)),
                    )
                } else {
                    ScanState::Failed("file trailer found without file header"@)
                }
            },
        },
    }
}

/// One transition of the scanner on a physical line.
pub open spec fn scan_step(st: ScanState, l: Seq<char>) -> ScanState {
    match st {
        ScanState::Seeking => {
            if l.len() < 2 {
                ScanState::Seeking
            } else if classify_spec(l) == Some(NodeType::FileHeader) {
                ScanState::Open(seq![fresh_node_spec(NodeType::FileHeader, l)])
            } else {
                ScanState::Failed("file header not found"@)
            }
        },
        ScanState::Open(stack) => scan_open_step(stack, l),
        ScanState::Finished(root) => ScanState::Finished(root),
        ScanState::Failed(m) => ScanState::Failed(m),
    }
}

/// The scanner's state after consuming `lines`, first line first.
pub open spec fn scan_run(st: ScanState, lines: Seq<Seq<char>>) -> ScanState
    decreases lines.len(),
{
    if lines.len() == 0 {
        st
    } else {
        scan_run(scan_step(st, lines[0]), lines.drop_first())
    }
}

/// The root of a stack whose levels are still open at end of input: each
/// open record is closed into the record below it, down to the bottom
/// file header.
pub open spec fn fold_stack_spec(stack: Seq<NodeS>) -> NodeS
    recommends
        stack.len() >= 1,
    decreases stack.len(),
{
    if stack.len() <= 1 {
        stack.last()
    } else {
        fold_stack_spec(pop_attach_spec(stack))
    }
}

/// What the scan of a whole line sequence yields: the single file-header
/// root carrying its subtree, or the first structural violation. Input
/// that ends with levels still open yields the root with those levels
/// closed into it.
pub open spec fn spec_scan(lines: Seq<Seq<char>>) -> Result<NodeS, Seq<char>> {
    match scan_run(ScanState::Seeking, lines) {
        ScanState::Seeking => Err("no lines found in file"@),
        ScanState::Open(stack) => Ok(fold_stack_spec(stack)),
        ScanState::Finished(root) => Ok(root),
        ScanState::Failed(m) => Err(m),
    }
}

pub proof fn lemma_scan_run_snoc(st: ScanState, lines: Seq<Seq<char>>, i: int)
    requires
        0 <= i < lines.len(),
    ensures
        scan_run(st, lines.subrange(0, i + 1)) == scan_step(
            scan_run(st, lines.subrange(0, i)),
            lines[i],
        ),
    decreases i,
{
    if i == 0 {
        assert(lines.subrange(0, 0) =~= Seq::<Seq<char>>::empty());
        assert(scan_run(st, lines.subrange(0, 0)) == st);
        let one = lines.subrange(0, 1);
        assert(one.len() == 1);
        assert(one[0] == lines[0]);
        assert(one.drop_first() =~= Seq::<Seq<char>>::empty());
        assert(scan_run(st, one) == scan_run(scan_step(st, one[0]), one.drop_first()));
        assert(scan_run(scan_step(st, one[0]), one.drop_first()) == scan_step(st, lines[0]));
    } else {
        let a = lines.subrange(0, i + 1);
        let b = lines.subrange(0, i);
        assert(a[0] == lines[0] && b[0] == lines[0]);
        lemma_scan_run_snoc(scan_step(st, lines[0]), lines.drop_first(), i - 1);
        assert(a.drop_first() =~= lines.drop_first().subrange(0, i));
        assert(b.drop_first() =~= lines.drop_first().subrange(0, i - 1));
        assert(lines.drop_first()[i - 1] == lines[i]);
    }
}

/// Once finished or failed, the scanner's state absorbs every further line.
pub proof fn lemma_scan_run_absorbs(st: ScanState, lines: Seq<Seq<char>>)
    requires
        st is Finished || st is Failed,
    ensures
        scan_run(st, lines) == st,
    decreases lines.len(),
{
    if lines.len() > 0 {
        lemma_scan_run_absorbs(st, lines.drop_first());
    }
}

/// The scanner: owns the physical lines and the stack of open records.
pub struct Scanner {
    lines: Vec<String>,
    stack: Vec<Node>,
}

impl Scanner {
    pub closed spec fn lines_view(self) -> Seq<Seq<char>> {
        seq_views(self.lines@)
    }

    pub closed spec fn stack_view(self) -> Seq<NodeS> {
        views_of_nodes(self.stack@)
    }

    pub fn new(content: &str) -> (r: Scanner)
        ensures
            r.lines_view() == lines_spec(content@),
            r.stack_view() == Seq::<NodeS>::empty(),
    {
        let lines = split_lines(content);
        let r = Scanner { lines, stack: Vec::new() };
        proof {
            assert(views_of_nodes(r.stack@) =~= Seq::<NodeS>::empty());
        }
        r
    }

    /// Runs the state machine over every line and returns the root node,
    /// or the first structural violation.
    pub fn scan(&mut self) -> (r: Result<Node, &'static str>)
        requires
            old(self).stack_view().len() == 0,
        ensures
            match r {
                Ok(node) => spec_scan(old(self).lines_view()) == Ok::<NodeS, Seq<char>>(node@),
                Err(m) => spec_scan(old(self).lines_view()) == Err::<NodeS, Seq<char>>(m@),
            },
    {
        let ghost lviews = seq_views(self.lines@);
        let n = self.lines.len();
        let mut i: usize = 0;
        let mut done = false;
        proof {
            assert(lviews.subrange(0, 0) =~= Seq::<Seq<char>>::empty());
            lemma_views_of_nodes(self.stack@);
        }
        while i < n && !done
            invariant
                0 <= i <= n == self.lines@.len(),
                seq_views(self.lines@) == lviews,
                old(self).lines_view() == lviews,
                !done && self.stack@.len() == 0 ==> scan_run(
                    ScanState::Seeking,
                    lviews.subrange(0, i as int),
                ) == ScanState::Seeking,
                !done && self.stack@.len() > 0 ==> scan_run(
                    ScanState::Seeking,
                    lviews.subrange(0, i as int),
                ) == ScanState::Open(views_of_nodes(self.stack@)) && wf_stack(
                    views_of_nodes(self.stack@),
                ),
                done ==> self.stack@.len() > 0 && scan_run(
                    ScanState::Seeking,
                    lviews.subrange(0, i as int),
                ) == ScanState::Finished(views_of_nodes(self.stack@).last()),
            decreases n - i,
        {
            let line = self.lines[i].clone();
            proof {
                lemma_scan_run_snoc(ScanState::Seeking, lviews, i as int);
                assert(lviews[i as int] == self.lines@[i as int]@);
                assert(line@ == lviews[i as int]);
            }
            if self.stack.is_empty() {
                // still seeking the file header: a line too short to
                // carry a record-type code is blank and is skipped; the
                // first non-blank line must be the file header
                if line.as_str().unicode_len() < 2 {
                    // skip
                } else {
                    match classify(line.as_str()) {
                        Some(NodeType::FileHeader) => {
                            self.push_node(NodeType::FileHeader, line);
                            proof {
                                lemma_views_of_nodes(self.stack@);
                                assert(views_of_nodes(self.stack@) =~= seq![
                                    fresh_node_spec(NodeType::FileHeader, lviews[i as int]),
                                ]);
                            }
                        },
                        _ => {
                            proof {
                                lemma_scan_run_absorbs(
                                    ScanState::Failed("file header not found"@),
                                    lviews.subrange(i + 1, lviews.len() as int),
                                );
                                lemma_scan_run_split(ScanState::Seeking, lviews, i + 1);
                                assert(scan_run(ScanState::Seeking, lviews.subrange(0, i + 1))
                                    == ScanState::Failed("file header not found"@));
                                assert(scan_run(ScanState::Seeking, lviews) == ScanState::Failed(
                                    "file header not found"@,
                                ));
                                assert(spec_scan(lviews) == Err::<NodeS, Seq<char>>(
                                    "file header not found"@,
                                ));
                                assert(old(self).lines_view() == lviews);
                            }
                            return Err("file header not found");
                        },
                    }
                }
            } else {
                match self.handle_line(&line) {
                    Ok(finished) => {
                        if finished {
                            done = true;
                        }
                    },
                    Err(message) => {
                        proof {
                            lemma_scan_run_absorbs(
                                ScanState::Failed(message@),
                                lviews.subrange(i + 1, lviews.len() as int),
                            );
                            lemma_scan_run_split(ScanState::Seeking, lviews, i + 1);
                            assert(scan_run(ScanState::Seeking, lviews.subrange(0, i + 1))
                                == ScanState::Failed(message@));
                            assert(scan_run(ScanState::Seeking, lviews) == ScanState::Failed(
                                message@,
                            ));
                            assert(spec_scan(lviews) == Err::<NodeS, Seq<char>>(message@));
                            assert(old(self).lines_view() == lviews);
                        }
                        return Err(message);
                    },
                }
            }
            i = i + 1;
        }
        proof {
            if i == n && !done {
                assert(lviews.subrange(0, n as int) =~= lviews);
            } else {
                lemma_scan_run_absorbs(
                    scan_run(ScanState::Seeking, lviews.subrange(0, i as int)),
                    lviews.subrange(i as int, lviews.len() as int),
                );
                lemma_scan_run_split(ScanState::Seeking, lviews, i as int);
            }
            lemma_views_of_nodes(self.stack@);
        }
        if self.stack.is_empty() {
            return Err("no lines found in file");
        }
        if !done {
            // end of input with levels still open: close each open
            // record into the one below it, down to the file-header root
            let ghost entry_views = views_of_nodes(self.stack@);
            proof {
                assert(scan_run(ScanState::Seeking, lviews) == ScanState::Open(entry_views));
                assert(spec_scan(lviews) == Ok::<NodeS, Seq<char>>(
                    fold_stack_spec(entry_views),
                ));
            }
            while self.stack.len() > 1
                invariant
                    self.stack@.len() >= 1,
                    fold_stack_spec(views_of_nodes(self.stack@)) == fold_stack_spec(entry_views),
                decreases self.stack@.len(),
            {
                proof {
                    lemma_views_of_nodes(self.stack@);
                }
                self.pop_node();
                proof {
                    lemma_views_of_nodes(self.stack@);
                }
            }
            proof {
                lemma_views_of_nodes(self.stack@);
                assert(views_of_nodes(self.stack@).last() == fold_stack_spec(entry_views));
            }
        }
        let root = self.stack.pop().unwrap();
        Ok(root)
    }

    // Private

    fn assert_current_type(&self, node_type: NodeType) -> (r: Result<(), &'static str>)
        ensures
            r is Ok <==> (self.stack@.len() > 0 && self.stack@.last()@.kind == node_type),
    {
        match self.current_type() {
            Some(current_type) => {
                if current_type != node_type {
                    return Err("unexpected node type");
                }
            },
            None => {
                return Err("no current node");
            },
        }
        Ok(())
    }

    fn current_type(&self) -> (r: Option<NodeType>)
        ensures
            r == (if self.stack@.len() == 0 {
                Option::<NodeType>::None
            } else {
                Some(self.stack@.last()@.kind)
            }),
    {
        match self.stack.last() {
            None => None,
            Some(node) => Some(node.kind),
        }
    }

    /// Applies one non-blank, already-opened-file line to the stack.
    /// `Ok(true)` means the file trailer was attached and the structure is
    /// final.
    fn handle_line(&mut self, line: &String) -> (r: Result<bool, &'static str>)
        requires
            wf_stack(old(self).stack_view()),
        ensures
            final(self).lines == old(self).lines,
            match r {
                Ok(finished) => {
                    if finished {
                        final(self).stack@.len() > 0 && scan_open_step(
                            old(self).stack_view(),
                            line@,
                        ) == ScanState::Finished(final(self).stack_view().last())
                    } else {
                        scan_open_step(old(self).stack_view(), line@) == ScanState::Open(
                            final(self).stack_view(),
                        ) && wf_stack(final(self).stack_view())
                    }
                },
                Err(m) => scan_open_step(old(self).stack_view(), line@) == ScanState::Failed(m@),
            },
    {
        proof {
            lemma_views_of_nodes(self.stack@);
        }
        let ghost stack0 = self.stack_view();
        match classify(line.as_str()) {
            Some(NodeType::GroupHeader) => {
                if let Err(_) = self.assert_current_type(NodeType::FileHeader) {
                    return Err("group header found without file header");
                }
                self.push_node(NodeType::GroupHeader, line.clone());
                Ok(false)
            },
            Some(NodeType::AccountIdentifier) => {
                if let Err(_) = self.assert_current_type(NodeType::GroupHeader) {
                    return Err("account identifier found without group header");
                }
                self.push_node(NodeType::AccountIdentifier, line.clone());
                Ok(false)
            },
            Some(NodeType::TransactionDetail) => {
                match self.current_type() {
                    Some(NodeType::AccountIdentifier) => (),
                    Some(NodeType::TransactionDetail) => self.pop_node(),
                    _ => {
                        return Err("transaction detail found without account identifier");
                    },
                }
                self.push_node(NodeType::TransactionDetail, line.clone());
                Ok(false)
            },
            Some(NodeType::AccountTrailer) => {
                match self.current_type() {
                    Some(NodeType::AccountIdentifier) => (),
                    Some(NodeType::TransactionDetail) => self.pop_node(),
                    _ => {
                        return Err("account control found without account identifier");
                    },
                }
                self.put_sibling(NodeType::AccountTrailer, line.clone());
                self.pop_node();
                Ok(false)
            },
            Some(NodeType::Continuation) => {
                self.push_continuation(line.clone());
                Ok(false)
            },
            Some(NodeType::GroupTrailer) => {
                if let Err(_) = self.assert_current_type(NodeType::GroupHeader) {
                    return Err("group trailer found without group header");
                }
                self.put_sibling(NodeType::GroupTrailer, line.clone());
                self.pop_node();
                Ok(false)
            },
            Some(NodeType::FileTrailer) => {
                if let Err(_) = self.assert_current_type(NodeType::FileHeader) {
                    return Err("file trailer found without file header");
                }
                self.put_sibling(NodeType::FileTrailer, line.clone());
                proof {
                    lemma_views_of_nodes(self.stack@);
                }
                Ok(true)
            },
            Some(NodeType::FileHeader) => Err("file header found inside an open file"),
            None => {
                // blank or unrecognized; skipped
                Ok(false)
            },
        }
    }

    fn pop_node(&mut self)
        requires
            old(self).stack_view().len() >= 2,
        ensures
            final(self).lines == old(self).lines,
            final(self).stack_view() == pop_attach_spec(old(self).stack_view()),
    {
        proof {
            lemma_views_of_nodes(self.stack@);
        }
        let child = self.stack.pop().unwrap();
        let mut parent = self.stack.pop().unwrap();
        parent.push_child(child);
        self.stack.push(parent);
        proof {
            lemma_views_of_nodes(self.stack@);
            lemma_views_of_nodes(old(self).stack@);
            assert(self.stack_view() =~= pop_attach_spec(old(self).stack_view()));
        }
    }

    fn push_continuation(&mut self, line: String)
        requires
            old(self).stack_view().len() >= 1,
        ensures
            final(self).lines == old(self).lines,
            final(self).stack_view() == old(self).stack_view().update(
                old(self).stack_view().len() - 1,
                with_continuation_spec(
                    old(self).stack_view().last(),
                    fresh_node_spec(NodeType::Continuation, line@),
                ),
            ),
    {
        proof {
            lemma_views_of_nodes(self.stack@);
        }
        let continuation = Node {
            children: Vec::new(),
            continuations: Vec::new(),
            line,
            sibling: Box::new(None),
            kind: NodeType::Continuation,
        };
        proof {
            lemma_views_of_nodes(continuation.children@);
            lemma_views_of_nodes(continuation.continuations@);
            assert(continuation@.children =~= Seq::<NodeS>::empty());
            assert(continuation@.continuations =~= Seq::<NodeS>::empty());
            assert(continuation@ == fresh_node_spec(NodeType::Continuation, line@));
        }
        let mut current_node = self.stack.pop().unwrap();
        current_node.push_continuation(continuation);
        self.stack.push(current_node);
        proof {
            lemma_views_of_nodes(self.stack@);
            lemma_views_of_nodes(old(self).stack@);
            assert(self.stack_view() =~= old(self).stack_view().update(
                old(self).stack_view().len() - 1,
                with_continuation_spec(
                    old(self).stack_view().last(),
                    fresh_node_spec(NodeType::Continuation, line@),
                ),
            ));
        }
    }

    fn push_node(&mut self, node_type: NodeType, line: String)
        ensures
            final(self).lines == old(self).lines,
            final(self).stack_view() == old(self).stack_view().push(fresh_node_spec(node_type, line@)),
    {
        let node = Node {
            children: Vec::new(),
            continuations: Vec::new(),
            line,
            sibling: Box::new(None),
            kind: node_type,
        };
        proof {
            lemma_views_of_nodes(node.children@);
            lemma_views_of_nodes(node.continuations@);
            assert(node@.children =~= Seq::<NodeS>::empty());
            assert(node@.continuations =~= Seq::<NodeS>::empty());
            assert(node@ == fresh_node_spec(node_type, line@));
        }
        self.stack.push(node);
        proof {
            lemma_views_of_nodes(self.stack@);
            lemma_views_of_nodes(old(self).stack@);
            assert(self.stack_view() =~= old(self).stack_view().push(
                fresh_node_spec(node_type, line@),
            ));
        }
    }

    fn put_sibling(&mut self, node_type: NodeType, line: String)
        requires
            old(self).stack_view().len() >= 1,
        ensures
            final(self).lines == old(self).lines,
            final(self).stack_view() == old(self).stack_view().update(
                old(self).stack_view().len() - 1,
                with_sibling_spec(
                    old(self).stack_view().last(),
                    fresh_node_spec(node_type, line@),
                ),
            ),
    {
        proof {
            lemma_views_of_nodes(self.stack@);
        }
        let sibling = Node {
            children: Vec::new(),
            continuations: Vec::new(),
            line,
            sibling: Box::new(None),
            kind: node_type,
        };
        proof {
            lemma_views_of_nodes(sibling.children@);
            lemma_views_of_nodes(sibling.continuations@);
            assert(sibling@.children =~= Seq::<NodeS>::empty());
            assert(sibling@.continuations =~= Seq::<NodeS>::empty());
            assert(sibling@ == fresh_node_spec(node_type, line@));
        }
        let mut current_node = self.stack.pop().unwrap();
        current_node.sibling = Box::new(Some(sibling));
        self.stack.push(current_node);
        proof {
            lemma_views_of_nodes(self.stack@);
            lemma_views_of_nodes(old(self).stack@);
            assert(self.stack_view() =~= old(self).stack_view().update(
                old(self).stack_view().len() - 1,
                with_sibling_spec(
                    old(self).stack_view().last(),
                    fresh_node_spec(node_type, line@),
                ),
            ));
        }
    }
}

/// Running the scanner over a concatenation runs it over each part in
/// turn.
pub proof fn lemma_scan_run_concat(st: ScanState, a: Seq<Seq<char>>, b: Seq<Seq<char>>)
    ensures
        scan_run(st, a + b) == scan_run(scan_run(st, a), b),
    decreases a.len(),
{
    if a.len() == 0 {
        assert(a + b =~= b);
    } else {
        assert((a + b)[0] == a[0]);
        assert((a + b).drop_first() =~= a.drop_first() + b);
        lemma_scan_run_concat(scan_step(st, a[0]), a.drop_first(), b);
    }
}

/// Splitting a run of the scanner at any point.
pub proof fn lemma_scan_run_split(st: ScanState, lines: Seq<Seq<char>>, i: int)
    requires
        0 <= i <= lines.len(),
    ensures
        scan_run(st, lines) == scan_run(
            scan_run(st, lines.subrange(0, i)),
            lines.subrange(i, lines.len() as int),
        ),
    decreases i,
{
    if i == 0 {
        assert(lines.subrange(0, 0) =~= Seq::<Seq<char>>::empty());
        assert(lines.subrange(0, lines.len() as int) =~= lines);
    } else {
        lemma_scan_run_snoc(st, lines, i - 1);
        lemma_scan_run_split(st, lines, i - 1);
        assert(lines.subrange(i - 1, lines.len() as int)[0] == lines[i - 1]);
        assert(lines.subrange(i - 1, lines.len() as int).drop_first() =~= lines.subrange(
            i,
            lines.len() as int,
        ));
    }
}

} // verus!

verus! {

/// The physical lines of one well-formed account: its identifier record,
/// its transaction-detail records, and its trailer.
pub struct AccountLines {
    pub header: Seq<char>,
    pub txns: Seq<Seq<char>>,
    pub trailer: Seq<char>,
}

/// The physical lines of one well-formed group: its header, its
/// accounts, and its trailer.
pub struct GroupLines {
    pub header: Seq<char>,
    pub accounts: Seq<AccountLines>,
    pub trailer: Seq<char>,
}

/// The physical lines of one well-formed file: its header, its groups,
/// and its trailer.
pub struct FileLines {
    pub header: Seq<char>,
    pub groups: Seq<GroupLines>,
    pub trailer: Seq<char>,
}

pub open spec fn wf_account_lines(a: AccountLines) -> bool {
    &&& classify_spec(a.header) == Some(NodeType::AccountIdentifier)
    &&& classify_spec(a.trailer) == Some(NodeType::AccountTrailer)
    &&& forall|i: int|
        0 <= i < a.txns.len() ==> classify_spec(#[trigger] a.txns[i]) == Some(
            NodeType::TransactionDetail,
        )
}

pub open spec fn wf_group_lines(g: GroupLines) -> bool {
    &&& classify_spec(g.header) == Some(NodeType::GroupHeader)
    &&& classify_spec(g.trailer) == Some(NodeType::GroupTrailer)
    &&& forall|i: int| 0 <= i < g.accounts.len() ==> wf_account_lines(#[trigger] g.accounts[i])
}

pub open spec fn wf_file_lines(f: FileLines) -> bool {
    &&& classify_spec(f.header) == Some(NodeType::FileHeader)
    &&& classify_spec(f.trailer) == Some(NodeType::FileTrailer)
    &&& forall|i: int| 0 <= i < f.groups.len() ==> wf_group_lines(#[trigger] f.groups[i])
}

pub open spec fn account_lines_flat(a: AccountLines) -> Seq<Seq<char>> {
    seq![a.header] + a.txns + seq![a.trailer]
}

pub open spec fn flat_accounts(s: Seq<AccountLines>) -> Seq<Seq<char>>
    decreases s.len(),
{
    if s.len() == 0 {
        Seq::<Seq<char>>::empty()
    } else {
        flat_accounts(s.drop_last()) + account_lines_flat(s.last())
    }
}

pub open spec fn group_lines_flat(g: GroupLines) -> Seq<Seq<char>> {
    seq![g.header] + flat_accounts(g.accounts) + seq![g.trailer]
}

pub open spec fn flat_groups(s: Seq<GroupLines>) -> Seq<Seq<char>>
    decreases s.len(),
{
    if s.len() == 0 {
        Seq::<Seq<char>>::empty()
    } else {
        flat_groups(s.drop_last()) + group_lines_flat(s.last())
    }
}

pub open spec fn file_lines_flat(f: FileLines) -> Seq<Seq<char>> {
    seq![f.header] + flat_groups(f.groups) + seq![f.trailer]
}

/// The nodes the scanner is expected to build from well-formed lines.
pub open spec fn txn_nodes(ts: Seq<Seq<char>>) -> Seq<NodeS> {
    Seq::new(ts.len(), |i: int| fresh_node_spec(NodeType::TransactionDetail, ts[i]))
}

pub open spec fn account_node_spec(a: AccountLines) -> NodeS {
    NodeS {
        children: txn_nodes(a.txns),
        continuations: Seq::<NodeS>::empty(),
        line: a.header,
        sibling: Some(Box::new(fresh_node_spec(NodeType::AccountTrailer, a.trailer))),
        kind: NodeType::AccountIdentifier,
    }
}

pub open spec fn account_nodes(s: Seq<AccountLines>) -> Seq<NodeS> {
    Seq::new(s.len(), |i: int| account_node_spec(s[i]))
}

pub open spec fn group_node_spec(g: GroupLines) -> NodeS {
    NodeS {
        children: account_nodes(g.accounts),
        continuations: Seq::<NodeS>::empty(),
        line: g.header,
        sibling: Some(Box::new(fresh_node_spec(NodeType::GroupTrailer, g.trailer))),
        kind: NodeType::GroupHeader,
    }
}

pub open spec fn group_nodes(s: Seq<GroupLines>) -> Seq<NodeS> {
    Seq::new(s.len(), |i: int| group_node_spec(s[i]))
}

pub open spec fn file_node_spec(f: FileLines) -> NodeS {
    NodeS {
        children: group_nodes(f.groups),
        continuations: Seq::<NodeS>::empty(),
        line: f.header,
        sibling: Some(Box::new(fresh_node_spec(NodeType::FileTrailer, f.trailer))),
        kind: NodeType::FileHeader,
    }
}

/// Repeated transaction-detail lines close the previous transaction into
/// the account and leave the newest one open on the stack.
proof fn lemma_run_txns(base: Seq<NodeS>, acc: NodeS, cur: NodeS, txns: Seq<Seq<char>>)
    requires
        acc.kind == NodeType::AccountIdentifier,
        cur.kind == NodeType::TransactionDetail,
        forall|i: int|
            0 <= i < txns.len() ==> classify_spec(#[trigger] txns[i]) == Some(
                NodeType::TransactionDetail,
            ),
    ensures
        scan_run(ScanState::Open(base.push(acc).push(cur)), txns) == ScanState::Open(
            if txns.len() == 0 {
                base.push(acc).push(cur)
            } else {
                base.push(
                    NodeS { children: acc.children + seq![cur] + txn_nodes(txns.drop_last()), ..acc },
                ).push(fresh_node_spec(NodeType::TransactionDetail, txns.last()))
            },
        ),
    decreases txns.len(),
{
    if txns.len() > 0 {
        let stack = base.push(acc).push(cur);
        let l = txns[0];
        assert(stack.last() == cur);
        assert(stack.len() >= 2);
        assert(stack.subrange(0, stack.len() - 2) =~= base);
        let acc1 = NodeS { children: acc.children.push(cur), ..acc };
        let cur1 = fresh_node_spec(NodeType::TransactionDetail, l);
        assert(pop_attach_spec(stack) =~= base.push(acc1));
        assert(pop_attach_spec(stack).push(cur1) =~= base.push(acc1).push(cur1));
        assert(scan_step(ScanState::Open(stack), l) == ScanState::Open(
            base.push(acc1).push(cur1),
        ));
        lemma_run_txns(base, acc1, cur1, txns.drop_first());
        if txns.len() == 1 {
            assert(txns.drop_first().len() == 0);
            assert(acc.children + seq![cur] + txn_nodes(txns.drop_last()) =~= acc1.children);
            assert(fresh_node_spec(NodeType::TransactionDetail, txns.last()) == cur1);
            assert(NodeS {
                children: acc.children + seq![cur] + txn_nodes(txns.drop_last()),
                ..acc
            } =~= acc1);
        } else {
            let rest = txns.drop_first();
            assert(rest.last() == txns.last());
            assert(acc1.children + seq![cur1] + txn_nodes(rest.drop_last()) =~= acc.children
                + seq![cur] + txn_nodes(txns.drop_last())) by {
                assert(forall|j: int|
                    0 <= j < rest.drop_last().len() ==> rest.drop_last()[j] == txns[j + 1]);
                assert(forall|j: int|
                    0 <= j < txns.drop_last().len() ==> txns.drop_last()[j] == txns[j]);
            }
            assert(NodeS {
                children: acc1.children + seq![cur1] + txn_nodes(rest.drop_last()),
                ..acc1
            } =~= NodeS {
                children: acc.children + seq![cur] + txn_nodes(txns.drop_last()),
                ..acc
            });
        }
    }
}

/// Running the scanner over a single line is one step.
proof fn lemma_scan_run_one(st: ScanState, l: Seq<char>)
    ensures
        scan_run(st, seq![l]) == scan_step(st, l),
{
    assert(seq![l][0] == l);
    assert(seq![l].drop_first() =~= Seq::<Seq<char>>::empty());
    assert(scan_run(scan_step(st, l), seq![l].drop_first()) == scan_step(st, l));
}

/// One well-formed account block, fed to a stack whose top is the open
/// group, closes into exactly one new account child of that group.
proof fn lemma_run_account(base: Seq<NodeS>, top: NodeS, a: AccountLines)
    requires
        top.kind == NodeType::GroupHeader,
        wf_account_lines(a),
    ensures
        scan_run(ScanState::Open(base.push(top)), account_lines_flat(a)) == ScanState::Open(
            base.push(NodeS { children: top.children.push(account_node_spec(a)), ..top }),
        ),
{
    let stack = base.push(top);
    let lines = account_lines_flat(a);
    let acc0 = fresh_node_spec(NodeType::AccountIdentifier, a.header);
    assert(lines[0] == a.header);
    assert(lines.drop_first() =~= a.txns + seq![a.trailer]);
    assert(stack.last() == top);
    assert(scan_step(ScanState::Open(stack), a.header) == ScanState::Open(stack.push(acc0)));
    lemma_scan_run_concat(ScanState::Open(stack.push(acc0)), a.txns, seq![a.trailer]);
    // the state after all the transaction lines
    let mid = if a.txns.len() == 0 {
        stack.push(acc0)
    } else {
        stack.push(NodeS { children: txn_nodes(a.txns.drop_last()), ..acc0 }).push(
            fresh_node_spec(NodeType::TransactionDetail, a.txns.last()),
        )
    };
    if a.txns.len() == 0 {
        assert(scan_run(ScanState::Open(stack.push(acc0)), a.txns) == ScanState::Open(mid));
    } else {
        let t0 = fresh_node_spec(NodeType::TransactionDetail, a.txns[0]);
        assert(stack.push(acc0).last() == acc0);
        assert(scan_step(ScanState::Open(stack.push(acc0)), a.txns[0]) == ScanState::Open(
            stack.push(acc0).push(t0),
        ));
        lemma_run_txns(stack, acc0, t0, a.txns.drop_first());
        assert(scan_run(ScanState::Open(stack.push(acc0)), a.txns) == scan_run(
            ScanState::Open(stack.push(acc0).push(t0)),
            a.txns.drop_first(),
        ));
        if a.txns.len() == 1 {
            assert(txn_nodes(a.txns.drop_last()) =~= Seq::<NodeS>::empty());
            assert(NodeS { children: acc0.children, ..acc0 } =~= acc0);
            assert(a.txns.drop_first().len() == 0);
            assert(NodeS { children: txn_nodes(a.txns.drop_last()), ..acc0 } =~= acc0);
            assert(fresh_node_spec(NodeType::TransactionDetail, a.txns.last()) == t0);
            assert(mid =~= stack.push(acc0).push(t0));
        } else {
            let rest = a.txns.drop_first();
            assert(rest.last() == a.txns.last());
            assert(acc0.children + seq![t0] + txn_nodes(rest.drop_last()) =~= txn_nodes(
                a.txns.drop_last(),
            )) by {
                assert(forall|j: int|
                    0 <= j < rest.drop_last().len() ==> rest.drop_last()[j] == a.txns[j + 1]);
                assert(forall|j: int|
                    0 <= j < a.txns.drop_last().len() ==> a.txns.drop_last()[j] == a.txns[j]);
            }
            assert(NodeS { children: acc0.children + seq![t0] + txn_nodes(rest.drop_last()), ..acc0 }
                =~= NodeS { children: txn_nodes(a.txns.drop_last()), ..acc0 });
            assert(mid =~= stack.push(
                NodeS { children: acc0.children + seq![t0] + txn_nodes(rest.drop_last()), ..acc0 },
            ).push(fresh_node_spec(NodeType::TransactionDetail, rest.last())));
        }
    }
    // the trailer closes the account into the group
    let target = NodeS { children: top.children.push(account_node_spec(a)), ..top };
    assert(scan_step(ScanState::Open(mid), a.trailer) == ScanState::Open(base.push(target))) by {
        if a.txns.len() == 0 {
            assert(mid.last() == acc0);
            assert(mid.len() == base.len() + 2);
            let s2 = mid.update(mid.len() - 1, with_sibling_spec(acc0, fresh_node_spec(NodeType::AccountTrailer, a.trailer)));
            assert(txn_nodes(a.txns) =~= Seq::<NodeS>::empty());
            assert(with_sibling_spec(acc0, fresh_node_spec(NodeType::AccountTrailer, a.trailer))
                =~= account_node_spec(a));
            assert(s2.subrange(0, s2.len() - 2) =~= base);
            assert(s2[s2.len() - 2] == top);
            assert(pop_attach_spec(s2) =~= base.push(target));
        } else {
            let accn = NodeS { children: txn_nodes(a.txns.drop_last()), ..acc0 };
            let lastt = fresh_node_spec(NodeType::TransactionDetail, a.txns.last());
            assert(mid.last() == lastt);
            assert(mid.len() == base.len() + 3);
            assert(mid[mid.len() - 2] == accn);
            assert(mid.subrange(0, mid.len() - 2) =~= stack);
            let s1 = pop_attach_spec(mid);
            let closed = NodeS { children: accn.children.push(lastt), ..accn };
            assert(s1 =~= stack.push(closed));
            assert(closed.children =~= txn_nodes(a.txns)) by {
                assert(forall|j: int|
                    0 <= j < a.txns.drop_last().len() ==> a.txns.drop_last()[j] == a.txns[j]);
            }
            assert(s1.last() == closed);
            assert(s1.len() >= 2);
            let s2 = s1.update(s1.len() - 1, with_sibling_spec(closed, fresh_node_spec(NodeType::AccountTrailer, a.trailer)));
            assert(with_sibling_spec(closed, fresh_node_spec(NodeType::AccountTrailer, a.trailer))
                =~= account_node_spec(a));
            assert(s2.subrange(0, s2.len() - 2) =~= base);
            assert(s2[s2.len() - 2] == top);
            assert(pop_attach_spec(s2) =~= base.push(target));
        }
    }
    assert(lines =~= seq![a.header] + (a.txns + seq![a.trailer]));
    assert(scan_run(ScanState::Open(stack), lines) == scan_run(
        ScanState::Open(stack.push(acc0)),
        a.txns + seq![a.trailer],
    )) by {
        assert(lines.drop_first() =~= a.txns + seq![a.trailer]);
    }
    lemma_scan_run_one(ScanState::Open(mid), a.trailer);
}

/// A run of well-formed account blocks adds exactly their account nodes,
/// in order, to the open group.
proof fn lemma_run_accounts(base: Seq<NodeS>, top: NodeS, accs: Seq<AccountLines>)
    requires
        top.kind == NodeType::GroupHeader,
        forall|i: int| 0 <= i < accs.len() ==> wf_account_lines(#[trigger] accs[i]),
    ensures
        scan_run(ScanState::Open(base.push(top)), flat_accounts(accs)) == ScanState::Open(
            base.push(NodeS { children: top.children + account_nodes(accs), ..top }),
        ),
    decreases accs.len(),
{
    if accs.len() == 0 {
        assert(NodeS { children: top.children + account_nodes(accs), ..top } =~= top);
    } else {
        lemma_run_accounts(base, top, accs.drop_last());
        let top1 = NodeS { children: top.children + account_nodes(accs.drop_last()), ..top };
        lemma_scan_run_concat(
            ScanState::Open(base.push(top)),
            flat_accounts(accs.drop_last()),
            account_lines_flat(accs.last()),
        );
        lemma_run_account(base, top1, accs.last());
        assert(top1.children.push(account_node_spec(accs.last())) =~= top.children
            + account_nodes(accs)) by {
            assert(forall|j: int|
                0 <= j < accs.drop_last().len() ==> accs.drop_last()[j] == accs[j]);
        }
        assert(NodeS { children: top1.children.push(account_node_spec(accs.last())), ..top1 }
            =~= NodeS { children: top.children + account_nodes(accs), ..top });
    }
}

/// One well-formed group block, fed to a stack whose top is the open
/// file header, closes into exactly one new group child of the file.
proof fn lemma_run_group(base: Seq<NodeS>, top: NodeS, g: GroupLines)
    requires
        top.kind == NodeType::FileHeader,
        wf_group_lines(g),
    ensures
        scan_run(ScanState::Open(base.push(top)), group_lines_flat(g)) == ScanState::Open(
            base.push(NodeS { children: top.children.push(group_node_spec(g)), ..top }),
        ),
{
    let stack = base.push(top);
    let lines = group_lines_flat(g);
    let g0 = fresh_node_spec(NodeType::GroupHeader, g.header);
    assert(lines[0] == g.header);
    assert(stack.last() == top);
    assert(scan_step(ScanState::Open(stack), g.header) == ScanState::Open(stack.push(g0)));
    lemma_scan_run_concat(ScanState::Open(stack.push(g0)), flat_accounts(g.accounts), seq![g.trailer]);
    lemma_run_accounts(stack, g0, g.accounts);
    let g1 = NodeS { children: g0.children + account_nodes(g.accounts), ..g0 };
    // the trailer closes the group into the file
    let target = NodeS { children: top.children.push(group_node_spec(g)), ..top };
    assert(scan_step(ScanState::Open(stack.push(g1)), g.trailer) == ScanState::Open(
        base.push(target),
    )) by {
        let mid = stack.push(g1);
        assert(mid.last() == g1);
        assert(mid.len() == base.len() + 2);
        let s2 = mid.update(mid.len() - 1, with_sibling_spec(g1, fresh_node_spec(NodeType::GroupTrailer, g.trailer)));
        assert(g1.children =~= account_nodes(g.accounts));
        assert(with_sibling_spec(g1, fresh_node_spec(NodeType::GroupTrailer, g.trailer))
            =~= group_node_spec(g));
        assert(s2.subrange(0, s2.len() - 2) =~= base);
        assert(s2[s2.len() - 2] == top);
        assert(pop_attach_spec(s2) =~= base.push(target));
    }
    assert(lines.drop_first() =~= flat_accounts(g.accounts) + seq![g.trailer]);
    lemma_scan_run_one(ScanState::Open(stack.push(g1)), g.trailer);
}

/// A run of well-formed group blocks adds exactly their group nodes, in
/// order, to the open file header.
proof fn lemma_run_groups(base: Seq<NodeS>, top: NodeS, gs: Seq<GroupLines>)
    requires
        top.kind == NodeType::FileHeader,
        forall|i: int| 0 <= i < gs.len() ==> wf_group_lines(#[trigger] gs[i]),
    ensures
        scan_run(ScanState::Open(base.push(top)), flat_groups(gs)) == ScanState::Open(
            base.push(NodeS { children: top.children + group_nodes(gs), ..top }),
        ),
    decreases gs.len(),
{
    if gs.len() == 0 {
        assert(NodeS { children: top.children + group_nodes(gs), ..top } =~= top);
    } else {
        lemma_run_groups(base, top, gs.drop_last());
        let top1 = NodeS { children: top.children + group_nodes(gs.drop_last()), ..top };
        lemma_scan_run_concat(
            ScanState::Open(base.push(top)),
            flat_groups(gs.drop_last()),
            group_lines_flat(gs.last()),
        );
        lemma_run_group(base, top1, gs.last());
        assert(top1.children.push(group_node_spec(gs.last())) =~= top.children + group_nodes(gs))
            by {
            assert(forall|j: int| 0 <= j < gs.drop_last().len() ==> gs.drop_last()[j] == gs[j]);
        }
        assert(NodeS { children: top1.children.push(group_node_spec(gs.last())), ..top1 }
            =~= NodeS { children: top.children + group_nodes(gs), ..top });
    }
}

/// Round-trip nesting: scanning the physical lines of a well-formed file
/// with G groups, each with its accounts and their transactions, yields
/// exactly the expected tree, with exactly G group children under the
/// file node, each group's accounts under it, and each account's
/// transactions under it, and the paired trailer attached at each level.
pub proof fn lemma_round_trip_nesting(f: FileLines)
    requires
        wf_file_lines(f),
    ensures
        spec_scan(file_lines_flat(f)) == Ok::<NodeS, Seq<char>>(file_node_spec(f)),
        file_node_spec(f).children.len() == f.groups.len(),
        forall|i: int|
            0 <= i < f.groups.len() ==> (#[trigger] file_node_spec(f).children[i]).children.len()
                == f.groups[i].accounts.len(),
        forall|i: int, j: int|
            0 <= i < f.groups.len() && 0 <= j < f.groups[i].accounts.len() ==> (
            #[trigger] file_node_spec(f).children[i].children[j]).children.len()
                == f.groups[i].accounts[j].txns.len(),
{
    let lines = file_lines_flat(f);
    let f0 = fresh_node_spec(NodeType::FileHeader, f.header);
    assert(lines[0] == f.header);
    assert(f.header.len() >= 2);
    assert(scan_step(ScanState::Seeking, f.header) == ScanState::Open(seq![f0]));
    assert(seq![f0] =~= Seq::<NodeS>::empty().push(f0));
    lemma_scan_run_concat(ScanState::Open(seq![f0]), flat_groups(f.groups), seq![f.trailer]);
    lemma_run_groups(Seq::<NodeS>::empty(), f0, f.groups);
    let f1 = NodeS { children: f0.children + group_nodes(f.groups), ..f0 };
    assert(scan_step(ScanState::Open(Seq::<NodeS>::empty().push(f1)), f.trailer)
        == ScanState::Finished(with_sibling_spec(f1, fresh_node_spec(NodeType::FileTrailer, f.trailer)))) by {
        assert(Seq::<NodeS>::empty().push(f1).last() == f1);
    }
    assert(with_sibling_spec(f1, fresh_node_spec(NodeType::FileTrailer, f.trailer))
        =~= file_node_spec(f)) by {
        assert(f1.children =~= group_nodes(f.groups));
    }
    assert(lines.drop_first() =~= flat_groups(f.groups) + seq![f.trailer]);
    lemma_scan_run_one(ScanState::Open(Seq::<NodeS>::empty().push(f1)), f.trailer);
    lemma_scan_run_absorbs(
        ScanState::Finished(file_node_spec(f)),
        Seq::<Seq<char>>::empty(),
    );
}


/// A stack that no account-identifier line has contributed to: no open
/// account and no open transaction anywhere on it.
pub open spec fn no_account_open_stack(stack: Seq<NodeS>) -> bool {
    forall|t: int|
        0 <= t < stack.len() ==> (#[trigger] stack[t]).kind != NodeType::AccountIdentifier && stack[
            t
        ].kind != NodeType::TransactionDetail
}

/// While no account-identifier line has been read, the open stack never
/// holds an account or a transaction.
proof fn lemma_no_account_stack(lines: Seq<Seq<char>>, k: int)
    requires
        0 <= k <= lines.len(),
        forall|j: int|
            0 <= j < k ==> classify_spec(#[trigger] lines[j]) != Some(
                NodeType::AccountIdentifier,
            ),
    ensures
        scan_run(ScanState::Seeking, lines.subrange(0, k)) matches ScanState::Open(stack)
            ==> stack.len() >= 1 && no_account_open_stack(stack),
    decreases k,
{
    if k > 0 {
        lemma_no_account_stack(lines, k - 1);
        lemma_scan_run_snoc(ScanState::Seeking, lines, k - 1);
        let prev = scan_run(ScanState::Seeking, lines.subrange(0, k - 1));
        let l = lines[k - 1];
        match prev {
            ScanState::Open(stack) => {
                let top = stack.last();
                match classify_spec(l) {
                    Some(NodeType::GroupHeader) => {
                        if top.kind == NodeType::FileHeader {
                            let stack2 = stack.push(fresh_node_spec(NodeType::GroupHeader, l));
                            assert forall|t: int| 0 <= t < stack2.len() implies (
                            #[trigger] stack2[t]).kind != NodeType::AccountIdentifier && stack2[
                            t].kind != NodeType::TransactionDetail by {
                                if t < stack.len() {
                                    assert(stack2[t] == stack[t]);
                                }
                            }
                        }
                    },
                    Some(NodeType::Continuation) => {
                        let stack2 = stack.update(
                            stack.len() - 1,
                            with_continuation_spec(
                                top,
                                fresh_node_spec(NodeType::Continuation, l),
                            ),
                        );
                        assert forall|t: int| 0 <= t < stack2.len() implies (
                        #[trigger] stack2[t]).kind != NodeType::AccountIdentifier && stack2[
                        t].kind != NodeType::TransactionDetail by {
                            if t < stack.len() - 1 {
                                assert(stack2[t] == stack[t]);
                            } else {
                                assert(stack2[t].kind == top.kind);
                            }
                        }
                    },
                    Some(NodeType::GroupTrailer) => {
                        if top.kind == NodeType::GroupHeader && stack.len() >= 2 {
                            let s2 = stack.update(
                                stack.len() - 1,
                                with_sibling_spec(
                                    top,
                                    fresh_node_spec(NodeType::GroupTrailer, l),
                                ),
                            );
                            let s3 = pop_attach_spec(s2);
                            assert forall|t: int| 0 <= t < s3.len() implies (#[trigger] s3[
                            t]).kind != NodeType::AccountIdentifier && s3[t].kind
                                != NodeType::TransactionDetail by {
                                if t < s2.len() - 2 {
                                    assert(s3[t] == s2[t]);
                                    assert(s2[t] == stack[t]);
                                } else {
                                    assert(s3[t].kind == s2[s2.len() - 2].kind);
                                    assert(s2[s2.len() - 2].kind == stack[s2.len() - 2].kind);
                                }
                            }
                        }
                    },
                    _ => {},
                }
            },
            _ => {},
        }
    }
}

/// Structural rejection: a transaction-detail line that arrives while the
/// file is open but before any account-identifier line fails the scan
/// with the error naming the missing parent context; it never attaches
/// anywhere.
pub proof fn lemma_structural_rejection(lines: Seq<Seq<char>>, k: int)
    requires
        0 <= k < lines.len(),
        classify_spec(lines[k]) == Some(NodeType::TransactionDetail),
        forall|j: int|
            0 <= j < k ==> classify_spec(#[trigger] lines[j]) != Some(
                NodeType::AccountIdentifier,
            ),
        scan_run(ScanState::Seeking, lines.subrange(0, k)) is Open,
    ensures
        spec_scan(lines) == Err::<NodeS, Seq<char>>(
            "transaction detail found without account identifier"@,
        ),
{
    lemma_no_account_stack(lines, k);
    lemma_scan_run_snoc(ScanState::Seeking, lines, k);
    let msg = "transaction detail found without account identifier"@;
    assert(scan_run(ScanState::Seeking, lines.subrange(0, k + 1)) == ScanState::Failed(msg));
    lemma_scan_run_split(ScanState::Seeking, lines, k + 1);
    lemma_scan_run_absorbs(
        ScanState::Failed(msg),
        lines.subrange(k + 1, lines.len() as int),
    );
}


/// A well-formed transaction node: a transaction detail carrying no
/// children and no trailer.
pub open spec fn wf_txn_node(n: NodeS) -> bool {
    &&& n.kind == NodeType::TransactionDetail
    &&& n.children.len() == 0
    &&& n.sibling is None
}

/// A well-formed account node: an account identifier whose children are
/// all transactions and whose sibling, once attached, is the account
/// trailer.
pub open spec fn wf_account_node(n: NodeS) -> bool {
    &&& n.kind == NodeType::AccountIdentifier
    &&& forall|i: int| 0 <= i < n.children.len() ==> wf_txn_node(#[trigger] n.children[i])
    &&& match n.sibling {
        Some(s) => s.kind == NodeType::AccountTrailer,
        None => true,
    }
}

/// A well-formed group node: a group header whose children are all
/// well-formed accounts and whose sibling, once attached, is the group
/// trailer.
pub open spec fn wf_group_node(n: NodeS) -> bool {
    &&& n.kind == NodeType::GroupHeader
    &&& forall|i: int| 0 <= i < n.children.len() ==> wf_account_node(#[trigger] n.children[i])
    &&& match n.sibling {
        Some(s) => s.kind == NodeType::GroupTrailer,
        None => true,
    }
}

/// A well-formed file node: a file header whose children are all
/// well-formed groups and whose sibling, once attached, is the file
/// trailer.
pub open spec fn wf_file_node(n: NodeS) -> bool {
    &&& n.kind == NodeType::FileHeader
    &&& forall|i: int| 0 <= i < n.children.len() ==> wf_group_node(#[trigger] n.children[i])
    &&& match n.sibling {
        Some(s) => s.kind == NodeType::FileTrailer,
        None => true,
    }
}

/// The shape of every reachable open stack: the fixed level order, each
/// level's subtree well formed.
pub open spec fn wf_open_stack(stack: Seq<NodeS>) -> bool {
    &&& 1 <= stack.len() <= 4
    &&& wf_file_node(stack[0])
    &&& (stack.len() >= 2 ==> wf_group_node(stack[1]))
    &&& (stack.len() >= 3 ==> wf_account_node(stack[2]))
    &&& (stack.len() >= 4 ==> wf_txn_node(stack[3]))
}

/// Every transition preserves the level shape of the open stack, and a
/// finished root is a well-formed file tree.
proof fn lemma_scan_run_shape(lines: Seq<Seq<char>>, k: int)
    requires
        0 <= k <= lines.len(),
    ensures
        (scan_run(ScanState::Seeking, lines.subrange(0, k)) matches ScanState::Open(stack)
            ==> wf_open_stack(stack)),
        (scan_run(ScanState::Seeking, lines.subrange(0, k)) matches ScanState::Finished(root)
            ==> wf_file_node(root)),
    decreases k,
{
    if k > 0 {
        lemma_scan_run_shape(lines, k - 1);
        lemma_scan_run_snoc(ScanState::Seeking, lines, k - 1);
        let prev = scan_run(ScanState::Seeking, lines.subrange(0, k - 1));
        let l = lines[k - 1];
        match prev {
            ScanState::Open(stack) => {
                let top = stack.last();
                match classify_spec(l) {
                    Some(NodeType::GroupHeader) => {
                        if top.kind == NodeType::FileHeader {
                            assert(stack.len() == 1);
                            let stack2 = stack.push(fresh_node_spec(NodeType::GroupHeader, l));
                            assert(stack2[0] == stack[0]);
                            assert(wf_group_node(stack2[1]));
                            assert(wf_open_stack(stack2));
                        }
                    },
                    Some(NodeType::AccountIdentifier) => {
                        if top.kind == NodeType::GroupHeader {
                            assert(stack.len() == 2);
                            let stack2 = stack.push(
                                fresh_node_spec(NodeType::AccountIdentifier, l),
                            );
                            assert(stack2[0] == stack[0] && stack2[1] == stack[1]);
                            assert(wf_account_node(stack2[2]));
                            assert(wf_open_stack(stack2));
                        }
                    },
                    Some(NodeType::TransactionDetail) => {
                        if top.kind == NodeType::AccountIdentifier {
                            assert(stack.len() == 3);
                            let stack2 = stack.push(
                                fresh_node_spec(NodeType::TransactionDetail, l),
                            );
                            assert(stack2[0] == stack[0] && stack2[1] == stack[1] && stack2[2]
                                == stack[2]);
                            assert(wf_txn_node(stack2[3]));
                            assert(wf_open_stack(stack2));
                        } else if top.kind == NodeType::TransactionDetail && stack.len() >= 2 {
                            assert(stack.len() == 4);
                            let s2 = pop_attach_spec(stack);
                            assert(s2[0] == stack[0] && s2[1] == stack[1]);
                            assert(s2[2].children == stack[2].children.push(stack[3]));
                            assert(s2[2].kind == stack[2].kind && s2[2].sibling
                                == stack[2].sibling);
                            assert(wf_account_node(s2[2]));
                            let s3 = s2.push(fresh_node_spec(NodeType::TransactionDetail, l));
                            assert(s3[0] == s2[0] && s3[1] == s2[1] && s3[2] == s2[2]);
                            assert(wf_txn_node(s3[3]));
                            assert(wf_open_stack(s3));
                        }
                    },
                    Some(NodeType::AccountTrailer) => {
                        let s1 = if top.kind == NodeType::TransactionDetail && stack.len() >= 2 {
                            pop_attach_spec(stack)
                        } else {
                            stack
                        };
                        if (top.kind == NodeType::TransactionDetail || top.kind
                            == NodeType::AccountIdentifier) && s1.last().kind
                            == NodeType::AccountIdentifier && s1.len() >= 2 {
                            if top.kind == NodeType::TransactionDetail {
                                assert(stack.len() == 4);
                                assert(s1[0] == stack[0] && s1[1] == stack[1]);
                                assert(s1[2].children == stack[2].children.push(stack[3]));
                                assert(s1[2].kind == stack[2].kind && s1[2].sibling
                                    == stack[2].sibling);
                                assert(wf_account_node(s1[2]));
                            } else {
                                assert(stack.len() == 3);
                            }
                            assert(s1.len() == 3);
                            assert(wf_file_node(s1[0]) && wf_group_node(s1[1])
                                && wf_account_node(s1[2]));
                            let closed = with_sibling_spec(
                                s1.last(),
                                fresh_node_spec(NodeType::AccountTrailer, l),
                            );
                            assert(wf_account_node(closed));
                            let s2 = s1.update(s1.len() - 1, closed);
                            assert(s2[0] == s1[0] && s2[1] == s1[1] && s2[2] == closed);
                            let s3 = pop_attach_spec(s2);
                            assert(s3[0] == s2[0]);
                            assert(s3[1].children == s2[1].children.push(closed));
                            assert(s3[1].kind == s2[1].kind && s3[1].sibling == s2[1].sibling);
                            assert(wf_group_node(s3[1]));
                            assert(wf_open_stack(s3));
                        }
                    },
                    Some(NodeType::Continuation) => {
                        let updated = with_continuation_spec(
                            top,
                            fresh_node_spec(NodeType::Continuation, l),
                        );
                        assert(updated.kind == top.kind && updated.children == top.children
                            && updated.sibling == top.sibling);
                        let stack2 = stack.update(stack.len() - 1, updated);
                        assert(forall|t: int|
                            0 <= t < stack.len() - 1 ==> #[trigger] stack2[t] == stack[t]);
                        if stack.len() == 1 {
                            assert(wf_file_node(stack2[0]));
                        } else if stack.len() == 2 {
                            assert(wf_group_node(stack2[1]));
                        } else if stack.len() == 3 {
                            assert(wf_account_node(stack2[2]));
                        } else {
                            assert(wf_txn_node(stack2[3]));
                        }
                        assert(wf_open_stack(stack2));
                    },
                    Some(NodeType::GroupTrailer) => {
                        if top.kind == NodeType::GroupHeader && stack.len() >= 2 {
                            assert(stack.len() == 2);
                            let closed = with_sibling_spec(
                                top,
                                fresh_node_spec(NodeType::GroupTrailer, l),
                            );
                            assert(wf_group_node(closed));
                            let s2 = stack.update(stack.len() - 1, closed);
                            assert(s2[0] == stack[0] && s2[1] == closed);
                            let s3 = pop_attach_spec(s2);
                            assert(s3[0].children == s2[0].children.push(closed));
                            assert(s3[0].kind == s2[0].kind && s3[0].sibling == s2[0].sibling);
                            assert(wf_file_node(s3[0]));
                            assert(wf_open_stack(s3));
                        }
                    },
                    Some(NodeType::FileTrailer) => {
                        if top.kind == NodeType::FileHeader {
                            assert(stack.len() == 1);
                            assert(top == stack[0]);
                            let closed = with_sibling_spec(
                                top,
                                fresh_node_spec(NodeType::FileTrailer, l),
                            );
                            assert(wf_file_node(closed));
                        }
                    },
                    _ => {},
                }
            },
            _ => {},
        }
    }
}

/// Closing the still-open levels into the root keeps the file tree well
/// formed.
proof fn lemma_fold_stack_shape(stack: Seq<NodeS>)
    requires
        wf_open_stack(stack),
    ensures
        wf_file_node(fold_stack_spec(stack)),
    decreases stack.len(),
{
    if stack.len() <= 1 {
        assert(stack.last() == stack[0]);
    } else {
        let s2 = pop_attach_spec(stack);
        let parent = stack[stack.len() - 2];
        let child = stack.last();
        assert(s2.len() == stack.len() - 1);
        assert(forall|t: int| 0 <= t < stack.len() - 2 ==> #[trigger] s2[t] == stack[t]);
        assert(s2.last().children == parent.children.push(child));
        assert(s2.last().kind == parent.kind && s2.last().sibling == parent.sibling);
        if stack.len() == 2 {
            assert(wf_file_node(s2[0]));
        } else if stack.len() == 3 {
            assert(wf_group_node(s2[1]));
        } else {
            assert(wf_account_node(s2[2]));
        }
        assert(wf_open_stack(s2));
        lemma_fold_stack_shape(s2);
    }
}

/// Every tree the scan yields is the fixed four-level hierarchy: a
/// file-header root whose children are group headers, whose children in
/// turn are account identifiers, whose children are transaction details,
/// with the structurally matching trailer attached as the sibling
/// wherever one was read.
pub proof fn lemma_scan_tree_shape(lines: Seq<Seq<char>>)
    ensures
        (spec_scan(lines) matches Ok(root) ==> wf_file_node(root)),
{
    lemma_scan_run_shape(lines, lines.len() as int);
    assert(lines.subrange(0, lines.len() as int) =~= lines);
    match scan_run(ScanState::Seeking, lines) {
        ScanState::Open(stack) => {
            lemma_fold_stack_shape(stack);
        },
        _ => {},
    }
}

} // verus!
