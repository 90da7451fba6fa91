//! The accessibility tree of the desktop, and searches in it.

use vstd::prelude::*;

use crate::text::{contains_text, has_parts, has_text, parts_occur, same_text, texts};

verus! {

/// A node of the accessibility tree.
#[derive(Debug, PartialEq, Eq)]
pub struct A11yNode {
    pub role: String,
    pub name: String,
    pub children: Option<Vec<A11yNode>>,
}

/// What a node's name has to be.
pub enum NameTest {
    /// The name is this text: `[name="text"]`.
    Equals(&'static str),
    /// The name has this text in it: `[name*="text"]`.
    Contains(&'static str),
    /// The name is one of these texts: `[name=/^(a|b)$/]`.
    OneOf(Vec<&'static str>),
    /// The name has, in any ASCII case, the parts of one of the alternatives in it, in order and
    /// on one line: `[name=/a|b.*c/i]`.
    Like(Vec<Vec<&'static str>>),
}

/// What a node has to be: its role, and what its name has to be.
pub struct NodeTest {
    pub role: &'static str,
    pub name: NameTest,
}

/// Whether a name is one of the texts of `list`.
pub open spec fn is_one_of(name: Seq<char>, list: Seq<&'static str>) -> bool {
    exists|i: int| 0 <= i < list.len() && name == #[trigger] list[i]@
}

/// Whether a name has the parts of one of the `alternatives` in it.
pub open spec fn is_like(name: Seq<char>, alternatives: Seq<Vec<&'static str>>) -> bool {
    exists|i: int|
        0 <= i < alternatives.len() && parts_occur(name, texts(#[trigger] alternatives[i]@))
}

impl NameTest {
    /// Whether a name passes.
    pub open spec fn accepts(self, name: Seq<char>) -> bool {
        match self {
            NameTest::Equals(text) => name == text@,
            NameTest::Contains(text) => contains_text(name, text@),
            NameTest::OneOf(list) => is_one_of(name, list@),
            NameTest::Like(alternatives) => is_like(name, alternatives@),
        }
    }

    /// Decides `accepts`.
    pub fn passes(&self, name: &str) -> (pass: bool)
        ensures
            pass == self.accepts(name@),
    {
        match self {
            NameTest::Equals(text) => same_text(name, text),
            NameTest::Contains(text) => has_text(name, text),
            NameTest::OneOf(list) => one_of(name, list),
            NameTest::Like(alternatives) => like(name, alternatives),
        }
    }
}

/// Decides `is_one_of`.
fn one_of(name: &str, list: &Vec<&'static str>) -> (found: bool)
    ensures
        found == is_one_of(name@, list@),
{
    let mut i: usize = 0;
    while i < list.len()
        invariant
            i <= list.len(),
            forall|j: int| 0 <= j < i ==> name@ != #[trigger] list@[j]@,
        decreases list.len() - i,
    {
        if same_text(name, list[i]) {
            assert(name@ == list@[i as int]@);
            return true;
        }
        i += 1;
    }
    false
}

/// Decides `is_like`.
fn like(name: &str, alternatives: &Vec<Vec<&'static str>>) -> (found: bool)
    ensures
        found == is_like(name@, alternatives@),
{
    let mut i: usize = 0;
    while i < alternatives.len()
        invariant
            i <= alternatives.len(),
            forall|j: int|
                0 <= j < i ==> !parts_occur(name@, texts(#[trigger] alternatives@[j]@)),
        decreases alternatives.len() - i,
    {
        if has_parts(name, &alternatives[i]) {
            assert(parts_occur(name@, texts(alternatives@[i as int]@)));
            return true;
        }
        i += 1;
    }
    false
}

impl NodeTest {
    /// Whether a node passes.
    pub open spec fn accepts(self, node: A11yNode) -> bool {
        node.role@ == self.role@ && self.name.accepts(node.name@)
    }

    /// Decides `accepts`.
    pub fn passes(&self, node: &A11yNode) -> (pass: bool)
        ensures
            pass == self.accepts(*node),
    {
        same_text(node.role.as_str(), self.role) && self.name.passes(node.name.as_str())
    }
}

/// The children of a node; a node without a list has none.
pub open spec fn children_of(node: A11yNode) -> Seq<A11yNode> {
    match node.children {
        Some(list) => list@,
        None => Seq::empty(),
    }
}

/// The node that is reached from `root` by taking the children at the positions of `path` in
/// turn. The empty path leads to `root` itself.
pub open spec fn node_at(root: A11yNode, path: Seq<int>) -> Option<A11yNode>
    decreases path.len(),
{
    if path.len() == 0 {
        Some(root)
    } else if 0 <= path[0] < children_of(root).len() {
        node_at(children_of(root)[path[0]], path.drop_first())
    } else {
        None
    }
}

/// Whether `path` leads from `root` to a node of which `pred` holds.
pub open spec fn holds_at(root: A11yNode, path: Seq<int>, pred: spec_fn(A11yNode) -> bool) -> bool {
    node_at(root, path) matches Some(node) && pred(node)
}

/// Whether `pred` holds of some node of the tree, `root` included.
pub open spec fn some_node(root: A11yNode, pred: spec_fn(A11yNode) -> bool) -> bool {
    exists|path: Seq<int>| holds_at(root, path, pred)
}

/// Whether `inner` holds of some node of the tree that lies, at any depth, below a node of which
/// `outer` holds.
pub open spec fn some_node_below(
    root: A11yNode,
    outer: spec_fn(A11yNode) -> bool,
    inner: spec_fn(A11yNode) -> bool,
) -> bool {
    exists|path: Seq<int>, depth: int|
        {
            &&& 0 <= depth < path.len()
            &&& #[trigger] holds_at(root, path.take(depth), outer)
            &&& #[trigger] holds_at(root, path, inner)
        }
}

/// A node is found in a tree at its root or in the tree of one of the root's children.
pub proof fn some_node_splits(root: A11yNode, pred: spec_fn(A11yNode) -> bool)
    ensures
        some_node(root, pred) <==> pred(root) || exists|i: int|
            0 <= i < children_of(root).len() && some_node(#[trigger] children_of(root)[i], pred),
{
    let kids = children_of(root);
    if some_node(root, pred) && !pred(root) {
        let path = choose|path: Seq<int>| holds_at(root, path, pred);
        assert(holds_at(kids[path[0]], path.drop_first(), pred));
        assert(some_node(kids[path[0]], pred));
    }
    if pred(root) {
        assert(holds_at(root, Seq::empty(), pred));
    }
    if exists|i: int| 0 <= i < kids.len() && some_node(#[trigger] kids[i], pred) {
        let i = choose|i: int| 0 <= i < kids.len() && some_node(#[trigger] kids[i], pred);
        let path = choose|path: Seq<int>| holds_at(kids[i], path, pred);
        let longer = seq![i] + path;
        assert(longer.drop_first() =~= path);
        assert(holds_at(root, longer, pred));
    }
}

/// A nested node is found in a tree below the root itself, where `outer` holds of the root, or in
/// the tree of one of the root's children.
pub proof fn some_node_below_splits(
    root: A11yNode,
    outer: spec_fn(A11yNode) -> bool,
    inner: spec_fn(A11yNode) -> bool,
)
    ensures
        some_node_below(root, outer, inner) <==> exists|i: int|
            0 <= i < children_of(root).len() && {
                ||| outer(root) && some_node(children_of(root)[i], inner)
                ||| some_node_below(#[trigger] children_of(root)[i], outer, inner)
            },
{
    let kids = children_of(root);
    if some_node_below(root, outer, inner) {
        let (path, depth) = choose|path: Seq<int>, depth: int|
            {
                &&& 0 <= depth < path.len()
                &&& #[trigger] holds_at(root, path.take(depth), outer)
                &&& #[trigger] holds_at(root, path, inner)
            };
        let kid = kids[path[0]];
        let shorter = path.drop_first();
        assert(holds_at(kid, shorter, inner));
        if depth == 0 {
            assert(outer(root));
            assert(some_node(kid, inner));
        } else {
            assert(path.take(depth).drop_first() =~= shorter.take(depth - 1));
            assert(holds_at(kid, shorter.take(depth - 1), outer));
            assert(some_node_below(kid, outer, inner));
        }
    }
    if exists|i: int|
        0 <= i < kids.len() && {
            ||| outer(root) && some_node(kids[i], inner)
            ||| some_node_below(#[trigger] kids[i], outer, inner)
        } {
        let i = choose|i: int|
            0 <= i < kids.len() && {
                ||| outer(root) && some_node(kids[i], inner)
                ||| some_node_below(#[trigger] kids[i], outer, inner)
            };
        if some_node_below(kids[i], outer, inner) {
            let (path, depth) = choose|path: Seq<int>, depth: int|
                {
                    &&& 0 <= depth < path.len()
                    &&& #[trigger] holds_at(kids[i], path.take(depth), outer)
                    &&& #[trigger] holds_at(kids[i], path, inner)
                };
            let longer = seq![i] + path;
            assert(longer.drop_first() =~= path);
            assert(longer.take(depth + 1).drop_first() =~= path.take(depth));
            assert(holds_at(root, longer.take(depth + 1), outer));
            assert(holds_at(root, longer, inner));
        } else {
            let path = choose|path: Seq<int>| holds_at(kids[i], path, inner);
            let longer = seq![i] + path;
            assert(longer.drop_first() =~= path);
            assert(longer.take(0) =~= Seq::<int>::empty());
            assert(holds_at(root, longer.take(0), outer));
            assert(holds_at(root, longer, inner));
        }
    }
}

/// A nested node is a node: below anything, it is still in the tree.
pub proof fn nested_node_is_a_node(
    root: A11yNode,
    outer: spec_fn(A11yNode) -> bool,
    inner: spec_fn(A11yNode) -> bool,
)
    requires
        some_node_below(root, outer, inner),
    ensures
        some_node(root, outer),
        some_node(root, inner),
{
}

/// A recursion from a node to one of its children ends.
proof fn child_is_smaller(node: A11yNode, i: int)
    requires
        0 <= i < children_of(node).len(),
    ensures
        decreases_to!(node => children_of(node)[i]),
{
    let list = node.children->0;
    assert(decreases_to!(node => node.children));
    assert(decreases_to!(node.children => list));
    assert(decreases_to!(list => list@));
    assert(decreases_to!(list@ => list@[i]));
}

/// Whether some node of the tree, `root` included, passes `test`.
pub fn has_node(root: &A11yNode, test: &NodeTest) -> (found: bool)
    ensures
        found == some_node(*root, |node: A11yNode| test.accepts(node)),
    decreases root,
{
    let ghost pred = |node: A11yNode| test.accepts(node);
    proof {
        some_node_splits(*root, pred);
    }
    if test.passes(root) {
        return true;
    }
    if let Some(list) = &root.children {
        let mut i: usize = 0;
        while i < list.len()
            invariant
                i <= list.len(),
                root.children == Some(*list),
                pred == (|node: A11yNode| test.accepts(node)),
                forall|j: int| 0 <= j < i ==> !some_node(#[trigger] list@[j], pred),
                some_node(*root, pred) <==> pred(*root) || exists|j: int|
                    0 <= j < children_of(*root).len() && some_node(
                        #[trigger] children_of(*root)[j],
                        pred,
                    ),
            decreases list.len() - i,
        {
            proof {
                child_is_smaller(*root, i as int);
            }
            if has_node(&list[i], test) {
                proof {
                    assert(some_node(children_of(*root)[i as int], pred));
                }
                return true;
            }
            i += 1;
        }
    }
    false
}

/// Whether some node that passes `inner` lies, at any depth, below a node that passes `outer`.
pub fn has_node_below(root: &A11yNode, outer: &NodeTest, inner: &NodeTest) -> (found: bool)
    ensures
        found == some_node_below(
            *root,
            |node: A11yNode| outer.accepts(node),
            |node: A11yNode| inner.accepts(node),
        ),
    decreases root,
{
    let ghost out = |node: A11yNode| outer.accepts(node);
    let ghost inn = |node: A11yNode| inner.accepts(node);
    proof {
        some_node_below_splits(*root, out, inn);
    }
    let here: bool = outer.passes(root);
    if let Some(list) = &root.children {
        let mut i: usize = 0;
        while i < list.len()
            invariant
                i <= list.len(),
                root.children == Some(*list),
                here == outer.accepts(*root),
                out == (|node: A11yNode| outer.accepts(node)),
                inn == (|node: A11yNode| inner.accepts(node)),
                forall|j: int|
                    0 <= j < i ==> !(out(*root) && some_node(list@[j], inn)) && !some_node_below(
                        #[trigger] list@[j],
                        out,
                        inn,
                    ),
                some_node_below(*root, out, inn) <==> exists|j: int|
                    0 <= j < children_of(*root).len() && {
                        ||| out(*root) && some_node(children_of(*root)[j], inn)
                        ||| some_node_below(#[trigger] children_of(*root)[j], out, inn)
                    },
            decreases list.len() - i,
        {
            proof {
                child_is_smaller(*root, i as int);
            }
            if here && has_node(&list[i], inner) {
                proof {
                    let kid = children_of(*root)[i as int];
                    assert(some_node(kid, inn) || some_node_below(kid, out, inn));
                }
                return true;
            }
            if has_node_below(&list[i], outer, inner) {
                proof {
                    assert(some_node_below(children_of(*root)[i as int], out, inn));
                }
                return true;
            }
            i += 1;
        }
    }
    false
}

} // verus!
