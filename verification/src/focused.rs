//! Finding the focused surface's title. A host hands the resolver either
//! its window tree, converted into [`SurfaceNode`], or — where the window
//! manager answers queries in JSON — the raw JSON description of the
//! active window.

use vstd::prelude::*;

verus! {

use vstd::string::StringExecFns;

/// One node of a host window manager's tree, reduced to what focus
/// routing reads: the node's title, its focused flag, and its children.
#[derive(Debug)]
pub struct SurfaceNode {
    /// The node's title, where the window manager reports one.
    pub name: Option<String>,
    /// Whether this node is the focused one.
    pub focused: bool,
    /// The node's children, in the window manager's order.
    pub nodes: Vec<SurfaceNode>,
}

/// The focused nodes of the subtree rooted at `n`, depth first, parents
/// before children.
pub open spec fn spec_focused_nodes(n: SurfaceNode) -> Seq<SurfaceNode>
    decreases n, 0int,
{
    (if n.focused {
        seq![n]
    } else {
        Seq::empty()
    }) + spec_focused_list(n.nodes@, 0)
}

/// The focused nodes of the subtrees rooted at `l[i..]`, depth first.
pub open spec fn spec_focused_list(l: Seq<SurfaceNode>, i: int) -> Seq<SurfaceNode>
    decreases l, l.len() - i + 1,
{
    if 0 <= i < l.len() {
        spec_focused_nodes(l[i]) + spec_focused_list(l, i + 1)
    } else {
        Seq::empty()
    }
}

/// The nodes a sequence of borrows points at.
pub open spec fn deref_all(s: Seq<&SurfaceNode>) -> Seq<SurfaceNode> {
    s.map_values(|p: &SurfaceNode| *p)
}

/// Appends to `r` every focused node of the subtree rooted at `node`,
/// depth first.
pub fn collect_focused<'a>(node: &'a SurfaceNode, r: Vec<&'a SurfaceNode>) -> (out: Vec<
    &'a SurfaceNode,
>)
    ensures
        deref_all(out@) == deref_all(r@) + spec_focused_nodes(*node),
    decreases *node,
{
    let ghost r0 = deref_all(r@);
    let mut out = r;
    if node.focused {
        let ghost before = out@;
        out.push(node);
        proof {
            assert(deref_all(out@) =~= deref_all(before).push(*node));
        }
    }
    let ghost own = if node.focused {
        seq![*node]
    } else {
        Seq::<SurfaceNode>::empty()
    };
    proof {
        assert(deref_all(out@) =~= r0 + own);
    }
    let mut i: usize = 0;
    while i < node.nodes.len()
        invariant
            0 <= i <= node.nodes.len(),
            deref_all(out@) == r0 + own + spec_focused_list(node.nodes@, 0).subrange(
                0,
                spec_focused_list(node.nodes@, 0).len() - spec_focused_list(
                    node.nodes@,
                    i as int,
                ).len(),
            ),
            spec_focused_list(node.nodes@, i as int).len() <= spec_focused_list(
                node.nodes@,
                0,
            ).len(),
            spec_focused_list(node.nodes@, 0) == spec_focused_list(node.nodes@, 0).subrange(
                0,
                spec_focused_list(node.nodes@, 0).len() - spec_focused_list(
                    node.nodes@,
                    i as int,
                ).len(),
            ) + spec_focused_list(node.nodes@, i as int),
        decreases node.nodes.len() - i,
    {
        proof {
            assert(decreases_to!(*node => node.nodes@[i as int]));
        }
        let child = &node.nodes[i];
        out = collect_focused(child, out);
        proof {
            let l = node.nodes@;
            let total = spec_focused_list(l, 0);
            assert(spec_focused_list(l, i as int) == spec_focused_nodes(l[i as int])
                + spec_focused_list(l, i + 1));
            let done_len = total.len() - spec_focused_list(l, i as int).len();
            let done_len1 = total.len() - spec_focused_list(l, i + 1).len();
            assert(total.subrange(0, done_len1) =~= total.subrange(0, done_len)
                + spec_focused_nodes(l[i as int])) by {
                assert(total =~= total.subrange(0, done_len) + spec_focused_nodes(l[i as int])
                    + spec_focused_list(l, i + 1));
            }
            assert(total =~= total.subrange(0, done_len1) + spec_focused_list(l, i + 1));
        }
        i = i + 1;
    }
    proof {
        let l = node.nodes@;
        let total = spec_focused_list(l, 0);
        assert(spec_focused_list(l, l.len() as int).len() == 0);
        assert(total.subrange(0, total.len() as int) =~= total);
        assert(r0 + own + total =~= r0 + spec_focused_nodes(*node));
    }
    out
}

/// The focused nodes of the tree rooted at `node`, depth first.
pub fn get_focused<'a>(node: &'a SurfaceNode) -> (out: Vec<&'a SurfaceNode>)
    ensures
        deref_all(out@) == spec_focused_nodes(*node),
{
    let v: Vec<&SurfaceNode> = Vec::new();
    let out = collect_focused(node, v);
    proof {
        assert(deref_all(Seq::<&SurfaceNode>::empty()) =~= Seq::<SurfaceNode>::empty());
        assert(Seq::<SurfaceNode>::empty() + spec_focused_nodes(*node) =~= spec_focused_nodes(
            *node,
        ));
    }
    out
}

/// The title the first focused node of the tree carries, if a node is
/// focused and titled at all.
pub open spec fn spec_focused_name(n: SurfaceNode) -> Option<Seq<char>> {
    let fs = spec_focused_nodes(n);
    if fs.len() > 0 {
        fs[0].name.deep_view()
    } else {
        None
    }
}

/// Reads the focused surface's title out of a host window tree.
pub fn get_focused_name(tree: &SurfaceNode) -> (r: Option<String>)
    ensures
        r.deep_view() == spec_focused_name(*tree),
{
    let focused = get_focused(tree);
    if focused.len() > 0 {
        proof {
            assert(deref_all(focused@)[0] == *focused@[0]);
        }
        match &focused[0].name {
            Some(name) => Some(name.clone()),
            None => None,
        }
    } else {
        None
    }
}

/// The title a window manager's JSON description of its active window
/// carries. What it is for a given text is fixed by the JSON grammar
/// alone; the library leaves it a name and tests it only through the
/// parser below.
pub uninterp spec fn focused_title_of(payload: Seq<char>) -> Option<Seq<char>>;

/// Relies on `serde_json::from_str`, `Value::get` and `Value::as_str`:
/// reads the string under the key `title` out of a JSON object, `None`
/// for anything that does not parse to an object carrying a string
/// there. The result depends on the text alone.
#[verifier::external_body]
pub fn title_from_json(payload: &str) -> (r: Option<String>)
    ensures
        r.deep_view() == focused_title_of(payload@),
{
    let value: serde_json::Value = serde_json::from_str(payload).ok()?;
    let title = value.get("title")?.as_str()?;
    Some(title.to_string())
}

} // verus!
