//! The binding of a file's nodes to the symbol that the file exports.
//!
//! The last node of a file's batch names the export. Functions and
//! documented values are kept where they are declared on that symbol and
//! not as locals; aliases and classes are always kept. Where the settings
//! ask for it, the help tag of a kept node is written with the name of the
//! nearest module above the export, or with the export's name where there
//! is no module. A batch without an export at its end is left alone.

use crate::node::{
    Alias, AliasView, Class, ClassView, Func, FuncView, Node, NodeView, PrefixView, Type, TypeView,
};
use crate::settings::Rename;
use crate::text::views;
use crate::token::{opt_view, Kind};
use vstd::prelude::*;

verus! {

/// The export that a batch of nodes ends with.
pub open spec fn export_of(ns: Seq<NodeView>) -> Option<Seq<char>> {
    if ns.len() > 0 {
        match ns.last() {
            NodeView::Export(e) => Some(e),
            _ => None,
        }
    } else {
        None
    }
}

/// The name of the last module among the first `n` nodes, or `fallback`
/// where there is none.
pub open spec fn module_of(ns: Seq<NodeView>, n: int, fallback: Seq<char>) -> Seq<char>
    decreases n,
{
    if n <= 0 || n > ns.len() {
        fallback
    } else {
        match ns[n - 1] {
            NodeView::Module(m) => m.name,
            _ => module_of(ns, n - 1, fallback),
        }
    }
}

/// Whether a symbol belongs to what a module exports: it is declared on the
/// exported symbol, and not as a local.
pub open spec fn is_exported(prefix: PrefixView, kind: Kind, export: Seq<char>) -> bool {
    prefix.left == Some(export) && kind != Kind::Local
}

/// A qualifier whose tag name is the module's where `on` is set.
pub open spec fn tagged(p: PrefixView, module: Seq<char>, on: bool) -> PrefixView {
    PrefixView {
        left: p.left,
        right: if on {
            Some(module)
        } else {
            p.right
        },
    }
}

/// What becomes of one node: `None` where it is dropped.
pub open spec fn bound(n: NodeView, export: Seq<char>, module: Seq<char>, r: Rename) -> Option<
    NodeView,
> {
    match n {
        NodeView::Export(_) => None,
        NodeView::Func(f) => if is_exported(f.prefix, f.kind, export) {
            Some(NodeView::Func(FuncView { prefix: tagged(f.prefix, module, r.func), ..f }))
        } else {
            None
        },
        NodeView::Type(t) => if is_exported(t.prefix, t.kind, export) {
            Some(NodeView::Type(TypeView { prefix: tagged(t.prefix, module, r.ty), ..t }))
        } else {
            None
        },
        NodeView::Alias(a) => Some(
            NodeView::Alias(AliasView { prefix: tagged(a.prefix, module, r.alias), ..a }),
        ),
        NodeView::Class(c) => Some(
            NodeView::Class(ClassView { prefix: tagged(c.prefix, module, r.class), ..c }),
        ),
        other => Some(other),
    }
}

/// What becomes of the nodes of a batch, in their order.
pub open spec fn bound_all(ns: Seq<NodeView>, export: Seq<char>, module: Seq<char>, r: Rename) -> Seq<
    NodeView,
>
    decreases ns.len(),
{
    if ns.len() == 0 {
        Seq::empty()
    } else {
        bound_all(ns.drop_last(), export, module, r) + match bound(ns.last(), export, module, r) {
            Some(n) => seq![n],
            None => Seq::empty(),
        }
    }
}

/// A batch of nodes after the pass: bound to its export where it ends with
/// one, else as it was.
pub open spec fn cross_referenced(ns: Seq<NodeView>, r: Rename) -> Seq<NodeView> {
    match export_of(ns) {
        Some(e) => bound_all(ns.drop_last(), e, module_of(ns, ns.len() - 1, e), r),
        None => ns,
    }
}

/// What a file adds to a help document: its batch bound to its export, or
/// nothing where the batch does not end with an export.
pub open spec fn documented(ns: Seq<NodeView>, r: Rename) -> Seq<NodeView> {
    match export_of(ns) {
        Some(_) => cross_referenced(ns, r),
        None => Seq::empty(),
    }
}

/// Whether two optional texts are the same.
pub fn same_opt(a: &Option<String>, b: &String) -> (r: bool)
    ensures
        r == (opt_view(*a) == Some(b@)),
{
    match a {
        Some(x) => *x == *b,
        None => false,
    }
}

impl Func {
    /// Whether the function belongs to what a module exports under the
    /// name `export`.
    pub fn is_public(&self, export: &String) -> (r: bool)
        ensures
            r == is_exported(self@.prefix, self@.kind, export@),
    {
        same_opt(&self.prefix.left, export) && !matches!(self.kind, Kind::Local)
    }
}

impl Type {
    /// Whether the value belongs to what a module exports under the name
    /// `export`.
    pub fn is_public(&self, export: &String) -> (r: bool)
        ensures
            r == is_exported(self@.prefix, self@.kind, export@),
    {
        same_opt(&self.prefix.left, export) && !matches!(self.kind, Kind::Local)
    }
}

/// Binds one node: `None` where it is dropped.
pub fn bind(n: Node, export: &String, module: &String, r: &Rename) -> (out: Option<Node>)
    ensures
        match out {
            Some(m) => bound(n@, export@, module@, *r) == Some(m@),
            None => bound(n@, export@, module@, *r) is None,
        },
{
    match n {
        Node::Export(_) => None,
        Node::Func(f) => {
            if f.is_public(export) {
                let mut f = f;
                if r.func {
                    f.prefix.right = Some(module.clone());
                }
                Some(Node::Func(f))
            } else {
                None
            }
        },
        Node::Type(t) => {
            if t.is_public(export) {
                let mut t = t;
                if r.ty {
                    t.prefix.right = Some(module.clone());
                }
                Some(Node::Type(t))
            } else {
                None
            }
        },
        Node::Alias(a) => {
            let mut a = a;
            if r.alias {
                a.prefix.right = Some(module.clone());
            }
            Some(Node::Alias(a))
        },
        Node::Class(c) => {
            let mut c = c;
            if r.class {
                c.prefix.right = Some(module.clone());
            }
            Some(Node::Class(c))
        },
        other => Some(other),
    }
}

/// The name of the last module among the first `n` nodes, or a copy of
/// `fallback`.
pub fn find_module(ns: &Vec<Node>, n: usize, fallback: &String) -> (r: String)
    requires
        n <= ns.len(),
    ensures
        r@ == module_of(views(*ns), n as int, fallback@),
{
    let mut k: usize = n;
    while k > 0
        invariant
            k <= n <= ns.len(),
            module_of(views(*ns), n as int, fallback@) == module_of(
                views(*ns),
                k as int,
                fallback@,
            ),
        decreases k,
    {
        match &ns[k - 1] {
            Node::Module(m) => {
                return m.name.clone();
            },
            _ => {},
        }
        k -= 1;
    }
    fallback.clone()
}

/// The export that a batch of nodes ends with.
pub fn export_name(ns: &Vec<Node>) -> (r: Option<String>)
    ensures
        opt_view(r) == export_of(views(*ns)),
{
    if ns.len() == 0 {
        return None;
    }
    match &ns[ns.len() - 1] {
        Node::Export(e) => Some(e.clone()),
        _ => None,
    }
}

/// Runs the pass on one file's batch of nodes.
pub fn cross_reference(nodes: Vec<Node>, r: &Rename) -> (out: Vec<Node>)
    ensures
        views(out) == cross_referenced(views(nodes), *r),
{
    let export = match export_name(&nodes) {
        Some(e) => e,
        None => {
            return nodes;
        },
    };
    let module = find_module(&nodes, nodes.len() - 1, &export);
    let mut rest = nodes;
    let ghost all = views(rest);
    rest.pop();
    let ghost body = views(rest);
    assert(body =~= all.drop_last());
    // Take the nodes from the end, then put them back in their order.
    let mut turned: Vec<Node> = Vec::new();
    while rest.len() > 0
        invariant
            rest.len() + turned.len() == body.len(),
            forall|k: int| 0 <= k < rest.len() ==> rest[k]@ == body[k],
            forall|k: int| 0 <= k < turned.len() ==> turned[k]@ == body[body.len() - 1 - k],
        decreases rest.len(),
    {
        let n = rest.pop().unwrap();
        turned.push(n);
    }
    let mut out: Vec<Node> = Vec::new();
    while turned.len() > 0
        invariant
            turned.len() <= body.len(),
            forall|k: int| 0 <= k < turned.len() ==> turned[k]@ == body[body.len() - 1 - k],
            views(out) == bound_all(body.take(body.len() - turned.len()), export@, module@, *r),
        decreases turned.len(),
    {
        let ghost done = body.len() - turned.len();
        let ghost ov = views(out);
        let n = turned.pop().unwrap();
        let ghost nv = n@;
        proof {
            assert(nv == body[done]);
            assert(body.take(done + 1).drop_last() =~= body.take(done));
            assert(body.take(done + 1).last() == nv);
        }
        match bind(n, &export, &module, r) {
            Some(m) => {
                let ghost mv = m@;
                out.push(m);
                assert(views(out) =~= ov + seq![mv]);
            },
            None => {
                assert(ov + Seq::<NodeView>::empty() =~= ov);
            },
        }
    }
    proof {
        assert(body.take(body.len() as int) =~= body);
    }
    out
}

/// Whether a node of a bound batch is as the pass leaves nodes: no export,
/// and a function or documented value only where it is declared on the
/// exported symbol and not as a local.
pub open spec fn is_bound(n: NodeView, export: Seq<char>) -> bool {
    match n {
        NodeView::Export(_) => false,
        NodeView::Func(f) => is_exported(f.prefix, f.kind, export),
        NodeView::Type(t) => is_exported(t.prefix, t.kind, export),
        _ => true,
    }
}

/// Every node that the binding keeps is as the pass leaves nodes.
pub proof fn lemma_bound_all(ns: Seq<NodeView>, export: Seq<char>, module: Seq<char>, r: Rename)
    ensures
        forall|i: int|
            0 <= i < bound_all(ns, export, module, r).len() ==> is_bound(
                #[trigger] bound_all(ns, export, module, r)[i],
                export,
            ),
    decreases ns.len(),
{
    if ns.len() > 0 {
        lemma_bound_all(ns.drop_last(), export, module, r);
        let prev = bound_all(ns.drop_last(), export, module, r);
        let all = bound_all(ns, export, module, r);
        let last = bound(ns.last(), export, module, r);
        assert forall|i: int| 0 <= i < all.len() implies is_bound(#[trigger] all[i], export) by {
            if i < prev.len() {
                assert(all[i] == prev[i]);
            } else {
                assert(last is Some);
                assert(all[i] == last.unwrap());
            }
        }
    }
}

/// Of a batch that ends with the export `e`, the pass keeps no export, and
/// keeps a function or a documented value only where it is declared on `e`
/// and not as a local.
pub proof fn lemma_only_exported_survive(ns: Seq<NodeView>, r: Rename, i: int)
    requires
        export_of(ns) is Some,
        0 <= i < cross_referenced(ns, r).len(),
    ensures
        is_bound(cross_referenced(ns, r)[i], export_of(ns).unwrap()),
{
    let e = export_of(ns).unwrap();
    lemma_bound_all(ns.drop_last(), e, module_of(ns, ns.len() - 1, e), r);
}

/// The pass run a second time, with whatever choice of tags, changes
/// nothing: what the first run gave holds no export, so no qualifier is
/// written again and no node is dropped.
pub proof fn lemma_second_pass_changes_nothing(ns: Seq<NodeView>, first: Rename, second: Rename)
    ensures
        cross_referenced(cross_referenced(ns, first), second) == cross_referenced(ns, first),
{
    if export_of(ns) is Some {
        let e = export_of(ns).unwrap();
        let out = cross_referenced(ns, first);
        lemma_bound_all(ns.drop_last(), e, module_of(ns, ns.len() - 1, e), first);
        if out.len() > 0 {
            assert(is_bound(out[out.len() - 1], e));
        }
    }
}

/// The pass never touches the qualifier that the source declares: a
/// function that is kept has the declared qualifier it had.
pub proof fn lemma_declared_prefix_stays(
    n: NodeView,
    export: Seq<char>,
    module: Seq<char>,
    r: Rename,
)
    requires
        bound(n, export, module, r) is Some,
    ensures
        match (n, bound(n, export, module, r).unwrap()) {
            (NodeView::Func(a), NodeView::Func(b)) => a.prefix.left == b.prefix.left,
            (NodeView::Type(a), NodeView::Type(b)) => a.prefix.left == b.prefix.left,
            (NodeView::Alias(a), NodeView::Alias(b)) => a.prefix.left == b.prefix.left,
            (NodeView::Class(a), NodeView::Class(b)) => a.prefix.left == b.prefix.left,
            (a, b) => a == b,
        },
{
}

} // verus!
