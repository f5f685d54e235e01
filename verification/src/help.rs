//! From source text to documents: one file at a time, or several files
//! gathered into one help document.

use crate::lexer::{errors_of, lexer, tokens_of};
use crate::node::{Node, NodeView};
use crate::parser::{nodes_of, parse_nodes};
use crate::settings::{Rename, Settings};
use crate::text::views;
use crate::token::LexError;
use crate::vimdoc::{help_text, render, Style};
use crate::xref::{cross_reference, documented, export_name};
use vstd::prelude::*;

verus! {

/// Something that holds the nodes of a documentation tree.
pub trait Nodes {
    /// The nodes, as plain values.
    spec fn nodes_view(&self) -> Seq<NodeView>;

    /// The nodes.
    fn nodes(&self) -> (r: &Vec<Node>)
        ensures
            views(*r) == self.nodes_view(),
    ;

    /// The nodes, by value.
    fn into_nodes(self) -> (r: Vec<Node>)
        ensures
            views(r) == self.nodes_view(),
    ;
}

/// The nodes of all that a source text documents, before they are bound to
/// the export. `None` where an annotation of the source is malformed.
pub open spec fn source_nodes(src: Seq<char>) -> Option<Seq<NodeView>> {
    if errors_of(src).len() == 0 {
        Some(nodes_of(tokens_of(src)))
    } else {
        None
    }
}

/// What a source text adds to a help document: its nodes, bound to its
/// export. Nothing where the source names no export or an annotation is
/// malformed.
pub open spec fn file_nodes(src: Seq<char>, r: Rename) -> Seq<NodeView> {
    match source_nodes(src) {
        Some(ns) => documented(ns, r),
        None => Seq::empty(),
    }
}

/// The documentation of one source file.
#[derive(Debug)]
pub struct Document {
    nodes: Vec<Node>,
}

impl Document {
    /// A document of the given nodes.
    pub fn new(nodes: Vec<Node>) -> (d: Document)
        ensures
            d.nodes_view() == views(nodes),
    {
        Document { nodes }
    }
}

impl Default for Document {
    fn default() -> (d: Document)
        ensures
            d.nodes_view() == Seq::<NodeView>::empty(),
    {
        let nodes: Vec<Node> = Vec::new();
        assert(views(nodes) =~= Seq::<NodeView>::empty());
        Document { nodes }
    }
}

impl Nodes for Document {
    closed spec fn nodes_view(&self) -> Seq<NodeView> {
        views(self.nodes)
    }

    fn nodes(&self) -> (r: &Vec<Node>) {
        &self.nodes
    }

    fn into_nodes(self) -> (r: Vec<Node>) {
        self.nodes
    }
}

/// Reads the nodes of a source text, as they stand in the source.
pub fn read_source(src: &str) -> (r: Result<Vec<Node>, Vec<LexError>>)
    ensures
        match r {
            Ok(ns) => source_nodes(src@) == Some(views(ns)),
            Err(es) => source_nodes(src@) is None && es@ == errors_of(src@) && es.len() > 0,
        },
{
    match lexer(src) {
        Ok(tokens) => {
            let (nodes, _skipped) = parse_nodes(&tokens);
            Ok(nodes)
        },
        Err(es) => Err(es),
    }
}

/// Documents one Lua source text: lexes it, parses its nodes and binds them
/// to the symbol that the source exports. A source that names no export
/// gives an empty document; a source with malformed annotations gives the
/// malformed annotations.
pub fn document(src: &str, settings: &Settings) -> (r: Result<Document, Vec<LexError>>)
    ensures
        match r {
            Ok(d) => source_nodes(src@) is Some && d.nodes_view() == file_nodes(
                src@,
                settings.renamed(),
            ),
            Err(es) => source_nodes(src@) is None && es@ == errors_of(src@) && es.len() > 0,
        },
{
    match read_source(src) {
        Ok(nodes) => {
            if export_name(&nodes).is_some() {
                Ok(Document::new(cross_reference(nodes, &settings.rename())))
            } else {
                Ok(Document::default())
            }
        },
        Err(es) => Err(es),
    }
}

/// Documents one Lua source text, as [`document`] does; a source with
/// malformed annotations gives an empty document.
pub fn parser(src: &str, settings: &Settings) -> (d: Document)
    ensures
        d.nodes_view() == file_nodes(src@, settings.renamed()),
{
    match document(src, settings) {
        Ok(d) => d,
        Err(_) => Document::default(),
    }
}

/// A help document gathered from several source files, in the order in
/// which they were given.
#[derive(Debug)]
pub struct LemmyHelp {
    pub rename: Rename,
    pub nodes: Vec<Node>,
}

impl Default for LemmyHelp {
    fn default() -> (h: LemmyHelp)
        ensures
            h.rename == (Rename { func: false, alias: false, class: false, ty: false }),
            h.nodes_view() == Seq::<NodeView>::empty(),
    {
        LemmyHelp::new()
    }
}

impl Nodes for LemmyHelp {
    open spec fn nodes_view(&self) -> Seq<NodeView> {
        views(self.nodes)
    }

    fn nodes(&self) -> (r: &Vec<Node>) {
        &self.nodes
    }

    fn into_nodes(self) -> (r: Vec<Node>) {
        self.nodes
    }
}

/// Moves the nodes of `more` behind those of `nodes`.
fn extend(nodes: &mut Vec<Node>, more: Vec<Node>)
    ensures
        views(*final(nodes)) == views(*old(nodes)) + views(more),
{
    let ghost added = views(more);
    let mut rest = more;
    nodes.append(&mut rest);
    assert(views(*nodes) =~= views(*old(nodes)) + added);
}

impl LemmyHelp {
    /// An empty document whose tags are written as the source declares
    /// them.
    pub fn new() -> (h: LemmyHelp)
        ensures
            h.rename == (Rename { func: false, alias: false, class: false, ty: false }),
            h.nodes_view() == Seq::<NodeView>::empty(),
    {
        LemmyHelp::with_rename(Rename { func: false, alias: false, class: false, ty: false })
    }

    /// An empty document with the given choice of tags.
    pub fn with_rename(rename: Rename) -> (h: LemmyHelp)
        ensures
            h.rename == rename,
            h.nodes_view() == Seq::<NodeView>::empty(),
    {
        let nodes: Vec<Node> = Vec::new();
        assert(views(nodes) =~= Seq::<NodeView>::empty());
        LemmyHelp { rename, nodes }
    }

    /// Adds all nodes of a source text as they stand in the source, the
    /// export included. Where an annotation is malformed the document
    /// stays as it is and the malformed annotations are returned.
    pub fn parse(&mut self, src: &str) -> (r: Result<(), Vec<LexError>>)
        ensures
            final(self).rename == old(self).rename,
            match r {
                Ok(_) => source_nodes(src@) is Some && final(self).nodes_view() == old(
                    self,
                ).nodes_view() + source_nodes(src@).unwrap(),
                Err(es) => source_nodes(src@) is None && es@ == errors_of(src@) && es.len() > 0
                    && final(self).nodes_view() == old(self).nodes_view(),
            },
    {
        match read_source(src) {
            Ok(nodes) => {
                extend(&mut self.nodes, nodes);
                Ok(())
            },
            Err(es) => Err(es),
        }
    }

    /// Adds what a source text documents: its nodes bound to its export,
    /// with this document's choice of tags. A source that names no export
    /// adds nothing. Where an annotation is malformed the document stays as
    /// it is and the malformed annotations are returned.
    pub fn for_help(&mut self, src: &str) -> (r: Result<(), Vec<LexError>>)
        ensures
            final(self).rename == old(self).rename,
            match r {
                Ok(_) => source_nodes(src@) is Some && final(self).nodes_view() == old(
                    self,
                ).nodes_view() + file_nodes(src@, old(self).rename),
                Err(es) => source_nodes(src@) is None && es@ == errors_of(src@) && es.len() > 0
                    && final(self).nodes_view() == old(self).nodes_view(),
            },
    {
        match read_source(src) {
            Ok(nodes) => {
                if export_name(&nodes).is_some() {
                    let bound = cross_reference(nodes, &self.rename);
                    extend(&mut self.nodes, bound);
                } else {
                    assert(self.nodes_view() + Seq::<NodeView>::empty() =~= self.nodes_view());
                }
                Ok(())
            },
            Err(es) => Err(es),
        }
    }

    /// The help file of the document in the classic style, laid out with
    /// the default settings.
    pub fn to_string(&self) -> (r: String)
        ensures
            r@ == help_text(
                self.nodes_view(),
                Settings {
                    prefix_func: false,
                    prefix_alias: false,
                    prefix_class: false,
                    prefix_type: false,
                    expand_opt: false,
                    layout: crate::settings::Layout::Default,
                    indent_width: 4,
                },
                Style::Classic,
            ),
    {
        let s = Settings::default();
        render(&self.nodes, &s, Style::Classic)
    }
}

/// A way of showing a documentation tree, made from the tree and from
/// settings of its own.
pub trait FromEmmy: Sized {
    /// What a caller can choose.
    type Settings;

    /// Whether the nodes can be shown with these settings.
    spec fn accepts(nodes: Seq<NodeView>, s: &Self::Settings) -> bool;

    /// Whether this value shows the nodes with the settings.
    spec fn shows(&self, nodes: Seq<NodeView>, s: &Self::Settings) -> bool;

    /// Shows a documentation tree.
    fn from_emmy<N: Nodes>(t: &N, s: &Self::Settings) -> (r: Self)
        requires
            Self::accepts(t.nodes_view(), s),
        ensures
            r.shows(t.nodes_view(), s),
    ;
}

/// Something that can be shown in any way there is.
pub trait AsDoc<T: FromEmmy>: Nodes {
    /// Shows this documentation tree.
    fn as_doc(&self, s: &T::Settings) -> (r: T)
        requires
            T::accepts(self.nodes_view(), s),
        ensures
            r.shows(self.nodes_view(), s),
    ;
}

impl<T: FromEmmy> AsDoc<T> for Document {
    fn as_doc(&self, s: &T::Settings) -> (r: T) {
        T::from_emmy(self, s)
    }
}

} // verus!
