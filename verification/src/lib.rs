//! Help files for Lua plugins, made from the EmmyLua annotations in their
//! source.
//!
//! The work is done in stages, each a function with a contract:
//!
//! - [`lexer::lexer`] turns source text into tokens: one for each annotation
//!   line and for each declaration that an annotation can belong to. The type
//!   expressions inside annotations are read by [`ty`].
//! - [`parser::parse_nodes`] gathers the tokens into documentation nodes:
//!   modules, functions, classes, aliases, documented values and the like.
//! - [`xref::cross_reference`] binds the nodes of a file to the symbol that
//!   the file exports, and keeps what belongs to it.
//! - [`vimdoc::render`] writes the nodes as the text of a vim help file.
//!
//! [`document`] runs the first three stages on one source text, and
//! [`LemmyHelp`] gathers several sources into one help document.
//!
//! Every function is verified against a description of what it gives, stated
//! over plain sequences of characters and plain trees. [`canon`] and [`xref`]
//! hold what is proved beyond that: that a type reads back as it is written,
//! and what binding a file's nodes twice comes to.
//!
//! Two limits are the library's own. Brackets and unions of a type
//! expression nest at most [`ty::MAX_DEPTH`] deep; a type that nests deeper
//! is malformed. A cell of a table shows at most [`table::CELL_MAX`]
//! characters; a description or a type that is longer is shown in a table
//! without its end.

pub mod text;
pub mod canon;
pub mod decl;
pub mod help;
pub mod lexer;
pub mod node;
pub mod parser;
pub mod settings;
pub mod table;
pub mod tags;
pub mod token;
pub mod xref;
pub mod ty;
pub mod vimdoc;

pub use help::{document, parser, AsDoc, Document, FromEmmy, LemmyHelp, Nodes};
pub use node::{
    Alias, AliasKind, Brief, Class, Code, Divider, Field, Func, Module, Node, Param, Prefix,
    Return, See, Tag, Type, Usage,
};
pub use settings::{Layout, Rename, Settings};
pub use token::{Kind, LexError, Member, Name, Op, Scope, Span, Token, Ty};
pub use vimdoc::VimDoc;
