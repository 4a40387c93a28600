//! Syntax trees. A parser of an outside grammar produces the tree; the
//! drivers read it as a [`SyntaxNode`].

use super::trait_def::DriverError;
use crate::ir::opt_text;
use crate::text::{str_eq, trim, trimmed};
use tree_sitter::{Language, LanguageError, Node, Parser, Tree, TreeCursor};
use vstd::prelude::*;

verus! {

/// One node of a syntax tree, with everything below it.
#[derive(Debug)]
pub struct SyntaxNode {
    /// The kind of construct, as the grammar names it.
    pub kind: String,
    /// Whether the grammar names this node; punctuation and keywords are
    /// anonymous.
    pub named: bool,
    /// The role that the node plays in its parent, where the grammar gives
    /// it one.
    pub field: Option<String>,
    /// The source text that the node spans, where it is valid text.
    pub text: Option<String>,
    /// The nodes directly below, in source order.
    pub children: Vec<SyntaxNode>,
}

/// Declares `tree_sitter::Parser` as an opaque type.
#[verifier::external_type_specification]
#[verifier::external_body]
pub struct ExParser(Parser);

/// Declares `tree_sitter::Tree` as an opaque type.
#[verifier::external_type_specification]
#[verifier::external_body]
pub struct ExTree(Tree);

/// Declares `tree_sitter::Language` as an opaque type.
#[verifier::external_type_specification]
#[verifier::external_body]
pub struct ExLanguage(Language);

/// Declares `tree_sitter::LanguageError` as an opaque type.
#[verifier::external_type_specification]
#[verifier::external_body]
pub struct ExLanguageError(LanguageError);

/// Declares `tree_sitter::Node` as an opaque type.
#[verifier::external_type_specification]
#[verifier::external_body]
pub struct ExNode<'tree>(Node<'tree>);

/// Declares `tree_sitter::TreeCursor` as an opaque type.
#[verifier::external_type_specification]
#[verifier::external_body]
pub struct ExTreeCursor<'tree>(TreeCursor<'tree>);

/// One node of a syntax tree as plain values, with everything below it.
pub struct NodeModel {
    pub kind: Seq<char>,
    pub named: bool,
    pub field: Option<Seq<char>>,
    pub text: Option<Seq<char>>,
    pub children: Seq<NodeModel>,
}

/// A syntax tree as plain values, with the source text that it was parsed
/// from.
pub struct TreeModel {
    pub source: Seq<char>,
    pub root: NodeModel,
}

/// The grammars that a parser can be given.
#[derive(Debug, Clone, Copy, PartialEq, Eq, Structural)]
pub enum Grammar {
    Python,
    Rust,
}

/// The number that stands for a grammar.
pub open spec fn grammar_code(grammar: Grammar) -> int {
    match grammar {
        Grammar::Python => 0,
        Grammar::Rust => 1,
    }
}

/// The number of the grammar that a `tree_sitter::Language` holds.
pub uninterp spec fn language_code(language: Language) -> int;

/// Whether `Parser::set_language` accepts the grammar of the given number.
pub uninterp spec fn loads(code: int) -> bool;

/// The number of the grammar that a parser was given, if it was given one.
pub uninterp spec fn parser_language(parser: Parser) -> Option<int>;

/// The syntax tree that `Parser::parse` gives for a source text under the
/// grammar of the given number, if it gives one.
pub uninterp spec fn parsed(code: int, source: Seq<char>) -> Option<NodeModel>;

/// What a `tree_sitter::Tree` holds: its nodes, and the source text that it
/// was parsed from.
pub uninterp spec fn tree_model(tree: Tree) -> TreeModel;

/// The tree that a cursor walks.
pub uninterp spec fn walked(cursor: TreeCursor) -> TreeModel;

/// Where a cursor stands: the child numbers on the way from the root.
pub uninterp spec fn position(cursor: TreeCursor) -> Seq<int>;

/// What a `tree_sitter::Node` holds: the node with everything below it, and
/// the source text of its tree.
pub uninterp spec fn node_tree(node: Node) -> TreeModel;

/// The node at the end of a path of child numbers. A step that names no
/// child stays where it is.
pub open spec fn node_at(root: NodeModel, path: Seq<int>) -> NodeModel
    decreases path.len(),
{
    if path.len() == 0 {
        root
    } else {
        let parent = node_at(root, path.drop_last());
        if 0 <= path.last() < parent.children.len() {
            parent.children[path.last()]
        } else {
            parent
        }
    }
}

/// A node without what is below it.
pub open spec fn bare(node: NodeModel) -> NodeModel {
    NodeModel {
        kind: node.kind,
        named: node.named,
        field: node.field,
        text: node.text,
        children: Seq::empty(),
    }
}

/// Whether a node has something more than `depth` levels below it.
pub open spec fn deeper(node: NodeModel, depth: nat) -> bool
    decreases depth,
{
    if depth == 0 {
        node.children.len() > 0
    } else {
        exists|k: int|
            0 <= k < node.children.len() && deeper(#[trigger] node.children[k], (depth - 1) as nat)
    }
}

/// The first `n` nodes below a node as plain values.
pub open spec fn models_below(node: SyntaxNode, n: nat) -> Seq<NodeModel>
    decreases node, n,
{
    if n == 0 || n > node.children@.len() {
        Seq::empty()
    } else {
        models_below(node, (n - 1) as nat).push(model_of(node.children@[n - 1]))
    }
}

/// A node as plain values.
pub open spec fn model_of(node: SyntaxNode) -> NodeModel
    decreases node, node.children@.len() + 1,
{
    NodeModel {
        kind: node.kind@,
        named: node.named,
        field: opt_text(node.field),
        text: opt_text(node.text),
        children: models_below(node, node.children@.len()),
    }
}

impl View for SyntaxNode {
    type V = NodeModel;

    open spec fn view(&self) -> NodeModel {
        model_of(*self)
    }
}

/// Wraps `tree_sitter::Language::new` on the Python grammar: the language
/// holds the Python grammar.
#[verifier::external_body]
fn python_language() -> (r: Language)
    ensures
        language_code(r) == grammar_code(Grammar::Python),
{
    Language::new(tree_sitter_python::LANGUAGE)
}

/// Wraps `tree_sitter::Language::new` on the Rust grammar: the language
/// holds the Rust grammar.
#[verifier::external_body]
fn rust_language() -> (r: Language)
    ensures
        language_code(r) == grammar_code(Grammar::Rust),
{
    Language::new(tree_sitter_rust::LANGUAGE)
}

/// Wraps `Parser::new`: a parser that was given no grammar yet.
#[verifier::external_body]
fn new_parser() -> (r: Parser)
    ensures
        parser_language(r) is None,
{
    Parser::new()
}

/// Wraps `Parser::set_language`. It fails where the grammar cannot be used
/// with this parser, which is named [`loads`], and then leaves the parser
/// as it was; else the parser has the grammar.
#[verifier::external_body]
fn set_language(parser: &mut Parser, language: &Language) -> (r: Result<(), LanguageError>)
    ensures
        r is Ok <==> loads(language_code(*language)),
        parser_language(*final(parser)) == if r is Ok {
            Some(language_code(*language))
        } else {
            parser_language(*old(parser))
        },
{
    parser.set_language(language)
}

/// Wraps `Parser::parse` on a whole text, without an earlier tree. A
/// parser without a grammar gives no tree; else the tree is what is named
/// [`parsed`], and it remembers the text. The parser keeps its grammar.
#[verifier::external_body]
fn parse_text(parser: &mut Parser, source: &str) -> (r: Option<Tree>)
    ensures
        parser_language(*final(parser)) == parser_language(*old(parser)),
        match parser_language(*old(parser)) {
            Some(code) => match r {
                Some(tree) => parsed(code, source@) == Some(tree_model(tree).root) && tree_model(
                    tree,
                ).source == source@,
                None => parsed(code, source@) is None,
            },
            None => r is None,
        },
{
    parser.parse(source, None)
}

/// Wraps `Tree::walk`: a cursor over the tree that stands on the root.
#[verifier::external_body]
fn walk<'tree>(tree: &'tree Tree) -> (r: TreeCursor<'tree>)
    ensures
        walked(r) == tree_model(*tree),
        position(r).len() == 0,
{
    tree.walk()
}

/// Wraps `TreeCursor::node`: the node that the cursor stands on.
#[verifier::external_body]
fn cursor_node<'tree>(cursor: &TreeCursor<'tree>) -> (r: Node<'tree>)
    ensures
        node_tree(r).source == walked(*cursor).source,
        node_tree(r).root == node_at(walked(*cursor).root, position(*cursor)),
{
    cursor.node()
}

/// Wraps `TreeCursor::field_name`: the role of the node under the cursor.
#[verifier::external_body]
fn cursor_field(cursor: &TreeCursor) -> (r: Option<String>)
    ensures
        opt_text(r) == node_at(walked(*cursor).root, position(*cursor)).field,
{
    cursor.field_name().map(|name| name.to_string())
}

/// Wraps `TreeCursor::goto_first_child`: the cursor moves to the first
/// child of its node and the answer is true, or the node has no child, the
/// cursor stays and the answer is false.
#[verifier::external_body]
fn goto_first_child(cursor: &mut TreeCursor) -> (r: bool)
    ensures
        walked(*final(cursor)) == walked(*old(cursor)),
        r == (node_at(walked(*old(cursor)).root, position(*old(cursor))).children.len() > 0),
        position(*final(cursor)) == if r {
            position(*old(cursor)).push(0)
        } else {
            position(*old(cursor))
        },
{
    cursor.goto_first_child()
}

/// Wraps `TreeCursor::goto_next_sibling`: the cursor moves to the next
/// child of the same parent and the answer is true, or there is none, the
/// cursor stays and the answer is false. The root has no sibling.
#[verifier::external_body]
fn goto_next_sibling(cursor: &mut TreeCursor) -> (r: bool)
    ensures
        walked(*final(cursor)) == walked(*old(cursor)),
        r == (position(*old(cursor)).len() > 0 && position(*old(cursor)).last() + 1 < node_at(
            walked(*old(cursor)).root,
            position(*old(cursor)).drop_last(),
        ).children.len()),
        position(*final(cursor)) == if r {
            position(*old(cursor)).drop_last().push(position(*old(cursor)).last() + 1)
        } else {
            position(*old(cursor))
        },
{
    cursor.goto_next_sibling()
}

/// Wraps `TreeCursor::goto_parent`: the cursor moves to the parent of its
/// node and the answer is true, or it stands on the root, stays and the
/// answer is false.
#[verifier::external_body]
fn goto_parent(cursor: &mut TreeCursor) -> (r: bool)
    ensures
        walked(*final(cursor)) == walked(*old(cursor)),
        r == (position(*old(cursor)).len() > 0),
        position(*final(cursor)) == if r {
            position(*old(cursor)).drop_last()
        } else {
            position(*old(cursor))
        },
{
    cursor.goto_parent()
}

/// Wraps `Node::kind`.
#[verifier::external_body]
fn node_kind(node: &Node) -> (r: String)
    ensures
        r@ == node_tree(*node).root.kind,
{
    node.kind().to_string()
}

/// Wraps `Node::is_named`.
#[verifier::external_body]
fn node_is_named(node: &Node) -> (r: bool)
    ensures
        r == node_tree(*node).root.named,
{
    node.is_named()
}

/// Wraps `Node::utf8_text` on the source text of the node's tree: the text
/// that the node spans, or nothing where that is no valid text.
#[verifier::external_body]
fn node_text(node: &Node, source: &str) -> (r: Option<String>)
    requires
        source@ == node_tree(*node).source,
    ensures
        opt_text(r) == node_tree(*node).root.text,
{
    node.utf8_text(source.as_bytes()).ok().map(|text| text.to_string())
}

/// Reads the node under the cursor, without what is below it.
fn read_node(cursor: &TreeCursor, source: &str) -> (r: SyntaxNode)
    requires
        source@ == walked(*cursor).source,
    ensures
        r@ == bare(node_at(walked(*cursor).root, position(*cursor))),
        r.children@.len() == 0,
{
    let node = cursor_node(cursor);
    let r = SyntaxNode {
        kind: node_kind(&node),
        named: node_is_named(&node),
        field: cursor_field(cursor),
        text: node_text(&node, source),
        children: Vec::new(),
    };
    assert(models_below(r, 0) =~= Seq::<NodeModel>::empty());
    r
}

/// How many levels below its root a syntax tree may have. A deeper tree is
/// not read: its source gives [`DriverError::TooDeep`].
pub const MAX_TREE_DEPTH: usize = 512;

/// Copies the node under the cursor with everything below it, and brings
/// the cursor back to where it stood. Where something lies more than
/// `depth` levels below the node, nothing is copied and the answer is
/// [`DriverError::TooDeep`].
fn copy_subtree(cursor: &mut TreeCursor, source: &str, depth: usize) -> (r: Result<
    SyntaxNode,
    DriverError,
>)
    requires
        source@ == walked(*old(cursor)).source,
    ensures
        walked(*final(cursor)) == walked(*old(cursor)),
        match r {
            Ok(node) => {
                &&& position(*final(cursor)) == position(*old(cursor))
                &&& !deeper(node_at(walked(*old(cursor)).root, position(*old(cursor))), depth as nat)
                &&& node@ == node_at(walked(*old(cursor)).root, position(*old(cursor)))
            },
            Err(e) => e == DriverError::TooDeep && deeper(
                node_at(walked(*old(cursor)).root, position(*old(cursor))),
                depth as nat,
            ),
        },
    decreases depth,
{
    let ghost tree = walked(*cursor);
    let ghost start = position(*cursor);
    let ghost here = node_at(tree.root, start);
    let mut node = read_node(cursor, source);
    if !goto_first_child(cursor) {
        assert(node@.children =~= here.children);
        return Ok(node);
    }
    if depth == 0 {
        return Err(DriverError::TooDeep);
    }
    let ghost mut done: int = 0;
    assert(start.push(0).drop_last() =~= start);
    assert(node@.children =~= here.children.take(0));
    loop
        invariant_except_break
            tree == walked(*old(cursor)),
            start == position(*old(cursor)),
            walked(*cursor) == tree,
            source@ == tree.source,
            position(*cursor) == start.push(done),
            here == node_at(tree.root, start),
            0 <= done < here.children.len(),
            depth > 0,
            bare(node@) == bare(here),
            node.children@.len() == done,
            node@.children == here.children.take(done),
            forall|k: int|
                0 <= k < done ==> !deeper(#[trigger] here.children[k], (depth - 1) as nat),
        ensures
            walked(*cursor) == tree,
            position(*cursor).len() > 0,
            position(*cursor).drop_last() == start,
            node@ == here,
            !deeper(here, depth as nat),
        decreases here.children.len() - done,
    {
        let ghost before = node@.children;
        let ghost at = start.push(done);
        assert(at.drop_last() =~= start);
        assert(node_at(tree.root, at) == here.children[done]);
        let child = match copy_subtree(cursor, source, depth - 1) {
            Ok(child) => child,
            Err(e) => {
                assert(deeper(here.children[done], (depth - 1) as nat));
                return Err(e);
            },
        };
        let ghost added = child@;
        let ghost parent = node;
        node.children.push(child);
        proof {
            lemma_models_after_push(parent, node, child);
            assert(node@.children =~= before.push(added));
            assert(before.push(added) =~= here.children.take(done + 1));
        }
        let moved = goto_next_sibling(cursor);
        if !moved {
            assert(done + 1 == here.children.len());
            assert(node@.children =~= here.children);
            break ;
        }
        proof {
            assert(start.push(done).drop_last().push(done + 1) =~= start.push(done + 1));
            done = done + 1;
        }
    }
    goto_parent(cursor);
    Ok(node)
}

/// Adding a node below a node adds its plain values below the plain values.
proof fn lemma_models_after_push(before: SyntaxNode, after: SyntaxNode, child: SyntaxNode)
    requires
        after.kind == before.kind,
        after.named == before.named,
        after.field == before.field,
        after.text == before.text,
        after.children@ == before.children@.push(child),
    ensures
        after@.children == before@.children.push(child@),
        bare(after@) == bare(before@),
{
    lemma_models_below_same(before, after, before.children@.len());
    assert(models_below(after, after.children@.len()) == models_below(
        after,
        before.children@.len(),
    ).push(model_of(child)));
}

/// Nodes that agree on their first `n` children agree on the plain values
/// of those.
proof fn lemma_models_below_same(a: SyntaxNode, b: SyntaxNode, n: nat)
    requires
        n <= a.children@.len(),
        n <= b.children@.len(),
        forall|k: int| 0 <= k < n ==> a.children@[k] == b.children@[k],
    ensures
        models_below(a, n) == models_below(b, n),
    decreases n,
{
    if n > 0 {
        lemma_models_below_same(a, b, (n - 1) as nat);
    }
}

/// Copies the tree into a [`SyntaxNode`], with the nodes in source order. A
/// tree with more than [`MAX_TREE_DEPTH`] levels below its root is not
/// copied.
fn build_tree(tree: &Tree, source: &str) -> (r: Result<SyntaxNode, DriverError>)
    requires
        source@ == tree_model(*tree).source,
    ensures
        match r {
            Ok(root) => !deeper(tree_model(*tree).root, MAX_TREE_DEPTH as nat) && root@
                == tree_model(*tree).root,
            Err(e) => e == DriverError::TooDeep && deeper(
                tree_model(*tree).root,
                MAX_TREE_DEPTH as nat,
            ),
        },
{
    let mut cursor = walk(tree);
    assert(position(cursor) =~= Seq::<int>::empty());
    copy_subtree(&mut cursor, source, MAX_TREE_DEPTH)
}

/// The syntax tree of a source text under a grammar. A grammar that the
/// parser does not accept, a text for which the parser builds no tree, and
/// a text whose tree has more than [`MAX_TREE_DEPTH`] levels below its root
/// give an error; any other text gives its full tree.
pub open spec fn syntax_of(grammar: Grammar, source: Seq<char>) -> Result<NodeModel, DriverError> {
    if !loads(grammar_code(grammar)) {
        Err(DriverError::Language)
    } else {
        match parsed(grammar_code(grammar), source) {
            Some(root) => if deeper(root, MAX_TREE_DEPTH as nat) {
                Err(DriverError::TooDeep)
            } else {
                Ok(root)
            },
            None => Err(DriverError::Parse),
        }
    }
}

/// Parses source text with the given grammar into a syntax tree.
pub fn parse_syntax(grammar: Grammar, source: &str) -> (r: Result<SyntaxNode, DriverError>)
    ensures
        match r {
            Ok(root) => syntax_of(grammar, source@) == Ok::<NodeModel, DriverError>(root@),
            Err(e) => syntax_of(grammar, source@) == Err::<NodeModel, DriverError>(e),
        },
{
    let language = match grammar {
        Grammar::Python => python_language(),
        Grammar::Rust => rust_language(),
    };
    let mut parser = new_parser();
    match set_language(&mut parser, &language) {
        Ok(_) => {},
        Err(_) => {
            return Err(DriverError::Language);
        },
    }
    match parse_text(&mut parser, source) {
        Some(tree) => build_tree(&tree, source),
        None => Err(DriverError::Parse),
    }
}

impl SyntaxNode {
    /// The text of the node; empty where it has none.
    pub open spec fn text_or_empty(&self) -> Seq<char> {
        match self.text {
            Some(t) => t@,
            None => Seq::empty(),
        }
    }

    /// Whether the node is of the given kind.
    pub open spec fn is_kind(&self, kind: Seq<char>) -> bool {
        self.kind@ == kind
    }

    /// The place of the first child of the given kind among the first `n`
    /// children; with `named_only`, anonymous children are passed over.
    pub open spec fn kind_index(&self, kind: Seq<char>, named_only: bool, n: nat) -> Option<int>
        decreases n,
    {
        if n == 0 {
            None
        } else {
            match self.kind_index(kind, named_only, (n - 1) as nat) {
                Some(at) => Some(at),
                None => if self.children@[n - 1].kind@ == kind && (!named_only
                    || self.children@[n - 1].named) {
                    Some(n - 1)
                } else {
                    None
                },
            }
        }
    }

    /// The place of the first child with the given role among the first `n`
    /// children.
    pub open spec fn field_index(&self, field: Seq<char>, n: nat) -> Option<int>
        decreases n,
    {
        if n == 0 {
            None
        } else {
            match self.field_index(field, (n - 1) as nat) {
                Some(at) => Some(at),
                None => if opt_text(self.children@[n - 1].field) == Some(field) {
                    Some(n - 1)
                } else {
                    None
                },
            }
        }
    }

    /// The place of the first named child among the first `n` children.
    pub open spec fn named_index(&self, n: nat) -> Option<int>
        decreases n,
    {
        if n == 0 {
            None
        } else {
            match self.named_index((n - 1) as nat) {
                Some(at) => Some(at),
                None => if self.children@[n - 1].named {
                    Some(n - 1)
                } else {
                    None
                },
            }
        }
    }

    /// The child of the given kind that comes first, if any.
    pub open spec fn child_of_kind(&self, kind: Seq<char>, named_only: bool) -> Option<int> {
        self.kind_index(kind, named_only, self.children@.len())
    }

    /// The child with the given role that comes first, if any.
    pub open spec fn child_by_field(&self, field: Seq<char>) -> Option<int> {
        self.field_index(field, self.children@.len())
    }

    /// The named child that comes first, if any.
    pub open spec fn first_named(&self) -> Option<int> {
        self.named_index(self.children@.len())
    }

    /// The text of the child with the given role, if there is such a child
    /// and it has text.
    pub open spec fn field_text(&self, field: Seq<char>) -> Option<Seq<char>> {
        match self.child_by_field(field) {
            Some(at) => opt_text(self.children@[at].text),
            None => None,
        }
    }

    /// Finds the first child of the given kind.
    pub fn find_kind(&self, kind: &str, named_only: bool) -> (r: Option<usize>)
        ensures
            match r {
                Some(at) => at < self.children@.len() && self.child_of_kind(kind@, named_only)
                    == Some(at as int),
                None => self.child_of_kind(kind@, named_only) is None,
            },
    {
        let mut found: Option<usize> = None;
        let mut i: usize = 0;
        while i < self.children.len()
            invariant
                i <= self.children.len(),
                match found {
                    Some(at) => at < i && self.kind_index(kind@, named_only, i as nat) == Some(
                        at as int,
                    ),
                    None => self.kind_index(kind@, named_only, i as nat) is None,
                },
            decreases self.children.len() - i,
        {
            if found.is_none() && str_eq(self.children[i].kind.as_str(), kind) && (!named_only
                || self.children[i].named) {
                found = Some(i);
            }
            i = i + 1;
        }
        found
    }

    /// Finds the first child with the given role.
    pub fn find_field(&self, field: &str) -> (r: Option<usize>)
        ensures
            match r {
                Some(at) => at < self.children@.len() && self.child_by_field(field@) == Some(
                    at as int,
                ),
                None => self.child_by_field(field@) is None,
            },
    {
        let mut found: Option<usize> = None;
        let mut i: usize = 0;
        while i < self.children.len()
            invariant
                i <= self.children.len(),
                match found {
                    Some(at) => at < i && self.field_index(field@, i as nat) == Some(at as int),
                    None => self.field_index(field@, i as nat) is None,
                },
            decreases self.children.len() - i,
        {
            if found.is_none() {
                let has = match &self.children[i].field {
                    Some(f) => str_eq(f.as_str(), field),
                    None => false,
                };
                if has {
                    found = Some(i);
                }
            }
            i = i + 1;
        }
        found
    }

    /// Finds the first named child.
    pub fn find_named(&self) -> (r: Option<usize>)
        ensures
            match r {
                Some(at) => at < self.children@.len() && self.first_named() == Some(at as int),
                None => self.first_named() is None,
            },
    {
        let mut found: Option<usize> = None;
        let mut i: usize = 0;
        while i < self.children.len()
            invariant
                i <= self.children.len(),
                match found {
                    Some(at) => at < i && self.named_index(i as nat) == Some(at as int),
                    None => self.named_index(i as nat) is None,
                },
            decreases self.children.len() - i,
        {
            if found.is_none() && self.children[i].named {
                found = Some(i);
            }
            i = i + 1;
        }
        found
    }

    /// Reads the text of the child with the given role.
    pub fn read_field(&self, field: &str) -> (r: Option<String>)
        ensures
            opt_text(r) == self.field_text(field@),
    {
        match self.find_field(field) {
            Some(at) => match &self.children[at].text {
                Some(t) => Some(t.clone()),
                None => None,
            },
            None => None,
        }
    }

    /// Tests the kind of the node.
    pub fn has_kind(&self, kind: &str) -> (r: bool)
        ensures
            r == self.is_kind(kind@),
    {
        str_eq(self.kind.as_str(), kind)
    }
}

/// The text of a field without the whitespace around it.
pub open spec fn trimmed_field(node: SyntaxNode, field: Seq<char>) -> Option<Seq<char>> {
    match node.field_text(field) {
        Some(text) => Some(trimmed(text)),
        None => None,
    }
}

/// Reads the text of a field and takes the whitespace around it away.
pub fn get_trimmed_field(node: &SyntaxNode, field: &str) -> (r: Option<String>)
    ensures
        opt_text(r) == trimmed_field(*node, field@),
{
    match node.read_field(field) {
        Some(text) => Some(trim(text.as_str())),
        None => None,
    }
}

} // verus!
