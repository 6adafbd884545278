//! The entry point of a syscall program.
//!
//! The kernel enters a program through a function with a fixed shape: it
//! takes one pointer to untyped memory, returns a signed 64-bit integer, keeps
//! the name that its author gave it, and lies in the section `syscall`, by
//! which a loader tells the kind of the program. [`Syscall::expand`] writes
//! such a function around the one that the author wrote, and
//! [`entry_point`] says which token trees it consists of.

use crate::tokens::{
    fn_model, is_word, parse_item_fn, parsed_fn, push_group, push_ident, push_item, push_name,
    push_punct, push_string, push_vis, stream_trees, string_literal, Delim, FnModel, Tree,
};
use proc_macro2::TokenStream;
use syn::ItemFn;
use vstd::prelude::*;

verus! {

/// Why no entry point was made.
#[derive(Debug)]
pub enum MacroError {
    /// The attribute was given arguments; it takes none.
    UnexpectedAttribute,
    /// The annotated item is not a function.
    Syntax(syn::Error),
}

/// A function that is to become the entry point of a syscall program.
pub struct Syscall {
    item: ItemFn,
}

impl View for Syscall {
    type V = FnModel;

    closed spec fn view(&self) -> FnModel {
        fn_model(self.item)
    }
}

/// The identifier or keyword `word`.
pub open spec fn word(text: &str) -> Tree {
    Tree::Ident(text@)
}

/// The punctuation character `ch`, followed by something else than
/// punctuation that belongs to it.
pub open spec fn punct(ch: char) -> Tree {
    Tree::Punct(ch, false)
}

/// The path separator `::`.
pub open spec fn path_sep() -> Seq<Tree> {
    seq![Tree::Punct(':', true), Tree::Punct(':', false)]
}

/// One more segment of a path: `::` and a name.
pub open spec fn segment(name: &str) -> Seq<Tree> {
    path_sep().push(word(name))
}

/// The attribute `#[inner]`.
pub open spec fn attribute(inner: Seq<Tree>) -> Seq<Tree> {
    seq![punct('#'), Tree::Group(Delim::Bracket, inner)]
}

/// `#[no_mangle]`: the entry point is found under the name it was given.
pub open spec fn no_mangle() -> Seq<Tree> {
    attribute(seq![word("no_mangle")])
}

/// `#[link_section = "syscall"]`: the section by which a loader tells that
/// the program is a syscall program.
pub open spec fn link_section() -> Seq<Tree> {
    attribute(seq![word("link_section"), punct('='), string_literal("syscall"@)])
}

/// `#[inline(always)]`: the author's function leaves no symbol of its own.
pub open spec fn inline_always() -> Seq<Tree> {
    attribute(seq![word("inline"), Tree::Group(Delim::Parenthesis, seq![word("always")])])
}

/// The one parameter of an entry point: `ctx: *mut ::core::ffi::c_void`.
pub open spec fn context_parameter() -> Seq<Tree> {
    seq![word("ctx"), punct(':'), punct('*'), word("mut")] + segment("core") + segment("ffi")
        + segment("c_void")
}

/// The head of the entry point, after its visibility:
/// `fn name(ctx: *mut ::core::ffi::c_void) -> i64`.
pub open spec fn signature(name: Seq<char>) -> Seq<Tree> {
    seq![
        word("fn"),
        Tree::Ident(name),
        Tree::Group(Delim::Parenthesis, context_parameter()),
        Tree::Punct('-', true),
        punct('>'),
        word("i64"),
    ]
}

/// The arguments of the forwarding call:
/// `::aya_ebpf::programs::SyscallContext::new(ctx)`.
pub open spec fn context_argument() -> Seq<Tree> {
    (segment("aya_ebpf") + segment("programs") + segment("SyscallContext") + segment("new")).push(
        Tree::Group(Delim::Parenthesis, seq![word("ctx")]),
    )
}

/// The one statement of the entry point: it wraps the pointer in a context
/// and returns what the author's function makes of it.
pub open spec fn forward(name: Seq<char>) -> Seq<Tree> {
    seq![
        word("return"),
        Tree::Ident(name),
        Tree::Group(Delim::Parenthesis, context_argument()),
        punct(';'),
    ]
}

/// The body of the entry point: the forwarding statement, then the author's
/// function as it was written, marked to be inlined.
pub open spec fn body(f: FnModel) -> Seq<Tree> {
    forward(f.name) + inline_always() + f.tokens
}

/// The entry point that is made for the function `f`.
pub open spec fn entry_point(f: FnModel) -> Seq<Tree> {
    no_mangle() + link_section() + f.vis + signature(f.name) + seq![
        Tree::Group(Delim::Brace, body(f)),
    ]
}

/// Whatever function it is made for, an entry point has one shape: the two
/// attributes that export it and place it in its section, the visibility
/// of the function, then a function of the same name that takes one pointer
/// to untyped memory and returns a signed 64-bit integer, and whose body
/// forwards to the function as it was written.
pub proof fn lemma_entry_point_shape(f: FnModel)
    ensures
        entry_point(f).len() == f.vis.len() + 11,
        entry_point(f).subrange(0, 4) == no_mangle() + link_section(),
        entry_point(f).subrange(4, 4 + f.vis.len() as int) == f.vis,
        entry_point(f).subrange(4 + f.vis.len() as int, 10 + f.vis.len() as int) == signature(f.name),
        signature(f.name)[1] == Tree::Ident(f.name),
        signature(f.name)[2] == Tree::Group(Delim::Parenthesis, context_parameter()),
        signature(f.name)[5] == word("i64"),
        entry_point(f)[10 + f.vis.len() as int] == Tree::Group(Delim::Brace, body(f)),
        body(f).len() == 6 + f.tokens.len(),
        body(f).subrange(0, 4) == forward(f.name),
        forward(f.name)[1] == Tree::Ident(f.name),
        body(f).subrange(6, 6 + f.tokens.len() as int) == f.tokens,
{
}

/// Two functions get the same entry point only if they have the same
/// visibility and name and are written with the same tokens.
pub proof fn lemma_entry_point_tells_functions_apart(f: FnModel, g: FnModel)
    requires
        entry_point(f) == entry_point(g),
    ensures
        f == g,
{
    lemma_entry_point_shape(f);
    lemma_entry_point_shape(g);
    assert(f.vis.len() == g.vis.len());
    assert(f.vis == g.vis);
    assert(body(f) == body(g)) by {
        assert(entry_point(f)[10 + f.vis.len() as int] == entry_point(g)[10 + g.vis.len() as int]);
    }
    assert(f.name == g.name) by {
        assert(forward(f.name) == forward(g.name));
        assert(forward(f.name)[1] == forward(g.name)[1]);
    }
    assert(f.tokens == g.tokens) by {
        assert(body(f).len() == body(g).len());
    }
}

fn push_path_sep(tokens: &mut TokenStream)
    ensures
        stream_trees(*final(tokens)) == stream_trees(*old(tokens)) + path_sep(),
{
    push_punct(tokens, ':', true);
    push_punct(tokens, ':', false);
}

fn push_segment(tokens: &mut TokenStream, name: &str)
    requires
        is_word(name@),
    ensures
        stream_trees(*final(tokens)) == stream_trees(*old(tokens)) + segment(name),
{
    push_path_sep(tokens);
    push_ident(tokens, name);
}

fn push_attribute(tokens: &mut TokenStream, inner: TokenStream)
    ensures
        stream_trees(*final(tokens)) == stream_trees(*old(tokens)) + attribute(
            stream_trees(inner),
        ),
{
    push_punct(tokens, '#', false);
    push_group(tokens, Delim::Bracket, inner);
}

fn push_no_mangle(tokens: &mut TokenStream)
    ensures
        stream_trees(*final(tokens)) == stream_trees(*old(tokens)) + no_mangle(),
{
    proof {
        reveal_strlit("no_mangle");
    }
    let mut inner = TokenStream::new();
    push_ident(&mut inner, "no_mangle");
    push_attribute(tokens, inner);
}

fn push_link_section(tokens: &mut TokenStream)
    ensures
        stream_trees(*final(tokens)) == stream_trees(*old(tokens)) + link_section(),
{
    proof {
        reveal_strlit("link_section");
        reveal_strlit("syscall");
    }
    let mut inner = TokenStream::new();
    push_ident(&mut inner, "link_section");
    push_punct(&mut inner, '=', false);
    push_string(&mut inner, "syscall");
    assert(stream_trees(inner) == seq![
        word("link_section"),
        punct('='),
        string_literal("syscall"@),
    ]);
    push_attribute(tokens, inner);
}

fn push_inline_always(tokens: &mut TokenStream)
    ensures
        stream_trees(*final(tokens)) == stream_trees(*old(tokens)) + inline_always(),
{
    proof {
        reveal_strlit("inline");
        reveal_strlit("always");
    }
    let mut how = TokenStream::new();
    push_ident(&mut how, "always");
    let mut inner = TokenStream::new();
    push_ident(&mut inner, "inline");
    push_group(&mut inner, Delim::Parenthesis, how);
    assert(stream_trees(inner) == seq![
        word("inline"),
        Tree::Group(Delim::Parenthesis, seq![word("always")]),
    ]);
    push_attribute(tokens, inner);
}

fn context_parameter_tokens() -> (tokens: TokenStream)
    ensures
        stream_trees(tokens) == context_parameter(),
{
    proof {
        reveal_strlit("ctx");
        reveal_strlit("mut");
        reveal_strlit("core");
        reveal_strlit("ffi");
        reveal_strlit("c_void");
    }
    let mut tokens = TokenStream::new();
    push_ident(&mut tokens, "ctx");
    push_punct(&mut tokens, ':', false);
    push_punct(&mut tokens, '*', false);
    push_ident(&mut tokens, "mut");
    push_segment(&mut tokens, "core");
    push_segment(&mut tokens, "ffi");
    push_segment(&mut tokens, "c_void");
    tokens
}

fn context_argument_tokens() -> (tokens: TokenStream)
    ensures
        stream_trees(tokens) == context_argument(),
{
    proof {
        reveal_strlit("ctx");
        reveal_strlit("aya_ebpf");
        reveal_strlit("programs");
        reveal_strlit("SyscallContext");
        reveal_strlit("new");
    }
    let mut pointer = TokenStream::new();
    push_ident(&mut pointer, "ctx");
    let mut tokens = TokenStream::new();
    push_segment(&mut tokens, "aya_ebpf");
    push_segment(&mut tokens, "programs");
    push_segment(&mut tokens, "SyscallContext");
    push_segment(&mut tokens, "new");
    push_group(&mut tokens, Delim::Parenthesis, pointer);
    tokens
}

impl Syscall {
    /// Reads the function that the attribute stands on. The attribute takes no
    /// arguments: with any, nothing is read. Otherwise the result is what
    /// `syn` makes of `item`.
    pub fn parse(attrs: TokenStream, item: TokenStream) -> (res: Result<Syscall, MacroError>)
        ensures
            stream_trees(attrs).len() > 0 ==> res matches Err(MacroError::UnexpectedAttribute),
            stream_trees(attrs).len() == 0 ==> match parsed_fn(stream_trees(item)) {
                Some(f) => res matches Ok(syscall) && syscall@ == f,
                None => res matches Err(MacroError::Syntax(_)),
            },
    {
        if !attrs.is_empty() {
            return Err(MacroError::UnexpectedAttribute);
        }
        Syscall::from_parsed(parse_item_fn(item))
    }

    /// Takes what `syn` made of the annotated item: the function, or the
    /// reason why there is none.
    pub fn from_parsed(parsed: Result<ItemFn, syn::Error>) -> (res: Result<Syscall, MacroError>)
        ensures
            match parsed {
                Ok(item) => res matches Ok(syscall) && syscall@ == fn_model(item),
                Err(error) => res matches Err(MacroError::Syntax(e)) && e == error,
            },
    {
        match parsed {
            Ok(item) => Ok(Syscall { item }),
            Err(error) => Err(MacroError::Syntax(error)),
        }
    }

    /// Writes the entry point around the function: see [`entry_point`]. There
    /// is an entry point for every function.
    pub fn expand(&self) -> (res: Result<TokenStream, syn::Error>)
        ensures
            res matches Ok(tokens) && stream_trees(tokens) == entry_point(self@),
    {
        proof {
            reveal_strlit("return");
            reveal_strlit("fn");
            reveal_strlit("i64");
        }
        let mut inner = TokenStream::new();
        push_ident(&mut inner, "return");
        push_name(&mut inner, &self.item);
        push_group(&mut inner, Delim::Parenthesis, context_argument_tokens());
        push_punct(&mut inner, ';', false);
        assert(stream_trees(inner) == forward(self@.name));
        push_inline_always(&mut inner);
        push_item(&mut inner, &self.item);
        assert(stream_trees(inner) == body(self@));

        let mut tokens = TokenStream::new();
        push_no_mangle(&mut tokens);
        push_link_section(&mut tokens);
        push_vis(&mut tokens, &self.item);
        let ghost head = stream_trees(tokens);
        assert(head == no_mangle() + link_section() + self@.vis);
        push_ident(&mut tokens, "fn");
        push_name(&mut tokens, &self.item);
        push_group(&mut tokens, Delim::Parenthesis, context_parameter_tokens());
        push_punct(&mut tokens, '-', true);
        push_punct(&mut tokens, '>', false);
        push_ident(&mut tokens, "i64");
        assert(stream_trees(tokens) == head + signature(self@.name));
        push_group(&mut tokens, Delim::Brace, inner);
        Ok(tokens)
    }
}

} // verus!
