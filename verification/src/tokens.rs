//! Token streams as the verifier sees them.
//!
//! A `proc_macro2::TokenStream` is opaque to the verifier. This module names
//! what a stream holds, as a sequence of [`Tree`] values, and states for each
//! operation of `proc_macro2`, `quote` and `syn` that the library calls what it
//! does to that sequence. Those statements are trusted, not proved.

use proc_macro2::{Delimiter, Group, Ident, Literal, Punct, Spacing, Span, TokenStream};
use quote::{ToTokens, TokenStreamExt};
use syn::ItemFn;
use vstd::prelude::*;

verus! {

#[verifier::external_type_specification]
#[verifier::external_body]
pub struct ExTokenStream(proc_macro2::TokenStream);

#[verifier::external_type_specification]
#[verifier::external_body]
pub struct ExItemFn(syn::ItemFn);

#[verifier::external_type_specification]
#[verifier::external_body]
pub struct ExSynError(syn::Error);

/// How a group of token trees is delimited.
#[derive(Clone, Copy, Debug, PartialEq, Eq)]
pub enum Delim {
    /// `( ... )`
    Parenthesis,
    /// `{ ... }`
    Brace,
    /// `[ ... ]`
    Bracket,
    /// A delimiter that is not written.
    Invisible,
}

/// One token tree: what it is and what it holds, without its span.
pub enum Tree {
    /// An identifier, by its text.
    Ident(Seq<char>),
    /// One punctuation character, and whether it is joined to the next one.
    Punct(char, bool),
    /// A literal, by its text as written in source.
    Literal(Seq<char>),
    /// A delimited sequence of token trees.
    Group(Delim, Seq<Tree>),
}

/// What a parsed function item holds, as far as the entry point is built
/// from it.
pub struct FnModel {
    /// The tokens of the function's visibility; empty for a private function.
    pub vis: Seq<Tree>,
    /// The function's name.
    pub name: Seq<char>,
    /// The tokens of the whole item.
    pub tokens: Seq<Tree>,
}

/// The token trees that a stream holds, in order.
pub uninterp spec fn stream_trees(tokens: TokenStream) -> Seq<Tree>;

/// The token trees that a function item prints as.
pub uninterp spec fn item_trees(item: ItemFn) -> Seq<Tree>;

/// The token trees that the visibility of a function item prints as.
pub uninterp spec fn item_vis(item: ItemFn) -> Seq<Tree>;

/// The text of the name of a function item.
pub uninterp spec fn item_name(item: ItemFn) -> Seq<char>;

/// What `syn` makes of a sequence of token trees when asked for a function
/// item: the item, or `None` where the trees are not exactly one such item.
pub uninterp spec fn parsed_fn(tokens: Seq<Tree>) -> Option<FnModel>;

/// What a function item holds.
pub open spec fn fn_model(item: ItemFn) -> FnModel {
    FnModel { vis: item_vis(item), name: item_name(item), tokens: item_trees(item) }
}

/// An ASCII letter, an ASCII digit or an underscore.
pub open spec fn is_word_char(c: char) -> bool {
    ||| 'a' <= c <= 'z'
    ||| 'A' <= c <= 'Z'
    ||| '0' <= c <= '9'
    ||| c == '_'
}

/// A nonempty run of word characters that does not start with a digit. Every
/// such text is an identifier or a keyword of the language.
pub open spec fn is_word(s: Seq<char>) -> bool {
    &&& s.len() > 0
    &&& !('0' <= s[0] <= '9')
    &&& forall|i: int| 0 <= i < s.len() ==> is_word_char(#[trigger] s[i])
}

/// Whether every character of `s` is a word character: such a text is
/// written between double quotes as it stands.
pub open spec fn is_plain_text(s: Seq<char>) -> bool {
    forall|i: int| 0 <= i < s.len() ==> is_word_char(#[trigger] s[i])
}

/// The characters that `proc_macro2` accepts as punctuation.
pub open spec fn is_punct_char(c: char) -> bool {
    ||| c == '!'
    ||| c == '#'
    ||| c == '$'
    ||| c == '%'
    ||| c == '&'
    ||| c == '\''
    ||| c == '*'
    ||| c == '+'
    ||| c == ','
    ||| c == '-'
    ||| c == '.'
    ||| c == '/'
    ||| c == ':'
    ||| c == ';'
    ||| c == '<'
    ||| c == '='
    ||| c == '>'
    ||| c == '?'
    ||| c == '@'
    ||| c == '^'
    ||| c == '|'
    ||| c == '~'
}

/// The string literal whose value is the plain text `value`.
pub open spec fn string_literal(value: Seq<char>) -> Tree {
    Tree::Literal(seq!['"'] + value + seq!['"'])
}

/// `proc_macro2::TokenStream::new` returns a stream without token trees.
pub assume_specification[ proc_macro2::TokenStream::new ]() -> (tokens: proc_macro2::TokenStream)
    ensures
        stream_trees(tokens) == Seq::<Tree>::empty(),
;

/// `proc_macro2::TokenStream::is_empty` tells whether the stream holds no
/// token tree.
pub assume_specification[ proc_macro2::TokenStream::is_empty ](
    tokens: &proc_macro2::TokenStream,
) -> (empty: bool)
    ensures
        empty == (stream_trees(*tokens).len() == 0),
;

/// Appends the identifier `name`, made by `proc_macro2::Ident::new` with the
/// span of the call site, through `quote::TokenStreamExt::append`. The stream
/// gains that one tree at its end. `Ident::new` panics on a text that is no
/// identifier, so only words are admitted.
#[verifier::external_body]
pub(crate) fn push_ident(tokens: &mut TokenStream, name: &str)
    requires
        is_word(name@),
    ensures
        stream_trees(*final(tokens)) == stream_trees(*old(tokens)).push(Tree::Ident(name@)),
{
    tokens.append(Ident::new(name, Span::call_site()));
}

/// Appends the punctuation character `ch`, made by `proc_macro2::Punct::new`,
/// through `quote::TokenStreamExt::append`. The stream gains that one tree at
/// its end. `Punct::new` panics on any other character than those of
/// `is_punct_char`.
#[verifier::external_body]
pub(crate) fn push_punct(tokens: &mut TokenStream, ch: char, joint: bool)
    requires
        is_punct_char(ch),
    ensures
        stream_trees(*final(tokens)) == stream_trees(*old(tokens)).push(Tree::Punct(ch, joint)),
{
    let spacing = if joint { Spacing::Joint } else { Spacing::Alone };
    tokens.append(Punct::new(ch, spacing));
}

/// Appends the string literal of `value`, made by
/// `proc_macro2::Literal::string`, through `quote::TokenStreamExt::append`.
/// The stream gains that one tree at its end. A value of word characters
/// needs no escape, so the literal is the value between double quotes.
#[verifier::external_body]
pub(crate) fn push_string(tokens: &mut TokenStream, value: &str)
    requires
        is_plain_text(value@),
    ensures
        stream_trees(*final(tokens)) == stream_trees(*old(tokens)).push(string_literal(value@)),
{
    tokens.append(Literal::string(value));
}

/// Appends the group that `proc_macro2::Group::new` makes of `inner`, through
/// `quote::TokenStreamExt::append`. The stream gains that one tree at its end.
#[verifier::external_body]
pub(crate) fn push_group(tokens: &mut TokenStream, delim: Delim, inner: TokenStream)
    ensures
        stream_trees(*final(tokens)) == stream_trees(*old(tokens)).push(
            Tree::Group(delim, stream_trees(inner)),
        ),
{
    let delimiter = match delim {
        Delim::Parenthesis => Delimiter::Parenthesis,
        Delim::Brace => Delimiter::Brace,
        Delim::Bracket => Delimiter::Bracket,
        Delim::Invisible => Delimiter::None,
    };
    tokens.append(Group::new(delimiter, inner));
}

/// Appends the visibility of `item` by `quote::ToTokens::to_tokens`, which
/// writes the trees that the visibility prints as after those of the stream.
#[verifier::external_body]
pub(crate) fn push_vis(tokens: &mut TokenStream, item: &ItemFn)
    ensures
        stream_trees(*final(tokens)) == stream_trees(*old(tokens)) + item_vis(*item),
{
    item.vis.to_tokens(tokens);
}

/// Appends the name of `item` by `quote::ToTokens::to_tokens`, which for an
/// identifier appends a copy of it.
#[verifier::external_body]
pub(crate) fn push_name(tokens: &mut TokenStream, item: &ItemFn)
    ensures
        stream_trees(*final(tokens)) == stream_trees(*old(tokens)).push(
            Tree::Ident(item_name(*item)),
        ),
{
    item.sig.ident.to_tokens(tokens);
}

/// Appends the whole of `item` by `quote::ToTokens::to_tokens`, which writes
/// the trees that the item prints as after those of the stream.
#[verifier::external_body]
pub(crate) fn push_item(tokens: &mut TokenStream, item: &ItemFn)
    ensures
        stream_trees(*final(tokens)) == stream_trees(*old(tokens)) + item_trees(*item),
{
    item.to_tokens(tokens);
}

/// Parses `tokens` as one function item with `syn::parse2`. Whether that
/// succeeds, and what the item then holds, depends on the token trees alone.
#[verifier::external_body]
pub(crate) fn parse_item_fn(tokens: TokenStream) -> (res: Result<ItemFn, syn::Error>)
    ensures
        res is Ok <==> parsed_fn(stream_trees(tokens)) is Some,
        res matches Ok(item) ==> parsed_fn(stream_trees(tokens)) == Some(fn_model(item)),
{
    syn::parse2::<ItemFn>(tokens)
}

} // verus!
