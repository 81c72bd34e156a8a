//! The calls into other crates, each behind a function whose contract is
//! taken on trust from the source of the crate it calls.

use vstd::prelude::*;
use crate::text::ends_with;

verus! {

/// Whether `input` begins with a tilde that stands alone or before a
/// separator of path components, the only tilde that is ever expanded.
pub open spec fn has_tilde_prefix(input: Seq<char>) -> bool {
    input.len() >= 1 && input[0] == '~' && (input.len() == 1 || input[1] == '/' || input[1]
        == '\\')
}

/// What is known of the expansion `out` of `input` on every machine.
///
/// A text without a tilde prefix is left as it is. In a text with one, the
/// tilde gives way to the home directory, whatever that is, and the rest
/// stays; where no home directory is known the text is left as it is, which
/// also ends with the rest.
pub open spec fn may_expand_to(input: Seq<char>, out: Seq<char>) -> bool {
    if has_tilde_prefix(input) {
        ends_with(out, input.skip(1))
    } else {
        out == input
    }
}

/// Expands a leading tilde into the user's home directory by a call of
/// `shellexpand::tilde`.
///
/// Trusted: the result depends on the environment of the process, so the
/// contract states only what `may_expand_to` says of every outcome. It is
/// read off `tilde_with_context` in the source of the crate: the input is
/// returned unchanged unless it starts with `~` followed by nothing, by `/`
/// or, on Windows, by `\`; then the home directory replaces the tilde where
/// one is known.
#[verifier::external_body]
pub(crate) fn expand_tilde(input: &str) -> (out: String)
    ensures
        may_expand_to(input@, out@),
{
    shellexpand::tilde(input).into_owned()
}

/// The number under which `egui` knows the key called `name`, or `None`
/// where it knows no key of that name: the position of the key that
/// `egui::Key::from_name` returns among the variants of `egui::Key`.
pub uninterp spec fn key_named(name: Seq<char>) -> Option<u8>;

/// Looks a key up by its name with `egui::Key::from_name` and hands out the
/// key as the number of its variant.
///
/// Trusted: the table of names is the one in the source of `egui`, a
/// function of the name alone; the contract gives its result the name
/// `key_named` and claims nothing else of it.
#[verifier::external_body]
pub(crate) fn key_from_name(name: &str) -> (key: Option<u8>)
    ensures
        key == key_named(name@),
{
    match egui::Key::from_name(name) {
        Some(key) => Some(key as u8),
        None => None,
    }
}

/// The HTML that `pulldown_cmark` renders the markdown text `markdown`
/// to, with the options it starts with: what `pulldown_cmark::html::push_html`
/// writes for the events of `pulldown_cmark::Parser::new(markdown)`.
pub uninterp spec fn rendered_html(markdown: Seq<char>) -> Seq<char>;

/// Renders markdown to HTML with `pulldown_cmark::html::push_html`, on the
/// events that `pulldown_cmark::Parser::new` reads from the text.
///
/// Trusted: the rendering is a function of the text alone, far too long
/// to state; the contract gives its result the name `rendered_html` and
/// claims nothing else of it.
#[verifier::external_body]
pub(crate) fn render_html(markdown: &str) -> (html: String)
    ensures
        html@ == rendered_html(markdown@),
{
    let mut html = String::new();
    pulldown_cmark::html::push_html(&mut html, pulldown_cmark::Parser::new(markdown));
    html
}

} // verus!
