//! The formatter: a cosmetic pass over generated Lua, done by StyLua.

use vstd::prelude::*;

verus! {

/// `stylua_lib::Error`, the error that the formatter returns. Nothing is
/// read from it.
#[verifier::external_type_specification]
#[verifier::external_body]
pub struct ExStyluaError(stylua_lib::Error);

/// What `stylua_lib::format_code` makes of a text under its default
/// configuration, over the whole text and without verifying its output: the
/// formatted text, or nothing where it refuses the text.
pub uninterp spec fn stylua_formatted(code: Seq<char>) -> Option<Seq<char>>;

/// Formats Lua text with `stylua_lib::format_code`.
///
/// The formatter parses the text and prints it anew; what it returns depends
/// on the text and on the configuration alone, and the configuration is
/// fixed here to the default one. The contract gives that result its name
/// and claims nothing more of it.
#[verifier::external_body]
pub(crate) fn format_lua(code: &str) -> (r: Result<String, stylua_lib::Error>)
    ensures
        match r {
            Ok(text) => stylua_formatted(code@) == Some(text@),
            Err(_) => stylua_formatted(code@) is None,
        },
{
    stylua_lib::format_code(
        code,
        stylua_lib::Config::default(),
        None,
        stylua_lib::OutputVerification::None,
    )
}

} // verus!
