//! Shared emission helper for the call forms.

use vstd::prelude::*;

use crate::syntax::{strings_view, ArgTokens, MacroCallExpr, MacroCallView};

verus! {

/// Builds the surface syntax of a function-like call with parenthesized
/// arguments: the given leading annotations, then the keyword as a bare
/// name, then the argument fragment between parentheses.
pub fn to_tokens_function_like_macro_parenthesis(
    name: String,
    arguments: ArgTokens,
    attributes: Vec<String>,
) -> (r: MacroCallExpr)
    ensures
        r@ == (MacroCallView {
            attributes: strings_view(attributes@),
            path: seq![name@],
            tokens: arguments@,
        }),
{
    let ghost n = name@;
    let mut path: Vec<String> = Vec::new();
    path.push(name);
    let r = MacroCallExpr { attributes, path, tokens: arguments };
    proof {
        assert(strings_view(r.path@) =~= seq![n]);
    }
    r
}

} // verus!
