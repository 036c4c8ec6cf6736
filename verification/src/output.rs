//! What is printed for a token: the token alone, or the record's template
//! with the token and the record's values put in.

use crate::config::TokenConfig;
use crate::decimal::{decimal, format_decimal};
use std::collections::HashMap;
use strfmt::FmtError;
use vstd::prelude::*;
use vstd::string::StringExecFns;

verus! {

/// Why a template could not be expanded. Each variant carries the sentence
/// that the template engine gave.
#[derive(Debug)]
pub enum FormatError {
    /// The template is not well formed.
    Invalid(String),
    /// The template names a variable that is not on offer.
    UnknownVariable(String),
    /// The template asks of a variable a form that text does not have.
    Type(String),
}

/// The text that `strfmt::strfmt` makes of `template` when each name of
/// `vars` stands for the value beside it, or `None` where it reports an
/// error. The expansion depends on the template and the variables alone.
pub uninterp spec fn template_expansion(
    template: Seq<char>,
    vars: Seq<(Seq<char>, Seq<char>)>,
) -> Option<Seq<char>>;

/// No name occurs twice among the variables.
pub open spec fn distinct_names(vars: Seq<(Seq<char>, Seq<char>)>) -> bool {
    forall|i: int, j: int|
        0 <= i < j < vars.len() ==> (#[trigger] vars[i]).0 != (#[trigger] vars[j]).0
}

/// Expands `template` with the variables `vars`, each a name and its value.
///
/// Trusted, not proved: the body collects the pairs into the `HashMap` that
/// `strfmt::strfmt` takes, calls it, and sorts its `FmtError` into
/// [`FormatError`], variant by variant. The contract claims that the text
/// returned is the one named [`template_expansion`] of the template and the
/// pairs, and that an error comes back exactly where that is `None`. `strfmt`
/// looks each name up in the map and never walks the map, so the expansion
/// does not depend on the map's order. The names are to be distinct, so that
/// the map holds exactly the pairs given. `strfmt` answers every template,
/// well formed or not; a field is made as wide as the template asks.
#[verifier::external_body]
fn expand_template(
    template: &str,
    vars: &Vec<(String, String)>,
) -> (result: Result<String, FormatError>)
    requires
        distinct_names(vars.deep_view()),
    ensures
        match result {
            Ok(text) => template_expansion(template@, vars.deep_view()) == Some(text@),
            Err(_) => template_expansion(template@, vars.deep_view()) is None,
        },
{
    let map: HashMap<String, String> = vars.iter().cloned().collect();
    match strfmt::strfmt(template, &map) {
        Ok(text) => Ok(text),
        Err(FmtError::Invalid(reason)) => Err(FormatError::Invalid(reason)),
        Err(FmtError::KeyError(reason)) => Err(FormatError::UnknownVariable(reason)),
        Err(FmtError::TypeError(reason)) => Err(FormatError::Type(reason)),
    }
}

/// The variables that a template can name: the token's name, the record's
/// secret, digits and timestep, and the token itself.
pub open spec fn output_vars(
    id: Seq<char>,
    config: &TokenConfig,
    token: Seq<char>,
) -> Seq<(Seq<char>, Seq<char>)> {
    seq![
        ("id"@, id),
        ("secret"@, config.secret@),
        ("digits"@, decimal(config.digits as nat)),
        ("timestep"@, decimal(config.timestep as nat)),
        ("token"@, token),
    ]
}

/// What is printed for `token`: the token itself where formatting is to be
/// ignored or the record has no template, else the expansion of the record's
/// template; `None` where the template cannot be expanded.
pub open spec fn output_text(
    id: Seq<char>,
    config: &TokenConfig,
    token: Seq<char>,
    ignore_formatting: bool,
) -> Option<Seq<char>> {
    if ignore_formatting {
        Some(token)
    } else {
        match config.format {
            Some(template) => template_expansion(template@, output_vars(id, config, token)),
            None => Some(token),
        }
    }
}

/// The five names that a template can use differ from each other.
pub proof fn lemma_output_vars_distinct(id: Seq<char>, config: &TokenConfig, token: Seq<char>)
    ensures
        distinct_names(output_vars(id, config, token)),
{
    reveal_strlit("id");
    reveal_strlit("secret");
    reveal_strlit("digits");
    reveal_strlit("timestep");
    reveal_strlit("token");
    let vars = output_vars(id, config, token);
    assert(vars[0].0.len() == 2);
    assert(vars[1].0.len() == 6 && vars[1].0[0] == 's');
    assert(vars[2].0.len() == 6 && vars[2].0[0] == 'd');
    assert(vars[3].0.len() == 8);
    assert(vars[4].0.len() == 5);
}

/// Makes the text to print for the token `token` of the record `config`,
/// which the user knows as `id`.
pub fn render_output(
    id: &str,
    config: &TokenConfig,
    token: &str,
    ignore_formatting: bool,
) -> (result: Result<String, FormatError>)
    ensures
        match result {
            Ok(text) => output_text(id@, config, token@, ignore_formatting) == Some(text@),
            Err(_) => output_text(id@, config, token@, ignore_formatting) is None,
        },
{
    if ignore_formatting {
        return Ok(String::from_str(token));
    }
    match &config.format {
        None => Ok(String::from_str(token)),
        Some(template) => {
            let mut vars: Vec<(String, String)> = Vec::new();
            vars.push((String::from_str("id"), String::from_str(id)));
            vars.push((String::from_str("secret"), config.secret.clone()));
            vars.push((String::from_str("digits"), format_decimal(config.digits as u64)));
            vars.push((String::from_str("timestep"), format_decimal(config.timestep)));
            vars.push((String::from_str("token"), String::from_str(token)));
            proof {
                assert(vars.deep_view() =~= output_vars(id@, config, token@));
                lemma_output_vars_distinct(id@, config, token@);
            }
            expand_template(template.as_str(), &vars)
        },
    }
}

} // verus!
