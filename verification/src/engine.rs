//! Trusted surface over the external task engine.
//!
//! The console core delegates the task-script grammar to the engine's
//! parser and treats a parsed unit as opaque.  Everything the verified
//! code assumes about the engine is collected here.
//!
//! The engine's own script entry re-parses leftover tokens merely to
//! build an error and faults when that re-parse succeeds (two tasks on
//! one line), and its date, time and datetime readers fault on lexable
//! but out-of-range values.  The parse wrapper here therefore reports
//! the leftover instead of re-parsing it, and demands — via the named
//! verdicts below, which the driver checks first — that every lexed
//! date-like value is one the engine accepts.

use vstd::prelude::*;

verus! {

/// Declares the engine's parsed unit type; the driver only queues these
/// values and hands them back out, so the type stays opaque.
#[verifier::external_type_specification]
#[verifier::external_body]
pub struct ExTask(nadi_core::tasks::Task);

/// Declares the engine's keyword type so that token values can be
/// inspected; a field-free enum, left transparent.
#[verifier::external_type_specification]
pub struct ExTaskKeyword(nadi_core::tasks::TaskKeyword);

/// Declares the engine's token-kind type transparently: the highlighter
/// classifies tokens by matching on these variants.
#[verifier::external_type_specification]
pub struct ExTaskToken(nadi_core::parser::tokenizer::TaskToken);

/// Declares the engine's token type transparently: a kind plus the exact
/// slice of input text it covers.
#[verifier::external_type_specification]
pub struct ExToken<'a>(nadi_core::parser::tokenizer::Token<'a>);

/// Declares the label template type; parsed templates are only stored and
/// handed back to the caller for rendering, so the type stays opaque.
#[verifier::external_type_specification]
#[verifier::external_body]
pub struct ExTemplate(nadi_core::string_template::Template);

/// The engine's date reader accepts this text (a lexed date token can
/// still name an impossible date, which the reader rejects).
pub uninterp spec fn spec_date_ok(s: Seq<char>) -> bool;

/// The engine's time reader accepts this text.
pub uninterp spec fn spec_time_ok(s: Seq<char>) -> bool;

/// The engine's datetime reader accepts this text.
pub uninterp spec fn spec_datetime_ok(s: Seq<char>) -> bool;

/// One token's date-like text, if it has one, is acceptable to the
/// engine's readers.
pub open spec fn token_date_ok(t: nadi_core::parser::tokenizer::Token<'_>) -> bool {
    match t.ty {
        nadi_core::parser::tokenizer::TaskToken::Date => spec_date_ok(t.content@),
        nadi_core::parser::tokenizer::TaskToken::Time => spec_time_ok(t.content@),
        nadi_core::parser::tokenizer::TaskToken::DateTime => spec_datetime_ok(t.content@),
        _ => true,
    }
}

/// Every date, time and datetime token of the stream carries text the
/// engine's readers accept.
pub open spec fn tokens_dates_ok(tokens: Seq<nadi_core::parser::tokenizer::Token<'_>>) -> bool {
    forall|i: int| 0 <= i < tokens.len() ==> token_date_ok(#[trigger] tokens[i])
}

/// Every date-like value the script lexes into is one the engine's
/// readers accept.  The tokenizer is deterministic, so this is a
/// property of the script text alone.
pub uninterp spec fn spec_dates_ok(script: Seq<char>) -> bool;

/// The script is grammatical: the engine's parser turns it into a task
/// list with nothing left over.
pub uninterp spec fn spec_parse_ok(script: Seq<char>) -> bool;

/// Relies on `nadi_core::parser::tokenizer::get_tokens`: splits script
/// text into tokens.  The tokenizer is total — unrecognized characters
/// come back as tokens of kind `Invalid` rather than as an error — and
/// deterministic, so the date verdict of the text coincides with the
/// date verdict of its tokens.
pub assume_specification [ nadi_core::parser::tokenizer::get_tokens ](
    txt: &str,
) -> (r: Vec<nadi_core::parser::tokenizer::Token<'_>>)
    ensures
        spec_dates_ok(txt@) <==> tokens_dates_ok(r@),
;

/// Relies on `Date::from_str` of `nadi_core`: validates a lexed date
/// (fields in range, year within bounds); a pure function of the text.
#[verifier::external_body]
pub(crate) fn date_valid(s: &str) -> (r: bool)
    ensures
        r <==> spec_date_ok(s@),
{
    <nadi_core::attrs::Date as core::str::FromStr>::from_str(s).is_ok()
}

/// Relies on `Time::from_str` of `nadi_core`: validates a lexed time; a
/// pure function of the text.
#[verifier::external_body]
pub(crate) fn time_valid(s: &str) -> (r: bool)
    ensures
        r <==> spec_time_ok(s@),
{
    <nadi_core::attrs::Time as core::str::FromStr>::from_str(s).is_ok()
}

/// Relies on `DateTime::from_str` of `nadi_core`: validates a lexed
/// datetime; a pure function of the text.
#[verifier::external_body]
pub(crate) fn datetime_valid(s: &str) -> (r: bool)
    ensures
        r <==> spec_datetime_ok(s@),
{
    <nadi_core::attrs::DateTime as core::str::FromStr>::from_str(s).is_ok()
}

/// Relies on the engine's script parser — `get_tokens`, `check_tokens`
/// and the task-list parser `tasks` of `nadi_core`, with errors rendered
/// through the engine's own `ParseError` — holding the calls together so
/// the parse verdict can be named over the script text alone.  `Ok`
/// carries the units parsed from the start of the script and the number
/// of unconsumed tokens; the script is grammatical exactly when nothing
/// is left over.  The caller keeps scripts with engine-rejected
/// date-like values away from the parser, whose date readers fault on
/// them.
#[verifier::external_body]
pub(crate) fn parse_script(script: &str) -> (r: Result<
    (Vec<nadi_core::tasks::Task>, usize),
    String,
>)
    requires
        spec_dates_ok(script@),
    ensures
        match r {
            Ok(p) => p.1 == 0 <==> spec_parse_ok(script@),
            Err(_) => !spec_parse_ok(script@),
        },
{
    let tokens = nadi_core::parser::tokenizer::get_tokens(script);
    if let Err(e) = nadi_core::parser::tokenizer::check_tokens(&tokens) {
        return Err(e.to_string());
    }
    match nadi_core::parser::tasks::tasks(&tokens) {
        Ok((rest, units)) => Ok((units, rest.len())),
        Err(nom::Err::Error(e)) | Err(nom::Err::Failure(e)) => Err(
            nadi_core::parser::ParseError::new(&tokens, e.internal.input, e.ty).to_string(),
        ),
        Err(nom::Err::Incomplete(_)) => Err("incomplete task script".to_string()),
    }
}

/// Relies on `Template::parse_template` of `string-template-plus` (the
/// engine's label templating language): a rejected template comes back
/// as `None` so the caller can fall back to default labels.  The
/// templating crate walks the source bytewise and faults on non-ASCII
/// text, so only ASCII sources are handed to it.
#[verifier::external_body]
pub(crate) fn parse_template(s: &str) -> (r: Option<nadi_core::string_template::Template>)
    requires
        vstd::string::is_ascii(s),
    ensures
        r is Some <==> spec_template_ok(s@),
{
    nadi_core::string_template::Template::parse_template(s).ok()
}

/// The engine's label templating language accepts this source text.
pub uninterp spec fn spec_template_ok(s: Seq<char>) -> bool;

} // verus!
