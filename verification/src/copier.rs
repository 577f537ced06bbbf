//! Rendering a resolved message through the templates.
//!
//! The template engine is the `tera` crate's. A [`Copier`] holds an engine
//! with the four templates loaded and the values of one message; rendering
//! picks the two templates that the quote flag calls for and hands them to
//! the engine.

use vstd::prelude::*;
use crate::template::TemplateType;

verus! {

/// The template engine, as `tera` defines it.
#[verifier::external_type_specification]
#[verifier::external_body]
pub struct ExTera(tera::Tera);

/// The values that a template refers to, as `tera` defines them.
#[verifier::external_type_specification]
#[verifier::external_body]
pub struct ExContext(tera::Context);

/// The error of the template engine, as `tera` defines it.
#[verifier::external_type_specification]
#[verifier::external_body]
pub struct ExTeraError(tera::Error);

/// Why a message could not be rendered.
#[derive(Debug)]
pub struct RenderError {
    /// What the template engine said.
    pub message: String,
}

/// A message ready to be rendered.
pub struct Copier {
    /// Whether the body of the message is shown as a quote.
    pub quote: bool,
    /// The engine, with a template loaded for each [`TemplateType`] under
    /// its name.
    pub tera: tera::Tera,
    /// The values of the message.
    pub context: tera::Context,
}

/// The templates by which a message is rendered, the one for rich text
/// first: those with a quote where the body is to be quoted, those without
/// where not.
pub open spec fn templates_for(quote: bool) -> (TemplateType, TemplateType) {
    if quote {
        (TemplateType::RichTextQuote, TemplateType::PlainTextQuote)
    } else {
        (TemplateType::RichText, TemplateType::PlainText)
    }
}

/// Picks the templates by which a message is rendered.
pub fn pick_templates(quote: bool) -> (kinds: (TemplateType, TemplateType))
    ensures
        kinds == templates_for(quote),
{
    if quote {
        (TemplateType::RichTextQuote, TemplateType::PlainTextQuote)
    } else {
        (TemplateType::RichText, TemplateType::PlainText)
    }
}

/// Renders the template `name` with `tera::Tera::render`. A template may
/// read the variables of the process, so nothing is claimed about what comes
/// out.
#[verifier::external_body]
fn render_template(tera: &tera::Tera, name: &str, context: &tera::Context) -> Result<
    String,
    tera::Error,
> {
    tera.render(name, context)
}

/// Writes a `tera::Error` out with its `Display`. Nothing is claimed about
/// the text.
#[verifier::external_body]
fn describe(error: &tera::Error) -> String {
    error.to_string()
}

/// What rendering comes to, given what the engine made of the two
/// templates: both texts, the rich one first, where both were rendered, else
/// the error of the first that was not.
pub open spec fn paired(
    rich: Result<Seq<char>, Seq<char>>,
    plain: Result<Seq<char>, Seq<char>>,
) -> Result<(Seq<char>, Seq<char>), Seq<char>> {
    match rich {
        Err(message) => Err(message),
        Ok(rich) => match plain {
            Err(message) => Err(message),
            Ok(plain) => Ok((rich, plain)),
        },
    }
}

/// The mathematical value of what rendering one template came to.
pub open spec fn rendering(result: Result<String, RenderError>) -> Result<Seq<char>, Seq<char>> {
    match result {
        Ok(text) => Ok(text@),
        Err(error) => Err(error.message@),
    }
}

/// The mathematical value of what rendering came to.
pub open spec fn renderings(result: Result<(String, String), RenderError>) -> Result<
    (Seq<char>, Seq<char>),
    Seq<char>,
> {
    match result {
        Ok((rich, plain)) => Ok((rich@, plain@)),
        Err(error) => Err(error.message@),
    }
}

/// Puts together what the engine made of the two templates.
pub fn pair(rich: Result<String, RenderError>, plain: Result<String, RenderError>) -> (out: Result<
    (String, String),
    RenderError,
>)
    ensures
        renderings(out) == paired(rendering(rich), rendering(plain)),
{
    match rich {
        Err(error) => Err(error),
        Ok(rich) => match plain {
            Err(error) => Err(error),
            Ok(plain) => Ok((rich, plain)),
        },
    }
}

impl Copier {
    /// Renders one template of the engine.
    fn render_one(&self, kind: TemplateType) -> Result<String, RenderError> {
        let name = kind.as_ref();
        let engine = &self.tera;
        let result = render_template(engine, name, &self.context);
        described(result)
    }

    /// Renders the message: as rich text and as plain text, by the
    /// templates that [`templates_for`] names.
    pub fn render(&self) -> Result<(String, String), RenderError> {
        let (rich, plain) = pick_templates(self.quote);
        let rich = self.render_one(rich);
        let plain = self.render_one(plain);
        pair(rich, plain)
    }
}

/// Takes what the engine made of one template: the text as it is where the
/// template was rendered, and what the engine said where it was not.
pub fn described(result: Result<String, tera::Error>) -> (out: Result<String, RenderError>)
    ensures
        result matches Ok(text) ==> out == Ok::<String, RenderError>(text),
        result is Err ==> out is Err,
{
    match result {
        Ok(text) => Ok(text),
        Err(error) => Err(RenderError { message: describe(&error) }),
    }
}

} // verus!
