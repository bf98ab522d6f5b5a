//! Selection of a templating engine and the one worked example: rendering a
//! greeting template with MiniJinja. Rendering itself is the engine's own
//! capability; this module states what the rendered text is a function of and
//! maps the engine's error into the library's own.

use vstd::prelude::*;

verus! {

/// The templating engine chosen by the caller.
#[derive(Clone, Copy, Debug, PartialEq, Eq)]
pub enum TemplateSystem {
    /// No templating engine.
    NoEngine,
    /// MiniJinja.
    Minijinja,
    /// LiquidRust.
    LiquidRust,
    /// Handlebars.
    Handlebars,
}

/// What can go wrong when rendering through a templating engine.
#[derive(Clone, Copy, Debug, PartialEq, Eq)]
pub enum TemplateError {
    /// The chosen engine has no working integration here.
    Unsupported,
    /// The engine rejected the template or its rendering failed.
    Render,
}

/// Declares minijinja's `Error` type, which the rendering call returns; the
/// library treats its values as opaque and maps them to [`TemplateError`].
#[verifier::external_type_specification]
#[verifier::external_body]
pub struct ExMiniJinjaError(minijinja::Error);

/// The text MiniJinja renders for a template whose context binds `name` to
/// the given value. Rendering is deterministic in the template source and
/// the context, so the result is a function of these two arguments alone.
pub uninterp spec fn render_of(template: Seq<char>, name: Seq<char>) -> Seq<char>;

/// Relies on minijinja's `Environment::render_str` (on a default
/// environment, with a one-entry context binding `name`): parsing and
/// rendering are deterministic in the template source and the context.
#[verifier::external_body]
fn render_named(template: &str, name: &str) -> (r: Result<String, minijinja::Error>)
    ensures
        r is Ok ==> r->Ok_0@ == render_of(template@, name@),
{
    let env = minijinja::Environment::new();
    let mut ctx = std::collections::BTreeMap::new();
    ctx.insert("name", name);
    env.render_str(template, ctx)
}

/// Render the greeting template `Hello {{ name }}!` with `name` bound to
/// `John` through MiniJinja.
pub fn mini_jinja_example() -> (r: Result<String, TemplateError>)
    ensures
        r is Ok ==> r->Ok_0@ == render_of("Hello {{ name }}!"@, "John"@),
        r is Err ==> r->Err_0 == TemplateError::Render,
{
    match render_named("Hello {{ name }}!", "John") {
        Ok(text) => Ok(text),
        Err(_) => Err(TemplateError::Render),
    }
}

/// The LiquidRust integration is a stub with no working engine behind it:
/// it always reports the engine as unsupported.
pub fn liquid_rust_example() -> (r: Result<String, TemplateError>)
    ensures
        r == Err::<String, TemplateError>(TemplateError::Unsupported),
{
    Err(TemplateError::Unsupported)
}

/// The Handlebars integration is a stub with no working engine behind it:
/// it always reports the engine as unsupported.
pub fn handlebars_example() -> (r: Result<String, TemplateError>)
    ensures
        r == Err::<String, TemplateError>(TemplateError::Unsupported),
{
    Err(TemplateError::Unsupported)
}

/// Dispatch to the chosen templating engine. Choosing no engine yields no
/// rendered text; the two stub engines report themselves as unsupported;
/// MiniJinja renders the greeting example.
pub fn render_with(system: TemplateSystem) -> (r: Result<Option<String>, TemplateError>)
    ensures
        system is NoEngine ==> r is Ok && r->Ok_0 is None,
        system is Minijinja ==> {
            &&& r is Ok ==> r->Ok_0 is Some && r->Ok_0->Some_0@ == render_of(
                "Hello {{ name }}!"@,
                "John"@,
            )
            &&& r is Err ==> r->Err_0 == TemplateError::Render
        },
        system is LiquidRust ==> r is Err && r->Err_0 == TemplateError::Unsupported,
        system is Handlebars ==> r is Err && r->Err_0 == TemplateError::Unsupported,
{
    match system {
        TemplateSystem::NoEngine => Ok(None),
        TemplateSystem::Minijinja => match mini_jinja_example() {
            Ok(text) => Ok(Some(text)),
            Err(e) => Err(e),
        },
        TemplateSystem::LiquidRust => match liquid_rust_example() {
            Ok(_) => Ok(None),
            Err(e) => Err(e),
        },
        TemplateSystem::Handlebars => match handlebars_example() {
            Ok(_) => Ok(None),
            Err(e) => Err(e),
        },
    }
}

} // verus!
