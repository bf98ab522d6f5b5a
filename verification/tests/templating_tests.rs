use libraire::logging::verbosity_filter;
use libraire::templating::TemplateError;
use libraire::templating::TemplateSystem;
use libraire::templating::handlebars_example;
use libraire::templating::liquid_rust_example;
use libraire::templating::mini_jinja_example;
use libraire::templating::render_with;

#[test]
fn mini_jinja_renders_the_greeting() {
    let rendered = mini_jinja_example();
    assert_eq!(rendered, Ok(String::from("Hello John!")));
}

#[test]
fn liquid_rust_is_unsupported() {
    assert_eq!(liquid_rust_example(), Err(TemplateError::Unsupported));
}

#[test]
fn handlebars_is_unsupported() {
    assert_eq!(handlebars_example(), Err(TemplateError::Unsupported));
}

#[test]
fn render_with_dispatches_to_each_engine() {
    assert_eq!(render_with(TemplateSystem::NoEngine), Ok(None));
    assert_eq!(
        render_with(TemplateSystem::Minijinja),
        Ok(Some(String::from("Hello John!")))
    );
    assert_eq!(
        render_with(TemplateSystem::LiquidRust),
        Err(TemplateError::Unsupported)
    );
    assert_eq!(
        render_with(TemplateSystem::Handlebars),
        Err(TemplateError::Unsupported)
    );
}

#[test]
fn verbosity_filter_maps_each_level() {
    assert_eq!(verbosity_filter(0), "error");
    assert_eq!(verbosity_filter(1), "warn");
    assert_eq!(verbosity_filter(2), "info");
    assert_eq!(verbosity_filter(3), "debug");
    assert_eq!(verbosity_filter(4), "trace");
    assert_eq!(verbosity_filter(200), "trace");
}
