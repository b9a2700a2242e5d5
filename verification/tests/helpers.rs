use posts_broker::config::{AppCfg, Env, TemplateChange};
use posts_broker::error::{AppError, INTERNAL_SERVER_ERROR};
use posts_broker::helpers::{names_void_element, WithAttr};
use posts_broker::text::{bytes_equal, str_equal};

#[test]
fn an_element_wraps_its_inner_markup() {
    let attrs = ["class=\"user\"", "id=\"u1\""];
    let element = WithAttr(&attrs, "div", Some("User: a@b.c".to_string()));
    assert_eq!(element.render(), "<div class=\"user\" id=\"u1\">User: a@b.c</div>");
}

#[test]
fn an_element_without_attributes_keeps_the_space() {
    let element = WithAttr(&[], "p", Some("x".to_string()));
    assert_eq!(element.render(), "<p >x</p>");
}

#[test]
fn an_element_without_inner_markup_is_empty_inside() {
    let attrs = ["hidden"];
    let element = WithAttr(&attrs, "span", None);
    assert_eq!(element.render(), "<span hidden></span>");
}

#[test]
fn a_void_element_has_no_closing_tag() {
    let attrs = ["type=\"text\"", "name=\"email\""];
    assert_eq!(WithAttr(&attrs, "input", None).render(), "<input type=\"text\" name=\"email\"> />");
    assert_eq!(
        WithAttr(&attrs, "input", Some("after".to_string())).render(),
        "<input type=\"text\" name=\"email\"> />after"
    );
}

#[test]
fn render_to_appends_to_what_is_there() {
    let attrs = ["a"];
    let mut buffer = String::from("before");
    WithAttr(&attrs, "br", None).render_to(&mut buffer);
    WithAttr(&attrs, "b", Some("x".to_string())).render_to(&mut buffer);
    assert_eq!(buffer, "before<br a> /><b a>x</b>");
}

#[test]
fn the_void_elements_are_the_fourteen() {
    for tag in [
        "area", "base", "br", "col", "embed", "hr", "img", "input", "link", "meta", "param",
        "source", "track", "wbr",
    ] {
        assert!(names_void_element(tag), "{tag}");
    }
    for tag in ["div", "span", "", "BR", "br ", "wb", "inputs", "p"] {
        assert!(!names_void_element(tag), "{tag:?}");
    }
}

#[test]
fn strings_are_compared_by_their_characters() {
    assert!(str_equal("", ""));
    assert!(str_equal("posts", "posts"));
    assert!(str_equal("caf\u{e9}", "caf\u{e9}"));
    assert!(!str_equal("posts", "post"));
    assert!(!str_equal("posts", "Posts"));
    assert!(!str_equal("cafe", "caf\u{e9}"));
    assert!(bytes_equal(&[1, 2, 3], &[1, 2, 3]));
    assert!(!bytes_equal(&[1, 2, 3], &[1, 2, 4]));
    assert!(!bytes_equal(&[1, 2, 3], &[1, 2]));
}

#[test]
fn an_error_answers_with_status_and_body() {
    let error = AppError::new("pool timed out".to_string());
    assert_eq!(INTERNAL_SERVER_ERROR, 500);
    assert_eq!(error.status(), 500);
    assert_eq!(error.to_string(), "pool timed out");
    assert_eq!(error.response_body(), "Something went wrong: pool timed out");
    assert_eq!(AppError::new(String::new()).response_body(), "Something went wrong: ");
}

#[test]
fn the_configuration_names_its_environment() {
    let cfg = AppCfg {
        database_url: "postgres://localhost/app".to_string(),
        rabbitmq_url: "amqp://localhost".to_string(),
        env: Env::Development,
    };
    assert_eq!(cfg.env, Env::Development);
    assert_ne!(cfg.env, Env::Production);
    assert_eq!(cfg.database_url, "postgres://localhost/app");
    assert_eq!(cfg.rabbitmq_url, "amqp://localhost");
}

#[test]
fn only_development_watches_its_templates() {
    let mut cfg = AppCfg {
        database_url: String::new(),
        rabbitmq_url: String::new(),
        env: Env::Development,
    };
    assert!(cfg.watches_templates());
    cfg.env = Env::Production;
    assert!(!cfg.watches_templates());
}

#[test]
fn templates_reload_when_a_file_is_touched_or_removed() {
    assert!(TemplateChange::Touched.calls_for_reload());
    assert!(TemplateChange::Removed.calls_for_reload());
    assert!(!TemplateChange::Other.calls_for_reload());
}
