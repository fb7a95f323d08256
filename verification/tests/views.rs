use cheesecake::views::error;
use cheesecake::views::footer;
use cheesecake::views::header;
use cheesecake::views::index;
use cheesecake::views::not_found;
use cheesecake::utils::text::chars_of;
use cheesecake::views::plain::{is_plain, MAX_NESTING};
use cheesecake::views::{
    minified_page, minify_config, page_of, render_internal, AppTemplate, Entry, Field, MinifyConfig,
    Page, RenderError, Templates,
};

fn templates(is_dev: bool) -> Templates {
    let mut templates = Templates::new(is_dev);
    let sources = [
        ("header.html", "<header><h1>Cheesecake</h1></header>"),
        ("footer.html", "<footer><p>Baked with care.</p></footer>"),
        (
            "not_found.html",
            "<!DOCTYPE html><html><head><title>Not found</title></head><body><p>Nothing here.</p></body></html>",
        ),
        (
            "index.html",
            "<!DOCTYPE html><html><head><title>Home</title></head><body>{{ header | safe }}<main>Welcome{% if env_is_dev %} (dev){% endif %}</main>{{ footer | safe }}</body></html>",
        ),
        (
            "error.html",
            "<!DOCTYPE html><html><head><title>{{ status_code }}</title></head><body><h1>{{ status_code }}</h1><p>{{ message }}</p>{% if id %}<a href=\"#{{ id }}\">{{ id }}</a>{% endif %}{% if show_back_anchor %}<a href=\"/\">Back</a>{% endif %}<time>{{ curr_date }}</time></body></html>",
        ),
    ];
    for (name, source) in sources {
        templates.add(name, source).unwrap();
    }
    templates
}

#[test]
fn error_test() {
    let templates = templates(true);
    assert!(error::Template::default().render(&templates, "error.html").is_ok());
    let id = Some("cb910ce9-d611-4345-89f8-6399b836cf7b".to_string());
    let tmpl = error::Template {
        id,
        ..Default::default()
    };
    assert!(tmpl.render(&templates, "error.html").is_ok());
}

#[test]
fn footer_test() {
    let templates = templates(true);
    assert!(footer::Template.render(&templates, "footer.html").is_ok());
}

#[test]
fn header_test() {
    let templates = templates(true);
    assert!(header::Template.render(&templates, "header.html").is_ok());
}

#[test]
fn index_test() {
    let templates = templates(true);
    assert!(index::Template::default().render(&templates, "index.html").is_ok());
}

#[test]
fn not_found_test() {
    let templates = templates(true);
    assert!(not_found::Template.render(&templates, "not_found.html").is_ok());
}

#[test]
fn outside_development_a_page_is_marked_for_the_minifier() {
    let switches = MinifyConfig { do_not_minify_doctype: true, minify_js: true, minify_css: true, keep_comments: false };
    for (is_dev, minify) in [(true, None), (false, Some(switches))] {
        let templates = templates(is_dev);
        let pages = [
            error::Template::default().render(&templates, "error.html").unwrap(),
            footer::Template.render(&templates, "footer.html").unwrap(),
            header::Template.render(&templates, "header.html").unwrap(),
            index::Template::default().render(&templates, "index.html").unwrap(),
            not_found::Template.render(&templates, "not_found.html").unwrap(),
            footer::render(&templates).unwrap(),
            index::render(&templates).unwrap(),
            error::render(&templates, 500, "m".to_string(), None, false, "now".to_string()),
        ];
        for page in pages {
            assert_eq!(page.minify, minify);
        }
    }
    assert_eq!(footer::render(&templates(false)).unwrap().text, "<footer><p>Baked with care.</p></footer>");
}

#[test]
fn a_page_holds_its_fields() {
    let templates = templates(true);
    let page = error::render(
        &templates,
        404,
        "Nothing <here>".to_string(),
        Some("cb910ce9-d611-4345-89f8-6399b836cf7b".to_string()),
        true,
        "Tue, 1 Jul 2003 10:52:37 +0200".to_string(),
    )
    .text;
    assert_eq!(
        page,
        "<!DOCTYPE html><html><head><title>404</title></head><body><h1>404</h1><p>Nothing &lt;here&gt;</p><a href=\"#cb910ce9-d611-4345-89f8-6399b836cf7b\">cb910ce9-d611-4345-89f8-6399b836cf7b</a><a href=\"/\">Back</a><time>Tue, 1 Jul 2003 10:52:37 +0200</time></body></html>"
    );
}

#[test]
fn a_page_without_identifier_shows_no_anchor() {
    let templates = templates(true);
    let page = error::render(&templates, 400, "Bad".to_string(), None, false, "now".to_string()).text;
    assert_eq!(
        page,
        "<!DOCTYPE html><html><head><title>400</title></head><body><h1>400</h1><p>Bad</p><time>now</time></body></html>"
    );
}

#[test]
fn index_embeds_header_and_footer() {
    let page = index::render(&templates(true)).unwrap().text;
    assert_eq!(
        page,
        "<!DOCTYPE html><html><head><title>Home</title></head><body><header><h1>Cheesecake</h1></header><main>Welcome (dev)</main><footer><p>Baked with care.</p></footer></body></html>"
    );
}

#[test]
fn outside_development_the_index_is_not_for_development() {
    let page = index::render(&templates(false)).unwrap();
    assert!(page.text.contains("<main>Welcome</main>"));
    assert!(!page.text.contains("(dev)"));
    assert!(page.text.contains("Cheesecake"));
}

#[test]
fn header_footer_and_not_found_render_their_templates() {
    let templates = templates(true);
    assert_eq!(header::render(&templates).unwrap().text, "<header><h1>Cheesecake</h1></header>");
    assert_eq!(footer::render(&templates).unwrap().text, "<footer><p>Baked with care.</p></footer>");
    assert!(not_found::render(&templates).unwrap().text.contains("Nothing here."));
}

#[test]
fn a_missing_template_is_an_error() {
    let templates = Templates::new(true);
    assert!(matches!(footer::render(&templates), Err(RenderError::Engine(_))));
    assert!(matches!(header::render(&templates), Err(RenderError::Engine(_))));
    assert!(matches!(not_found::render(&templates), Err(RenderError::Engine(_))));
    assert!(matches!(index::render(&templates), Err(RenderError::Engine(_))));
    assert!(footer::Template.render(&templates, "footer.html").is_err());
}

#[test]
fn a_failure_of_the_engine_is_described_in_its_words() {
    let mut templates = Templates::new(true);
    match footer::render(&templates) {
        Err(RenderError::Engine(text)) => assert_eq!(text, "Template 'footer.html' not found"),
        other => panic!("unexpected result: {:?}", other),
    }
    match templates.add("broken.html", "{% if open %}never closed") {
        Err(RenderError::Engine(text)) => assert!(text.contains("broken.html"), "{}", text),
        other => panic!("unexpected result: {:?}", other),
    }
    assert_eq!(RenderError::Engine("why".to_string()).to_string(), "why");
    assert_eq!(RenderError::Encoding.to_string(), "The minified page is not valid UTF-8");
    assert_eq!(
        RenderError::Refused.to_string(),
        "The source of the template is not of the accepted kind"
    );
}

#[test]
fn index_fails_without_its_parts() {
    let mut templates = Templates::new(true);
    templates.add("index.html", "{{ header }}{{ footer }}").unwrap();
    assert!(index::render(&templates).is_err());
    templates.add("header.html", "h").unwrap();
    assert!(index::render(&templates).is_err());
    templates.add("footer.html", "f").unwrap();
    assert_eq!(index::render(&templates).unwrap().text, "hf");
}

#[test]
fn the_error_page_falls_back_to_the_fixed_text() {
    let templates = Templates::new(true);
    let page = error::render(&templates, 500, "m".to_string(), None, false, "now".to_string()).text;
    assert_eq!(page, "An error has ocurred while rendering the Error Page. Whoops...");
    let page = error::page_or_fallback(Err(RenderError::Encoding));
    assert_eq!(page.text, "An error has ocurred while rendering the Error Page. Whoops...");
    assert_eq!(page.minify, None);
    let page = error::page_or_fallback(Ok(Page { text: "page".to_string(), minify: Some(minify_config()) }));
    assert_eq!((page.text.as_str(), page.minify), ("page", Some(minify_config())));
}

#[test]
fn the_error_page_falls_back_when_rendering_fails() {
    let mut templates = Templates::new(true);
    templates.add("error.html", "{{ nothing_of_that_name }}").unwrap();
    let page = error::render(&templates, 500, "m".to_string(), None, false, "now".to_string()).text;
    assert_eq!(page, "An error has ocurred while rendering the Error Page. Whoops...");
}

#[test]
fn a_source_that_does_not_parse_is_refused() {
    let mut templates = Templates::new(true);
    assert!(matches!(templates.add("broken.html", "{% if %}"), Err(RenderError::Refused)));
    assert!(matches!(templates.add("broken.html", "{% else %}"), Err(RenderError::Engine(_))));
    assert!(footer::Template.render(&templates, "broken.html").is_err());
    assert!(templates.add("fine.html", "fine").is_ok());
    assert!(templates.is_dev());
}

#[test]
fn the_accepted_kind_of_source() {
    let accepted = [
        "",
        "plain text with } and %} and { alone, even {",
        "{{ name }}",
        "{{name}}",
        "{{   _name_1   }}",
        "{{ page | safe }}",
        "{{ page|safe }}",
        "{% if flag %}yes{% else %}no{% endif %}",
        "{%if flag%}{%else%}{%endif%}",
        "{% if a %}{% if b %}{{ c }}{% endif %}{% endif %}",
        "<a href=\"#{{ id }}\">{{ id }}</a>",
        "日本語 {{ name }} é",
        "{{\tname\n}}",
        "{%\n  if flag\r\n%}yes{%\tendif %}",
        "{# a remark #}",
        "{# a remark with {{ tags }} and {% more %} in it #}text",
        "{##}",
    ];
    for source in accepted {
        assert!(is_plain(&chars_of(source)), "{:?}", source);
    }
    let refused = [
        "{{",
        "{{ }}",
        "{{ name",
        "{{ name }",
        "{{ 1 }}",
        "{{ 1.5 }}",
        "{{ a.b }}",
        "{{ a + b }}",
        "{{ name | upper }}",
        "{{ name | safe | safe }}",
        "{{ now() }}",
        "{{- name }}",
        "{{ name -}}",
        "{{ na\tme }}",
        "{# a remark without an end",
        "{#}",
        "{%",
        "{% if %}",
        "{% if a or b %}",
        "{% if not a %}",
        "{% if a == 1 %}",
        "{% elif a %}",
        "{% endif %}",
        "{% if a %}{% endif %}{% endif %}",
        "{% for x in xs %}{% endfor %}",
        "{% include \"a.html\" %}",
        "{% import \"a.html\" as a %}",
        "{% extends \"a.html\" %}",
        "{% macro m() %}{% endmacro %}",
        "{% set a = 1 %}",
        "{% raw %}{% endraw %}",
        "{% filter upper %}x{% endfilter %}",
        "{%- if a %}{% endif %}",
        "{% else x %}",
        "text {{ name }} and then {{ 2 }}",
    ];
    for source in refused {
        assert!(!is_plain(&chars_of(source)), "{:?}", source);
    }
}

#[test]
fn conditions_nest_up_to_a_limit() {
    assert_eq!(MAX_NESTING, 64);
    let nested = |depth: usize| format!("{}x{}", "{% if a %}".repeat(depth), "{% endif %}".repeat(depth));
    assert!(is_plain(&chars_of(&nested(64))));
    assert!(!is_plain(&chars_of(&nested(65))));
    let mut templates = Templates::new(true);
    templates.add("deep.html", &nested(64)).unwrap();
    assert!(matches!(templates.add("deeper.html", &nested(65)), Err(RenderError::Refused)));
    assert!(footer::Template.render(&templates, "deep.html").is_ok());
}

#[test]
fn a_source_that_could_stall_the_engine_never_reaches_it() {
    let mut templates = Templates::new(true);
    let sources = [
        ("a.html", "{% import \"b.html\" as b %}x".to_string()),
        ("b.html", "{% import \"a.html\" as a %}y".to_string()),
        ("c.html", "x{% include \"c.html\" %}".to_string()),
        ("d.html", format!("{{{{ {}.0 + 1 }}}}", "9".repeat(400))),
        ("error.html", "{% import \"missing.html\" as m %}{{ message }}".to_string()),
    ];
    for (name, source) in &sources {
        assert!(matches!(templates.add(name, source), Err(RenderError::Refused)), "{}", name);
        assert!(footer::Template.render(&templates, name).is_err());
    }
    let page = error::render(&templates, 500, "m".to_string(), None, false, "now".to_string()).text;
    assert_eq!(page, "An error has ocurred while rendering the Error Page. Whoops...");
}

#[test]
fn the_engine_answer_decides_the_next_step() {
    let switches = MinifyConfig { do_not_minify_doctype: true, minify_js: true, minify_css: true, keep_comments: false };
    assert_eq!(minify_config(), switches);
    for is_dev in [true, false] {
        assert!(matches!(page_of(Err("why".to_string()), is_dev), Err(RenderError::Engine(text)) if text == "why"));
    }
    let page = page_of(Ok("page".to_string()), true).unwrap();
    assert_eq!((page.text.as_str(), page.minify), ("page", None));
    let page = page_of(Ok("page".to_string()), false).unwrap();
    assert_eq!((page.text.as_str(), page.minify), ("page", Some(switches)));
}

#[test]
fn the_landing_page_takes_its_parts_in_order() {
    let part = |text: &str| Ok(Page { text: text.to_string(), minify: None });
    let page = index::Template::from_parts(part("h"), part("f")).unwrap();
    assert_eq!(page.header, "h");
    assert_eq!(page.footer, "f");
    let failed = index::Template::from_parts(Err(RenderError::Encoding), Err(RenderError::Refused));
    assert!(matches!(failed, Err(RenderError::Encoding)));
    let failed = index::Template::from_parts(part("h"), Err(RenderError::Engine("f".to_string())));
    assert!(matches!(failed, Err(RenderError::Engine(text)) if text == "f"));
    let failed = index::Template::from_parts(Err(RenderError::Engine("h".to_string())), part("f"));
    assert!(matches!(failed, Err(RenderError::Engine(text)) if text == "h"));

    let mut templates = Templates::new(true);
    templates.add("header.html", "H").unwrap();
    templates.add("footer.html", "F").unwrap();
    templates.add("index.html", "{{ header }}|{{ footer }}").unwrap();
    assert_eq!(index::render(&templates).unwrap().text, "H|F");
}

#[test]
fn a_later_template_replaces_an_earlier_one() {
    let mut templates = Templates::new(true);
    templates.add("footer.html", "first").unwrap();
    templates.add("footer.html", "second").unwrap();
    assert_eq!(footer::render(&templates).unwrap().text, "second");
}

#[test]
fn the_context_holds_the_entries_and_the_development_flag() {
    let mut templates = Templates::new(true);
    templates
        .add(
            "probe.html",
            "{{ text }}|{{ number }}|{{ flag }}|{% if gone %}set{% else %}unset{% endif %}|{{ env_is_dev }}",
        )
        .unwrap();
    let entries = vec![
        Entry { name: "text".to_string(), value: Field::Text("old".to_string()) },
        Entry { name: "number".to_string(), value: Field::Number(42) },
        Entry { name: "flag".to_string(), value: Field::Flag(true) },
        Entry { name: "gone".to_string(), value: Field::Missing },
        Entry { name: "text".to_string(), value: Field::Text("new".to_string()) },
        Entry { name: "env_is_dev".to_string(), value: Field::Text("overridden".to_string()) },
    ];
    assert_eq!(render_internal(&templates, "probe.html", &entries).unwrap().text, "new|42|true|unset|true");
    let mut templates = Templates::new(false);
    templates.add("probe.html", "{{ text }}|{{ env_is_dev }}").unwrap();
    assert_eq!(render_internal(&templates, "probe.html", &entries).unwrap().text, "new|false");
}

#[test]
fn what_the_minifier_answers_is_passed_on() {
    assert_eq!(minified_page(Ok("page".to_string())).unwrap(), "page");
    assert!(matches!(minified_page(String::from_utf8(vec![0xff])), Err(RenderError::Encoding)));
}

#[test]
fn a_refused_source_leaves_the_engine_as_it_was() {
    let mut templates = Templates::new(true);
    templates.add("page.html", "first {{ x }}").unwrap();
    assert!(matches!(templates.add("page.html", "{% if x %}never closed"), Err(RenderError::Engine(_))));
    assert!(matches!(templates.add("page.html", "{% for x in xs %}{% endfor %}"), Err(RenderError::Refused)));
    let entries = vec![Entry { name: "x".to_string(), value: Field::Number(1) }];
    assert_eq!(render_internal(&templates, "page.html", &entries).unwrap().text, "first 1");
    templates.add("page.html", "second").unwrap();
    assert_eq!(render_internal(&templates, "page.html", &entries).unwrap().text, "second");
}

#[test]
fn a_page_rests_on_its_name_its_source_and_its_variables_alone() {
    let source = "{# greeting #}<p>{{ who }}{% if loud %}!{% else %}.{% endif %}</p>{{ raw | safe }}";
    let entries = vec![
        Entry { name: "who".to_string(), value: Field::Text("<you>".to_string()) },
        Entry { name: "loud".to_string(), value: Field::Flag(true) },
        Entry { name: "raw".to_string(), value: Field::Text("<hr>".to_string()) },
    ];
    let mut alone = Templates::new(true);
    alone.add("page.html", source).unwrap();
    let mut among = Templates::new(true);
    among.add("other.html", "{{ who }}").unwrap();
    among.add("page.html", "to be replaced").unwrap();
    among.add("page.html", source).unwrap();
    among.add("zz.html", "{% if who %}{% endif %}").unwrap();
    for _ in 0..3 {
        let first = render_internal(&alone, "page.html", &entries).unwrap().text;
        let second = render_internal(&among, "page.html", &entries).unwrap().text;
        assert_eq!(first, "<p>&lt;you&gt;!</p><hr>");
        assert_eq!(first, second);
    }
    let mut plain_text = Templates::new(true);
    plain_text.add("page.txt", source).unwrap();
    assert_eq!(render_internal(&plain_text, "page.txt", &entries).unwrap().text, "<p><you>!</p><hr>");
    let failed = render_internal(&alone, "page.html", &Vec::new()).unwrap_err();
    let again = render_internal(&among, "page.html", &Vec::new()).unwrap_err();
    assert_eq!(failed.to_string(), again.to_string());
    assert_eq!(render_internal(&alone, "gone.html", &entries).unwrap_err().to_string(), "Template 'gone.html' not found");
}
