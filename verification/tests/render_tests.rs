use jornais::model::{JournalNew, Newspaper};
use jornais::render::format_news_to_html;

#[test]
fn a_section_renders_heading_and_items() {
    let news = vec![
        JournalNew {
            title: "Uno".to_owned(),
            text: "resumen".to_owned(),
            link: Some("http://site/1".to_owned()),
            newspaper: Newspaper::CLARIN,
        },
    ];
    let html = format_news_to_html("Clarin".to_owned(), news, Newspaper::CLARIN);
    let expected = format!(
        "\n        <h1 class=\"{}-title\">{}</h1>\n    ",
        "clarin", "Clarin"
    ) + &format!(
        "\n        <div class=\"news {}\">\n            <button class=\"hideButton\">v</button>\n            <a target=\"_blank\" href=\"{}\">\n                <h3>{}</h3>\n            </a>\n            <b>{}</b>\n        </div>\n        ",
        "clarin", "http://site/1", "Uno", "resumen"
    );
    assert_eq!(html, expected);
}

#[test]
fn an_item_without_a_link_renders_an_empty_href() {
    let news = vec![
        JournalNew {
            title: "Solo titular".to_owned(),
            text: "".to_owned(),
            link: None,
            newspaper: Newspaper::ROSARIO3,
        },
    ];
    let html = format_news_to_html("Rosario3".to_owned(), news, Newspaper::ROSARIO3);
    assert!(html.contains("href=\"\""));
    assert!(html.contains("<h3>Solo titular</h3>"));
    assert!(html.contains("class=\"news rosario3\""));
    assert!(html.contains("<h1 class=\"rosario3-title\">Rosario3</h1>"));
}

#[test]
fn a_section_without_items_is_only_the_heading() {
    let html = format_news_to_html("La Nacion".to_owned(), vec![], Newspaper::LANACION);
    assert_eq!(html, "\n        <h1 class=\"lanacion-title\">La Nacion</h1>\n    ");
}

#[test]
fn items_render_in_their_order() {
    let item = |t: &str| JournalNew {
        title: t.to_owned(),
        text: "".to_owned(),
        link: None,
        newspaper: Newspaper::INFOBAE,
    };
    let html = format_news_to_html(
        "Infobae".to_owned(),
        vec![item("primero"), item("segundo")],
        Newspaper::INFOBAE,
    );
    let first = html.find("<h3>primero</h3>").unwrap();
    let second = html.find("<h3>segundo</h3>").unwrap();
    assert!(first < second);
}
