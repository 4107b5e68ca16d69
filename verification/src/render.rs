//! Serialization of one source's items into markup, for the static-page
//! sink.

use vstd::prelude::*;
use vstd::string::StringExecFns;

use crate::model::{JournalNew, JournalNewView, Newspaper};

verus! {

/// The link written into an item's anchor: the item's link, or the empty
/// string when it has none.
pub open spec fn link_text_spec(link: Option<Seq<char>>) -> Seq<char> {
    match link {
        Some(link) => link,
        None => Seq::<char>::empty(),
    }
}

/// The markup of one news item.
pub open spec fn item_html_spec(item: JournalNewView) -> Seq<char> {
    "\n        <div class=\"news "@ + item.newspaper.tag_spec()
        + "\">\n            <button class=\"hideButton\">v</button>\n            <a target=\"_blank\" href=\""@
        + link_text_spec(item.link) + "\">\n                <h3>"@ + item.title
        + "</h3>\n            </a>\n            <b>"@ + item.text
        + "</b>\n        </div>\n        "@
}

/// The markup of a sequence of news items, in order.
pub open spec fn items_html_spec(items: Seq<JournalNewView>) -> Seq<char>
    decreases items.len(),
{
    if items.len() == 0 {
        Seq::<char>::empty()
    } else {
        items_html_spec(items.drop_last()) + item_html_spec(items.last())
    }
}

/// The markup of one source's section: a heading, then the items.
pub open spec fn news_html_spec(
    title: Seq<char>,
    items: Seq<JournalNewView>,
    newspaper: Newspaper,
) -> Seq<char> {
    "\n        <h1 class=\""@ + newspaper.tag_spec() + "-title\">"@ + title + "</h1>\n    "@
        + items_html_spec(items)
}

/// Serializes one source's items into markup: a heading carrying the
/// given display title, then one block per item, in item order.
pub fn format_news_to_html(title: String, journal_news: Vec<JournalNew>, newspaper: Newspaper) -> (r:
    String)
    ensures
        r@ == news_html_spec(title@, journal_news.deep_view(), newspaper),
{
    let ghost items = journal_news.deep_view();
    let mut html = String::new();
    html.append("\n        <h1 class=\"");
    html.append(newspaper.tag());
    html.append("-title\">");
    html.append(title.as_str());
    html.append("</h1>\n    ");
    let mut i: usize = 0;
    while i < journal_news.len()
        invariant
            i <= journal_news.len(),
            items == journal_news.deep_view(),
            html@ == news_html_spec(title@, items.subrange(0, i as int), newspaper),
        decreases journal_news.len() - i,
    {
        let item = &journal_news[i];
        html.append("\n        <div class=\"news ");
        html.append(item.newspaper.tag());
        html.append(
            "\">\n            <button class=\"hideButton\">v</button>\n            <a target=\"_blank\" href=\"",
        );
        match &item.link {
            Some(link) => html.append(link.as_str()),
            None => (),
        }
        html.append("\">\n                <h3>");
        html.append(item.title.as_str());
        html.append("</h3>\n            </a>\n            <b>");
        html.append(item.text.as_str());
        html.append("</b>\n        </div>\n        ");
        proof {
            assert(item@ == items[i as int]);
            assert(items.subrange(0, i as int + 1).drop_last() =~= items.subrange(0, i as int));
            assert(items.subrange(0, i as int + 1).last() == items[i as int]);
            assert(html@ =~= news_html_spec(title@, items.subrange(0, i as int + 1), newspaper));
        }
        i = i + 1;
    }
    proof {
        assert(items.subrange(0, journal_news@.len() as int) =~= items);
    }
    html
}

} // verus!
