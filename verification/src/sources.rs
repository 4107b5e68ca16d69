//! The fixed table of configured sources: one declarative
//! [`SourceDescriptor`] per newspaper.

use vstd::prelude::*;

use crate::model::{FieldRule, FieldRuleView, Newspaper, SourceDescriptor, SourceDescriptorView};

verus! {

/// The extraction rules of the Clarin listing page.
pub open spec fn clarin_descriptor_spec() -> SourceDescriptorView {
    SourceDescriptorView {
        tag: Newspaper::CLARIN,
        listing_url: "https://www.clarin.com/ultimo-momento/"@,
        container_selector: "article"@,
        title: FieldRuleView { path: Some("h2"@), attr: None },
        summary: Some(FieldRuleView { path: Some("h3.summary"@), attr: None }),
        link: Some(FieldRuleView { path: Some("a.link-new"@), attr: Some("href"@) }),
        link_prefix: ""@,
    }
}

/// The extraction rules of the Infobae listing page.
pub open spec fn infobae_descriptor_spec() -> SourceDescriptorView {
    SourceDescriptorView {
        tag: Newspaper::INFOBAE,
        listing_url: "https://www.infobae.com/ultimas-noticias-america/"@,
        container_selector: "a.feed-list-card"@,
        title: FieldRuleView { path: Some("h2.feed-list-card-headline-lean"@), attr: None },
        summary: Some(FieldRuleView { path: Some("div.deck"@), attr: None }),
        link: Some(FieldRuleView { path: None, attr: Some("href"@) }),
        link_prefix: "http://infobae.com"@,
    }
}

/// The extraction rules of the La Nacion listing page.
pub open spec fn lanacion_descriptor_spec() -> SourceDescriptorView {
    SourceDescriptorView {
        tag: Newspaper::LANACION,
        listing_url: "https://www.lanacion.com.ar/ultimas-noticias/"@,
        container_selector: "article.mod-article"@,
        title: FieldRuleView { path: Some("a.com-link"@), attr: None },
        summary: None,
        link: Some(FieldRuleView { path: Some("a.com-link"@), attr: Some("href"@) }),
        link_prefix: "http://lanacion.com"@,
    }
}

/// The extraction rules of the La Capital listing page.
pub open spec fn lacapital_descriptor_spec() -> SourceDescriptorView {
    SourceDescriptorView {
        tag: Newspaper::LACAPITAL,
        listing_url: "https://www.lacapital.com.ar/secciones/ultimo-momento.html"@,
        container_selector: "article.ultimas-noticias-entry-container"@,
        title: FieldRuleView { path: Some("h2.entry-title"@), attr: None },
        summary: None,
        link: Some(FieldRuleView { path: Some("a.cover-link"@), attr: Some("href"@) }),
        link_prefix: ""@,
    }
}

/// The extraction rules of the Rosario3 listing page.
pub open spec fn rosario3_descriptor_spec() -> SourceDescriptorView {
    SourceDescriptorView {
        tag: Newspaper::ROSARIO3,
        listing_url: "https://www.rosario3.com/seccion/ultimas-noticias/"@,
        container_selector: "a.cover-link"@,
        title: FieldRuleView { path: None, attr: Some("title"@) },
        summary: None,
        link: Some(FieldRuleView { path: None, attr: Some("href"@) }),
        link_prefix: "http://rosario3.com"@,
    }
}

/// Builds the Clarin descriptor.
pub fn clarin_descriptor() -> (d: SourceDescriptor)
    ensures
        d@ == clarin_descriptor_spec(),
{
    SourceDescriptor {
        tag: Newspaper::CLARIN,
        listing_url: "https://www.clarin.com/ultimo-momento/".to_owned(),
        container_selector: "article".to_owned(),
        title: FieldRule { path: Some("h2".to_owned()), attr: None },
        summary: Some(FieldRule { path: Some("h3.summary".to_owned()), attr: None }),
        link: Some(FieldRule { path: Some("a.link-new".to_owned()), attr: Some("href".to_owned()) }),
        link_prefix: "".to_owned(),
    }
}

/// Builds the Infobae descriptor.
pub fn infobae_descriptor() -> (d: SourceDescriptor)
    ensures
        d@ == infobae_descriptor_spec(),
{
    SourceDescriptor {
        tag: Newspaper::INFOBAE,
        listing_url: "https://www.infobae.com/ultimas-noticias-america/".to_owned(),
        container_selector: "a.feed-list-card".to_owned(),
        title: FieldRule { path: Some("h2.feed-list-card-headline-lean".to_owned()), attr: None },
        summary: Some(FieldRule { path: Some("div.deck".to_owned()), attr: None }),
        link: Some(FieldRule { path: None, attr: Some("href".to_owned()) }),
        link_prefix: "http://infobae.com".to_owned(),
    }
}

/// Builds the La Nacion descriptor.
pub fn lanacion_descriptor() -> (d: SourceDescriptor)
    ensures
        d@ == lanacion_descriptor_spec(),
{
    SourceDescriptor {
        tag: Newspaper::LANACION,
        listing_url: "https://www.lanacion.com.ar/ultimas-noticias/".to_owned(),
        container_selector: "article.mod-article".to_owned(),
        title: FieldRule { path: Some("a.com-link".to_owned()), attr: None },
        summary: None,
        link: Some(FieldRule { path: Some("a.com-link".to_owned()), attr: Some("href".to_owned()) }),
        link_prefix: "http://lanacion.com".to_owned(),
    }
}

/// Builds the La Capital descriptor.
pub fn lacapital_descriptor() -> (d: SourceDescriptor)
    ensures
        d@ == lacapital_descriptor_spec(),
{
    SourceDescriptor {
        tag: Newspaper::LACAPITAL,
        listing_url: "https://www.lacapital.com.ar/secciones/ultimo-momento.html".to_owned(),
        container_selector: "article.ultimas-noticias-entry-container".to_owned(),
        title: FieldRule { path: Some("h2.entry-title".to_owned()), attr: None },
        summary: None,
        link: Some(
            FieldRule { path: Some("a.cover-link".to_owned()), attr: Some("href".to_owned()) },
        ),
        link_prefix: "".to_owned(),
    }
}

/// Builds the Rosario3 descriptor.
pub fn rosario3_descriptor() -> (d: SourceDescriptor)
    ensures
        d@ == rosario3_descriptor_spec(),
{
    SourceDescriptor {
        tag: Newspaper::ROSARIO3,
        listing_url: "https://www.rosario3.com/seccion/ultimas-noticias/".to_owned(),
        container_selector: "a.cover-link".to_owned(),
        title: FieldRule { path: None, attr: Some("title".to_owned()) },
        summary: None,
        link: Some(FieldRule { path: None, attr: Some("href".to_owned()) }),
        link_prefix: "http://rosario3.com".to_owned(),
    }
}

/// The configured sources of one invocation, in join order.
pub open spec fn all_descriptors_spec() -> Seq<SourceDescriptorView> {
    seq![
        clarin_descriptor_spec(),
        infobae_descriptor_spec(),
        lanacion_descriptor_spec(),
        lacapital_descriptor_spec(),
        rosario3_descriptor_spec(),
    ]
}

/// Builds the fixed table of all configured sources.
pub fn all_descriptors() -> (ds: Vec<SourceDescriptor>)
    ensures
        ds.deep_view() == all_descriptors_spec(),
{
    let mut ds: Vec<SourceDescriptor> = Vec::new();
    ds.push(clarin_descriptor());
    ds.push(infobae_descriptor());
    ds.push(lanacion_descriptor());
    ds.push(lacapital_descriptor());
    ds.push(rosario3_descriptor());
    proof {
        assert(ds.deep_view() =~= all_descriptors_spec());
    }
    ds
}

} // verus!
