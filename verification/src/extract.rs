use vstd::prelude::*;
use vstd::string::StringExecFns;

use crate::errors::PipelineError;
use crate::scrape::attrs_within;
use crate::scrape::fragment_attr_pair;
use crate::scrape::fragment_first_attr_pair;
use crate::scrape::inner_htmls_within;
use crate::scrape::select_attrs_within_first;
use crate::scrape::select_inner_htmls_within_first;
use crate::text::contains_seq;
use crate::text::normalize_name;
use crate::text::normalized;
use crate::text::str_contains;

verus! {

// The structural selectors and fixed tokens of the document schema.
/// Selector of the index page's unique content wrapper.
pub open spec fn wrapper_selector() -> Seq<char> {
    "div.rich_media_wrp"@
}

/// Selector, inside the wrapper, of a content paragraph's module anchor.
pub open spec fn anchor_selector() -> Seq<char> {
    "div.rich_media_content>p>a"@
}

/// Selector of a module page's unique content container.
pub open spec fn content_selector() -> Seq<char> {
    "div.rich_media_content"@
}

/// Selector of the candidate sections inside the content container.
pub open spec fn section_selector() -> Seq<char> {
    "section"@
}

/// Tag name of the embedded audio widget, also used as the marker token
/// whose presence in a section's raw markup triggers the stricter parse.
pub open spec fn widget_tag() -> Seq<char> {
    "mpvoice"@
}

/// The widget attribute carrying the display name.
pub open spec fn name_attr() -> Seq<char> {
    "name"@
}

/// The widget attribute carrying the raw media identifier.
pub open spec fn fileid_attr() -> Seq<char> {
    "voice_encode_fileid"@
}

/// The anchor attribute carrying a module page's URL.
pub open spec fn href_attr() -> Seq<char> {
    "href"@
}

/// The fixed suffix appended to a normalized display name.
pub open spec fn mp3_suffix() -> Seq<char> {
    ".mp3"@
}

/// One downloadable media item: the display filename derived from the
/// widget's `name` attribute, and the raw identifier naming the resource at
/// the media endpoint.
#[derive(Debug, Clone, PartialEq, Eq)]
pub struct MediaDescriptor {
    /// Normalized widget name with the fixed `.mp3` suffix.
    pub display_name: String,
    /// The widget's `voice_encode_fileid` attribute, verbatim.
    pub raw_identifier: String,
}

impl View for MediaDescriptor {
    type V = (Seq<char>, Seq<char>);

    open spec fn view(&self) -> (Seq<char>, Seq<char>) {
        (self.display_name@, self.raw_identifier@)
    }
}

impl DeepView for MediaDescriptor {
    type V = (Seq<char>, Seq<char>);

    open spec fn deep_view(&self) -> (Seq<char>, Seq<char>) {
        (self.display_name@, self.raw_identifier@)
    }
}

/// The display filename derived from a raw widget name: no-break spaces
/// become underscores and the fixed `.mp3` suffix is appended.
pub open spec fn display_name_spec(raw_name: Seq<char>) -> Seq<char> {
    normalized(raw_name) + mp3_suffix()
}

/// Derive the display filename from a widget's raw `name` attribute.
pub fn display_name_of(raw_name: &str) -> (r: String)
    ensures
        r@ == display_name_spec(raw_name@),
{
    let mut out = normalize_name(raw_name);
    out.append(".mp3");
    out
}

/// The module links of an index page: the `href` of every anchor the
/// anchor selector matches inside the first content wrapper, in document
/// order.  Absence of the wrapper is fatal, as is an anchor without an
/// `href`; duplicates are kept.
pub open spec fn module_links_spec(html: Seq<char>) -> Result<Seq<Seq<char>>, PipelineError> {
    match attrs_within(html, wrapper_selector(), anchor_selector(), href_attr()) {
        Option::None => Err(PipelineError::ParseStructureMissing),
        Option::Some(hrefs) => if forall|k: int| 0 <= k < hrefs.len() ==> hrefs[k] is Some {
            Ok(Seq::new(hrefs.len(), |k: int| hrefs[k].unwrap()))
        } else {
            Err(PipelineError::AttributeMissing)
        },
    }
}

/// Collect the URL of every module anchor inside the index page's content
/// wrapper.  An index page with N anchors there yields exactly N links, in
/// document order, none skipped; a missing wrapper or an anchor without an
/// `href` attribute is a fatal error.
pub fn extract_module_links(index_html: &str) -> (r: Result<Vec<String>, PipelineError>)
    ensures
        r is Ok <==> module_links_spec(index_html@) is Ok,
        r matches Ok(v) ==> module_links_spec(index_html@) == Ok::<Seq<Seq<char>>, PipelineError>(
            v.deep_view(),
        ),
        r matches Err(e) ==> module_links_spec(index_html@) == Err::<
            Seq<Seq<char>>,
            PipelineError,
        >(e),
        r matches Ok(v) ==> (attrs_within(
            index_html@,
            wrapper_selector(),
            anchor_selector(),
            href_attr(),
        ) matches Some(hrefs) && v@.len() == hrefs.len()),
{
    let got = select_attrs_within_first(
        index_html,
        "div.rich_media_wrp",
        "div.rich_media_content>p>a",
        "href",
    );
    match got {
        Option::None => Err(PipelineError::ParseStructureMissing),
        Option::Some(hrefs) => {
            let ghost hs = hrefs.deep_view();
            let mut out: Vec<String> = Vec::new();
            let mut i: usize = 0;
            while i < hrefs.len()
                invariant
                    hs == hrefs.deep_view(),
                    attrs_within(index_html@, wrapper_selector(), anchor_selector(), href_attr())
                        == Some(hs),
                    0 <= i <= hrefs@.len(),
                    out@.len() == i,
                    forall|k: int| 0 <= k < i ==> hs[k] is Some,
                    forall|k: int| 0 <= k < i ==> out@[k]@ == hs[k].unwrap(),
                decreases hrefs@.len() - i,
            {
                match &hrefs[i] {
                    Option::None => {
                        proof {
                            assert(hs[i as int] is None);
                        }
                        return Err(PipelineError::AttributeMissing);
                    },
                    Option::Some(href) => {
                        out.push(href.clone());
                    },
                }
                i += 1;
            }
            proof {
                assert(out.deep_view() =~= Seq::new(hs.len(), |k: int| hs[k].unwrap()));
            }
            Ok(out)
        },
    }
}

/// The candidate sections of a module page: the inner markup of every
/// section inside the first content container, in document order; a
/// missing container is fatal.
pub open spec fn sections_spec(html: Seq<char>) -> Result<Seq<Seq<char>>, PipelineError> {
    match inner_htmls_within(html, content_selector(), section_selector()) {
        Option::None => Err(PipelineError::ParseStructureMissing),
        Option::Some(ss) => Ok(ss),
    }
}

/// Collect the inner markup of every candidate section inside a module
/// page's content container, in document order.
pub fn extract_sections(module_html: &str) -> (r: Result<Vec<String>, PipelineError>)
    ensures
        r is Ok <==> sections_spec(module_html@) is Ok,
        r matches Ok(v) ==> sections_spec(module_html@) == Ok::<Seq<Seq<char>>, PipelineError>(
            v.deep_view(),
        ),
        r matches Err(e) ==> sections_spec(module_html@) == Err::<Seq<Seq<char>>, PipelineError>(
            e,
        ),
{
    match select_inner_htmls_within_first(module_html, "div.rich_media_content", "section") {
        Option::None => Err(PipelineError::ParseStructureMissing),
        Option::Some(v) => Ok(v),
    }
}

/// What one candidate section contributes: nothing when its markup lacks
/// the marker token; otherwise the widget must parse out of the fragment
/// (else the structure is inconsistent, a fatal error) and must carry both
/// attributes (else `AttributeMissing`), and the contribution is the
/// derived display name with the verbatim identifier.
pub open spec fn section_descriptor_spec(section: Seq<char>) -> Result<
    Option<(Seq<char>, Seq<char>)>,
    PipelineError,
> {
    if !contains_seq(section, widget_tag()) {
        Ok(Option::None)
    } else {
        match fragment_attr_pair(section, widget_tag(), name_attr(), fileid_attr()) {
            Option::None => Err(PipelineError::ParseStructureMissing),
            Option::Some(pair) => match pair {
                (Option::Some(n), Option::Some(f)) => Ok(
                    Option::Some((display_name_spec(n), f)),
                ),
                _ => Err(PipelineError::AttributeMissing),
            },
        }
    }
}

/// Inspect one candidate section: cheap marker test first, stricter
/// fragment re-parse only on a positive match.
pub fn section_descriptor(section_html: &str) -> (r: Result<Option<MediaDescriptor>, PipelineError>)
    ensures
        r is Ok <==> section_descriptor_spec(section_html@) is Ok,
        r matches Ok(d) ==> section_descriptor_spec(section_html@) == Ok::<
            Option<(Seq<char>, Seq<char>)>,
            PipelineError,
        >(d.deep_view()),
        r matches Err(e) ==> section_descriptor_spec(section_html@) == Err::<
            Option<(Seq<char>, Seq<char>)>,
            PipelineError,
        >(e),
{
    if !str_contains(section_html, "mpvoice") {
        return Ok(Option::None);
    }
    match fragment_first_attr_pair(section_html, "mpvoice", "name", "voice_encode_fileid") {
        Option::None => Err(PipelineError::ParseStructureMissing),
        Option::Some(pair) => match pair {
            (Option::Some(raw_name), Option::Some(id)) => {
                let descriptor = MediaDescriptor {
                    display_name: display_name_of(raw_name.as_str()),
                    raw_identifier: id,
                };
                Ok(Option::Some(descriptor))
            },
            _ => Err(PipelineError::AttributeMissing),
        },
    }
}

/// The descriptors a run of sections yields, in section order: unmarked
/// sections contribute nothing, and the first failing section aborts the
/// whole module.
pub open spec fn descriptors_of_sections(ss: Seq<Seq<char>>) -> Result<
    Seq<(Seq<char>, Seq<char>)>,
    PipelineError,
>
    decreases ss.len(),
{
    if ss.len() == 0 {
        Ok(Seq::empty())
    } else {
        match section_descriptor_spec(ss[0]) {
            Err(e) => Err(e),
            Ok(Option::None) => descriptors_of_sections(ss.drop_first()),
            Ok(Option::Some(d)) => match descriptors_of_sections(ss.drop_first()) {
                Err(e) => Err(e),
                Ok(rest) => Ok(seq![d] + rest),
            },
        }
    }
}

/// The descriptors of a whole module page: its sections, folded in order.
pub open spec fn descriptors_spec(html: Seq<char>) -> Result<
    Seq<(Seq<char>, Seq<char>)>,
    PipelineError,
> {
    match sections_spec(html) {
        Err(e) => Err(e),
        Ok(ss) => descriptors_of_sections(ss),
    }
}

/// A run of sections none of which carries the marker token yields no
/// descriptors and no error, however the sections read otherwise.
pub proof fn lemma_unmarked_sections_yield_nothing(ss: Seq<Seq<char>>)
    requires
        forall|k: int| 0 <= k < ss.len() ==> !contains_seq(ss[k], widget_tag()),
    ensures
        descriptors_of_sections(ss) == Ok::<Seq<(Seq<char>, Seq<char>)>, PipelineError>(
            Seq::empty(),
        ),
    decreases ss.len(),
{
    if ss.len() != 0 {
        assert(!contains_seq(ss[0], widget_tag()));
        assert(forall|k: int|
            0 <= k < ss.drop_first().len() ==> ss.drop_first()[k] == ss[k + 1]);
        lemma_unmarked_sections_yield_nothing(ss.drop_first());
    }
}

/// Extract every media descriptor of one module page, in section order.
/// A module page with no marked section yields an empty list, never an
/// error, provided its content container is present.
pub fn extract_descriptors(module_html: &str) -> (r: Result<Vec<MediaDescriptor>, PipelineError>)
    ensures
        r is Ok <==> descriptors_spec(module_html@) is Ok,
        r matches Ok(v) ==> descriptors_spec(module_html@) == Ok::<
            Seq<(Seq<char>, Seq<char>)>,
            PipelineError,
        >(v.deep_view()),
        r matches Err(e) ==> descriptors_spec(module_html@) == Err::<
            Seq<(Seq<char>, Seq<char>)>,
            PipelineError,
        >(e),
        (sections_spec(module_html@) matches Ok(ss) && (forall|k: int|
            0 <= k < ss.len() ==> !contains_seq(ss[k], widget_tag()))) ==> (r matches Ok(v)
            && v@.len() == 0),
{
    let sections = match extract_sections(module_html) {
        Err(e) => {
            return Err(e);
        },
        Ok(s) => s,
    };
    let ghost ss = sections.deep_view();
    let mut out: Vec<MediaDescriptor> = Vec::new();
    let mut i: usize = 0;
    proof {
        assert(ss.skip(0) =~= ss);
        assert(out.deep_view() =~= Seq::<(Seq<char>, Seq<char>)>::empty());
        if descriptors_of_sections(ss) is Ok {
            assert(out.deep_view() + descriptors_of_sections(ss).unwrap()
                =~= descriptors_of_sections(ss).unwrap());
        }
    }
    while i < sections.len()
        invariant
            ss == sections.deep_view(),
            sections_spec(module_html@) == Ok::<Seq<Seq<char>>, PipelineError>(ss),
            0 <= i <= sections@.len(),
            descriptors_of_sections(ss) == (match descriptors_of_sections(ss.skip(i as int)) {
                Err(e) => Err(e),
                Ok(rest) => Ok(out.deep_view() + rest),
            }),
        decreases sections@.len() - i,
    {
        let ghost tail = ss.skip(i as int);
        proof {
            assert(tail.len() == ss.len() - i);
            assert(tail[0] == ss[i as int]);
            assert(tail.drop_first() =~= ss.skip(i + 1));
            assert(sections@[i as int]@ == ss[i as int]);
        }
        let section = &sections[i];
        match section_descriptor(section.as_str()) {
            Err(e) => {
                proof {
                    assert(descriptors_of_sections(tail) == Err::<
                        Seq<(Seq<char>, Seq<char>)>,
                        PipelineError,
                    >(e));
                }
                return Err(e);
            },
            Ok(Option::None) => {
                proof {
                    assert(descriptors_of_sections(tail) == descriptors_of_sections(
                        ss.skip(i + 1),
                    ));
                }
            },
            Ok(Option::Some(d)) => {
                let ghost dv = d.deep_view();
                let ghost out_before = out.deep_view();
                out.push(d);
                proof {
                    assert(out.deep_view() =~= out_before.push(dv));
                    if descriptors_of_sections(ss.skip(i + 1)) is Ok {
                        let rest = descriptors_of_sections(ss.skip(i + 1)).unwrap();
                        assert(descriptors_of_sections(tail) == Ok::<
                            Seq<(Seq<char>, Seq<char>)>,
                            PipelineError,
                        >(seq![dv] + rest));
                        assert(out_before + (seq![dv] + rest) =~= out.deep_view() + rest);
                    }
                }
            },
        }
        i += 1;
    }
    proof {
        assert(ss.skip(ss.len() as int).len() == 0);
        assert(descriptors_of_sections(ss) == Ok::<Seq<(Seq<char>, Seq<char>)>, PipelineError>(
            out.deep_view() + Seq::empty(),
        ));
        assert(out.deep_view() + Seq::<(Seq<char>, Seq<char>)>::empty() =~= out.deep_view());
        if sections_spec(module_html@) matches Ok(ss2) && (forall|k: int|
            0 <= k < ss2.len() ==> !contains_seq(ss2[k], widget_tag())) {
            lemma_unmarked_sections_yield_nothing(ss);
        }
    }
    Ok(out)
}

} // verus!
