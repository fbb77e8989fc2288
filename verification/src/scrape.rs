use vstd::prelude::*;

verus! {

/// The attribute values the HTML parser yields for a document: parse `html`
/// as a document, take the first node matching the `outer` selector, and
/// within it collect, for every node matching the `inner` selector in
/// document order, the value of its `attr` attribute (`None` for a node
/// lacking it).  The whole result is `None` when a selector does not parse
/// or no node matches `outer`.  Parsing depends on the four strings alone.
pub uninterp spec fn attrs_within(
    html: Seq<char>,
    outer: Seq<char>,
    inner: Seq<char>,
    attr: Seq<char>,
) -> Option<Seq<Option<Seq<char>>>>;

/// The serialized inner markup of each matched node: parse `html` as a
/// document, take the first node matching `outer`, and within it collect
/// the inner HTML of every node matching `inner`, in document order.
/// `None` when a selector does not parse or no node matches `outer`.
/// Parsing depends on the three strings alone.
pub uninterp spec fn inner_htmls_within(
    html: Seq<char>,
    outer: Seq<char>,
    inner: Seq<char>,
) -> Option<Seq<Seq<char>>>;

/// The pair of attribute values of the first node matching `sel` when
/// `html` is parsed as an HTML fragment: `None` when the selector does not
/// parse or nothing matches, otherwise the values of `attr_a` and `attr_b`
/// on that one node.  Parsing depends on the four strings alone.
pub uninterp spec fn fragment_attr_pair(
    html: Seq<char>,
    sel: Seq<char>,
    attr_a: Seq<char>,
    attr_b: Seq<char>,
) -> Option<(Option<Seq<char>>, Option<Seq<char>>)>;

/// Relies on scraper::Html::parse_document, scraper::Selector::parse,
/// scraper::Html::select, scraper::ElementRef::select and
/// scraper::ElementRef::attr: parsing a fixed string and walking the
/// resulting tree with a fixed selector is deterministic, and `select`
/// yields matches in document order.
#[verifier::external_body]
pub(crate) fn select_attrs_within_first(
    html: &str,
    outer: &str,
    inner: &str,
    attr: &str,
) -> (r: Option<Vec<Option<String>>>)
    ensures
        r.deep_view() == attrs_within(html@, outer@, inner@, attr@),
{
    let doc = scraper::Html::parse_document(html);
    let outer_sel = scraper::Selector::parse(outer).ok()?;
    let inner_sel = scraper::Selector::parse(inner).ok()?;
    let node = doc.select(&outer_sel).next()?;
    Some(node.select(&inner_sel).map(|el| el.attr(attr).map(|v| v.to_string())).collect())
}

/// Relies on scraper::Html::parse_document, scraper::Selector::parse,
/// scraper::Html::select, scraper::ElementRef::select and
/// scraper::ElementRef::inner_html: parsing and serialization are
/// deterministic, and `select` yields matches in document order.
#[verifier::external_body]
pub(crate) fn select_inner_htmls_within_first(html: &str, outer: &str, inner: &str) -> (r: Option<
    Vec<String>,
>)
    ensures
        r.deep_view() == inner_htmls_within(html@, outer@, inner@),
{
    let doc = scraper::Html::parse_document(html);
    let outer_sel = scraper::Selector::parse(outer).ok()?;
    let inner_sel = scraper::Selector::parse(inner).ok()?;
    let node = doc.select(&outer_sel).next()?;
    Some(node.select(&inner_sel).map(|el| el.inner_html()).collect())
}

/// Relies on scraper::Html::parse_fragment, scraper::Selector::parse,
/// scraper::Html::select and scraper::ElementRef::attr: parsing a fixed
/// fragment and reading attributes of its first matching element is
/// deterministic.
#[verifier::external_body]
pub(crate) fn fragment_first_attr_pair(html: &str, sel: &str, attr_a: &str, attr_b: &str) -> (r:
    Option<(Option<String>, Option<String>)>)
    ensures
        r.deep_view() == fragment_attr_pair(html@, sel@, attr_a@, attr_b@),
{
    let frag = scraper::Html::parse_fragment(html);
    let selector = scraper::Selector::parse(sel).ok()?;
    let el = frag.select(&selector).next()?;
    Some((el.attr(attr_a).map(|v| v.to_string()), el.attr(attr_b).map(|v| v.to_string())))
}

} // verus!
