//! The shown address of the running service and the pages built from it.

use vstd::prelude::*;

verus! {

/// The slot that holds the service address as text.
///
/// It is empty until a start publishes the composed address, which happens
/// before serving begins. Page handlers only read it. The embedding program
/// keeps the one instance behind a lock and passes it by reference.
#[derive(Debug)]
pub struct SharedDisplayState {
    text: String,
}

impl View for SharedDisplayState {
    type V = Seq<char>;

    closed spec fn view(&self) -> Seq<char> {
        self.text@
    }
}

/// The landing page for a service shown at `url`: a minimal document whose
/// one link points to `url` and is labelled with it.
pub open spec fn landing_page(url: Seq<char>) -> Seq<char> {
    "<!DOCTYPE html><html><head><title>BachueTech</title></head><body><h1>Bachuetech AI</h1><br/><h2>Open <a href=\""@
        + url + "\">"@ + url + "</a></h2></body></html>"@
}

/// The path every unmatched request is sent to.
pub open spec fn root_path() -> Seq<char> {
    "/"@
}

/// What a page handler answers, as plain values.
#[derive(Clone, Debug, PartialEq, Eq)]
pub enum PageResponse {
    /// A page with the given markup.
    Html(String),
    /// A temporary redirect to the given location.
    TemporaryRedirect(String),
}

/// The mathematical value of a [`PageResponse`].
pub ghost enum PageResponseView {
    Html(Seq<char>),
    TemporaryRedirect(Seq<char>),
}

impl View for PageResponse {
    type V = PageResponseView;

    open spec fn view(&self) -> PageResponseView {
        match self {
            PageResponse::Html(markup) => PageResponseView::Html(markup@),
            PageResponse::TemporaryRedirect(location) => PageResponseView::TemporaryRedirect(
                location@,
            ),
        }
    }
}

impl SharedDisplayState {
    /// The empty slot of a process that has not started a service yet.
    pub fn new() -> (state: SharedDisplayState)
        ensures
            state@ == Seq::<char>::empty(),
    {
        SharedDisplayState { text: String::new() }
    }

    /// The text in the slot.
    pub fn current(&self) -> (text: &str)
        ensures
            text@ == self@,
    {
        self.text.as_str()
    }
}

/// Replaces the shown address. Only a start of the service writes the slot.
pub(crate) fn set_static_app_url(state: &mut SharedDisplayState, value: String)
    ensures
        final(state)@ == value@,
{
    state.text = value;
}

/// The landing page for the address in `state`.
pub fn generate_default_html(state: &SharedDisplayState) -> (page: String)
    ensures
        page@ == landing_page(state@),
{
    let mut page = String::from_str(
        "<!DOCTYPE html><html><head><title>BachueTech</title></head><body><h1>Bachuetech AI</h1><br/><h2>Open <a href=\"",
    );
    page.append(state.text.as_str());
    page.append("\">");
    page.append(state.text.as_str());
    page.append("</a></h2></body></html>");
    page
}

/// The landing page for the address in `state`: the same page as
/// [`generate_default_html`] gives.
pub fn generate_html(state: &SharedDisplayState) -> (page: String)
    ensures
        page@ == landing_page(state@),
{
    generate_default_html(state)
}

/// Answers a request for the root path with the landing page.
pub fn default_handler(state: &SharedDisplayState) -> (response: PageResponse)
    ensures
        response@ == PageResponseView::Html(landing_page(state@)),
{
    PageResponse::Html(generate_default_html(state))
}

/// Answers a request for a path that no route matches: whatever the path,
/// a temporary redirect to the root.
pub fn fallback_root(path: &str) -> (response: PageResponse)
    ensures
        response@ == PageResponseView::TemporaryRedirect(root_path()),
{
    PageResponse::TemporaryRedirect(String::from_str("/"))
}

/// The landing page holds the shown address, whatever it is: once as the
/// target of its link and once as the link's label. The result gives the
/// two places.
pub proof fn law_landing_page_holds_address(url: Seq<char>) -> (at: (int, int))
    ensures
        0 <= at.0 < at.1,
        at.1 + url.len() <= landing_page(url).len(),
        landing_page(url).subrange(at.0, at.0 + url.len()) == url,
        landing_page(url).subrange(at.1, at.1 + url.len()) == url,
{
    let head =
        "<!DOCTYPE html><html><head><title>BachueTech</title></head><body><h1>Bachuetech AI</h1><br/><h2>Open <a href=\""@;
    let mid = "\">"@;
    reveal_strlit(
        "<!DOCTYPE html><html><head><title>BachueTech</title></head><body><h1>Bachuetech AI</h1><br/><h2>Open <a href=\"",
    );
    reveal_strlit("\">");
    let first = head.len() as int;
    let second = first + url.len() + mid.len();
    assert(landing_page(url).subrange(first, first + url.len()) =~= url);
    assert(landing_page(url).subrange(second, second + url.len()) =~= url);
    (first, second)
}

} // verus!
