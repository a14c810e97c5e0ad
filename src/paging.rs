use vstd::prelude::*;

verus! {

/// Whether a URL already carries a query string.
pub open spec fn has_query(url: Seq<char>) -> bool {
    url.contains('?')
}

/// The URL that asks for the page after `token`: the token goes in a
/// `pageToken` query parameter, opening the query string with `?` or
/// joining an existing one with `&`.
pub open spec fn page_url_spec(base: Seq<char>, token: Seq<char>) -> Seq<char> {
    if has_query(base) {
        base + "&pageToken="@ + token
    } else {
        base + "?pageToken="@ + token
    }
}

/// The token to continue with after a page came back with `next`, having been
/// fetched with `page`: an empty or echoed token ends the walk.
pub open spec fn next_page(page: Seq<char>, next: Seq<char>) -> Seq<char> {
    if next.len() > 0 && next != page {
        next
    } else {
        Seq::empty()
    }
}

/// A walk goes on only with a fresh token: a page that brings no token, or
/// echoes the token it was fetched with, ends the walk; any other token is
/// the one the next page is asked for with.
pub proof fn lemma_walk_guard(page: Seq<char>, next: Seq<char>)
    ensures
        next.len() == 0 ==> next_page(page, next).len() == 0,
        next == page ==> next_page(page, next).len() == 0,
        next.len() > 0 && next != page ==> next_page(page, next) == next,
{
}

/// Whether `s` holds the character `c`.
fn contains_char(s: &str, c: char) -> (r: bool)
    ensures
        r == s@.contains(c),
{
    let n = s.unicode_len();
    let mut i: usize = 0;
    while i < n
        invariant
            n == s@.len(),
            i <= n,
            forall|j: int| 0 <= j < i ==> s@[j] != c,
        decreases n - i,
    {
        if s.get_char(i) == c {
            assert(s@[i as int] == c);
            return true;
        }
        i = i + 1;
    }
    false
}

/// The URL of the page that continues from `token`.
pub fn page_url(base: &str, token: &str) -> (r: String)
    ensures
        r@ == page_url_spec(base@, token@),
{
    let mut url = String::from_str(base);
    if contains_char(base, '?') {
        url.append("&pageToken=");
    } else {
        url.append("?pageToken=");
    }
    url.append(token);
    url
}

/// One decoded response of a list endpoint.
pub struct Page<T> {
    pub items: Vec<T>,
    /// Empty when there are no more pages.
    pub next_page_token: String,
}

/// A walk over the pages of a list endpoint that is waiting for its next
/// page: what has been collected so far and the token the next page is asked
/// for with.
pub struct PageWalk<T> {
    base: String,
    items: Vec<T>,
    page: String,
}

/// What a walk asks of its caller after taking in one fetch.
pub enum Step<T, E> {
    /// Fetch this URL and hand the outcome to the walk's `resume`.
    Fetch(PageWalk<T>, String),
    /// All pages are in: the items of every page, in order.
    Done(Vec<T>),
    /// A fetch failed; what was collected is dropped.
    Failed(E),
}

impl<T> PageWalk<T> {
    /// The URL the walk started from.
    pub closed spec fn base_view(&self) -> Seq<char> {
        self.base@
    }

    /// The items collected so far, in page order.
    pub closed spec fn items_view(&self) -> Seq<T> {
        self.items@
    }

    /// The token the pending fetch asks for.
    pub closed spec fn page_view(&self) -> Seq<char> {
        self.page@
    }

    /// A waiting walk always has a token to continue with.
    pub closed spec fn wf(&self) -> bool {
        self.page@.len() > 0
    }

    /// The URL of the pending fetch.
    pub open spec fn pending_url(&self) -> Seq<char> {
        page_url_spec(self.base_view(), self.page_view())
    }

    /// Continues a walk that holds `items` from `base` with the token `next`,
    /// or ends it where `next` is empty.
    fn advance<E>(base: String, items: Vec<T>, next: String) -> (r: Step<T, E>)
        ensures
            next@.len() == 0 ==> r == Step::<T, E>::Done(items),
            next@.len() > 0 ==> (r matches Step::Fetch(w, url) && w.wf() && w.base_view() == base@
                && w.items_view() == items@ && w.page_view() == next@ && url@ == w.pending_url()),
    {
        if next.as_str().is_empty() {
            Step::Done(items)
        } else {
            let url = page_url(base.as_str(), next.as_str());
            Step::Fetch(PageWalk { base, items, page: next }, url)
        }
    }

    /// Starts a walk with the outcome of fetching `base` itself.
    pub fn start<E>(base: String, first: Result<Page<T>, E>) -> (r: Step<T, E>)
        ensures
            match first {
                Err(e) => r == Step::<T, E>::Failed(e),
                Ok(p) => if p.next_page_token@.len() == 0 {
                    r matches Step::Done(items) && items@ == p.items@
                } else {
                    r matches Step::Fetch(w, url) && w.wf() && w.base_view() == base@
                        && w.items_view() == p.items@
                        && w.page_view() == p.next_page_token@
                        && url@ == w.pending_url()
                },
            },
    {
        match first {
            Err(e) => Step::Failed(e),
            Ok(p) => {
                let Page { items, next_page_token } = p;
                Self::advance(base, items, next_page_token)
            },
        }
    }

    /// Takes in the outcome of the pending fetch: its items are appended, and
    /// the walk goes on only while the page brings a token that is neither
    /// empty nor the one it was asked with.
    pub fn resume<E>(self, fetched: Result<Page<T>, E>) -> (r: Step<T, E>)
        requires
            self.wf(),
        ensures
            match fetched {
                Err(e) => r == Step::<T, E>::Failed(e),
                Ok(p) => {
                    let items = self.items_view() + p.items@;
                    let next = next_page(self.page_view(), p.next_page_token@);
                    if next.len() == 0 {
                        r matches Step::Done(all) && all@ == items
                    } else {
                        r matches Step::Fetch(w, url) && w.wf()
                            && w.base_view() == self.base_view() && w.items_view() == items
                            && w.page_view() == next && url@ == w.pending_url()
                    }
                },
            },
    {
        match fetched {
            Err(e) => Step::Failed(e),
            Ok(p) => {
                let PageWalk { base, mut items, page } = self;
                let Page { items: mut more, next_page_token } = p;
                items.append(&mut more);
                let next = if !next_page_token.as_str().is_empty() && next_page_token != page {
                    next_page_token
                } else {
                    String::new()
                };
                Self::advance(base, items, next)
            },
        }
    }
}

} // verus!
