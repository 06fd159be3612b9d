//! The guide route-table fragment: a named group of HTTP route entries
//! under the prefix `guides/`, and the handler bound to its single entry.
//! An external router merges the fragment and dispatches requests to it.

use vstd::prelude::*;

verus! {

/// An HTTP request method, as a route entry names it.
#[derive(Clone, Copy, PartialEq, Eq, Structural, Debug)]
pub enum Method {
    Get,
    Post,
    Put,
    Delete,
}

/// The application context handed to every handler by the external
/// bootstrap process. It is opaque to the handlers defined here: the guide
/// handler reads nothing from it.
pub struct AppContext;

/// An HTTP response as the guide handler produces it: a status code and a
/// body, handed back to the external framework for transmission.
pub struct Response {
    /// HTTP status code.
    pub status: u16,
    /// Response body bytes.
    pub body: Vec<u8>,
}

/// The guide index handler: for every application context it returns a
/// successful response with an empty body. It reads nothing from the
/// context and cannot fail.
pub fn index(_ctx: &AppContext) -> (r: Response)
    ensures
        r.status == 200,
        r.body@ == Seq::<u8>::empty(),
{
    Response { status: 200, body: Vec::new() }
}

/// One route binding: a request method and a path suffix under the group's
/// prefix. The handler bound to an entry is attached by the external
/// router when the fragment is merged.
pub struct RouteEntry {
    /// Request method the entry answers to.
    pub method: Method,
    /// Path suffix under the group's prefix.
    pub path: String,
}

/// The mathematical value of a route entry.
#[verifier::ext_equal]
pub struct RouteEntryView {
    pub method: Method,
    pub path: Seq<char>,
}

impl View for RouteEntry {
    type V = RouteEntryView;

    open spec fn view(&self) -> RouteEntryView {
        RouteEntryView { method: self.method, path: self.path@ }
    }
}

/// A named group of route entries sharing a common path prefix,
/// constructed once at startup and immutable afterwards.
pub struct Routes {
    /// Common path prefix of every entry in the group.
    pub prefix: String,
    /// The entries, in registration order.
    pub entries: Vec<RouteEntry>,
}

/// The mathematical value of a route group.
#[verifier::ext_equal]
pub struct RoutesView {
    pub prefix: Seq<char>,
    pub entries: Seq<RouteEntryView>,
}

impl View for Routes {
    type V = RoutesView;

    open spec fn view(&self) -> RoutesView {
        RoutesView {
            prefix: self.prefix@,
            entries: self.entries@.map_values(|e: RouteEntry| e@),
        }
    }
}

impl RoutesView {
    /// No two entries of a group may share an identical (method, path) pair.
    pub open spec fn wf(self) -> bool {
        forall|i: int, j: int|
            0 <= i < j < self.entries.len() ==> !(self.entries[i].method == self.entries[j].method
                && self.entries[i].path == self.entries[j].path)
    }
}

/// Whether the group binds an entry for the given method and path suffix.
pub open spec fn has_entry(rv: RoutesView, m: Method, path: Seq<char>) -> bool {
    exists|i: int|
        0 <= i < rv.entries.len() && rv.entries[i].method == m && rv.entries[i].path == path
}

/// The route-entry value for a given method and path suffix.
pub open spec fn entry_view(m: Method, path: Seq<char>) -> RouteEntryView {
    RouteEntryView { method: m, path }
}

impl Routes {
    /// Creates an empty route group with an empty prefix.
    pub fn new() -> (r: Routes)
        ensures
            r@.prefix == Seq::<char>::empty(),
            r@.entries == Seq::<RouteEntryView>::empty(),
            r@.wf(),
    {
        Routes { prefix: String::new(), entries: Vec::new() }
    }

    /// Sets the common prefix of the group, leaving the entries unchanged.
    pub fn prefix(self, uri: &str) -> (r: Routes)
        ensures
            r@.prefix == uri@,
            r@.entries == self@.entries,
    {
        Routes { prefix: uri.to_owned(), entries: self.entries }
    }

    /// Appends one entry to the group. The (method, path) pair must not be
    /// bound already, so the group stays free of duplicate bindings.
    pub fn add(self, path: &str, method: Method) -> (r: Routes)
        requires
            self@.wf(),
            !has_entry(self@, method, path@),
        ensures
            r@.prefix == self@.prefix,
            r@.entries == self@.entries.push(entry_view(method, path@)),
            r@.wf(),
    {
        let mut entries = self.entries;
        entries.push(RouteEntry { method, path: path.to_owned() });
        let r = Routes { prefix: self.prefix, entries };
        proof {
            assert(r@.entries =~= self@.entries.push(entry_view(method, path@)));
            assert forall|i: int, j: int|
                0 <= i < j < r@.entries.len() implies !(r@.entries[i].method == r@.entries[j].method
                && r@.entries[i].path == r@.entries[j].path) by {
                if j == r@.entries.len() - 1 {
                    assert(r@.entries[j] == entry_view(method, path@));
                    if r@.entries[i].method == method && r@.entries[i].path == path@ {
                        assert(self@.entries[i].method == method && self@.entries[i].path == path@);
                        assert(has_entry(self@, method, path@));
                    }
                }
            }
        }
        r
    }

    /// Finds the first entry bound to the given method and path suffix,
    /// and returns its position; `None` exactly when no entry is bound.
    pub fn entry_for(&self, method: Method, path: &str) -> (r: Option<usize>)
        ensures
            match r {
                Some(i) => i < self@.entries.len() && self@.entries[i as int]
                    == entry_view(method, path@),
                None => !has_entry(self@, method, path@),
            },
    {
        let p: String = path.to_owned();
        let n = self.entries.len();
        let mut i: usize = 0;
        while i < n
            invariant
                i <= n,
                n == self@.entries.len(),
                p@ == path@,
                forall|k: int|
                    0 <= k < i ==> !(self@.entries[k].method == method && self@.entries[k].path
                        == path@),
            decreases n - i,
        {
            let e = &self.entries[i];
            if e.method == method && e.path == p {
                return Some(i);
            }
            i = i + 1;
        }
        None
    }
}

/// The guide route group: the prefix `guides/` and one entry, `GET /`.
pub open spec fn guide_routes() -> RoutesView {
    RoutesView { prefix: "guides/"@, entries: seq![entry_view(Method::Get, "/"@)] }
}

/// Builds the guide route group. Every call returns the same group:
/// prefix `guides/`, and exactly one entry, `GET /`, bound to the index
/// handler by the external router.
pub fn routes() -> (r: Routes)
    ensures
        r@ == guide_routes(),
        r@.prefix == "guides/"@,
        r@.entries.len() == 1,
        r@.entries[0] == entry_view(Method::Get, "/"@),
        r@.wf(),
{
    let r = Routes::new().prefix("guides/").add("/", Method::Get);
    proof {
        assert(r@ =~~= guide_routes());
    }
    r
}

/// The route-group builder is deterministic: any two groups it returns
/// have the same value, prefix, entries and order included.
pub proof fn lemma_routes_deterministic(r1: Routes, r2: Routes)
    requires
        r1@ == guide_routes(),
        r2@ == guide_routes(),
    ensures
        r1@ == r2@,
{
}

/// The guide group binds an entry for `GET /`, the one the index handler
/// answers.
pub proof fn lemma_guide_index_route()
    ensures
        has_entry(guide_routes(), Method::Get, "/"@),
{
    assert(guide_routes().entries[0] == entry_view(Method::Get, "/"@));
}

/// The guide group binds nothing besides `GET /`: no catch-all entry, and
/// no entry under any other method or path suffix.
pub proof fn lemma_guide_no_other_route(m: Method, path: Seq<char>)
    requires
        !(m == Method::Get && path == "/"@),
    ensures
        !has_entry(guide_routes(), m, path),
{
    if has_entry(guide_routes(), m, path) {
        let i = choose|i: int|
            0 <= i < guide_routes().entries.len() && guide_routes().entries[i].method == m
                && guide_routes().entries[i].path == path;
        assert(guide_routes().entries[i] == entry_view(Method::Get, "/"@));
        assert(false);
    }
}

impl PartialEq for Routes {
    /// Structural equality of route groups: same prefix, and the same
    /// entries in the same order.
    fn eq(&self, other: &Routes) -> (r: bool) {
        if !(self.prefix == other.prefix) {
            return false;
        }
        if self.entries.len() != other.entries.len() {
            proof {
                assert(self@.entries.len() == self.entries@.len());
                assert(other@.entries.len() == other.entries@.len());
            }
            return false;
        }
        let n = self.entries.len();
        let mut i: usize = 0;
        while i < n
            invariant
                i <= n,
                n == self@.entries.len(),
                n == other@.entries.len(),
                self@.prefix == other@.prefix,
                forall|k: int| 0 <= k < i ==> self@.entries[k] == other@.entries[k],
            decreases n - i,
        {
            let a = &self.entries[i];
            let b = &other.entries[i];
            proof {
                assert(self@.entries[i as int] == self.entries@[i as int]@);
                assert(other@.entries[i as int] == other.entries@[i as int]@);
            }
            if !(a.method == b.method) {
                return false;
            }
            if !(a.path == b.path) {
                return false;
            }
            i = i + 1;
        }
        proof {
            assert(self@.entries =~= other@.entries);
            assert(self@ =~= other@);
        }
        true
    }
}

impl vstd::std_specs::cmp::PartialEqSpecImpl for Routes {
    open spec fn obeys_eq_spec() -> bool {
        true
    }

    /// `==` on route groups means equality of their values.
    open spec fn eq_spec(&self, other: &Routes) -> bool {
        self@ == other@
    }
}

} // verus!
