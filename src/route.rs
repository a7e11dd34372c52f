//! The route resolver: from a matched route to the page it shows.

use vstd::prelude::*;
use crate::storage::StoreOp;

verus! {

/// The routes of the app: `/`, `/w/<path..>`, `/e/<path..>`, `/d/<path..>`,
/// `/help`, and anything else. Path segments arrive percent-encoded.
#[derive(Debug, PartialEq)]
pub enum AppRoutes {
    Index,
    Wiki { path: Vec<String> },
    WikiEdit { path: Vec<String> },
    WikiDelete { path: Vec<String> },
    Help,
    NotFound,
}

/// How a page shows its document.
#[derive(Debug, Clone, Copy, PartialEq, Eq, Structural)]
pub enum Mode {
    /// Read-only.
    View,
    /// Editable, and saved as it is edited.
    Edit,
    /// Read-only, below a question whether to delete it.
    ConfirmDelete,
    /// The built-in help text: editable, never saved.
    Help,
    /// No such page.
    NotFound,
}

/// A resolved route: how to show which document.
#[derive(Debug, PartialEq)]
pub struct Page {
    pub mode: Mode,
    /// The key the document is stored under; empty for the home document.
    pub doc_id: String,
}

/// What `urlencoding::decode` makes of a text: the text with each `%XX`
/// escape decoded, or nothing where the result is not UTF-8.
pub uninterp spec fn url_decoded(s: Seq<char>) -> Option<Seq<char>>;

/// Relies on `urlencoding::decode`: it decodes the `%XX` escapes, fails only
/// where the decoded bytes are not UTF-8, and returns a text without `%`
/// unchanged.
#[verifier::external_body]
fn percent_decode(s: &str) -> (r: Option<String>)
    ensures
        match r {
            Some(d) => url_decoded(s@) == Some(d@),
            None => url_decoded(s@) is None,
        },
        !s@.contains('%') ==> r is Some && r->0@ == s@,
{
    urlencoding::decode(s).ok().map(|d| d.into_owned())
}

/// The segments of a path, as character sequences.
pub open spec fn segments(path: Seq<String>) -> Seq<Seq<char>> {
    path.map_values(|s: String| s@)
}

/// Each segment decoded, or nothing where one does not decode.
pub open spec fn decoded_segments(segs: Seq<Seq<char>>) -> Option<Seq<Seq<char>>>
    decreases segs.len(),
{
    if segs.len() == 0 {
        Some(Seq::empty())
    } else {
        match (decoded_segments(segs.drop_last()), url_decoded(segs.last())) {
            (Some(a), Some(b)) => Some(a.push(b)),
            _ => None,
        }
    }
}

/// Segments joined with `/`.
pub open spec fn joined(segs: Seq<Seq<char>>) -> Seq<char>
    decreases segs.len(),
{
    if segs.len() == 0 {
        Seq::empty()
    } else if segs.len() == 1 {
        segs[0]
    } else {
        joined(segs.drop_last()) + "/"@ + segs.last()
    }
}

/// The document key a path names: its decoded segments joined with `/`.
pub open spec fn doc_id_of(path: Seq<String>) -> Option<Seq<char>> {
    match decoded_segments(segments(path)) {
        Some(d) => Some(joined(d)),
        None => None,
    }
}

/// The key of the built-in help document.
pub const HELP_KEY: &'static str = "help";

/// The mode and document key a route resolves to. A path that does not
/// decode is not found.
pub open spec fn resolved(route: AppRoutes) -> (Mode, Seq<char>) {
    match route {
        AppRoutes::Index => (Mode::Edit, Seq::empty()),
        AppRoutes::Wiki { path } => match doc_id_of(path@) {
            Some(id) => (Mode::View, id),
            None => (Mode::NotFound, Seq::empty()),
        },
        AppRoutes::WikiEdit { path } => match doc_id_of(path@) {
            Some(id) => (Mode::Edit, id),
            None => (Mode::NotFound, Seq::empty()),
        },
        AppRoutes::WikiDelete { path } => match doc_id_of(path@) {
            Some(id) => (Mode::ConfirmDelete, id),
            None => (Mode::NotFound, Seq::empty()),
        },
        AppRoutes::Help => (Mode::Help, HELP_KEY@),
        AppRoutes::NotFound => (Mode::NotFound, Seq::empty()),
    }
}

/// Segments joined with `/`.
pub fn join_segments(segs: &Vec<String>) -> (r: String)
    ensures
        r@ == joined(segments(segs@)),
{
    let ghost all = segments(segs@);
    let mut id = String::new();
    let mut i: usize = 0;
    while i < segs.len()
        invariant
            0 <= i <= segs@.len(),
            all == segments(segs@),
            id@ == joined(all.take(i as int)),
        decreases segs@.len() - i,
    {
        proof {
            assert(all.take(i + 1).drop_last() =~= all.take(i as int));
        }
        if i > 0 {
            id.append("/");
        }
        id.append(segs[i].as_str());
        proof {
            if i == 0 {
                assert(id@ =~= joined(all.take(1)));
            } else {
                assert(id@ =~= joined(all.take(i + 1)));
            }
        }
        i = i + 1;
    }
    proof {
        assert(all.take(segs@.len() as int) =~= all);
    }
    id
}

/// Each segment percent-decoded, or `None` where one does not decode.
pub fn decode_segments(path: &Vec<String>) -> (r: Option<Vec<String>>)
    ensures
        match r {
            Some(d) => decoded_segments(segments(path@)) == Some(segments(d@)),
            None => decoded_segments(segments(path@)) is None,
        },
{
    let ghost segs = segments(path@);
    let mut out: Vec<String> = Vec::new();
    let mut i: usize = 0;
    while i < path.len()
        invariant
            0 <= i <= path@.len(),
            segs == segments(path@),
            decoded_segments(segs.take(i as int)) == Some(segments(out@)),
        decreases path@.len() - i,
    {
        proof {
            assert(segs.take(i + 1).drop_last() =~= segs.take(i as int));
            assert(segs.take(i + 1).last() == path@[i as int]@);
        }
        match percent_decode(path[i].as_str()) {
            Some(d) => {
                let ghost before = out@;
                out.push(d);
                proof {
                    assert(segments(out@) =~= segments(before).push(d@));
                }
                i = i + 1;
            },
            None => {
                proof {
                    lemma_undecodable_prefix(segs, i as int + 1);
                }
                return None;
            },
        }
    }
    proof {
        assert(segs.take(path@.len() as int) =~= segs);
    }
    Some(out)
}

/// The document key a path names, or `None` where a segment does not decode.
pub fn document_id(path: &Vec<String>) -> (r: Option<String>)
    ensures
        match r {
            Some(id) => doc_id_of(path@) == Some(id@),
            None => doc_id_of(path@) is None,
        },
{
    match decode_segments(path) {
        Some(d) => Some(join_segments(&d)),
        None => None,
    }
}

proof fn lemma_undecodable_prefix(segs: Seq<Seq<char>>, n: int)
    requires
        0 <= n <= segs.len(),
        decoded_segments(segs.take(n)) is None,
    ensures
        decoded_segments(segs) is None,
    decreases segs.len() - n,
{
    if n < segs.len() {
        assert(segs.take(n + 1).drop_last() =~= segs.take(n));
        lemma_undecodable_prefix(segs, n + 1);
    } else {
        assert(segs.take(n) =~= segs);
    }
}

fn page(mode: Mode, path: &Vec<String>) -> (r: Page)
    ensures
        match doc_id_of(path@) {
            Some(id) => r.mode == mode && r.doc_id@ == id,
            None => r.mode == Mode::NotFound && r.doc_id@ == Seq::<char>::empty(),
        },
{
    match document_id(path) {
        Some(id) => Page { mode, doc_id: id },
        None => Page { mode: Mode::NotFound, doc_id: String::new() },
    }
}

/// Resolves a route to the page it shows.
pub fn resolve(route: &AppRoutes) -> (r: Page)
    ensures
        (r.mode, r.doc_id@) == resolved(*route),
{
    match route {
        AppRoutes::Index => Page { mode: Mode::Edit, doc_id: String::new() },
        AppRoutes::Wiki { path } => page(Mode::View, path),
        AppRoutes::WikiEdit { path } => page(Mode::Edit, path),
        AppRoutes::WikiDelete { path } => page(Mode::ConfirmDelete, path),
        AppRoutes::Help => Page { mode: Mode::Help, doc_id: HELP_KEY.to_owned() },
        AppRoutes::NotFound => Page { mode: Mode::NotFound, doc_id: String::new() },
    }
}

} // verus!
