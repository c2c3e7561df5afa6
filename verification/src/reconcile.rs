//! Authorization reconciliation: keep the active subscription filter in step
//! with the configured authorized-sender list.
//!
//! The list is compared with the previous snapshot under set semantics, so a
//! reordering of the configuration never churns the subscription. When the
//! set changed (or on the very first run, unconditionally), a new filter
//! description is produced: its authors are the decodable entries of the
//! list, its lower time bound is the present time, and the snapshot is
//! replaced. The transport that retires the old filter and installs the new
//! one lives outside this crate and acts exactly when a filter is returned.

use vstd::prelude::*;

use crate::codec::npub_decode;
use crate::codec::npub_to_hex_raw;

verus! {

/// Event kind tag of an encrypted direct message.
pub const DM_KIND: u16 = 4;

/// The strings of `s`, each as its character sequence.
pub open spec fn views_of(s: Seq<String>) -> Seq<Seq<char>> {
    s.map_values(|x: String| x@)
}

/// `x` occurs in `s`.
pub open spec fn has_str(s: Seq<Seq<char>>, x: Seq<char>) -> bool {
    exists|i: int| 0 <= i < s.len() && s[i] == x
}

/// `a` and `b` hold the same strings, in any order and multiplicity.
pub open spec fn set_eq(a: Seq<Seq<char>>, b: Seq<Seq<char>>) -> bool {
    (forall|i: int| 0 <= i < a.len() ==> has_str(b, #[trigger] a[i])) && (forall|i: int|
        0 <= i < b.len() ==> has_str(a, #[trigger] b[i]))
}

/// Whether a reconciliation step must install a new filter: always on the
/// first run, afterwards exactly when the authorized set changed.
pub open spec fn needs_update(prev: Option<Seq<Seq<char>>>, current: Seq<Seq<char>>) -> bool {
    match prev {
        None => true,
        Some(p) => !set_eq(p, current),
    }
}

/// The authors a filter built from `s` carries: the entries that decode as
/// bech32 identifiers, decoded to hex, in order; the rest are skipped.
pub open spec fn decoded_authors(s: Seq<Seq<char>>) -> Seq<Seq<char>>
    decreases s.len(),
{
    if s.len() == 0 {
        Seq::empty()
    } else {
        let rest = decoded_authors(s.drop_first());
        match npub_decode(s.first()) {
            Some(h) => seq![h] + rest,
            None => rest,
        }
    }
}

/// A subscription filter: direct messages to `recipient` from one of
/// `authors`, no older than `since`. An empty author list admits no one.
#[derive(Clone, Debug)]
pub struct FilterSpec {
    /// Hex public identifier of the agent the messages are addressed to.
    pub recipient: String,
    /// Hex public identifiers of the senders the filter admits.
    pub authors: Vec<String>,
    /// Lower bound on the event timestamp.
    pub since: u64,
}

/// The filter delivers an event with these coordinates.
pub open spec fn admits(
    f: &FilterSpec,
    kind: u16,
    recipient: Seq<char>,
    author: Seq<char>,
    created_at: u64,
) -> bool {
    kind == DM_KIND && recipient == f.recipient@ && has_str(views_of(f.authors@), author)
        && created_at >= f.since
}

/// Whether `x` is one of the strings of `v`.
pub fn member(v: &Vec<String>, x: &String) -> (r: bool)
    ensures
        r == has_str(views_of(v@), x@),
{
    let mut i: usize = 0;
    while i < v.len()
        invariant
            i <= v@.len(),
            forall|j: int| 0 <= j < i ==> views_of(v@)[j] != x@,
        decreases v@.len() - i,
    {
        if *x == v[i] {
            assert(views_of(v@)[i as int] == x@);
            return true;
        }
        i += 1;
    }
    false
}

fn subset_of(a: &Vec<String>, b: &Vec<String>) -> (r: bool)
    ensures
        r == (forall|i: int| 0 <= i < a@.len() ==> has_str(views_of(b@), #[trigger] views_of(a@)[i])),
{
    let mut i: usize = 0;
    while i < a.len()
        invariant
            i <= a@.len(),
            forall|j: int| 0 <= j < i ==> has_str(views_of(b@), #[trigger] views_of(a@)[j]),
        decreases a@.len() - i,
    {
        if !member(b, &a[i]) {
            assert(views_of(a@)[i as int] == a@[i as int]@);
            assert(!has_str(views_of(b@), views_of(a@)[i as int]));
            return false;
        }
        i += 1;
    }
    true
}

/// Whether two author lists are equal as sets of strings.
pub fn sets_equal(a: &Vec<String>, b: &Vec<String>) -> (r: bool)
    ensures
        r == set_eq(views_of(a@), views_of(b@)),
{
    let fwd = subset_of(a, b);
    let bwd = subset_of(b, a);
    fwd && bwd
}

fn clone_strings(v: &Vec<String>) -> (r: Vec<String>)
    ensures
        views_of(r@) == views_of(v@),
{
    let mut out: Vec<String> = Vec::new();
    let mut i: usize = 0;
    while i < v.len()
        invariant
            i <= v@.len(),
            out@.len() == i,
            forall|j: int| 0 <= j < i ==> views_of(out@)[j] == views_of(v@)[j],
        decreases v@.len() - i,
    {
        out.push(v[i].clone());
        i += 1;
    }
    assert(views_of(out@) =~= views_of(v@));
    out
}

fn decode_authors(v: &Vec<String>) -> (r: Vec<String>)
    ensures
        views_of(r@) == decoded_authors(views_of(v@)),
{
    let mut out: Vec<String> = Vec::new();
    let mut i: usize = 0;
    assert(views_of(v@).skip(0) == views_of(v@));
    while i < v.len()
        invariant
            i <= v@.len(),
            decoded_authors(views_of(v@)) =~= views_of(out@) + decoded_authors(
                views_of(v@).skip(i as int),
            ),
        decreases v@.len() - i,
    {
        let ghost pre = views_of(v@).skip(i as int);
        assert(pre.first() == v@[i as int]@);
        assert(pre.drop_first() =~= views_of(v@).skip(i + 1));
        let ghost out0 = views_of(out@);
        match npub_to_hex_raw(v[i].as_str()) {
            Some(h) => {
                let ghost hv = h@;
                out.push(h);
                assert(views_of(out@) =~= out0.push(hv));
                assert(out0 + (seq![hv] + decoded_authors(views_of(v@).skip(i + 1))) =~= out0.push(
                    hv,
                ) + decoded_authors(views_of(v@).skip(i + 1)));
            },
            None => {
            },
        }
        i += 1;
    }
    assert(views_of(v@).skip(v@.len() as int) =~= Seq::empty());
    assert(views_of(out@) + decoded_authors(Seq::empty()) =~= views_of(out@));
    out
}

/// The reconciler: the agent's identifier and the authorized-list snapshot
/// behind the currently installed filter, if one was installed yet.
pub struct Reconciler {
    /// Hex public identifier of the agent; filters are addressed to it.
    pub recipient: String,
    /// The authorized list as of the last installed filter.
    pub prev: Option<Vec<String>>,
}

impl Reconciler {
    /// A fresh reconciler: no filter was installed yet, so the first
    /// reconciliation installs one unconditionally.
    pub fn new(recipient: String) -> (r: Reconciler)
        ensures
            r.recipient == recipient,
            r.prev is None,
    {
        Reconciler { recipient, prev: None }
    }

    /// One reconciliation step against the configured list `current` at time
    /// `now`: returns the filter to install when the authorized set changed
    /// (or on the first run), and nothing when it is unchanged.
    pub fn reconcile(&mut self, current: &Vec<String>, now: u64) -> (r: Option<FilterSpec>)
        ensures
            final(self).recipient == old(self).recipient,
            r is Some <==> (needs_update(prev_views(&old(self).prev), views_of(current@))),
            r matches Some(f) ==> (f.recipient@ == old(self).recipient@ && views_of(f.authors@)
                == decoded_authors(views_of(current@)) && f.since == now),
            r is Some ==> (final(self).prev matches Some(p) && views_of(p@) == views_of(
                current@,
            )),
            r is None ==> final(self).prev == old(self).prev,
    {
        let unchanged = match &self.prev {
            None => false,
            Some(p) => sets_equal(p, current),
        };
        if unchanged {
            return None;
        }
        let authors = decode_authors(current);
        let filter = FilterSpec { recipient: self.recipient.clone(), authors, since: now };
        self.prev = Some(clone_strings(current));
        Some(filter)
    }
}

/// The snapshot a reconciler holds, as character sequences.
pub open spec fn prev_views(prev: &Option<Vec<String>>) -> Option<Seq<Seq<char>>> {
    match prev {
        None => None,
        Some(p) => Some(views_of(p@)),
    }
}

/// Law: reconciliation ignores element order. Against a snapshot that holds
/// the same strings as the current list — in any order — no new filter is
/// installed.
pub proof fn lemma_order_insensitive(s1: Seq<Seq<char>>, s2: Seq<Seq<char>>)
    requires
        set_eq(s1, s2),
    ensures
        !needs_update(Some(s1), s2),
{
}

/// Law: the change test is set equality proper: two lists compare as
/// unchanged exactly when they hold the same set of strings.
pub proof fn lemma_set_eq_is_set_equality(a: Seq<Seq<char>>, b: Seq<Seq<char>>)
    ensures
        set_eq(a, b) <==> a.to_set() == b.to_set(),
{
    if set_eq(a, b) {
        assert forall|x: Seq<char>| a.to_set().contains(x) implies b.to_set().contains(x) by {
            let i = choose|i: int| 0 <= i < a.len() && a[i] == x;
            assert(has_str(b, a[i]));
        }
        assert forall|x: Seq<char>| b.to_set().contains(x) implies a.to_set().contains(x) by {
            let i = choose|i: int| 0 <= i < b.len() && b[i] == x;
            assert(has_str(a, b[i]));
        }
        assert(a.to_set() =~= b.to_set());
    }
    if a.to_set() == b.to_set() {
        assert forall|i: int| 0 <= i < a.len() implies has_str(b, #[trigger] a[i]) by {
            assert(a.to_set().contains(a[i]));
            assert(b.to_set().contains(a[i]));
        }
        assert forall|i: int| 0 <= i < b.len() implies has_str(a, #[trigger] b[i]) by {
            assert(b.to_set().contains(b[i]));
            assert(a.to_set().contains(b[i]));
        }
    }
}

/// Law: a sender outside a filter's author list is not admitted by that
/// filter, whatever the other coordinates of the event.
pub proof fn lemma_unauthorized_not_admitted(
    f: &FilterSpec,
    kind: u16,
    recipient: Seq<char>,
    author: Seq<char>,
    created_at: u64,
)
    requires
        !has_str(views_of(f.authors@), author),
    ensures
        !admits(f, kind, recipient, author, created_at),
{
}

/// Law: a hex identifier that no entry of the configured list decodes to is
/// not among the authors of a filter built from that list.
pub proof fn lemma_not_decoded_not_author(s: Seq<Seq<char>>, a: Seq<char>)
    requires
        forall|i: int| 0 <= i < s.len() ==> npub_decode(#[trigger] s[i]) != Some(a),
    ensures
        !has_str(decoded_authors(s), a),
    decreases s.len(),
{
    if s.len() > 0 {
        assert(forall|i: int|
            0 <= i < s.drop_first().len() ==> npub_decode(#[trigger] s.drop_first()[i]) != Some(
                a,
            )) by {
            assert(forall|i: int|
                0 <= i < s.drop_first().len() ==> s.drop_first()[i] == s[i + 1]);
        }
        lemma_not_decoded_not_author(s.drop_first(), a);
        let rest = decoded_authors(s.drop_first());
        match npub_decode(s.first()) {
            Some(h) => {
                assert(npub_decode(s[0]) != Some(a));
                assert(h != a);
                if has_str(seq![h] + rest, a) {
                    let i = choose|i: int|
                        0 <= i < (seq![h] + rest).len() && (seq![h] + rest)[i] == a;
                    if i == 0 {
                        assert((seq![h] + rest)[0] == h);
                    } else {
                        assert((seq![h] + rest)[i] == rest[i - 1]);
                        assert(has_str(rest, a));
                    }
                }
            },
            None => {
            },
        }
    }
}

} // verus!
