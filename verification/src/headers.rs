//! Header assembly for the outgoing request: the caller's entries first, then
//! the two headers that the relay always sets itself.

use vstd::prelude::*;
use crate::text::{
    lemma_names_match_symmetric, lemma_names_match_transitive, names_match, same_name,
};

verus! {

/// One header of a request: a name, compared without regard to ASCII letter
/// case, and a free-form value.
#[derive(Clone, Debug, PartialEq, Eq)]
pub struct Header {
    pub name: String,
    pub value: String,
}

/// A header as plain character sequences.
pub ghost struct HeaderView {
    pub name: Seq<char>,
    pub value: Seq<char>,
}

impl View for Header {
    type V = HeaderView;

    open spec fn view(&self) -> HeaderView {
        HeaderView { name: self.name@, value: self.value@ }
    }
}

/// The views of a list of headers, in order.
pub open spec fn header_views(hs: Seq<Header>) -> Seq<HeaderView> {
    hs.map_values(|h: Header| h@)
}

/// Name of the content type header.
pub open spec fn content_type_name() -> Seq<char> {
    "Content-Type"@
}

/// The content type that every outgoing request declares.
pub open spec fn content_type_value() -> Seq<char> {
    "application/json"@
}

/// Name of the client identity header.
pub open spec fn user_agent_name() -> Seq<char> {
    "User-Agent"@
}

/// The client identity that every outgoing request carries.
pub open spec fn user_agent_value() -> Seq<char> {
    "http-relay/0.1"@
}

/// The name denotes one of the two headers that the relay sets itself.
pub open spec fn is_reserved(name: Seq<char>) -> bool {
    names_match(name, content_type_name()) || names_match(name, user_agent_name())
}

/// The two headers that close every outgoing header list.
pub open spec fn mandatory_headers() -> Seq<HeaderView> {
    seq![
        HeaderView { name: content_type_name(), value: content_type_value() },
        HeaderView { name: user_agent_name(), value: user_agent_value() },
    ]
}

/// The caller's entries that reach the outgoing request: all but those that
/// name a reserved header, in the caller's order.
pub open spec fn caller_kept(hs: Seq<HeaderView>) -> Seq<HeaderView> {
    hs.filter(|h: HeaderView| !is_reserved(h.name))
}

/// The outgoing header list for the caller's list `hs`.
pub open spec fn assembled(hs: Seq<HeaderView>) -> Seq<HeaderView> {
    caller_kept(hs) + mandatory_headers()
}

/// The value that a header list gives to `name` when its entries are applied
/// in order, a later entry replacing an earlier one of the same name.
pub open spec fn effective(hs: Seq<HeaderView>, name: Seq<char>) -> Option<Seq<char>>
    decreases hs.len(),
{
    if hs.len() == 0 {
        None
    } else if names_match(hs.last().name, name) {
        Some(hs.last().value)
    } else {
        effective(hs.drop_last(), name)
    }
}

/// Nothing is kept of an empty list.
pub proof fn lemma_caller_kept_empty()
    ensures
        caller_kept(Seq::<HeaderView>::empty()) == Seq::<HeaderView>::empty(),
{
    reveal(Seq::filter);
}

/// An entry added at the end is kept at the end, unless its name is reserved.
pub proof fn lemma_caller_kept_push(hs: Seq<HeaderView>, h: HeaderView)
    ensures
        caller_kept(hs.push(h)) == if is_reserved(h.name) {
            caller_kept(hs)
        } else {
            caller_kept(hs).push(h)
        },
{
    reveal(Seq::filter);
    assert(hs.push(h).drop_last() =~= hs);
    assert(hs.push(h).last() == h);
}

/// No entry that the caller gets through names a reserved header.
pub proof fn lemma_caller_kept_not_reserved(hs: Seq<HeaderView>, i: int)
    requires
        0 <= i < caller_kept(hs).len(),
    ensures
        !is_reserved(caller_kept(hs)[i].name),
{
    hs.lemma_filter_pred(|h: HeaderView| !is_reserved(h.name), i);
}

/// Dropping the reserved entries changes the value of no other header.
pub proof fn lemma_caller_kept_effective(hs: Seq<HeaderView>, name: Seq<char>)
    requires
        !is_reserved(name),
    ensures
        effective(caller_kept(hs), name) == effective(hs, name),
    decreases hs.len(),
{
    if hs.len() == 0 {
        lemma_caller_kept_empty();
        assert(hs =~= Seq::<HeaderView>::empty());
    } else {
        let rest = hs.drop_last();
        let h = hs.last();
        assert(hs =~= rest.push(h));
        lemma_caller_kept_push(rest, h);
        lemma_caller_kept_effective(rest, name);
        if is_reserved(h.name) {
            if names_match(h.name, name) {
                lemma_names_match_symmetric(h.name, name);
                if names_match(h.name, content_type_name()) {
                    lemma_names_match_transitive(name, h.name, content_type_name());
                } else {
                    lemma_names_match_transitive(name, h.name, user_agent_name());
                }
            }
        } else {
            assert(caller_kept(hs).last() == h);
            assert(caller_kept(hs).drop_last() =~= caller_kept(rest));
        }
    }
}

/// The outgoing list is the caller's kept entries, none of which names a
/// reserved header, followed by exactly the two mandatory headers.
pub proof fn lemma_assembled_shape(hs: Seq<HeaderView>)
    ensures
        ({
            let out = assembled(hs);
            let n = caller_kept(hs).len() as int;
            &&& out.len() == n + 2
            &&& out.subrange(0, n) == caller_kept(hs)
            &&& forall|i: int| 0 <= i < n ==> !is_reserved((#[trigger] out[i]).name)
            &&& out[n] == mandatory_headers()[0]
            &&& out[n + 1] == mandatory_headers()[1]
        }),
{
    let out = assembled(hs);
    let n = caller_kept(hs).len() as int;
    assert(out.subrange(0, n) =~= caller_kept(hs));
    assert forall|i: int| 0 <= i < n implies !is_reserved((#[trigger] out[i]).name) by {
        lemma_caller_kept_not_reserved(hs, i);
    }
}

/// The caller cannot override a reserved header: whatever the caller's list
/// holds, and however the name is capitalised, the outgoing content type is
/// the fixed one and so is the client identity.
pub proof fn lemma_reserved_headers_fixed(hs: Seq<HeaderView>, name: Seq<char>)
    ensures
        names_match(name, content_type_name()) ==> effective(assembled(hs), name) == Some(
            content_type_value(),
        ),
        names_match(name, user_agent_name()) ==> effective(assembled(hs), name) == Some(
            user_agent_value(),
        ),
{
    reveal_strlit("Content-Type");
    reveal_strlit("User-Agent");
    let out = assembled(hs);
    let ct = HeaderView { name: content_type_name(), value: content_type_value() };
    let ua = HeaderView { name: user_agent_name(), value: user_agent_value() };
    assert(out.last() == ua);
    assert(out.drop_last() =~= caller_kept(hs).push(ct));
    assert(out.drop_last().last() == ct);
    lemma_names_match_symmetric(name, content_type_name());
    lemma_names_match_symmetric(name, user_agent_name());
    if names_match(name, content_type_name()) {
        assert(!names_match(ua.name, name));
        assert(effective(out, name) == effective(out.drop_last(), name));
    }
}

/// A header that is not reserved goes out as the caller gave it: its value in
/// the outgoing list is its value in the caller's list.
pub proof fn lemma_other_headers_kept(hs: Seq<HeaderView>, name: Seq<char>)
    requires
        !is_reserved(name),
    ensures
        effective(assembled(hs), name) == effective(hs, name),
{
    let out = assembled(hs);
    let ct = HeaderView { name: content_type_name(), value: content_type_value() };
    let ua = HeaderView { name: user_agent_name(), value: user_agent_value() };
    assert(out.last() == ua);
    assert(out.drop_last() =~= caller_kept(hs).push(ct));
    assert(out.drop_last().last() == ct);
    assert(out.drop_last().drop_last() =~= caller_kept(hs));
    lemma_names_match_symmetric(name, content_type_name());
    lemma_names_match_symmetric(name, user_agent_name());
    assert(effective(out, name) == effective(out.drop_last(), name));
    assert(effective(out.drop_last(), name) == effective(caller_kept(hs), name));
    lemma_caller_kept_effective(hs, name);
}

impl Header {
    /// A header with the given name and value.
    pub fn new(name: String, value: String) -> (h: Header)
        ensures
            h.name == name,
            h.value == value,
    {
        Header { name, value }
    }
}

/// Tells whether `name` denotes a header that the relay sets itself.
pub fn reserved_name(name: &str) -> (r: bool)
    ensures
        r == is_reserved(name@),
{
    same_name(name, "Content-Type") || same_name(name, "User-Agent")
}

/// Looks up the value that a header list gives to `name`: that of the last
/// entry whose name matches, if there is one.
pub fn effective_value(headers: &Vec<Header>, name: &str) -> (r: Option<String>)
    ensures
        match r {
            Some(value) => effective(header_views(headers@), name@) == Some(value@),
            None => effective(header_views(headers@), name@) is None,
        },
{
    let ghost all = header_views(headers@);
    let mut i: usize = headers.len();
    proof {
        assert(all.take(i as int) =~= all);
    }
    while i > 0
        invariant
            i <= headers.len(),
            all == header_views(headers@),
            effective(all, name@) == effective(all.take(i as int), name@),
        decreases i,
    {
        i -= 1;
        proof {
            assert(all.take(i + 1).drop_last() =~= all.take(i as int));
            assert(all.take(i + 1).last() == headers@[i as int]@);
        }
        if same_name(headers[i].name.as_str(), name) {
            return Some(headers[i].value.clone());
        }
    }
    None
}

/// Builds the outgoing header list: the caller's entries in their order,
/// without those that name a reserved header, then the fixed content type and
/// the fixed client identity.
pub fn assemble_headers(caller: &Vec<Header>) -> (out: Vec<Header>)
    ensures
        header_views(out@) == assembled(header_views(caller@)),
{
    let ghost given = header_views(caller@);
    let mut out: Vec<Header> = Vec::new();
    let mut i: usize = 0;
    proof {
        lemma_caller_kept_empty();
        assert(given.take(0) =~= Seq::<HeaderView>::empty());
        assert(header_views(out@) =~= Seq::<HeaderView>::empty());
    }
    while i < caller.len()
        invariant
            i <= caller.len(),
            given == header_views(caller@),
            header_views(out@) == caller_kept(given.take(i as int)),
        decreases caller.len() - i,
    {
        let h = &caller[i];
        let ghost before = out@;
        proof {
            assert(given.take(i + 1) =~= given.take(i as int).push(h@));
            lemma_caller_kept_push(given.take(i as int), h@);
        }
        if !reserved_name(h.name.as_str()) {
            out.push(Header { name: h.name.clone(), value: h.value.clone() });
            assert(header_views(out@) =~= header_views(before).push(h@));
        }
        i += 1;
    }
    let ghost kept = out@;
    out.push(Header { name: "Content-Type".to_string(), value: "application/json".to_string() });
    out.push(Header { name: "User-Agent".to_string(), value: "http-relay/0.1".to_string() });
    proof {
        assert(given.take(caller.len() as int) =~= given);
        assert(header_views(out@) =~= header_views(kept) + mandatory_headers());
    }
    out
}

} // verus!
