//! The directory of running servers, its listings and its query results.
//!
//! A listing hands out borrowed descriptions: they are good until the
//! directory is asked again. A query result hands out owned descriptions, and
//! is itself released as one group.

use vstd::prelude::*;
use crate::description::{
    borrowed_at, dispose_step, owned_at, DescriptionView, ServerDescription,
};
use crate::effect::Effect;
use crate::handle::{release_step, released, Handle, HandleView};
use crate::text::{bytes_view, c_name, c_name_of, chars_view, text_in_reply, text_of_reply};

verus! {

/// The addresses in `raw` that are not null, in their order.
pub open spec fn nonnull(raw: Seq<usize>) -> Seq<usize>
    decreases raw.len(),
{
    if raw.len() == 0 {
        Seq::empty()
    } else if raw.last() != 0 {
        nonnull(raw.drop_last()).push(raw.last())
    } else {
        nonnull(raw.drop_last())
    }
}

/// What is known of each description in a row of them.
pub open spec fn views(ds: Seq<ServerDescription>) -> Seq<DescriptionView> {
    ds.map_values(|d: ServerDescription| d@)
}

/// The listing that the directory makes of the addresses that the native side
/// gave for the indices from zero on: a borrowed description for each that is
/// not null.
pub open spec fn listing_of(raw: Seq<usize>) -> Seq<DescriptionView> {
    nonnull(raw).map_values(|a: usize| borrowed_at(a))
}

/// What a query result hands out for the addresses that the native side gave
/// for the indices from zero on: an owned description for each that is not
/// null.
pub open spec fn matches_of(raw: Seq<usize>) -> Seq<DescriptionView> {
    nonnull(raw).map_values(|a: usize| owned_at(a))
}

/// The arguments of the native query for servers by name and application
/// name. A null name does not filter.
#[derive(Debug, PartialEq, Eq)]
pub struct MatchQuery {
    /// The address of the directory.
    pub directory: usize,
    /// The C string of the server name to match, or null.
    pub name: Option<Vec<u8>>,
    /// The C string of the application name to match, or null.
    pub app_name: Option<Vec<u8>>,
}

/// The directory of the servers that are running now. There is one for the
/// process; it is never released.
pub struct ServerDirectory {
    addr: usize,
}

/// What is known of a [`ServerDirectory`].
pub struct DirectoryView {
    /// The address of the native directory.
    pub addr: usize,
}

impl View for ServerDirectory {
    type V = DirectoryView;

    closed spec fn view(&self) -> DirectoryView {
        DirectoryView { addr: self.addr }
    }
}

/// The servers that matched a query by name. Its descriptions are owned; the
/// result itself is released as a whole.
pub struct ServerDirectoryMatch {
    handle: Handle,
}

impl View for ServerDirectoryMatch {
    type V = HandleView;

    closed spec fn view(&self) -> HandleView {
        self.handle@
    }
}

/// The name of the notification that tells of a new server, from the bytes
/// that the native side gave for it. Absent where it gave none or no
/// well-formed text.
pub fn notification_name_server_announce(reply: Option<&[u8]>) -> (name: Option<String>)
    ensures
        chars_view(name) == text_in_reply(reply),
{
    text_of_reply(reply)
}

/// The name of the notification that tells of a changed description of a
/// server, from the bytes that the native side gave for it. Absent where it
/// gave none or no well-formed text.
pub fn notification_name_server_update(reply: Option<&[u8]>) -> (name: Option<String>)
    ensures
        chars_view(name) == text_in_reply(reply),
{
    text_of_reply(reply)
}

/// The name of the notification that tells of a server that goes away, from
/// the bytes that the native side gave for it. Absent where it gave none or
/// no well-formed text.
pub fn notification_name_server_retire(reply: Option<&[u8]>) -> (name: Option<String>)
    ensures
        chars_view(name) == text_in_reply(reply),
{
    text_of_reply(reply)
}

impl ServerDirectory {
    #[verifier::type_invariant]
    spec fn nonnull(self) -> bool {
        self.addr != 0
    }

    /// Wraps the shared directory that the native side returned. A null
    /// pointer means that there is none.
    pub fn shared(raw: usize) -> (d: Option<ServerDirectory>)
        ensures
            d is None <==> raw == 0,
            d matches Some(d) ==> d@.addr == raw,
    {
        if raw == 0 {
            None
        } else {
            Some(ServerDirectory { addr: raw })
        }
    }

    /// The address for a native call. It is never null.
    pub fn as_ptr(&self) -> (p: usize)
        ensures
            p == self@.addr,
            p != 0,
    {
        proof {
            use_type_invariant(self);
        }
        self.addr
    }

    /// The number of servers in the directory, as the native side counted
    /// them just now.
    pub fn servers_count(&self, reply: usize) -> (count: usize)
        ensures
            count == reply,
    {
        reply
    }

    /// The description that the native side gave for one index of the
    /// listing. It is borrowed. A null pointer gives nothing.
    pub fn server_at_index(&self, raw: usize) -> (d: Option<ServerDescription>)
        ensures
            d is None <==> raw == 0,
            d matches Some(d) ==> d@ == borrowed_at(raw),
    {
        ServerDescription::borrowed(raw)
    }

    /// The listing of all servers, from the addresses that the native side
    /// gave for the indices from zero up to its count. The descriptions are
    /// borrowed and keep the order of the indices; a null address is passed
    /// over.
    pub fn servers(&self, raw: &[usize]) -> (list: Vec<ServerDescription>)
        ensures
            views(list@) == listing_of(raw@),
    {
        let mut list: Vec<ServerDescription> = Vec::new();
        let mut i: usize = 0;
        while i < raw.len()
            invariant
                i <= raw@.len(),
                views(list@) == listing_of(raw@.take(i as int)),
            decreases raw@.len() - i,
        {
            let ghost seen = raw@.take(i as int);
            let ghost before = list@;
            assert(raw@.take(i + 1).drop_last() == seen);
            assert(raw@.take(i + 1).last() == raw@[i as int]);
            match ServerDescription::borrowed(raw[i]) {
                Some(d) => {
                    list.push(d);
                    assert(views(list@) == views(before).push(borrowed_at(raw@[i as int])));
                    assert(listing_of(raw@.take(i + 1)) == listing_of(seen).push(
                        borrowed_at(raw@[i as int]),
                    ));
                },
                None => {},
            }
            i += 1;
        }
        assert(raw@.take(i as int) == raw@);
        list
    }

    /// The arguments of the native query for the servers with the given name
    /// and application name. An absent name does not filter, and neither
    /// does one that has no C string.
    pub fn servers_matching_request(&self, name: Option<&str>, app_name: Option<&str>) -> (q:
        MatchQuery)
        ensures
            q.directory == self@.addr,
            q.directory != 0,
            bytes_view(q.name) == c_name_of(name),
            bytes_view(q.app_name) == c_name_of(app_name),
    {
        MatchQuery { directory: self.as_ptr(), name: c_name(name), app_name: c_name(app_name) }
    }

    /// The query result that the native side returned. A null pointer gives
    /// nothing.
    pub fn servers_matching(&self, raw: usize) -> (m: Option<ServerDirectoryMatch>)
        ensures
            m is None <==> raw == 0,
            m matches Some(m) ==> m@ == (HandleView { addr: raw, live: true }),
    {
        match Handle::new(raw) {
            Some(handle) => Some(ServerDirectoryMatch { handle }),
            None => None,
        }
    }
}

impl ServerDirectoryMatch {
    /// The address for a native call, until the result has been released.
    pub fn as_ptr(&self) -> (p: Option<usize>)
        ensures
            p == (if self@.live { Some(self@.addr) } else { None }),
            self@.addr != 0,
    {
        self.handle.as_ptr()
    }

    /// The number of descriptions in the result, as the native side counted
    /// them. A released result holds none.
    pub fn count(&self, reply: usize) -> (count: usize)
        ensures
            count == (if self@.live { reply } else { 0 }),
    {
        match self.handle.as_ptr() {
            Some(_) => reply,
            None => 0,
        }
    }

    /// The description that the native side gave for one index of the result.
    /// It is owned. A null pointer gives nothing, and so does a result that
    /// has been released.
    pub fn at(&self, raw: usize) -> (d: Option<ServerDescription>)
        ensures
            d is Some <==> raw != 0 && self@.live,
            d matches Some(d) ==> d@ == owned_at(raw),
    {
        match self.handle.as_ptr() {
            Some(_) => ServerDescription::owned(raw),
            None => None,
        }
    }

    /// All descriptions of the result, from the addresses that the native
    /// side gave for the indices from zero up to its count. Each is owned;
    /// they keep the order of the indices, and a null address is passed over.
    /// A result that has been released hands out none.
    pub fn iter(&self, raw: &[usize]) -> (list: Vec<ServerDescription>)
        ensures
            views(list@) == (if self@.live {
                matches_of(raw@)
            } else {
                Seq::empty()
            }),
    {
        let mut list: Vec<ServerDescription> = Vec::new();
        if self.handle.as_ptr().is_none() {
            assert(views(list@) == Seq::<DescriptionView>::empty());
            return list;
        }
        let mut i: usize = 0;
        while i < raw.len()
            invariant
                i <= raw@.len(),
                views(list@) == matches_of(raw@.take(i as int)),
            decreases raw@.len() - i,
        {
            let ghost seen = raw@.take(i as int);
            let ghost before = list@;
            assert(raw@.take(i + 1).drop_last() == seen);
            assert(raw@.take(i + 1).last() == raw@[i as int]);
            match ServerDescription::owned(raw[i]) {
                Some(d) => {
                    list.push(d);
                    assert(views(list@) == views(before).push(owned_at(raw@[i as int])));
                    assert(matches_of(raw@.take(i + 1)) == matches_of(seen).push(
                        owned_at(raw@[i as int]),
                    ));
                },
                None => {},
            }
            i += 1;
        }
        assert(raw@.take(i as int) == raw@);
        list
    }

    /// Lets go of the result. The first call asks for the release of the
    /// whole group, a later call for nothing.
    pub fn dispose(&mut self) -> (e: Option<Effect>)
        ensures
            e == release_step(old(self)@),
            final(self)@ == released(old(self)@),
    {
        self.handle.release()
    }
}

/// Where the native side gives a description for every index, nothing is
/// passed over.
pub proof fn lemma_nonnull_keeps_all(raw: Seq<usize>)
    requires
        forall|i: int| 0 <= i < raw.len() ==> raw[i] != 0,
    ensures
        nonnull(raw) == raw,
    decreases raw.len(),
{
    if raw.len() > 0 {
        lemma_nonnull_keeps_all(raw.drop_last());
        assert(raw.drop_last().push(raw.last()) == raw);
    }
}

/// A query result of `raw.len()` servers hands out exactly that many
/// descriptions, each of them owned and each for its own index.
pub proof fn lemma_match_yields_each_once(raw: Seq<usize>)
    requires
        forall|i: int| 0 <= i < raw.len() ==> raw[i] != 0,
    ensures
        matches_of(raw).len() == raw.len(),
        forall|i: int| 0 <= i < raw.len() ==> #[trigger] matches_of(raw)[i] == owned_at(raw[i]),
{
    lemma_nonnull_keeps_all(raw);
}

/// A listing hands out borrowed descriptions only, and no more of them than
/// the native side gave addresses. To discard a listing releases nothing.
pub proof fn lemma_listing_is_borrowed(raw: Seq<usize>)
    ensures
        listing_of(raw).len() <= raw.len(),
        forall|i: int|
            0 <= i < listing_of(raw).len() ==> !(#[trigger] listing_of(raw)[i]).owned
                && listing_of(raw)[i].addr != 0 && dispose_step(listing_of(raw)[i]) is None,
    decreases raw.len(),
{
    if raw.len() > 0 {
        lemma_listing_is_borrowed(raw.drop_last());
        let prev = listing_of(raw.drop_last());
        if raw.last() != 0 {
            assert(listing_of(raw) == prev.push(borrowed_at(raw.last())));
        } else {
            assert(listing_of(raw) == prev);
        }
    }
}

/// A query without filters tells of the same servers as the listing, in the
/// same order; only that its descriptions are owned.
pub proof fn lemma_query_and_listing_agree(raw: Seq<usize>)
    ensures
        matches_of(raw).len() == listing_of(raw).len(),
        forall|i: int|
            0 <= i < listing_of(raw).len() ==> (#[trigger] matches_of(raw)[i]).addr
                == listing_of(raw)[i].addr && matches_of(raw)[i].owned && !listing_of(
                raw,
            )[i].owned,
{
}

} // verus!
