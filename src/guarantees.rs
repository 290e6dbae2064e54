use vstd::prelude::*;
use crate::auth::{authorized, has_prefix, token_of, BEARER_PREFIX};
use crate::blobs::{bucket_after, get_reply_agrees, BlobCommandView, Bucket};
use crate::models::UserView;
use crate::routes::{dispatch_of, gated, route_of, DispatchView, Method};
use crate::store::{
    all_valid, fetch_reply_agrees, list_reply_agrees, namespace_after, namespace_after_all,
    record_user, users_of, CommandView, Namespace, Record, StoreError,
};

verus! {

/// The store commands of a series of users, in order.
pub open spec fn puts(users: Seq<UserView>) -> Seq<CommandView> {
    users.map_values(|u: UserView| CommandView::Put(u))
}

/// No two users of the series share an id.
pub open spec fn distinct_ids(users: Seq<UserView>) -> bool {
    forall|i: int, j: int|
        0 <= i < users.len() && 0 <= j < users.len() && i != j ==> users[i].id != users[j].id
}

/// A user that has been stored can be read back: a lookup of its id answers
/// with that very user.
pub proof fn lemma_created_user_is_retrievable(ns: Namespace, user: UserView, reply: Option<Record>)
    requires
        fetch_reply_agrees(namespace_after(ns, CommandView::Put(user)), user.id, reply),
    ensures
        reply is Some,
        record_user(reply->0) == Some(user),
{
}

/// A lookup of an id that the hash does not hold answers with an explicit
/// absence, never with a failure or a record.
pub proof fn lemma_absent_id_is_not_found(ns: Namespace, id: Seq<char>, reply: Option<Record>)
    requires
        !ns.contains_key(id),
        fetch_reply_agrees(ns, id, reply),
    ensures
        reply is None,
{
}

/// Removing an id that the hash does not hold changes nothing.
pub proof fn lemma_delete_absent_is_noop(ns: Namespace, id: Seq<char>)
    requires
        !ns.contains_key(id),
    ensures
        namespace_after(ns, CommandView::Remove(id)) == ns,
{
    assert(namespace_after(ns, CommandView::Remove(id)) =~= ns);
}

/// After a user is stored and then removed, a lookup of its id answers with
/// an explicit absence.
pub proof fn lemma_store_delete_retrieve(ns: Namespace, user: UserView, reply: Option<Record>)
    requires
        fetch_reply_agrees(
            namespace_after(
                namespace_after(ns, CommandView::Put(user)),
                CommandView::Remove(user.id),
            ),
            user.id,
            reply,
        ),
    ensures
        reply is None,
{
}

/// After a series of users with distinct ids is stored, each of them sits at
/// its own id.
pub proof fn lemma_stored_users_present(ns: Namespace, users: Seq<UserView>)
    requires
        distinct_ids(users),
    ensures
        forall|i: int|
            0 <= i < users.len() ==> #[trigger] namespace_after_all(ns, puts(users)).contains_key(
                users[i].id,
            ) && namespace_after_all(ns, puts(users))[users[i].id] == users[i],
    decreases users.len(),
{
    if users.len() > 0 {
        let init = users.drop_last();
        assert(puts(users).drop_last() =~= puts(init));
        assert(distinct_ids(init));
        lemma_stored_users_present(ns, init);
        let before = namespace_after_all(ns, puts(init));
        let after = namespace_after_all(ns, puts(users));
        assert(after == before.insert(users.last().id, users.last()));
        assert forall|i: int| 0 <= i < users.len() implies #[trigger] after.contains_key(
            users[i].id,
        ) && after[users[i].id] == users[i] by {
            if i < users.len() - 1 {
                assert(init[i] == users[i]);
                assert(users[i].id != users[users.len() - 1].id);
            }
        }
    }
}

/// A listing taken after a series of users with distinct ids was stored
/// decodes in full and holds each of them.
pub proof fn lemma_list_holds_created(ns: Namespace, users: Seq<UserView>, reply: Seq<Record>)
    requires
        distinct_ids(users),
        list_reply_agrees(namespace_after_all(ns, puts(users)), reply),
    ensures
        all_valid(reply),
        forall|i: int| 0 <= i < users.len() ==> users_of(reply).contains(#[trigger] users[i]),
{
    let after = namespace_after_all(ns, puts(users));
    lemma_stored_users_present(ns, users);
    assert forall|i: int| 0 <= i < users.len() implies users_of(reply).contains(
        #[trigger] users[i],
    ) by {
        assert(after.contains_key(users[i].id));
        let j = choose|j: int| 0 <= j < reply.len() && record_user(reply[j]) == Some(after[users[i].id]);
        assert(users_of(reply)[j] == users[i]);
    }
}

/// A listing taken after an id was removed holds no user with that id.
pub proof fn lemma_list_omits_deleted(ns: Namespace, id: Seq<char>, reply: Seq<Record>)
    requires
        list_reply_agrees(namespace_after(ns, CommandView::Remove(id)), reply),
    ensures
        forall|i: int| 0 <= i < reply.len() ==> (#[trigger] users_of(reply)[i]).id != id,
{
    assert forall|i: int| 0 <= i < reply.len() implies (#[trigger] users_of(reply)[i]).id != id by {
        assert(record_user(reply[i]) is Some);
    }
}

/// A request to a gated route without an `Authorization` header, with one
/// that does not open with the bearer prefix, or with a token other than the
/// configured one, is refused, and no handler is selected.
pub proof fn lemma_gated_route_refuses(
    method: Method,
    path: Seq<char>,
    header: Option<Seq<char>>,
    secret: Seq<char>,
)
    requires
        route_of(method, path) is Some,
        gated(route_of(method, path)->0),
        header is None || !has_prefix(header->0, BEARER_PREFIX@) || token_of(header) != Some(
            secret,
        ),
    ensures
        dispatch_of(method, path, header, secret) == DispatchView::Unauthorized,
{
}

/// A request to a gated route whose header is the bearer prefix followed by
/// exactly the configured token reaches that route's handler.
pub proof fn lemma_gated_route_admits(method: Method, path: Seq<char>, secret: Seq<char>)
    requires
        route_of(method, path) is Some,
    ensures
        dispatch_of(method, path, Some(BEARER_PREFIX@ + secret), secret) == DispatchView::Handle(
            route_of(method, path)->0,
        ),
{
    let h = BEARER_PREFIX@ + secret;
    assert(h.subrange(0, BEARER_PREFIX@.len() as int) =~= BEARER_PREFIX@);
    assert(h.subrange(BEARER_PREFIX@.len() as int, h.len() as int) =~= secret);
    assert(authorized(Some(h), secret));
}

/// Reading a blob back after writing it gives the bytes written, wherever
/// the read succeeds.
pub proof fn lemma_upload_then_download(
    b: Bucket,
    name: Seq<char>,
    bytes: Seq<u8>,
    reply: Result<Vec<u8>, StoreError>,
)
    requires
        get_reply_agrees(bucket_after(b, BlobCommandView::Put(name, bytes)), name, reply),
        reply is Ok,
    ensures
        reply->Ok_0@ == bytes,
{
}

} // verus!
