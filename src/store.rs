use vstd::prelude::*;
use crate::models::{User, UserView};

verus! {

/// The one hash of the key-value backend that holds every user.
pub const USERS_HASH: &'static str = "users";

/// A failure of a storage backend: it could not be reached, answered outside
/// its protocol, or held a value that does not decode.
#[derive(PartialEq, Eq, Structural, Clone, Copy, Debug)]
pub enum StoreError {
    Unavailable,
}

/// One command to the key-value backend, on the users hash.
pub enum EntityCommand {
    /// Every value of the hash.
    ListAll,
    /// The value at one field.
    Fetch(String),
    /// Write a user at the field of its id, replacing what was there.
    Put(User),
    /// Remove a field; a field that is absent is no error.
    Remove(String),
}

pub enum CommandView {
    ListAll,
    Fetch(Seq<char>),
    Put(UserView),
    Remove(Seq<char>),
}

impl View for EntityCommand {
    type V = CommandView;

    open spec fn view(&self) -> CommandView {
        match self {
            EntityCommand::ListAll => CommandView::ListAll,
            EntityCommand::Fetch(id) => CommandView::Fetch(id@),
            EntityCommand::Put(u) => CommandView::Put(u@),
            EntityCommand::Remove(id) => CommandView::Remove(id@),
        }
    }
}

/// A stored value as read back from the backend: a user, or text that does
/// not decode as one.
pub enum Record {
    Valid(User),
    Corrupt,
}

pub open spec fn record_user(r: Record) -> Option<UserView> {
    match r {
        Record::Valid(u) => Some(u@),
        Record::Corrupt => None,
    }
}

/// The contents of the users hash: from id to the user stored there.
pub type Namespace = Map<Seq<char>, UserView>;

/// The hash after the backend has carried out a command.
pub open spec fn namespace_after(ns: Namespace, cmd: CommandView) -> Namespace {
    match cmd {
        CommandView::Put(u) => ns.insert(u.id, u),
        CommandView::Remove(id) => ns.remove(id),
        _ => ns,
    }
}

/// The hash after a series of commands, in order.
pub open spec fn namespace_after_all(ns: Namespace, cmds: Seq<CommandView>) -> Namespace
    decreases cmds.len(),
{
    if cmds.len() == 0 {
        ns
    } else {
        namespace_after(
            namespace_after_all(ns, cmds.drop_last()),
            cmds.last(),
        )
    }
}

/// The user at a field, if there is one.
pub open spec fn fetched(ns: Namespace, id: Seq<char>) -> Option<UserView> {
    if ns.contains_key(id) {
        Some(ns[id])
    } else {
        None
    }
}

/// A reply to `Fetch(id)` that a backend holding `ns` gives.
pub open spec fn fetch_reply_agrees(ns: Namespace, id: Seq<char>, reply: Option<Record>) -> bool {
    match reply {
        None => fetched(ns, id) is None,
        Some(rec) => record_user(rec) is Some && fetched(ns, id) == record_user(rec),
    }
}

/// A reply to `ListAll` that a backend holding `ns` gives: each value of the
/// hash once, in an order of the backend's choosing.
pub open spec fn list_reply_agrees(ns: Namespace, reply: Seq<Record>) -> bool {
    &&& reply.len() == ns.len()
    &&& forall|i: int|
        0 <= i < reply.len() ==> #[trigger] record_user(reply[i]) is Some
            && ns.contains_key(record_user(reply[i])->0.id)
            && ns[record_user(reply[i])->0.id] == record_user(reply[i])->0
    &&& forall|k: Seq<char>|
        #[trigger] ns.contains_key(k) ==> exists|i: int|
            0 <= i < reply.len() && record_user(reply[i]) == Some(ns[k])
}

/// The users of a reply in which every record decoded.
pub open spec fn users_of(reply: Seq<Record>) -> Seq<UserView> {
    reply.map_values(|r: Record| record_user(r)->0)
}

pub open spec fn all_valid(reply: Seq<Record>) -> bool {
    forall|i: int| 0 <= i < reply.len() ==> #[trigger] record_user(reply[i]) is Some
}

pub open spec fn views(users: Seq<User>) -> Seq<UserView> {
    users.map_values(|u: User| u@)
}

/// The command that lists every user.
pub fn list_users() -> (r: EntityCommand)
    ensures
        r@ == CommandView::ListAll,
{
    EntityCommand::ListAll
}

/// The command that reads the user with this id.
pub fn retrieve_user(id: String) -> (r: EntityCommand)
    ensures
        r@ == CommandView::Fetch(id@),
{
    EntityCommand::Fetch(id)
}

/// The command that stores a user at its id, replacing any earlier value.
pub fn store_user(user: &User) -> (r: EntityCommand)
    ensures
        r@ == CommandView::Put(user@),
{
    EntityCommand::Put(user.duplicate())
}

/// The command that removes the user with this id, if there is one.
pub fn delete_user(id: String) -> (r: EntityCommand)
    ensures
        r@ == CommandView::Remove(id@),
{
    EntityCommand::Remove(id)
}

/// The outcome of listing: every user of the reply, in its order, or a
/// failure where the backend failed or a record does not decode.
pub fn list_outcome(reply: Result<Vec<Record>, StoreError>) -> (r: Result<Vec<User>, StoreError>)
    ensures
        match reply {
            Err(e) => r == Err::<Vec<User>, StoreError>(e),
            Ok(recs) => if all_valid(recs@) {
                r is Ok && views(r->Ok_0@) == users_of(recs@)
            } else {
                r == Err::<Vec<User>, StoreError>(StoreError::Unavailable)
            },
        },
{
    match reply {
        Err(e) => Err(e),
        Ok(recs) => {
            let mut users: Vec<User> = Vec::new();
            let mut i: usize = 0;
            while i < recs.len()
                invariant
                    reply is Ok && reply->Ok_0@ == recs@,
                    i <= recs@.len(),
                    users@.len() == i,
                    all_valid(recs@.subrange(0, i as int)),
                    views(users@) == users_of(recs@.subrange(0, i as int)),
                decreases recs@.len() - i,
            {
                let ghost before = users@;
                match &recs[i] {
                    Record::Valid(u) => {
                        let d = u.duplicate();
                        users.push(d);
                        assert(record_user(recs@[i as int]) == Some(d@));
                        assert(users@ == before.push(d));
                    },
                    Record::Corrupt => {
                        assert(record_user(recs@[i as int]) is None);
                        return Err(StoreError::Unavailable);
                    },
                }
                assert(recs@.subrange(0, i + 1) == recs@.subrange(0, i as int).push(recs@[i as int]));
                assert forall|j: int| 0 <= j < i + 1 implies views(users@)[j] == users_of(
                    recs@.subrange(0, i + 1),
                )[j] by {
                    if j < i {
                        assert(views(before)[j] == users_of(recs@.subrange(0, i as int))[j]);
                    }
                }
                assert(views(users@) =~= users_of(recs@.subrange(0, i + 1)));
                i = i + 1;
            }
            assert(recs@.subrange(0, i as int) == recs@);
            Ok(users)
        },
    }
}

/// The outcome of reading one user: the user, an explicit absence, or a
/// failure where the backend failed or the record does not decode.
pub fn retrieve_outcome(reply: Result<Option<Record>, StoreError>) -> (r: Result<Option<User>, StoreError>)
    ensures
        match reply {
            Err(e) => r == Err::<Option<User>, StoreError>(e),
            Ok(None) => r == Ok::<Option<User>, StoreError>(None),
            Ok(Some(rec)) => match record_user(rec) {
                Some(u) => r is Ok && r->Ok_0 is Some && r->Ok_0->0@ == u,
                None => r == Err::<Option<User>, StoreError>(StoreError::Unavailable),
            },
        },
{
    match reply {
        Err(e) => Err(e),
        Ok(None) => Ok(None),
        Ok(Some(Record::Valid(u))) => Ok(Some(u)),
        Ok(Some(Record::Corrupt)) => Err(StoreError::Unavailable),
    }
}

} // verus!
