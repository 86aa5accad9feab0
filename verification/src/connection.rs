//! Connection identifiers, their secret keys, and what the server offers.

use crate::{ConnId, ConnSecretKey};
use rand::Rng;
use std::collections::{HashMap, VecDeque};
use std::path::PathBuf;
use vstd::prelude::*;

pub mod listener;
pub mod session;

verus! {

broadcast use vstd::std_specs::hash::group_hash_axioms;

/// A path of the file system, as the standard library owns it.
#[verifier::external_type_specification]
#[verifier::external_body]
pub struct ExPathBuf(PathBuf);

/// Wraps `rand::thread_rng().gen::<i32>()`: a 32-bit integer drawn by the
/// thread's generator, which is seeded by the operating system. Nothing is
/// promised of the integer. The generator panics where the operating system
/// gives it no seed.
#[verifier::external_body]
pub(crate) fn random_secret_key() -> (secret_key: ConnSecretKey) {
    rand::thread_rng().gen()
}

/// The model of a [`ConnSupervisor`].
pub struct SupervisorModel {
    /// The identifier that is issued next where none has come back.
    pub next_id: int,
    /// The last identifier that may be issued.
    pub max_id: int,
    /// The identifiers that have come back, the oldest first.
    pub free_ids: Seq<ConnId>,
    /// The secret key of each live connection.
    pub live: Map<ConnId, ConnSecretKey>,
}

impl SupervisorModel {
    /// A supervisor that has issued nothing.
    pub open spec fn new(min_id: ConnId, max_id: ConnId) -> SupervisorModel {
        SupervisorModel {
            next_id: min_id as int,
            max_id: max_id as int,
            free_ids: Seq::empty(),
            live: Map::empty(),
        }
    }

    /// Identifiers below `next_id` and no others are live or free, and none is both.
    pub open spec fn wf(self) -> bool {
        &&& i32::MIN <= self.next_id <= i32::MAX + 1
        &&& i32::MIN <= self.max_id <= i32::MAX
        &&& self.free_ids.no_duplicates()
        &&& forall|i: int|
            0 <= i < self.free_ids.len() ==> (#[trigger] self.free_ids[i]) < self.next_id
                && !self.live.contains_key(self.free_ids[i])
        &&& forall|id: ConnId| #[trigger] self.live.contains_key(id) ==> id < self.next_id
    }

    /// The identifier that the next allocation gives, if it gives one: the
    /// one that came back first, or else the next new one up to `max_id`.
    pub open spec fn next_conn_id(self) -> Option<ConnId> {
        if self.free_ids.len() > 0 {
            Some(self.free_ids[0])
        } else if self.next_id > self.max_id {
            None
        } else {
            Some(self.next_id as ConnId)
        }
    }

    /// The supervisor after an allocation that draws `secret_key`.
    pub open spec fn after_alloc(self, secret_key: ConnSecretKey) -> SupervisorModel {
        match self.next_conn_id() {
            None => self,
            Some(conn_id) => SupervisorModel {
                next_id: if self.free_ids.len() > 0 {
                    self.next_id
                } else {
                    self.next_id + 1
                },
                max_id: self.max_id,
                free_ids: if self.free_ids.len() > 0 {
                    self.free_ids.skip(1)
                } else {
                    self.free_ids
                },
                live: self.live.insert(conn_id, secret_key),
            },
        }
    }

    /// The supervisor after `conn_id` has been released.
    pub open spec fn free(self, conn_id: ConnId) -> SupervisorModel {
        if self.live.contains_key(conn_id) {
            SupervisorModel {
                next_id: self.next_id,
                max_id: self.max_id,
                free_ids: self.free_ids.push(conn_id),
                live: self.live.remove(conn_id),
            }
        } else {
            self
        }
    }

    /// Whether `conn_id` is live and `secret_key` is its key.
    pub open spec fn verify(self, conn_id: ConnId, secret_key: ConnSecretKey) -> bool {
        self.live.contains_key(conn_id) && self.live[conn_id] == secret_key
    }
}

/// An operation that changes a supervisor.
pub enum SupervisorOp {
    /// An allocation that draws this secret key.
    Allocate(ConnSecretKey),
    /// The release of this identifier.
    Free(ConnId),
}

impl SupervisorModel {
    /// The supervisor after `op`.
    pub open spec fn apply(self, op: SupervisorOp) -> SupervisorModel {
        match op {
            SupervisorOp::Allocate(secret_key) => self.after_alloc(secret_key),
            SupervisorOp::Free(conn_id) => self.free(conn_id),
        }
    }

    /// The supervisor after `ops`, one after the other.
    pub open spec fn run(self, ops: Seq<SupervisorOp>) -> SupervisorModel
        decreases ops.len(),
    {
        if ops.len() == 0 {
            self
        } else {
            self.run(ops.drop_last()).apply(ops.last())
        }
    }

    /// Whether an allocation among `ops` issues `conn_id`.
    pub open spec fn issues(self, ops: Seq<SupervisorOp>, conn_id: ConnId) -> bool
        decreases ops.len(),
    {
        if ops.len() == 0 {
            false
        } else {
            self.issues(ops.drop_last(), conn_id) || (ops.last() is Allocate && self.run(
                ops.drop_last(),
            ).next_conn_id() == Some(conn_id))
        }
    }
}

/// Once an identifier has been released, no secret key is accepted for it,
/// whatever is allocated and released afterwards, until an allocation
/// issues the identifier again.
pub proof fn lemma_released_id_is_refused(
    model: SupervisorModel,
    conn_id: ConnId,
    ops: Seq<SupervisorOp>,
    secret_key: ConnSecretKey,
)
    requires
        !model.free(conn_id).issues(ops, conn_id),
    ensures
        !model.free(conn_id).run(ops).verify(conn_id, secret_key),
    decreases ops.len(),
{
    if ops.len() > 0 {
        lemma_released_id_is_refused(model, conn_id, ops.drop_last(), secret_key);
    }
}

/// Releasing an identifier keeps the supervisor well formed.
pub proof fn lemma_free_keeps_wf(model: SupervisorModel, conn_id: ConnId)
    requires
        model.wf(),
    ensures
        model.free(conn_id).wf(),
{
    if model.live.contains_key(conn_id) {
        let after = model.free(conn_id);
        assert forall|i: int, j: int|
            0 <= i < after.free_ids.len() && 0 <= j < after.free_ids.len() && i != j implies after.free_ids[i]
            != after.free_ids[j] by {
            if i < model.free_ids.len() && j < model.free_ids.len() {
                assert(model.free_ids[i] != model.free_ids[j]);
            }
        }
    }
}

/// Allocating an identifier keeps the supervisor well formed, and the
/// identifier was not live.
pub proof fn lemma_alloc_keeps_wf(model: SupervisorModel, secret_key: ConnSecretKey)
    requires
        model.wf(),
    ensures
        model.after_alloc(secret_key).wf(),
        model.next_conn_id() matches Some(conn_id) ==> !model.live.contains_key(conn_id),
{
    let after = model.after_alloc(secret_key);
    if model.free_ids.len() > 0 {
        assert(!model.live.contains_key(model.free_ids[0]));
        assert forall|i: int| 0 <= i < after.free_ids.len() implies (#[trigger] after.free_ids[i])
            < after.next_id && !after.live.contains_key(after.free_ids[i]) by {
            assert(after.free_ids[i] == model.free_ids[i + 1]);
            assert(model.free_ids[i + 1] != model.free_ids[0]);
        }
        assert forall|i: int, j: int|
            0 <= i < after.free_ids.len() && 0 <= j < after.free_ids.len() && i != j implies after.free_ids[i]
            != after.free_ids[j] by {
            assert(model.free_ids[i + 1] != model.free_ids[j + 1]);
        }
    } else if model.next_id <= model.max_id {
        let conn_id = model.next_id as ConnId;
        assert(!model.live.contains_key(conn_id));
        assert forall|id: ConnId| #[trigger] after.live.contains_key(id) implies id
            < after.next_id by {
            if id != conn_id {
                assert(model.live.contains_key(id));
            }
        }
    }
}

impl SupervisorModel {
    /// Whether `conn_id` is live or has come back.
    pub open spec fn holds(self, conn_id: ConnId) -> bool {
        self.live.contains_key(conn_id) || self.free_ids.contains(conn_id)
    }

    /// Whether the supervisor is one that began to issue at `min_id`: it
    /// is well formed, it has issued no identifier below `min_id` or above
    /// `max_id`, and every identifier from `min_id` up to the next new one
    /// is live or has come back.
    pub open spec fn issues_from(self, min_id: int) -> bool {
        &&& self.wf()
        &&& min_id <= self.next_id
        &&& (self.next_id <= self.max_id + 1 || self.next_id == min_id)
        &&& forall|id: ConnId| min_id <= id < self.next_id ==> #[trigger] self.holds(id)
        &&& forall|i: int| 0 <= i < self.free_ids.len() ==> min_id <= #[trigger] self.free_ids[i]
        &&& forall|id: ConnId| #[trigger] self.live.contains_key(id) ==> min_id <= id
    }

    /// Whether every identifier from `min_id` to `max_id` is live.
    pub open spec fn all_live(self, min_id: int) -> bool {
        forall|id: ConnId| min_id <= id <= self.max_id ==> #[trigger] self.live.contains_key(id)
    }
}

/// An operation keeps a supervisor one that began to issue at `min_id`.
pub proof fn lemma_apply_keeps_range(model: SupervisorModel, min_id: int, op: SupervisorOp)
    requires
        model.issues_from(min_id),
    ensures
        model.apply(op).issues_from(min_id),
{
    let after = model.apply(op);
    match op {
        SupervisorOp::Allocate(secret_key) => {
            lemma_alloc_keeps_wf(model, secret_key);
            if model.free_ids.len() > 0 {
                let first = model.free_ids[0];
                assert forall|id: ConnId| min_id <= id < after.next_id implies #[trigger] after.holds(
                    id,
                ) by {
                    assert(model.holds(id));
                    if !model.live.contains_key(id) && id != first {
                        let i = choose|i: int| 0 <= i < model.free_ids.len() && model.free_ids[i] == id;
                        assert(after.free_ids[i - 1] == id);
                    }
                }
                assert forall|i: int| 0 <= i < after.free_ids.len() implies min_id
                    <= #[trigger] after.free_ids[i] by {
                    assert(after.free_ids[i] == model.free_ids[i + 1]);
                }
                assert(model.free_ids[0] == first);
            } else if model.next_id <= model.max_id {
                assert forall|id: ConnId| min_id <= id < after.next_id implies #[trigger] after.holds(
                    id,
                ) by {
                    if id < model.next_id {
                        assert(model.holds(id));
                    }
                }
            }
        },
        SupervisorOp::Free(conn_id) => {
            lemma_free_keeps_wf(model, conn_id);
            if model.live.contains_key(conn_id) {
                assert forall|id: ConnId| min_id <= id < after.next_id implies #[trigger] after.holds(
                    id,
                ) by {
                    assert(model.holds(id));
                    if id == conn_id {
                        assert(after.free_ids[model.free_ids.len() as int] == id);
                    } else if !model.live.contains_key(id) {
                        let i = choose|i: int| 0 <= i < model.free_ids.len() && model.free_ids[i] == id;
                        assert(after.free_ids[i] == id);
                    }
                }
                assert forall|i: int| 0 <= i < after.free_ids.len() implies min_id
                    <= #[trigger] after.free_ids[i] by {
                    if i < model.free_ids.len() {
                        assert(after.free_ids[i] == model.free_ids[i]);
                    }
                }
            }
        },
    }
}

/// A supervisor that began to issue at `min_id` issues identifiers from
/// `min_id` to `max_id` that are not live, and has none to issue exactly
/// when all of them are live.
pub proof fn lemma_allocation_in_range(model: SupervisorModel, min_id: int)
    requires
        model.issues_from(min_id),
    ensures
        model.next_conn_id() matches Some(conn_id) ==> min_id <= conn_id <= model.max_id
            && !model.live.contains_key(conn_id),
        model.next_conn_id() is None <==> model.all_live(min_id),
        forall|id: ConnId| #[trigger] model.live.contains_key(id) ==> min_id <= id <= model.max_id,
{
    assert forall|id: ConnId| #[trigger] model.live.contains_key(id) implies min_id <= id
        <= model.max_id by {
        assert(id < model.next_id);
    }
    if model.free_ids.len() > 0 {
        let first = model.free_ids[0];
        assert(min_id <= first < model.next_id);
        assert(!model.live.contains_key(first));
        assert(first <= model.max_id);
    } else if model.next_id > model.max_id {
        assert forall|id: ConnId| min_id <= id <= model.max_id implies #[trigger] model.live.contains_key(
            id,
        ) by {
            assert(model.holds(id));
            if model.free_ids.contains(id) {
                let i = choose|i: int| 0 <= i < model.free_ids.len() && model.free_ids[i] == id;
            }
        }
    } else {
        let next = model.next_id as ConnId;
        assert(!model.live.contains_key(next));
    }
}

/// Whatever is allocated and released, a supervisor for the identifiers
/// from `min_id` to `max_id` issues no others, keeps none live twice, and
/// refuses to allocate exactly when every one of them is live.
pub proof fn lemma_identifiers_stay_in_range(
    min_id: ConnId,
    max_id: ConnId,
    ops: Seq<SupervisorOp>,
)
    ensures
        SupervisorModel::new(min_id, max_id).run(ops).issues_from(min_id as int),
        SupervisorModel::new(min_id, max_id).run(ops).max_id == max_id,
        SupervisorModel::new(min_id, max_id).run(ops).next_conn_id() matches Some(conn_id)
            ==> min_id <= conn_id <= max_id && !SupervisorModel::new(min_id, max_id).run(
            ops,
        ).live.contains_key(conn_id),
        SupervisorModel::new(min_id, max_id).run(ops).next_conn_id() is None
            <==> SupervisorModel::new(min_id, max_id).run(ops).all_live(min_id as int),
        forall|id: ConnId| #[trigger]
            SupervisorModel::new(min_id, max_id).run(ops).live.contains_key(id) ==> min_id <= id
                <= max_id,
    decreases ops.len(),
{
    let start = SupervisorModel::new(min_id, max_id);
    if ops.len() == 0 {
        assert(start.issues_from(min_id as int));
    } else {
        lemma_identifiers_stay_in_range(min_id, max_id, ops.drop_last());
        lemma_apply_keeps_range(start.run(ops.drop_last()), min_id as int, ops.last());
    }
    lemma_allocation_in_range(start.run(ops), min_id as int);
}

/// Allocates connection identifiers and their secret keys.
pub struct ConnSupervisor {
    next_id: ConnId,
    spent: bool,
    max_id: ConnId,
    free_ids: VecDeque<ConnId>,
    current_mapping: HashMap<ConnId, ConnSecretKey>,
}

impl View for ConnSupervisor {
    type V = SupervisorModel;

    closed spec fn view(&self) -> SupervisorModel {
        SupervisorModel {
            next_id: if self.spent {
                i32::MAX + 1
            } else {
                self.next_id as int
            },
            max_id: self.max_id as int,
            free_ids: self.free_ids@,
            live: self.current_mapping@,
        }
    }
}

impl ConnSupervisor {
    /// A supervisor that issues the identifiers from `min_id` to `max_id`.
    pub fn new(min_id: ConnId, max_id: ConnId) -> (supervisor: ConnSupervisor)
        ensures
            supervisor@ == SupervisorModel::new(min_id, max_id),
            supervisor@.wf(),
            supervisor@.issues_from(min_id as int),
    {
        ConnSupervisor {
            next_id: min_id,
            spent: false,
            max_id,
            free_ids: VecDeque::new(),
            current_mapping: HashMap::new(),
        }
    }

    /// Allocates a connection identifier and draws its secret key. The
    /// identifier and the new state are those of an allocation with the
    /// key that was drawn, whichever it is.
    pub fn allocate(&mut self) -> (result: Result<(ConnId, ConnSecretKey), ()>)
        ensures
            old(self)@.wf() ==> final(self)@.wf(),
            old(self)@.next_conn_id() is None ==> result is Err && final(self)@ == old(self)@,
            old(self)@.next_conn_id() matches Some(conn_id) ==> (result matches Ok(pair) && pair.0
                == conn_id && final(self)@ == old(self)@.after_alloc(pair.1)),
            old(self)@.wf() ==> (result matches Ok(pair) ==> !old(self)@.live.contains_key(
                pair.0,
            )),
            forall|min_id: int| #[trigger]
                old(self)@.issues_from(min_id) ==> final(self)@.issues_from(min_id),
    {
        let secret_key = random_secret_key();
        self.alloc_with_key(secret_key)
    }

    /// Allocates a connection identifier and gives it `secret_key`.
    pub fn alloc_with_key(&mut self, secret_key: ConnSecretKey) -> (result: Result<
        (ConnId, ConnSecretKey),
        (),
    >)
        ensures
            final(self)@ == old(self)@.after_alloc(secret_key),
            result == match old(self)@.next_conn_id() {
                Some(conn_id) => Ok::<(ConnId, ConnSecretKey), ()>((conn_id, secret_key)),
                None => Err::<(ConnId, ConnSecretKey), ()>(()),
            },
            old(self)@.wf() ==> final(self)@.wf(),
            old(self)@.wf() ==> (result matches Ok(pair) ==> !old(self)@.live.contains_key(
                pair.0,
            )),
            forall|min_id: int| #[trigger]
                old(self)@.issues_from(min_id) ==> final(self)@.issues_from(min_id),
    {
        proof {
            assert forall|min_id: int| #[trigger] old(self)@.issues_from(min_id) implies old(
                self,
            )@.after_alloc(secret_key).issues_from(min_id) by {
                lemma_apply_keeps_range(old(self)@, min_id, SupervisorOp::Allocate(secret_key));
            }
        }
        let conn_id = match self.generate_conn_id() {
            Ok(conn_id) => conn_id,
            Err(_) => {
                return Err(());
            },
        };
        self.current_mapping.insert(conn_id, secret_key);
        proof {
            if old(self)@.wf() {
                lemma_alloc_keeps_wf(old(self)@, secret_key);
            }
        }
        Ok((conn_id, secret_key))
    }

    /// Releases `conn_id` and its secret key, if the connection is live.
    pub fn free(&mut self, conn_id: ConnId)
        ensures
            final(self)@ == old(self)@.free(conn_id),
            forall|secret_key: ConnSecretKey| !final(self)@.verify(conn_id, secret_key),
            old(self)@.wf() ==> final(self)@.wf(),
            forall|min_id: int| #[trigger]
                old(self)@.issues_from(min_id) ==> final(self)@.issues_from(min_id),
    {
        proof {
            assert forall|min_id: int| #[trigger] old(self)@.issues_from(min_id) implies old(
                self,
            )@.free(conn_id).issues_from(min_id) by {
                lemma_apply_keeps_range(old(self)@, min_id, SupervisorOp::Free(conn_id));
            }
        }
        if self.current_mapping.remove(&conn_id).is_some() {
            self.free_ids.push_back(conn_id);
        } else {
            assert(self.current_mapping@ =~= old(self).current_mapping@);
        }
        proof {
            if old(self)@.wf() {
                lemma_free_keeps_wf(old(self)@, conn_id);
            }
        }
    }

    /// Whether `secret_key` is the key of the live connection `conn_id`.
    pub fn verify(&self, conn_id: ConnId, secret_key: ConnSecretKey) -> (valid: bool)
        ensures
            valid == self@.verify(conn_id, secret_key),
    {
        match self.current_mapping.get(&conn_id) {
            Some(stored) => *stored == secret_key,
            None => false,
        }
    }

    fn generate_conn_id(&mut self) -> (result: Result<ConnId, ()>)
        ensures
            result == match old(self)@.next_conn_id() {
                Some(conn_id) => Ok::<ConnId, ()>(conn_id),
                None => Err::<ConnId, ()>(()),
            },
            final(self)@ == (SupervisorModel {
                live: old(self)@.live,
                ..old(self)@.after_alloc(0)
            }),
    {
        match self.free_ids.pop_front() {
            Some(id) => {
                assert(self.free_ids@ =~= old(self).free_ids@.skip(1));
                Ok(id)
            },
            None => {
                let id = self.next_id;
                if self.spent || id > self.max_id {
                    return Err(());
                }
                if id == i32::MAX {
                    self.spent = true;
                } else {
                    self.next_id = id + 1;
                }
                Ok(id)
            },
        }
    }
}

/// The answer to a request for SSL.
#[derive(Debug, PartialEq, Eq, Structural, Clone, Copy)]
pub enum Encryption {
    /// The server accepts SSL.
    AcceptSsl,
    /// The server rejects SSL.
    RejectSsl,
}

impl Encryption {
    /// The byte that tells the client the answer: `S` or `N`.
    pub open spec fn byte_spec(self) -> u8 {
        match self {
            Encryption::AcceptSsl => 83,
            Encryption::RejectSsl => 78,
        }
    }

    /// The byte that tells the client the answer.
    pub fn as_byte(&self) -> (byte: u8)
        ensures
            byte == self.byte_spec(),
    {
        match self {
            Encryption::AcceptSsl => 83,
            Encryption::RejectSsl => 78,
        }
    }
}

/// Which ways of securing the connection the server offers: the protocol
/// knows `ssl` and `gss` encryption.
pub struct ProtocolConfiguration {
    ssl_conf: Option<(PathBuf, String)>,
}

impl ProtocolConfiguration {
    /// Whether a certificate is configured.
    pub closed spec fn has_ssl(&self) -> bool {
        self.ssl_conf is Some
    }

    /// The configured certificate and its password.
    pub closed spec fn ssl_conf_spec(&self) -> Option<(PathBuf, String)> {
        self.ssl_conf
    }

    /// A configuration that offers neither `ssl` nor `gss` encryption.
    pub fn none() -> (config: ProtocolConfiguration)
        ensures
            !config.has_ssl(),
            config.ssl_conf_spec() is None,
    {
        ProtocolConfiguration { ssl_conf: None }
    }

    /// A configuration that offers `ssl` with the certificate at `cert`.
    pub fn with_ssl(cert: PathBuf, password: String) -> (config: ProtocolConfiguration)
        ensures
            config.has_ssl(),
            config.ssl_conf_spec() == Some((cert, password)),
    {
        ProtocolConfiguration { ssl_conf: Some((cert, password)) }
    }

    /// Whether the server offers `ssl`.
    pub fn ssl_support(&self) -> (offered: bool)
        ensures
            offered == self.has_ssl(),
    {
        self.ssl_conf.is_some()
    }

    /// The certificate file and its password.
    pub fn ssl_config(&self) -> (conf: Option<&(PathBuf, String)>)
        ensures
            conf is Some == self.has_ssl(),
            conf matches Some(pair) ==> self.ssl_conf_spec() == Some(*pair),
    {
        self.ssl_conf.as_ref()
    }

    /// Whether the server offers `gss` encryption: it does not.
    pub fn gssenc_support(&self) -> (offered: bool)
        ensures
            !offered,
    {
        false
    }
}

} // verus!
