//! Secrets that the server signs with (its JWT key, its cookie key): read
//! from the system data store under a name, or generated and stored there
//! the first time. The store is worked by the caller; this module decides
//! each next step from what the store answered.

use vstd::prelude::*;
use crate::jwt::Jwt;
use crate::models::SystemData;
use rand::{RngCore, SeedableRng};
use std::marker::PhantomData;

verus! {

/// A secret, tagged with what it is for.
#[derive(Debug)]
pub struct SecretStorage<T> {
    data: Vec<u8>,
    _d: PhantomData<T>,
}

impl<T> std::ops::Deref for SecretStorage<T> {
    type Target = Vec<u8>;

    fn deref(&self) -> (res: &Vec<u8>)
        ensures
            res@ == self.bytes(),
    {
        &self.data
    }
}

/// The secret that tokens are signed with.
pub type JwtSecret = SecretStorage<Jwt>;

/// Fills `buf` with random bytes from a `rand::rngs::StdRng` seeded by the
/// operating system (`SeedableRng::from_entropy`, `RngCore::fill_bytes`). Only
/// the length of `buf` is kept; its bytes are random. (`from_entropy` panics
/// only where the operating system offers no randomness.)
#[verifier::external_body]
fn fill_random(buf: &mut Vec<u8>)
    ensures
        final(buf)@.len() == old(buf)@.len(),
{
    rand::rngs::StdRng::from_entropy().fill_bytes(buf);
}

/// The message a failed lookup is reported with: `"Failed to get existing secret key: "` and the failure.
pub open spec fn lookup_failure_message(e: Seq<char>) -> Seq<char> {
    "Failed to get existing secret key: "@ + e
}

/// The message a failed insertion is reported with: `"Failed to insert new secret: "` and the failure.
pub open spec fn insert_failure_message(e: Seq<char>) -> Seq<char> {
    "Failed to insert new secret: "@ + e
}

impl<T> SecretStorage<T> {
    pub closed spec fn bytes(self) -> Seq<u8> {
        self.data@
    }

    /// The secret's bytes.
    pub fn data(&self) -> (res: &Vec<u8>)
        ensures
            res@ == self.bytes(),
    {
        &self.data
    }

    /// A new secret: a vector with room for `size` bytes that is filled with
    /// random bytes. It is filled as far as it is long, and a new vector is
    /// empty, so the secret is empty whatever `size` is.
    pub fn generate_secret(size: usize) -> (res: Vec<u8>)
        ensures
            res@.len() == 0,
    {
        let mut bytes: Vec<u8> = Vec::with_capacity(size);
        fill_random(&mut bytes);
        bytes
    }
}

/// Where reading or creating a secret stands.
#[derive(Debug)]
pub enum SecretState {
    /// Waiting for the lookup of the secret `name`; a new one would be made for `size` bytes.
    Looking { name: String, size: usize },
    /// Waiting for the newly generated secret `content` to be stored.
    Inserting { content: Vec<u8> },
    /// Nothing more to do.
    Finished,
}

/// What the store is asked to do next.
#[derive(Debug)]
pub enum SecretAction<T> {
    /// Look up the system data stored under `name`.
    LoadSecret { name: String },
    /// Store this system data.
    InsertSecret { data: SystemData },
    /// Reading or creating the secret is over, with this result.
    Finish(Result<SecretStorage<T>, String>),
}

/// What the store answered to the last action.
#[derive(Debug)]
pub enum SecretEvent {
    Loaded(Result<Option<SystemData>, String>),
    Inserted(Result<(), String>),
}

/// Whether an event answers the action that a state waits for.
pub open spec fn secret_answers(state: SecretState, event: SecretEvent) -> bool {
    match (state, event) {
        (SecretState::Looking { .. }, SecretEvent::Loaded(_)) => true,
        (SecretState::Inserting { .. }, SecretEvent::Inserted(_)) => true,
        _ => false,
    }
}

/// One step of reading or creating a secret:
/// - a failed lookup finishes with `"Failed to get existing secret key: "` and the failure;
/// - a stored secret is the result;
/// - when there is none, a new (empty) secret is generated and stored under
///   the secret's name;
/// - a failed insertion finishes with `"Failed to insert new secret: "` and
///   the failure; otherwise the new secret is the result.
pub open spec fn secret_step<T>(state: SecretState, event: SecretEvent, next: (SecretState, SecretAction<T>)) -> bool {
    let (s, a) = next;
    match (state, event) {
        (SecretState::Looking { name, size }, SecretEvent::Loaded(r)) => match r {
            Err(e) => s is Finished && (a matches SecretAction::Finish(Err(m)) && m@ == lookup_failure_message(e@)),
            Ok(Some(d)) => s is Finished && (a matches SecretAction::Finish(Ok(secret)) && secret.bytes() == d.content@),
            Ok(None) => s matches SecretState::Inserting { content } && content@.len() == 0
                && (a matches SecretAction::InsertSecret { data } && data.key@ == name@ && data.content@ == content@),
        },
        (SecretState::Inserting { content }, SecretEvent::Inserted(r)) => s is Finished && match r {
            Err(e) => a matches SecretAction::Finish(Err(m)) && m@ == insert_failure_message(e@),
            Ok(()) => a matches SecretAction::Finish(Ok(secret)) && secret.bytes() == content@,
        },
        _ => false,
    }
}

impl SecretState {
    /// Starts reading the secret `name` (or creating one of `size` bytes): the
    /// store is asked for what it holds under `name`.
    pub fn start<T>(name: &str, size: usize) -> (res: (SecretState, SecretAction<T>))
        ensures
            res.0 matches SecretState::Looking { name: n, size: s } && n@ == name@ && s == size,
            res.1 matches SecretAction::LoadSecret { name: n } && n@ == name@,
    {
        (
            SecretState::Looking { name: String::from_str(name), size },
            SecretAction::LoadSecret { name: String::from_str(name) },
        )
    }

    /// Whether `event` answers the action this state waits for.
    pub fn answered_by(&self, event: &SecretEvent) -> (res: bool)
        ensures
            res == secret_answers(*self, *event),
    {
        match (self, event) {
            (SecretState::Looking { .. }, SecretEvent::Loaded(_)) => true,
            (SecretState::Inserting { .. }, SecretEvent::Inserted(_)) => true,
            _ => false,
        }
    }

    /// Takes one step; see `secret_step`.
    pub fn step<T>(self, event: SecretEvent) -> (res: (SecretState, SecretAction<T>))
        requires
            secret_answers(self, event),
        ensures
            secret_step(self, event, res),
    {
        match self {
            SecretState::Looking { name, size } => match event {
                SecretEvent::Loaded(Err(e)) => {
                    let mut m = String::from_str("Failed to get existing secret key: ");
                    m.append(e.as_str());
                    (SecretState::Finished, SecretAction::Finish(Err(m)))
                },
                SecretEvent::Loaded(Ok(Some(d))) => {
                    (SecretState::Finished, SecretAction::Finish(Ok(SecretStorage { data: d.content, _d: PhantomData })))
                },
                SecretEvent::Loaded(Ok(None)) => {
                    let content = SecretStorage::<T>::generate_secret(size);
                    let stored = content.clone();
                    assert(stored@ =~= content@);
                    (SecretState::Inserting { content }, SecretAction::InsertSecret { data: SystemData { key: name, content: stored } })
                },
                _ => {
                    proof {
                        assert(false);
                    }
                    (SecretState::Finished, SecretAction::Finish(Err(String::new())))
                },
            },
            SecretState::Inserting { content } => match event {
                SecretEvent::Inserted(Err(e)) => {
                    let mut m = String::from_str("Failed to insert new secret: ");
                    m.append(e.as_str());
                    (SecretState::Finished, SecretAction::Finish(Err(m)))
                },
                SecretEvent::Inserted(Ok(())) => {
                    (SecretState::Finished, SecretAction::Finish(Ok(SecretStorage { data: content, _d: PhantomData })))
                },
                _ => {
                    proof {
                        assert(false);
                    }
                    (SecretState::Finished, SecretAction::Finish(Err(String::new())))
                },
            },
            SecretState::Finished => {
                proof {
                    assert(false);
                }
                (SecretState::Finished, SecretAction::Finish(Err(String::new())))
            },
        }
    }
}

/// How a store whose system data is `before` (key to content) answers
/// `action` with `event` when it succeeds, and what it holds after: a lookup
/// answers the data stored under the name, if any; an insertion stores the
/// data under its key.
pub open spec fn store_answers<T>(
    before: Map<Seq<char>, Seq<u8>>,
    action: SecretAction<T>,
    event: SecretEvent,
    after: Map<Seq<char>, Seq<u8>>,
) -> bool {
    match action {
        SecretAction::LoadSecret { name } => after == before
            && (event matches SecretEvent::Loaded(Ok(found))
                && (found is Some <==> before.contains_key(name@))
                && (found matches Some(d) ==> d.content@ == before[name@])),
        SecretAction::InsertSecret { data } => after == before.insert(data.key@, data.content@)
            && event == SecretEvent::Inserted(Ok(())),
        SecretAction::Finish(_) => false,
    }
}

/// Whether two contents of the store agree on the key `name`.
pub open spec fn same_at(a: Map<Seq<char>, Seq<u8>>, b: Map<Seq<char>, Seq<u8>>, name: Seq<char>) -> bool {
    &&& a.contains_key(name) <==> b.contains_key(name)
    &&& a.contains_key(name) ==> a[name] == b[name]
}

/// The action that the `i`-th answer of a run answers: the run's first action,
/// then the action of each step.
pub open spec fn secret_action_before<T>(first: SecretAction<T>, steps: Seq<(SecretState, SecretAction<T>)>, i: int) -> SecretAction<T> {
    if i == 0 { first } else { steps[i - 1].1 }
}

/// The state that the `i`-th answer of a run is given in.
pub open spec fn secret_state_before<T>(init: SecretState, steps: Seq<(SecretState, SecretAction<T>)>, i: int) -> SecretState {
    if i == 0 { init } else { steps[i - 1].0 }
}

/// A run for the secret `name` that started as `SecretState::start` does
/// (`init`, `first`), took the steps `steps` on the answers `events` of a
/// store whose contents were `stores[i]` around its `i`-th action (nothing
/// else writing to `name` in between), and succeeded with `secret`.
pub open spec fn secret_run<T>(
    name: Seq<char>,
    init: SecretState,
    first: SecretAction<T>,
    events: Seq<SecretEvent>,
    steps: Seq<(SecretState, SecretAction<T>)>,
    stores: Seq<(Map<Seq<char>, Seq<u8>>, Map<Seq<char>, Seq<u8>>)>,
    secret: SecretStorage<T>,
) -> bool {
    &&& init matches SecretState::Looking { name: n, .. } && n@ == name
    &&& first matches SecretAction::LoadSecret { name: n } && n@ == name
    &&& steps.len() == events.len() && stores.len() == events.len() && events.len() > 0
    &&& steps.last().1 == SecretAction::Finish(Ok::<SecretStorage<T>, String>(secret))
    &&& forall|i: int| 0 <= i < events.len()
        ==> #[trigger] secret_step(secret_state_before(init, steps, i), events[i], steps[i])
    &&& forall|i: int| 0 <= i < events.len()
        ==> #[trigger] store_answers(stores[i].0, secret_action_before(first, steps, i), events[i], stores[i].1)
    &&& forall|i: int| 1 <= i < events.len() ==> #[trigger] same_at(stores[i - 1].1, stores[i].0, name)
}

/// After a run that succeeds, the store holds the secret under its name. A run
/// that found the secret stored writes nothing and takes one step.
pub proof fn lemma_run_leaves_secret_stored<T>(
    name: Seq<char>,
    init: SecretState,
    first: SecretAction<T>,
    events: Seq<SecretEvent>,
    steps: Seq<(SecretState, SecretAction<T>)>,
    stores: Seq<(Map<Seq<char>, Seq<u8>>, Map<Seq<char>, Seq<u8>>)>,
    secret: SecretStorage<T>,
)
    requires
        secret_run(name, init, first, events, steps, stores, secret),
    ensures
        stores.last().1.contains_key(name),
        stores.last().1[name] == secret.bytes(),
        stores[0].0.contains_key(name) ==> steps.len() == 1 && stores[0].1 == stores[0].0,
{
    assert(secret_step(secret_state_before(init, steps, 0), events[0], steps[0]));
    assert(store_answers(stores[0].0, secret_action_before(first, steps, 0), events[0], stores[0].1));
    if steps.len() > 1 {
        assert(secret_step(secret_state_before(init, steps, 1), events[1], steps[1]));
        assert(store_answers(stores[1].0, secret_action_before(first, steps, 1), events[1], stores[1].1));
        if steps.len() > 2 {
            assert(secret_step(secret_state_before(init, steps, 2), events[2], steps[2]));
        }
    }
}

/// Once a secret has been read or created under `name`, a later run for the
/// same name (with no other write to that key in between) reads back the same
/// secret, whatever size it asks for, and writes nothing.
pub proof fn lemma_secret_is_created_once<T>(
    name: Seq<char>,
    init_1: SecretState,
    first_1: SecretAction<T>,
    events_1: Seq<SecretEvent>,
    steps_1: Seq<(SecretState, SecretAction<T>)>,
    stores_1: Seq<(Map<Seq<char>, Seq<u8>>, Map<Seq<char>, Seq<u8>>)>,
    secret_1: SecretStorage<T>,
    init_2: SecretState,
    first_2: SecretAction<T>,
    events_2: Seq<SecretEvent>,
    steps_2: Seq<(SecretState, SecretAction<T>)>,
    stores_2: Seq<(Map<Seq<char>, Seq<u8>>, Map<Seq<char>, Seq<u8>>)>,
    secret_2: SecretStorage<T>,
)
    requires
        secret_run(name, init_1, first_1, events_1, steps_1, stores_1, secret_1),
        secret_run(name, init_2, first_2, events_2, steps_2, stores_2, secret_2),
        same_at(stores_1.last().1, stores_2[0].0, name),
    ensures
        secret_2.bytes() == secret_1.bytes(),
        steps_2.len() == 1,
        stores_2[0].1 == stores_2[0].0,
{
    lemma_run_leaves_secret_stored(name, init_1, first_1, events_1, steps_1, stores_1, secret_1);
    lemma_run_leaves_secret_stored(name, init_2, first_2, events_2, steps_2, stores_2, secret_2);
}

} // verus!
