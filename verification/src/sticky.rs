//! Sticky settings for clients that override
//! default routing behavior determined by the query parser.

use crate::fnv1a::{fnv1a, fnv_hash, fnv_hash_of, lemma_texts_one_byte_apart};
use crate::parameters::{same_text, ParameterValue, Parameters};
use crate::random::{law_draws_are_made, random_range, was_drawn};
use vstd::prelude::*;
use vstd::utf8::{encode_utf8, is_ascii_chars, is_ascii_chars_encode_utf8};

verus! {

/// The parameter by which a client asks for a database role.
pub const ROLE_PARAMETER: &'static str = "pgdog.role";

/// The parameter by which a client that knows nothing of this pooler asks for a
/// database role.
pub const SESSION_ATTRS_PARAMETER: &'static str = "target_session_attrs";

/// The parameter by which clients share a replica.
pub const REPLICA_AFFINITY_KEY_PARAMETER: &'static str = "pgdog.replica_affinity_key";

/// Database role.
#[derive(Clone, Copy, Debug, PartialEq, Eq, Structural)]
pub enum Role {
    Primary,
    Replica,
}

/// Settings that stay with a client for as long as it is connected.
#[derive(Clone, Copy, Debug)]
pub struct Sticky {
    /// Which shard to use for omnisharded queries, making them
    /// stick to only one database.
    pub omni_index: usize,
    /// Stable per-client index used by the client-affinity load balancing
    /// strategy to pin this connection to a single replica for its lifetime.
    pub replica_index: usize,
    /// Desired database role. This comes from `target_session_attrs`
    /// provided by the client, unless it also sends `pgdog.role`.
    pub role: Option<Role>,
}

/// The text of a parameter, if it is there and no list.
pub open spec fn text_of(params: Map<Seq<char>, ParameterValue>, name: Seq<char>) -> Option<
    Seq<char>,
> {
    if params.contains_key(name) {
        params[name].text()
    } else {
        None
    }
}

/// The role that a text names.
pub open spec fn role_named(text: Seq<char>) -> Option<Role> {
    if text == "primary"@ {
        Some(Role::Primary)
    } else if text == "replica"@ {
        Some(Role::Replica)
    } else {
        None
    }
}

/// The role that a parameter names.
pub open spec fn role_in(params: Map<Seq<char>, ParameterValue>, name: Seq<char>) -> Option<Role> {
    match text_of(params, name) {
        Some(text) => role_named(text),
        None => None,
    }
}

/// The role that a client asks for: by `pgdog.role` if it sends that, whatever
/// its value, and else by `target_session_attrs`.
pub open spec fn role_of(params: Map<Seq<char>, ParameterValue>) -> Option<Role> {
    if params.contains_key(ROLE_PARAMETER@) {
        role_in(params, ROLE_PARAMETER@)
    } else {
        role_in(params, SESSION_ATTRS_PARAMETER@)
    }
}

/// The key by which a client shares a replica.
pub open spec fn affinity_key_of(params: Map<Seq<char>, ParameterValue>) -> Option<Seq<char>> {
    text_of(params, REPLICA_AFFINITY_KEY_PARAMETER@)
}

/// An index that chance gave: any but zero and the last one.
pub open spec fn is_drawn_index(index: usize) -> bool {
    1 <= index < usize::MAX && was_drawn(1, usize::MAX, index)
}

/// Replica index of a hashed key: the hash, cut to the width of an index.
pub fn replica_index_from_hash(hash: u64) -> (index: usize)
    ensures
        index == hash as usize,
{
    #[verifier::truncate]
    (hash as usize)
}

/// Map a client-supplied affinity key to a stable replica index.
///
/// FNV has a fixed seed, so the mapping is identical across processes: a
/// client's connections pin to the same replica even when they land on
/// different instances behind a load balancer.
pub fn replica_index_from_key(key: &str) -> (index: usize)
    ensures
        index == fnv_hash_of(key@) as usize,
{
    replica_index_from_hash(fnv_hash(key))
}

impl Default for Sticky {
    fn default() -> (sticky: Self)
        ensures
            sticky.fits(Map::<Seq<char>, ParameterValue>::empty()),
    {
        Sticky::new()
    }
}

impl Sticky {
    /// The settings are ones that a client with these parameters may get: the
    /// role it asks for, a drawn index for omnisharded queries, and for replicas
    /// the index of its key or, without one, another drawn index.
    pub open spec fn fits(self, params: Map<Seq<char>, ParameterValue>) -> bool {
        &&& self.role == role_of(params)
        &&& is_drawn_index(self.omni_index)
        &&& match affinity_key_of(params) {
            Some(key) => self.replica_index == fnv_hash_of(key) as usize,
            None => is_drawn_index(self.replica_index),
        }
    }

    /// Create new sticky config.
    pub fn new() -> (sticky: Self)
        ensures
            sticky.fits(Map::<Seq<char>, ParameterValue>::empty()),
    {
        Sticky::from_params(&Parameters::default())
    }

    /// Fixed settings: first indices, no role.
    pub fn new_test() -> (sticky: Self)
        ensures
            sticky == (Sticky { omni_index: 1, replica_index: 1, role: None }),
    {
        Sticky { omni_index: 1, replica_index: 1, role: None }
    }

    /// The role that a client asks for.
    pub fn role_from_params(params: &Parameters) -> (role: Option<Role>)
        ensures
            role == role_of(params@),
    {
        match params.get(ROLE_PARAMETER) {
            Some(value) => Sticky::role_from_value(value),
            None => match params.get(SESSION_ATTRS_PARAMETER) {
                Some(value) => Sticky::role_from_value(value),
                None => None,
            },
        }
    }

    /// The role that a parameter's value names; a list names none.
    pub fn role_from_value(value: &ParameterValue) -> (role: Option<Role>)
        ensures
            role == match value.text() {
                Some(text) => role_named(text),
                None => None,
            },
    {
        match value {
            ParameterValue::String(value) => {
                if same_text(value.as_str(), "primary") {
                    Some(Role::Primary)
                } else if same_text(value.as_str(), "replica") {
                    Some(Role::Replica)
                } else {
                    None
                }
            },
            ParameterValue::Tuple(_) => None,
        }
    }

    /// The key by which a client shares a replica.
    pub fn affinity_key(params: &Parameters) -> (key: Option<&str>)
        ensures
            match key {
                Some(key) => affinity_key_of(params@) == Some(key@),
                None => affinity_key_of(params@) is None,
            },
    {
        match params.get(REPLICA_AFFINITY_KEY_PARAMETER) {
            Some(value) => value.as_str(),
            None => None,
        }
    }

    /// The settings of a client for which these indices came out.
    pub fn with_indices(params: &Parameters, replica_index: usize, omni_index: usize) -> (sticky:
        Self)
        ensures
            sticky == (Sticky { omni_index, replica_index, role: role_of(params@) }),
    {
        Sticky { omni_index, replica_index, role: Sticky::role_from_params(params) }
    }

    /// Create Sticky from params.
    ///
    /// Clients sharing a `pgdog.replica_affinity_key` (e.g. all connections from
    /// one pod) hash to the same index and therefore pin to the same replica.
    /// Without the key each connection gets its own random index.
    pub fn from_params(params: &Parameters) -> (sticky: Self)
        ensures
            sticky.fits(params@),
    {
        let replica_index: usize = match Sticky::affinity_key(params) {
            Some(key) => replica_index_from_key(key),
            None => random_range(1, usize::MAX),
        };
        let omni_index: usize = random_range(1, usize::MAX);
        proof {
            law_draws_are_made(1, usize::MAX, replica_index, 0);
            law_draws_are_made(1, usize::MAX, omni_index, 0);
        }

        Sticky::with_indices(params, replica_index, omni_index)
    }
}

/// Clients that share an affinity key share a replica index, whatever else they
/// send and whenever they connect.
pub proof fn law_shared_key_shares_replica(
    params: Map<Seq<char>, ParameterValue>,
    sticky: Sticky,
    other_params: Map<Seq<char>, ParameterValue>,
    other_sticky: Sticky,
)
    requires
        sticky.fits(params),
        other_sticky.fits(other_params),
        affinity_key_of(params) is Some,
        affinity_key_of(other_params) == affinity_key_of(params),
    ensures
        sticky.replica_index == other_sticky.replica_index,
{
}

/// Keys of as many bytes that differ in one of them have different replica
/// indices.
pub proof fn law_one_byte_tells_keys_apart(key: Seq<char>, other_key: Seq<char>, index: int)
    requires
        encode_utf8(key).len() == encode_utf8(other_key).len(),
        0 <= index < encode_utf8(key).len(),
        encode_utf8(key)[index] != encode_utf8(other_key)[index],
        forall|i: int|
            0 <= i < encode_utf8(key).len() && i != index ==> encode_utf8(key)[i] == encode_utf8(
                other_key,
            )[i],
    ensures
        fnv_hash_of(key) as usize != fnv_hash_of(other_key) as usize,
{
    lemma_texts_one_byte_apart(key, other_key, index);
}

/// ASCII keys that differ in one character have different replica indices, so
/// clients that send them are told apart.
pub proof fn law_one_character_tells_clients_apart(
    params: Map<Seq<char>, ParameterValue>,
    sticky: Sticky,
    other_params: Map<Seq<char>, ParameterValue>,
    other_sticky: Sticky,
    index: int,
)
    requires
        sticky.fits(params),
        other_sticky.fits(other_params),
        affinity_key_of(params) matches Some(key) && affinity_key_of(other_params) matches Some(
            other_key,
        ) && is_ascii_chars(key) && is_ascii_chars(other_key) && key.len() == other_key.len() && 0
            <= index < key.len() && key[index] != other_key[index] && (forall|i: int|
            0 <= i < key.len() && i != index ==> key[i] == other_key[i]),
    ensures
        sticky.replica_index != other_sticky.replica_index,
{
    let key = affinity_key_of(params)->0;
    let other_key = affinity_key_of(other_params)->0;
    is_ascii_chars_encode_utf8(key);
    is_ascii_chars_encode_utf8(other_key);
    law_one_byte_tells_keys_apart(key, other_key, index);
}

/// A client without parameters asks for no role and is given drawn indices.
pub proof fn law_no_parameters_no_preference(sticky: Sticky)
    requires
        sticky.fits(Map::<Seq<char>, ParameterValue>::empty()),
    ensures
        sticky.role is None,
        is_drawn_index(sticky.omni_index),
        is_drawn_index(sticky.replica_index),
{
}

/// A client that sends `pgdog.role` gets the role it names there, whatever its
/// `target_session_attrs` say.
pub proof fn law_role_parameter_comes_first(
    params: Map<Seq<char>, ParameterValue>,
    sticky: Sticky,
)
    requires
        sticky.fits(params),
        params.contains_key(ROLE_PARAMETER@),
    ensures
        sticky.role == role_in(params, ROLE_PARAMETER@),
{
}

/// A client that sends no `pgdog.role` gets the role that its
/// `target_session_attrs` name.
pub proof fn law_session_attrs_give_role(params: Map<Seq<char>, ParameterValue>, sticky: Sticky)
    requires
        sticky.fits(params),
        !params.contains_key(ROLE_PARAMETER@),
    ensures
        sticky.role == role_in(params, SESSION_ATTRS_PARAMETER@),
{
}

/// A parameter has no say in what others decide: the role depends on
/// `pgdog.role` and `target_session_attrs` alone, the shared replica on
/// `pgdog.replica_affinity_key` alone.
pub proof fn law_other_parameters_are_ignored(
    params: Map<Seq<char>, ParameterValue>,
    name: Seq<char>,
    value: ParameterValue,
)
    ensures
        name != ROLE_PARAMETER@ && name != SESSION_ATTRS_PARAMETER@ ==> role_of(
            params.insert(name, value),
        ) == role_of(params),
        name != REPLICA_AFFINITY_KEY_PARAMETER@ ==> affinity_key_of(params.insert(name, value))
            == affinity_key_of(params),
{
}

/// A list is neither a role nor a key.
pub proof fn law_lists_are_ignored(
    params: Map<Seq<char>, ParameterValue>,
    value: ParameterValue,
)
    requires
        value is Tuple,
    ensures
        role_of(params.insert(ROLE_PARAMETER@, value)) is None,
        !params.contains_key(ROLE_PARAMETER@) ==> role_of(
            params.insert(SESSION_ATTRS_PARAMETER@, value),
        ) is None,
        affinity_key_of(params.insert(REPLICA_AFFINITY_KEY_PARAMETER@, value)) is None,
{
    reveal_strlit("pgdog.role");
    reveal_strlit("target_session_attrs");
}

/// The key is the value of `pgdog.replica_affinity_key`, all of it; a list is
/// none, and without that parameter there is none.
pub proof fn law_key_is_as_sent(params: Map<Seq<char>, ParameterValue>)
    ensures
        params.contains_key("pgdog.replica_affinity_key"@) ==> match params[
            "pgdog.replica_affinity_key"@
        ] {
            ParameterValue::String(text) => affinity_key_of(params) == Some(text@),
            ParameterValue::Tuple(_) => affinity_key_of(params) is None,
        },
        !params.contains_key("pgdog.replica_affinity_key"@) ==> affinity_key_of(params) is None,
{
}

/// The index of a client that sends a key is the hash of that key, all of it: of
/// its UTF-8 bytes and a closing one, cut to the width of an index.
pub proof fn law_whole_key_gives_replica(
    params: Map<Seq<char>, ParameterValue>,
    sticky: Sticky,
    key: String,
)
    requires
        sticky.fits(params),
        params.contains_key("pgdog.replica_affinity_key"@),
        params["pgdog.replica_affinity_key"@] == ParameterValue::String(key),
    ensures
        sticky.replica_index == fnv1a(encode_utf8(key@).push(0xff)) as usize,
{
}

/// The index of a client that sends no key, or a list as one, is drawn.
pub proof fn law_no_key_draws_replica(params: Map<Seq<char>, ParameterValue>, sticky: Sticky)
    requires
        sticky.fits(params),
        params.contains_key("pgdog.replica_affinity_key"@)
            ==> params["pgdog.replica_affinity_key"@] is Tuple,
    ensures
        1 <= sticky.replica_index < usize::MAX,
        was_drawn(1, usize::MAX, sticky.replica_index),
{
}

/// The index for omnisharded queries is drawn for every client, and the role is
/// the one that it asks for.
pub proof fn law_omni_index_is_drawn(params: Map<Seq<char>, ParameterValue>, sticky: Sticky)
    requires
        sticky.fits(params),
    ensures
        1 <= sticky.omni_index < usize::MAX,
        was_drawn(1, usize::MAX, sticky.omni_index),
        sticky.role == role_of(params),
{
}

/// The texts `primary` and `replica` name the roles, and no other text names one.
pub proof fn law_names_of_roles(text: Seq<char>)
    ensures
        role_named(text) == Some(Role::Primary) <==> text == "primary"@,
        role_named(text) == Some(Role::Replica) <==> text == "replica"@,
{
    reveal_strlit("primary");
    reveal_strlit("replica");
    assert("primary"@[0] == 'p' && "replica"@[0] == 'r');
}

/// The role is named by the value of `pgdog.role`, all of it, or, without that
/// parameter, of `target_session_attrs`; a list names none, and without either
/// there is none.
pub proof fn law_role_is_as_sent(params: Map<Seq<char>, ParameterValue>)
    ensures
        params.contains_key("pgdog.role"@) ==> match params["pgdog.role"@] {
            ParameterValue::String(text) => {
                &&& role_of(params) == Some(Role::Primary) <==> text@ == "primary"@
                &&& role_of(params) == Some(Role::Replica) <==> text@ == "replica"@
            },
            ParameterValue::Tuple(_) => role_of(params) is None,
        },
        !params.contains_key("pgdog.role"@) && params.contains_key("target_session_attrs"@)
            ==> match params["target_session_attrs"@] {
            ParameterValue::String(text) => {
                &&& role_of(params) == Some(Role::Primary) <==> text@ == "primary"@
                &&& role_of(params) == Some(Role::Replica) <==> text@ == "replica"@
            },
            ParameterValue::Tuple(_) => role_of(params) is None,
        },
        !params.contains_key("pgdog.role"@) && !params.contains_key("target_session_attrs"@)
            ==> role_of(params) is None,
{
    if text_of(params, "pgdog.role"@) is Some {
        law_names_of_roles(text_of(params, "pgdog.role"@)->0);
    }
    if text_of(params, "target_session_attrs"@) is Some {
        law_names_of_roles(text_of(params, "target_session_attrs"@)->0);
    }
}

} // verus!
