//! The configuration of an integration.

use vstd::prelude::*;
use vstd::string::*;

use crate::component::{object_meta, owned_view};
use crate::digest::{digest_u64, hex_padded, hex_padded_text, little_endian, text_digest};
use crate::manifest::ConfigMap;
use crate::meta::{opt_map, ObjectMeta};
use crate::restatekafkaintegration::resource::CONFIG_FILE_KEY;
use crate::string_map::StringMap;

verus! {

/// The name by which integrations are known in labels.
pub const COMPONENT: &'static str = "restate-kafka-integration";

/// The annotation of the pods that carries a digest of the configuration. Pods are not restarted
/// when a ConfigMap changes that they mount, but they are when their template does.
pub const CONFIG_HASH_ANNOTATION: &'static str = "restate.dev/config-hash";

/// The digest of a configuration, cut to eight bytes.
pub open spec fn config_digest(config: Seq<char>) -> Seq<char> {
    hex_padded(little_endian(text_digest(config).take(8)), 16)
}

proof fn lemma_padded_length(n: nat, digits: nat)
    ensures
        hex_padded(n, digits).len() == digits,
    decreases digits,
{
    if digits > 0 {
        lemma_padded_length(n / 16, (digits - 1) as nat);
    }
}

/// The digest of a configuration.
pub fn config_hash(config: &str) -> (r: String)
    ensures
        r@ == config_digest(config@),
        r@.len() == 16,
{
    proof {
        lemma_padded_length(little_endian(text_digest(config@).take(8)), 16);
    }
    hex_padded_text(digest_u64(config), 16)
}

/// The ConfigMap that holds a configuration.
pub fn config_map(base_metadata: &ObjectMeta, config: &str) -> (r: ConfigMap)
    requires
        base_metadata.name is Some,
    ensures
        r.metadata@ == owned_view(COMPONENT@, base_metadata@),
        opt_map(r.data) == Some(
            Map::<Seq<char>, Seq<char>>::empty().insert(CONFIG_FILE_KEY@, config@),
        ),
{
    let mut data = StringMap::new();
    data.insert(CONFIG_FILE_KEY.to_owned(), config.to_owned());
    ConfigMap { metadata: object_meta(COMPONENT, base_metadata), data: Some(data) }
}

} // verus!
