//! The configuration that the services are made from: a configuration of the
//! crate `confee`, which maps keys to texts.

use crate::text::{bounded_value, parse_bounded};
use vstd::prelude::*;

verus! {

/// A configuration of `confee`, as the program loaded it: the program puts
/// the `confee::conf::Conf` that it made and updated into `inner`. Nothing
/// inside it is visible to the verifier; what it holds goes by the name
/// `pairs`.
#[verifier::external_body]
pub struct Settings {
    pub inner: confee::conf::Conf,
}

/// The pairs of key and text that a configuration holds.
pub uninterp spec fn pairs(settings: Settings) -> Map<Seq<char>, Seq<char>>;

/// Calls `confee::conf::Conf::get::<String>`. That function looks the key up
/// in the pairs of the configuration and hands the text that it finds to
/// `str::parse::<String>`, which copies it and cannot fail; for a key that the
/// configuration does not hold it returns nothing.
#[verifier::external_body]
pub(crate) fn lookup(conf: &Settings, key: &str) -> (value: Option<String>)
    ensures
        value is Some <==> pairs(*conf).contains_key(key@),
        value matches Some(text) ==> text@ == pairs(*conf)[key@],
{
    conf.inner.get::<String>(key)
}

/// The text under a key, if the pairs hold the key.
pub open spec fn text_setting(p: Map<Seq<char>, Seq<char>>, key: Seq<char>) -> Option<Seq<char>> {
    if p.contains_key(key) {
        Some(p[key])
    } else {
        None
    }
}

/// The port under a key: the number that the text under the key spells, if
/// the pairs hold the key and the number fits into sixteen bits.
pub open spec fn port_setting(p: Map<Seq<char>, Seq<char>>, key: Seq<char>) -> Option<u16> {
    if p.contains_key(key) {
        match bounded_value(p[key], u16::MAX as nat) {
            Some(number) => Some(number as u16),
            None => None,
        }
    } else {
        None
    }
}

/// Reads the text under a key.
pub fn get_text(conf: &Settings, key: &str) -> (value: Option<String>)
    ensures
        value is Some <==> text_setting(pairs(*conf), key@) is Some,
        value matches Some(found) ==> Some(found@) == text_setting(pairs(*conf), key@),
{
    lookup(conf, key)
}

/// Reads the port under a key.
pub fn get_port(conf: &Settings, key: &str) -> (value: Option<u16>)
    ensures
        value == port_setting(pairs(*conf), key@),
{
    match lookup(conf, key) {
        Some(found) => match parse_bounded(found.as_str(), 65535) {
            Some(number) => Some(number as u16),
            None => None,
        },
        None => None,
    }
}

/// The keys that the services read, each with the text that it has unless a
/// configuration file says otherwise.
pub open spec fn default_pairs() -> Seq<(Seq<char>, Seq<char>)> {
    seq![
        ("link_addr"@, "127.0.0.1"@),
        ("link_parent_iface"@, "wlo1"@),
        ("link_iface"@, "lilap0"@),
        ("link_ssid"@, "lilapFree"@),
        ("web_dir"@, "./example/"@),
        ("web_port"@, "80"@),
        ("dns_port"@, "53"@),
        ("dhcp_src_port"@, "67"@),
        ("dhcp_dst_port"@, "68"@),
    ]
}

/// The defaults, in the form in which `confee` takes them.
pub fn conf_defaults() -> (defaults: [(String, String); 9])
    ensures
        defaults@.len() == default_pairs().len(),
        forall|i: int|
            0 <= i < 9 ==> (#[trigger] defaults@[i]).0@ == default_pairs()[i].0 && defaults@[i].1@
                == default_pairs()[i].1,
{
    [
        ("link_addr".to_owned(), "127.0.0.1".to_owned()),
        ("link_parent_iface".to_owned(), "wlo1".to_owned()),
        ("link_iface".to_owned(), "lilap0".to_owned()),
        ("link_ssid".to_owned(), "lilapFree".to_owned()),
        ("web_dir".to_owned(), "./example/".to_owned()),
        ("web_port".to_owned(), "80".to_owned()),
        ("dns_port".to_owned(), "53".to_owned()),
        ("dhcp_src_port".to_owned(), "67".to_owned()),
        ("dhcp_dst_port".to_owned(), "68".to_owned()),
    ]
}

} // verus!
