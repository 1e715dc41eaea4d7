//! The link manager: it turns the name of the parent wireless interface into
//! the index by which the kernel knows it. The operating system does the
//! lookup; what is decided here is which names may be looked up at all and
//! what the answer of the operating system means.

use crate::server::ServerState;
use crate::settings::{get_text, pairs, text_setting, Settings};
use crate::text::chars_of;
use crate::wire::HostAddr;
use vstd::prelude::*;

verus! {

/// Why an interface name could not be resolved.
#[derive(Clone, Copy, Debug, PartialEq, Eq, Structural)]
pub enum LinkError {
    /// The name cannot be handed to the operating system: it is empty or
    /// holds a NUL character.
    InvalidInput,
    /// The operating system knows no interface of that name.
    NotFound,
}

/// Whether a name can be handed to the operating system: it is not empty and
/// holds no NUL character.
pub open spec fn encodable(name: Seq<char>) -> bool {
    name.len() > 0 && forall|i: int| 0 <= i < name.len() ==> #[trigger] name[i] != '\0'
}

/// What the lookup of a name comes to. `os_index` is what the operating
/// system answered, zero where it knows no such interface; for a name that
/// cannot be handed over the operating system is not asked and its answer
/// does not count.
pub open spec fn resolution(name: Seq<char>, os_index: u32) -> Result<u32, LinkError> {
    if !encodable(name) {
        Err(LinkError::InvalidInput)
    } else if os_index == 0 {
        Err(LinkError::NotFound)
    } else {
        Ok(os_index)
    }
}

/// The link manager, as its configuration describes it.
#[derive(Debug)]
pub struct Link {
    /// The address of the access point.
    pub addr: HostAddr,
    /// The wireless interface that the access point is built on.
    pub parent_iface_name: String,
    /// The name that the interface of the access point is to get.
    pub iface_name: String,
    /// The network name that the access point is to announce.
    pub ssid: String,
    pub state: ServerState,
}

impl Link {
    /// Whether the pairs of a configuration hold what the link manager needs:
    /// a text under each of `link_parent_iface`, `link_iface` and `link_ssid`.
    pub open spec fn configured(p: Map<Seq<char>, Seq<char>>) -> bool {
        &&& text_setting(p, "link_parent_iface"@) is Some
        &&& text_setting(p, "link_iface"@) is Some
        &&& text_setting(p, "link_ssid"@) is Some
    }

    /// Whether `self` is the link manager that the pairs describe, at `addr`.
    pub open spec fn made_from(self, p: Map<Seq<char>, Seq<char>>, addr: HostAddr) -> bool {
        &&& self.addr == addr
        &&& Some(self.parent_iface_name@) == text_setting(p, "link_parent_iface"@)
        &&& Some(self.iface_name@) == text_setting(p, "link_iface"@)
        &&& Some(self.ssid@) == text_setting(p, "link_ssid"@)
        &&& self.state.prefix@ == "link"@
    }

    /// Makes the link manager from a configuration, or nothing where the
    /// configuration lacks one of the names. `addr` is the address that the
    /// configuration holds under `link_addr`.
    pub fn try_create(conf: &Settings, addr: HostAddr) -> (link: Option<Self>)
        ensures
            link is Some <==> Link::configured(pairs(*conf)),
            link matches Some(l) ==> l.made_from(pairs(*conf), addr),
    {
        let parent_iface_name: String = match get_text(conf, "link_parent_iface") {
            Some(name) => name,
            None => {
                return None;
            },
        };
        let iface_name: String = match get_text(conf, "link_iface") {
            Some(name) => name,
            None => {
                return None;
            },
        };
        match get_text(conf, "link_ssid") {
            Some(ssid) => Some(
                Link {
                    addr,
                    parent_iface_name,
                    iface_name,
                    ssid,
                    state: ServerState::labelled("link"),
                },
            ),
            None => None,
        }
    }

    /// Makes the link manager from a configuration that holds what it needs.
    pub fn create(conf: &Settings, addr: HostAddr) -> (link: Self)
        requires
            Link::configured(pairs(*conf)),
        ensures
            link.made_from(pairs(*conf), addr),
    {
        Link::try_create(conf, addr).unwrap()
    }

    /// Tells whether a name can be handed to the operating system.
    pub fn can_encode(interface_name: &str) -> (ok: bool)
        ensures
            ok == encodable(interface_name@),
    {
        let chars: Vec<char> = chars_of(interface_name);
        if chars.len() == 0 {
            return false;
        }
        let mut i: usize = 0;
        while i < chars.len()
            invariant
                i <= chars@.len(),
                chars@ == interface_name@,
                forall|k: int| 0 <= k < i ==> #[trigger] chars@[k] != '\0',
            decreases chars@.len() - i,
        {
            if chars[i] == '\0' {
                return false;
            }
            i += 1;
        }
        true
    }

    /// Gives the index of the interface of that name, from what the operating
    /// system answered to the lookup.
    pub fn get_interface_index(&self, interface_name: &str, os_index: u32) -> (index: Result<
        u32,
        LinkError,
    >)
        ensures
            index == resolution(interface_name@, os_index),
    {
        if !Link::can_encode(interface_name) {
            Err(LinkError::InvalidInput)
        } else if os_index == 0 {
            Err(LinkError::NotFound)
        } else {
            Ok(os_index)
        }
    }
}

/// The three outcomes of a lookup: an index above zero for a name that the
/// operating system knows, `NotFound` for one that it does not know, and
/// `InvalidInput` for an empty name and for one with a NUL character in it,
/// whatever the operating system would say.
pub proof fn lemma_resolution_outcomes(name: Seq<char>, os_index: u32)
    ensures
        encodable(name) && os_index != 0 ==> resolution(name, os_index) == Ok::<u32, LinkError>(
            os_index,
        ) && os_index > 0,
        encodable(name) && os_index == 0 ==> resolution(name, os_index) == Err::<u32, LinkError>(
            LinkError::NotFound,
        ),
        name.len() == 0 ==> resolution(name, os_index) == Err::<u32, LinkError>(
            LinkError::InvalidInput,
        ),
        (exists|i: int| 0 <= i < name.len() && name[i] == '\0') ==> resolution(name, os_index)
            == Err::<u32, LinkError>(LinkError::InvalidInput),
{
}

} // verus!
