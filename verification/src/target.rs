//! What a user names on the command line: a known service, or a web address.

use vstd::prelude::*;
use vstd::string::StringExecFns;
use crate::registry::{ProviderDetails, ProviderKind, lookup, registered, display_name};
use crate::text::{has_prefix, normalize, lowercased, trimmed, ascii_text, ascii_lowercase};

verus! {

/// A target to check.
#[derive(Debug)]
pub enum Target {
    Provider(ProviderDetails),
    Url(String),
}

/// A target as plain values.
pub enum TargetView {
    Provider { name: Seq<char>, kind: ProviderKind },
    Url(Seq<char>),
}

impl View for Target {
    type V = TargetView;

    open spec fn view(&self) -> TargetView {
        match self {
            Target::Provider(d) => TargetView::Provider { name: d.name@, kind: d.kind },
            Target::Url(u) => TargetView::Url(u@),
        }
    }
}

/// A parsed target, as plain values.
pub open spec fn target_option_view(t: Option<Target>) -> Option<TargetView> {
    match t {
        Some(t) => Some(t@),
        None => None,
    }
}

/// Whether a key reads as a web address: it starts with `http` (or `https`).
pub open spec fn is_web_key(key: Seq<char>) -> bool {
    "http"@.is_prefix_of(key) || "https"@.is_prefix_of(key)
}

/// The target a normalized key names, `raw` being what the user typed: the
/// service registered under the key; else, when the key reads as a web
/// address, that address as typed; else nothing.
pub open spec fn target_of(key: Seq<char>, raw: Seq<char>) -> Option<TargetView> {
    match registered(key) {
        Some(kind) => Some(TargetView::Provider { name: display_name(kind), kind: kind }),
        None => if is_web_key(key) {
            Some(TargetView::Url(raw))
        } else {
            None
        },
    }
}

impl Target {
    /// The target named by the normalized key `key`, the user having typed `target`.
    pub fn from_key(key: &str, target: &str) -> (r: Option<Target>)
        ensures
            target_option_view(r) == target_of(key@, target@),
    {
        match lookup(key) {
            Some(details) => Some(Target::Provider(details)),
            None => {
                if has_prefix(key, "http") || has_prefix(key, "https") {
                    Some(Target::Url(String::from_str(target)))
                } else {
                    None
                }
            },
        }
    }

    /// The target the user typed: the service registered under the trimmed,
    /// lower-cased text; else the text itself when it reads as a web
    /// address; else nothing.
    pub fn parse(target: &str) -> (r: Option<Target>)
        ensures
            target_option_view(r) == target_of(lowercased(trimmed(target@)), target@),
            ascii_text(target@) ==> target_option_view(r) == target_of(ascii_lowercase(trimmed(target@)), target@),
    {
        let key = normalize(target);
        Target::from_key(key.as_str(), target)
    }
}

/// A registered service's key names that service; two texts that normalize
/// alike to a registered key name the same service, however they are cased
/// or padded; and a text that reads as a web address, and is no service's
/// key, names the address exactly as typed.
pub proof fn lemma_registered_keys_parse(kind: ProviderKind, raw: Seq<char>, other: Seq<char>)
    ensures
        target_of(crate::registry::registry_key(kind), raw) == Some(
            TargetView::Provider { name: display_name(kind), kind: kind },
        ),
        registered(lowercased(trimmed(raw))) is Some && lowercased(trimmed(raw)) == lowercased(trimmed(other))
            ==> target_of(lowercased(trimmed(raw)), raw) == target_of(lowercased(trimmed(other)), other),
        registered(lowercased(trimmed(raw))) is None && is_web_key(lowercased(trimmed(raw)))
            ==> target_of(lowercased(trimmed(raw)), raw) == Some(TargetView::Url(raw)),
{
    crate::registry::lemma_registry_keys(kind, crate::registry::registry_key(kind));
}

/// A key reads as a web address exactly when it starts with `http`, and then
/// nothing else about it matters: a key that is no service's key names the
/// address as typed when it starts with `http`, and nothing otherwise.
pub proof fn lemma_web_keys(key: Seq<char>, raw: Seq<char>)
    ensures
        is_web_key(key) <==> "http"@.is_prefix_of(key),
        registered(key) is None ==> (target_of(key, raw) == Some(TargetView::Url(raw)) <==> "http"@.is_prefix_of(key)),
        registered(key) is None && !"http"@.is_prefix_of(key) ==> target_of(key, raw) is None,
        registered(key) matches Some(kind) ==> target_of(key, raw) == Some(
            TargetView::Provider { name: display_name(kind), kind: kind },
        ),
{
    reveal_strlit("http");
    reveal_strlit("https");
    if "https"@.is_prefix_of(key) {
        assert(key.subrange(0, 4) =~= "https"@.subrange(0, 4));
        assert("https"@.subrange(0, 4) =~= "http"@);
    }
}

/// On ASCII text, a service is named whatever the case of its letters and
/// whatever white space pads it: two ASCII texts that agree once trimmed and
/// lower-cased, and so agree on a registered key, name the same service.
pub proof fn lemma_parse_ignores_ascii_case(raw: Seq<char>, other: Seq<char>, kind: ProviderKind)
    requires
        ascii_text(raw),
        ascii_text(other),
        ascii_lowercase(trimmed(raw)) == crate::registry::registry_key(kind),
        ascii_lowercase(trimmed(other)) == crate::registry::registry_key(kind),
    ensures
        target_of(ascii_lowercase(trimmed(raw)), raw) == Some(TargetView::Provider { name: display_name(kind), kind: kind }),
        target_of(ascii_lowercase(trimmed(raw)), raw) == target_of(ascii_lowercase(trimmed(other)), other),
{
    crate::registry::lemma_registry_keys(kind, crate::registry::registry_key(kind));
}

} // verus!
