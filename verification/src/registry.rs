//! The services the tool knows by name: the key a user types, the name shown
//! for the service, and its kind.

use vstd::prelude::*;
use crate::text::{str_eq, ascii_lowercase};

verus! {

/// A known service.
#[derive(PartialEq, Eq, Structural, Debug, Copy, Clone)]
pub enum ProviderKind {
    GitHub,
    Slack,
    Atlassian,
    CircleCI,
    Cloudflare,
    Datadog,
    Discord,
    Linear,
    Netlify,
    Npm,
    OpenAI,
    Vercel,
    Aws,
}

/// A known service together with the name shown for it.
#[derive(PartialEq, Debug, Copy, Clone)]
pub struct ProviderDetails {
    pub name: &'static str,
    pub kind: ProviderKind,
}

/// The key under which a service is registered.
pub open spec fn registry_key(kind: ProviderKind) -> Seq<char> {
    match kind {
        ProviderKind::GitHub => "github"@,
        ProviderKind::Slack => "slack"@,
        ProviderKind::Atlassian => "atlassian"@,
        ProviderKind::CircleCI => "circleci"@,
        ProviderKind::Cloudflare => "cloudflare"@,
        ProviderKind::Datadog => "datadog"@,
        ProviderKind::Discord => "discord"@,
        ProviderKind::Linear => "linear"@,
        ProviderKind::Netlify => "netlify"@,
        ProviderKind::Npm => "npm"@,
        ProviderKind::OpenAI => "openai"@,
        ProviderKind::Vercel => "vercel"@,
        ProviderKind::Aws => "aws"@,
    }
}

/// The name shown for a service.
pub open spec fn display_name(kind: ProviderKind) -> Seq<char> {
    match kind {
        ProviderKind::GitHub => "GitHub"@,
        ProviderKind::Slack => "Slack"@,
        ProviderKind::Atlassian => "Atlassian"@,
        ProviderKind::CircleCI => "CircleCI"@,
        ProviderKind::Cloudflare => "Cloudflare"@,
        ProviderKind::Datadog => "Datadog"@,
        ProviderKind::Discord => "Discord"@,
        ProviderKind::Linear => "Linear"@,
        ProviderKind::Netlify => "Netlify"@,
        ProviderKind::Npm => "npm"@,
        ProviderKind::OpenAI => "OpenAI"@,
        ProviderKind::Vercel => "Vercel"@,
        ProviderKind::Aws => "AWS"@,
    }
}

/// The service registered under `key`, if any.
pub open spec fn registered(key: Seq<char>) -> Option<ProviderKind> {
    if key == "github"@ {
        Some(ProviderKind::GitHub)
    } else if key == "slack"@ {
        Some(ProviderKind::Slack)
    } else if key == "atlassian"@ {
        Some(ProviderKind::Atlassian)
    } else if key == "circleci"@ {
        Some(ProviderKind::CircleCI)
    } else if key == "cloudflare"@ {
        Some(ProviderKind::Cloudflare)
    } else if key == "datadog"@ {
        Some(ProviderKind::Datadog)
    } else if key == "discord"@ {
        Some(ProviderKind::Discord)
    } else if key == "linear"@ {
        Some(ProviderKind::Linear)
    } else if key == "netlify"@ {
        Some(ProviderKind::Netlify)
    } else if key == "npm"@ {
        Some(ProviderKind::Npm)
    } else if key == "openai"@ {
        Some(ProviderKind::OpenAI)
    } else if key == "vercel"@ {
        Some(ProviderKind::Vercel)
    } else if key == "aws"@ {
        Some(ProviderKind::Aws)
    } else {
        None
    }
}

/// The details of a service, as the registry holds them.
fn details(kind: ProviderKind) -> (r: ProviderDetails)
    ensures
        r.kind == kind,
        r.name@ == display_name(kind),
{
    let name = match kind {
        ProviderKind::GitHub => "GitHub",
        ProviderKind::Slack => "Slack",
        ProviderKind::Atlassian => "Atlassian",
        ProviderKind::CircleCI => "CircleCI",
        ProviderKind::Cloudflare => "Cloudflare",
        ProviderKind::Datadog => "Datadog",
        ProviderKind::Discord => "Discord",
        ProviderKind::Linear => "Linear",
        ProviderKind::Netlify => "Netlify",
        ProviderKind::Npm => "npm",
        ProviderKind::OpenAI => "OpenAI",
        ProviderKind::Vercel => "Vercel",
        ProviderKind::Aws => "AWS",
    };
    ProviderDetails { name, kind }
}

/// Looks up the service registered under `key` (keys are lower case).
pub fn lookup(key: &str) -> (r: Option<ProviderDetails>)
    ensures
        r is Some == registered(key@) is Some,
        r is Some ==> r->0.kind == registered(key@)->0 && r->0.name@ == display_name(r->0.kind),
{
    let kind = if str_eq(key, "github") {
        ProviderKind::GitHub
    } else if str_eq(key, "slack") {
        ProviderKind::Slack
    } else if str_eq(key, "atlassian") {
        ProviderKind::Atlassian
    } else if str_eq(key, "circleci") {
        ProviderKind::CircleCI
    } else if str_eq(key, "cloudflare") {
        ProviderKind::Cloudflare
    } else if str_eq(key, "datadog") {
        ProviderKind::Datadog
    } else if str_eq(key, "discord") {
        ProviderKind::Discord
    } else if str_eq(key, "linear") {
        ProviderKind::Linear
    } else if str_eq(key, "netlify") {
        ProviderKind::Netlify
    } else if str_eq(key, "npm") {
        ProviderKind::Npm
    } else if str_eq(key, "openai") {
        ProviderKind::OpenAI
    } else if str_eq(key, "vercel") {
        ProviderKind::Vercel
    } else if str_eq(key, "aws") {
        ProviderKind::Aws
    } else {
        return None;
    };
    Some(details(kind))
}

/// Every service is found under its own key, and a key finds only the
/// service registered under it: the registry's keys name its services one
/// to one.
pub proof fn lemma_registry_keys(kind: ProviderKind, key: Seq<char>)
    ensures
        registered(registry_key(kind)) == Some(kind),
        registered(key) == Some(kind) ==> key == registry_key(kind),
{
    match kind {
        ProviderKind::GitHub => {
            reveal_strlit("github");
        },
        ProviderKind::Slack => {
            reveal_strlit("slack");
            reveal_strlit("github");
            assert("slack"@.len() != "github"@.len());
        },
        ProviderKind::Atlassian => {
            reveal_strlit("atlassian");
            reveal_strlit("github");
            reveal_strlit("slack");
            assert("atlassian"@.len() != "github"@.len());
            assert("atlassian"@.len() != "slack"@.len());
        },
        ProviderKind::CircleCI => {
            reveal_strlit("circleci");
            reveal_strlit("github");
            reveal_strlit("slack");
            reveal_strlit("atlassian");
            assert("circleci"@.len() != "github"@.len());
            assert("circleci"@.len() != "slack"@.len());
            assert("circleci"@.len() != "atlassian"@.len());
        },
        ProviderKind::Cloudflare => {
            reveal_strlit("cloudflare");
            reveal_strlit("github");
            reveal_strlit("slack");
            reveal_strlit("atlassian");
            reveal_strlit("circleci");
            assert("cloudflare"@.len() != "github"@.len());
            assert("cloudflare"@.len() != "slack"@.len());
            assert("cloudflare"@.len() != "atlassian"@.len());
            assert("cloudflare"@.len() != "circleci"@.len());
        },
        ProviderKind::Datadog => {
            reveal_strlit("datadog");
            reveal_strlit("github");
            reveal_strlit("slack");
            reveal_strlit("atlassian");
            reveal_strlit("circleci");
            reveal_strlit("cloudflare");
            assert("datadog"@.len() != "github"@.len());
            assert("datadog"@.len() != "slack"@.len());
            assert("datadog"@.len() != "atlassian"@.len());
            assert("datadog"@.len() != "circleci"@.len());
            assert("datadog"@.len() != "cloudflare"@.len());
        },
        ProviderKind::Discord => {
            reveal_strlit("discord");
            reveal_strlit("github");
            reveal_strlit("slack");
            reveal_strlit("atlassian");
            reveal_strlit("circleci");
            reveal_strlit("cloudflare");
            reveal_strlit("datadog");
            assert("discord"@.len() != "github"@.len());
            assert("discord"@.len() != "slack"@.len());
            assert("discord"@.len() != "atlassian"@.len());
            assert("discord"@.len() != "circleci"@.len());
            assert("discord"@.len() != "cloudflare"@.len());
            assert("discord"@[1] != "datadog"@[1]);
        },
        ProviderKind::Linear => {
            reveal_strlit("linear");
            reveal_strlit("github");
            reveal_strlit("slack");
            reveal_strlit("atlassian");
            reveal_strlit("circleci");
            reveal_strlit("cloudflare");
            reveal_strlit("datadog");
            reveal_strlit("discord");
            assert("linear"@[0] != "github"@[0]);
            assert("linear"@.len() != "slack"@.len());
            assert("linear"@.len() != "atlassian"@.len());
            assert("linear"@.len() != "circleci"@.len());
            assert("linear"@.len() != "cloudflare"@.len());
            assert("linear"@.len() != "datadog"@.len());
            assert("linear"@.len() != "discord"@.len());
        },
        ProviderKind::Netlify => {
            reveal_strlit("netlify");
            reveal_strlit("github");
            reveal_strlit("slack");
            reveal_strlit("atlassian");
            reveal_strlit("circleci");
            reveal_strlit("cloudflare");
            reveal_strlit("datadog");
            reveal_strlit("discord");
            reveal_strlit("linear");
            assert("netlify"@.len() != "github"@.len());
            assert("netlify"@.len() != "slack"@.len());
            assert("netlify"@.len() != "atlassian"@.len());
            assert("netlify"@.len() != "circleci"@.len());
            assert("netlify"@.len() != "cloudflare"@.len());
            assert("netlify"@[0] != "datadog"@[0]);
            assert("netlify"@[0] != "discord"@[0]);
            assert("netlify"@.len() != "linear"@.len());
        },
        ProviderKind::Npm => {
            reveal_strlit("npm");
            reveal_strlit("github");
            reveal_strlit("slack");
            reveal_strlit("atlassian");
            reveal_strlit("circleci");
            reveal_strlit("cloudflare");
            reveal_strlit("datadog");
            reveal_strlit("discord");
            reveal_strlit("linear");
            reveal_strlit("netlify");
            assert("npm"@.len() != "github"@.len());
            assert("npm"@.len() != "slack"@.len());
            assert("npm"@.len() != "atlassian"@.len());
            assert("npm"@.len() != "circleci"@.len());
            assert("npm"@.len() != "cloudflare"@.len());
            assert("npm"@.len() != "datadog"@.len());
            assert("npm"@.len() != "discord"@.len());
            assert("npm"@.len() != "linear"@.len());
            assert("npm"@.len() != "netlify"@.len());
        },
        ProviderKind::OpenAI => {
            reveal_strlit("openai");
            reveal_strlit("github");
            reveal_strlit("slack");
            reveal_strlit("atlassian");
            reveal_strlit("circleci");
            reveal_strlit("cloudflare");
            reveal_strlit("datadog");
            reveal_strlit("discord");
            reveal_strlit("linear");
            reveal_strlit("netlify");
            reveal_strlit("npm");
            assert("openai"@[0] != "github"@[0]);
            assert("openai"@.len() != "slack"@.len());
            assert("openai"@.len() != "atlassian"@.len());
            assert("openai"@.len() != "circleci"@.len());
            assert("openai"@.len() != "cloudflare"@.len());
            assert("openai"@.len() != "datadog"@.len());
            assert("openai"@.len() != "discord"@.len());
            assert("openai"@[0] != "linear"@[0]);
            assert("openai"@.len() != "netlify"@.len());
            assert("openai"@.len() != "npm"@.len());
        },
        ProviderKind::Vercel => {
            reveal_strlit("vercel");
            reveal_strlit("github");
            reveal_strlit("slack");
            reveal_strlit("atlassian");
            reveal_strlit("circleci");
            reveal_strlit("cloudflare");
            reveal_strlit("datadog");
            reveal_strlit("discord");
            reveal_strlit("linear");
            reveal_strlit("netlify");
            reveal_strlit("npm");
            reveal_strlit("openai");
            assert("vercel"@[0] != "github"@[0]);
            assert("vercel"@.len() != "slack"@.len());
            assert("vercel"@.len() != "atlassian"@.len());
            assert("vercel"@.len() != "circleci"@.len());
            assert("vercel"@.len() != "cloudflare"@.len());
            assert("vercel"@.len() != "datadog"@.len());
            assert("vercel"@.len() != "discord"@.len());
            assert("vercel"@[0] != "linear"@[0]);
            assert("vercel"@.len() != "netlify"@.len());
            assert("vercel"@.len() != "npm"@.len());
            assert("vercel"@[0] != "openai"@[0]);
        },
        ProviderKind::Aws => {
            reveal_strlit("aws");
            reveal_strlit("github");
            reveal_strlit("slack");
            reveal_strlit("atlassian");
            reveal_strlit("circleci");
            reveal_strlit("cloudflare");
            reveal_strlit("datadog");
            reveal_strlit("discord");
            reveal_strlit("linear");
            reveal_strlit("netlify");
            reveal_strlit("npm");
            reveal_strlit("openai");
            reveal_strlit("vercel");
            assert("aws"@.len() != "github"@.len());
            assert("aws"@.len() != "slack"@.len());
            assert("aws"@.len() != "atlassian"@.len());
            assert("aws"@.len() != "circleci"@.len());
            assert("aws"@.len() != "cloudflare"@.len());
            assert("aws"@.len() != "datadog"@.len());
            assert("aws"@.len() != "discord"@.len());
            assert("aws"@.len() != "linear"@.len());
            assert("aws"@.len() != "netlify"@.len());
            assert("aws"@[0] != "npm"@[0]);
            assert("aws"@.len() != "openai"@.len());
            assert("aws"@.len() != "vercel"@.len());
        },
    }
}

/// Typing the name a service is shown under, in any ASCII case, finds that
/// service: each key is its service's shown name in lower case.
pub proof fn lemma_shown_names_find_services(kind: ProviderKind)
    ensures
        ascii_lowercase(display_name(kind)) == registry_key(kind),
        registered(ascii_lowercase(display_name(kind))) == Some(kind),
{
    match kind {
        ProviderKind::GitHub => {
            reveal_strlit("GitHub");
            reveal_strlit("github");
            assert(ascii_lowercase(display_name(kind)) =~= registry_key(kind));
        },
        ProviderKind::Slack => {
            reveal_strlit("Slack");
            reveal_strlit("slack");
            assert(ascii_lowercase(display_name(kind)) =~= registry_key(kind));
        },
        ProviderKind::Atlassian => {
            reveal_strlit("Atlassian");
            reveal_strlit("atlassian");
            assert(ascii_lowercase(display_name(kind)) =~= registry_key(kind));
        },
        ProviderKind::CircleCI => {
            reveal_strlit("CircleCI");
            reveal_strlit("circleci");
            assert(ascii_lowercase(display_name(kind)) =~= registry_key(kind));
        },
        ProviderKind::Cloudflare => {
            reveal_strlit("Cloudflare");
            reveal_strlit("cloudflare");
            assert(ascii_lowercase(display_name(kind)) =~= registry_key(kind));
        },
        ProviderKind::Datadog => {
            reveal_strlit("Datadog");
            reveal_strlit("datadog");
            assert(ascii_lowercase(display_name(kind)) =~= registry_key(kind));
        },
        ProviderKind::Discord => {
            reveal_strlit("Discord");
            reveal_strlit("discord");
            assert(ascii_lowercase(display_name(kind)) =~= registry_key(kind));
        },
        ProviderKind::Linear => {
            reveal_strlit("Linear");
            reveal_strlit("linear");
            assert(ascii_lowercase(display_name(kind)) =~= registry_key(kind));
        },
        ProviderKind::Netlify => {
            reveal_strlit("Netlify");
            reveal_strlit("netlify");
            assert(ascii_lowercase(display_name(kind)) =~= registry_key(kind));
        },
        ProviderKind::Npm => {
            reveal_strlit("npm");
            reveal_strlit("npm");
            assert(ascii_lowercase(display_name(kind)) =~= registry_key(kind));
        },
        ProviderKind::OpenAI => {
            reveal_strlit("OpenAI");
            reveal_strlit("openai");
            assert(ascii_lowercase(display_name(kind)) =~= registry_key(kind));
        },
        ProviderKind::Vercel => {
            reveal_strlit("Vercel");
            reveal_strlit("vercel");
            assert(ascii_lowercase(display_name(kind)) =~= registry_key(kind));
        },
        ProviderKind::Aws => {
            reveal_strlit("AWS");
            reveal_strlit("aws");
            assert(ascii_lowercase(display_name(kind)) =~= registry_key(kind));
        },
    }
    lemma_registry_keys(kind, registry_key(kind));
}

} // verus!
