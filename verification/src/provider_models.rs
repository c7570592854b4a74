//! The providers whose model lists come from models.dev, and the cache of those lists.

use crate::provider::openai::OPENROUTER_API_BASE_URL;
use crate::provider::LlmError;
use crate::text::{push_str, str_eq};
use vstd::prelude::*;

verus! {

/// Key of the cache of model lists.
pub const CACHE_KEY: &'static str = "models";

/// How long the cache of model lists is kept, in seconds (one day).
pub const CACHE_TTL: i64 = 86400;

/// Providers of models.dev whose model lists are used.
#[derive(Debug, Clone, Copy, PartialEq, Eq, Structural)]
pub enum ModelsDevServiceProvider {
    OpenAI,
    Anthropic,
    OpenRouter,
}

/// The name of a provider in models.dev.
pub open spec fn provider_key(p: ModelsDevServiceProvider) -> Seq<char> {
    match p {
        ModelsDevServiceProvider::OpenAI => "openai"@,
        ModelsDevServiceProvider::Anthropic => "anthropic"@,
        ModelsDevServiceProvider::OpenRouter => "openrouter"@,
    }
}

impl ModelsDevServiceProvider {
    /// The name of the provider in models.dev.
    pub fn as_str(&self) -> (r: &'static str)
        ensures
            r@ == provider_key(*self),
    {
        match self {
            ModelsDevServiceProvider::OpenAI => "openai",
            ModelsDevServiceProvider::Anthropic => "anthropic",
            ModelsDevServiceProvider::OpenRouter => "openrouter",
        }
    }

    /// All providers, in order.
    pub fn all() -> (r: Vec<ModelsDevServiceProvider>)
        ensures
            r@ == seq![
                ModelsDevServiceProvider::OpenAI,
                ModelsDevServiceProvider::Anthropic,
                ModelsDevServiceProvider::OpenRouter,
            ],
    {
        let mut r: Vec<ModelsDevServiceProvider> = Vec::new();
        r.push(ModelsDevServiceProvider::OpenAI);
        r.push(ModelsDevServiceProvider::Anthropic);
        r.push(ModelsDevServiceProvider::OpenRouter);
        assert(r@ =~= seq![
            ModelsDevServiceProvider::OpenAI,
            ModelsDevServiceProvider::Anthropic,
            ModelsDevServiceProvider::OpenRouter,
        ]);
        r
    }

    /// The provider whose models an OpenAI-compatible API serves: OpenRouter for OpenRouter's base
    /// URL, OpenAI for any other.
    pub fn for_openai_base_url(base_url: &str) -> (r: ModelsDevServiceProvider)
        ensures
            r == if base_url@ == OPENROUTER_API_BASE_URL@ {
                ModelsDevServiceProvider::OpenRouter
            } else {
                ModelsDevServiceProvider::OpenAI
            },
    {
        if str_eq(base_url, OPENROUTER_API_BASE_URL) {
            ModelsDevServiceProvider::OpenRouter
        } else {
            ModelsDevServiceProvider::OpenAI
        }
    }
}

/// The error of a models.dev response without a provider.
pub fn provider_not_found(provider: ModelsDevServiceProvider) -> (r: LlmError)
    ensures
        r matches LlmError::ModelsDevError(m) && m@ == "Provider '"@ + provider_key(provider) + "' not found"@,
{
    let mut m = "Provider '".to_string();
    push_str(&mut m, provider.as_str());
    push_str(&mut m, "' not found");
    LlmError::ModelsDevError(m)
}

/// The position of the first name equal to `key`, if any.
pub fn find_name(names: &Vec<String>, key: &str) -> (r: Option<usize>)
    ensures
        match r {
            Some(i) => i < names@.len() && names@[i as int]@ == key@ && forall|j: int|
                0 <= j < i ==> names@[j]@ != key@,
            None => forall|j: int| 0 <= j < names@.len() ==> names@[j]@ != key@,
        },
{
    for i in 0..names.len()
        invariant
            forall|j: int| 0 <= j < i ==> names@[j]@ != key@,
    {
        if str_eq(names[i].as_str(), key) {
            return Some(i);
        }
    }
    None
}

/// The position of a provider in the order of `all`.
pub open spec fn provider_position(p: ModelsDevServiceProvider) -> int {
    match p {
        ModelsDevServiceProvider::OpenAI => 0,
        ModelsDevServiceProvider::Anthropic => 1,
        ModelsDevServiceProvider::OpenRouter => 2,
    }
}

impl ModelsDevServiceProvider {
    /// The position of the provider in the order of `all`.
    pub fn position(&self) -> (r: usize)
        ensures
            r == provider_position(*self),
    {
        match self {
            ModelsDevServiceProvider::OpenAI => 0,
            ModelsDevServiceProvider::Anthropic => 1,
            ModelsDevServiceProvider::OpenRouter => 2,
        }
    }
}

/// Whether a models.dev response with these provider names has an entry for the provider.
pub open spec fn has_entry(names: Seq<String>, p: ModelsDevServiceProvider) -> bool {
    exists|i: int| 0 <= i < names.len() && #[trigger] names[i]@ == provider_key(p)
}

/// Finds, for each provider in the order of `all`, the position of its entry among the provider
/// names of a models.dev response (the first entry of that name). The first provider, in that
/// order, without an entry makes the error.
pub fn provider_entry_positions(names: &Vec<String>) -> (r: Result<Vec<usize>, LlmError>)
    ensures
        match r {
            Ok(v) => v@.len() == 3 && (forall|k: int|
                #![trigger v@[k]]
                0 <= k < 3 ==> {
                    let p = if k == 0 {
                        ModelsDevServiceProvider::OpenAI
                    } else if k == 1 {
                        ModelsDevServiceProvider::Anthropic
                    } else {
                        ModelsDevServiceProvider::OpenRouter
                    };
                    &&& v@[k] < names@.len()
                    &&& names@[v@[k] as int]@ == provider_key(p)
                    &&& forall|j: int| 0 <= j < v@[k] ==> names@[j]@ != provider_key(p)
                }),
            Err(e) => {
                let missing = if !has_entry(names@, ModelsDevServiceProvider::OpenAI) {
                    ModelsDevServiceProvider::OpenAI
                } else if !has_entry(names@, ModelsDevServiceProvider::Anthropic) {
                    ModelsDevServiceProvider::Anthropic
                } else {
                    ModelsDevServiceProvider::OpenRouter
                };
                &&& !has_entry(names@, missing)
                &&& e matches LlmError::ModelsDevError(m) && m@ == "Provider '"@ + provider_key(
                    missing,
                ) + "' not found"@
            },
        },
        r is Ok <==> (has_entry(names@, ModelsDevServiceProvider::OpenAI) && has_entry(
            names@,
            ModelsDevServiceProvider::Anthropic,
        ) && has_entry(names@, ModelsDevServiceProvider::OpenRouter)),
{
    let providers = ModelsDevServiceProvider::all();
    let mut v: Vec<usize> = Vec::new();
    for k in 0..providers.len()
        invariant
            providers@ == seq![
                ModelsDevServiceProvider::OpenAI,
                ModelsDevServiceProvider::Anthropic,
                ModelsDevServiceProvider::OpenRouter,
            ],
            v@.len() == k,
            forall|q: int|
                #![trigger v@[q]]
                0 <= q < k ==> {
                    &&& v@[q] < names@.len()
                    &&& names@[v@[q] as int]@ == provider_key(providers@[q])
                    &&& forall|j: int| 0 <= j < v@[q] ==> names@[j]@ != provider_key(providers@[q])
                },
    {
        let p = providers[k];
        match find_name(names, p.as_str()) {
            Some(i) => {
                v.push(i);
            },
            None => {
                proof {
                    assert(!has_entry(names@, p));
                    if k >= 1 {
                        assert(names@[v@[0] as int]@ == provider_key(providers@[0]));
                    }
                    if k >= 2 {
                        assert(names@[v@[1] as int]@ == provider_key(providers@[1]));
                    }
                }
                return Err(provider_not_found(p));
            },
        }
    }
    proof {
        assert(names@[v@[0] as int]@ == provider_key(providers@[0]));
        assert(names@[v@[1] as int]@ == provider_key(providers@[1]));
        assert(names@[v@[2] as int]@ == provider_key(providers@[2]));
    }
    Ok(v)
}

} // verus!
