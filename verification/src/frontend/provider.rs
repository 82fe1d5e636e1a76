use vstd::prelude::*;
use vstd::string::StringExecFns;

verus! {

/// The outside sign-in providers.
#[derive(Debug, Clone, Copy, PartialEq, Eq, Structural)]
pub enum OAuthProvider {
    Google,
    Github,
    Gitlab,
    Telegram,
}

/// The name a provider has in the back end's route `/api/v1/auth/{id}`.
pub open spec fn provider_id(p: OAuthProvider) -> &'static str {
    match p {
        OAuthProvider::Google => "google",
        OAuthProvider::Github => "github",
        OAuthProvider::Gitlab => "gitlab",
        OAuthProvider::Telegram => "telegram",
    }
}

/// The name a provider is shown under.
pub open spec fn provider_label(p: OAuthProvider) -> &'static str {
    match p {
        OAuthProvider::Google => "Google",
        OAuthProvider::Github => "GitHub",
        OAuthProvider::Gitlab => "GitLab",
        OAuthProvider::Telegram => "Telegram",
    }
}

impl OAuthProvider {
    /// The order the sign-in page shows the providers in.
    pub const ALL: [OAuthProvider; 4] = [
        OAuthProvider::Google,
        OAuthProvider::Github,
        OAuthProvider::Gitlab,
        OAuthProvider::Telegram,
    ];

    pub fn id(&self) -> (r: &'static str)
        ensures
            r == provider_id(*self),
    {
        match self {
            OAuthProvider::Google => "google",
            OAuthProvider::Github => "github",
            OAuthProvider::Gitlab => "gitlab",
            OAuthProvider::Telegram => "telegram",
        }
    }

    /// The text of the provider's sign-in button: "{label} bilan davom etish".
    pub fn button_text(&self) -> (r: String)
        ensures
            r@ == provider_label(*self)@ + " bilan davom etish"@,
    {
        String::from_str(self.label()).concat(" bilan davom etish")
    }

    pub fn label(&self) -> (r: &'static str)
        ensures
            r == provider_label(*self),
    {
        match self {
            OAuthProvider::Google => "Google",
            OAuthProvider::Github => "GitHub",
            OAuthProvider::Gitlab => "GitLab",
            OAuthProvider::Telegram => "Telegram",
        }
    }
}

/// Different providers have different route names, so a route names one
/// provider.
pub proof fn provider_ids_are_distinct(a: OAuthProvider, b: OAuthProvider)
    requires
        a != b,
    ensures
        provider_id(a)@ != provider_id(b)@,
{
    reveal_strlit("google");
    reveal_strlit("github");
    reveal_strlit("gitlab");
    reveal_strlit("telegram");
    assert("google"@[1] != "github"@[1]);
    assert("google"@[1] != "gitlab"@[1]);
    assert("github"@[3] != "gitlab"@[3]);
    assert("google"@.len() != "telegram"@.len());
    assert("github"@.len() != "telegram"@.len());
    assert("gitlab"@.len() != "telegram"@.len());
}

} // verus!
