use vstd::prelude::*;

verus! {

broadcast use vstd::string::group_string_axioms;

/// What a sign-in request for a provider leads to.
#[derive(Debug, Clone, Copy, PartialEq, Eq)]
pub enum LoginAction {
    /// A temporary redirect to the provider's authorization page.
    Redirect(&'static str),
    /// 404: no such provider.
    NotFound,
}

/// What a provider's callback answers.
#[derive(Debug, Clone, Copy, PartialEq, Eq)]
pub enum CallbackAction {
    /// 200.
    Accepted,
    /// 404: no such provider.
    NotFound,
}

/// Google's authorization page.
pub const GOOGLE_AUTHORIZE: &'static str = "https://accounts.google.com/o/oauth2/v2/auth";

/// GitHub's authorization page.
pub const GITHUB_AUTHORIZE: &'static str = "https://github.com/login/oauth/authorize";

/// Whether two texts are equal.
fn same_text(a: &str, b: &str) -> (r: bool)
    ensures
        r == (a@ == b@),
{
    a.to_owned() == b.to_owned()
}

/// Sends the browser to the provider's authorization page: Google and GitHub
/// are known; any other provider is not found.
pub fn login(provider: &str) -> (r: LoginAction)
    ensures
        provider@ == "google"@ ==> r == LoginAction::Redirect(GOOGLE_AUTHORIZE),
        provider@ == "github"@ ==> r == LoginAction::Redirect(GITHUB_AUTHORIZE),
        provider@ != "google"@ && provider@ != "github"@ ==> r == LoginAction::NotFound,
{
    proof {
        reveal_strlit("google");
        reveal_strlit("github");
        assert("google"@[1] != "github"@[1]);
    }
    if same_text(provider, "google") {
        LoginAction::Redirect(GOOGLE_AUTHORIZE)
    } else if same_text(provider, "github") {
        LoginAction::Redirect(GITHUB_AUTHORIZE)
    } else {
        LoginAction::NotFound
    }
}

/// Accepts the callback of a known provider (Google, GitHub).
pub fn callback(provider: &str) -> (r: CallbackAction)
    ensures
        (provider@ == "google"@ || provider@ == "github"@) ==> r == CallbackAction::Accepted,
        provider@ != "google"@ && provider@ != "github"@ ==> r == CallbackAction::NotFound,
{
    proof {
        reveal_strlit("google");
        reveal_strlit("github");
        assert("google"@[1] != "github"@[1]);
    }
    if same_text(provider, "google") || same_text(provider, "github") {
        CallbackAction::Accepted
    } else {
        CallbackAction::NotFound
    }
}

} // verus!
