//! The decisions that the web handlers take around authentication: where a login
//! redirects, whose profile a visitor may edit.
use vstd::prelude::*;
use vstd::string::StringExecFns;
use crate::auth::User;

verus! {

/// Where a failed login sends the visitor back to: the login page, keeping the page that
/// was asked for.
pub open spec fn retry_target(next: Option<Seq<char>>) -> Seq<char> {
    match next {
        Some(n) => "/login?next="@ + n,
        None => "/login"@,
    }
}

/// Where a successful login sends the visitor: the page that was asked for, or the index.
pub open spec fn landing_target(next: Option<Seq<char>>) -> Seq<char> {
    match next {
        Some(n) => n,
        None => "/"@,
    }
}

/// The characters of an optional string.
pub open spec fn opt_str_view(o: &Option<String>) -> Option<Seq<char>> {
    match o {
        Some(s) => Some(s@),
        None => None,
    }
}

/// The login page to retry from after invalid credentials.
pub fn login_retry_url(next: &Option<String>) -> (r: String)
    ensures
        r@ == retry_target(opt_str_view(next)),
{
    match next {
        Some(n) => {
            let base = String::from_str("/login?next=");
            proof {
                reveal_strlit("/login?next=");
            }
            base.concat(n.as_str())
        },
        None => {
            proof {
                reveal_strlit("/login");
            }
            String::from_str("/login")
        },
    }
}

/// The page to show after a successful login.
pub fn login_landing_url(next: &Option<String>) -> (r: String)
    ensures
        r@ == landing_target(opt_str_view(next)),
{
    match next {
        Some(n) => n.clone(),
        None => {
            proof {
                reveal_strlit("/");
            }
            String::from_str("/")
        },
    }
}

/// The profile page of the visitor, or the login page for a visitor who is not logged in.
pub fn own_profile_url(visitor: &Option<User>) -> (r: String)
    ensures
        visitor is None ==> r@ == "/login"@,
        visitor matches Some(u) ==> r@ == "/user/"@ + u.name@,
{
    proof {
        reveal_strlit("/login");
        reveal_strlit("/user/");
    }
    match visitor {
        Some(u) => String::from_str("/user/").concat(u.name.as_str()),
        None => String::from_str("/login"),
    }
}

/// Whether the visitor is looking at the profile of the account `profile_id`.
pub fn is_own_profile(visitor: &Option<User>, profile_id: i32) -> (r: bool)
    ensures
        r == (visitor matches Some(u) && u.user_id == profile_id),
{
    match visitor {
        Some(u) => u.user_id == profile_id,
        None => false,
    }
}

/// What an edit of another account's profile still needs.
#[derive(Clone, Copy, Debug, PartialEq, Eq, Structural)]
pub enum EditAccess {
    /// No one is logged in.
    Denied,
    /// The visitor edits their own profile.
    Granted,
    /// The visitor edits someone else's profile, which takes a permission.
    NeedsPermission,
}

/// Decides whether `visitor` may edit the profile of the account named `profile_name`:
/// anyone logged in may edit their own, other profiles take a permission.
pub fn profile_edit_access(visitor: &Option<User>, profile_name: &String) -> (r: EditAccess)
    ensures
        visitor is None ==> r == EditAccess::Denied,
        visitor matches Some(u) ==> (r == EditAccess::Granted <==> u.name@ == profile_name@),
        visitor matches Some(u) ==> (r == EditAccess::NeedsPermission <==> u.name@
            != profile_name@),
{
    match visitor {
        Some(u) => if u.name == *profile_name {
            EditAccess::Granted
        } else {
            EditAccess::NeedsPermission
        },
        None => EditAccess::Denied,
    }
}

} // verus!
