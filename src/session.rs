//! Session facts: whether this is a Wayland session, and whether it is a
//! GNOME one, from the values the environment holds.
use vstd::prelude::*;

use crate::messages::same_text;

verus! {

/// What `str::to_lowercase` returns for a text.
pub uninterp spec fn lower_of(s: Seq<char>) -> Seq<char>;

/// Relies on `str::to_lowercase`: its result depends on the characters
/// alone, and an empty text stays empty.
#[verifier::external_body]
fn lowercase(s: &str) -> (r: String)
    ensures
        r@ == lower_of(s@),
        s@.len() == 0 ==> r@.len() == 0,
{
    s.to_lowercase()
}

pub open spec fn is_text(v: Option<String>, text: Seq<char>) -> bool {
    v matches Some(s) && s@ == text
}

pub open spec fn lowered(v: Option<String>) -> Option<Seq<char>> {
    match v {
        Some(s) => Some(lower_of(s@)),
        None => None,
    }
}

fn lowercase_opt(v: &Option<String>) -> (r: Option<String>)
    ensures
        r matches Some(s) ==> lowered(*v) == Some(s@),
        r is None <==> v is None,
{
    match v {
        Some(s) => Some(lowercase(s.as_str())),
        None => None,
    }
}

/// A Wayland session, from the session type already in lower case, whether
/// a display name is set, and whether the user's runtime display socket
/// exists: the session type says `wayland`, or a display name is set and
/// the socket exists.
pub fn wayland_from_lowered(
    session_type_lower: &Option<String>,
    display_set: bool,
    runtime_socket_exists: bool,
) -> (r: bool)
    ensures
        r == (is_text(*session_type_lower, "wayland"@) || (display_set && runtime_socket_exists)),
{
    let typed = match session_type_lower {
        Some(t) => same_text(t.as_str(), "wayland"),
        None => false,
    };
    typed || (display_set && runtime_socket_exists)
}

/// A GNOME session, from the current desktop already in lower case and
/// whether a shell session mode is set: the desktop says `gnome`, or a
/// shell session mode is set.
pub fn mutter_from_lowered(desktop_lower: &Option<String>, shell_mode_set: bool) -> (r: bool)
    ensures
        r == (is_text(*desktop_lower, "gnome"@) || shell_mode_set),
{
    let named = match desktop_lower {
        Some(d) => same_text(d.as_str(), "gnome"),
        None => false,
    };
    named || shell_mode_set
}

/// A Wayland session: the session type, in any case, says `wayland`, or a
/// display name is set and the user's runtime display socket exists.
pub fn is_wayland(session_type: Option<String>, display_set: bool, runtime_socket_exists: bool) -> (r: bool)
    ensures
        r == (lowered(session_type) == Some("wayland"@) || (display_set && runtime_socket_exists)),
{
    let lower = lowercase_opt(&session_type);
    wayland_from_lowered(&lower, display_set, runtime_socket_exists)
}

/// A GNOME session: the current desktop, in any case, says `gnome`, or a
/// shell session mode is set.
pub fn is_mutter(current_desktop: Option<String>, shell_mode_set: bool) -> (r: bool)
    ensures
        r == (lowered(current_desktop) == Some("gnome"@) || shell_mode_set),
{
    let lower = lowercase_opt(&current_desktop);
    mutter_from_lowered(&lower, shell_mode_set)
}

} // verus!
