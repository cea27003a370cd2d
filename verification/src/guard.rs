//! The compatibility guard: the sessions and systems on which writing
//! `locale.conf` would not change the language, and so the picker refuses
//! to run.
use vstd::prelude::*;
use vstd::string::StrSliceExecFns;

use crate::config::{first_assigned_value, first_value};
use crate::text::{chars_of, lines_of, str_eq};

verus! {

broadcast use vstd::string::group_string_axioms;

/// A reason why the chosen language would not take effect.
#[derive(Debug, Clone, Copy, PartialEq, Eq, Structural)]
pub enum Incompatibility {
    /// The session is a Wayland session.
    WaylandSession,
    /// The system is neither Arch Linux nor a distribution based on it.
    NotArchBased,
    /// The desktop is GNOME, KDE or Deepin.
    UnsupportedDesktop,
}

/// `v` without one pair of matching single or double quotes around it.
pub open spec fn unquote(v: Seq<char>) -> Seq<char> {
    if v.len() >= 2 && ((v[0] == '"' && v.last() == '"') || (v[0] == '\'' && v.last() == '\'')) {
        v.subrange(1, v.len() - 1)
    } else {
        v
    }
}

/// Whether `w` stands at index `i` of `s` as a whole `sep`-separated field.
pub open spec fn field_at(s: Seq<char>, w: Seq<char>, sep: char, i: int) -> bool {
    s.subrange(i, i + w.len()) == w && (i == 0 || s[i - 1] == sep) && (i + w.len() == s.len()
        || s[i + w.len()] == sep)
}

/// Whether `w` is one of the `sep`-separated fields of `s`.
pub open spec fn has_field(s: Seq<char>, w: Seq<char>, sep: char) -> bool {
    exists|i: int| 0 <= i && i + w.len() <= s.len() && #[trigger] field_at(s, w, sep, i)
}

/// The unquoted value of the first `<key>` line of an `os-release` text.
pub open spec fn os_release_value(content: Seq<char>, key: Seq<char>) -> Option<Seq<char>> {
    match first_value(lines_of(content), key) {
        Some(v) => Some(unquote(v)),
        None => None,
    }
}

/// Whether an `os-release` text describes Arch Linux or a distribution
/// based on it: its `ID` is `arch`, or `arch` is one of the space-separated
/// words of its `ID_LIKE`.
pub open spec fn is_arch_based(content: Seq<char>) -> bool {
    ||| os_release_value(content, "ID="@) == Some("arch"@)
    ||| match os_release_value(content, "ID_LIKE="@) {
        Some(like) => has_field(like, "arch"@, ' '),
        None => false,
    }
}

/// Whether one of the `:`-separated desktop names is GNOME, KDE or Deepin.
pub open spec fn is_unsupported_desktop(desktop: Seq<char>) -> bool {
    has_field(desktop, "GNOME"@, ':') || has_field(desktop, "KDE"@, ':') || has_field(
        desktop,
        "Deepin"@,
        ':',
    )
}

/// What keeps the chosen language from taking effect, given the session
/// type (`XDG_SESSION_TYPE`), the text of `/etc/os-release` (when it could
/// be read) and the desktop names (`XDG_CURRENT_DESKTOP`), in that order.
pub open spec fn incompatibilities(
    session_type: Option<Seq<char>>,
    os_release: Option<Seq<char>>,
    desktop: Option<Seq<char>>,
) -> Seq<Incompatibility> {
    let wayland: Seq<Incompatibility> = if session_type == Some("wayland"@) {
        seq![Incompatibility::WaylandSession]
    } else {
        seq![]
    };
    let distro: Seq<Incompatibility> = match os_release {
        Some(content) => if is_arch_based(content) {
            seq![]
        } else {
            seq![Incompatibility::NotArchBased]
        },
        None => seq![Incompatibility::NotArchBased],
    };
    let desk: Seq<Incompatibility> = match desktop {
        Some(d) => if is_unsupported_desktop(d) {
            seq![Incompatibility::UnsupportedDesktop]
        } else {
            seq![]
        },
        None => seq![],
    };
    wayland + distro + desk
}

/// `v` without a pair of matching quotes around it (see `unquote`).
fn unquote_str(v: &str) -> (r: &str)
    ensures
        r@ == unquote(v@),
{
    let n = v.unicode_len();
    if n >= 2 {
        let first = v.get_char(0);
        let last = v.get_char(n - 1);
        if (first == '"' && last == '"') || (first == '\'' && last == '\'') {
            return v.substring_char(1, n - 1);
        }
    }
    v
}

/// Whether the characters `w` stand at index `i` of `v` as a whole field.
fn is_field_at(v: &Vec<char>, w: &Vec<char>, sep: char, i: usize) -> (r: bool)
    requires
        i + w@.len() <= v@.len(),
    ensures
        r == field_at(v@, w@, sep, i as int),
{
    let n = v.len();
    let m = w.len();
    let mut k: usize = 0;
    while k < m && v[i + k] == w[k]
        invariant
            k <= m,
            i + m <= n,
            n == v@.len(),
            m == w@.len(),
            forall|j: int| 0 <= j < k ==> v@[i + j] == w@[j],
        decreases m - k,
    {
        k = k + 1;
    }
    if k < m {
        assert(v@.subrange(i as int, i + m)[k as int] != w@[k as int]);
        return false;
    }
    assert(v@.subrange(i as int, i + m) =~= w@);
    let starts = i == 0 || v[i - 1] == sep;
    let ends = i + m == n || v[i + m] == sep;
    starts && ends
}

/// Whether `w` is one of the `sep`-separated fields of `s` (see `has_field`).
pub fn contains_field(s: &str, w: &str, sep: char) -> (found: bool)
    ensures
        found == has_field(s@, w@, sep),
{
    let vs = chars_of(s);
    let vw = chars_of(w);
    let n = vs.len();
    let m = vw.len();
    if m > n {
        return false;
    }
    let last = n - m;
    let mut i: usize = 0;
    while i < last
        invariant
            i <= last,
            last + m == n,
            n == s@.len(),
            m == w@.len(),
            vs@ == s@,
            vw@ == w@,
            forall|j: int| 0 <= j < i ==> !#[trigger] field_at(s@, w@, sep, j),
        decreases last - i,
    {
        if is_field_at(&vs, &vw, sep, i) {
            return true;
        }
        i = i + 1;
    }
    if is_field_at(&vs, &vw, sep, last) {
        return true;
    }
    assert forall|j: int| 0 <= j && j + m <= n implies !#[trigger] field_at(s@, w@, sep, j) by {
        assert(j <= last);
    }
    false
}

/// The unquoted value of the first `<key>` line of `content`.
fn os_release_field(content: &str, key: &str) -> (value: Option<String>)
    ensures
        value.deep_view() == os_release_value(content@, key@),
{
    match first_assigned_value(content, key) {
        Some(v) => Some(String::from_str(unquote_str(v.as_str()))),
        None => None,
    }
}

/// Whether `content` describes an Arch-based system (see `is_arch_based`).
pub fn arch_based(content: &str) -> (arch: bool)
    ensures
        arch == is_arch_based(content@),
{
    let id = os_release_field(content, "ID=");
    let id_is_arch = match &id {
        Some(v) => str_eq(v.as_str(), "arch"),
        None => false,
    };
    if id_is_arch {
        return true;
    }
    match os_release_field(content, "ID_LIKE=") {
        Some(like) => contains_field(like.as_str(), "arch", ' '),
        None => false,
    }
}

/// What keeps the chosen language from taking effect (see
/// `incompatibilities`).
pub fn compatibility_issues(
    session_type: Option<&str>,
    os_release: Option<&str>,
    desktop: Option<&str>,
) -> (issues: Vec<Incompatibility>)
    ensures
        issues@ == incompatibilities(
            session_type.deep_view(),
            os_release.deep_view(),
            desktop.deep_view(),
        ),
{
    let mut issues: Vec<Incompatibility> = Vec::new();
    let wayland = match session_type {
        Some(t) => str_eq(t, "wayland"),
        None => false,
    };
    if wayland {
        issues.push(Incompatibility::WaylandSession);
    }
    let arch = match os_release {
        Some(content) => arch_based(content),
        None => false,
    };
    if !arch {
        issues.push(Incompatibility::NotArchBased);
    }
    let blocked = match desktop {
        Some(d) => contains_field(d, "GNOME", ':') || contains_field(d, "KDE", ':')
            || contains_field(d, "Deepin", ':'),
        None => false,
    };
    if blocked {
        issues.push(Incompatibility::UnsupportedDesktop);
    }
    let ghost expected = incompatibilities(
        session_type.deep_view(),
        os_release.deep_view(),
        desktop.deep_view(),
    );
    assert(issues@ =~= expected);
    issues
}


/// The picker runs exactly when the session is not a Wayland session,
/// `/etc/os-release` could be read and describes an Arch-based system, and
/// the desktop is not GNOME, KDE or Deepin; each reason is reported once.
pub proof fn law_guard_passes_exactly_when(
    session_type: Option<Seq<char>>,
    os_release: Option<Seq<char>>,
    desktop: Option<Seq<char>>,
)
    ensures
        incompatibilities(session_type, os_release, desktop).len() == 0 <==> (session_type
            != Some("wayland"@) && (os_release matches Some(c) && is_arch_based(c)) && !(
        desktop matches Some(d) && is_unsupported_desktop(d))),
        incompatibilities(session_type, os_release, desktop).no_duplicates(),
{
    let issues = incompatibilities(session_type, os_release, desktop);
    assert forall|i: int, j: int| 0 <= i < issues.len() && 0 <= j < issues.len() && i != j implies issues[i] != issues[j] by {
    }
}

} // verus!
