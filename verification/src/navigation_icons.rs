//! Resolves the platform-neutral `icon_token` Core attaches to an action into
//! an icon name the GTK icon theme can draw.

use vstd::prelude::*;

use crate::text::{lemma_trimmed_idempotent, same_text, trim, trimmed};

verus! {

/// The chain shown for a token this build has not learned: an apps-grid icon
/// reads as "some section of this app" and stays truthful.
pub open spec fn fallback_chain() -> Seq<Seq<char>> {
    seq!["view-app-grid"@, "view-app-grid-symbolic"@, "application-x-executable-symbolic"@]
}

/// The icon names, filled first and `-symbolic` outlines after, that a
/// known Core token (named after the SF Symbols core set) translates to.
/// `None` for a token that is not in the table.
pub open spec fn known_chain(token: Seq<char>) -> Option<Seq<Seq<char>>> {
    if token == "person.crop.rectangle"@ {
        Some(seq!["avatar-default"@, "avatar-default-symbolic"@])
    } else if token == "person.2"@ {
        Some(seq!["system-users"@, "system-users-symbolic"@])
    } else if token == "qrcode"@ {
        Some(
            seq![
                "qr-code"@,
                "qr-code-symbolic"@,
                "view-barcode-qr-symbolic"@,
                "camera-photo-symbolic"@,
            ],
        )
    } else if token == "folder"@ {
        Some(seq!["folder"@, "folder-symbolic"@])
    } else if token == "tag"@ {
        Some(seq!["tag"@, "tag-symbolic"@, "user-bookmarks-symbolic"@])
    } else if token == "mappin.and.ellipse"@ {
        Some(seq!["mark-location"@, "mark-location-symbolic"@, "find-location-symbolic"@])
    } else if token == "person.badge.plus"@ {
        Some(seq!["contact-new"@, "contact-new-symbolic"@, "list-add-symbolic"@])
    } else if token == "gearshape"@ {
        Some(
            seq!["preferences-system"@, "preferences-system-symbolic"@, "emblem-system-symbolic"@],
        )
    } else if token == "questionmark.circle"@ {
        Some(seq!["help-browser"@, "help-browser-symbolic"@, "help-about-symbolic"@])
    } else if token == "key.horizontal"@ {
        Some(
            seq![
                "dialog-password"@,
                "dialog-password-symbolic"@,
                "system-lock-screen-symbolic"@,
            ],
        )
    } else if token == "laptopcomputer"@ {
        Some(
            seq![
                "computer"@,
                "computer-symbolic"@,
                "preferences-desktop-display-symbolic"@,
            ],
        )
    } else if token == "externaldrive"@ {
        Some(
            seq!["drive-harddisk"@, "drive-harddisk-symbolic"@, "media-removable-symbolic"@],
        )
    } else if token == "hand.raised"@ {
        Some(seq!["security-high"@, "security-high-symbolic"@, "channel-secure-symbolic"@])
    } else if token == "bubble.left.and.bubble.right"@ {
        Some(
            seq!["chat-message-new"@, "chat-message-new-symbolic"@, "mail-unread-symbolic"@],
        )
    } else if token == "list.bullet.rectangle"@ {
        Some(seq!["view-list"@, "view-list-symbolic"@, "view-list-bullet-symbolic"@])
    } else if token == "house"@ {
        Some(seq!["go-home"@, "go-home-symbolic"@, "user-home-symbolic"@])
    } else {
        None
    }
}

/// Icon names to try, in order, for an optional Core token: the token is
/// trimmed first, and a missing, blank or unknown token yields the fallback.
pub open spec fn icon_chain(token: Option<Seq<char>>) -> Seq<Seq<char>> {
    match token {
        None => fallback_chain(),
        Some(raw) => {
            let t = trimmed(raw);
            if t.len() == 0 {
                fallback_chain()
            } else {
                match known_chain(t) {
                    Some(chain) => chain,
                    None => fallback_chain(),
                }
            }
        },
    }
}

/// The views of a list of names.
pub open spec fn name_views(names: Seq<&str>) -> Seq<Seq<char>> {
    names.map_values(|s: &str| s@)
}

/// The optional token, taken by its view.
pub open spec fn token_view(token: Option<&str>) -> Option<Seq<char>> {
    match token {
        Some(t) => Some(t@),
        None => None,
    }
}

fn fallback_names() -> (names: Vec<&'static str>)
    ensures
        name_views(names@) == fallback_chain(),
{
    let names = vec!["view-app-grid", "view-app-grid-symbolic", "application-x-executable-symbolic"];
    assert(name_views(names@) =~= fallback_chain());
    names
}

#[verifier::rlimit(40)]
fn known_names(t: &str) -> (names: Option<Vec<&'static str>>)
    ensures
        match names {
            Some(v) => known_chain(t@) == Some(name_views(v@)),
            None => known_chain(t@) is None,
        },
{
    let names = if same_text(t, "person.crop.rectangle") {
        vec!["avatar-default", "avatar-default-symbolic"]
    } else if same_text(t, "person.2") {
        vec!["system-users", "system-users-symbolic"]
    } else if same_text(t, "qrcode") {
        vec!["qr-code", "qr-code-symbolic", "view-barcode-qr-symbolic", "camera-photo-symbolic"]
    } else if same_text(t, "folder") {
        vec!["folder", "folder-symbolic"]
    } else if same_text(t, "tag") {
        vec!["tag", "tag-symbolic", "user-bookmarks-symbolic"]
    } else if same_text(t, "mappin.and.ellipse") {
        vec!["mark-location", "mark-location-symbolic", "find-location-symbolic"]
    } else if same_text(t, "person.badge.plus") {
        vec!["contact-new", "contact-new-symbolic", "list-add-symbolic"]
    } else if same_text(t, "gearshape") {
        vec!["preferences-system", "preferences-system-symbolic", "emblem-system-symbolic"]
    } else if same_text(t, "questionmark.circle") {
        vec!["help-browser", "help-browser-symbolic", "help-about-symbolic"]
    } else if same_text(t, "key.horizontal") {
        vec!["dialog-password", "dialog-password-symbolic", "system-lock-screen-symbolic"]
    } else if same_text(t, "laptopcomputer") {
        vec!["computer", "computer-symbolic", "preferences-desktop-display-symbolic"]
    } else if same_text(t, "externaldrive") {
        vec!["drive-harddisk", "drive-harddisk-symbolic", "media-removable-symbolic"]
    } else if same_text(t, "hand.raised") {
        vec!["security-high", "security-high-symbolic", "channel-secure-symbolic"]
    } else if same_text(t, "bubble.left.and.bubble.right") {
        vec!["chat-message-new", "chat-message-new-symbolic", "mail-unread-symbolic"]
    } else if same_text(t, "list.bullet.rectangle") {
        vec!["view-list", "view-list-symbolic", "view-list-bullet-symbolic"]
    } else if same_text(t, "house") {
        vec!["go-home", "go-home-symbolic", "user-home-symbolic"]
    } else {
        return None;
    };
    assert(known_chain(t@) == Some(name_views(names@)));
    Some(names)
}

/// Icon names to try, in order, for one Core token. Never empty: a token this
/// build has not learned yields the neutral fallback chain.
pub fn navigation_icon_names(token: Option<&str>) -> (names: Vec<&'static str>)
    ensures
        name_views(names@) == icon_chain(token_view(token)),
        names@.len() > 0,
{
    let names = match token {
        None => fallback_names(),
        Some(raw) => {
            let t = trim(raw);
            if t.unicode_len() == 0 {
                fallback_names()
            } else {
                match known_names(t) {
                    Some(v) => v,
                    None => fallback_names(),
                }
            }
        },
    };
    proof {
        assert(name_views(names@).len() == names@.len());
    }
    names
}

/// `has_icon` was asked about a name with these characters and declined it.
pub open spec fn declined<F: Fn(&str) -> bool>(has_icon: F, name: Seq<char>) -> bool {
    exists|s: &str| s@ == name && #[trigger] has_icon.ensures((s,), false)
}

/// `name` stands at position `i` of `chain`, `has_icon` declined every name
/// before it, and either accepted `name` or declined it as the last one.
pub open spec fn resolved_at<F: Fn(&str) -> bool>(
    has_icon: F,
    chain: Seq<Seq<char>>,
    i: int,
    name: &str,
) -> bool {
    &&& 0 <= i < chain.len()
    &&& name@ == chain[i]
    &&& forall|j: int| 0 <= j < i ==> declined(has_icon, #[trigger] chain[j])
    &&& has_icon.ensures((name,), true) || (i == chain.len() - 1 && declined(has_icon, chain[i]))
}

/// The first name `has_icon` accepts, or the last candidate when it accepts
/// none, so a themeless session still leaves a name beside the label rather
/// than an empty gap.
///
/// `has_icon` is asked about the candidates in order, and no further once it
/// accepts one.
pub fn resolve_icon_name(token: Option<&str>, has_icon: impl Fn(&str) -> bool) -> (name:
    &'static str)
    requires
        forall|s: &str| has_icon.requires((s,)),
    ensures
        exists|i: int| resolved_at(has_icon, icon_chain(token_view(token)), i, name),
{
    let names = navigation_icon_names(token);
    let ghost chain = icon_chain(token_view(token));
    let n = names.len();
    let mut i: usize = 0;
    while i < n
        invariant
            n == names@.len(),
            name_views(names@) == chain,
            chain == icon_chain(token_view(token)),
            n > 0,
            i <= n,
            forall|s: &str| has_icon.requires((s,)),
            forall|j: int| 0 <= j < i ==> declined(has_icon, #[trigger] chain[j]),
        decreases n - i,
    {
        let candidate = names[i];
        let accepted = has_icon(candidate);
        if accepted {
            assert(candidate@ == chain[i as int]);
            assert(has_icon.ensures((candidate,), true));
            assert(resolved_at(has_icon, chain, i as int, candidate));
            return candidate;
        }
        assert(candidate@ == chain[i as int]);
        assert(declined(has_icon, chain[i as int]));
        i = i + 1;
    }
    let last = names[n - 1];
    assert(last@ == chain[n - 1]);
    assert(resolved_at(has_icon, chain, n - 1, last));
    last
}

/// A token is read trimmed: surrounding white space does not change the
/// icon names it resolves to, and a blank token resolves as a missing one.
pub proof fn law_token_is_read_trimmed(raw: Seq<char>)
    ensures
        icon_chain(Some(raw)) == icon_chain(Some(trimmed(raw))),
        trimmed(raw).len() == 0 ==> icon_chain(Some(raw)) == icon_chain(None),
{
    lemma_trimmed_idempotent(raw);
}

} // verus!
