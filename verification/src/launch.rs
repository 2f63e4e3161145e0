//! Start-up decisions: the test-reset flag taken out of the arguments before
//! the toolkit parses them, the environment switches, seeding a test
//! identity, and which keys reach Core.

use vstd::prelude::*;
use vstd::string::*;

use crate::presentation::StandardShortcut;
use crate::text::same_text;

verus! {

/// The flag that asks for a seeded test identity; the toolkit's own parser
/// refuses it, so it is consumed first.
pub open spec fn reset_flag() -> Seq<char> {
    "--reset-for-testing"@
}

/// `args` without the reset flag, in order.
pub open spec fn without_reset_flag(args: Seq<Seq<char>>) -> Seq<Seq<char>>
    decreases args.len(),
{
    if args.len() == 0 {
        seq![]
    } else {
        let rest = without_reset_flag(args.drop_last());
        if args.last() == reset_flag() {
            rest
        } else {
            rest.push(args.last())
        }
    }
}

/// Take every reset flag out of the arguments. Returns the arguments left,
/// in order, and whether the flag was among them.
pub fn take_reset_flag(args: Vec<String>) -> (r: (Vec<String>, bool))
    ensures
        r.0@.map_values(|a: String| a@) == without_reset_flag(args@.map_values(|a: String| a@)),
        r.1 == args@.map_values(|a: String| a@).contains(reset_flag()),
{
    let ghost views = args@.map_values(|a: String| a@);
    let mut kept: Vec<String> = Vec::new();
    let mut found = false;
    let n = args.len();
    let mut i: usize = 0;
    proof {
        reveal_strlit("--reset-for-testing");
    }
    while i < n
        invariant
            n == args@.len(),
            views == args@.map_values(|a: String| a@),
            i <= n,
            kept@.map_values(|a: String| a@) == without_reset_flag(views.subrange(0, i as int)),
            found == views.subrange(0, i as int).contains(reset_flag()),
            reset_flag() == "--reset-for-testing"@,
        decreases n - i,
    {
        let ghost prefix = views.subrange(0, i + 1);
        proof {
            assert(prefix.drop_last() =~= views.subrange(0, i as int));
            assert(prefix.last() == views[i as int]);
        }
        let is_flag = same_text(args[i].as_str(), "--reset-for-testing");
        if is_flag {
            found = true;
            proof {
                assert(prefix.contains(reset_flag())) by {
                    assert(prefix[i as int] == reset_flag());
                }
            }
        } else {
            kept.push(args[i].clone());
            proof {
                assert(kept@.map_values(|a: String| a@) =~= without_reset_flag(prefix));
                assert(prefix.contains(reset_flag()) == views.subrange(0, i as int).contains(
                    reset_flag(),
                )) by {
                    if prefix.contains(reset_flag()) {
                        let k = choose|k: int| 0 <= k < prefix.len() && prefix[k] == reset_flag();
                        assert(k < i);
                        assert(views.subrange(0, i as int)[k] == reset_flag());
                    }
                    if views.subrange(0, i as int).contains(reset_flag()) {
                        let k = choose|k: int|
                            0 <= k < i && views.subrange(0, i as int)[k] == reset_flag();
                        assert(prefix[k] == reset_flag());
                    }
                }
            }
        }
        i = i + 1;
    }
    proof {
        assert(views.subrange(0, n as int) =~= views);
    }
    (kept, found)
}

/// The toolkit never sees the reset flag: none is left once it is taken
/// out, and taking it out again changes nothing.
pub proof fn law_reset_flag_never_reaches_the_toolkit(args: Seq<Seq<char>>)
    ensures
        !without_reset_flag(args).contains(reset_flag()),
        without_reset_flag(without_reset_flag(args)) == without_reset_flag(args),
    decreases args.len(),
{
    if args.len() > 0 {
        let rest = without_reset_flag(args.drop_last());
        law_reset_flag_never_reaches_the_toolkit(args.drop_last());
        if args.last() != reset_flag() {
            let kept = rest.push(args.last());
            assert(kept.drop_last() =~= rest);
            assert(!kept.contains(reset_flag())) by {
                if kept.contains(reset_flag()) {
                    let k = choose|k: int| 0 <= k < kept.len() && kept[k] == reset_flag();
                    if k < rest.len() {
                        assert(rest[k] == reset_flag());
                    }
                }
            }
        }
    }
}

/// An environment switch is on when the variable holds exactly `1`.
pub fn switch_on(value: Option<&str>) -> (on: bool)
    ensures
        on == (value matches Some(v) && v@ == "1"@),
{
    match value {
        Some(v) => same_text(v, "1"),
        None => false,
    }
}

/// What start-up does about a test identity.
#[derive(Clone, Copy, Debug, PartialEq, Eq, Structural)]
pub enum SeedDecision {
    /// Nobody asked for one.
    NotRequested,
    /// Asked for, but an identity exists already.
    KeepExisting,
    /// Asked for, and none exists: create it.
    Create,
}

/// A test identity is created when the flag or the switch asks for one and
/// none exists yet.
pub fn seed_decision(flag: bool, switch: bool, has_identity: bool) -> (d: SeedDecision)
    ensures
        d == (if !flag && !switch {
            SeedDecision::NotRequested
        } else if has_identity {
            SeedDecision::KeepExisting
        } else {
            SeedDecision::Create
        }),
{
    if !flag && !switch {
        SeedDecision::NotRequested
    } else if has_identity {
        SeedDecision::KeepExisting
    } else {
        SeedDecision::Create
    }
}

/// The keys the shell looks at.
#[derive(Clone, Copy, Debug, PartialEq, Eq, Structural)]
pub enum Key {
    Escape,
    Z,
    Return,
    KeypadEnter,
    Other,
}

/// Escape without Alt asks Core to go back.
pub fn requests_back(key: Key, alt: bool) -> (back: bool)
    ensures
        back == (key == Key::Escape && !alt),
{
    key == Key::Escape && !alt
}

/// The standard shortcut a key press names: Ctrl+Z undoes, Ctrl+Enter
/// activates the primary control; anything else names none.
pub fn shortcut_for_key(key: Key, control: bool) -> (s: Option<StandardShortcut>)
    ensures
        s == (if control && key == Key::Z {
            Some(StandardShortcut::Undo)
        } else if control && (key == Key::Return || key == Key::KeypadEnter) {
            Some(StandardShortcut::ActivatePrimary)
        } else {
            None
        }),
{
    if control && key == Key::Z {
        Some(StandardShortcut::Undo)
    } else if control && (key == Key::Return || key == Key::KeypadEnter) {
        Some(StandardShortcut::ActivatePrimary)
    } else {
        None
    }
}

} // verus!
