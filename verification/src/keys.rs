//! The pressed-key set.
//!
//! Keys are plain key codes. The shell keeps the currently pressed keys as a
//! duplicate-free vector maintained with set semantics: adding an already
//! pressed key is a no-op, removing an absent key is a no-op.

use vstd::prelude::*;

verus! {

/// Key code of the Escape key.
pub const KEY_ESCAPE: u32 = 27;

/// Key code of the space bar.
pub const KEY_SPACE: u32 = 32;

/// Modifier keys held down, as reported with each keyboard event.
#[derive(Clone, Copy, Debug, PartialEq, Eq, Structural)]
pub struct Modifiers {
    pub shift: bool,
    pub control: bool,
    pub alt: bool,
    pub logo: bool,
}

impl Modifiers {
    pub fn released() -> (m: Modifiers)
        ensures
            m == (Modifiers { shift: false, control: false, alt: false, logo: false }),
    {
        Modifiers { shift: false, control: false, alt: false, logo: false }
    }
}

/// The set of key codes a sequence holds.
pub open spec fn key_set(s: Seq<u32>) -> Set<u32>
    decreases s.len(),
{
    if s.len() == 0 {
        Set::empty()
    } else {
        key_set(s.drop_last()).insert(s.last())
    }
}

/// A sequence's key set holds exactly the codes the sequence contains.
pub proof fn lemma_key_set_contains(s: Seq<u32>, k: u32)
    ensures
        key_set(s).contains(k) <==> s.contains(k),
    decreases s.len(),
{
    if s.len() > 0 {
        lemma_key_set_contains(s.drop_last(), k);
        if s.contains(k) {
            let i = choose|i: int| 0 <= i < s.len() && s[i] == k;
            if i < s.len() - 1 {
                assert(s.drop_last()[i] == k);
            }
        }
        if s.drop_last().contains(k) {
            let i = choose|i: int| 0 <= i < s.len() - 1 && s.drop_last()[i] == k;
            assert(s[i] == k);
        }
    }
}

/// No key code occurs twice.
pub open spec fn no_duplicates(s: Seq<u32>) -> bool {
    forall|i: int, j: int| 0 <= i < j < s.len() ==> s[i] != s[j]
}

/// Whether `k` occurs in `keys`.
pub fn contains_key(keys: &Vec<u32>, k: u32) -> (r: bool)
    ensures
        r == keys@.contains(k),
{
    let n = keys.len();
    let mut i: usize = 0;
    while i < n
        invariant
            n == keys@.len(),
            i <= n,
            forall|j: int| 0 <= j < i ==> keys@[j] != k,
        decreases n - i,
    {
        if keys[i] == k {
            return true;
        }
        i = i + 1;
    }
    false
}

/// Add `k` to the pressed set; a no-op when it is already pressed.
pub fn press_key(keys: &mut Vec<u32>, k: u32)
    requires
        no_duplicates(old(keys)@),
    ensures
        no_duplicates(final(keys)@),
        key_set(final(keys)@) == key_set(old(keys)@).insert(k),
{
    proof {
        lemma_key_set_contains(keys@, k);
    }
    if !contains_key(keys, k) {
        keys.push(k);
        proof {
            assert(final(keys)@.drop_last() =~= old(keys)@);
        }
    } else {
        proof {
            assert(key_set(keys@).insert(k) =~= key_set(keys@));
        }
    }
}

/// Remove `k` from the pressed set; a no-op when it is absent.
pub fn release_key(keys: &mut Vec<u32>, k: u32)
    requires
        no_duplicates(old(keys)@),
    ensures
        no_duplicates(final(keys)@),
        key_set(final(keys)@) == key_set(old(keys)@).remove(k),
{
    let ghost orig = keys@;
    let n = keys.len();
    let mut out: Vec<u32> = Vec::new();
    let mut i: usize = 0;
    while i < n
        invariant
            n == orig.len(),
            keys@ == orig,
            i <= n,
            no_duplicates(orig),
            out@ =~= orig.subrange(0, i as int).filter(|x: u32| x != k),
        decreases n - i,
    {
        let ghost pre = orig.subrange(0, i as int);
        proof {
            assert(orig.subrange(0, i + 1).drop_last() =~= pre);
            reveal_with_fuel(Seq::filter, 2);
        }
        if keys[i] != k {
            out.push(keys[i]);
        }
        i = i + 1;
    }
    proof {
        assert(orig.subrange(0, n as int) =~= orig);
        lemma_filter_removes_key(orig, k);
    }
    *keys = out;
}

/// The union of the key sets of a sequence of keyboard events.
pub open spec fn union_all(events: Seq<Set<u32>>) -> Set<u32>
    decreases events.len(),
{
    if events.len() == 0 {
        Set::empty()
    } else {
        union_all(events.drop_last()).union(events.last())
    }
}

/// The pressed set after a sequence of key-press events, each adding its
/// keys with set semantics.
pub open spec fn after_press_events(pressed: Set<u32>, events: Seq<Set<u32>>) -> Set<u32>
    decreases events.len(),
{
    if events.len() == 0 {
        pressed
    } else {
        after_press_events(pressed, events.drop_last()).union(events.last())
    }
}

/// The pressed set after a sequence of key-release events, each removing its
/// keys with set semantics.
pub open spec fn after_release_events(pressed: Set<u32>, events: Seq<Set<u32>>) -> Set<u32>
    decreases events.len(),
{
    if events.len() == 0 {
        pressed
    } else {
        after_release_events(pressed, events.drop_last()).difference(events.last())
    }
}

/// A run of press events adds exactly the union of their key sets.
pub proof fn lemma_press_events_union(pressed: Set<u32>, events: Seq<Set<u32>>)
    ensures
        after_press_events(pressed, events) == pressed.union(union_all(events)),
    decreases events.len(),
{
    if events.len() == 0 {
        assert(after_press_events(pressed, events) =~= pressed.union(union_all(events)));
    } else {
        lemma_press_events_union(pressed, events.drop_last());
        assert(after_press_events(pressed, events) =~= pressed.union(union_all(events)));
    }
}

/// A run of release events removes exactly the union of their key sets.
pub proof fn lemma_release_events_difference(pressed: Set<u32>, events: Seq<Set<u32>>)
    ensures
        after_release_events(pressed, events) == pressed.difference(union_all(events)),
    decreases events.len(),
{
    if events.len() == 0 {
        assert(after_release_events(pressed, events) =~= pressed.difference(union_all(events)));
    } else {
        lemma_release_events_difference(pressed, events.drop_last());
        assert(after_release_events(pressed, events) =~= pressed.difference(union_all(events)));
    }
}

/// Any sequence of key-press events followed by release events covering the
/// same keys leaves the pressed-key set empty, regardless of duplicate
/// presses of the same key. Each event's transition is exactly the one
/// [`crate::state::KobelShellState::update`] performs for a press or
/// release message.
pub proof fn lemma_press_release_round_trip(presses: Seq<Set<u32>>, releases: Seq<Set<u32>>)
    requires
        union_all(releases) == union_all(presses),
    ensures
        after_release_events(
            after_press_events(Set::empty(), presses),
            releases,
        ) == Set::<u32>::empty(),
{
    lemma_press_events_union(Set::empty(), presses);
    lemma_release_events_difference(Set::empty().union(union_all(presses)), releases);
    assert(Set::empty().union(union_all(presses)).difference(union_all(releases))
        =~= Set::<u32>::empty());
}

/// Filtering a key out of a sequence keeps every other key, keeps the
/// sequence duplicate-free, and removes the key from its key set.
proof fn lemma_filter_removes_key(s: Seq<u32>, k: u32)
    ensures
        no_duplicates(s) ==> no_duplicates(s.filter(|x: u32| x != k)),
        key_set(s.filter(|x: u32| x != k)) == key_set(s).remove(k),
    decreases s.len(),
{
    reveal_with_fuel(Seq::filter, 2);
    let f = |x: u32| x != k;
    if s.len() == 0 {
        assert(key_set(s.filter(f)) =~= key_set(s).remove(k));
    } else {
        let rest = s.drop_last();
        lemma_filter_removes_key(rest, k);
        assert(s.filter(f) == if f(s.last()) {
            rest.filter(f).push(s.last())
        } else {
            rest.filter(f)
        });
        if no_duplicates(s) {
            assert(no_duplicates(rest));
            if f(s.last()) {
                let out = rest.filter(f).push(s.last());
                assert forall|i: int, j: int| 0 <= i < j < out.len() implies out[i] != out[j] by {
                    if j == out.len() - 1 {
                        assert(rest.filter(f)[i] == out[i]);
                        assert(rest.filter(f).contains(out[i]));
                        lemma_key_set_contains(rest.filter(f), out[i]);
                        lemma_key_set_contains(rest, out[i]);
                        assert(rest.contains(out[i]));
                        let m = choose|m: int|
                            0 <= m < rest.len() && rest[m] == out[i];
                        assert(s[m] == out[i]);
                        assert(s.last() == s[s.len() - 1]);
                    }
                }
            }
        }
        if f(s.last()) {
            let out = rest.filter(f).push(s.last());
            assert(out.drop_last() =~= rest.filter(f));
            assert(key_set(out) == key_set(rest.filter(f)).insert(s.last()));
            assert(key_set(s.filter(f)) =~= key_set(s).remove(k));
        } else {
            assert(key_set(s.filter(f)) =~= key_set(s).remove(k));
        }
    }
}

} // verus!
