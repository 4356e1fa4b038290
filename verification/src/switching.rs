//! What the switch to a setup does, stated for each button and each key.
//!
//! A switch first unbinds every button from its key and then applies the
//! mappings of the setup in their order. Each mapping registers itself under
//! its key, binds its button to the key, puts the button in the state it
//! names, and queues the commands that show the button. So after the switch
//! a button is bound to the key of the last mapping that names it, is in the
//! state of the last mapping that names it with a state of its own, and a
//! key is under the last mapping that names the key.

use vstd::prelude::*;
use crate::button::Button;
use crate::deck::decoration;
use crate::deck::ButtonMapping;
use crate::device::DeviceEvent;
use crate::ids::ButtonId;
use crate::ids::DeckId;

verus! {

/// The button without its key.
pub open spec fn unbound(b: Button) -> Button {
    Button { physical: None, ..b }
}

/// The last of the first `n` mappings that names the button `id`.
pub open spec fn last_binding(ms: Seq<ButtonMapping>, id: ButtonId, n: int) -> Option<int>
    decreases n,
{
    if n <= 0 {
        None
    } else if ms[n - 1].button == id {
        Some(n - 1)
    } else {
        last_binding(ms, id, n - 1)
    }
}

/// The mapping puts the button `b` in a state: it names `b` and a state
/// that is one of `b`'s.
pub open spec fn forces(m: ButtonMapping, b: Button) -> bool {
    &&& m.button == b.id
    &&& m.state matches Some(s)
    &&& b.owns(s)
}

/// The last of the first `n` mappings that puts the button `b` in a state.
pub open spec fn last_forcing(ms: Seq<ButtonMapping>, b: Button, n: int) -> Option<int>
    decreases n,
{
    if n <= 0 {
        None
    } else if forces(ms[n - 1], b) {
        Some(n - 1)
    } else {
        last_forcing(ms, b, n - 1)
    }
}

/// The button `b` after the first `n` mappings were applied.
pub open spec fn rebound(b: Button, ms: Seq<ButtonMapping>, n: int) -> Button {
    Button {
        physical: match last_binding(ms, b.id, n) {
            Some(i) => Some(ms[i].key),
            None => b.physical,
        },
        current_state: match last_forcing(ms, b, n) {
            Some(i) => b.states[ms[i].state->0.index as int].id,
            None => b.current_state,
        },
        ..b
    }
}

/// The last of the first `n` mappings that names the key `key`.
pub open spec fn last_keying(ms: Seq<ButtonMapping>, key: int, n: int) -> Option<int>
    decreases n,
{
    if n <= 0 {
        None
    } else if ms[n - 1].key.id == key {
        Some(n - 1)
    } else {
        last_keying(ms, key, n - 1)
    }
}

/// What the key `key` is under after the first `n` mappings were applied,
/// where it was under `entry` before.
pub open spec fn rekeyed(
    entry: Option<ButtonMapping>,
    ms: Seq<ButtonMapping>,
    key: int,
    n: int,
) -> Option<ButtonMapping> {
    match last_keying(ms, key, n) {
        Some(i) => Some(ms[i]),
        None => entry,
    }
}

/// A key table of `n` places that holds no mapping.
pub open spec fn no_keys(n: nat) -> Seq<Option<ButtonMapping>> {
    Seq::new(n, |k: int| None::<ButtonMapping>)
}

/// One of the mappings names the key `key`.
pub open spec fn names_key(ms: Seq<ButtonMapping>, key: int) -> bool {
    exists|i: int| 0 <= i < ms.len() && (#[trigger] ms[i]).key.id == key
}

/// The arena after all of `ms` were applied.
pub open spec fn arena_after(arena: Seq<Button>, ms: Seq<ButtonMapping>) -> Seq<Button> {
    Seq::new(arena.len(), |j: int| rebound(arena[j], ms, ms.len() as int))
}

/// The arena with every button unbound.
pub open spec fn all_unbound(arena: Seq<Button>) -> Seq<Button> {
    Seq::new(arena.len(), |j: int| unbound(arena[j]))
}

/// The key table after all of `ms` were applied.
pub open spec fn keys_after(keys: Seq<Option<ButtonMapping>>, ms: Seq<ButtonMapping>) -> Seq<
    Option<ButtonMapping>,
> {
    Seq::new(keys.len(), |k: int| rekeyed(keys[k], ms, k, ms.len() as int))
}

/// The commands that the first `n` mappings queue, applied to `arena`, the
/// arena of the deck `deck`: for each mapping that names a button of the
/// deck, what shows that button as it is once the mapping was applied.
pub open spec fn emitted(arena: Seq<Button>, deck: DeckId, ms: Seq<ButtonMapping>, n: int) -> Seq<
    DeviceEvent,
>
    decreases n,
{
    if n <= 0 {
        Seq::<DeviceEvent>::empty()
    } else {
        let m = ms[n - 1];
        emitted(arena, deck, ms, n - 1) + if m.button.deck == deck && m.button.index < arena.len() {
            decoration(rebound(arena[m.button.index as int], ms, n))
        } else {
            Seq::<DeviceEvent>::empty()
        }
    }
}

/// Which mapping last puts a button in a state depends on the button's id
/// and its states, not on the state it is in or the key it has.
pub proof fn lemma_last_forcing_by_states(ms: Seq<ButtonMapping>, a: Button, b: Button, n: int)
    requires
        a.id == b.id,
        a.states == b.states,
    ensures
        last_forcing(ms, a, n) == last_forcing(ms, b, n),
    decreases n,
{
    if n > 0 {
        lemma_last_forcing_by_states(ms, a, b, n - 1);
    }
}

/// The mapping that counts is one of those applied.
pub proof fn lemma_last_in_range(ms: Seq<ButtonMapping>, b: Button, key: int, n: int)
    requires
        n <= ms.len(),
    ensures
        last_binding(ms, b.id, n) matches Some(i) ==> 0 <= i < n && ms[i].button == b.id,
        last_forcing(ms, b, n) matches Some(i) ==> 0 <= i < n && forces(ms[i], b),
        last_keying(ms, key, n) matches Some(i) ==> 0 <= i < n && ms[i].key.id == key,
    decreases n,
{
    if n > 0 {
        lemma_last_in_range(ms, b, key, n - 1);
    }
}

/// A button that was unbound and had the mappings applied is what it is
/// after that is done once more.
pub proof fn lemma_rebound_twice(b: Button, ms: Seq<ButtonMapping>, n: int)
    ensures
        rebound(unbound(rebound(unbound(b), ms, n)), ms, n) == rebound(unbound(b), ms, n),
{
    let once = rebound(unbound(b), ms, n);
    lemma_last_forcing_by_states(ms, unbound(once), unbound(b), n);
}

/// Switching to a setup and then at once to the same setup again leaves the
/// buttons and the key table as the first switch left them.
pub proof fn lemma_switch_twice(arena: Seq<Button>, n: nat, ms: Seq<ButtonMapping>)
    ensures
        arena_after(all_unbound(arena_after(all_unbound(arena), ms)), ms) == arena_after(
            all_unbound(arena),
            ms,
        ),
        keys_after(no_keys(keys_after(no_keys(n), ms).len()), ms) == keys_after(no_keys(n), ms),
{
    let once = arena_after(all_unbound(arena), ms);
    let twice = arena_after(all_unbound(once), ms);
    assert forall|j: int| 0 <= j < arena.len() implies twice[j] == once[j] by {
        lemma_rebound_twice(arena[j], ms, ms.len() as int);
    }
    assert(twice =~= once);
    assert(no_keys(keys_after(no_keys(n), ms).len()) =~= no_keys(n));
}

/// A key is named by one of the first `n` mappings exactly if one of them
/// is the last to name it.
pub proof fn lemma_last_keying_exists(ms: Seq<ButtonMapping>, key: int, n: int)
    requires
        n <= ms.len(),
    ensures
        last_keying(ms, key, n) is Some <==> exists|i: int|
            0 <= i < n && (#[trigger] ms[i]).key.id == key,
    decreases n,
{
    if n > 0 {
        lemma_last_keying_exists(ms, key, n - 1);
    }
}

/// On a key table that held no mapping, the keys under a mapping after the
/// mappings were applied are exactly the keys that the mappings name.
pub proof fn lemma_fresh_table_holds_the_setup(n: nat, ms: Seq<ButtonMapping>, key: int)
    requires
        0 <= key < n,
    ensures
        keys_after(no_keys(n), ms)[key] is Some <==> names_key(ms, key),
{
    lemma_last_keying_exists(ms, key, ms.len() as int);
}

} // verus!
