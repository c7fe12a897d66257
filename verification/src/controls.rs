//! The keyboard controls of the game: what a typed character does, and what
//! the keys held down during a frame do.

use vstd::prelude::*;

verus! {

/// What a typed character asks the game to do.
#[derive(Clone, Copy, Debug, PartialEq, Eq, Structural)]
pub enum KeyAction {
    /// Leave the game (Escape).
    Quit,
    /// Switch between running and planning (Enter).
    TogglePlanning,
    /// Build the given scene anew.
    LoadScene(i16),
    /// The character is not a control.
    Nothing,
}

/// The action of character `c` while scene `scene` is shown.
pub open spec fn spec_key_action(c: char, scene: i16) -> KeyAction {
    if c == '\u{1b}' {
        KeyAction::Quit
    } else if c == '\r' {
        KeyAction::TogglePlanning
    } else if c == 'r' {
        KeyAction::LoadScene(scene)
    } else if c == '0' {
        KeyAction::LoadScene(0)
    } else if c == '1' {
        KeyAction::LoadScene(1)
    } else if c == '2' {
        KeyAction::LoadScene(2)
    } else if c == '3' {
        KeyAction::LoadScene(3)
    } else if c == '4' {
        KeyAction::LoadScene(4)
    } else if c == '5' {
        KeyAction::LoadScene(5)
    } else {
        KeyAction::Nothing
    }
}

/// The action of typed character `c` while scene `scene` is shown: Escape
/// quits, Enter toggles planning, `r` restarts the current scene, the digits
/// `0` to `5` load that scene, and every other character does nothing.
pub fn key_action(c: char, scene: i16) -> (action: KeyAction)
    ensures
        action == spec_key_action(c, scene),
{
    match c {
        '\u{1b}' => KeyAction::Quit,
        '\r' => KeyAction::TogglePlanning,
        'r' => KeyAction::LoadScene(scene),
        '0' => KeyAction::LoadScene(0),
        '1' => KeyAction::LoadScene(1),
        '2' => KeyAction::LoadScene(2),
        '3' => KeyAction::LoadScene(3),
        '4' => KeyAction::LoadScene(4),
        '5' => KeyAction::LoadScene(5),
        _ => KeyAction::Nothing,
    }
}

/// The direction of an adjustment.
#[derive(Clone, Copy, Debug, PartialEq, Eq, Structural)]
pub enum Sign {
    /// Later, longer or nearer.
    Plus,
    /// Earlier, shorter or farther.
    Minus,
}

/// An adjustment asked for by a key held down during a frame.
#[derive(Clone, Copy, Debug, PartialEq, Eq, Structural)]
pub enum HeldKeyAction {
    /// Move the planned start of the burn.
    MoveBurnStart(Sign),
    /// Stretch or shrink the planned length of the burn.
    StretchBurnTime(Sign),
    /// Zoom the view in or out.
    Zoom(Sign),
}

/// The keys that the game reads while they are held down.
#[derive(Clone, Copy, Debug, PartialEq, Eq, Structural)]
pub struct HeldKeys {
    pub space: bool,
    pub backspace: bool,
    pub right: bool,
    pub left: bool,
    pub up: bool,
    pub down: bool,
    pub u: bool,
    pub j: bool,
}

/// `action` alone if `held`, else nothing.
pub open spec fn when_held(held: bool, action: HeldKeyAction) -> Seq<HeldKeyAction> {
    if held {
        seq![action]
    } else {
        Seq::empty()
    }
}

/// The adjustments of the held keys, in the order in which they are applied.
pub open spec fn spec_held_key_actions(keys: HeldKeys) -> Seq<HeldKeyAction> {
    when_held(keys.right, HeldKeyAction::MoveBurnStart(Sign::Plus))
        + when_held(keys.left, HeldKeyAction::MoveBurnStart(Sign::Minus))
        + when_held(keys.up, HeldKeyAction::StretchBurnTime(Sign::Plus))
        + when_held(keys.down, HeldKeyAction::StretchBurnTime(Sign::Minus))
        + when_held(keys.u, HeldKeyAction::Zoom(Sign::Plus))
        + when_held(keys.j, HeldKeyAction::Zoom(Sign::Minus))
}

/// Appends `action` to `actions` if `held`.
fn push_when_held(actions: &mut Vec<HeldKeyAction>, held: bool, action: HeldKeyAction)
    ensures
        final(actions)@ == old(actions)@ + when_held(held, action),
{
    if held {
        actions.push(action);
    }
    proof {
        if !held {
            assert(old(actions)@ + when_held(held, action) =~= old(actions)@);
        }
    }
}

/// The adjustments asked for by the held keys: right and left move the start
/// of the burn later and earlier, up and down make the burn longer and
/// shorter, `u` and `j` zoom in and out; space and backspace do nothing.
pub fn held_key_actions(keys: HeldKeys) -> (actions: Vec<HeldKeyAction>)
    ensures
        actions@ == spec_held_key_actions(keys),
{
    let mut actions: Vec<HeldKeyAction> = Vec::new();
    push_when_held(&mut actions, keys.right, HeldKeyAction::MoveBurnStart(Sign::Plus));
    push_when_held(&mut actions, keys.left, HeldKeyAction::MoveBurnStart(Sign::Minus));
    push_when_held(&mut actions, keys.up, HeldKeyAction::StretchBurnTime(Sign::Plus));
    push_when_held(&mut actions, keys.down, HeldKeyAction::StretchBurnTime(Sign::Minus));
    push_when_held(&mut actions, keys.u, HeldKeyAction::Zoom(Sign::Plus));
    push_when_held(&mut actions, keys.j, HeldKeyAction::Zoom(Sign::Minus));
    proof {
        assert(Seq::<HeldKeyAction>::empty() + when_held(
            keys.right,
            HeldKeyAction::MoveBurnStart(Sign::Plus),
        ) =~= when_held(keys.right, HeldKeyAction::MoveBurnStart(Sign::Plus)));
    }
    actions
}


/// Whether `c` is one of the digits `0` to `5` that load a scene.
pub open spec fn is_scene_digit(c: char) -> bool {
    '0' <= c <= '5'
}

/// Escape and only Escape quits, Enter and only Enter toggles planning, and
/// the action of a character does not depend on the scene shown, except for
/// `r`.
pub proof fn lemma_key_action_quit_toggle(c: char, scene: i16, other_scene: i16)
    ensures
        (spec_key_action(c, scene) == KeyAction::Quit) <==> c == '\u{1b}',
        (spec_key_action(c, scene) == KeyAction::TogglePlanning) <==> c == '\r',
        c != 'r' ==> spec_key_action(c, scene) == spec_key_action(c, other_scene),
{
}

/// `r` restarts whatever scene is shown, for every scene number.
pub proof fn lemma_key_r_restarts_current_scene(scene: i16)
    ensures
        spec_key_action('r', scene) == KeyAction::LoadScene(scene),
{
}

/// A digit from `0` to `5` loads the scene of that number, whatever scene is
/// shown; a character loads a scene only if it is `r` or such a digit; every
/// other character does nothing.
pub proof fn lemma_key_digits_load_their_scene(c: char, scene: i16)
    ensures
        is_scene_digit(c) ==> spec_key_action(c, scene) == KeyAction::LoadScene(
            (c as int - '0' as int) as i16,
        ),
        spec_key_action(c, scene) is LoadScene ==> (c == 'r' || is_scene_digit(c)),
        spec_key_action(c, scene) is LoadScene ==> 0 <= spec_key_action(c, scene)->0 <= 5
            || c == 'r',
        (spec_key_action(c, scene) == KeyAction::Nothing) <==> !(c == '\u{1b}' || c == '\r'
            || c == 'r' || is_scene_digit(c)),
{
    if is_scene_digit(c) {
        assert(c == '0' || c == '1' || c == '2' || c == '3' || c == '4' || c == '5');
    }
}

/// Whether `actions` holds `action`.
pub open spec fn holds(actions: Seq<HeldKeyAction>, action: HeldKeyAction) -> bool {
    actions.contains(action)
}

/// The number of the six adjusting keys that are held.
pub open spec fn held_count(keys: HeldKeys) -> nat {
    (if keys.right { 1nat } else { 0nat }) + (if keys.left { 1nat } else { 0nat }) + (if keys.up {
        1nat
    } else {
        0nat
    }) + (if keys.down { 1nat } else { 0nat }) + (if keys.u { 1nat } else { 0nat }) + (if keys.j {
        1nat
    } else {
        0nat
    })
}

/// The place of an adjustment in the order in which they are applied.
pub open spec fn action_rank(action: HeldKeyAction) -> int {
    match action {
        HeldKeyAction::MoveBurnStart(Sign::Plus) => 0,
        HeldKeyAction::MoveBurnStart(Sign::Minus) => 1,
        HeldKeyAction::StretchBurnTime(Sign::Plus) => 2,
        HeldKeyAction::StretchBurnTime(Sign::Minus) => 3,
        HeldKeyAction::Zoom(Sign::Plus) => 4,
        HeldKeyAction::Zoom(Sign::Minus) => 5,
    }
}

/// The adjustments of `actions` come in strictly increasing order of rank.
pub open spec fn ranks_increasing(actions: Seq<HeldKeyAction>) -> bool {
    forall|a: int, b: int|
        0 <= a < b < actions.len() ==> action_rank(#[trigger] actions[a]) < action_rank(
            #[trigger] actions[b],
        )
}

/// Appending the adjustment of one more key, of a higher rank than all before.
proof fn lemma_append_held(p: Seq<HeldKeyAction>, held: bool, action: HeldKeyAction)
    requires
        ranks_increasing(p),
        forall|k: int| 0 <= k < p.len() ==> action_rank(#[trigger] p[k]) < action_rank(action),
    ensures
        ({
            let s = p + when_held(held, action);
            &&& forall|x: HeldKeyAction|
                #![trigger s.contains(x)]
                s.contains(x) <==> (p.contains(x) || (held && x == action))
            &&& s.len() == p.len() + (if held { 1nat } else { 0nat })
            &&& ranks_increasing(s)
            &&& forall|k: int| 0 <= k < s.len() ==> action_rank(#[trigger] s[k]) <= action_rank(action)
        }),
{
    let s = p + when_held(held, action);
    if held {
        assert(s == p.push(action));
        assert(s[p.len() as int] == action);
        assert forall|x: HeldKeyAction| s.contains(x) implies (p.contains(x) || x == action) by {
            let k = choose|k: int| 0 <= k < s.len() && s[k] == x;
            if k < p.len() {
                assert(p[k] == x);
            }
        }
        assert forall|x: HeldKeyAction| p.contains(x) implies s.contains(x) by {
            let k = choose|k: int| 0 <= k < p.len() && p[k] == x;
            assert(s[k] == x);
        }
        assert forall|a: int, b: int| 0 <= a < b < s.len() implies action_rank(
            #[trigger] s[a],
        ) < action_rank(#[trigger] s[b]) by {
            assert(s[a] == p[a]);
            if b < p.len() {
                assert(s[b] == p[b]);
            }
        }
        assert forall|k: int| 0 <= k < s.len() implies action_rank(#[trigger] s[k])
            <= action_rank(action) by {
            if k < p.len() {
                assert(s[k] == p[k]);
            }
        }
    } else {
        assert(s == p);
    }
}

/// Each adjustment is asked for exactly when its key is held: right moves the
/// burn start later, left earlier, up makes the burn longer, down shorter, `u`
/// zooms in and `j` out. There is one adjustment per held key, no two alike
/// (they come in a strictly increasing fixed order), and space and backspace
/// change nothing.
pub proof fn lemma_held_keys_map_to_actions(keys: HeldKeys)
    ensures
        holds(spec_held_key_actions(keys), HeldKeyAction::MoveBurnStart(Sign::Plus))
            <==> keys.right,
        holds(spec_held_key_actions(keys), HeldKeyAction::MoveBurnStart(Sign::Minus))
            <==> keys.left,
        holds(spec_held_key_actions(keys), HeldKeyAction::StretchBurnTime(Sign::Plus))
            <==> keys.up,
        holds(spec_held_key_actions(keys), HeldKeyAction::StretchBurnTime(Sign::Minus))
            <==> keys.down,
        holds(spec_held_key_actions(keys), HeldKeyAction::Zoom(Sign::Plus)) <==> keys.u,
        holds(spec_held_key_actions(keys), HeldKeyAction::Zoom(Sign::Minus)) <==> keys.j,
        spec_held_key_actions(keys).len() == held_count(keys),
        ranks_increasing(spec_held_key_actions(keys)),
        forall|space: bool, backspace: bool|
            spec_held_key_actions(HeldKeys { space, backspace, ..keys })
                == spec_held_key_actions(keys),
{
    let e = Seq::<HeldKeyAction>::empty();
    let a1 = HeldKeyAction::MoveBurnStart(Sign::Plus);
    let a2 = HeldKeyAction::MoveBurnStart(Sign::Minus);
    let a3 = HeldKeyAction::StretchBurnTime(Sign::Plus);
    let a4 = HeldKeyAction::StretchBurnTime(Sign::Minus);
    let a5 = HeldKeyAction::Zoom(Sign::Plus);
    let a6 = HeldKeyAction::Zoom(Sign::Minus);
    let s1 = e + when_held(keys.right, a1);
    let s2 = s1 + when_held(keys.left, a2);
    let s3 = s2 + when_held(keys.up, a3);
    let s4 = s3 + when_held(keys.down, a4);
    let s5 = s4 + when_held(keys.u, a5);
    let s6 = s5 + when_held(keys.j, a6);
    assert(s1 =~= when_held(keys.right, a1));
    assert(s6 == spec_held_key_actions(keys));
    assert(!e.contains(a1) && !e.contains(a2) && !e.contains(a3));
    assert(!e.contains(a4) && !e.contains(a5) && !e.contains(a6));
    lemma_append_held(e, keys.right, a1);
    lemma_append_held(s1, keys.left, a2);
    lemma_append_held(s2, keys.up, a3);
    lemma_append_held(s3, keys.down, a4);
    lemma_append_held(s4, keys.u, a5);
    lemma_append_held(s5, keys.j, a6);
}

} // verus!
