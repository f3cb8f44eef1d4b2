//! Global hotkeys: parsing key bindings and mapping activated shortcuts
//! to actions.

use vstd::prelude::*;
use crate::config::HotkeyConfig;
use crate::text::{chars_of, count_char, lemma_count_char_zero, lemma_split_on_append, lemma_split_on_no_sep, lemma_split_on_nonempty, lemma_split_on_pieces, lemma_trimmed_within, split_on, string_of, trim_range, trimmed};

verus! {

/// Identifier of the start/stop shortcut registered with the portal.
pub const SHORTCUT_TOGGLE: &'static str = "toggle-recording";

/// Identifier of the cancel shortcut registered with the portal.
pub const SHORTCUT_CANCEL: &'static str = "cancel-recording";

/// What a hotkey does.
#[derive(Debug, Clone, Copy, PartialEq, Eq)]
pub enum HotkeyAction {
    ToggleRecording,
    CancelRecording,
}

/// A parsed key binding: modifiers in order, then the key.
#[derive(Debug, Clone, PartialEq, Eq)]
pub struct KeyBinding {
    pub modifiers: Vec<String>,
    pub key: String,
}

/// The trimmed pieces of a binding between `+` signs.
pub open spec fn binding_parts(s: Seq<char>) -> Seq<Seq<char>> {
    split_on(s, '+').map_values(|p: Seq<char>| trimmed(p))
}

/// The texts of a list of strings.
pub open spec fn texts(v: Seq<String>) -> Seq<Seq<char>> {
    v.map_values(|m: String| m@)
}

/// The modifiers and the key of a binding text.
pub open spec fn parsed_binding(s: Seq<char>) -> (Seq<Seq<char>>, Seq<char>) {
    if binding_parts(s).len() <= 1 {
        (Seq::empty(), trimmed(s))
    } else {
        (binding_parts(s).drop_last(), binding_parts(s).last())
    }
}

/// Parses a binding like `"Super+Shift+R"`: the pieces between `+` signs are
/// trimmed; all but the last are the modifiers, the last is the key. Without
/// a `+` there are no modifiers and the key is the whole text trimmed.
pub fn parse_keybinding(s: &str) -> (kb: KeyBinding)
    ensures
        binding_parts(s@).len() <= 1 ==> texts(kb.modifiers@).len() == 0 && kb.key@ == trimmed(
            s@,
        ),
        binding_parts(s@).len() > 1 ==> texts(kb.modifiers@) == binding_parts(s@).drop_last()
            && kb.key@ == binding_parts(s@).last(),
        (texts(kb.modifiers@), kb.key@) == parsed_binding(s@),
{
    let v = chars_of(s);
    let n = v.len();
    let mut parts: Vec<String> = Vec::new();
    let mut start: usize = 0;
    let mut i: usize = 0;
    proof {
        assert(v@.take(0) =~= Seq::<char>::empty());
        lemma_split_on_nonempty(v@.take(0), '+');
    }
    while i < n
        invariant
            n == v@.len(),
            v@ == s@,
            start <= i <= n,
            split_on(v@.take(i as int), '+').len() >= 1,
            texts(parts@) == split_on(v@.take(i as int), '+').drop_last().map_values(
                |p: Seq<char>| trimmed(p),
            ),
            v@.subrange(start as int, i as int) == split_on(v@.take(i as int), '+').last(),
        decreases n - i,
    {
        let ghost before = split_on(v@.take(i as int), '+');
        assert(v@.take(i + 1).drop_last() =~= v@.take(i as int));
        assert(v@.take(i + 1).last() == v@[i as int]);
        if v[i] == '+' {
            let (a, b) = trim_range(&v, start, i);
            let piece = string_of(&v, a, b);
            let ghost old_parts = parts@;
            parts.push(piece);
            assert(texts(parts@) =~= texts(old_parts).push(piece@));
            assert(piece@ == trimmed(before.last()));
            assert(before.map_values(|p: Seq<char>| trimmed(p)) =~= before.drop_last().map_values(
                |p: Seq<char>| trimmed(p),
            ).push(trimmed(before.last())));
            start = i + 1;
            i = i + 1;
            proof {
                let after = split_on(v@.take(i as int), '+');
                assert(after == before.push(Seq::<char>::empty()));
                assert(after.drop_last() =~= before);
                assert(texts(parts@) =~= after.drop_last().map_values(|p: Seq<char>| trimmed(p)));
                assert(v@.subrange(start as int, i as int) =~= Seq::<char>::empty());
            }
        } else {
            i = i + 1;
            proof {
                let after = split_on(v@.take(i as int), '+');
                assert(after == before.update(before.len() - 1, before.last().push(v@[i - 1])));
                assert(after.drop_last() =~= before.drop_last());
                assert(v@.subrange(start as int, i as int) =~= v@.subrange(
                    start as int,
                    i - 1,
                ).push(v@[i - 1]));
            }
        }
    }
    assert(v@.take(n as int) =~= v@);
    let ghost all = split_on(v@, '+');
    assert(binding_parts(s@) =~= all.map_values(|p: Seq<char>| trimmed(p)));
    if parts.len() == 0 {
        let (a, b) = trim_range(&v, 0, n);
        assert(v@.subrange(0, n as int) =~= v@);
        KeyBinding { modifiers: Vec::new(), key: string_of(&v, a, b) }
    } else {
        let (a, b) = trim_range(&v, start, n);
        let key = string_of(&v, a, b);
        assert(texts(parts@) =~= binding_parts(s@).drop_last());
        KeyBinding { modifiers: parts, key }
    }
}

/// The action of an activated shortcut, by its identifier.
pub open spec fn action_for(id: Seq<char>) -> Option<HotkeyAction> {
    if id == SHORTCUT_TOGGLE@ {
        Some(HotkeyAction::ToggleRecording)
    } else if id == SHORTCUT_CANCEL@ {
        Some(HotkeyAction::CancelRecording)
    } else {
        None
    }
}

/// Whether two strings hold the same characters.
fn str_eq(a: &str, b: &str) -> (e: bool)
    ensures
        e == (a@ == b@),
{
    let n = a.unicode_len();
    if n != b.unicode_len() {
        return false;
    }
    let mut i: usize = 0;
    while i < n
        invariant
            n == a@.len() == b@.len(),
            i <= n,
            forall|j: int| 0 <= j < i ==> a@[j] == b@[j],
        decreases n - i,
    {
        if a.get_char(i) != b.get_char(i) {
            return false;
        }
        i = i + 1;
    }
    assert(a@ =~= b@);
    true
}

/// Maps the identifier of an activated shortcut to its action; an unknown
/// identifier maps to nothing.
pub fn action_for_shortcut(id: &str) -> (a: Option<HotkeyAction>)
    ensures
        a == action_for(id@),
{
    if str_eq(id, SHORTCUT_TOGGLE) {
        Some(HotkeyAction::ToggleRecording)
    } else if str_eq(id, SHORTCUT_CANCEL) {
        Some(HotkeyAction::CancelRecording)
    } else {
        None
    }
}

/// Description of the start/stop shortcut, shown by the portal.
pub const TOGGLE_DESCRIPTION: &'static str = "Начать/остановить запись";

/// Description of the cancel shortcut, shown by the portal.
pub const CANCEL_DESCRIPTION: &'static str = "Отменить запись";

/// A shortcut to register with the desktop portal: its identifier, its
/// description and the trigger asked for.
#[derive(Debug, Clone, PartialEq, Eq)]
pub struct ShortcutSpec {
    pub id: String,
    pub description: String,
    pub preferred_trigger: String,
}

/// The shortcuts this application registers.
pub struct HotkeyService {
    pub shortcuts: Vec<ShortcutSpec>,
}

impl HotkeyService {
    /// The start/stop shortcut and the cancel shortcut, in that order, with
    /// the triggers of the configuration.
    pub fn new(config: &HotkeyConfig) -> (s: Self)
        ensures
            s.shortcuts@.len() == 2,
            s.shortcuts@[0].id@ == SHORTCUT_TOGGLE@,
            s.shortcuts@[0].description@ == TOGGLE_DESCRIPTION@,
            s.shortcuts@[0].preferred_trigger@ == config.toggle_recording@,
            s.shortcuts@[1].id@ == SHORTCUT_CANCEL@,
            s.shortcuts@[1].description@ == CANCEL_DESCRIPTION@,
            s.shortcuts@[1].preferred_trigger@ == config.cancel_recording@,
    {
        let mut shortcuts: Vec<ShortcutSpec> = Vec::new();
        shortcuts.push(
            ShortcutSpec {
                id: String::from_str(SHORTCUT_TOGGLE),
                description: String::from_str(TOGGLE_DESCRIPTION),
                preferred_trigger: config.toggle_recording.clone(),
            },
        );
        shortcuts.push(
            ShortcutSpec {
                id: String::from_str(SHORTCUT_CANCEL),
                description: String::from_str(CANCEL_DESCRIPTION),
                preferred_trigger: config.cancel_recording.clone(),
            },
        );
        HotkeyService { shortcuts }
    }
}

/// A binding without `+` is a single key: it splits into one piece, the
/// whole text trimmed, so it parses with no modifiers.
pub proof fn law_binding_without_plus(s: Seq<char>)
    requires
        !s.contains('+'),
    ensures
        binding_parts(s) == seq![trimmed(s)],
{
    lemma_split_on_no_sep(s, '+');
    assert(binding_parts(s) =~= seq![trimmed(s)]);
}

/// Pieces written one after the other with `+` between them.
pub open spec fn join_plus(parts: Seq<Seq<char>>) -> Seq<char>
    decreases parts.len(),
{
    if parts.len() <= 1 {
        if parts.len() == 0 {
            Seq::empty()
        } else {
            parts[0]
        }
    } else {
        join_plus(parts.drop_last()) + seq!['+'] + parts.last()
    }
}

/// Splitting joined pieces that hold no `+` gives the pieces back.
proof fn lemma_split_join(parts: Seq<Seq<char>>)
    requires
        parts.len() >= 1,
        forall|k: int| 0 <= k < parts.len() ==> !(#[trigger] parts[k]).contains('+'),
    ensures
        split_on(join_plus(parts), '+') == parts,
    decreases parts.len(),
{
    if parts.len() == 1 {
        lemma_split_on_no_sep(parts[0], '+');
        assert(seq![parts[0]] =~= parts);
    } else {
        let init = parts.drop_last();
        assert forall|k: int| 0 <= k < init.len() implies !(#[trigger] init[k]).contains('+') by {
            assert(init[k] == parts[k]);
        }
        lemma_split_join(init);
        assert(!parts[parts.len() - 1].contains('+'));
        lemma_split_on_append(join_plus(init), parts.last(), '+');
        assert(init.push(parts.last()) =~= parts);
    }
}

/// Writing modifiers and a key with `+` between them and parsing the text
/// gives them back, when none of them holds a `+` or surrounding whitespace.
pub proof fn law_keybinding_round_trip(modifiers: Seq<Seq<char>>, key: Seq<char>)
    requires
        forall|k: int| 0 <= k < modifiers.len() ==> !(#[trigger] modifiers[k]).contains('+'),
        forall|k: int| 0 <= k < modifiers.len() ==> trimmed(#[trigger] modifiers[k]) == modifiers[k],
        !key.contains('+'),
        trimmed(key) == key,
    ensures
        parsed_binding(join_plus(modifiers.push(key))) == (modifiers, key),
{
    let parts = modifiers.push(key);
    assert forall|k: int| 0 <= k < parts.len() implies !(#[trigger] parts[k]).contains('+') by {
        if k < modifiers.len() {
            assert(parts[k] == modifiers[k]);
        }
    }
    lemma_split_join(parts);
    let s = join_plus(parts);
    assert(binding_parts(s) =~= parts) by {
        assert forall|k: int| 0 <= k < parts.len() implies #[trigger] binding_parts(s)[k]
            == parts[k] by {
            if k < modifiers.len() {
                assert(parts[k] == modifiers[k]);
            }
        }
    }
    if modifiers.len() == 0 {
        assert(s == key);
        assert(modifiers =~= Seq::<Seq<char>>::empty());
    } else {
        assert(parts.drop_last() =~= modifiers);
    }
}

/// A binding has as many modifiers as it has `+` signs, and neither the
/// key nor a modifier holds a `+`.
pub proof fn law_keybinding_modifier_count(s: Seq<char>)
    ensures
        parsed_binding(s).0.len() == count_char(s, '+'),
        forall|k: int| 0 <= k < parsed_binding(s).0.len() ==> !(
        #[trigger] parsed_binding(s).0[k]).contains('+'),
        !parsed_binding(s).1.contains('+'),
{
    lemma_split_on_pieces(s, '+');
    let pieces = split_on(s, '+');
    assert forall|k: int| 0 <= k < binding_parts(s).len() implies !(
    #[trigger] binding_parts(s)[k]).contains('+') by {
        assert(!pieces[k].contains('+'));
        lemma_trimmed_within(pieces[k], '+');
    }
    if binding_parts(s).len() <= 1 {
        lemma_count_char_zero(s, '+');
        lemma_trimmed_within(s, '+');
    } else {
        let p = parsed_binding(s).0;
        assert forall|k: int| 0 <= k < p.len() implies !(#[trigger] p[k]).contains('+') by {
            assert(p[k] == binding_parts(s)[k]);
        }
        assert(binding_parts(s).last() == binding_parts(s)[binding_parts(s).len() - 1]);
    }
}

} // verus!
