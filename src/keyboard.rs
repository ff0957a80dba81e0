//! Turning the terminal's key reports into key presses and releases.
//!
//! A terminal reports a key together with the modifiers held at that moment,
//! and mostly reports presses only. The state kept here tells which modifier
//! keys changed and releases the previously pressed key before the next one.
use vstd::prelude::*;

verus! {

/// Modifier bit of the shift keys.
pub const MOD_SHIFT: u8 = 0b0000_0001;
/// Modifier bit of the control keys.
pub const MOD_CONTROL: u8 = 0b0000_0010;
/// Modifier bit of the alt keys.
pub const MOD_ALT: u8 = 0b0000_0100;
/// Modifier bit of the meta keys.
pub const MOD_META: u8 = 0b0010_0000;

/// A modifier whose left and right keys can be reported.
#[derive(Clone, Copy, Debug, PartialEq, Eq, Structural)]
pub enum Modifier {
    Shift,
    Control,
    Alt,
    Meta,
}

/// What the terminal says happened to a key.
#[derive(Clone, Copy, Debug, PartialEq, Eq, Structural)]
pub enum KeyKind {
    Press,
    Release,
    Repeat,
}

/// One change of a key's state, to hand on to clients.
#[derive(Clone, Copy, Debug, PartialEq, Eq, Structural)]
pub enum KeyAction {
    /// Both keys of a modifier went down or up: the terminal does not say which.
    Modifier { modifier: Modifier, pressed: bool },
    /// The key with this keycode went down or up.
    Key { code: u32, pressed: bool },
}

/// The action for modifier `m`, of bit `bit`, going from `old` to `new`
/// modifier bits, if it changed.
pub open spec fn modifier_change(old: u8, new: u8, bit: u8, m: Modifier) -> Seq<KeyAction> {
    if (old ^ new) & bit != 0 {
        seq![KeyAction::Modifier { modifier: m, pressed: new & bit != 0 }]
    } else {
        seq![]
    }
}

/// The modifier actions from `old` to `new` modifier bits, shift, control,
/// alt and meta in that order; other bits are not reported.
pub open spec fn modifier_changes(old: u8, new: u8) -> Seq<KeyAction> {
    modifier_change(old, new, MOD_SHIFT, Modifier::Shift) + modifier_change(
        old,
        new,
        MOD_CONTROL,
        Modifier::Control,
    ) + modifier_change(old, new, MOD_ALT, Modifier::Alt) + modifier_change(
        old,
        new,
        MOD_META,
        Modifier::Meta,
    )
}

/// The actions of one report, after the modifiers: the release of the key
/// held before, then the reported key where it has a keycode. Repeats add
/// nothing.
pub open spec fn key_changes(held: Option<u32>, kind: KeyKind, code: Option<u32>) -> Seq<KeyAction> {
    let release_held = match held {
        Some(h) => seq![KeyAction::Key { code: h, pressed: false }],
        None => seq![],
    };
    let this_key = match (kind, code) {
        (KeyKind::Press, Some(c)) => seq![KeyAction::Key { code: c, pressed: true }],
        (KeyKind::Release, Some(c)) => seq![KeyAction::Key { code: c, pressed: false }],
        _ => seq![],
    };
    release_held + this_key
}

/// The modifiers and the key that the terminal last reported as held.
#[derive(Debug)]
pub struct KeyboardState {
    pub modifiers: u8,
    pub held: Option<u32>,
}

impl KeyboardState {
    /// Nothing held.
    pub fn new() -> (r: KeyboardState)
        ensures
            r.modifiers == 0,
            r.held is None,
    {
        KeyboardState { modifiers: 0, held: None }
    }

    fn push_modifier(out: &mut Vec<KeyAction>, before: u8, after: u8, bit: u8, m: Modifier)
        ensures
            final(out)@ == old(out)@ + modifier_change(before, after, bit, m),
    {
        if (before ^ after) & bit != 0 {
            out.push(KeyAction::Modifier { modifier: m, pressed: after & bit != 0 });
        } else {
            assert(out@ =~= out@ + Seq::<KeyAction>::empty());
        }
    }

    /// Takes one key report: the modifiers held with it, what happened, and
    /// the key's keycode where it has one. Returns the changes to hand on:
    /// the modifiers that changed, the release of the key held before, and
    /// the reported key. A pressed key is held until the next report.
    pub fn update(&mut self, modifiers: u8, kind: KeyKind, code: Option<u32>) -> (r: Vec<KeyAction>)
        ensures
            r@ == modifier_changes(old(self).modifiers, modifiers) + key_changes(
                old(self).held,
                kind,
                code,
            ),
            final(self).modifiers == modifiers,
            final(self).held == (if kind == KeyKind::Press {
                code
            } else {
                None
            }),
    {
        let old_mods = self.modifiers;
        let mut out: Vec<KeyAction> = Vec::new();
        Self::push_modifier(&mut out, old_mods, modifiers, MOD_SHIFT, Modifier::Shift);
        Self::push_modifier(&mut out, old_mods, modifiers, MOD_CONTROL, Modifier::Control);
        Self::push_modifier(&mut out, old_mods, modifiers, MOD_ALT, Modifier::Alt);
        Self::push_modifier(&mut out, old_mods, modifiers, MOD_META, Modifier::Meta);
        let ghost mods = out@;
        assert(mods =~= modifier_changes(old_mods, modifiers));
        if let Some(h) = self.held {
            out.push(KeyAction::Key { code: h, pressed: false });
        }
        let ghost with_held = out@;
        match (kind, code) {
            (KeyKind::Press, Some(c)) => out.push(KeyAction::Key { code: c, pressed: true }),
            (KeyKind::Release, Some(c)) => out.push(KeyAction::Key { code: c, pressed: false }),
            _ => {},
        }
        assert(out@ =~= mods + key_changes(self.held, kind, code));
        self.modifiers = modifiers;
        self.held = if kind == KeyKind::Press {
            code
        } else {
            None
        };
        out
    }
}

} // verus!
