//! Parsing of keyboard-shortcut strings such as `Ctrl+Space` or `Cmd+K`.
//!
//! A shortcut is split at `+`; each part is trimmed and read
//! case-insensitively either as a modifier or as the key, where the last
//! non-modifier part wins. The caller maps the parsed modifiers and key onto
//! whatever hotkey facility registers them.

use vstd::prelude::*;

verus! {

use vstd::string::{StrSliceExecFns, StringExecFns};
use crate::strings::{find_first, lemma_find_char_bounds, spec_find_char, trim_of, trim_str};

/// The modifier keys of a shortcut.
#[derive(Debug, Clone, Copy, PartialEq, Eq, Structural)]
pub struct ShortcutMods {
    pub control: bool,
    pub alt: bool,
    pub shift: bool,
    pub meta: bool,
}

/// The keys a shortcut can end in.
#[derive(Debug, Clone, Copy, PartialEq, Eq, Structural)]
pub enum KeyCode {
    Space,
    Enter,
    Escape,
    Tab,
    Backspace,
    Delete,
    Home,
    End,
    PageUp,
    PageDown,
    ArrowUp,
    ArrowDown,
    ArrowLeft,
    ArrowRight,
    F1,
    F2,
    F3,
    F4,
    F5,
    F6,
    F7,
    F8,
    F9,
    F10,
    F11,
    F12,
    KeyA,
    KeyB,
    KeyC,
    KeyD,
    KeyE,
    KeyF,
    KeyG,
    KeyH,
    KeyI,
    KeyJ,
    KeyK,
    KeyL,
    KeyM,
    KeyN,
    KeyO,
    KeyP,
    KeyQ,
    KeyR,
    KeyS,
    KeyT,
    KeyU,
    KeyV,
    KeyW,
    KeyX,
    KeyY,
    KeyZ,
    Digit0,
    Digit1,
    Digit2,
    Digit3,
    Digit4,
    Digit5,
    Digit6,
    Digit7,
    Digit8,
    Digit9,
}

pub open spec fn empty_mods() -> ShortcutMods {
    ShortcutMods { control: false, alt: false, shift: false, meta: false }
}

pub open spec fn mods_is_empty(m: ShortcutMods) -> bool {
    !m.control && !m.alt && !m.shift && !m.meta
}

/// `None` for the empty modifier set, the set itself otherwise.
pub open spec fn spec_mods_opt(m: ShortcutMods) -> Option<ShortcutMods> {
    if mods_is_empty(m) {
        Option::None
    } else {
        Option::Some(m)
    }
}

/// The successful parse for modifier set `m` and key `code`.
pub open spec fn expected_parse(m: ShortcutMods, code: KeyCode) -> Result<
    (Option<ShortcutMods>, KeyCode),
    String,
> {
    Result::Ok((spec_mods_opt(m), code))
}

/// ASCII uppercase of one character.
pub open spec fn ascii_upper_char(c: char) -> char {
    if 'a' <= c && c <= 'z' {
        ((c as u32) - 32) as char
    } else {
        c
    }
}

/// ASCII uppercase of a character sequence.
pub open spec fn spec_upper(s: Seq<char>) -> Seq<char> {
    s.map_values(|c: char| ascii_upper_char(c))
}

fn upper_char(c: char) -> (r: char)
    ensures
        r == ascii_upper_char(c),
{
    if 'a' <= c && c <= 'z' {
        (((c as u8) - 32) as char)
    } else {
        c
    }
}

/// `a` equals `b` after ASCII uppercasing of `a`.
fn str_eq_upper(a: &str, b: &str) -> (r: bool)
    ensures
        r == (spec_upper(a@) == b@),
{
    let a_len = a.unicode_len();
    let b_len = b.unicode_len();
    if a_len != b_len {
        return false;
    }
    let mut i: usize = 0;
    while i < a_len
        invariant
            a_len == a@.len(),
            a_len == b@.len(),
            i <= a_len,
            forall|j: int| 0 <= j < i ==> ascii_upper_char(a@[j]) == b@[j],
        decreases a_len - i,
    {
        if upper_char(a.get_char(i)) != b.get_char(i) {
            proof {
                assert(spec_upper(a@)[i as int] != b@[i as int]);
            }
            return false;
        }
        i += 1;
    }
    proof {
        assert(spec_upper(a@) =~= b@);
    }
    true
}

/// The uppercased part names a modifier.
pub open spec fn is_mod_token(u: Seq<char>) -> bool {
    ||| u == "CTRL"@
    ||| u == "CONTROL"@
    ||| u == "ALT"@
    ||| u == "SHIFT"@
    ||| u == "META"@
    ||| u == "CMD"@
    ||| u == "COMMAND"@
}

/// The modifier set after the uppercased modifier token `u` is applied.
pub open spec fn apply_mod(m: ShortcutMods, u: Seq<char>) -> ShortcutMods {
    if u == "CTRL"@ || u == "CONTROL"@ {
        ShortcutMods { control: true, alt: m.alt, shift: m.shift, meta: m.meta }
    } else if u == "ALT"@ {
        ShortcutMods { control: m.control, alt: true, shift: m.shift, meta: m.meta }
    } else if u == "SHIFT"@ {
        ShortcutMods { control: m.control, alt: m.alt, shift: true, meta: m.meta }
    } else {
        ShortcutMods { control: m.control, alt: m.alt, shift: m.shift, meta: true }
    }
}

/// Reading the trimmed parts in order: modifiers accumulate, the last
/// non-modifier part is the key token.
pub open spec fn fold_parts(parts: Seq<Seq<char>>) -> (ShortcutMods, Seq<char>)
    decreases parts.len(),
{
    if parts.len() == 0 {
        (empty_mods(), Seq::empty())
    } else {
        let prior = fold_parts(parts.drop_last());
        let u = spec_upper(parts.last());
        if is_mod_token(u) {
            (apply_mod(prior.0, u), prior.1)
        } else {
            (prior.0, parts.last())
        }
    }
}

/// The key the uppercased key token names.
pub open spec fn spec_key_of(u: Seq<char>) -> Option<KeyCode> {
    if u == "SPACE"@ {
        Option::Some(KeyCode::Space)
    } else if u == "ENTER"@ || u == "RETURN"@ {
        Option::Some(KeyCode::Enter)
    } else if u == "ESCAPE"@ || u == "ESC"@ {
        Option::Some(KeyCode::Escape)
    } else if u == "TAB"@ {
        Option::Some(KeyCode::Tab)
    } else if u == "BACKSPACE"@ {
        Option::Some(KeyCode::Backspace)
    } else if u == "DELETE"@ || u == "DEL"@ {
        Option::Some(KeyCode::Delete)
    } else if u == "HOME"@ {
        Option::Some(KeyCode::Home)
    } else if u == "END"@ {
        Option::Some(KeyCode::End)
    } else if u == "PAGEUP"@ || u == "PAGE_UP"@ {
        Option::Some(KeyCode::PageUp)
    } else if u == "PAGEDOWN"@ || u == "PAGE_DOWN"@ {
        Option::Some(KeyCode::PageDown)
    } else if u == "ARROWUP"@ || u == "UP"@ {
        Option::Some(KeyCode::ArrowUp)
    } else if u == "ARROWDOWN"@ || u == "DOWN"@ {
        Option::Some(KeyCode::ArrowDown)
    } else if u == "ARROWLEFT"@ || u == "LEFT"@ {
        Option::Some(KeyCode::ArrowLeft)
    } else if u == "ARROWRIGHT"@ || u == "RIGHT"@ {
        Option::Some(KeyCode::ArrowRight)
    } else if u == "F1"@ {
        Option::Some(KeyCode::F1)
    } else if u == "F2"@ {
        Option::Some(KeyCode::F2)
    } else if u == "F3"@ {
        Option::Some(KeyCode::F3)
    } else if u == "F4"@ {
        Option::Some(KeyCode::F4)
    } else if u == "F5"@ {
        Option::Some(KeyCode::F5)
    } else if u == "F6"@ {
        Option::Some(KeyCode::F6)
    } else if u == "F7"@ {
        Option::Some(KeyCode::F7)
    } else if u == "F8"@ {
        Option::Some(KeyCode::F8)
    } else if u == "F9"@ {
        Option::Some(KeyCode::F9)
    } else if u == "F10"@ {
        Option::Some(KeyCode::F10)
    } else if u == "F11"@ {
        Option::Some(KeyCode::F11)
    } else if u == "F12"@ {
        Option::Some(KeyCode::F12)
    } else if u == "A"@ {
        Option::Some(KeyCode::KeyA)
    } else if u == "B"@ {
        Option::Some(KeyCode::KeyB)
    } else if u == "C"@ {
        Option::Some(KeyCode::KeyC)
    } else if u == "D"@ {
        Option::Some(KeyCode::KeyD)
    } else if u == "E"@ {
        Option::Some(KeyCode::KeyE)
    } else if u == "F"@ {
        Option::Some(KeyCode::KeyF)
    } else if u == "G"@ {
        Option::Some(KeyCode::KeyG)
    } else if u == "H"@ {
        Option::Some(KeyCode::KeyH)
    } else if u == "I"@ {
        Option::Some(KeyCode::KeyI)
    } else if u == "J"@ {
        Option::Some(KeyCode::KeyJ)
    } else if u == "K"@ {
        Option::Some(KeyCode::KeyK)
    } else if u == "L"@ {
        Option::Some(KeyCode::KeyL)
    } else if u == "M"@ {
        Option::Some(KeyCode::KeyM)
    } else if u == "N"@ {
        Option::Some(KeyCode::KeyN)
    } else if u == "O"@ {
        Option::Some(KeyCode::KeyO)
    } else if u == "P"@ {
        Option::Some(KeyCode::KeyP)
    } else if u == "Q"@ {
        Option::Some(KeyCode::KeyQ)
    } else if u == "R"@ {
        Option::Some(KeyCode::KeyR)
    } else if u == "S"@ {
        Option::Some(KeyCode::KeyS)
    } else if u == "T"@ {
        Option::Some(KeyCode::KeyT)
    } else if u == "U"@ {
        Option::Some(KeyCode::KeyU)
    } else if u == "V"@ {
        Option::Some(KeyCode::KeyV)
    } else if u == "W"@ {
        Option::Some(KeyCode::KeyW)
    } else if u == "X"@ {
        Option::Some(KeyCode::KeyX)
    } else if u == "Y"@ {
        Option::Some(KeyCode::KeyY)
    } else if u == "Z"@ {
        Option::Some(KeyCode::KeyZ)
    } else if u == "0"@ {
        Option::Some(KeyCode::Digit0)
    } else if u == "1"@ {
        Option::Some(KeyCode::Digit1)
    } else if u == "2"@ {
        Option::Some(KeyCode::Digit2)
    } else if u == "3"@ {
        Option::Some(KeyCode::Digit3)
    } else if u == "4"@ {
        Option::Some(KeyCode::Digit4)
    } else if u == "5"@ {
        Option::Some(KeyCode::Digit5)
    } else if u == "6"@ {
        Option::Some(KeyCode::Digit6)
    } else if u == "7"@ {
        Option::Some(KeyCode::Digit7)
    } else if u == "8"@ {
        Option::Some(KeyCode::Digit8)
    } else if u == "9"@ {
        Option::Some(KeyCode::Digit9)
    } else {
        Option::None
    }
}

#[verifier::rlimit(40)]
fn key_code_of(k: &str) -> (r: Option<KeyCode>)
    ensures
        r == spec_key_of(spec_upper(k@)),
{
    if str_eq_upper(k, "SPACE") {
        Option::Some(KeyCode::Space)
    } else if str_eq_upper(k, "ENTER") || str_eq_upper(k, "RETURN") {
        Option::Some(KeyCode::Enter)
    } else if str_eq_upper(k, "ESCAPE") || str_eq_upper(k, "ESC") {
        Option::Some(KeyCode::Escape)
    } else if str_eq_upper(k, "TAB") {
        Option::Some(KeyCode::Tab)
    } else if str_eq_upper(k, "BACKSPACE") {
        Option::Some(KeyCode::Backspace)
    } else if str_eq_upper(k, "DELETE") || str_eq_upper(k, "DEL") {
        Option::Some(KeyCode::Delete)
    } else if str_eq_upper(k, "HOME") {
        Option::Some(KeyCode::Home)
    } else if str_eq_upper(k, "END") {
        Option::Some(KeyCode::End)
    } else if str_eq_upper(k, "PAGEUP") || str_eq_upper(k, "PAGE_UP") {
        Option::Some(KeyCode::PageUp)
    } else if str_eq_upper(k, "PAGEDOWN") || str_eq_upper(k, "PAGE_DOWN") {
        Option::Some(KeyCode::PageDown)
    } else if str_eq_upper(k, "ARROWUP") || str_eq_upper(k, "UP") {
        Option::Some(KeyCode::ArrowUp)
    } else if str_eq_upper(k, "ARROWDOWN") || str_eq_upper(k, "DOWN") {
        Option::Some(KeyCode::ArrowDown)
    } else if str_eq_upper(k, "ARROWLEFT") || str_eq_upper(k, "LEFT") {
        Option::Some(KeyCode::ArrowLeft)
    } else if str_eq_upper(k, "ARROWRIGHT") || str_eq_upper(k, "RIGHT") {
        Option::Some(KeyCode::ArrowRight)
    } else if str_eq_upper(k, "F1") {
        Option::Some(KeyCode::F1)
    } else if str_eq_upper(k, "F2") {
        Option::Some(KeyCode::F2)
    } else if str_eq_upper(k, "F3") {
        Option::Some(KeyCode::F3)
    } else if str_eq_upper(k, "F4") {
        Option::Some(KeyCode::F4)
    } else if str_eq_upper(k, "F5") {
        Option::Some(KeyCode::F5)
    } else if str_eq_upper(k, "F6") {
        Option::Some(KeyCode::F6)
    } else if str_eq_upper(k, "F7") {
        Option::Some(KeyCode::F7)
    } else if str_eq_upper(k, "F8") {
        Option::Some(KeyCode::F8)
    } else if str_eq_upper(k, "F9") {
        Option::Some(KeyCode::F9)
    } else if str_eq_upper(k, "F10") {
        Option::Some(KeyCode::F10)
    } else if str_eq_upper(k, "F11") {
        Option::Some(KeyCode::F11)
    } else if str_eq_upper(k, "F12") {
        Option::Some(KeyCode::F12)
    } else if str_eq_upper(k, "A") {
        Option::Some(KeyCode::KeyA)
    } else if str_eq_upper(k, "B") {
        Option::Some(KeyCode::KeyB)
    } else if str_eq_upper(k, "C") {
        Option::Some(KeyCode::KeyC)
    } else if str_eq_upper(k, "D") {
        Option::Some(KeyCode::KeyD)
    } else if str_eq_upper(k, "E") {
        Option::Some(KeyCode::KeyE)
    } else if str_eq_upper(k, "F") {
        Option::Some(KeyCode::KeyF)
    } else if str_eq_upper(k, "G") {
        Option::Some(KeyCode::KeyG)
    } else if str_eq_upper(k, "H") {
        Option::Some(KeyCode::KeyH)
    } else if str_eq_upper(k, "I") {
        Option::Some(KeyCode::KeyI)
    } else if str_eq_upper(k, "J") {
        Option::Some(KeyCode::KeyJ)
    } else if str_eq_upper(k, "K") {
        Option::Some(KeyCode::KeyK)
    } else if str_eq_upper(k, "L") {
        Option::Some(KeyCode::KeyL)
    } else if str_eq_upper(k, "M") {
        Option::Some(KeyCode::KeyM)
    } else if str_eq_upper(k, "N") {
        Option::Some(KeyCode::KeyN)
    } else if str_eq_upper(k, "O") {
        Option::Some(KeyCode::KeyO)
    } else if str_eq_upper(k, "P") {
        Option::Some(KeyCode::KeyP)
    } else if str_eq_upper(k, "Q") {
        Option::Some(KeyCode::KeyQ)
    } else if str_eq_upper(k, "R") {
        Option::Some(KeyCode::KeyR)
    } else if str_eq_upper(k, "S") {
        Option::Some(KeyCode::KeyS)
    } else if str_eq_upper(k, "T") {
        Option::Some(KeyCode::KeyT)
    } else if str_eq_upper(k, "U") {
        Option::Some(KeyCode::KeyU)
    } else if str_eq_upper(k, "V") {
        Option::Some(KeyCode::KeyV)
    } else if str_eq_upper(k, "W") {
        Option::Some(KeyCode::KeyW)
    } else if str_eq_upper(k, "X") {
        Option::Some(KeyCode::KeyX)
    } else if str_eq_upper(k, "Y") {
        Option::Some(KeyCode::KeyY)
    } else if str_eq_upper(k, "Z") {
        Option::Some(KeyCode::KeyZ)
    } else if str_eq_upper(k, "0") {
        Option::Some(KeyCode::Digit0)
    } else if str_eq_upper(k, "1") {
        Option::Some(KeyCode::Digit1)
    } else if str_eq_upper(k, "2") {
        Option::Some(KeyCode::Digit2)
    } else if str_eq_upper(k, "3") {
        Option::Some(KeyCode::Digit3)
    } else if str_eq_upper(k, "4") {
        Option::Some(KeyCode::Digit4)
    } else if str_eq_upper(k, "5") {
        Option::Some(KeyCode::Digit5)
    } else if str_eq_upper(k, "6") {
        Option::Some(KeyCode::Digit6)
    } else if str_eq_upper(k, "7") {
        Option::Some(KeyCode::Digit7)
    } else if str_eq_upper(k, "8") {
        Option::Some(KeyCode::Digit8)
    } else if str_eq_upper(k, "9") {
        Option::Some(KeyCode::Digit9)
    } else {
        Option::None
    }
}

/// The trimmed parts of `s` split at every `+`: an input without `+` is
/// one part, and every separator starts a new part, so there is always at
/// least one part.
pub open spec fn split_trimmed(s: Seq<char>) -> Seq<Seq<char>>
    decreases s.len(),
    via split_trimmed_decreases
{
    match spec_find_char(s, '+') {
        Option::None => seq![trim_of(s)],
        Option::Some(p) => seq![trim_of(s.subrange(0, p))] + split_trimmed(
            s.subrange(p + 1, s.len() as int),
        ),
    }
}

#[via_fn]
proof fn split_trimmed_decreases(s: Seq<char>) {
    lemma_find_char_bounds(s, '+');
}

/// The trimmed parts of `s` split at `+`.
fn split_trimmed_parts(s: &str) -> (r: Vec<String>)
    ensures
        r@.map_values(|x: String| x@) == split_trimmed(s@),
{
    let mut parts: Vec<String> = Vec::new();
    let mut rest: String = s.to_owned();
    let mut more = true;

    proof {
        assert(parts@.map_values(|x: String| x@) =~= Seq::<Seq<char>>::empty());
        assert(split_trimmed(s@) =~= parts@.map_values(|x: String| x@) + split_trimmed(rest@));
    }

    while more
        invariant
            split_trimmed(s@) == parts@.map_values(|x: String| x@) + split_trimmed(rest@),
            more == true || spec_find_char(rest@, '+') is None,
        decreases rest@.len() + (if more {
            1int
        } else {
            0int
        }),
    {
        let ghost parts_pre = parts@.map_values(|x: String| x@);
        let ghost rest_pre = rest@;
        match find_first(rest.as_str(), '+') {
            Option::Some(p) => {
                proof {
                    lemma_find_char_bounds(rest@, '+');
                }
                let n = rest.as_str().unicode_len();
                let head = rest.as_str().substring_char(0, p);
                let part = trim_str(head);
                let tail = rest.as_str().substring_char(p + 1, n).to_owned();
                parts.push(part);
                rest = tail;
                proof {
                    assert(rest@ =~= rest_pre.subrange(p as int + 1, rest_pre.len() as int));
                    assert(split_trimmed(rest_pre) == seq![trim_of(rest_pre.subrange(0, p as int))]
                        + split_trimmed(rest@)) by {
                        reveal_with_fuel(split_trimmed, 2);
                    }
                    assert(parts@.map_values(|x: String| x@) =~= parts_pre + seq![
                        trim_of(rest_pre.subrange(0, p as int)),
                    ]);
                    assert(parts_pre + (seq![trim_of(rest_pre.subrange(0, p as int))]
                        + split_trimmed(rest@)) =~= (parts_pre + seq![
                        trim_of(rest_pre.subrange(0, p as int)),
                    ]) + split_trimmed(rest@));
                }
            },
            Option::None => {
                more = false;
            },
        }
    }

    // one final part: the text after the last separator
    let ghost parts_pre = parts@.map_values(|x: String| x@);
    let last = trim_str(rest.as_str());
    parts.push(last);
    proof {
        assert(split_trimmed(rest@) == seq![trim_of(rest@)]);
        assert(parts@.map_values(|x: String| x@) =~= parts_pre + seq![trim_of(rest@)]);
    }
    parts
}

/// Fold the trimmed parts: modifiers accumulate, the last non-modifier part
/// becomes the key token.
fn fold_parts_exec(parts: &Vec<String>) -> (r: (ShortcutMods, String))
    ensures
        ({
            let f = fold_parts(parts@.map_values(|x: String| x@));
            r.0 == f.0 && r.1@ == f.1
        }),
{
    let ghost views = parts@.map_values(|x: String| x@);
    let mut mods = ShortcutMods { control: false, alt: false, shift: false, meta: false };
    let mut key = String::new();
    let mut i: usize = 0;

    proof {
        assert(views.take(0) =~= Seq::<Seq<char>>::empty());
    }

    while i < parts.len()
        invariant
            i <= parts@.len(),
            views == parts@.map_values(|x: String| x@),
            mods == fold_parts(views.take(i as int)).0,
            key@ == fold_parts(views.take(i as int)).1,
        decreases parts@.len() - i,
    {
        let part = &parts[i];
        proof {
            assert(views.take(i as int + 1).drop_last() =~= views.take(i as int));
            assert(views.take(i as int + 1).last() == part@);
        }
        if str_eq_upper(part.as_str(), "CTRL") || str_eq_upper(part.as_str(), "CONTROL") {
            mods = ShortcutMods { control: true, alt: mods.alt, shift: mods.shift, meta: mods.meta };
        } else if str_eq_upper(part.as_str(), "ALT") {
            mods = ShortcutMods { control: mods.control, alt: true, shift: mods.shift, meta: mods.meta };
        } else if str_eq_upper(part.as_str(), "SHIFT") {
            mods = ShortcutMods { control: mods.control, alt: mods.alt, shift: true, meta: mods.meta };
        } else if str_eq_upper(part.as_str(), "META") || str_eq_upper(part.as_str(), "CMD")
            || str_eq_upper(part.as_str(), "COMMAND") {
            mods = ShortcutMods { control: mods.control, alt: mods.alt, shift: mods.shift, meta: true };
        } else {
            key = part.clone();
        }
        i += 1;
    }
    proof {
        assert(views.take(parts@.len() as int) =~= views);
    }
    (mods, key)
}

/// Parse a shortcut string. The parts split at `+` are trimmed and read
/// case-insensitively: modifiers accumulate, the last non-modifier part
/// names the key. A shortcut without a key part is rejected, as is an
/// unknown key name; no modifiers yields `None` in the modifier position.
pub fn parse_shortcut(shortcut_str: &str) -> (r: Result<(Option<ShortcutMods>, KeyCode), String>)
    ensures
        ({
            let parts = split_trimmed(shortcut_str@);
            let f = fold_parts(parts);
            let kc = spec_key_of(spec_upper(f.1));
            &&& (f.1.len() == 0 ==> (r matches Err(m) && m@ == "Shortcut must include a key"@))
            &&& (f.1.len() > 0 && kc is None ==> (r matches Err(m) && m@ == "Unsupported key: "@
                + f.1))
            &&& (f.1.len() > 0 ==> (kc matches Some(code) ==> r == expected_parse(f.0, code)))
        }),
{
    let parts = split_trimmed_parts(shortcut_str);
    let (mods, key) = fold_parts_exec(&parts);
    if key.as_str().unicode_len() == 0 {
        return Result::Err(String::from_str("Shortcut must include a key"));
    }
    match key_code_of(key.as_str()) {
        Option::Some(code) => {
            let no_mods = !mods.control && !mods.alt && !mods.shift && !mods.meta;
            if no_mods {
                Result::Ok((Option::None, code))
            } else {
                Result::Ok((Option::Some(mods), code))
            }
        },
        Option::None => Result::Err(String::from_str("Unsupported key: ").concat(key.as_str())),
    }
}

} // verus!
