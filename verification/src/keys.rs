//! Key-binding resolution over a keyboard mapping.
//!
//! The display server assigns every physical key a keycode and a fixed-width
//! block of key symbols. Resolution walks those blocks and collects every
//! keycode whose block mentions the requested symbol; a symbol may sit on
//! several physical keys, or on none. Registration pairs each bound keycode
//! with every modifier-lock variant that must trigger the same binding.

use vstd::prelude::*;

verus! {

/// Primary binding modifier (the "super" key, modifier mask four).
pub const MOD_MAIN: u16 = 0x40;

/// NumLock's modifier mask (modifier mask two).
pub const MOD_NUMLOCK: u16 = 0x10;

/// CapsLock's modifier mask.
pub const MOD_CAPSLOCK: u16 = 0x02;

/// Key symbol of the Return key.
pub const KEYSYM_RETURN: u32 = 0xFF0D;

/// Key symbol of the letter q.
pub const KEYSYM_Q: u32 = 0x71;

/// Key symbol of the letter j.
pub const KEYSYM_J: u32 = 0x6A;

/// Key symbol of the letter k.
pub const KEYSYM_K: u32 = 0x6B;

/// Key symbol of the letter t.
pub const KEYSYM_T: u32 = 0x74;

/// Key symbol of the letter b.
pub const KEYSYM_B: u32 = 0x62;

/// Key symbol of the letter d.
pub const KEYSYM_D: u32 = 0x64;

/// Key symbol of the lower-volume multimedia key.
pub const KEYSYM_AUDIO_LOWER_VOLUME: u32 = 0x1008FF11;

/// Key symbol of the mute multimedia key.
pub const KEYSYM_AUDIO_MUTE: u32 = 0x1008FF12;

/// Key symbol of the raise-volume multimedia key.
pub const KEYSYM_AUDIO_RAISE_VOLUME: u32 = 0x1008FF13;

/// The live keyboard mapping, as plain values: the first keycode it covers,
/// the number of symbols recorded per keycode, and the symbol blocks laid
/// out one keycode after another.
pub struct KeyboardMapping {
    pub min_keycode: u8,
    pub keysyms_per_keycode: u8,
    pub keysyms: Vec<u32>,
}

/// Physical keycodes of each logical command binding.
#[derive(Debug, Clone)]
pub struct Keybindings {
    pub terminal: Vec<u8>,
    pub close: Vec<u8>,
    pub focus_next: Vec<u8>,
    pub focus_prev: Vec<u8>,
    pub file_manager: Vec<u8>,
    pub browser: Vec<u8>,
    pub launcher: Vec<u8>,
}

/// Physical keycodes of the three volume multimedia keys.
#[derive(Debug, Clone)]
pub struct MultimediaKeycodes {
    pub volume_down: Vec<u8>,
    pub volume_mute: Vec<u8>,
    pub volume_up: Vec<u8>,
}

/// A single passive-grab request: a modifier mask and a keycode.
#[derive(Clone, Copy, Debug, PartialEq, Eq, Structural)]
pub struct KeyGrab {
    pub modifiers: u16,
    pub keycode: u8,
}

/// The symbol block of keycode `min + chunk` mentions `keysym`.
pub open spec fn spec_chunk_has_keysym(keysyms: Seq<u32>, per: int, chunk: int, keysym: u32) -> bool {
    exists|idx: int|
        chunk * per <= idx < chunk * per + per && idx < keysyms.len() && keysyms[idx] == keysym
}

/// `keycode` resolves `keysym` under the mapping: the mapping is non-
/// degenerate, the keycode is covered by it, and its symbol block mentions
/// the symbol.
pub open spec fn spec_keycode_matches(
    min: u8,
    per: u8,
    keysyms: Seq<u32>,
    keysym: u32,
    keycode: u8,
) -> bool {
    &&& per > 0
    &&& keycode >= min
    &&& spec_chunk_has_keysym(keysyms, per as int, keycode - min, keysym)
}

/// `keycodes` is the resolution of `keysym`: it holds exactly the matching
/// keycodes, in strictly ascending order.
pub open spec fn spec_resolves(
    keycodes: Seq<u8>,
    min: u8,
    per: u8,
    keysyms: Seq<u32>,
    keysym: u32,
) -> bool {
    &&& forall|kc: u8| #[trigger]
        keycodes.contains(kc) ==> spec_keycode_matches(min, per, keysyms, keysym, kc)
    &&& forall|kc: u8| #[trigger]
        spec_keycode_matches(min, per, keysyms, keysym, kc) ==> keycodes.contains(kc)
    &&& forall|a: int, b: int| 0 <= a < b < keycodes.len() ==> keycodes[a] < keycodes[b]
}

/// Every keycode bound to some command, binding by binding.
pub open spec fn spec_bound_keycodes(b: Keybindings) -> Seq<u8> {
    b.terminal@ + b.close@ + b.focus_next@ + b.focus_prev@ + b.file_manager@ + b.browser@
        + b.launcher@
}

/// Every multimedia keycode, key by key.
pub open spec fn spec_multimedia_bound_keycodes(m: MultimediaKeycodes) -> Seq<u8> {
    m.volume_down@ + m.volume_mute@ + m.volume_up@
}

/// The four modifier-lock variants of the primary binding modifier: alone,
/// with NumLock, with CapsLock, with both.
pub open spec fn spec_mod_variant(v: int) -> u16 {
    if v == 0 {
        MOD_MAIN
    } else if v == 1 {
        MOD_MAIN | MOD_NUMLOCK
    } else if v == 2 {
        MOD_MAIN | MOD_CAPSLOCK
    } else {
        MOD_MAIN | MOD_NUMLOCK | MOD_CAPSLOCK
    }
}

/// The four lock variants of an unmodified multimedia key.
pub open spec fn spec_multimedia_variant(v: int) -> u16 {
    if v == 0 {
        0
    } else if v == 1 {
        MOD_NUMLOCK
    } else if v == 2 {
        MOD_CAPSLOCK
    } else {
        MOD_NUMLOCK | MOD_CAPSLOCK
    }
}

/// Collects every keycode whose symbol block mentions `keysym`, in
/// ascending order. A mapping that records no symbols per keycode resolves
/// nothing.
pub fn keycodes_for_keysym(mapping: &KeyboardMapping, keysym: u32) -> (r: Vec<u8>)
    ensures
        spec_resolves(
            r@,
            mapping.min_keycode,
            mapping.keysyms_per_keycode,
            mapping.keysyms@,
            keysym,
        ),
{
    let mut r: Vec<u8> = Vec::new();
    let min = mapping.min_keycode;
    let per = mapping.keysyms_per_keycode as usize;
    if per == 0 {
        return r;
    }
    let len = mapping.keysyms.len();
    let mut i: usize = 0;
    let mut base: usize = 0;
    while (min as usize) + i <= 255 && base < len
        invariant
            per == mapping.keysyms_per_keycode as usize,
            min == mapping.min_keycode,
            len == mapping.keysyms@.len(),
            1 <= per <= 255,
            i <= 256,
            base == i * per,
            forall|kc: u8| #[trigger]
                r@.contains(kc) ==> spec_keycode_matches(
                    min,
                    mapping.keysyms_per_keycode,
                    mapping.keysyms@,
                    keysym,
                    kc,
                ) && kc < min + i,
            forall|kc: u8|
                (#[trigger] spec_keycode_matches(
                    min,
                    mapping.keysyms_per_keycode,
                    mapping.keysyms@,
                    keysym,
                    kc,
                ) && kc < min + i) ==> r@.contains(kc),
            forall|a: int, b: int| 0 <= a < b < r@.len() ==> r@[a] < r@[b],
            forall|a: int| 0 <= a < r@.len() ==> r@[a] < min + i,
        decreases 256 - i,
    {
        assert(base <= 256 * 255) by (nonlinear_arith)
            requires
                base == i * per,
                i <= 256,
                per <= 255,
        ;
        let chunk_len = if per < len - base {
            per
        } else {
            len - base
        };
        let mut j: usize = 0;
        let mut found = false;
        while j < chunk_len
            invariant
                base == i * per,
                base + chunk_len <= len,
                chunk_len <= per,
                len == mapping.keysyms@.len(),
                j <= chunk_len,
                found <==> exists|idx: int|
                    base <= idx < base + j && mapping.keysyms@[idx] == keysym,
            decreases chunk_len - j,
        {
            if mapping.keysyms[base + j] == keysym {
                found = true;
            }
            j = j + 1;
        }
        proof {
            if found {
                let idx = choose|idx: int|
                    base <= idx < base + chunk_len && mapping.keysyms@[idx] == keysym;
                assert(i * per <= idx < i * per + per && idx < len);
                assert(spec_chunk_has_keysym(mapping.keysyms@, per as int, i as int, keysym));
            } else {
                assert(!spec_chunk_has_keysym(mapping.keysyms@, per as int, i as int, keysym))
                    by {
                    assert forall|idx: int|
                        i * per <= idx < i * per + per && idx
                            < len implies #[trigger] mapping.keysyms@[idx] != keysym by {
                        assert(base <= idx < base + chunk_len);
                    }
                }
            }
        }
        let ghost prev = r@;
        if found {
            let keycode = min + (i as u8);
            r.push(keycode);
            proof {
                assert(keycode - min == i as int);
                assert(spec_keycode_matches(
                    min,
                    mapping.keysyms_per_keycode,
                    mapping.keysyms@,
                    keysym,
                    keycode,
                ));
                assert forall|kc: u8| #[trigger] prev.contains(kc) implies r@.contains(kc) by {
                    let a = choose|a: int| 0 <= a < prev.len() && prev[a] == kc;
                    assert(r@[a] == kc);
                }
                assert(r@.contains(keycode)) by {
                    assert(r@[r@.len() - 1] == keycode);
                }
            }
        }
        proof {
            assert forall|kc: u8|
                (#[trigger] spec_keycode_matches(
                    min,
                    mapping.keysyms_per_keycode,
                    mapping.keysyms@,
                    keysym,
                    kc,
                ) && kc < min + (i + 1)) implies r@.contains(kc) by {
                if kc < min + i {
                    assert(prev.contains(kc));
                } else {
                    assert(kc == min + i);
                    assert(kc - min == i as int);
                    assert(found);
                }
            }
            assert forall|kc: u8| #[trigger]
                r@.contains(kc) implies spec_keycode_matches(
                min,
                mapping.keysyms_per_keycode,
                mapping.keysyms@,
                keysym,
                kc,
            ) && kc < min + (i + 1) by {
                let a = choose|a: int| 0 <= a < r@.len() && r@[a] == kc;
                if a < prev.len() {
                    assert(prev.contains(kc)) by {
                        assert(prev[a] == kc);
                    }
                }
            }
        }
        proof {
            assert((i + 1) * per == i * per + per) by (nonlinear_arith);
        }
        base = base + per;
        i = i + 1;
    }
    proof {
        assert forall|kc: u8| #[trigger]
            spec_keycode_matches(
                min,
                mapping.keysyms_per_keycode,
                mapping.keysyms@,
                keysym,
                kc,
            ) implies r@.contains(kc) by {
            if kc >= min + i {
                assert((min as usize) + i > 255 || i * per >= len);
                if i * per >= len {
                    let c = kc - min;
                    assert(c >= i);
                    assert(c * per >= i * per) by (nonlinear_arith)
                        requires
                            c >= i,
                            per >= 1,
                            i >= 0,
                    ;
                    assert(!spec_chunk_has_keysym(mapping.keysyms@, per as int, c as int, keysym));
                }
            }
        }
    }
    r
}

/// Builds the whole binding table from the keyboard mapping: terminal on
/// Return, close on q, focus next and previous on j and k, file manager on
/// t, browser on b, launcher on d.
pub fn keybindings(mapping: &KeyboardMapping) -> (r: Keybindings)
    ensures
        spec_resolves(
            r.terminal@,
            mapping.min_keycode,
            mapping.keysyms_per_keycode,
            mapping.keysyms@,
            KEYSYM_RETURN,
        ),
        spec_resolves(
            r.close@,
            mapping.min_keycode,
            mapping.keysyms_per_keycode,
            mapping.keysyms@,
            KEYSYM_Q,
        ),
        spec_resolves(
            r.focus_next@,
            mapping.min_keycode,
            mapping.keysyms_per_keycode,
            mapping.keysyms@,
            KEYSYM_J,
        ),
        spec_resolves(
            r.focus_prev@,
            mapping.min_keycode,
            mapping.keysyms_per_keycode,
            mapping.keysyms@,
            KEYSYM_K,
        ),
        spec_resolves(
            r.file_manager@,
            mapping.min_keycode,
            mapping.keysyms_per_keycode,
            mapping.keysyms@,
            KEYSYM_T,
        ),
        spec_resolves(
            r.browser@,
            mapping.min_keycode,
            mapping.keysyms_per_keycode,
            mapping.keysyms@,
            KEYSYM_B,
        ),
        spec_resolves(
            r.launcher@,
            mapping.min_keycode,
            mapping.keysyms_per_keycode,
            mapping.keysyms@,
            KEYSYM_D,
        ),
{
    Keybindings {
        terminal: keycodes_for_keysym(mapping, KEYSYM_RETURN),
        close: keycodes_for_keysym(mapping, KEYSYM_Q),
        focus_next: keycodes_for_keysym(mapping, KEYSYM_J),
        focus_prev: keycodes_for_keysym(mapping, KEYSYM_K),
        file_manager: keycodes_for_keysym(mapping, KEYSYM_T),
        browser: keycodes_for_keysym(mapping, KEYSYM_B),
        launcher: keycodes_for_keysym(mapping, KEYSYM_D),
    }
}

/// Resolves the three volume multimedia keys from the keyboard mapping.
pub fn multimedia_keycodes(mapping: &KeyboardMapping) -> (r: MultimediaKeycodes)
    ensures
        spec_resolves(
            r.volume_down@,
            mapping.min_keycode,
            mapping.keysyms_per_keycode,
            mapping.keysyms@,
            KEYSYM_AUDIO_LOWER_VOLUME,
        ),
        spec_resolves(
            r.volume_mute@,
            mapping.min_keycode,
            mapping.keysyms_per_keycode,
            mapping.keysyms@,
            KEYSYM_AUDIO_MUTE,
        ),
        spec_resolves(
            r.volume_up@,
            mapping.min_keycode,
            mapping.keysyms_per_keycode,
            mapping.keysyms@,
            KEYSYM_AUDIO_RAISE_VOLUME,
        ),
{
    MultimediaKeycodes {
        volume_down: keycodes_for_keysym(mapping, KEYSYM_AUDIO_LOWER_VOLUME),
        volume_mute: keycodes_for_keysym(mapping, KEYSYM_AUDIO_MUTE),
        volume_up: keycodes_for_keysym(mapping, KEYSYM_AUDIO_RAISE_VOLUME),
    }
}

/// Appends every element of `src` to `dst`, in order.
fn append_keycodes(dst: &mut Vec<u8>, src: &Vec<u8>)
    ensures
        final(dst)@ == old(dst)@ + src@,
{
    let mut i: usize = 0;
    while i < src.len()
        invariant
            i <= src@.len(),
            dst@ == old(dst)@ + src@.take(i as int),
        decreases src@.len() - i,
    {
        dst.push(src[i]);
        proof {
            assert(dst@ =~= old(dst)@ + src@.take(i + 1));
        }
        i = i + 1;
    }
    proof {
        assert(dst@ =~= old(dst)@ + src@);
    }
}

/// Pairs every keycode of `all` with each of the four modifier masks in
/// `variants`, variant by variant.
fn cross_grabs(all: &Vec<u8>, variants: [u16; 4]) -> (r: Vec<KeyGrab>)
    ensures
        r@.len() == 4 * all@.len(),
        forall|i: int|
            0 <= i < r@.len() ==> r@[i] == (KeyGrab {
                modifiers: variants@[i / (all@.len() as int)],
                keycode: all@[i % (all@.len() as int)],
            }),
{
    let mut r: Vec<KeyGrab> = Vec::new();
    let n = all.len();
    let mut v: usize = 0;
    while v < 4
        invariant
            n == all@.len(),
            v <= 4,
            r@.len() == v * n,
            forall|i: int|
                0 <= i < r@.len() ==> r@[i] == (KeyGrab {
                    modifiers: variants@[i / (n as int)],
                    keycode: all@[i % (n as int)],
                }),
        decreases 4 - v,
    {
        let modifiers = variants[v];
        let mut k: usize = 0;
        while k < n
            invariant
                n == all@.len(),
                v < 4,
                k <= n,
                modifiers == variants@[v as int],
                r@.len() == v * n + k,
                forall|i: int|
                    0 <= i < r@.len() ==> r@[i] == (KeyGrab {
                        modifiers: variants@[i / (n as int)],
                        keycode: all@[i % (n as int)],
                    }),
            decreases n - k,
        {
            r.push(KeyGrab { modifiers, keycode: all[k] });
            proof {
                vstd::arithmetic::div_mod::lemma_fundamental_div_mod_converse(
                    v * n + k,
                    n as int,
                    v as int,
                    k as int,
                );
            }
            k = k + 1;
        }
        proof {
            assert((v + 1) * n == v * n + n) by (nonlinear_arith);
        }
        v = v + 1;
    }
    r
}

/// The passive grabs that register every command binding: each bound
/// keycode under the primary modifier and its NumLock and CapsLock
/// variants, so the locks never keep a binding from firing.
pub fn grab_keys(bindings: &Keybindings) -> (r: Vec<KeyGrab>)
    ensures
        r@.len() == 4 * spec_bound_keycodes(*bindings).len(),
        forall|i: int|
            0 <= i < r@.len() ==> r@[i] == (KeyGrab {
                modifiers: spec_mod_variant(i / (spec_bound_keycodes(*bindings).len() as int)),
                keycode: spec_bound_keycodes(*bindings)[i % (spec_bound_keycodes(
                    *bindings,
                ).len() as int)],
            }),
{
    let mut all: Vec<u8> = Vec::new();
    append_keycodes(&mut all, &bindings.terminal);
    append_keycodes(&mut all, &bindings.close);
    append_keycodes(&mut all, &bindings.focus_next);
    append_keycodes(&mut all, &bindings.focus_prev);
    append_keycodes(&mut all, &bindings.file_manager);
    append_keycodes(&mut all, &bindings.browser);
    append_keycodes(&mut all, &bindings.launcher);
    proof {
        assert(all@ =~= spec_bound_keycodes(*bindings));
    }
    let variants: [u16; 4] = [
        MOD_MAIN,
        MOD_MAIN | MOD_NUMLOCK,
        MOD_MAIN | MOD_CAPSLOCK,
        MOD_MAIN | MOD_NUMLOCK | MOD_CAPSLOCK,
    ];
    let r = cross_grabs(&all, variants);
    proof {
        let l = all@.len() as int;
        assert forall|i: int| 0 <= i < r@.len() implies r@[i] == (KeyGrab {
            modifiers: spec_mod_variant(i / l),
            keycode: spec_bound_keycodes(*bindings)[i % l],
        }) by {
            assert(0 <= i / l < 4 && 0 <= i % l < l) by (nonlinear_arith)
                requires
                    0 <= i < 4 * l,
                    l > 0,
            ;
            assert(variants@[i / l] == spec_mod_variant(i / l));
        }
    }
    r
}

/// The passive grabs that register the multimedia keys: each keycode bare
/// and under the NumLock and CapsLock variants.
pub fn grab_multimedia_keys(multimedia: &MultimediaKeycodes) -> (r: Vec<KeyGrab>)
    ensures
        r@.len() == 4 * spec_multimedia_bound_keycodes(*multimedia).len(),
        forall|i: int|
            0 <= i < r@.len() ==> r@[i] == (KeyGrab {
                modifiers: spec_multimedia_variant(
                    i / (spec_multimedia_bound_keycodes(*multimedia).len() as int),
                ),
                keycode: spec_multimedia_bound_keycodes(*multimedia)[i % (
                spec_multimedia_bound_keycodes(*multimedia).len() as int)],
            }),
{
    let mut all: Vec<u8> = Vec::new();
    append_keycodes(&mut all, &multimedia.volume_down);
    append_keycodes(&mut all, &multimedia.volume_mute);
    append_keycodes(&mut all, &multimedia.volume_up);
    proof {
        assert(all@ =~= spec_multimedia_bound_keycodes(*multimedia));
    }
    let variants: [u16; 4] = [0, MOD_NUMLOCK, MOD_CAPSLOCK, MOD_NUMLOCK | MOD_CAPSLOCK];
    let r = cross_grabs(&all, variants);
    proof {
        let l = all@.len() as int;
        assert forall|i: int| 0 <= i < r@.len() implies r@[i] == (KeyGrab {
            modifiers: spec_multimedia_variant(i / l),
            keycode: spec_multimedia_bound_keycodes(*multimedia)[i % l],
        }) by {
            assert(0 <= i / l < 4 && 0 <= i % l < l) by (nonlinear_arith)
                requires
                    0 <= i < 4 * l,
                    l > 0,
            ;
            assert(variants@[i / l] == spec_multimedia_variant(i / l));
        }
    }
    r
}

} // verus!
