//! The composition and transliteration engine: renders a syllable as stacked
//! Tibetan Unicode text and as a Latin phonetic transliteration.

use vstd::prelude::*;

use crate::tibetan_data::Column;
use crate::tibetan_data::TibetanCharacter;
use crate::tibetan_data::TibetanSyllable;
use crate::tibetan_data::Tone;
use crate::tibetan_data::DIAIRESIS_UNICODE_CODE_POINT;
use crate::tibetan_data::HIGH_TONE_UNICODE_CODE_POINT;
use crate::tibetan_data::LOW_TONE_UNICODE_CODE_POINT;
use crate::tibetan_data::TibetanCharacterMap;
use crate::tibetan_data::is_vowel_changing_suffix;
use crate::tibetan_data::spec_is_vowel_changing_suffix;
use crate::tibetan_data::spec_roots;
use vstd::string::StrSliceExecFns;
use vstd::string::StringExecFns;

verus! {

/// The Tibetan Unicode text of a syllable: prefix, then the stack
/// (superscript over root over subscript), then the suffixes.
pub open spec fn spec_tibetan(s: TibetanSyllable) -> Seq<char> {
    (match s.prefix {
        Some(p) => seq![p.tibetan],
        None => seq![],
    }) + (match s.superscript {
        Some(sup) => seq![sup.tibetan, s.root.subjoined],
        None => seq![s.root.tibetan],
    }) + (match s.subscript {
        Some(sub) => seq![sub.subjoined],
        None => seq![],
    }) + (match s.suffix {
        Some(f) => seq![f.tibetan],
        None => seq![],
    }) + (match s.second_suffix {
        Some(f2) => seq![f2.tibetan],
        None => seq![],
    })
}

/// Generates the registry that maps the Unicode code point of a Tibetan
/// character to the corresponding table entry.
pub fn generate_tibetan_character_map() -> (m: TibetanCharacterMap)
    ensures
        m@ == spec_roots(),
{
    TibetanCharacterMap::new()
}

/// Relies on std's String::push: appends exactly one character.
#[verifier::external_body]
fn push_char(s: &mut String, c: char)
    ensures
        final(s)@ == old(s)@.push(c),
{
    s.push(c)
}

/// Returns an entire Tibetan syllable as a String.
pub fn tibetan(syllable: &TibetanSyllable) -> (res: String)
    ensures
        res@ == spec_tibetan(*syllable),
{
    let mut result = String::new();
    if let Some(p) = syllable.prefix {
        push_char(&mut result, p.tibetan);
    }
    if let Some(sup) = syllable.superscript {
        push_char(&mut result, sup.tibetan);
        push_char(&mut result, syllable.root.subjoined);
    } else {
        push_char(&mut result, syllable.root.tibetan);
    }
    if let Some(sub) = syllable.subscript {
        push_char(&mut result, sub.subjoined);
    }
    if let Some(f) = syllable.suffix {
        push_char(&mut result, f.tibetan);
    }
    if let Some(f2) = syllable.second_suffix {
        push_char(&mut result, f2.tibetan);
    }
    proof {
        assert(result@ =~= spec_tibetan(*syllable));
    }
    result
}

/// Whether the syllable carries a prefix or a superscript; only their
/// presence, never their identity, drives the first mutation stage.
pub open spec fn spec_has_prefix_or_superscript(s: TibetanSyllable) -> bool {
    s.prefix is Some || s.superscript is Some
}

/// The root sound after the prefix/superscript stage: a third-column root
/// with a non-empty override takes the override; every other root keeps its
/// base romanization.
pub open spec fn spec_root_sound_after_affixes(s: TibetanSyllable) -> Seq<char> {
    if spec_has_prefix_or_superscript(s) && s.root.column == Column::THIRD
        && s.root.phonetic_modified_third_column@.len() > 0 {
        s.root.phonetic_modified_third_column@
    } else {
        s.root.phonetic@
    }
}

/// The tone after the prefix/superscript stage: a fourth-column root turns
/// high; every other root stays toneless.
pub open spec fn spec_tone_after_affixes(s: TibetanSyllable) -> Tone {
    if spec_has_prefix_or_superscript(s) && s.root.column == Column::FOURTH {
        Tone::HIGH
    } else {
        Tone::NONE
    }
}

/// The generic ya-subscript rule: splice a "y" glide in front of the final
/// vowel letter of the current root sound.
pub open spec fn spec_add_ya(root_phonetic: Seq<char>) -> Seq<char>
    recommends
        root_phonetic.len() >= 1,
{
    root_phonetic.take(root_phonetic.len() as int - 1) + "ya"@
}

/// The subscript stage: the new root sound and tone for every
/// (subscript, root) pair, overriding whatever the affix stage produced.
pub open spec fn spec_subscript_change(
    s: TibetanSyllable,
    subscript: TibetanCharacter,
    root_phonetic: Seq<char>,
    tone: Tone,
) -> (Seq<char>, Tone) {
    if subscript.tibetan == 'ར' {
        if s.root.tibetan == 'ཀ' || s.root.tibetan == 'ཏ' || s.root.tibetan == 'པ' {
            ("tra"@, Tone::HIGH)
        } else if s.root.tibetan == 'ཁ' || s.root.tibetan == 'ཐ' || s.root.tibetan == 'ཕ' {
            ("thra"@, Tone::HIGH)
        } else if s.root.tibetan == 'ག' || s.root.tibetan == 'ད' || s.root.tibetan == 'བ' {
            if s.superscript matches Some(sup) && sup.tibetan == 'ས' {
                ("dra"@, Tone::LOW)
            } else {
                ("thra"@, Tone::LOW)
            }
        } else if s.root.tibetan == 'ཧ' {
            ("hra"@, tone)
        } else {
            (root_phonetic, tone)
        }
    } else if subscript.tibetan == 'ལ' {
        if s.root.tibetan == 'ཟ' {
            ("da"@, Tone::LOW)
        } else {
            ("la"@, Tone::HIGH)
        }
    } else if subscript.tibetan == 'ཡ' {
        if s.root.tibetan == 'མ' {
            ("nya"@, Tone::LOW)
        } else if s.root.tibetan == 'པ' {
            ("ca"@, Tone::HIGH)
        } else if s.root.tibetan == 'ཕ' {
            ("cha"@, Tone::HIGH)
        } else if s.root.tibetan == 'བ' {
            ("cha"@, Tone::LOW)
        } else {
            (spec_add_ya(root_phonetic), tone)
        }
    } else {
        (root_phonetic, tone)
    }
}

/// The combining mark a tone contributes to the phonetic output.
pub open spec fn spec_tone_marks(t: Tone) -> Seq<char> {
    match t {
        Tone::NONE => Seq::<char>::empty(),
        Tone::HIGH => seq![HIGH_TONE_UNICODE_CODE_POINT],
        Tone::LOW => seq![LOW_TONE_UNICODE_CODE_POINT],
    }
}

/// The Latin phonetic transliteration of a syllable: the root sound after
/// the affix and subscript stages, a diaeresis when the suffix alters the
/// vowel, the tone mark, and the suffix sound.
pub open spec fn spec_phonetic(s: TibetanSyllable) -> Seq<char> {
    let after_subscript = match s.subscript {
        Some(sub) => spec_subscript_change(
            s,
            sub,
            spec_root_sound_after_affixes(s),
            spec_tone_after_affixes(s),
        ),
        None => (spec_root_sound_after_affixes(s), spec_tone_after_affixes(s)),
    };
    let diairesis: Seq<char> = match s.suffix {
        Some(f) => if spec_is_vowel_changing_suffix(f.tibetan) {
            seq![DIAIRESIS_UNICODE_CODE_POINT]
        } else {
            Seq::<char>::empty()
        },
        None => Seq::<char>::empty(),
    };
    let suffix_sound: Seq<char> = match s.suffix {
        Some(f) => f.phonetic_as_suffix@,
        None => Seq::<char>::empty(),
    };
    after_subscript.0 + diairesis + spec_tone_marks(after_subscript.1) + suffix_sound
}

// Insert a "y" character before the final "a" character of the phonetic
// representation of the character.
fn add_phonetic_ya_subscript(root_phonetic: String) -> (res: String)
    requires
        root_phonetic@.len() >= 1,
    ensures
        res@ == spec_add_ya(root_phonetic@),
{
    let n = root_phonetic.as_str().unicode_len();
    let stem = root_phonetic.as_str().substring_char(0, n - 1);
    let mut r = stem.to_owned();
    r.append("ya");
    proof {
        assert(r@ =~= spec_add_ya(root_phonetic@));
    }
    r
}

// There are three possible subscripts: ra, ya, & la.
// For each of them, go through all possible combinations with a root.
fn subscript_phonetic_change(
    syllable: &TibetanSyllable,
    subscript: &TibetanCharacter,
    root_phonetic: String,
    tone: Tone,
) -> (res: (String, Tone))
    requires
        root_phonetic@.len() >= 1,
    ensures
        (res.0@, res.1) == spec_subscript_change(*syllable, *subscript, root_phonetic@, tone),
{
    match subscript.tibetan {
        // ra subscript
        'ར' => match syllable.root.tibetan {
            'ཀ' | 'ཏ' | 'པ' => ("tra".to_owned(), Tone::HIGH),
            'ཁ' | 'ཐ' | 'ཕ' => ("thra".to_owned(), Tone::HIGH),
            'ག' | 'ད' | 'བ' => match syllable.superscript {
                Some(sup) => if sup.tibetan == 'ས' {
                    ("dra".to_owned(), Tone::LOW)
                } else {
                    ("thra".to_owned(), Tone::LOW)
                },
                None => ("thra".to_owned(), Tone::LOW),
            },
            'ཧ' => ("hra".to_owned(), tone),
            _ => (root_phonetic, tone),
        },
        // la subscript
        'ལ' => match syllable.root.tibetan {
            'ཟ' => ("da".to_owned(), Tone::LOW),
            _ => ("la".to_owned(), Tone::HIGH),
        },
        // ya subscript
        'ཡ' => match syllable.root.tibetan {
            'མ' => ("nya".to_owned(), Tone::LOW),
            'པ' => ("ca".to_owned(), Tone::HIGH),
            'ཕ' => ("cha".to_owned(), Tone::HIGH),
            'བ' => ("cha".to_owned(), Tone::LOW),
            _ => (add_phonetic_ya_subscript(root_phonetic), tone),
        },
        _ => (root_phonetic, tone),
    }
}

/// Returns a phonetic representation of a Tibetan syllable in Latin characters.
pub fn phonetic(syllable: &TibetanSyllable) -> (res: String)
    requires
        syllable.wf(),
    ensures
        res@ == spec_phonetic(*syllable),
{
    let mut root_phonetic: String = syllable.root.phonetic.to_owned();
    let mut diairesis = false;
    let column = syllable.root.column;
    let mut tone = Tone::NONE;
    let mut suffix_phonetic: &str = "";

    // Calculate any change in the root, due to the presence of a prefix or
    // superscript. The subscript stage below may override this change.
    if syllable.prefix.is_some() || syllable.superscript.is_some() {
        if column == Column::THIRD {
            if !syllable.root.phonetic_modified_third_column.is_empty() {
                root_phonetic = syllable.root.phonetic_modified_third_column.to_owned();
            }
        }
        if column == Column::FOURTH {
            tone = Tone::HIGH;
        }
    }
    proof {
        assert(root_phonetic@ == spec_root_sound_after_affixes(*syllable));
        assert(tone == spec_tone_after_affixes(*syllable));
    }

    // Calculate any change in the root, due to the presence of a subscript.
    if let Some(sub) = syllable.subscript {
        let (changed_root, changed_tone) = subscript_phonetic_change(
            syllable,
            &sub,
            root_phonetic,
            tone,
        );
        root_phonetic = changed_root;
        tone = changed_tone;
    }

    // Calculate any change in the vowel, due to the presence of a suffix.
    if let Some(f) = syllable.suffix {
        if is_vowel_changing_suffix(f.tibetan) {
            diairesis = true;
        }
        suffix_phonetic = f.phonetic_as_suffix;
    }

    // Combine the appropriate unicode code points to form the final string.
    let mut phonetic = root_phonetic;
    if diairesis {
        push_char(&mut phonetic, DIAIRESIS_UNICODE_CODE_POINT);
    }
    if tone == Tone::HIGH {
        push_char(&mut phonetic, HIGH_TONE_UNICODE_CODE_POINT);
    }
    if tone == Tone::LOW {
        push_char(&mut phonetic, LOW_TONE_UNICODE_CODE_POINT);
    }
    phonetic.append(suffix_phonetic);
    proof {
        reveal_strlit("");
        assert(phonetic@ =~= spec_phonetic(*syllable));
    }
    phonetic
}

/// A syllable holding only a root composes to exactly the root's identity
/// form, and its phonetic is exactly the root's base romanization: no tone
/// mark, no diaeresis, no suffix sound.
pub proof fn lemma_root_only(s: TibetanSyllable)
    requires
        s.prefix is None,
        s.superscript is None,
        s.subscript is None,
        s.suffix is None,
        s.second_suffix is None,
    ensures
        spec_tibetan(s) == seq![s.root.tibetan],
        spec_phonetic(s) == s.root.phonetic@,
{
    assert(spec_tibetan(s) =~= seq![s.root.tibetan]);
    assert(spec_phonetic(s) =~= s.root.phonetic@);
}

/// Purity: both renderings are functions of the syllable value alone, so two
/// calls on the same syllable yield identical output.
pub proof fn lemma_outputs_deterministic(
    s: TibetanSyllable,
    t1: Seq<char>,
    t2: Seq<char>,
    p1: Seq<char>,
    p2: Seq<char>,
)
    requires
        t1 == spec_tibetan(s),
        t2 == spec_tibetan(s),
        p1 == spec_phonetic(s),
        p2 == spec_phonetic(s),
    ensures
        t1 == t2,
        p1 == p2,
{
}

/// Stacking order: with all six slots present, the Unicode output is the
/// prefix, the superscript, the subjoined root, the subjoined subscript, the
/// suffix and the second suffix, in that exact order, whatever letters the
/// slots hold.
pub proof fn lemma_stacking_order(
    s: TibetanSyllable,
    p: TibetanCharacter,
    sup: TibetanCharacter,
    sub: TibetanCharacter,
    f1: TibetanCharacter,
    f2: TibetanCharacter,
)
    requires
        s.prefix == Some(p),
        s.superscript == Some(sup),
        s.subscript == Some(sub),
        s.suffix == Some(f1),
        s.second_suffix == Some(f2),
    ensures
        spec_tibetan(s) == seq![
            p.tibetan,
            sup.tibetan,
            s.root.subjoined,
            sub.subjoined,
            f1.tibetan,
            f2.tibetan,
        ],
{
    assert(spec_tibetan(s) =~= seq![
        p.tibetan,
        sup.tibetan,
        s.root.subjoined,
        sub.subjoined,
        f1.tibetan,
        f2.tibetan,
    ]);
}

} // verus!

