use tibetan_pronunciation::tibetan_calculator::{generate_tibetan_character_map, phonetic, tibetan};
use tibetan_pronunciation::tibetan_data::TibetanSyllable;

fn syllable(
    root: char,
    prefix: Option<char>,
    superscript: Option<char>,
    subscript: Option<char>,
    suffix: Option<char>,
    second_suffix: Option<char>,
) -> TibetanSyllable {
    let roots = generate_tibetan_character_map();
    TibetanSyllable {
        root: *roots.get(root).unwrap(),
        prefix: prefix.map(|c| *roots.get(c).unwrap()),
        superscript: superscript.map(|c| *roots.get(c).unwrap()),
        subscript: subscript.map(|c| *roots.get(c).unwrap()),
        suffix: suffix.map(|c| *roots.get(c).unwrap()),
        second_suffix: second_suffix.map(|c| *roots.get(c).unwrap()),
    }
}

#[test]
fn root_only_is_identity_and_base_phonetic() {
    let s = syllable('ཀ', None, None, None, None, None);
    assert_eq!("ཀ", tibetan(&s));
    assert_eq!("ka", phonetic(&s));
}

#[test]
fn both_renderings_are_pure() {
    let s = syllable('ཏ', None, None, Some('ར'), None, None);
    assert_eq!(tibetan(&s), tibetan(&s));
    assert_eq!(phonetic(&s), phonetic(&s));
}

#[test]
fn stacking_order_with_all_slots() {
    let s = syllable('ག', Some('མ'), Some('ས'), Some('ར'), Some('ལ'), Some('ས'));
    assert_eq!("མསྒྲལས", tibetan(&s));
    assert_eq!("dra\u{308}\u{300}l", phonetic(&s));
}

#[test]
fn subscript_ra_first_column_stops() {
    let s = syllable('པ', None, None, Some('ར'), None, None);
    assert_eq!("པྲ", tibetan(&s));
    assert_eq!("tra\u{301}", phonetic(&s));
}

#[test]
fn subscript_ra_aspirates() {
    let s = syllable('ཁ', None, None, Some('ར'), None, None);
    assert_eq!("ཁྲ", tibetan(&s));
    assert_eq!("thra\u{301}", phonetic(&s));
}

#[test]
fn subscript_ra_voiced_without_sa_superscript() {
    let s = syllable('ད', None, None, Some('ར'), None, None);
    assert_eq!("དྲ", tibetan(&s));
    assert_eq!("thra\u{300}", phonetic(&s));
}

#[test]
fn subscript_ra_voiced_with_prefix_but_no_superscript() {
    let s = syllable('ད', Some('འ'), None, Some('ར'), None, None);
    assert_eq!("འདྲ", tibetan(&s));
    assert_eq!("thra\u{300}", phonetic(&s));
}

#[test]
fn subscript_ra_voiced_with_sa_superscript() {
    let s = syllable('བ', None, Some('ས'), Some('ར'), None, None);
    assert_eq!("སྦྲ", tibetan(&s));
    assert_eq!("dra\u{300}", phonetic(&s));
}

#[test]
fn subscript_ra_on_ha_keeps_tone() {
    let s = syllable('ཧ', None, None, Some('ར'), None, None);
    assert_eq!("ཧྲ", tibetan(&s));
    assert_eq!("hra", phonetic(&s));
}

#[test]
fn subscript_ra_on_other_root_passes_through() {
    let s = syllable('ས', None, None, Some('ར'), None, None);
    assert_eq!("སྲ", tibetan(&s));
    assert_eq!("sa", phonetic(&s));
}

#[test]
fn subscript_la_on_za() {
    let s = syllable('ཟ', None, None, Some('ལ'), None, None);
    assert_eq!("ཟླ", tibetan(&s));
    assert_eq!("da\u{300}", phonetic(&s));
}

#[test]
fn subscript_la_on_other_root() {
    let s = syllable('ཀ', None, None, Some('ལ'), None, None);
    assert_eq!("ཀླ", tibetan(&s));
    assert_eq!("la\u{301}", phonetic(&s));
}

#[test]
fn subscript_ya_irregular_forms() {
    assert_eq!("nya\u{300}", phonetic(&syllable('མ', None, None, Some('ཡ'), None, None)));
    assert_eq!("ca\u{301}", phonetic(&syllable('པ', None, None, Some('ཡ'), None, None)));
    assert_eq!("cha\u{301}", phonetic(&syllable('ཕ', None, None, Some('ཡ'), None, None)));
    assert_eq!("cha\u{300}", phonetic(&syllable('བ', None, None, Some('ཡ'), None, None)));
}

#[test]
fn subscript_ya_generic_glide() {
    assert_eq!("kya", phonetic(&syllable('ཀ', None, None, Some('ཡ'), None, None)));
    assert_eq!("hya", phonetic(&syllable('ཧ', None, None, Some('ཡ'), None, None)));
}

#[test]
fn superscript_gives_fourth_column_high_tone() {
    let s = syllable('མ', None, Some('ས'), None, None, None);
    assert_eq!("སྨ", tibetan(&s));
    assert_eq!("ma\u{301}", phonetic(&s));
}

#[test]
fn prefix_voices_third_column_root() {
    let s = syllable('ག', Some('མ'), None, None, None, None);
    assert_eq!("མག", tibetan(&s));
    assert_eq!("ga", phonetic(&s));
}

#[test]
fn prefix_gives_fourth_column_high_tone() {
    let s = syllable('ང', Some('ད'), None, None, None, None);
    assert_eq!("དང", tibetan(&s));
    assert_eq!("nga\u{301}", phonetic(&s));
}

#[test]
fn prefix_leaves_first_column_root_unchanged() {
    let s = syllable('ཀ', Some('མ'), None, None, None, None);
    assert_eq!("མཀ", tibetan(&s));
    assert_eq!("ka", phonetic(&s));
}

#[test]
fn suffix_adds_sound_without_vowel_change() {
    let s = syllable('ཀ', None, None, None, Some('ག'), None);
    assert_eq!("ཀག", tibetan(&s));
    assert_eq!("kak", phonetic(&s));
}

#[test]
fn vowel_changing_suffixes_add_diairesis() {
    assert_eq!("ka\u{308}", phonetic(&syllable('ཀ', None, None, None, Some('ད'), None)));
    assert_eq!("ka\u{308}n", phonetic(&syllable('ཀ', None, None, None, Some('ན'), None)));
    assert_eq!("ka\u{308}l", phonetic(&syllable('ཀ', None, None, None, Some('ལ'), None)));
    assert_eq!("ka\u{308}", phonetic(&syllable('ཀ', None, None, None, Some('ས'), None)));
}

#[test]
fn plain_suffixes_keep_vowel() {
    assert_eq!("kar", phonetic(&syllable('ཀ', None, None, None, Some('ར'), None)));
    assert_eq!("kam", phonetic(&syllable('ཀ', None, None, None, Some('མ'), None)));
    assert_eq!("ka", phonetic(&syllable('ཀ', None, None, None, Some('འ'), None)));
}

#[test]
fn second_suffix_is_orthographic_only() {
    let s = syllable('ཀ', None, None, None, Some('མ'), Some('ས'));
    assert_eq!("ཀམས", tibetan(&s));
    assert_eq!("kam", phonetic(&s));
}
