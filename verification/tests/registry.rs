use tibetan_pronunciation::tibetan_calculator::generate_tibetan_character_map;
use tibetan_pronunciation::tibetan_data::{Column, TibetanSyllable};

#[test]
fn lookup_finds_table_entry() {
    let roots = generate_tibetan_character_map();
    let ka = roots.get('ཀ').unwrap();
    assert_eq!('ཀ', ka.tibetan);
    assert_eq!('\u{0F90}', ka.subjoined);
    assert_eq!("ka", ka.phonetic);
    assert_eq!(Column::FIRST, ka.column);
    let ga = roots.get('ག').unwrap();
    assert_eq!("kha", ga.phonetic);
    assert_eq!("ga", ga.phonetic_modified_third_column);
    assert_eq!("k", ga.phonetic_as_suffix);
    assert_eq!(Column::THIRD, ga.column);
}

#[test]
fn lookup_misses_unknown_code_point() {
    let roots = generate_tibetan_character_map();
    assert!(roots.get('a').is_none());
    assert!(roots.get('\u{0F7C}').is_none());
}

#[test]
fn catalogue_holds_the_thirty_letters_in_order() {
    let roots = generate_tibetan_character_map();
    let all = roots.all();
    assert_eq!(30, all.len());
    assert_eq!('ཀ', all[0].tibetan);
    assert_eq!('ཨ', all[29].tibetan);
}

#[test]
fn available_subscripts_follow_table() {
    let roots = generate_tibetan_character_map();
    assert_eq!(vec!['ར', 'ལ', 'ཡ'], roots.get('ག').unwrap().available_subscripts());
    assert_eq!(vec!['ར'], roots.get('ཏ').unwrap().available_subscripts());
    assert_eq!(vec!['ལ'], roots.get('ཟ').unwrap().available_subscripts());
    assert!(roots.get('ང').unwrap().available_subscripts().is_empty());
}

#[test]
fn syllable_without_root_is_rejected() {
    let roots = generate_tibetan_character_map();
    let ra = *roots.get('ར').unwrap();
    assert!(TibetanSyllable::new(None, None, None, Some(ra), None, None).is_none());
    let built = TibetanSyllable::new(Some(ra), None, None, None, None, None);
    assert_eq!('ར', built.unwrap().root.tibetan);
}
