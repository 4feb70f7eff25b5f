//! The character registry: every Tibetan consonant letter usable in a
//! syllable slot, with its Unicode forms and phonetic metadata.

use vstd::prelude::*;

verus! {

/// Combining diaeresis, added to the phonetic vowel when the suffix alters
/// vowel quality.
pub const DIAIRESIS_UNICODE_CODE_POINT: char = '\u{0308}';

/// Combining acute accent, marking a high tone in the phonetic output.
pub const HIGH_TONE_UNICODE_CODE_POINT: char = '\u{0301}';

/// Combining grave accent, marking a low tone in the phonetic output.
pub const LOW_TONE_UNICODE_CODE_POINT: char = '\u{0300}';

/// The suffix letters that alter the vowel quality of the syllable: da, na,
/// la and sa. A syllable closed by one of them takes a diaeresis.
pub open spec fn spec_is_vowel_changing_suffix(c: char) -> bool {
    c == 'ད' || c == 'ན' || c == 'ལ' || c == 'ས'
}

/// Whether a suffix letter alters the vowel quality of the syllable.
pub fn is_vowel_changing_suffix(c: char) -> (r: bool)
    ensures
        r == spec_is_vowel_changing_suffix(c),
{
    c == 'ད' || c == 'ན' || c == 'ལ' || c == 'ས'
}

/// Classification of a root letter, governing how a prefix or superscript
/// mutates its pronunciation: a third-column root may get a voiced sound
/// override, a fourth-column root receives a high tone.
#[derive(Clone, Copy, Debug, PartialEq, Eq, Structural)]
#[allow(non_camel_case_types)]
pub enum Column {
    FIRST,
    SECOND,
    THIRD,
    FOURTH,
}

/// Pitch of a syllable, derived during phonetic transduction and rendered as
/// a combining mark in the phonetic output.
#[derive(Clone, Copy, Debug, PartialEq, Eq, Structural)]
#[allow(non_camel_case_types)]
pub enum Tone {
    NONE,
    HIGH,
    LOW,
}

/// One Tibetan consonant letter, as the registry describes it.
#[derive(Clone, Copy, Debug)]
pub struct TibetanCharacter {
    /// The letter as displayed standalone (its identity code point).
    pub tibetan: char,
    /// The subjoined form, used when the letter stands below another in a
    /// stack (as a root under a superscript, or as a subscript letter).
    pub subjoined: char,
    /// Default romanization when the letter acts as root.
    pub phonetic: &'static str,
    /// Alternate romanization, used only for a third-column root preceded by
    /// a prefix or superscript; empty when the letter has no override.
    pub phonetic_modified_third_column: &'static str,
    /// Romanization appended when the letter acts as a suffix.
    pub phonetic_as_suffix: &'static str,
    /// Column classification deciding prefix/superscript mutation.
    pub column: Column,
    /// Whether the letter, as a root, admits a ra subscript.
    pub allows_subscript_ra: bool,
    /// Whether the letter, as a root, admits a la subscript.
    pub allows_subscript_la: bool,
    /// Whether the letter, as a root, admits a ya subscript.
    pub allows_subscript_ya: bool,
}

impl TibetanCharacter {
    /// A registry entry always carries a non-empty base romanization.
    pub open spec fn wf(self) -> bool {
        self.phonetic@.len() >= 1
    }

    /// The subscripts among {ra, la, ya} that this letter admits as a root.
    pub open spec fn spec_available_subscripts(self) -> Seq<char> {
        (if self.allows_subscript_ra {
            seq!['ར']
        } else {
            Seq::<char>::empty()
        }) + (if self.allows_subscript_la {
            seq!['ལ']
        } else {
            Seq::<char>::empty()
        }) + (if self.allows_subscript_ya {
            seq!['ཡ']
        } else {
            Seq::<char>::empty()
        })
    }

    /// The subscript letters that may stand below this letter as a root,
    /// for the caller to offer as choices.
    pub fn available_subscripts(&self) -> (res: Vec<char>)
        ensures
            res@ == self.spec_available_subscripts(),
    {
        let mut v: Vec<char> = Vec::new();
        if self.allows_subscript_ra {
            v.push('ར');
        }
        if self.allows_subscript_la {
            v.push('ལ');
        }
        if self.allows_subscript_ya {
            v.push('ཡ');
        }
        proof {
            assert(v@ =~= self.spec_available_subscripts());
        }
        v
    }
}

/// One attempted pronunciation unit: a mandatory root and five optional
/// slots around it. All characters are registry entries.
#[derive(Clone, Copy, Debug)]
pub struct TibetanSyllable {
    pub root: TibetanCharacter,
    pub prefix: Option<TibetanCharacter>,
    pub superscript: Option<TibetanCharacter>,
    pub subscript: Option<TibetanCharacter>,
    pub suffix: Option<TibetanCharacter>,
    pub second_suffix: Option<TibetanCharacter>,
}

impl TibetanSyllable {
    /// A syllable is well formed when its root is a well-formed registry
    /// entry; the optional slots need nothing beyond their presence.
    pub open spec fn wf(self) -> bool {
        self.root.wf()
    }

    /// Builds a syllable from the six slots, rejecting the request when no
    /// root was selected: without a root there is nothing to pronounce.
    pub fn new(
        root: Option<TibetanCharacter>,
        prefix: Option<TibetanCharacter>,
        superscript: Option<TibetanCharacter>,
        subscript: Option<TibetanCharacter>,
        suffix: Option<TibetanCharacter>,
        second_suffix: Option<TibetanCharacter>,
    ) -> (res: Option<TibetanSyllable>)
        ensures
            res is Some <==> root is Some,
            root matches Some(r) ==> res == Some(
                TibetanSyllable { root: r, prefix, superscript, subscript, suffix, second_suffix },
            ),
    {
        match root {
            Some(r) => Some(
                TibetanSyllable { root: r, prefix, superscript, subscript, suffix, second_suffix },
            ),
            None => None,
        }
    }
}

/// The fixed character table: the thirty Tibetan consonant letters, in
/// alphabetical order, each with its subjoined form, romanizations, column
/// and the subscripts it admits as a root.
pub open spec fn spec_roots() -> Seq<TibetanCharacter> {
    seq![
        TibetanCharacter {
            tibetan: 'ཀ',
            subjoined: '\u{0F90}',
            phonetic: "ka",
            phonetic_modified_third_column: "",
            phonetic_as_suffix: "",
            column: Column::FIRST,
            allows_subscript_ra: true,
            allows_subscript_la: true,
            allows_subscript_ya: true,
        },
        TibetanCharacter {
            tibetan: 'ཁ',
            subjoined: '\u{0F91}',
            phonetic: "kha",
            phonetic_modified_third_column: "",
            phonetic_as_suffix: "",
            column: Column::SECOND,
            allows_subscript_ra: true,
            allows_subscript_la: false,
            allows_subscript_ya: true,
        },
        TibetanCharacter {
            tibetan: 'ག',
            subjoined: '\u{0F92}',
            phonetic: "kha",
            phonetic_modified_third_column: "ga",
            phonetic_as_suffix: "k",
            column: Column::THIRD,
            allows_subscript_ra: true,
            allows_subscript_la: true,
            allows_subscript_ya: true,
        },
        TibetanCharacter {
            tibetan: 'ང',
            subjoined: '\u{0F94}',
            phonetic: "nga",
            phonetic_modified_third_column: "",
            phonetic_as_suffix: "ng",
            column: Column::FOURTH,
            allows_subscript_ra: false,
            allows_subscript_la: false,
            allows_subscript_ya: false,
        },
        TibetanCharacter {
            tibetan: 'ཅ',
            subjoined: '\u{0F95}',
            phonetic: "ca",
            phonetic_modified_third_column: "",
            phonetic_as_suffix: "",
            column: Column::FIRST,
            allows_subscript_ra: false,
            allows_subscript_la: false,
            allows_subscript_ya: false,
        },
        TibetanCharacter {
            tibetan: 'ཆ',
            subjoined: '\u{0F96}',
            phonetic: "cha",
            phonetic_modified_third_column: "",
            phonetic_as_suffix: "",
            column: Column::SECOND,
            allows_subscript_ra: false,
            allows_subscript_la: false,
            allows_subscript_ya: false,
        },
        TibetanCharacter {
            tibetan: 'ཇ',
            subjoined: '\u{0F97}',
            phonetic: "cha",
            phonetic_modified_third_column: "ja",
            phonetic_as_suffix: "",
            column: Column::THIRD,
            allows_subscript_ra: false,
            allows_subscript_la: false,
            allows_subscript_ya: false,
        },
        TibetanCharacter {
            tibetan: 'ཉ',
            subjoined: '\u{0F99}',
            phonetic: "nya",
            phonetic_modified_third_column: "",
            phonetic_as_suffix: "",
            column: Column::FOURTH,
            allows_subscript_ra: false,
            allows_subscript_la: false,
            allows_subscript_ya: false,
        },
        TibetanCharacter {
            tibetan: 'ཏ',
            subjoined: '\u{0F9F}',
            phonetic: "ta",
            phonetic_modified_third_column: "",
            phonetic_as_suffix: "",
            column: Column::FIRST,
            allows_subscript_ra: true,
            allows_subscript_la: false,
            allows_subscript_ya: false,
        },
        TibetanCharacter {
            tibetan: 'ཐ',
            subjoined: '\u{0FA0}',
            phonetic: "tha",
            phonetic_modified_third_column: "",
            phonetic_as_suffix: "",
            column: Column::SECOND,
            allows_subscript_ra: true,
            allows_subscript_la: false,
            allows_subscript_ya: false,
        },
        TibetanCharacter {
            tibetan: 'ད',
            subjoined: '\u{0FA1}',
            phonetic: "tha",
            phonetic_modified_third_column: "da",
            phonetic_as_suffix: "",
            column: Column::THIRD,
            allows_subscript_ra: true,
            allows_subscript_la: false,
            allows_subscript_ya: false,
        },
        TibetanCharacter {
            tibetan: 'ན',
            subjoined: '\u{0FA3}',
            phonetic: "na",
            phonetic_modified_third_column: "",
            phonetic_as_suffix: "n",
            column: Column::FOURTH,
            allows_subscript_ra: false,
            allows_subscript_la: false,
            allows_subscript_ya: false,
        },
        TibetanCharacter {
            tibetan: 'པ',
            subjoined: '\u{0FA4}',
            phonetic: "pa",
            phonetic_modified_third_column: "",
            phonetic_as_suffix: "",
            column: Column::FIRST,
            allows_subscript_ra: true,
            allows_subscript_la: false,
            allows_subscript_ya: true,
        },
        TibetanCharacter {
            tibetan: 'ཕ',
            subjoined: '\u{0FA5}',
            phonetic: "pha",
            phonetic_modified_third_column: "",
            phonetic_as_suffix: "",
            column: Column::SECOND,
            allows_subscript_ra: true,
            allows_subscript_la: false,
            allows_subscript_ya: true,
        },
        TibetanCharacter {
            tibetan: 'བ',
            subjoined: '\u{0FA6}',
            phonetic: "pha",
            phonetic_modified_third_column: "ba",
            phonetic_as_suffix: "p",
            column: Column::THIRD,
            allows_subscript_ra: true,
            allows_subscript_la: true,
            allows_subscript_ya: true,
        },
        TibetanCharacter {
            tibetan: 'མ',
            subjoined: '\u{0FA8}',
            phonetic: "ma",
            phonetic_modified_third_column: "",
            phonetic_as_suffix: "m",
            column: Column::FOURTH,
            allows_subscript_ra: true,
            allows_subscript_la: false,
            allows_subscript_ya: true,
        },
        TibetanCharacter {
            tibetan: 'ཙ',
            subjoined: '\u{0FA9}',
            phonetic: "tsa",
            phonetic_modified_third_column: "",
            phonetic_as_suffix: "",
            column: Column::FIRST,
            allows_subscript_ra: false,
            allows_subscript_la: false,
            allows_subscript_ya: false,
        },
        TibetanCharacter {
            tibetan: 'ཚ',
            subjoined: '\u{0FAA}',
            phonetic: "tsha",
            phonetic_modified_third_column: "",
            phonetic_as_suffix: "",
            column: Column::SECOND,
            allows_subscript_ra: false,
            allows_subscript_la: false,
            allows_subscript_ya: false,
        },
        TibetanCharacter {
            tibetan: 'ཛ',
            subjoined: '\u{0FAB}',
            phonetic: "tsha",
            phonetic_modified_third_column: "dza",
            phonetic_as_suffix: "",
            column: Column::THIRD,
            allows_subscript_ra: false,
            allows_subscript_la: false,
            allows_subscript_ya: false,
        },
        TibetanCharacter {
            tibetan: 'ཝ',
            subjoined: '\u{0FAD}',
            phonetic: "wa",
            phonetic_modified_third_column: "",
            phonetic_as_suffix: "",
            column: Column::FOURTH,
            allows_subscript_ra: false,
            allows_subscript_la: false,
            allows_subscript_ya: false,
        },
        TibetanCharacter {
            tibetan: 'ཞ',
            subjoined: '\u{0FAE}',
            phonetic: "sha",
            phonetic_modified_third_column: "zha",
            phonetic_as_suffix: "",
            column: Column::THIRD,
            allows_subscript_ra: false,
            allows_subscript_la: false,
            allows_subscript_ya: false,
        },
        TibetanCharacter {
            tibetan: 'ཟ',
            subjoined: '\u{0FAF}',
            phonetic: "sa",
            phonetic_modified_third_column: "za",
            phonetic_as_suffix: "",
            column: Column::THIRD,
            allows_subscript_ra: false,
            allows_subscript_la: true,
            allows_subscript_ya: false,
        },
        TibetanCharacter {
            tibetan: 'འ',
            subjoined: '\u{0FB0}',
            phonetic: "a",
            phonetic_modified_third_column: "",
            phonetic_as_suffix: "",
            column: Column::THIRD,
            allows_subscript_ra: false,
            allows_subscript_la: false,
            allows_subscript_ya: false,
        },
        TibetanCharacter {
            tibetan: 'ཡ',
            subjoined: '\u{0FB1}',
            phonetic: "ya",
            phonetic_modified_third_column: "",
            phonetic_as_suffix: "",
            column: Column::FOURTH,
            allows_subscript_ra: false,
            allows_subscript_la: false,
            allows_subscript_ya: false,
        },
        TibetanCharacter {
            tibetan: 'ར',
            subjoined: '\u{0FB2}',
            phonetic: "ra",
            phonetic_modified_third_column: "",
            phonetic_as_suffix: "r",
            column: Column::FOURTH,
            allows_subscript_ra: false,
            allows_subscript_la: true,
            allows_subscript_ya: false,
        },
        TibetanCharacter {
            tibetan: 'ལ',
            subjoined: '\u{0FB3}',
            phonetic: "la",
            phonetic_modified_third_column: "",
            phonetic_as_suffix: "l",
            column: Column::FOURTH,
            allows_subscript_ra: false,
            allows_subscript_la: false,
            allows_subscript_ya: false,
        },
        TibetanCharacter {
            tibetan: 'ཤ',
            subjoined: '\u{0FB4}',
            phonetic: "sha",
            phonetic_modified_third_column: "",
            phonetic_as_suffix: "",
            column: Column::FIRST,
            allows_subscript_ra: false,
            allows_subscript_la: false,
            allows_subscript_ya: false,
        },
        TibetanCharacter {
            tibetan: 'ས',
            subjoined: '\u{0FB6}',
            phonetic: "sa",
            phonetic_modified_third_column: "",
            phonetic_as_suffix: "",
            column: Column::FIRST,
            allows_subscript_ra: true,
            allows_subscript_la: true,
            allows_subscript_ya: false,
        },
        TibetanCharacter {
            tibetan: 'ཧ',
            subjoined: '\u{0FB7}',
            phonetic: "ha",
            phonetic_modified_third_column: "",
            phonetic_as_suffix: "",
            column: Column::FIRST,
            allows_subscript_ra: true,
            allows_subscript_la: false,
            allows_subscript_ya: true,
        },
        TibetanCharacter {
            tibetan: 'ཨ',
            subjoined: '\u{0FB8}',
            phonetic: "a",
            phonetic_modified_third_column: "",
            phonetic_as_suffix: "",
            column: Column::FIRST,
            allows_subscript_ra: false,
            allows_subscript_la: false,
            allows_subscript_ya: false,
        },
    ]
}

/// The fixed character table as a vector, in the registry's order.
fn roots() -> (v: Vec<TibetanCharacter>)
    ensures
        v@ == spec_roots(),
{
    let v: Vec<TibetanCharacter> = vec![
        TibetanCharacter {
            tibetan: 'ཀ',
            subjoined: '\u{0F90}',
            phonetic: "ka",
            phonetic_modified_third_column: "",
            phonetic_as_suffix: "",
            column: Column::FIRST,
            allows_subscript_ra: true,
            allows_subscript_la: true,
            allows_subscript_ya: true,
        },
        TibetanCharacter {
            tibetan: 'ཁ',
            subjoined: '\u{0F91}',
            phonetic: "kha",
            phonetic_modified_third_column: "",
            phonetic_as_suffix: "",
            column: Column::SECOND,
            allows_subscript_ra: true,
            allows_subscript_la: false,
            allows_subscript_ya: true,
        },
        TibetanCharacter {
            tibetan: 'ག',
            subjoined: '\u{0F92}',
            phonetic: "kha",
            phonetic_modified_third_column: "ga",
            phonetic_as_suffix: "k",
            column: Column::THIRD,
            allows_subscript_ra: true,
            allows_subscript_la: true,
            allows_subscript_ya: true,
        },
        TibetanCharacter {
            tibetan: 'ང',
            subjoined: '\u{0F94}',
            phonetic: "nga",
            phonetic_modified_third_column: "",
            phonetic_as_suffix: "ng",
            column: Column::FOURTH,
            allows_subscript_ra: false,
            allows_subscript_la: false,
            allows_subscript_ya: false,
        },
        TibetanCharacter {
            tibetan: 'ཅ',
            subjoined: '\u{0F95}',
            phonetic: "ca",
            phonetic_modified_third_column: "",
            phonetic_as_suffix: "",
            column: Column::FIRST,
            allows_subscript_ra: false,
            allows_subscript_la: false,
            allows_subscript_ya: false,
        },
        TibetanCharacter {
            tibetan: 'ཆ',
            subjoined: '\u{0F96}',
            phonetic: "cha",
            phonetic_modified_third_column: "",
            phonetic_as_suffix: "",
            column: Column::SECOND,
            allows_subscript_ra: false,
            allows_subscript_la: false,
            allows_subscript_ya: false,
        },
        TibetanCharacter {
            tibetan: 'ཇ',
            subjoined: '\u{0F97}',
            phonetic: "cha",
            phonetic_modified_third_column: "ja",
            phonetic_as_suffix: "",
            column: Column::THIRD,
            allows_subscript_ra: false,
            allows_subscript_la: false,
            allows_subscript_ya: false,
        },
        TibetanCharacter {
            tibetan: 'ཉ',
            subjoined: '\u{0F99}',
            phonetic: "nya",
            phonetic_modified_third_column: "",
            phonetic_as_suffix: "",
            column: Column::FOURTH,
            allows_subscript_ra: false,
            allows_subscript_la: false,
            allows_subscript_ya: false,
        },
        TibetanCharacter {
            tibetan: 'ཏ',
            subjoined: '\u{0F9F}',
            phonetic: "ta",
            phonetic_modified_third_column: "",
            phonetic_as_suffix: "",
            column: Column::FIRST,
            allows_subscript_ra: true,
            allows_subscript_la: false,
            allows_subscript_ya: false,
        },
        TibetanCharacter {
            tibetan: 'ཐ',
            subjoined: '\u{0FA0}',
            phonetic: "tha",
            phonetic_modified_third_column: "",
            phonetic_as_suffix: "",
            column: Column::SECOND,
            allows_subscript_ra: true,
            allows_subscript_la: false,
            allows_subscript_ya: false,
        },
        TibetanCharacter {
            tibetan: 'ད',
            subjoined: '\u{0FA1}',
            phonetic: "tha",
            phonetic_modified_third_column: "da",
            phonetic_as_suffix: "",
            column: Column::THIRD,
            allows_subscript_ra: true,
            allows_subscript_la: false,
            allows_subscript_ya: false,
        },
        TibetanCharacter {
            tibetan: 'ན',
            subjoined: '\u{0FA3}',
            phonetic: "na",
            phonetic_modified_third_column: "",
            phonetic_as_suffix: "n",
            column: Column::FOURTH,
            allows_subscript_ra: false,
            allows_subscript_la: false,
            allows_subscript_ya: false,
        },
        TibetanCharacter {
            tibetan: 'པ',
            subjoined: '\u{0FA4}',
            phonetic: "pa",
            phonetic_modified_third_column: "",
            phonetic_as_suffix: "",
            column: Column::FIRST,
            allows_subscript_ra: true,
            allows_subscript_la: false,
            allows_subscript_ya: true,
        },
        TibetanCharacter {
            tibetan: 'ཕ',
            subjoined: '\u{0FA5}',
            phonetic: "pha",
            phonetic_modified_third_column: "",
            phonetic_as_suffix: "",
            column: Column::SECOND,
            allows_subscript_ra: true,
            allows_subscript_la: false,
            allows_subscript_ya: true,
        },
        TibetanCharacter {
            tibetan: 'བ',
            subjoined: '\u{0FA6}',
            phonetic: "pha",
            phonetic_modified_third_column: "ba",
            phonetic_as_suffix: "p",
            column: Column::THIRD,
            allows_subscript_ra: true,
            allows_subscript_la: true,
            allows_subscript_ya: true,
        },
        TibetanCharacter {
            tibetan: 'མ',
            subjoined: '\u{0FA8}',
            phonetic: "ma",
            phonetic_modified_third_column: "",
            phonetic_as_suffix: "m",
            column: Column::FOURTH,
            allows_subscript_ra: true,
            allows_subscript_la: false,
            allows_subscript_ya: true,
        },
        TibetanCharacter {
            tibetan: 'ཙ',
            subjoined: '\u{0FA9}',
            phonetic: "tsa",
            phonetic_modified_third_column: "",
            phonetic_as_suffix: "",
            column: Column::FIRST,
            allows_subscript_ra: false,
            allows_subscript_la: false,
            allows_subscript_ya: false,
        },
        TibetanCharacter {
            tibetan: 'ཚ',
            subjoined: '\u{0FAA}',
            phonetic: "tsha",
            phonetic_modified_third_column: "",
            phonetic_as_suffix: "",
            column: Column::SECOND,
            allows_subscript_ra: false,
            allows_subscript_la: false,
            allows_subscript_ya: false,
        },
        TibetanCharacter {
            tibetan: 'ཛ',
            subjoined: '\u{0FAB}',
            phonetic: "tsha",
            phonetic_modified_third_column: "dza",
            phonetic_as_suffix: "",
            column: Column::THIRD,
            allows_subscript_ra: false,
            allows_subscript_la: false,
            allows_subscript_ya: false,
        },
        TibetanCharacter {
            tibetan: 'ཝ',
            subjoined: '\u{0FAD}',
            phonetic: "wa",
            phonetic_modified_third_column: "",
            phonetic_as_suffix: "",
            column: Column::FOURTH,
            allows_subscript_ra: false,
            allows_subscript_la: false,
            allows_subscript_ya: false,
        },
        TibetanCharacter {
            tibetan: 'ཞ',
            subjoined: '\u{0FAE}',
            phonetic: "sha",
            phonetic_modified_third_column: "zha",
            phonetic_as_suffix: "",
            column: Column::THIRD,
            allows_subscript_ra: false,
            allows_subscript_la: false,
            allows_subscript_ya: false,
        },
        TibetanCharacter {
            tibetan: 'ཟ',
            subjoined: '\u{0FAF}',
            phonetic: "sa",
            phonetic_modified_third_column: "za",
            phonetic_as_suffix: "",
            column: Column::THIRD,
            allows_subscript_ra: false,
            allows_subscript_la: true,
            allows_subscript_ya: false,
        },
        TibetanCharacter {
            tibetan: 'འ',
            subjoined: '\u{0FB0}',
            phonetic: "a",
            phonetic_modified_third_column: "",
            phonetic_as_suffix: "",
            column: Column::THIRD,
            allows_subscript_ra: false,
            allows_subscript_la: false,
            allows_subscript_ya: false,
        },
        TibetanCharacter {
            tibetan: 'ཡ',
            subjoined: '\u{0FB1}',
            phonetic: "ya",
            phonetic_modified_third_column: "",
            phonetic_as_suffix: "",
            column: Column::FOURTH,
            allows_subscript_ra: false,
            allows_subscript_la: false,
            allows_subscript_ya: false,
        },
        TibetanCharacter {
            tibetan: 'ར',
            subjoined: '\u{0FB2}',
            phonetic: "ra",
            phonetic_modified_third_column: "",
            phonetic_as_suffix: "r",
            column: Column::FOURTH,
            allows_subscript_ra: false,
            allows_subscript_la: true,
            allows_subscript_ya: false,
        },
        TibetanCharacter {
            tibetan: 'ལ',
            subjoined: '\u{0FB3}',
            phonetic: "la",
            phonetic_modified_third_column: "",
            phonetic_as_suffix: "l",
            column: Column::FOURTH,
            allows_subscript_ra: false,
            allows_subscript_la: false,
            allows_subscript_ya: false,
        },
        TibetanCharacter {
            tibetan: 'ཤ',
            subjoined: '\u{0FB4}',
            phonetic: "sha",
            phonetic_modified_third_column: "",
            phonetic_as_suffix: "",
            column: Column::FIRST,
            allows_subscript_ra: false,
            allows_subscript_la: false,
            allows_subscript_ya: false,
        },
        TibetanCharacter {
            tibetan: 'ས',
            subjoined: '\u{0FB6}',
            phonetic: "sa",
            phonetic_modified_third_column: "",
            phonetic_as_suffix: "",
            column: Column::FIRST,
            allows_subscript_ra: true,
            allows_subscript_la: true,
            allows_subscript_ya: false,
        },
        TibetanCharacter {
            tibetan: 'ཧ',
            subjoined: '\u{0FB7}',
            phonetic: "ha",
            phonetic_modified_third_column: "",
            phonetic_as_suffix: "",
            column: Column::FIRST,
            allows_subscript_ra: true,
            allows_subscript_la: false,
            allows_subscript_ya: true,
        },
        TibetanCharacter {
            tibetan: 'ཨ',
            subjoined: '\u{0FB8}',
            phonetic: "a",
            phonetic_modified_third_column: "",
            phonetic_as_suffix: "",
            column: Column::FIRST,
            allows_subscript_ra: false,
            allows_subscript_la: false,
            allows_subscript_ya: false,
        },
    ];
    proof {
        assert(v@ =~= spec_roots());
    }
    v
}

/// The character whose identity form equals the given code point: the first
/// table entry with that identity, or nothing when the table has none.
pub open spec fn spec_lookup(table: Seq<TibetanCharacter>, tibetan: char) -> Option<
    TibetanCharacter,
>
    decreases table.len(),
{
    if table.len() == 0 {
        None
    } else if table[0].tibetan == tibetan {
        Some(table[0])
    } else {
        spec_lookup(table.drop_first(), tibetan)
    }
}

/// The character registry: the fixed, ordered catalogue of the Tibetan
/// consonant letters, looked up by identity code point.
pub struct TibetanCharacterMap {
    characters: Vec<TibetanCharacter>,
}

impl View for TibetanCharacterMap {
    type V = Seq<TibetanCharacter>;

    closed spec fn view(&self) -> Seq<TibetanCharacter> {
        self.characters@
    }
}

impl TibetanCharacterMap {
    /// Builds the registry holding the fixed character table.
    pub fn new() -> (m: TibetanCharacterMap)
        ensures
            m@ == spec_roots(),
    {
        let characters: Vec<TibetanCharacter> = roots();
        TibetanCharacterMap { characters }
    }

    /// Looks a character up by its identity code point; an unknown code
    /// point yields nothing, never an error.
    pub fn get(&self, tibetan: char) -> (res: Option<&TibetanCharacter>)
        ensures
            match res {
                Some(c) => spec_lookup(self@, tibetan) == Some(*c),
                None => spec_lookup(self@, tibetan) is None,
            },
    {
        let n = self.characters.len();
        let mut i: usize = 0;
        proof {
            assert(self@.skip(0) =~= self@);
        }
        while i < n
            invariant
                0 <= i <= n,
                n == self.characters.len(),
                spec_lookup(self@, tibetan) == spec_lookup(self@.skip(i as int), tibetan),
            decreases n - i,
        {
            if self.characters[i].tibetan == tibetan {
                proof {
                    assert(self@.skip(i as int)[0] == self@[i as int]);
                }
                return Some(&self.characters[i]);
            }
            proof {
                assert(self@.skip(i as int).drop_first() =~= self@.skip(i as int + 1));
            }
            i = i + 1;
        }
        proof {
            assert(self@.skip(n as int) =~= Seq::<TibetanCharacter>::empty());
        }
        None
    }

    /// The whole catalogue, in table order, for enumeration.
    pub fn all(&self) -> (res: &Vec<TibetanCharacter>)
        ensures
            res@ == self@,
    {
        &self.characters
    }
}

/// Every entry of the fixed character table is well formed: each letter
/// carries a non-empty base romanization.
pub proof fn lemma_table_entries_wf()
    ensures
        forall|i: int| 0 <= i < spec_roots().len() ==> (#[trigger] spec_roots()[i]).wf(),
{
    reveal_strlit("ka");
    reveal_strlit("kha");
    reveal_strlit("nga");
    reveal_strlit("ca");
    reveal_strlit("cha");
    reveal_strlit("nya");
    reveal_strlit("ta");
    reveal_strlit("tha");
    reveal_strlit("na");
    reveal_strlit("pa");
    reveal_strlit("pha");
    reveal_strlit("ma");
    reveal_strlit("tsa");
    reveal_strlit("tsha");
    reveal_strlit("wa");
    reveal_strlit("sha");
    reveal_strlit("sa");
    reveal_strlit("a");
    reveal_strlit("ya");
    reveal_strlit("ra");
    reveal_strlit("la");
    reveal_strlit("ha");
    assert forall|i: int| 0 <= i < spec_roots().len() implies (#[trigger] spec_roots()[i]).wf() by {
        assert(spec_roots()[i].phonetic@.len() >= 1);
    }
}

/// A successful lookup hands back an entry of the table it searched.
proof fn lemma_lookup_contains(table: Seq<TibetanCharacter>, tibetan: char)
    ensures
        spec_lookup(table, tibetan) matches Some(x) ==> table.contains(x),
    decreases table.len(),
{
    if table.len() > 0 && table[0].tibetan != tibetan {
        lemma_lookup_contains(table.drop_first(), tibetan);
        let rest = table.drop_first();
        if spec_lookup(rest, tibetan) is Some {
            let x = spec_lookup(rest, tibetan)->0;
            let j = choose|j: int| 0 <= j < rest.len() && rest[j] == x;
            assert(table[j + 1] == x);
        }
    }
}

/// Every character the registry hands out is well formed, so a syllable
/// built from registry entries meets the transducer's precondition.
pub proof fn lemma_lookup_wf(tibetan: char)
    ensures
        spec_lookup(spec_roots(), tibetan) matches Some(x) ==> x.wf(),
{
    lemma_table_entries_wf();
    lemma_lookup_contains(spec_roots(), tibetan);
    let r = spec_lookup(spec_roots(), tibetan);
    if r is Some {
        let x = r->0;
        let i = choose|i: int| 0 <= i < spec_roots().len() && spec_roots()[i] == x;
        assert(spec_roots()[i].wf());
    }
}

} // verus!
