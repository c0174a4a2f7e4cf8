use vstd::prelude::*;

use crate::text::str_equal;

verus! {

/// School subjects a slot or a task belongs to.
#[derive(Debug, Clone, Copy, PartialEq, Eq, Structural)]
pub enum Subjects {
    Math,
    Geometry,
    RussianLang,
    UzbekLang,
    EnglishLang,
    WorldHistory,
    HistoryOfUzbekistan,
    Biology,
    Chemistry,
    Drowing,
    Physics,
    Literature,
    Economy,
}

/// The two-letter code under which a subject is stored.
pub open spec fn subject_code(s: Subjects) -> Seq<char> {
    match s {
        Subjects::Math => seq!['m', 'h'],
        Subjects::Geometry => seq!['g', 'm'],
        Subjects::RussianLang => seq!['r', 'u'],
        Subjects::UzbekLang => seq!['u', 'z'],
        Subjects::EnglishLang => seq!['e', 'n'],
        Subjects::WorldHistory => seq!['w', 'h'],
        Subjects::HistoryOfUzbekistan => seq!['u', 'h'],
        Subjects::Biology => seq!['b', 'o'],
        Subjects::Chemistry => seq!['c', 'h'],
        Subjects::Drowing => seq!['d', 'r'],
        Subjects::Physics => seq!['p', 'h'],
        Subjects::Literature => seq!['l', 'i'],
        Subjects::Economy => seq!['e', 'c'],
    }
}

/// The subject stored under a code, if the code is one of the thirteen.
pub open spec fn code_subject(c: Seq<char>) -> Option<Subjects> {
    if c == seq!['m', 'h'] {
        Some(Subjects::Math)
    } else if c == seq!['g', 'm'] {
        Some(Subjects::Geometry)
    } else if c == seq!['r', 'u'] {
        Some(Subjects::RussianLang)
    } else if c == seq!['u', 'z'] {
        Some(Subjects::UzbekLang)
    } else if c == seq!['e', 'n'] {
        Some(Subjects::EnglishLang)
    } else if c == seq!['w', 'h'] {
        Some(Subjects::WorldHistory)
    } else if c == seq!['u', 'h'] {
        Some(Subjects::HistoryOfUzbekistan)
    } else if c == seq!['b', 'o'] {
        Some(Subjects::Biology)
    } else if c == seq!['c', 'h'] {
        Some(Subjects::Chemistry)
    } else if c == seq!['d', 'r'] {
        Some(Subjects::Drowing)
    } else if c == seq!['p', 'h'] {
        Some(Subjects::Physics)
    } else if c == seq!['l', 'i'] {
        Some(Subjects::Literature)
    } else if c == seq!['e', 'c'] {
        Some(Subjects::Economy)
    } else {
        None
    }
}

/// Whether `c` is the code of some subject.
pub open spec fn is_subject_code(c: Seq<char>) -> bool {
    code_subject(c) is Some
}

/// Reading a subject's code back gives the subject: `Subjects::from` undoes
/// `Subjects::to_string`.
pub proof fn lemma_code_round_trip(s: Subjects)
    ensures
        code_subject(subject_code(s)) == Some(s),
{
}

/// A code that is read as a subject is that subject's code:
/// `Subjects::to_string` undoes `Subjects::from`.
pub proof fn lemma_read_code_round_trip(c: Seq<char>)
    requires
        is_subject_code(c),
    ensures
        subject_code(code_subject(c).unwrap()) == c,
{
}

/// Distinct subjects are stored under distinct codes.
pub proof fn lemma_codes_distinct(a: Subjects, b: Subjects)
    requires
        a != b,
    ensures
        subject_code(a) != subject_code(b),
{
    lemma_code_round_trip(a);
    lemma_code_round_trip(b);
}

impl Subjects {
    /// The subject's two-letter code.
    pub fn to_string(&self) -> (r: String)
        ensures
            r@ == subject_code(*self),
    {
        let code: &str = match self {
            Subjects::Math => "mh",
            Subjects::Geometry => "gm",
            Subjects::RussianLang => "ru",
            Subjects::UzbekLang => "uz",
            Subjects::EnglishLang => "en",
            Subjects::WorldHistory => "wh",
            Subjects::HistoryOfUzbekistan => "uh",
            Subjects::Biology => "bo",
            Subjects::Chemistry => "ch",
            Subjects::Drowing => "dr",
            Subjects::Physics => "ph",
            Subjects::Literature => "li",
            Subjects::Economy => "ec",
        };
        proof {
            reveal_strlit("mh");
            assert("mh"@ =~= seq!['m', 'h']);
            reveal_strlit("gm");
            assert("gm"@ =~= seq!['g', 'm']);
            reveal_strlit("ru");
            assert("ru"@ =~= seq!['r', 'u']);
            reveal_strlit("uz");
            assert("uz"@ =~= seq!['u', 'z']);
            reveal_strlit("en");
            assert("en"@ =~= seq!['e', 'n']);
            reveal_strlit("wh");
            assert("wh"@ =~= seq!['w', 'h']);
            reveal_strlit("uh");
            assert("uh"@ =~= seq!['u', 'h']);
            reveal_strlit("bo");
            assert("bo"@ =~= seq!['b', 'o']);
            reveal_strlit("ch");
            assert("ch"@ =~= seq!['c', 'h']);
            reveal_strlit("dr");
            assert("dr"@ =~= seq!['d', 'r']);
            reveal_strlit("ph");
            assert("ph"@ =~= seq!['p', 'h']);
            reveal_strlit("li");
            assert("li"@ =~= seq!['l', 'i']);
            reveal_strlit("ec");
            assert("ec"@ =~= seq!['e', 'c']);
        }
        String::from_str(code)
    }
    /// The subject stored under `value`, or `None` where `value` is no subject's code.
    pub fn from_code(value: &str) -> (r: Option<Subjects>)
        ensures
            r == code_subject(value@),
    {
        proof {
            reveal_strlit("mh");
            assert("mh"@ =~= seq!['m', 'h']);
            reveal_strlit("gm");
            assert("gm"@ =~= seq!['g', 'm']);
            reveal_strlit("ru");
            assert("ru"@ =~= seq!['r', 'u']);
            reveal_strlit("uz");
            assert("uz"@ =~= seq!['u', 'z']);
            reveal_strlit("en");
            assert("en"@ =~= seq!['e', 'n']);
            reveal_strlit("wh");
            assert("wh"@ =~= seq!['w', 'h']);
            reveal_strlit("uh");
            assert("uh"@ =~= seq!['u', 'h']);
            reveal_strlit("bo");
            assert("bo"@ =~= seq!['b', 'o']);
            reveal_strlit("ch");
            assert("ch"@ =~= seq!['c', 'h']);
            reveal_strlit("dr");
            assert("dr"@ =~= seq!['d', 'r']);
            reveal_strlit("ph");
            assert("ph"@ =~= seq!['p', 'h']);
            reveal_strlit("li");
            assert("li"@ =~= seq!['l', 'i']);
            reveal_strlit("ec");
            assert("ec"@ =~= seq!['e', 'c']);
        }
        if str_equal(value, "mh") {
            Some(Subjects::Math)
        } else if str_equal(value, "gm") {
            Some(Subjects::Geometry)
        } else if str_equal(value, "ru") {
            Some(Subjects::RussianLang)
        } else if str_equal(value, "uz") {
            Some(Subjects::UzbekLang)
        } else if str_equal(value, "en") {
            Some(Subjects::EnglishLang)
        } else if str_equal(value, "wh") {
            Some(Subjects::WorldHistory)
        } else if str_equal(value, "uh") {
            Some(Subjects::HistoryOfUzbekistan)
        } else if str_equal(value, "bo") {
            Some(Subjects::Biology)
        } else if str_equal(value, "ch") {
            Some(Subjects::Chemistry)
        } else if str_equal(value, "dr") {
            Some(Subjects::Drowing)
        } else if str_equal(value, "ph") {
            Some(Subjects::Physics)
        } else if str_equal(value, "li") {
            Some(Subjects::Literature)
        } else if str_equal(value, "ec") {
            Some(Subjects::Economy)
        } else {
            None
        }
    }

    /// The subject stored under `value`; `value` must be one of the thirteen codes.
    pub fn from(value: &str) -> (r: Subjects)
        requires
            is_subject_code(value@),
        ensures
            code_subject(value@) == Some(r),
            subject_code(r) == value@,
    {
        match Subjects::from_code(value) {
            Some(s) => s,
            None => Subjects::Math,
        }
    }
}

} // verus!
