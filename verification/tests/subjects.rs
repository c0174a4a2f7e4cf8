use school_tasks::subjects::Subjects;
use school_tasks::text::str_equal;

const ALL: [(Subjects, &str); 13] = [
    (Subjects::Math, "mh"),
    (Subjects::Geometry, "gm"),
    (Subjects::RussianLang, "ru"),
    (Subjects::UzbekLang, "uz"),
    (Subjects::EnglishLang, "en"),
    (Subjects::WorldHistory, "wh"),
    (Subjects::HistoryOfUzbekistan, "uh"),
    (Subjects::Biology, "bo"),
    (Subjects::Chemistry, "ch"),
    (Subjects::Drowing, "dr"),
    (Subjects::Physics, "ph"),
    (Subjects::Literature, "li"),
    (Subjects::Economy, "ec"),
];

#[test]
fn every_subject_has_its_code() {
    for (subject, code) in ALL {
        assert_eq!(subject.to_string(), code);
    }
}

#[test]
fn every_code_reads_as_its_subject() {
    for (subject, code) in ALL {
        assert_eq!(Subjects::from(code), subject);
        assert_eq!(Subjects::from_code(code), Some(subject));
    }
}

#[test]
fn code_round_trip() {
    for (subject, _) in ALL {
        assert_eq!(Subjects::from(subject.to_string().as_str()), subject);
    }
    for (_, code) in ALL {
        assert_eq!(Subjects::from(code).to_string(), code);
    }
}

#[test]
fn codes_are_distinct() {
    for (a, ca) in ALL {
        for (b, cb) in ALL {
            assert_eq!(a == b, ca == cb);
        }
    }
}

#[test]
fn unknown_codes_read_as_none() {
    assert_eq!(Subjects::from_code("xx"), None);
    assert_eq!(Subjects::from_code(""), None);
    assert_eq!(Subjects::from_code("mhx"), None);
    assert_eq!(Subjects::from_code("MH"), None);
    assert_eq!(Subjects::from_code("m"), None);
}

#[test]
fn text_equality() {
    assert!(str_equal("mh", "mh"));
    assert!(!str_equal("mh", "hm"));
    assert!(!str_equal("mh", "mhm"));
    assert!(str_equal("ё", "ё"));
    assert!(!str_equal("е", "ё"));
}
