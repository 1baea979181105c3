use spectre_gtk::identicon::{Identicon, IdenticonColor, IdenticonColorFirst, IdenticonColorLast};
use spectre_gtk::marshal::{
    marshal_error_message, name_for_format, FileMarshalReadError, MarshalError, MarshalFormat,
    SpectreMarshalErrorFormat, SpectreMarshalErrorInternal, SpectreMarshalErrorUserSecret,
    SpectreMarshalSuccess,
};
use spectre_gtk::spectre::{
    AlgorithmVersion, ResultType, ResultTypeDefault, ALGORITHM_VERSION_DEFAULT,
    ALGORITHM_VERSION_LATEST,
};

#[test]
fn format_converter() {
    assert_eq!(name_for_format(2), "JSON".to_owned());
}

#[test]
fn format_names_and_codes() {
    assert_eq!(name_for_format(0), "none");
    assert_eq!(name_for_format(1), "flat");
    assert_eq!(MarshalFormat::flat.to_u32(), 1);
    assert_eq!(MarshalFormat::json.to_u32(), 2);
    assert_eq!(name_for_format(MarshalFormat::json.to_u32()), "JSON");
}

#[test]
fn algorithm_version_codes_and_names() {
    let all = [AlgorithmVersion::V0, AlgorithmVersion::V1, AlgorithmVersion::V2, AlgorithmVersion::V3];
    for (i, v) in all.iter().enumerate() {
        assert_eq!(v.to_u32(), i as u32);
        assert_eq!(AlgorithmVersion::from_u32(i as u32), Some(*v));
        assert_eq!(v.to_string(), format!("V{}", i));
    }
    assert_eq!(AlgorithmVersion::from_u32(4), None);
    assert_eq!(AlgorithmVersion::from_u32(u32::MAX), None);
    assert_eq!(ALGORITHM_VERSION_DEFAULT, AlgorithmVersion::V3);
    assert_eq!(ALGORITHM_VERSION_LATEST, AlgorithmVersion::V3);
}

#[test]
fn result_type_codes() {
    let expected = [
        (ResultType::TemplateMaximum, 16),
        (ResultType::TemplateLong, 17),
        (ResultType::TemplateMedium, 18),
        (ResultType::TemplateShort, 19),
        (ResultType::TemplateBasic, 20),
        (ResultType::TemplatePIN, 21),
        (ResultType::TemplateName, 30),
        (ResultType::TemplatePhrase, 31),
        (ResultType::StatefulPersonal, 1056),
        (ResultType::StatefulDevice, 2081),
        (ResultType::DeriveKey, 4160),
    ];
    for (t, c) in expected.iter() {
        assert_eq!(t.to_u32(), *c);
        assert_eq!(ResultType::from_u32(*c), Some(*t));
    }
    assert_eq!(ResultType::from_u32(0), None);
    assert_eq!(ResultType::from_u32(22), None);
}

#[test]
fn result_type_iterable_lists_templates() {
    let ts = ResultType::iterable();
    assert_eq!(
        ts,
        vec![
            ResultType::TemplateMaximum,
            ResultType::TemplateLong,
            ResultType::TemplateMedium,
            ResultType::TemplateShort,
            ResultType::TemplateBasic,
            ResultType::TemplatePIN,
            ResultType::TemplateName,
            ResultType::TemplatePhrase,
        ]
    );
}

#[test]
fn result_type_names_read_back() {
    for t in ResultType::iterable() {
        let name = t.to_string();
        assert!(!name.is_empty());
        assert_eq!(ResultType::from_str(&name), t);
    }
    assert_eq!(ResultType::TemplatePIN.to_string(), "PIN");
    assert_eq!(ResultType::TemplateMaximum.to_string(), "Maximum");
    assert_eq!(ResultType::StatefulPersonal.to_string(), "");
    assert_eq!(ResultType::DeriveKey.to_string(), "");
    assert_eq!(ResultType::from_str("Phrase"), ResultType::TemplatePhrase);
    assert_eq!(ResultType::from_str("long"), ResultTypeDefault);
    assert_eq!(ResultType::from_str(""), ResultType::TemplateLong);
    assert_eq!(ResultType::from_str("Nonsense"), ResultType::TemplateLong);
}

#[test]
fn identicon_colors() {
    assert_eq!(IdenticonColorFirst, 1);
    assert_eq!(IdenticonColorLast, 7);
    assert_eq!(IdenticonColor::Red.to_color_code(), "#bb1111");
    assert_eq!(IdenticonColor::Green.to_color_code(), "#11bb11");
    assert_eq!(IdenticonColor::Yellow.to_color_code(), "#11bbbb");
    assert_eq!(IdenticonColor::Blue.to_color_code(), "#1111bb");
    assert_eq!(IdenticonColor::Magenta.to_color_code(), "#bb11bb");
    assert_eq!(IdenticonColor::Cyan.to_color_code(), "#11bbbb");
    assert_eq!(IdenticonColor::White.to_color_code(), "#bbbbbb");
    assert_eq!(IdenticonColor::Unset.to_color_code(), "#000000");
    for code in 0..8u32 {
        let c = IdenticonColor::from_u32(code).unwrap();
        assert_eq!(c.to_u32(), code);
    }
    assert_eq!(IdenticonColor::from_u32(8), None);
}

#[test]
fn identicon_markup() {
    let i = Identicon {
        leftArm: '╔',
        body: '░',
        rightArm: '╝',
        accessory: '⌚',
        color: IdenticonColor::Blue,
    };
    assert_eq!(i.to_markup_string(), "<span foreground='#1111bb'>╔░╝⌚</span>");
}

#[test]
fn identicon_from_parts() {
    let i = Identicon::from_parts("╚", "ab", "", "♚", 5);
    assert_eq!(i.leftArm, '╚');
    assert_eq!(i.body, 'b');
    assert_eq!(i.rightArm, '*');
    assert_eq!(i.accessory, '♚');
    assert_eq!(i.color, IdenticonColor::Magenta);
    let j = Identicon::from_parts("a", "b", "c", "d", 99);
    assert_eq!(j.color, IdenticonColor::White);
    assert_eq!(j.to_markup_string(), "<span foreground='#bbbbbb'>abcd</span>");
}

#[test]
fn marshal_error_messages() {
    assert_eq!(marshal_error_message(SpectreMarshalSuccess), Some("success"));
    assert_eq!(
        marshal_error_message(1),
        Some("An error in the structure of the marshall file interrupted marshalling.")
    );
    assert_eq!(
        marshal_error_message(SpectreMarshalErrorFormat),
        Some("The marshall file uses an unsupported format version.")
    );
    assert_eq!(marshal_error_message(3), Some("A required value is missing or not specified."));
    assert_eq!(
        marshal_error_message(SpectreMarshalErrorUserSecret),
        Some("The given user secret is not valid.")
    );
    assert_eq!(marshal_error_message(5), Some("An illegal value was specified."));
    assert_eq!(
        marshal_error_message(SpectreMarshalErrorInternal),
        Some("An internal system error interrupted marshalling.")
    );
    assert_eq!(marshal_error_message(7), None);
}

#[test]
fn file_read_error_messages() {
    let e = FileMarshalReadError::Marshal(MarshalError { type_: 4, message: "bad secret".to_owned() });
    assert_eq!(e.user_message(), Some("The given user secret is not valid."));
    let unknown = FileMarshalReadError::Marshal(MarshalError { type_: 42, message: String::new() });
    assert_eq!(unknown.user_message(), None);
    let io = FileMarshalReadError::File(std::io::Error::new(std::io::ErrorKind::NotFound, "gone"));
    assert_eq!(io.user_message(), None);
}
