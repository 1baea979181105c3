use spectre_gtk::g_site::{GSite, SiteDescriptor};
use spectre_gtk::site::{
    to_hex_upper, Site, SiteQuestion, User, UserKey, LOGIN_TYPE_NONE, USER_DEFAULT_LOGIN_TYPE,
    USER_DEFAULT_TYPE,
};
use spectre_gtk::site_list::{
    activate_copy_or_create, add_described_site, calculate_copy_button_mode, compare_sites,
    fill_site_list, password_label, site_visible, CopyButtonMode, ListOrder, PasswordLabel,
    SiteActivation,
};
use spectre_gtk::spectre::{AlgorithmVersion, ResultType, ResultTypeDefault};
use spectre_gtk::text::{last_char_or, str_contains, str_equals};

fn key() -> UserKey {
    UserKey::new((0..32u8).collect(), AlgorithmVersion::V3, vec![7u8; 64]).unwrap()
}

fn user_with(names: &[&str]) -> User {
    let mut u = User::create("Robert Lee Mitchell", AlgorithmVersion::V3, &key());
    for n in names {
        assert!(u.add_site(n, ResultType::TemplateLong, 1, AlgorithmVersion::V3).is_some());
    }
    u
}

#[test]
fn text_helpers() {
    assert!(str_equals("abc", "abc"));
    assert!(!str_equals("abc", "abd"));
    assert!(str_contains("github.com", "hub"));
    assert!(str_contains("github.com", ""));
    assert!(str_contains("", ""));
    assert!(!str_contains("git", "github"));
    assert!(!str_contains("github.com", "lab"));
    assert!(str_contains("ümlaut.de", "laut"));
    assert_eq!(last_char_or("", '*'), '*');
    assert_eq!(last_char_or("ab╝", '*'), '╝');
}

#[test]
fn site_fields() {
    let mut s = Site::new("example.com", ResultType::TemplatePIN, 3, AlgorithmVersion::V2);
    assert_eq!(s.get_name(), "example.com");
    assert_eq!(s.result_type, 21);
    assert_eq!(s.counter, 3);
    assert_eq!(s.algorithm, 2);
    assert_eq!(s.login_type, LOGIN_TYPE_NONE);
    assert_eq!(s.get_uses(), 0);
    assert_eq!(s.last_used(), 0);
    assert_eq!(s.get_algorithm(), AlgorithmVersion::V2);
    assert_eq!(s.get_resultType(), ResultType::TemplatePIN);
    s.set_name("other.org");
    assert_eq!(s.get_name(), "other.org");
    s.set_url("https://other.org/login");
    assert_eq!(s.get_url(), "https://other.org/login");
    s.increase_uses();
    s.increase_uses();
    assert_eq!(s.get_uses(), 2);
    s.set_last_used(1_700_000_000);
    assert_eq!(s.last_used(), 1_700_000_000);
    let now = s.set_used_now().expect("the clock reads after 1970");
    assert!(now > 1_700_000_000);
    assert_eq!(s.last_used(), now as i64);
    assert_eq!(s.get_name(), "other.org");
    assert_eq!(s.get_uses(), 2);
}

#[test]
fn site_result_type_defaults() {
    let mut s = Site::new("a", ResultType::TemplateShort, 1, AlgorithmVersion::V3);
    s.result_type = 12345;
    assert_eq!(s.get_resultType(), ResultTypeDefault);
    s.result_type = 1056;
    assert_eq!(s.get_resultType(), ResultType::StatefulPersonal);
}

#[test]
fn site_equality_is_by_name() {
    let a = Site::new("same", ResultType::TemplateShort, 1, AlgorithmVersion::V3);
    let b = Site::new("same", ResultType::TemplateLong, 9, AlgorithmVersion::V0);
    let c = Site::new("different", ResultType::TemplateShort, 1, AlgorithmVersion::V3);
    assert!(a == b);
    assert!(a != c);
    assert!(a == a.duplicate());
}

#[test]
fn add_site_at_records_the_given_time() {
    let mut u = user_with(&["a"]);
    let r = u.add_site_at("b", ResultType::TemplateShort, 2, AlgorithmVersion::V1, 1_234);
    assert_eq!(r.last_used(), 1_234);
    assert_eq!(r.get_name(), "b");
    assert_eq!(r.result_type, 19);
    assert_eq!(r.algorithm, 1);
    assert_eq!(u.get_sites().len(), 2);
    assert_eq!(u.get_sites()[1].last_used(), 1_234);
    assert_eq!(u.user_name, "Robert Lee Mitchell");
}

#[test]
fn duplicate_keeps_questions() {
    let mut s = Site::new("bank", ResultType::TemplateLong, 1, AlgorithmVersion::V3);
    s.questions.push(SiteQuestion { keyword: "mother".to_owned(), result_type: 31, state: None });
    s.questions.push(SiteQuestion { keyword: "pet".to_owned(), result_type: 30, state: Some("c3RhdGU=".to_owned()) });
    let d = s.duplicate();
    assert_eq!(d.questions.len(), 2);
    assert_eq!(d.questions[0].keyword, "mother");
    assert_eq!(d.questions[1].result_type, 30);
    assert_eq!(d.questions[1].state.as_deref(), Some("c3RhdGU="));
}

#[test]
fn user_key_lengths() {
    assert!(UserKey::new(vec![0; 31], AlgorithmVersion::V3, vec![0; 64]).is_none());
    assert!(UserKey::new(vec![0; 32], AlgorithmVersion::V3, vec![0; 63]).is_none());
    let k = key();
    assert_eq!(k.key_id().len(), 32);
    assert_eq!(k.bytes().len(), 64);
    assert_eq!(k.algorithm(), AlgorithmVersion::V3);
    assert_eq!(k.key_id()[5], 5);
    let hex = k.key_id_hex();
    assert_eq!(hex.len(), 64);
    assert!(hex.starts_with("000102030405060708090A0B0C0D0E0F10"));
    assert!(hex.ends_with("1E1F"));
}

#[test]
fn hex_encoding() {
    assert_eq!(to_hex_upper(&[]), "");
    assert_eq!(to_hex_upper(&[10, 255]), "0AFF");
    assert_eq!(to_hex_upper(&[0x12, 0xab, 0x09]), "12AB09");
}

#[test]
fn user_create_and_add_sites() {
    let u = User::create("Robert Lee Mitchell", AlgorithmVersion::V1, &key());
    assert_eq!(u.user_name, "Robert Lee Mitchell");
    assert_eq!(u.algorithm, 1);
    assert_eq!(u.key_id, (0..32u8).collect::<Vec<u8>>());
    assert!(u.redacted);
    assert!(u.identicon.is_none());
    assert_eq!(u.avatar, 0);
    assert_eq!(u.default_type, USER_DEFAULT_TYPE);
    assert_eq!(u.default_type, ResultType::TemplateLong.to_u32());
    assert_eq!(u.login_type, USER_DEFAULT_LOGIN_TYPE);
    assert_eq!(u.login_type, ResultType::TemplateName.to_u32());
    assert!(u.login_state.is_none());
    assert_eq!(u.last_used, 0);
    assert!(u.get_sites().is_empty());

    let mut u = user_with(&["github.com"]);
    assert!(u.has_site(&"github.com".to_owned()));
    assert!(!u.has_site(&"gitlab.com".to_owned()));
    let added = u.add_site("gitlab.com", ResultType::TemplateBasic, 4, AlgorithmVersion::V2).unwrap();
    assert_eq!(added.get_name(), "gitlab.com");
    assert_eq!(added.result_type, 20);
    assert_eq!(added.counter, 4);
    assert!(added.last_used() > 1_700_000_000);
    assert_eq!(u.get_sites()[1].last_used(), added.last_used());
    assert!(u.has_site(&"gitlab.com".to_owned()));
    assert!(u.has_site(&"github.com".to_owned()));
    let names: Vec<String> = u.get_sites().iter().map(|s| s.get_name()).collect();
    assert_eq!(names, vec!["github.com".to_owned(), "gitlab.com".to_owned()]);
}

#[test]
fn g_site_descriptor() {
    let g = GSite::new();
    assert!(!g.is_search());
    assert!(g.site().is_none());
    assert_eq!(g.descriptor_name(), "");
    assert!(g.password_query().is_none());
    let d = SiteDescriptor::default();
    assert_eq!(d.result_type, ResultType::TemplateLong);
    assert_eq!(d.algorithm_version, AlgorithmVersion::V3);

    let mut g = GSite::new_search();
    assert!(g.is_search());
    g.set_descriptor_name("matrix.org");
    g.set_descriptor_type(ResultType::TemplatePhrase);
    g.set_descriptor_version(AlgorithmVersion::V1);
    assert_eq!(g.descriptor_name(), "matrix.org");
    let q = g.password_query().unwrap();
    assert_eq!(q.site_name, "matrix.org");
    assert_eq!(q.result_type, ResultType::TemplatePhrase);
    assert_eq!(q.algorithm_version, AlgorithmVersion::V1);
    g.set_descriptor(SiteDescriptor::default());
    assert!(g.password_query().is_none());
    assert!(g.is_search());
}

#[test]
fn g_site_with_site() {
    let s = Site::new("wiki.org", ResultType::TemplateMedium, 2, AlgorithmVersion::V2);
    let g = GSite::new_with_site(&s);
    assert_eq!(g.name(), "wiki.org");
    let d = g.descriptor();
    assert_eq!(d.site_name, "wiki.org");
    assert_eq!(d.result_type, ResultType::TemplateMedium);
    assert_eq!(d.algorithm_version, AlgorithmVersion::V2);
    assert!(g.site().unwrap() == s);
}

#[test]
fn list_order() {
    let search = GSite::new_search();
    let mut old = Site::new("old", ResultType::TemplateLong, 1, AlgorithmVersion::V3);
    old.set_last_used(100);
    let mut new = Site::new("new", ResultType::TemplateLong, 1, AlgorithmVersion::V3);
    new.set_last_used(200);
    let g_old = GSite::new_with_site(&old);
    let g_new = GSite::new_with_site(&new);
    assert_eq!(compare_sites(&search, &g_old), ListOrder::Smaller);
    assert_eq!(compare_sites(&g_old, &search), ListOrder::Larger);
    assert_eq!(compare_sites(&g_new, &g_old), ListOrder::Smaller);
    assert_eq!(compare_sites(&g_old, &g_new), ListOrder::Larger);
    assert_eq!(compare_sites(&g_old, &g_old), ListOrder::Larger);
}

#[test]
fn list_filter() {
    let search = GSite::new_search();
    let g = GSite::new_with_site(&Site::new("github.com", ResultType::TemplateLong, 1, AlgorithmVersion::V3));
    assert!(site_visible(&search, "anything"));
    assert!(site_visible(&g, ""));
    assert!(site_visible(&g, "git"));
    assert!(site_visible(&g, ".com"));
    assert!(!site_visible(&g, "gitlab"));
    assert!(!site_visible(&g, "GIT"));
}

#[test]
fn list_fill_order() {
    let u = user_with(&["first", "second", "third"]);
    let entries = fill_site_list(GSite::new_search(), &u);
    assert_eq!(entries.len(), 4);
    assert!(entries[0].is_search());
    assert_eq!(entries[1].name(), "third");
    assert_eq!(entries[2].name(), "second");
    assert_eq!(entries[3].name(), "first");
    assert!(!entries[1].is_search());
    assert_eq!(fill_site_list(GSite::new_search(), &user_with(&[])).len(), 1);
}

#[test]
fn activation_copies_or_creates() {
    let mut u = user_with(&["github.com"]);
    let mut g = GSite::new_search();
    g.set_descriptor_name("github.com");
    assert_eq!(activate_copy_or_create(&u, &g), SiteActivation::CopyPassword);
    g.set_descriptor_name("newsite.net");
    g.set_descriptor_type(ResultType::TemplateBasic);
    assert_eq!(activate_copy_or_create(&u, &g), SiteActivation::ConfirmNewSite);
    assert!(add_described_site(&mut u, &mut g));
    assert_eq!(activate_copy_or_create(&u, &g), SiteActivation::CopyPassword);
    let last = u.get_sites().last().unwrap();
    assert_eq!(last.get_name(), "newsite.net");
    assert_eq!(last.counter, 1);
    assert_eq!(last.result_type, 20);
    assert_eq!(g.site().unwrap().get_name(), "newsite.net");
    assert_eq!(g.descriptor().result_type, ResultType::TemplateBasic);
    assert_eq!(u.get_sites().len(), 2);
}

#[test]
fn copy_button_modes() {
    let u = user_with(&["github.com"]);
    let copy = calculate_copy_button_mode(&u, &"github.com".to_owned());
    let create = calculate_copy_button_mode(&u, &"git".to_owned());
    let disabled = calculate_copy_button_mode(&u, &String::new());
    assert_eq!(copy, CopyButtonMode::Copy);
    assert_eq!(create, CopyButtonMode::Create);
    assert_eq!(disabled, CopyButtonMode::Disabled);
    assert_eq!(copy.label(), "Copy");
    assert_eq!(create.label(), "Create");
    assert_eq!(disabled.label(), "Copy");
    assert!(copy.is_sensitive() && create.is_sensitive() && !disabled.is_sensitive());
    assert_eq!(copy.css_class(), Some("suggested-action"));
    assert_eq!(create.css_class(), Some("create-action"));
    assert_eq!(disabled.css_class(), None);
}

#[test]
fn search_box_password_label() {
    assert!(matches!(password_label(true, "github.com"), PasswordLabel::Hidden));
    assert!(matches!(password_label(false, ""), PasswordLabel::Empty));
    match password_label(false, "github.com") {
        PasswordLabel::Generate(q) => {
            assert_eq!(q.site_name, "github.com");
            assert_eq!(q.result_type, ResultType::TemplateLong);
            assert_eq!(q.algorithm_version, AlgorithmVersion::V3);
        }
        _ => panic!("expected a query"),
    }
}
