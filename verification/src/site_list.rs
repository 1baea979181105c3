//! The decisions of the password window: in which order its entries stand, which of them a
//! search shows, what activating an entry does, and what the search box's button and
//! password label show.
use vstd::prelude::*;

use crate::g_site::{describes_site, GSite, SiteResultQuery};
use crate::site::{has_site_spec, law_added_site_is_found, User, LOGIN_TYPE_NONE};
use crate::spectre::{AlgorithmVersion, ResultType, ALGORITHM_VERSION_DEFAULT};
use crate::text::{seq_contains, str_contains};

verus! {

/// Where the first of two entries goes relative to the second.
#[derive(Clone, Copy, Debug, PartialEq, Eq, Structural)]
pub enum ListOrder {
    /// The first entry goes before the second.
    Smaller,
    /// The first entry goes after the second.
    Larger,
}

/// The order of two entries: the search entry goes first; of two sites, the one used more
/// recently goes first, and of two used at the same time the second goes first.
pub open spec fn site_order(a: GSite, b: GSite) -> ListOrder {
    if a.is_search_view() {
        ListOrder::Smaller
    } else if b.is_search_view() {
        ListOrder::Larger
    } else if a.site_view()->0.last_used > b.site_view()->0.last_used {
        ListOrder::Smaller
    } else {
        ListOrder::Larger
    }
}

/// An entry can be ordered when it is the search entry or shows a site.
pub open spec fn orderable(e: GSite) -> bool {
    e.is_search_view() || e.site_view() is Some
}

/// The order in which the password list shows two entries.
pub fn compare_sites(a: &GSite, b: &GSite) -> (r: ListOrder)
    requires
        a.is_search_view() || b.is_search_view() || (orderable(*a) && orderable(*b)),
    ensures
        r == site_order(*a, *b),
{
    if a.is_search() {
        return ListOrder::Smaller;
    }
    if b.is_search() {
        return ListOrder::Larger;
    }
    let sa = a.site();
    let sb = b.site();
    match (sa, sb) {
        (Some(x), Some(y)) => if x.last_used() > y.last_used() {
            ListOrder::Smaller
        } else {
            ListOrder::Larger
        },
        _ => ListOrder::Larger,
    }
}

/// A search for `filter` shows the entry: the search entry always, a site when its name
/// holds `filter`.
pub open spec fn shown_by_filter(e: GSite, filter: Seq<char>) -> bool {
    e.is_search_view() || seq_contains(e.site_view()->0.site_name@, filter)
}

/// Whether a search for `filter` shows the entry.
pub fn site_visible(g_site: &GSite, filter: &str) -> (r: bool)
    requires
        orderable(*g_site),
    ensures
        r == shown_by_filter(*g_site, filter@),
{
    if g_site.is_search() {
        return true;
    }
    let name = g_site.name();
    str_contains(name.as_str(), filter)
}

/// Every site of `user` has a version code that names a version.
pub open spec fn sites_have_versions(user: User) -> bool {
    forall|i: int|
        0 <= i < user.sites@.len() ==> (#[trigger] AlgorithmVersion::from_code(
            user.sites@[i].algorithm,
        )) is Some
}

/// The entries of the password list: the search entry first, then an entry for each of the
/// user's sites, the one added last first.
pub fn fill_site_list(search_entry: GSite, user: &User) -> (r: Vec<GSite>)
    requires
        search_entry.is_search_view(),
        sites_have_versions(*user),
    ensures
        r@.len() == user.sites@.len() + 1,
        r@[0] == search_entry,
        forall|i: int|
            0 <= i < user.sites@.len() ==> {
                let e = #[trigger] r@[i + 1];
                let s = user.sites@[user.sites@.len() - 1 - i];
                &&& e.site_view() matches Some(x) && x.same_values(s)
                &&& !e.is_search_view()
                &&& describes_site(e.descriptor_view(), s)
            },
{
    let n: usize = user.sites.len();
    let mut r: Vec<GSite> = Vec::new();
    r.push(search_entry);
    let mut k: usize = 0;
    while k < n
        invariant
            n == user.sites@.len(),
            sites_have_versions(*user),
            k <= n,
            r@.len() == k + 1,
            r@[0] == search_entry,
            forall|i: int|
                0 <= i < k ==> {
                    let e = #[trigger] r@[i + 1];
                    let s = user.sites@[n - 1 - i];
                    &&& e.site_view() matches Some(x) && x.same_values(s)
                    &&& !e.is_search_view()
                    &&& describes_site(e.descriptor_view(), s)
                },
        decreases n - k,
    {
        let idx: usize = n - 1 - k;
        assert(AlgorithmVersion::from_code(user.sites@[idx as int].algorithm) is Some);
        let e = GSite::new_with_site(&user.sites[idx]);
        r.push(e);
        k = k + 1;
    }
    r
}

/// What activating an entry does.
#[derive(Clone, Copy, Debug, PartialEq, Eq, Structural)]
pub enum SiteActivation {
    /// The user has the site: its password is copied.
    CopyPassword,
    /// The user has no such site: ask whether to add it.
    ConfirmNewSite,
}

/// What activating `site` does for `user`: copy the password of a site the user has, or
/// ask whether to add one it has not.
pub fn activate_copy_or_create(user: &User, site: &GSite) -> (r: SiteActivation)
    ensures
        r == SiteActivation::CopyPassword <==> has_site_spec(
            user.sites@,
            site.descriptor_view().site_name@,
        ),
{
    let name = site.descriptor_name();
    if user.has_site(&name) {
        SiteActivation::CopyPassword
    } else {
        SiteActivation::ConfirmNewSite
    }
}

/// The user accepted a new site: adds the site that the entry describes to the user, with
/// counter 1, used now by the system clock, and lets the entry show it. Returns whether it
/// did: a clock that reads before the Unix epoch leaves the user and the entry as they were
/// and gives `false`.
pub fn add_described_site(user: &mut User, site: &mut GSite) -> (added: bool)
    ensures
        !added ==> *final(user) == *old(user) && *final(site) == *old(site),
        added ==> final(user).sites@.len() == old(user).sites@.len() + 1,
        added ==> final(user).sites@.drop_last() == old(user).sites@,
        added ==> *final(user) == (User { sites: final(user).sites, ..*old(user) }),
        added ==> ({
            let s = final(user).sites@.last();
            let d = old(site).descriptor_view();
            &&& s.site_name@ == d.site_name@
            &&& s.result_type == d.result_type.code()
            &&& s.algorithm == d.algorithm_version.code()
            &&& s.counter == 1
            &&& s.uses == 0
            &&& s.url is None
            &&& s.result_state is None
            &&& s.login_type == LOGIN_TYPE_NONE
            &&& s.login_state is None
            &&& s.questions@.len() == 0
            &&& final(site).site_view() matches Some(x) && x.same_values(s)
            &&& final(site).descriptor_view().site_name@ == d.site_name@
            &&& final(site).descriptor_view().result_type == d.result_type
            &&& final(site).descriptor_view().algorithm_version == d.algorithm_version
            &&& final(site).is_search_view() == old(site).is_search_view()
        }),
        added ==> has_site_spec(final(user).sites@, old(site).descriptor_view().site_name@),
{
    let d = site.descriptor();
    match user.add_site(d.site_name.as_str(), d.result_type, 1, d.algorithm_version) {
        Some(new_site) => {
            proof {
                assert(final(user).sites@.drop_last() =~= old(user).sites@);
                law_added_site_is_found(old(user).sites@, final(user).sites@.last(), d.site_name@);
                crate::spectre::law_result_type_code_roundtrip(d.result_type, d.result_type);
                crate::spectre::law_algorithm_version_code_roundtrip(
                    d.algorithm_version,
                    d.algorithm_version,
                );
            }
            site.set_site(&new_site);
            true
        },
        None => false,
    }
}

/// The modes of the search box's button.
#[derive(Clone, Copy, Debug, PartialEq, Eq, Structural)]
pub enum CopyButtonMode {
    /// Add the site that was typed.
    Create,
    /// Nothing typed: the button does nothing.
    Disabled,
    /// Copy the password of a site the user has.
    Copy,
}

/// The mode of the search box's button for the text typed in it.
pub open spec fn copy_button_mode_for(user: User, entry_text: Seq<char>) -> CopyButtonMode {
    if has_site_spec(user.sites@, entry_text) {
        CopyButtonMode::Copy
    } else if entry_text.len() > 0 {
        CopyButtonMode::Create
    } else {
        CopyButtonMode::Disabled
    }
}

/// The mode of the search box's button: copy for a site the user has, create for any
/// other text, disabled for no text.
pub fn calculate_copy_button_mode(user: &User, entry_text: &String) -> (r: CopyButtonMode)
    ensures
        r == copy_button_mode_for(*user, entry_text@),
{
    if user.has_site(entry_text) {
        CopyButtonMode::Copy
    } else if entry_text.as_str().unicode_len() > 0 {
        CopyButtonMode::Create
    } else {
        CopyButtonMode::Disabled
    }
}

impl CopyButtonMode {
    /// The label of the button in this mode.
    pub open spec fn label_spec(self) -> Seq<char> {
        match self {
            CopyButtonMode::Create => "Create"@,
            _ => "Copy"@,
        }
    }

    /// The style class of the button in this mode, if any.
    pub open spec fn css_class_spec(self) -> Option<Seq<char>> {
        match self {
            CopyButtonMode::Copy => Some("suggested-action"@),
            CopyButtonMode::Create => Some("create-action"@),
            CopyButtonMode::Disabled => None,
        }
    }

    /// The label of the button: "Create" to add a site, "Copy" otherwise.
    pub fn label(&self) -> (r: &'static str)
        ensures
            r@ == self.label_spec(),
    {
        match self {
            CopyButtonMode::Create => "Create",
            _ => "Copy",
        }
    }

    /// Whether the button reacts to clicks: in every mode but `Disabled`.
    pub fn is_sensitive(&self) -> (r: bool)
        ensures
            r == (*self != CopyButtonMode::Disabled),
    {
        match self {
            CopyButtonMode::Disabled => false,
            _ => true,
        }
    }

    /// The style class of the button, if any.
    pub fn css_class(&self) -> (r: Option<&'static str>)
        ensures
            r is Some == self.css_class_spec() is Some,
            r matches Some(c) ==> self.css_class_spec() == Some(c@),
    {
        match self {
            CopyButtonMode::Copy => Some("suggested-action"),
            CopyButtonMode::Create => Some("create-action"),
            CopyButtonMode::Disabled => None,
        }
    }
}

/// What the search box's password label shows.
pub enum PasswordLabel {
    /// The text "Hidden", while the password is hidden.
    Hidden,
    /// Nothing, while no site name is typed.
    Empty,
    /// The password that the algorithm derives for this query.
    Generate(SiteResultQuery),
}

/// What the search box's password label shows, given whether the hide button is pressed and
/// the text typed: "Hidden" while hidden, nothing for no text, and otherwise the long
/// password of the typed site with the default version.
pub fn password_label(hidden: bool, entry_text: &str) -> (r: PasswordLabel)
    ensures
        hidden ==> r is Hidden,
        !hidden && entry_text@.len() == 0 ==> r is Empty,
        !hidden && entry_text@.len() > 0 ==> (r matches PasswordLabel::Generate(q)
            && q.site_name@ == entry_text@ && q.result_type == ResultType::TemplateLong
            && q.algorithm_version == ALGORITHM_VERSION_DEFAULT),
{
    if hidden {
        return PasswordLabel::Hidden;
    }
    if entry_text.unicode_len() > 0 {
        PasswordLabel::Generate(
            SiteResultQuery {
                site_name: String::from_str(entry_text),
                result_type: ResultType::TemplateLong,
                algorithm_version: ALGORITHM_VERSION_DEFAULT,
            },
        )
    } else {
        PasswordLabel::Empty
    }
}

/// The search entry goes before every other entry, and every other entry after it; two
/// sites used at different times go in opposite orders when swapped.
pub proof fn law_search_entry_first(a: GSite, b: GSite)
    ensures
        a.is_search_view() ==> site_order(a, b) == ListOrder::Smaller,
        !a.is_search_view() && b.is_search_view() ==> site_order(a, b) == ListOrder::Larger,
        !a.is_search_view() && !b.is_search_view() && a.site_view()->0.last_used != b.site_view()->0.last_used
            ==> site_order(a, b) != site_order(b, a),
        !a.is_search_view() && !b.is_search_view() && a.site_view()->0.last_used > b.site_view()->0.last_used
            ==> site_order(a, b) == ListOrder::Smaller,
{
}

/// Every search shows the search entry, and an empty search shows every entry.
pub proof fn law_filter_shows_search_entry(e: GSite, filter: Seq<char>)
    ensures
        e.is_search_view() ==> shown_by_filter(e, filter),
        filter.len() == 0 ==> shown_by_filter(e, filter),
{
    if filter.len() == 0 && !e.is_search_view() {
        let name = e.site_view()->0.site_name@;
        assert(name.subrange(0, 0int + filter.len()) =~= filter);
    }
}

/// A search shows a site exactly when the searched text occurs as a contiguous run of
/// characters in the site's name: when the name is some text, then the searched text, then
/// some more text. In particular a site's whole name shows it, and so does each of its
/// prefixes and suffixes.
pub proof fn law_filter_matches_substrings(e: GSite, filter: Seq<char>, before: Seq<char>, after: Seq<char>)
    requires
        !e.is_search_view(),
        e.site_view() is Some,
    ensures
        shown_by_filter(e, filter) <==> exists|a: Seq<char>, b: Seq<char>|
            #[trigger] (a + filter + b) == e.site_view()->0.site_name@,
        shown_by_filter(e, e.site_view()->0.site_name@),
        e.site_view()->0.site_name@ == before + filter + after ==> shown_by_filter(e, filter),
        filter.len() > e.site_view()->0.site_name@.len() ==> !shown_by_filter(e, filter),
{
    let name = e.site_view()->0.site_name@;
    if shown_by_filter(e, filter) {
        let i = choose|i: int|
            0 <= i && i + filter.len() <= name.len() && #[trigger] name.subrange(i, i + filter.len())
                == filter;
        let a = name.subrange(0, i);
        let b = name.subrange(i + filter.len(), name.len() as int);
        assert(a + filter + b =~= name);
    }
    if exists|a: Seq<char>, b: Seq<char>| #[trigger] (a + filter + b) == name {
        let (a, b) = choose|a: Seq<char>, b: Seq<char>| #[trigger] (a + filter + b) == name;
        assert(name.subrange(a.len() as int, a.len() as int + filter.len()) =~= filter);
    }
    assert(name.subrange(0, 0int + name.len()) =~= name);
    if name == before + filter + after {
        assert(name.subrange(before.len() as int, before.len() as int + filter.len()) =~= filter);
    }
}

/// The button copies exactly when the user has the typed site, and is disabled only when
/// nothing is typed.
pub proof fn law_copy_button_mode(user: User, entry_text: Seq<char>)
    ensures
        copy_button_mode_for(user, entry_text) == CopyButtonMode::Copy <==> has_site_spec(
            user.sites@,
            entry_text,
        ),
        copy_button_mode_for(user, entry_text) == CopyButtonMode::Disabled ==> entry_text.len()
            == 0,
        entry_text.len() > 0 ==> copy_button_mode_for(user, entry_text)
            != CopyButtonMode::Disabled,
{
}

} // verus!
