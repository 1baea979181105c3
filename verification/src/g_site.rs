//! The state behind one entry of the password list: the site it shows, if any, whether it
//! is the search entry at the top, and the descriptor from which its password is derived.
use vstd::prelude::*;

use crate::site::{site_result_type, Site};
use crate::spectre::{
    AlgorithmVersion, ResultType, ResultTypeDefault, ALGORITHM_VERSION_DEFAULT,
};

verus! {

/// What the algorithm needs of a site to derive its password, besides the user key: the
/// site's name, the result type and the algorithm version.
pub struct SiteDescriptor {
    pub site_name: String,
    pub result_type: ResultType,
    pub algorithm_version: AlgorithmVersion,
}

impl SiteDescriptor {
    /// A copy of the descriptor.
    pub fn duplicate(&self) -> (r: SiteDescriptor)
        ensures
            r == *self,
    {
        SiteDescriptor {
            site_name: self.site_name.clone(),
            result_type: self.result_type,
            algorithm_version: self.algorithm_version,
        }
    }
}

impl Default for SiteDescriptor {
    /// An empty site name with the default result type and version.
    fn default() -> (r: SiteDescriptor)
        ensures
            r.site_name@.len() == 0,
            r.result_type == ResultTypeDefault,
            r.algorithm_version == ALGORITHM_VERSION_DEFAULT,
    {
        SiteDescriptor {
            site_name: String::new(),
            result_type: ResultTypeDefault,
            algorithm_version: ALGORITHM_VERSION_DEFAULT,
        }
    }
}

/// The request for a site's password that the algorithm is to answer: derive the password
/// of the site named `site_name`, of result type `result_type`, with the user's key.
pub struct SiteResultQuery {
    pub site_name: String,
    pub result_type: ResultType,
    pub algorithm_version: AlgorithmVersion,
}

/// One entry of the password list.
pub struct GSite {
    site: Option<Site>,
    is_search: bool,
    site_descriptor: SiteDescriptor,
}

impl GSite {
    /// The site that the entry shows, if any.
    pub closed spec fn site_view(self) -> Option<Site> {
        self.site
    }

    /// Whether the entry is the search entry.
    pub closed spec fn is_search_view(self) -> bool {
        self.is_search
    }

    /// The descriptor from which the entry's password is derived.
    pub closed spec fn descriptor_view(self) -> SiteDescriptor {
        self.site_descriptor
    }

    /// An entry with no site that is not the search entry, with the default descriptor.
    pub fn new() -> (r: GSite)
        ensures
            r.site_view() is None,
            !r.is_search_view(),
            r.descriptor_view().site_name@.len() == 0,
            r.descriptor_view().result_type == ResultTypeDefault,
            r.descriptor_view().algorithm_version == ALGORITHM_VERSION_DEFAULT,
    {
        GSite { site: None, is_search: false, site_descriptor: SiteDescriptor::default() }
    }

    /// The search entry: no site, the default descriptor.
    pub fn new_search() -> (r: GSite)
        ensures
            r.site_view() is None,
            r.is_search_view(),
            r.descriptor_view().site_name@.len() == 0,
            r.descriptor_view().result_type == ResultTypeDefault,
            r.descriptor_view().algorithm_version == ALGORITHM_VERSION_DEFAULT,
    {
        let mut s = GSite::new();
        s.is_search = true;
        s
    }

    /// An entry that shows `site`, with the descriptor of that site; the site's version
    /// code must name a version.
    pub fn new_with_site(site: &Site) -> (r: GSite)
        requires
            AlgorithmVersion::from_code(site.algorithm) is Some,
        ensures
            r.site_view() matches Some(s) && s.same_values(*site),
            !r.is_search_view(),
            describes_site(r.descriptor_view(), *site),
    {
        let mut s = GSite::new();
        s.set_site(site);
        s
    }

    /// A copy of the entry's descriptor.
    pub fn descriptor(&self) -> (r: SiteDescriptor)
        ensures
            r == self.descriptor_view(),
    {
        self.site_descriptor.duplicate()
    }

    /// Replaces the entry's descriptor; nothing else changes.
    pub fn set_descriptor(&mut self, descriptor: SiteDescriptor)
        ensures
            final(self).descriptor_view() == descriptor,
            final(self).site_view() == old(self).site_view(),
            final(self).is_search_view() == old(self).is_search_view(),
    {
        self.site_descriptor = descriptor;
    }

    /// Renames the descriptor's site; nothing else changes.
    pub fn set_descriptor_name(&mut self, name: &str)
        ensures
            final(self).descriptor_view().site_name@ == name@,
            final(self).descriptor_view().result_type == old(self).descriptor_view().result_type,
            final(self).descriptor_view().algorithm_version == old(
                self,
            ).descriptor_view().algorithm_version,
            final(self).site_view() == old(self).site_view(),
            final(self).is_search_view() == old(self).is_search_view(),
    {
        self.site_descriptor.site_name = name.to_owned();
    }

    /// Sets the descriptor's version; nothing else changes.
    pub fn set_descriptor_version(&mut self, version: AlgorithmVersion)
        ensures
            final(self).descriptor_view() == (SiteDescriptor {
                algorithm_version: version,
                ..old(self).descriptor_view()
            }),
            final(self).site_view() == old(self).site_view(),
            final(self).is_search_view() == old(self).is_search_view(),
    {
        self.site_descriptor.algorithm_version = version;
    }

    /// Sets the descriptor's result type; nothing else changes.
    pub fn set_descriptor_type(&mut self, p_type: ResultType)
        ensures
            final(self).descriptor_view() == (SiteDescriptor {
                result_type: p_type,
                ..old(self).descriptor_view()
            }),
            final(self).site_view() == old(self).site_view(),
            final(self).is_search_view() == old(self).is_search_view(),
    {
        self.site_descriptor.result_type = p_type;
    }

    /// The name in the entry's descriptor.
    pub fn descriptor_name(&self) -> (r: String)
        ensures
            r@ == self.descriptor_view().site_name@,
    {
        self.site_descriptor.site_name.clone()
    }

    /// A copy of the site that the entry shows, if any.
    pub fn site(&self) -> (r: Option<Site>)
        ensures
            r is Some == self.site_view() is Some,
            r matches Some(s) ==> s.same_values(self.site_view()->0),
    {
        match &self.site {
            Some(s) => Some(s.duplicate()),
            None => None,
        }
    }

    /// The name of the site that the entry shows; the entry must show one.
    pub fn name(&self) -> (r: String)
        requires
            self.site_view() is Some,
        ensures
            r@ == self.site_view()->0.site_name@,
    {
        match &self.site {
            Some(s) => s.get_name(),
            None => String::new(),
        }
    }

    /// Whether the entry is the search entry.
    pub fn is_search(&self) -> (r: bool)
        ensures
            r == self.is_search_view(),
    {
        self.is_search
    }

    /// Shows `new_site` in the entry and takes its name, version and result type into the
    /// descriptor; the site's version code must name a version.
    pub fn set_site(&mut self, new_site: &Site)
        requires
            AlgorithmVersion::from_code(new_site.algorithm) is Some,
        ensures
            final(self).site_view() matches Some(s) && s.same_values(*new_site),
            describes_site(final(self).descriptor_view(), *new_site),
            final(self).is_search_view() == old(self).is_search_view(),
    {
        self.site = Some(new_site.duplicate());
        let name = new_site.get_name();
        self.set_descriptor_name(name.as_str());
        self.set_descriptor_version(new_site.get_algorithm());
        self.set_descriptor_type(new_site.get_resultType());
    }

    /// What to ask the algorithm for the entry's password: nothing when the descriptor's
    /// name is empty, whose password is the empty string; otherwise the password of the
    /// descriptor's site, type and version.
    pub fn password_query(&self) -> (r: Option<SiteResultQuery>)
        ensures
            r is None <==> self.descriptor_view().site_name@.len() == 0,
            r matches Some(q) ==> q.site_name@ == self.descriptor_view().site_name@
                && q.result_type == self.descriptor_view().result_type && q.algorithm_version
                == self.descriptor_view().algorithm_version,
    {
        let d = &self.site_descriptor;
        if d.site_name.as_str().unicode_len() > 0 {
            Some(
                SiteResultQuery {
                    site_name: d.site_name.clone(),
                    result_type: d.result_type,
                    algorithm_version: d.algorithm_version,
                },
            )
        } else {
            None
        }
    }
}

/// `d` is the descriptor that a site gives an entry that shows it: the site's name, its
/// version, and its result type, the default where its code names none.
pub open spec fn describes_site(d: SiteDescriptor, site: Site) -> bool {
    &&& d.site_name@ == site.site_name@
    &&& d.result_type == site_result_type(site.result_type)
    &&& AlgorithmVersion::from_code(site.algorithm) == Some(d.algorithm_version)
}

} // verus!
