//! The health shown for the configured services.
//!
//! No service is probed here. A service counts as up unless its name holds
//! `Storybook`, and only the service named `MDisrupt API` is shown with a
//! database, which is up, and a search cluster, which is down.

use crate::commands::{CheckView, HealthcheckSection, SectionView, ServiceHealthCheck};
use crate::config::{Service, ServiceSection};
use crate::text::{contains, contains_text, same_text};
use vstd::prelude::*;

verus! {

/// Whether a service of this name is shown with a database and a search
/// cluster.
pub open spec fn has_parts(name: Seq<char>) -> bool {
    name == "MDisrupt API"@
}

/// The health shown for a service.
pub open spec fn check_of(service: Service) -> CheckView {
    CheckView {
        name: service.name@,
        url: service.url@,
        up: !contains_text(service.name@, "Storybook"@),
        db: if has_parts(service.name@) {
            Some(true)
        } else {
            None
        },
        elasticsearch: if has_parts(service.name@) {
            Some(false)
        } else {
            None
        },
    }
}

/// The health shown for a section: that of its services, in order, under
/// the section's name.
pub open spec fn section_of(section: ServiceSection) -> SectionView {
    SectionView {
        name: section.name@,
        services: section.services@.map_values(|service: Service| check_of(service)),
    }
}

/// The health shown for the sections, in order.
pub open spec fn healthcheck_of(sections: Seq<ServiceSection>) -> Seq<SectionView> {
    sections.map_values(|section: ServiceSection| section_of(section))
}

/// What the sections of an answer hold, in order.
pub open spec fn section_views(sections: Seq<HealthcheckSection>) -> Seq<SectionView> {
    sections.map_values(|section: HealthcheckSection| section@)
}

/// The health shown for `service`.
pub fn service_check(service: &Service) -> (check: ServiceHealthCheck)
    ensures
        check@ == check_of(*service),
{
    let name = service.name.as_str();
    let parts = same_text(name, "MDisrupt API");
    ServiceHealthCheck {
        up: !contains(name, "Storybook"),
        url: service.url.clone(),
        db: if parts {
            Some(true)
        } else {
            None
        },
        elasticsearch: if parts {
            Some(false)
        } else {
            None
        },
        name: service.name.clone(),
    }
}

/// The health shown for `section`.
pub fn section_check(section: &ServiceSection) -> (shown: HealthcheckSection)
    ensures
        shown@ == section_of(*section),
{
    let mut services: Vec<ServiceHealthCheck> = Vec::new();
    let mut i: usize = 0;
    while i < section.services.len()
        invariant
            i <= section.services@.len(),
            services@.len() == i,
            forall|j: int| 0 <= j < i ==> (#[trigger] services@[j])@ == check_of(section.services@[j]),
        decreases section.services@.len() - i,
    {
        services.push(service_check(&section.services[i]));
        i += 1;
    }
    let shown = HealthcheckSection { name: section.name.clone(), services };
    assert(shown@.services =~= section_of(*section).services);
    shown
}

/// The answer to a request for the health of the services in `sections`.
pub fn get_healthcheck(sections: &Vec<ServiceSection>) -> (shown: Vec<HealthcheckSection>)
    ensures
        section_views(shown@) == healthcheck_of(sections@),
{
    let mut shown: Vec<HealthcheckSection> = Vec::new();
    let mut i: usize = 0;
    while i < sections.len()
        invariant
            i <= sections@.len(),
            shown@.len() == i,
            forall|j: int| 0 <= j < i ==> (#[trigger] shown@[j])@ == section_of(sections@[j]),
        decreases sections@.len() - i,
    {
        shown.push(section_check(&sections[i]));
        i += 1;
    }
    assert(section_views(shown@) =~= healthcheck_of(sections@));
    shown
}

} // verus!
