//! Payload-build wizard: four grouped categories of form fields, each with
//! an enabling toggle and conditional sub-fields. Field navigation follows
//! an explicit adjacency function per (category, field, toggle state), so
//! the skip rule is auditable in isolation.

use vstd::prelude::*;

verus! {

/// The four grouped sections of the payload-build form.
#[derive(Clone, Copy, Debug, PartialEq, Eq, Structural)]
pub enum BuilderCategory {
    General,
    Persistence,
    Impact,
    Exfiltration,
}

/// Circular successor of a category.
pub open spec fn category_next_spec(c: BuilderCategory) -> BuilderCategory {
    match c {
        BuilderCategory::General => BuilderCategory::Persistence,
        BuilderCategory::Persistence => BuilderCategory::Impact,
        BuilderCategory::Impact => BuilderCategory::Exfiltration,
        BuilderCategory::Exfiltration => BuilderCategory::General,
    }
}

/// Circular predecessor of a category.
pub open spec fn category_prev_spec(c: BuilderCategory) -> BuilderCategory {
    match c {
        BuilderCategory::General => BuilderCategory::Exfiltration,
        BuilderCategory::Persistence => BuilderCategory::General,
        BuilderCategory::Impact => BuilderCategory::Persistence,
        BuilderCategory::Exfiltration => BuilderCategory::Impact,
    }
}

impl BuilderCategory {
    /// Next category, wrapping around after the last.
    pub fn next(&self) -> (c: Self)
        ensures
            c == category_next_spec(*self),
    {
        match self {
            BuilderCategory::General => BuilderCategory::Persistence,
            BuilderCategory::Persistence => BuilderCategory::Impact,
            BuilderCategory::Impact => BuilderCategory::Exfiltration,
            BuilderCategory::Exfiltration => BuilderCategory::General,
        }
    }

    /// Previous category, wrapping around before the first.
    pub fn prev(&self) -> (c: Self)
        ensures
            c == category_prev_spec(*self),
    {
        match self {
            BuilderCategory::General => BuilderCategory::Exfiltration,
            BuilderCategory::Persistence => BuilderCategory::General,
            BuilderCategory::Impact => BuilderCategory::Persistence,
            BuilderCategory::Exfiltration => BuilderCategory::Impact,
        }
    }
}

/// The category cycle is circular in both directions: four steps forward
/// return to the start, and one step back undoes one step forward.
pub proof fn lemma_category_cycle(c: BuilderCategory)
    ensures
        category_prev_spec(category_next_spec(c)) == c,
        category_next_spec(category_prev_spec(c)) == c,
        category_next_spec(
            category_next_spec(category_next_spec(category_next_spec(c))),
        ) == c,
{
}

/// One focusable position of the wizard form. `CategorySelect` and `Submit`
/// are the only positions every category shares.
#[derive(Clone, Copy, Debug, PartialEq, Eq, Structural)]
pub enum BuilderField {
    CategorySelect,
    Url,
    Port,
    EnableDebug,
    PersistToggle,
    PersistRunControl,
    PersistService,
    PersistCron,
    ImpactToggle,
    ImpactEncrypt,
    ImpactWipe,
    ExfilToggle,
    ExfilHttp,
    ExfilDns,
    Submit,
}

/// Mathematical value of a [`BuilderState`].
#[verifier::ext_equal]
pub ghost struct BuilderV {
    pub active_category: BuilderCategory,
    pub selected_field: BuilderField,
    pub target_url: Seq<char>,
    pub target_port: Seq<char>,
    pub enable_debug: bool,
    pub enable_persistence: bool,
    pub persist_runcontrol: bool,
    pub persist_service: bool,
    pub persist_cron: bool,
    pub enable_impact: bool,
    pub impact_encrypt: bool,
    pub impact_wipe: bool,
    pub enable_exfil: bool,
    pub exfil_http: bool,
    pub exfil_dns: bool,
    pub build_status_msg: Seq<char>,
}

/// State of the payload-build wizard.
#[derive(Clone, Debug, PartialEq, Eq)]
pub struct BuilderState {
    pub active_category: BuilderCategory,
    pub selected_field: BuilderField,
    pub target_url: String,
    pub target_port: String,
    pub enable_debug: bool,
    pub enable_persistence: bool,
    pub persist_runcontrol: bool,
    pub persist_service: bool,
    pub persist_cron: bool,
    pub enable_impact: bool,
    pub impact_encrypt: bool,
    pub impact_wipe: bool,
    pub enable_exfil: bool,
    pub exfil_http: bool,
    pub exfil_dns: bool,
    pub build_status_msg: String,
}

impl View for BuilderState {
    type V = BuilderV;

    open spec fn view(&self) -> BuilderV {
        BuilderV {
            active_category: self.active_category,
            selected_field: self.selected_field,
            target_url: self.target_url@,
            target_port: self.target_port@,
            enable_debug: self.enable_debug,
            enable_persistence: self.enable_persistence,
            persist_runcontrol: self.persist_runcontrol,
            persist_service: self.persist_service,
            persist_cron: self.persist_cron,
            enable_impact: self.enable_impact,
            impact_encrypt: self.impact_encrypt,
            impact_wipe: self.impact_wipe,
            enable_exfil: self.enable_exfil,
            exfil_http: self.exfil_http,
            exfil_dns: self.exfil_dns,
            build_status_msg: self.build_status_msg@,
        }
    }
}

/// Field that follows `b.selected_field` within `b.active_category`. When
/// the category's enabling toggle is off, forward navigation jumps straight
/// to `Submit`, skipping every secondary field; `Submit` always advances
/// back to `CategorySelect` of the same category.
pub open spec fn next_field_spec(b: BuilderV) -> BuilderField {
    match b.active_category {
        BuilderCategory::General => match b.selected_field {
            BuilderField::CategorySelect => BuilderField::Url,
            BuilderField::Url => BuilderField::Port,
            BuilderField::Port => BuilderField::EnableDebug,
            BuilderField::EnableDebug => BuilderField::Submit,
            _ => BuilderField::CategorySelect,
        },
        BuilderCategory::Persistence => match b.selected_field {
            BuilderField::CategorySelect => BuilderField::PersistToggle,
            BuilderField::PersistToggle => if b.enable_persistence {
                BuilderField::PersistRunControl
            } else {
                BuilderField::Submit
            },
            BuilderField::PersistRunControl => BuilderField::PersistService,
            BuilderField::PersistService => BuilderField::PersistCron,
            BuilderField::PersistCron => BuilderField::Submit,
            _ => BuilderField::CategorySelect,
        },
        BuilderCategory::Impact => match b.selected_field {
            BuilderField::CategorySelect => if b.enable_impact {
                BuilderField::ImpactToggle
            } else {
                BuilderField::Submit
            },
            BuilderField::ImpactToggle => if b.enable_impact {
                BuilderField::ImpactEncrypt
            } else {
                BuilderField::Submit
            },
            BuilderField::ImpactEncrypt => BuilderField::ImpactWipe,
            BuilderField::ImpactWipe => BuilderField::Submit,
            _ => BuilderField::CategorySelect,
        },
        BuilderCategory::Exfiltration => match b.selected_field {
            BuilderField::CategorySelect => if b.enable_exfil {
                BuilderField::ExfilToggle
            } else {
                BuilderField::Submit
            },
            BuilderField::ExfilToggle => if b.enable_exfil {
                BuilderField::ExfilHttp
            } else {
                BuilderField::Submit
            },
            BuilderField::ExfilHttp => BuilderField::ExfilDns,
            BuilderField::ExfilDns => BuilderField::Submit,
            _ => BuilderField::CategorySelect,
        },
    }
}

/// Field that precedes `b.selected_field` within `b.active_category`.
/// `CategorySelect`'s predecessor is always `Submit` of the same category,
/// closing the loop; from `Submit`, backward navigation with the toggle off
/// jumps back to the toggle (Persistence) or to `CategorySelect` (Impact,
/// Exfiltration), never landing on a disabled secondary field.
pub open spec fn prev_field_spec(b: BuilderV) -> BuilderField {
    match b.active_category {
        BuilderCategory::General => match b.selected_field {
            BuilderField::CategorySelect => BuilderField::Submit,
            BuilderField::Url => BuilderField::CategorySelect,
            BuilderField::Port => BuilderField::Url,
            BuilderField::EnableDebug => BuilderField::Port,
            BuilderField::Submit => BuilderField::EnableDebug,
            _ => BuilderField::CategorySelect,
        },
        BuilderCategory::Persistence => match b.selected_field {
            BuilderField::CategorySelect => BuilderField::Submit,
            BuilderField::PersistToggle => BuilderField::CategorySelect,
            BuilderField::PersistRunControl => BuilderField::PersistToggle,
            BuilderField::PersistService => BuilderField::PersistRunControl,
            BuilderField::PersistCron => BuilderField::PersistService,
            BuilderField::Submit => if b.enable_persistence {
                BuilderField::PersistCron
            } else {
                BuilderField::PersistToggle
            },
            _ => BuilderField::CategorySelect,
        },
        BuilderCategory::Impact => match b.selected_field {
            BuilderField::CategorySelect => BuilderField::Submit,
            BuilderField::ImpactToggle => BuilderField::CategorySelect,
            BuilderField::ImpactEncrypt => BuilderField::ImpactToggle,
            BuilderField::ImpactWipe => BuilderField::ImpactEncrypt,
            BuilderField::Submit => if b.enable_impact {
                BuilderField::ImpactWipe
            } else {
                BuilderField::CategorySelect
            },
            _ => BuilderField::CategorySelect,
        },
        BuilderCategory::Exfiltration => match b.selected_field {
            BuilderField::CategorySelect => BuilderField::Submit,
            BuilderField::ExfilToggle => BuilderField::CategorySelect,
            BuilderField::ExfilHttp => BuilderField::ExfilToggle,
            BuilderField::ExfilDns => BuilderField::ExfilHttp,
            BuilderField::Submit => if b.enable_exfil {
                BuilderField::ExfilDns
            } else {
                BuilderField::CategorySelect
            },
            _ => BuilderField::CategorySelect,
        },
    }
}

impl BuilderState {
    /// Moves the focus to the next field of the active category.
    pub fn next_field(&mut self)
        ensures
            final(self)@ == (BuilderV { selected_field: next_field_spec(old(self)@), ..old(self)@ }),
    {
        self.selected_field = match self.active_category {
            BuilderCategory::General => match self.selected_field {
                BuilderField::CategorySelect => BuilderField::Url,
                BuilderField::Url => BuilderField::Port,
                BuilderField::Port => BuilderField::EnableDebug,
                BuilderField::EnableDebug => BuilderField::Submit,
                _ => BuilderField::CategorySelect,
            },
            BuilderCategory::Persistence => match self.selected_field {
                BuilderField::CategorySelect => BuilderField::PersistToggle,
                BuilderField::PersistToggle => if self.enable_persistence {
                    BuilderField::PersistRunControl
                } else {
                    BuilderField::Submit
                },
                BuilderField::PersistRunControl => BuilderField::PersistService,
                BuilderField::PersistService => BuilderField::PersistCron,
                BuilderField::PersistCron => BuilderField::Submit,
                _ => BuilderField::CategorySelect,
            },
            BuilderCategory::Impact => match self.selected_field {
                BuilderField::CategorySelect => if self.enable_impact {
                    BuilderField::ImpactToggle
                } else {
                    BuilderField::Submit
                },
                BuilderField::ImpactToggle => if self.enable_impact {
                    BuilderField::ImpactEncrypt
                } else {
                    BuilderField::Submit
                },
                BuilderField::ImpactEncrypt => BuilderField::ImpactWipe,
                BuilderField::ImpactWipe => BuilderField::Submit,
                _ => BuilderField::CategorySelect,
            },
            BuilderCategory::Exfiltration => match self.selected_field {
                BuilderField::CategorySelect => if self.enable_exfil {
                    BuilderField::ExfilToggle
                } else {
                    BuilderField::Submit
                },
                BuilderField::ExfilToggle => if self.enable_exfil {
                    BuilderField::ExfilHttp
                } else {
                    BuilderField::Submit
                },
                BuilderField::ExfilHttp => BuilderField::ExfilDns,
                BuilderField::ExfilDns => BuilderField::Submit,
                _ => BuilderField::CategorySelect,
            },
        };
    }

    /// Moves the focus to the previous field of the active category.
    pub fn prev_field(&mut self)
        ensures
            final(self)@ == (BuilderV { selected_field: prev_field_spec(old(self)@), ..old(self)@ }),
    {
        self.selected_field = match self.active_category {
            BuilderCategory::General => match self.selected_field {
                BuilderField::CategorySelect => BuilderField::Submit,
                BuilderField::Url => BuilderField::CategorySelect,
                BuilderField::Port => BuilderField::Url,
                BuilderField::EnableDebug => BuilderField::Port,
                BuilderField::Submit => BuilderField::EnableDebug,
                _ => BuilderField::CategorySelect,
            },
            BuilderCategory::Persistence => match self.selected_field {
                BuilderField::CategorySelect => BuilderField::Submit,
                BuilderField::PersistToggle => BuilderField::CategorySelect,
                BuilderField::PersistRunControl => BuilderField::PersistToggle,
                BuilderField::PersistService => BuilderField::PersistRunControl,
                BuilderField::PersistCron => BuilderField::PersistService,
                BuilderField::Submit => if self.enable_persistence {
                    BuilderField::PersistCron
                } else {
                    BuilderField::PersistToggle
                },
                _ => BuilderField::CategorySelect,
            },
            BuilderCategory::Impact => match self.selected_field {
                BuilderField::CategorySelect => BuilderField::Submit,
                BuilderField::ImpactToggle => BuilderField::CategorySelect,
                BuilderField::ImpactEncrypt => BuilderField::ImpactToggle,
                BuilderField::ImpactWipe => BuilderField::ImpactEncrypt,
                BuilderField::Submit => if self.enable_impact {
                    BuilderField::ImpactWipe
                } else {
                    BuilderField::CategorySelect
                },
                _ => BuilderField::CategorySelect,
            },
            BuilderCategory::Exfiltration => match self.selected_field {
                BuilderField::CategorySelect => BuilderField::Submit,
                BuilderField::ExfilToggle => BuilderField::CategorySelect,
                BuilderField::ExfilHttp => BuilderField::ExfilToggle,
                BuilderField::ExfilDns => BuilderField::ExfilHttp,
                BuilderField::Submit => if self.enable_exfil {
                    BuilderField::ExfilDns
                } else {
                    BuilderField::CategorySelect
                },
                _ => BuilderField::CategorySelect,
            },
        };
    }
}

impl Default for BuilderState {
    /// Fresh wizard: General category, selector focused, loopback target,
    /// debug, persistence (run-control), impact (encrypt) and HTTP
    /// exfiltration pre-enabled, build idle.
    fn default() -> (s: Self)
        ensures
            s.active_category == BuilderCategory::General,
            s.selected_field == BuilderField::CategorySelect,
            s.target_url@ == "127.0.0.1"@,
            s.target_port@ == "9999"@,
            s.enable_debug,
            s.enable_persistence,
            s.persist_runcontrol,
            !s.persist_service,
            !s.persist_cron,
            s.enable_impact,
            s.impact_encrypt,
            !s.impact_wipe,
            s.enable_exfil,
            s.exfil_http,
            !s.exfil_dns,
            s.build_status_msg@ == "IDLE"@,
    {
        BuilderState {
            active_category: BuilderCategory::General,
            selected_field: BuilderField::CategorySelect,
            target_url: "127.0.0.1".to_owned(),
            target_port: "9999".to_owned(),
            enable_debug: true,
            enable_persistence: true,
            persist_runcontrol: true,
            persist_service: false,
            persist_cron: false,
            enable_impact: true,
            impact_encrypt: true,
            impact_wipe: false,
            enable_exfil: true,
            exfil_http: true,
            exfil_dns: false,
            build_status_msg: "IDLE".to_owned(),
        }
    }
}

/// Secondary fields of a category: the positions that exist only while the
/// category's enabling toggle is on.
pub open spec fn is_secondary_field(c: BuilderCategory, f: BuilderField) -> bool {
    match c {
        BuilderCategory::General => false,
        BuilderCategory::Persistence => f == BuilderField::PersistRunControl || f
            == BuilderField::PersistService || f == BuilderField::PersistCron,
        BuilderCategory::Impact => f == BuilderField::ImpactEncrypt || f
            == BuilderField::ImpactWipe,
        BuilderCategory::Exfiltration => f == BuilderField::ExfilHttp || f
            == BuilderField::ExfilDns,
    }
}

/// The enabling toggle of the active category, read from the wizard state.
/// General has no toggle and counts as always enabled.
pub open spec fn category_enabled(b: BuilderV) -> bool {
    match b.active_category {
        BuilderCategory::General => true,
        BuilderCategory::Persistence => b.enable_persistence,
        BuilderCategory::Impact => b.enable_impact,
        BuilderCategory::Exfiltration => b.enable_exfil,
    }
}

/// Skip law: while the active category's enabling toggle is off, neither
/// forward nor backward navigation ever lands on one of its secondary
/// fields, from any position navigation can reach.
pub proof fn lemma_builder_skip_disabled(b: BuilderV)
    requires
        !category_enabled(b),
        on_navigation_cycle(b),
    ensures
        !is_secondary_field(b.active_category, next_field_spec(b)),
        !is_secondary_field(b.active_category, prev_field_spec(b)),
{
}

/// Fields reachable by navigation within the active category under the
/// current toggle state: the shared positions, the category's own primary
/// fields, and its secondary fields only while the toggle is on.
pub open spec fn on_navigation_cycle(b: BuilderV) -> bool {
    ||| b.selected_field == BuilderField::CategorySelect
    ||| b.selected_field == BuilderField::Submit
    ||| match b.active_category {
        BuilderCategory::General => b.selected_field == BuilderField::Url || b.selected_field
            == BuilderField::Port || b.selected_field == BuilderField::EnableDebug,
        BuilderCategory::Persistence => b.selected_field == BuilderField::PersistToggle || (
        b.enable_persistence && is_secondary_field(b.active_category, b.selected_field)),
        BuilderCategory::Impact => b.enable_impact && (b.selected_field
            == BuilderField::ImpactToggle || is_secondary_field(
            b.active_category,
            b.selected_field,
        )),
        BuilderCategory::Exfiltration => b.enable_exfil && (b.selected_field
            == BuilderField::ExfilToggle || is_secondary_field(
            b.active_category,
            b.selected_field,
        )),
    }
}

/// On the navigation cycle, one step back undoes one step forward and one
/// step forward undoes one step back, and both steps stay on the cycle:
/// per category and toggle state the adjacency is one closed loop.
pub proof fn lemma_builder_cycle_inverse(b: BuilderV)
    requires
        on_navigation_cycle(b),
    ensures
        prev_field_spec(BuilderV { selected_field: next_field_spec(b), ..b }) == b.selected_field,
        next_field_spec(BuilderV { selected_field: prev_field_spec(b), ..b }) == b.selected_field,
        on_navigation_cycle(BuilderV { selected_field: next_field_spec(b), ..b }),
        on_navigation_cycle(BuilderV { selected_field: prev_field_spec(b), ..b }),
{
}

} // verus!
