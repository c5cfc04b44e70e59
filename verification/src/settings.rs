//! The part of the drainer's configuration that its startup reads.

use crate::errors::join;
use vstd::prelude::*;

verus! {

/// The configuration: the names of the tenants and the level of the log.
///
/// No two tenants have the same name.
#[derive(Debug)]
pub struct Settings {
    tenants: Vec<String>,
    log_level: String,
}

/// Whether no two of the names are the same text.
pub open spec fn distinct_names(names: Seq<String>) -> bool {
    forall|i: int, j: int|
        0 <= i < j < names.len() ==> (#[trigger] names[i])@ != (#[trigger] names[j])@
}

/// Whether one of the names is the text `name`.
pub open spec fn has_name(names: Seq<String>, name: Seq<char>) -> bool {
    exists|i: int| 0 <= i < names.len() && (#[trigger] names[i])@ == name
}

/// What may be logged when the drainer starts: two records, in this order. The
/// first is the banner; the second is the notice, with the number of tenants and
/// the level of the log.
pub struct StartupInfo {
    pub banner: String,
    pub notice: String,
    pub tenant_count: usize,
    pub log_level: String,
}

/// What may be logged of a configuration, in mathematical terms.
pub ghost struct StartupFacts {
    pub banner: Seq<char>,
    pub notice: Seq<char>,
    pub tenant_count: nat,
    pub log_level: Seq<char>,
}

impl View for StartupInfo {
    type V = StartupFacts;

    open spec fn view(&self) -> StartupFacts {
        StartupFacts {
            banner: self.banner@,
            notice: self.notice@,
            tenant_count: self.tenant_count as nat,
            log_level: self.log_level@,
        }
    }
}

/// The line that announces the drainer, with its version where one is known.
pub open spec fn startup_banner(version: Option<&str>) -> Seq<char> {
    match version {
        Some(version) => "Starting drainer (Version: "@ + version@ + ")"@,
        None => "Starting drainer"@,
    }
}

/// What is logged of a configuration: the banner; then that the configuration was
/// loaded, with how many tenants there are and the level of the log.
pub open spec fn startup_facts(conf: Settings, version: Option<&str>) -> StartupFacts {
    StartupFacts {
        banner: startup_banner(version),
        notice: "Drainer configuration loaded"@,
        tenant_count: conf.tenants().len(),
        log_level: conf.level(),
    }
}

impl Settings {
    /// The names of the tenants, in the order in which their stores are made.
    pub closed spec fn tenants(self) -> Seq<String> {
        self.tenants@
    }

    /// The level of the log.
    pub closed spec fn level(self) -> Seq<char> {
        self.log_level@
    }

    /// No two tenants share a name.
    pub open spec fn wf(self) -> bool {
        distinct_names(self.tenants())
    }

    /// A configuration without tenants.
    pub fn new(log_level: String) -> (settings: Settings)
        ensures
            settings.wf(),
            settings.tenants() == Seq::<String>::empty(),
            settings.level() == log_level@,
    {
        Settings { tenants: Vec::new(), log_level }
    }

    /// A configuration with the tenants of those names.
    pub(crate) fn with_tenants(tenants: Vec<String>, log_level: String) -> (settings: Settings)
        requires
            distinct_names(tenants@),
        ensures
            settings.wf(),
            settings.tenants() == tenants@,
            settings.level() == log_level@,
    {
        Settings { tenants, log_level }
    }

    /// Whether a tenant of that name is configured.
    pub fn has_tenant(&self, name: &String) -> (found: bool)
        ensures
            found == has_name(self.tenants(), name@),
    {
        let mut i: usize = 0;
        while i < self.tenants.len()
            invariant
                i <= self.tenants@.len(),
                forall|j: int| 0 <= j < i ==> (#[trigger] self.tenants@[j])@ != name@,
            decreases self.tenants@.len() - i,
        {
            if self.tenants[i] == *name {
                assert(self.tenants@[i as int]@ == name@);
                return true;
            }
            i += 1;
        }
        false
    }

    /// Adds a tenant. A tenant whose name is taken changes nothing, and the
    /// answer is `false`.
    pub fn add_tenant(&mut self, name: String) -> (added: bool)
        requires
            old(self).wf(),
        ensures
            final(self).wf(),
            final(self).level() == old(self).level(),
            added == !has_name(old(self).tenants(), name@),
            final(self).tenants() == (if added {
                old(self).tenants().push(name)
            } else {
                old(self).tenants()
            }),
    {
        if self.has_tenant(&name) {
            false
        } else {
            self.tenants.push(name);
            true
        }
    }

    /// The names of the tenants.
    pub fn get_tenants(&self) -> (names: &Vec<String>)
        ensures
            names@ == self.tenants(),
    {
        &self.tenants
    }
}

/// What is logged when the drainer starts with this configuration: how many
/// tenants there are and the level of the log, and nothing else of it.
pub fn log_startup_info(conf: &Settings, version: Option<&str>) -> (info: StartupInfo)
    ensures
        info@ == startup_facts(*conf, version),
        match version {
            Some(version) => info.banner@ == "Starting drainer (Version: "@ + version@ + ")"@,
            None => info.banner@ == "Starting drainer"@,
        },
        info.notice@ == "Drainer configuration loaded"@,
        info.tenant_count == conf.tenants().len(),
        info.log_level@ == conf.level(),
{
    let banner = match version {
        Some(version) => join("Starting drainer (Version: ", version).concat(")"),
        None => "Starting drainer".to_owned(),
    };
    StartupInfo {
        banner,
        notice: "Drainer configuration loaded".to_owned(),
        tenant_count: conf.tenants.len(),
        log_level: conf.log_level.clone(),
    }
}

/// The log keeps the tenants to itself: two configurations with as many tenants
/// and the same level of the log are logged alike, whatever their tenants are
/// called.
pub proof fn law_startup_log_hides_tenants(a: Settings, b: Settings, version: Option<&str>)
    requires
        a.tenants().len() == b.tenants().len(),
        a.level() == b.level(),
    ensures
        startup_facts(a, version) == startup_facts(b, version),
{
}

/// Names are distinct exactly if their texts hold no duplicate, and a name is
/// among them exactly if its text is.
pub proof fn law_names_go_by_their_texts(names: Seq<String>, name: Seq<char>)
    ensures
        distinct_names(names) <==> names.map_values(|n: String| n@).no_duplicates(),
        has_name(names, name) <==> names.map_values(|n: String| n@).contains(name),
{
    let texts = names.map_values(|n: String| n@);
    assert forall|i: int, j: int| 0 <= i < j < names.len() implies ((#[trigger] texts[i]) == (
    #[trigger] texts[j]) <==> names[i]@ == names[j]@) by {}
    if distinct_names(names) {
        assert forall|i: int, j: int|
            0 <= i < texts.len() && 0 <= j < texts.len() && i != j implies texts[i] != texts[j] by {
            if i < j {
                assert(names[i]@ != names[j]@);
            } else {
                assert(names[j]@ != names[i]@);
            }
        }
    }
    if texts.no_duplicates() {
        assert forall|i: int, j: int| 0 <= i < j < names.len() implies (#[trigger] names[i])@ != (
        #[trigger] names[j])@ by {
            assert(texts[i] != texts[j]);
        }
    }
    if has_name(names, name) {
        let i = choose|i: int| 0 <= i < names.len() && (#[trigger] names[i])@ == name;
        assert(texts[i] == name);
    }
    if texts.contains(name) {
        let i = texts.index_of(name);
        assert(names[i]@ == name);
    }
}

/// What is logged at startup, for every configuration: the banner, with the version
/// where one is known; then the notice, with the number of tenants and the level.
pub proof fn law_what_is_logged_at_startup(conf: Settings, version: &str)
    ensures
        startup_facts(conf, None).banner == "Starting drainer"@,
        startup_facts(conf, Some(version)).banner == "Starting drainer (Version: "@ + version@
            + ")"@,
        startup_facts(conf, None).notice == "Drainer configuration loaded"@,
        startup_facts(conf, Some(version)).notice == "Drainer configuration loaded"@,
        startup_facts(conf, None).tenant_count == conf.tenants().len(),
        startup_facts(conf, Some(version)).tenant_count == conf.tenants().len(),
        startup_facts(conf, None).log_level == conf.level(),
        startup_facts(conf, Some(version)).log_level == conf.level(),
{
}

} // verus!
